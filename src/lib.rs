//! A code generator that turns a syntax tree into source text for an
//! Elixir-like target language.

pub mod laws;
pub mod node;
pub mod render;
pub mod text;

pub use node::Node;
pub use render::{generate, render};
