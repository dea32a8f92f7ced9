//! The syntax tree that the generator reads.

use vstd::prelude::*;

verus! {

/// A node of the syntax tree. Each variant carries the child data that its
/// rendering reads. Flags such as `insert` and `is_value` are kept as text:
/// only the exact text `true` counts as set.
pub enum Node {
    Unit,
    Break,
    Continue,
    Ellipsis,
    Int { value: String },
    Float { value: String },
    Bool { value: String },
    Str { value: String },
    Ident { value: String },
    Bytes { elems: Vec<u8> },
    Complex { real: String, imag: String },
    Tuple { elems: Vec<Node> },
    Array { elems: Vec<Node> },
    Neg { expr: Box<Node> },
    Not { bool_expr: Box<Node> },
    And { bool_expr1: Box<Node>, bool_expr2: Box<Node> },
    Or { bool_expr1: Box<Node>, bool_expr2: Box<Node> },
    Add { number_expr1: Box<Node>, number_expr2: Box<Node> },
    Sub { number_expr1: Box<Node>, number_expr2: Box<Node> },
    Mul { number_expr1: Box<Node>, number_expr2: Box<Node> },
    Div { number_expr1: Box<Node>, number_expr2: Box<Node> },
    Eq { expr1: Box<Node>, expr2: Box<Node> },
    LE { expr1: Box<Node>, expr2: Box<Node> },
    /// Membership of `expr1` (the element) in `expr2` (the collection).
    In { expr1: Box<Node>, expr2: Box<Node> },
    If { condition: Box<Node>, then_expr: Box<Node>, else_expr: Box<Node> },
    While { condition: Box<Node>, loop_expr: Box<Node> },
    Let { var: String, value: Box<Node>, expr: Box<Node> },
    LetRec { name: String, args: Vec<Node>, body: Box<Node> },
    Get { array_name: String, elem: Box<Node> },
    Put { array_name: String, elem: Box<Node>, value: Box<Node>, insert: String },
    Remove { array_name: String, elem: Box<Node>, is_value: String },
    Length { var: String },
    Match { expr: Box<Node>, case_list: Vec<Node> },
    MatchLine { condition: Box<Node>, case_expr: Box<Node> },
    Var { var: String },
    App { object_name: String, fun: Box<Node>, param_list: Vec<Node> },
    Stmts { expr1: Box<Node>, expr2: Box<Node> },
    Iprt { name: String },
    Clss { name: String },
    Return { value: Box<Node> },
    Comment { value: String },
    CommentMulti { value: String },
    Assert { condition: Box<Node>, message: Box<Node> },
    /// Any construct that has no rendering rule in the target language.
    Other,
}

} // verus!
