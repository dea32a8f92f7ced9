//! Properties that hold of every rendering.

use vstd::prelude::*;
use crate::node::Node;
use crate::render::spec_render;
use crate::text::indent_of;

verus! {

/// Whether `n` is a construct that renders to nothing.
pub open spec fn is_dropped(n: Node) -> bool {
    n is Complex || n is Clss || n is Other
}

/// Whether the rendering of `n` begins with the indentation of its own depth.
/// Sequences and returns hand their depth on to their children instead, and
/// the empty node, the ellipsis and the dropped constructs carry none.
pub open spec fn carries_indent(n: Node) -> bool {
    !(n is Unit || n is Ellipsis || n is Stmts || n is Return || is_dropped(n))
}

/// Whether `n` carries its own indentation and all its children are rendered
/// inline, at depth 0.
pub open spec fn is_single_line(n: Node) -> bool {
    carries_indent(n) && !(n is If || n is Let || n is LetRec || n is Match)
}

/// A complex number, a class definition and any construct without a rendering
/// rule render to the empty text, at every depth.
pub proof fn lemma_dropped_render_empty(n: Node, d: nat)
    requires
        is_dropped(n),
    ensures
        spec_render(n, d) == Seq::<char>::empty(),
{
}

/// A node that carries indentation begins with exactly the indentation of the
/// depth it is rendered at. A single-line node rendered at depth `d` is its
/// rendering at depth 0 behind that prefix, so the operands of an operator
/// carry no indentation of their own.
pub proof fn lemma_indentation_prefix(n: Node, d: nat)
    requires
        carries_indent(n),
    ensures
        spec_render(n, d).len() >= indent_of(d).len(),
        spec_render(n, d).subrange(0, indent_of(d).len() as int) == indent_of(d),
        is_single_line(n) ==> spec_render(n, d) == indent_of(d) + spec_render(n, 0),
{
    let k = indent_of(d).len() as int;
    assert(indent_of(0) =~= Seq::<char>::empty());
    match n {
        Node::Break => {
            assert(spec_render(n, d) =~= indent_of(d) + spec_render(n, 0));
        },
        Node::Continue => {
            assert(spec_render(n, d) =~= indent_of(d) + spec_render(n, 0));
        },
        Node::Int { .. } => {
            assert(spec_render(n, d) =~= indent_of(d) + spec_render(n, 0));
        },
        Node::Float { .. } => {
            assert(spec_render(n, d) =~= indent_of(d) + spec_render(n, 0));
        },
        Node::Bool { .. } => {
            assert(spec_render(n, d) =~= indent_of(d) + spec_render(n, 0));
        },
        Node::Str { .. } => {
            assert(spec_render(n, d) =~= indent_of(d) + spec_render(n, 0));
        },
        Node::Ident { .. } => {
            assert(spec_render(n, d) =~= indent_of(d) + spec_render(n, 0));
        },
        Node::Bytes { .. } => {
            assert(spec_render(n, d) =~= indent_of(d) + spec_render(n, 0));
        },
        Node::Tuple { .. } => {
            assert(spec_render(n, d) =~= indent_of(d) + spec_render(n, 0));
        },
        Node::Array { .. } => {
            assert(spec_render(n, d) =~= indent_of(d) + spec_render(n, 0));
        },
        Node::Neg { .. } => {
            assert(spec_render(n, d) =~= indent_of(d) + spec_render(n, 0));
        },
        Node::Not { .. } => {
            assert(spec_render(n, d) =~= indent_of(d) + spec_render(n, 0));
        },
        Node::And { .. } => {
            assert(spec_render(n, d) =~= indent_of(d) + spec_render(n, 0));
        },
        Node::Or { .. } => {
            assert(spec_render(n, d) =~= indent_of(d) + spec_render(n, 0));
        },
        Node::Add { .. } => {
            assert(spec_render(n, d) =~= indent_of(d) + spec_render(n, 0));
        },
        Node::Sub { .. } => {
            assert(spec_render(n, d) =~= indent_of(d) + spec_render(n, 0));
        },
        Node::Mul { .. } => {
            assert(spec_render(n, d) =~= indent_of(d) + spec_render(n, 0));
        },
        Node::Div { .. } => {
            assert(spec_render(n, d) =~= indent_of(d) + spec_render(n, 0));
        },
        Node::Eq { .. } => {
            assert(spec_render(n, d) =~= indent_of(d) + spec_render(n, 0));
        },
        Node::LE { .. } => {
            assert(spec_render(n, d) =~= indent_of(d) + spec_render(n, 0));
        },
        Node::In { .. } => {
            assert(spec_render(n, d) =~= indent_of(d) + spec_render(n, 0));
        },
        Node::While { .. } => {
            assert(spec_render(n, d) =~= indent_of(d) + spec_render(n, 0));
        },
        Node::Get { .. } => {
            assert(spec_render(n, d) =~= indent_of(d) + spec_render(n, 0));
        },
        Node::Put { .. } => {
            assert(spec_render(n, d) =~= indent_of(d) + spec_render(n, 0));
        },
        Node::Remove { .. } => {
            assert(spec_render(n, d) =~= indent_of(d) + spec_render(n, 0));
        },
        Node::Length { .. } => {
            assert(spec_render(n, d) =~= indent_of(d) + spec_render(n, 0));
        },
        Node::MatchLine { .. } => {
            assert(spec_render(n, d) =~= indent_of(d) + spec_render(n, 0));
        },
        Node::Var { .. } => {
            assert(spec_render(n, d) =~= indent_of(d) + spec_render(n, 0));
        },
        Node::App { .. } => {
            assert(spec_render(n, d) =~= indent_of(d) + spec_render(n, 0));
        },
        Node::Iprt { .. } => {
            assert(spec_render(n, d) =~= indent_of(d) + spec_render(n, 0));
        },
        Node::Comment { .. } => {
            assert(spec_render(n, d) =~= indent_of(d) + spec_render(n, 0));
        },
        Node::CommentMulti { .. } => {
            assert(spec_render(n, d) =~= indent_of(d) + spec_render(n, 0));
        },
        Node::Assert { .. } => {
            assert(spec_render(n, d) =~= indent_of(d) + spec_render(n, 0));
        },
        Node::If { .. } => {
            assert(spec_render(n, d).subrange(0, k) =~= indent_of(d));
        },
        Node::Let { .. } => {
            assert(spec_render(n, d).subrange(0, k) =~= indent_of(d));
        },
        Node::LetRec { .. } => {
            assert(spec_render(n, d).subrange(0, k) =~= indent_of(d));
        },
        Node::Match { .. } => {
            assert(spec_render(n, d).subrange(0, k) =~= indent_of(d));
        },
        _ => {},
    }
    if is_single_line(n) {
        assert(spec_render(n, d).subrange(0, k) =~= indent_of(d));
    }
}

/// An `if` whose else branch is the empty node renders as a `case` whose
/// `false` branch is `nil`.
pub proof fn lemma_if_without_else(condition: Node, then_expr: Node, d: nat)
    ensures
        spec_render(
            Node::If {
                condition: Box::new(condition),
                then_expr: Box::new(then_expr),
                else_expr: Box::new(Node::Unit),
            },
            d,
        ) == indent_of(d) + "case "@ + spec_render(condition, 0) + " do\n"@ + indent_of(d + 1)
            + "true -> "@ + spec_render(then_expr, 0) + "\n"@ + indent_of(d + 1) + "false -> "@
            + "nil"@ + "\n"@ + indent_of(d) + "end"@,
{
}

/// A boolean literal whose stored text is anything but `true` renders as
/// `false`.
pub proof fn lemma_bool_canonical(value: String, d: nat)
    requires
        value@ != "true"@,
    ensures
        spec_render(Node::Bool { value }, d) == indent_of(d) + "false"@,
{
}

/// Sequencing is associative: both groupings of three statements render as the
/// three statements, one per line, each at the same depth.
pub proof fn lemma_stmts_associative(a: Node, b: Node, c: Node, d: nat)
    ensures
        spec_render(
            Node::Stmts {
                expr1: Box::new(Node::Stmts { expr1: Box::new(a), expr2: Box::new(b) }),
                expr2: Box::new(c),
            },
            d,
        ) == spec_render(
            Node::Stmts {
                expr1: Box::new(a),
                expr2: Box::new(Node::Stmts { expr1: Box::new(b), expr2: Box::new(c) }),
            },
            d,
        ),
        spec_render(
            Node::Stmts {
                expr1: Box::new(a),
                expr2: Box::new(Node::Stmts { expr1: Box::new(b), expr2: Box::new(c) }),
            },
            d,
        ) == spec_render(a, d) + "\n"@ + spec_render(b, d) + "\n"@ + spec_render(c, d),
{
    let left = spec_render(
        Node::Stmts {
            expr1: Box::new(Node::Stmts { expr1: Box::new(a), expr2: Box::new(b) }),
            expr2: Box::new(c),
        },
        d,
    );
    let right = spec_render(
        Node::Stmts {
            expr1: Box::new(a),
            expr2: Box::new(Node::Stmts { expr1: Box::new(b), expr2: Box::new(c) }),
        },
        d,
    );
    let ab = spec_render(Node::Stmts { expr1: Box::new(a), expr2: Box::new(b) }, d);
    let bc = spec_render(Node::Stmts { expr1: Box::new(b), expr2: Box::new(c) }, d);
    assert(ab == spec_render(a, d) + "\n"@ + spec_render(b, d));
    assert(bc == spec_render(b, d) + "\n"@ + spec_render(c, d));
    assert(left == ab + "\n"@ + spec_render(c, d));
    assert(right == spec_render(a, d) + "\n"@ + bc);
    assert(left =~= right);
    assert(right =~= spec_render(a, d) + "\n"@ + spec_render(b, d) + "\n"@ + spec_render(c, d));
}

} // verus!
