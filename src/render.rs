//! Rendering of a syntax tree into target source text.

use vstd::prelude::*;
use vstd::string::*;
use crate::node::Node;
use crate::text::{comp_indent, decimal, indent_of, push_decimal};

verus! {

/// Whether a flag given as text is set: only the exact text `true` is.
pub open spec fn flag_set(s: Seq<char>) -> bool {
    s == "true"@
}

/// The text of a boolean literal whose stored value is `s`.
pub open spec fn bool_text(s: Seq<char>) -> Seq<char> {
    if flag_set(s) {
        "true"@
    } else {
        "false"@
    }
}

/// The decimal numerals of the bytes in `b`, joined by `", "`.
pub open spec fn bytes_text(b: Seq<u8>) -> Seq<char>
    decreases b.len(),
{
    if b.len() == 0 {
        Seq::empty()
    } else if b.len() == 1 {
        decimal(b[0] as nat)
    } else {
        bytes_text(b.drop_last()) + ", "@ + decimal(b.last() as nat)
    }
}

/// The renderings of the nodes in `s`, each at depth `d`, joined by `sep`.
pub open spec fn spec_join(s: Seq<Node>, d: nat, sep: Seq<char>) -> Seq<char>
    decreases s,
{
    if s.len() == 0 {
        Seq::empty()
    } else if s.len() == 1 {
        spec_render(s[0], d)
    } else {
        spec_join(s.drop_last(), d, sep) + sep + spec_render(s.last(), d)
    }
}

/// The text of `n` rendered at indentation depth `d`.
pub open spec fn spec_render(n: Node, d: nat) -> Seq<char>
    decreases n,
{
    let ind = indent_of(d);
    match n {
        Node::Unit => Seq::empty(),
        Node::Break => ind + "throw(:break)"@,
        Node::Continue => ind + "throw(:continue)"@,
        Node::Ellipsis => "..."@,
        Node::Int { value } => ind + value@,
        Node::Float { value } => ind + value@,
        Node::Bool { value } => ind + bool_text(value@),
        Node::Str { value } => ind + value@,
        Node::Ident { value } => ind + value@,
        Node::Bytes { elems } => ind + "<<"@ + bytes_text(elems@) + ">>"@,
        Node::Complex { .. } => Seq::empty(),
        Node::Tuple { elems } => ind + "{"@ + spec_join(elems@, 0, ", "@) + "}"@,
        Node::Array { elems } => ind + "["@ + spec_join(elems@, 0, ", "@) + "]"@,
        Node::Neg { expr } => ind + "-"@ + spec_render(*expr, 0),
        Node::Not { bool_expr } => ind + "not "@ + spec_render(*bool_expr, 0),
        Node::And { bool_expr1, bool_expr2 } => ind + spec_render(*bool_expr1, 0) + " and "@
            + spec_render(*bool_expr2, 0),
        Node::Or { bool_expr1, bool_expr2 } => ind + spec_render(*bool_expr1, 0) + " or "@
            + spec_render(*bool_expr2, 0),
        Node::Add { number_expr1, number_expr2 } => ind + spec_render(*number_expr1, 0) + " + "@
            + spec_render(*number_expr2, 0),
        Node::Sub { number_expr1, number_expr2 } => ind + spec_render(*number_expr1, 0) + " - "@
            + spec_render(*number_expr2, 0),
        Node::Mul { number_expr1, number_expr2 } => ind + spec_render(*number_expr1, 0) + " * "@
            + spec_render(*number_expr2, 0),
        Node::Div { number_expr1, number_expr2 } => ind + spec_render(*number_expr1, 0) + " / "@
            + spec_render(*number_expr2, 0),
        Node::Eq { expr1, expr2 } => ind + spec_render(*expr1, 0) + " == "@ + spec_render(*expr2, 0),
        Node::LE { expr1, expr2 } => ind + spec_render(*expr1, 0) + " <= "@ + spec_render(*expr2, 0),
        Node::In { expr1, expr2 } => ind + "Enum.member?("@ + spec_render(*expr2, 0) + ", "@
            + spec_render(*expr1, 0) + ")"@,
        Node::If { condition, then_expr, else_expr } => {
            let else_text = match *else_expr {
                Node::Unit => "nil"@,
                _ => spec_render(*else_expr, 0),
            };
            ind + "case "@ + spec_render(*condition, 0) + " do\n"@ + indent_of(d + 1) + "true -> "@
                + spec_render(*then_expr, 0) + "\n"@ + indent_of(d + 1) + "false -> "@ + else_text
                + "\n"@ + ind + "end"@
        },
        Node::While { condition, loop_expr } => ind + "Stream.iterate(nil, fn _ -> if "@
            + spec_render(*condition, 0) + ", do: {:cont, "@ + spec_render(*loop_expr, 0)
            + "}, else: :halt end) |> Enum.to_list()"@,
        Node::Let { var, value, expr } => {
            let line = ind + var@ + " = "@ + spec_render(*value, 0);
            match *expr {
                Node::Unit => line,
                _ => line + "\n"@ + spec_render(*expr, d),
            }
        },
        Node::LetRec { name, args, body } => ind + "def "@ + name@ + "("@ + spec_join(args@, 0, ", "@)
            + ") do\n"@ + spec_render(*body, d + 1) + "\n"@ + ind + "end"@,
        Node::Get { array_name, elem } => ind + "Enum.at("@ + array_name@ + ", "@ + spec_render(
            *elem,
            0,
        ) + ")"@,
        Node::Put { array_name, elem, value, insert } => ind + (if flag_set(insert@) {
            "List.insert_at("@
        } else {
            "List.replace_at("@
        }) + array_name@ + ", "@ + spec_render(*elem, 0) + ", "@ + spec_render(*value, 0) + ")"@,
        Node::Remove { array_name, elem, is_value } => ind + (if flag_set(is_value@) {
            "List.delete("@
        } else {
            "List.delete_at("@
        }) + array_name@ + ", "@ + spec_render(*elem, 0) + ")"@,
        Node::Length { var } => ind + "length("@ + var@ + ")"@,
        Node::Match { expr, case_list } => ind + "case "@ + spec_render(*expr, 0) + " do\n"@
            + spec_join(case_list@, d + 1, "\n"@) + "\n"@ + ind + "end"@,
        Node::MatchLine { condition, case_expr } => ind + spec_render(*condition, 0) + " -> "@
            + spec_render(*case_expr, 0),
        Node::Var { var } => ind + var@,
        Node::App { object_name, fun, param_list } => ind + (if object_name@.len() == 0 {
            Seq::empty()
        } else {
            object_name@ + "."@
        }) + spec_render(*fun, 0) + "("@ + spec_join(param_list@, 0, ", "@) + ")"@,
        Node::Stmts { expr1, expr2 } => spec_render(*expr1, d) + "\n"@ + spec_render(*expr2, d),
        Node::Iprt { name } => ind + "import "@ + name@,
        Node::Clss { .. } => Seq::empty(),
        Node::Return { value } => spec_render(*value, d),
        Node::Comment { value } => ind + "#"@ + value@,
        Node::CommentMulti { value } => ind + "#"@ + value@,
        Node::Assert { condition, message } => ind + "if !("@ + spec_render(*condition, 0)
            + "), do: raise("@ + spec_render(*message, 0) + ")"@,
        Node::Other => Seq::empty(),
    }
}

/// The larger of two natural numbers.
pub open spec fn max_nat(a: nat, b: nat) -> nat {
    if a >= b {
        a
    } else {
        b
    }
}

/// The greatest height among the nodes of `s`.
pub open spec fn height_list(s: Seq<Node>) -> nat
    decreases s,
{
    if s.len() == 0 {
        0
    } else {
        max_nat(height_list(s.drop_last()), height(s.last()))
    }
}

/// The height of the tree under `n`: a leaf has height 0.
pub open spec fn height(n: Node) -> nat
    decreases n,
{
    match n {
        Node::Tuple { elems } => 1 + height_list(elems@),
        Node::Array { elems } => 1 + height_list(elems@),
        Node::Neg { expr } => 1 + height(*expr),
        Node::Not { bool_expr } => 1 + height(*bool_expr),
        Node::And { bool_expr1, bool_expr2 } => 1 + max_nat(height(*bool_expr1), height(*bool_expr2)),
        Node::Or { bool_expr1, bool_expr2 } => 1 + max_nat(height(*bool_expr1), height(*bool_expr2)),
        Node::Add { number_expr1, number_expr2 } => 1 + max_nat(
            height(*number_expr1),
            height(*number_expr2),
        ),
        Node::Sub { number_expr1, number_expr2 } => 1 + max_nat(
            height(*number_expr1),
            height(*number_expr2),
        ),
        Node::Mul { number_expr1, number_expr2 } => 1 + max_nat(
            height(*number_expr1),
            height(*number_expr2),
        ),
        Node::Div { number_expr1, number_expr2 } => 1 + max_nat(
            height(*number_expr1),
            height(*number_expr2),
        ),
        Node::Eq { expr1, expr2 } => 1 + max_nat(height(*expr1), height(*expr2)),
        Node::LE { expr1, expr2 } => 1 + max_nat(height(*expr1), height(*expr2)),
        Node::In { expr1, expr2 } => 1 + max_nat(height(*expr1), height(*expr2)),
        Node::If { condition, then_expr, else_expr } => 1 + max_nat(
            height(*condition),
            max_nat(height(*then_expr), height(*else_expr)),
        ),
        Node::While { condition, loop_expr } => 1 + max_nat(height(*condition), height(*loop_expr)),
        Node::Let { value, expr, .. } => 1 + max_nat(height(*value), height(*expr)),
        Node::LetRec { args, body, .. } => 1 + max_nat(height_list(args@), height(*body)),
        Node::Get { elem, .. } => 1 + height(*elem),
        Node::Put { elem, value, .. } => 1 + max_nat(height(*elem), height(*value)),
        Node::Remove { elem, .. } => 1 + height(*elem),
        Node::Match { expr, case_list } => 1 + max_nat(height(*expr), height_list(case_list@)),
        Node::MatchLine { condition, case_expr } => 1 + max_nat(height(*condition), height(*case_expr)),
        Node::App { fun, param_list, .. } => 1 + max_nat(height(*fun), height_list(param_list@)),
        Node::Stmts { expr1, expr2 } => 1 + max_nat(height(*expr1), height(*expr2)),
        Node::Return { value } => 1 + height(*value),
        Node::Assert { condition, message } => 1 + max_nat(height(*condition), height(*message)),
        _ => 0,
    }
}

/// No node of `s` is higher than the list's height.
pub proof fn lemma_height_list_bound(s: Seq<Node>, i: int)
    requires
        0 <= i < s.len(),
    ensures
        height(s[i]) <= height_list(s),
    decreases s.len(),
{
    if i < s.len() - 1 {
        lemma_height_list_bound(s.drop_last(), i);
    }
}

/// Whether the flag text `s` is set.
fn flag_is_set(s: &String) -> (r: bool)
    ensures
        r == flag_set(s@),
{
    let t = String::from_str("true");
    *s == t
}

/// Appends the decimal numerals of the bytes of `b`, joined by `", "`.
fn push_bytes(s: &mut String, b: &Vec<u8>)
    ensures
        final(s)@ == old(s)@ + bytes_text(b@),
{
    let ghost s0 = s@;
    let mut i: usize = 0;
    while i < b.len()
        invariant
            i <= b.len(),
            s@ == s0 + bytes_text(b@.subrange(0, i as int)),
        decreases b.len() - i,
    {
        let ghost before = s@;
        if i > 0 {
            s.append(", ");
        }
        push_decimal(s, b[i]);
        proof {
            let next = b@.subrange(0, i + 1);
            assert(next.drop_last() =~= b@.subrange(0, i as int));
            assert(next.last() == b@[i as int]);
            if i == 0 {
                assert(b@.subrange(0, 0) =~= Seq::<u8>::empty());
            }
        }
        i = i + 1;
    }
    assert(b@.subrange(0, b.len() as int) =~= b@);
}

/// Appends the renderings of the nodes of `elems`, each at `depth`, joined by
/// `sep`.
fn join_into(s: &mut String, elems: &Vec<Node>, depth: i64, sep: &str)
    requires
        0 <= depth,
        depth + height_list(elems@) <= i64::MAX,
    ensures
        final(s)@ == old(s)@ + spec_join(elems@, depth as nat, sep@),
    decreases elems, 0nat,
{
    let ghost s0 = s@;
    let mut i: usize = 0;
    while i < elems.len()
        invariant
            i <= elems.len(),
            0 <= depth,
            depth + height_list(elems@) <= i64::MAX,
            s@ == s0 + spec_join(elems@.subrange(0, i as int), depth as nat, sep@),
        decreases elems.len() - i,
    {
        if i > 0 {
            s.append(sep);
        }
        proof {
            lemma_height_list_bound(elems@, i as int);
        }
        assert(decreases_to!(elems => elems[i as int]));
        render_into(s, &elems[i], depth);
        proof {
            let next = elems@.subrange(0, i + 1);
            assert(next.drop_last() =~= elems@.subrange(0, i as int));
            assert(next.last() == elems@[i as int]);
            if i == 0 {
                assert(elems@.subrange(0, 0) =~= Seq::<Node>::empty());
            }
        }
        i = i + 1;
    }
    assert(elems@.subrange(0, elems.len() as int) =~= elems@);
}

/// Appends the rendering of `n` at indentation depth `depth`. The kinds of
/// node with children are handed to the helpers below.
fn render_into(s: &mut String, n: &Node, depth: i64)
    requires
        0 <= depth,
        depth + height(*n) <= i64::MAX,
    ensures
        final(s)@ == old(s)@ + spec_render(*n, depth as nat),
    decreases n, 1nat,
{
    let ghost s0 = s@;
    let ind = comp_indent(depth);
    match n {
        Node::Unit => {},
        Node::Break => {
            s.append(ind.as_str());
            s.append("throw(:break)");
        },
        Node::Continue => {
            s.append(ind.as_str());
            s.append("throw(:continue)");
        },
        Node::Ellipsis => {
            s.append("...");
        },
        Node::Int { value } | Node::Float { value } | Node::Str { value } | Node::Ident { value } => {
            s.append(ind.as_str());
            s.append(value.as_str());
        },
        Node::Bool { value } => {
            s.append(ind.as_str());
            if flag_is_set(value) {
                s.append("true");
            } else {
                s.append("false");
            }
        },
        Node::Bytes { elems } => {
            s.append(ind.as_str());
            s.append("<<");
            push_bytes(s, elems);
            s.append(">>");
        },
        Node::Complex { .. } => {},
        Node::Tuple { elems } => {
            s.append(ind.as_str());
            s.append("{");
            join_into(s, elems, 0, ", ");
            s.append("}");
        },
        Node::Array { elems } => {
            s.append(ind.as_str());
            s.append("[");
            join_into(s, elems, 0, ", ");
            s.append("]");
        },
        Node::Clss { .. } => {},
        Node::Comment { value } | Node::CommentMulti { value } => {
            s.append(ind.as_str());
            s.append("#");
            s.append(value.as_str());
        },
        Node::Other => {},
        Node::Neg { .. }
        | Node::Not { .. }
        | Node::And { .. }
        | Node::Or { .. }
        | Node::Add { .. }
        | Node::Sub { .. }
        | Node::Mul { .. }
        | Node::Div { .. }
        | Node::Eq { .. }
        | Node::LE { .. }
        | Node::In { .. }
        | Node::MatchLine { .. }
        | Node::Assert { .. } => render_operator(s, n, depth),
        Node::If { .. }
        | Node::While { .. }
        | Node::Let { .. }
        | Node::LetRec { .. }
        | Node::Match { .. }
        | Node::Stmts { .. }
        | Node::Return { .. } => render_block(s, n, depth),
        Node::Get { .. }
        | Node::Put { .. }
        | Node::Remove { .. }
        | Node::Length { .. }
        | Node::Var { .. }
        | Node::Iprt { .. }
        | Node::App { .. } => render_access(s, n, depth),
    }
    assert(s@ =~= s0 + spec_render(*n, depth as nat));
}

/// Appends the rendering of `n`, an operator expression, a match arm or an
/// assertion, at indentation depth `depth`.
fn render_operator(s: &mut String, n: &Node, depth: i64)
    requires
        0 <= depth,
        depth + height(*n) <= i64::MAX,
        n is Neg || n is Not || n is And || n is Or || n is Add || n is Sub || n is Mul || n is Div || n is Eq || n is LE || n is In || n is MatchLine || n is Assert,
    ensures
        final(s)@ == old(s)@ + spec_render(*n, depth as nat),
    decreases n, 0nat,
{
    let ghost s0 = s@;
    let ind = comp_indent(depth);
    match n {
        Node::Neg { expr } => {
            s.append(ind.as_str());
            s.append("-");
            render_into(s, expr, 0);
        },
        Node::Not { bool_expr } => {
            s.append(ind.as_str());
            s.append("not ");
            render_into(s, bool_expr, 0);
        },
        Node::And { bool_expr1, bool_expr2 } => {
            s.append(ind.as_str());
            render_into(s, bool_expr1, 0);
            s.append(" and ");
            render_into(s, bool_expr2, 0);
        },
        Node::Or { bool_expr1, bool_expr2 } => {
            s.append(ind.as_str());
            render_into(s, bool_expr1, 0);
            s.append(" or ");
            render_into(s, bool_expr2, 0);
        },
        Node::Add { number_expr1, number_expr2 } => {
            s.append(ind.as_str());
            render_into(s, number_expr1, 0);
            s.append(" + ");
            render_into(s, number_expr2, 0);
        },
        Node::Sub { number_expr1, number_expr2 } => {
            s.append(ind.as_str());
            render_into(s, number_expr1, 0);
            s.append(" - ");
            render_into(s, number_expr2, 0);
        },
        Node::Mul { number_expr1, number_expr2 } => {
            s.append(ind.as_str());
            render_into(s, number_expr1, 0);
            s.append(" * ");
            render_into(s, number_expr2, 0);
        },
        Node::Div { number_expr1, number_expr2 } => {
            s.append(ind.as_str());
            render_into(s, number_expr1, 0);
            s.append(" / ");
            render_into(s, number_expr2, 0);
        },
        Node::Eq { expr1, expr2 } => {
            s.append(ind.as_str());
            render_into(s, expr1, 0);
            s.append(" == ");
            render_into(s, expr2, 0);
        },
        Node::LE { expr1, expr2 } => {
            s.append(ind.as_str());
            render_into(s, expr1, 0);
            s.append(" <= ");
            render_into(s, expr2, 0);
        },
        Node::In { expr1, expr2 } => {
            s.append(ind.as_str());
            s.append("Enum.member?(");
            render_into(s, expr2, 0);
            s.append(", ");
            render_into(s, expr1, 0);
            s.append(")");
        },
        Node::MatchLine { condition, case_expr } => {
            s.append(ind.as_str());
            render_into(s, condition, 0);
            s.append(" -> ");
            render_into(s, case_expr, 0);
        },
        Node::Assert { condition, message } => {
            s.append(ind.as_str());
            s.append("if !(");
            render_into(s, condition, 0);
            s.append("), do: raise(");
            render_into(s, message, 0);
            s.append(")");
        },
        _ => {},
    }
    assert(s@ =~= s0 + spec_render(*n, depth as nat));
}

/// Appends the rendering of `n`, a construct that spans lines or hands its
/// depth on, at indentation depth `depth`.
#[verifier::rlimit(40)]
fn render_block(s: &mut String, n: &Node, depth: i64)
    requires
        0 <= depth,
        depth + height(*n) <= i64::MAX,
        n is If || n is While || n is Let || n is LetRec || n is Match || n is Stmts || n is Return,
    ensures
        final(s)@ == old(s)@ + spec_render(*n, depth as nat),
    decreases n, 0nat,
{
    let ghost s0 = s@;
    let ind = comp_indent(depth);
    match n {
        Node::If { condition, then_expr, else_expr } => {
            let inner = comp_indent(depth + 1);
            s.append(ind.as_str());
            s.append("case ");
            render_into(s, condition, 0);
            s.append(" do\n");
            s.append(inner.as_str());
            s.append("true -> ");
            render_into(s, then_expr, 0);
            s.append("\n");
            s.append(inner.as_str());
            s.append("false -> ");
            match &**else_expr {
                Node::Unit => s.append("nil"),
                _ => render_into(s, else_expr, 0),
            }
            s.append("\n");
            s.append(ind.as_str());
            s.append("end");
        },
        Node::While { condition, loop_expr } => {
            s.append(ind.as_str());
            s.append("Stream.iterate(nil, fn _ -> if ");
            render_into(s, condition, 0);
            s.append(", do: {:cont, ");
            render_into(s, loop_expr, 0);
            s.append("}, else: :halt end) |> Enum.to_list()");
        },
        Node::Let { var, value, expr } => {
            s.append(ind.as_str());
            s.append(var.as_str());
            s.append(" = ");
            render_into(s, value, 0);
            match &**expr {
                Node::Unit => {},
                _ => {
                    s.append("\n");
                    render_into(s, expr, depth);
                },
            }
        },
        Node::LetRec { name, args, body } => {
            s.append(ind.as_str());
            s.append("def ");
            s.append(name.as_str());
            s.append("(");
            join_into(s, args, 0, ", ");
            s.append(") do\n");
            render_into(s, body, depth + 1);
            s.append("\n");
            s.append(ind.as_str());
            s.append("end");
        },
        Node::Match { expr, case_list } => {
            s.append(ind.as_str());
            s.append("case ");
            render_into(s, expr, 0);
            s.append(" do\n");
            join_into(s, case_list, depth + 1, "\n");
            s.append("\n");
            s.append(ind.as_str());
            s.append("end");
        },
        Node::Stmts { expr1, expr2 } => {
            render_into(s, expr1, depth);
            s.append("\n");
            render_into(s, expr2, depth);
        },
        Node::Return { value } => {
            render_into(s, value, depth);
        },
        _ => {},
    }
    assert(s@ =~= s0 + spec_render(*n, depth as nat));
}

/// Appends the rendering of `n`, an array access, a call, a variable or an
/// import, at indentation depth `depth`.
fn render_access(s: &mut String, n: &Node, depth: i64)
    requires
        0 <= depth,
        depth + height(*n) <= i64::MAX,
        n is Get || n is Put || n is Remove || n is Length || n is Var || n is Iprt || n is App,
    ensures
        final(s)@ == old(s)@ + spec_render(*n, depth as nat),
    decreases n, 0nat,
{
    let ghost s0 = s@;
    let ind = comp_indent(depth);
    match n {
        Node::Get { array_name, elem } => {
            s.append(ind.as_str());
            s.append("Enum.at(");
            s.append(array_name.as_str());
            s.append(", ");
            render_into(s, elem, 0);
            s.append(")");
        },
        Node::Put { array_name, elem, value, insert } => {
            s.append(ind.as_str());
            if flag_is_set(insert) {
                s.append("List.insert_at(");
            } else {
                s.append("List.replace_at(");
            }
            s.append(array_name.as_str());
            s.append(", ");
            render_into(s, elem, 0);
            s.append(", ");
            render_into(s, value, 0);
            s.append(")");
        },
        Node::Remove { array_name, elem, is_value } => {
            s.append(ind.as_str());
            if flag_is_set(is_value) {
                s.append("List.delete(");
            } else {
                s.append("List.delete_at(");
            }
            s.append(array_name.as_str());
            s.append(", ");
            render_into(s, elem, 0);
            s.append(")");
        },
        Node::Length { var } => {
            s.append(ind.as_str());
            s.append("length(");
            s.append(var.as_str());
            s.append(")");
        },
        Node::Var { var } => {
            s.append(ind.as_str());
            s.append(var.as_str());
        },
        Node::Iprt { name } => {
            s.append(ind.as_str());
            s.append("import ");
            s.append(name.as_str());
        },
        Node::App { object_name, fun, param_list } => {
            s.append(ind.as_str());
            if object_name.as_str().unicode_len() != 0 {
                s.append(object_name.as_str());
                s.append(".");
            }
            render_into(s, fun, 0);
            s.append("(");
            join_into(s, param_list, 0, ", ");
            s.append(")");
        },
        _ => {},
    }
    assert(s@ =~= s0 + spec_render(*n, depth as nat));
}

/// The text of `node` rendered at indentation depth `depth`.
pub fn render(node: &Node, depth: i64) -> (r: String)
    requires
        0 <= depth,
        depth + height(*node) <= i64::MAX,
    ensures
        r@ == spec_render(*node, depth as nat),
{
    let mut s = String::new();
    render_into(&mut s, node, depth);
    s
}

/// The text of the whole tree `ast`, rendered from indentation depth 0.
pub fn generate(ast: Node) -> (r: String)
    requires
        height(ast) <= i64::MAX,
    ensures
        r@ == spec_render(ast, 0),
{
    render(&ast, 0)
}

} // verus!
