use elixir_gen::{generate, render, Node};

fn s(t: &str) -> String {
    String::from(t)
}

fn lit(v: &str) -> Node {
    Node::Int { value: s(v) }
}

fn ident(v: &str) -> Node {
    Node::Ident { value: s(v) }
}

fn bx(n: Node) -> Box<Node> {
    Box::new(n)
}

#[test]
fn int_literal_at_depth_zero() {
    assert_eq!(generate(lit("42")), "42");
}

#[test]
fn if_without_else_renders_nil() {
    let n = Node::If {
        condition: bx(Node::Bool { value: s("true") }),
        then_expr: bx(lit("1")),
        else_expr: bx(Node::Unit),
    };
    assert_eq!(generate(n), "case true do\n    true -> 1\n    false -> nil\nend");
}

#[test]
fn if_with_else_at_depth_one() {
    let n = Node::If {
        condition: bx(ident("c")),
        then_expr: bx(lit("1")),
        else_expr: bx(lit("2")),
    };
    assert_eq!(
        render(&n, 1),
        "    case c do\n        true -> 1\n        false -> 2\n    end"
    );
}

#[test]
fn app_without_receiver() {
    let n = Node::App {
        object_name: s(""),
        fun: bx(ident("foo")),
        param_list: vec![lit("1"), lit("2")],
    };
    assert_eq!(generate(n), "foo(1, 2)");
}

#[test]
fn app_with_receiver() {
    let n = Node::App {
        object_name: s("IO"),
        fun: bx(ident("puts")),
        param_list: vec![Node::Str { value: s("\"hi\"") }],
    };
    assert_eq!(generate(n), "IO.puts(\"hi\")");
}

#[test]
fn put_replace_and_insert() {
    let put = |flag: &str| Node::Put {
        array_name: s("xs"),
        elem: bx(lit("0")),
        value: bx(lit("9")),
        insert: s(flag),
    };
    assert_eq!(generate(put("false")), "List.replace_at(xs, 0, 9)");
    assert_eq!(generate(put("true")), "List.insert_at(xs, 0, 9)");
    assert_eq!(generate(put("TRUE")), "List.replace_at(xs, 0, 9)");
}

#[test]
fn remove_by_value_and_by_index() {
    let rm = |flag: &str| Node::Remove {
        array_name: s("xs"),
        elem: bx(lit("3")),
        is_value: s(flag),
    };
    assert_eq!(generate(rm("true")), "List.delete(xs, 3)");
    assert_eq!(generate(rm("no")), "List.delete_at(xs, 3)");
}

#[test]
fn get_and_length() {
    let g = Node::Get { array_name: s("xs"), elem: bx(lit("1")) };
    assert_eq!(generate(g), "Enum.at(xs, 1)");
    assert_eq!(generate(Node::Length { var: s("xs") }), "length(xs)");
}

#[test]
fn dropped_constructs_render_empty() {
    for d in [0i64, 3] {
        let c = Node::Complex { real: s("1"), imag: s("2") };
        assert_eq!(render(&c, d), "");
        assert_eq!(render(&Node::Clss { name: s("A") }, d), "");
        assert_eq!(render(&Node::Other, d), "");
        assert_eq!(render(&Node::Unit, d), "");
    }
}

#[test]
fn addition_indented_operands_inline() {
    let n = Node::Add { number_expr1: bx(lit("1")), number_expr2: bx(lit("2")) };
    assert_eq!(render(&n, 3), "            1 + 2");
}

#[test]
fn indentation_is_four_spaces_per_level() {
    assert_eq!(render(&ident("x"), 2), "        x");
    let l = Node::Let { var: s("x"), value: bx(lit("1")), expr: bx(Node::Unit) };
    assert_eq!(render(&l, 1), "    x = 1");
}

#[test]
fn binary_operators() {
    let a = || bx(ident("a"));
    let b = || bx(ident("b"));
    assert_eq!(generate(Node::And { bool_expr1: a(), bool_expr2: b() }), "a and b");
    assert_eq!(generate(Node::Or { bool_expr1: a(), bool_expr2: b() }), "a or b");
    assert_eq!(generate(Node::Sub { number_expr1: a(), number_expr2: b() }), "a - b");
    assert_eq!(generate(Node::Mul { number_expr1: a(), number_expr2: b() }), "a * b");
    assert_eq!(generate(Node::Div { number_expr1: a(), number_expr2: b() }), "a / b");
    assert_eq!(generate(Node::Eq { expr1: a(), expr2: b() }), "a == b");
    assert_eq!(generate(Node::LE { expr1: a(), expr2: b() }), "a <= b");
    assert_eq!(generate(Node::Neg { expr: a() }), "-a");
    assert_eq!(generate(Node::Not { bool_expr: a() }), "not a");
}

#[test]
fn membership_puts_collection_first() {
    let n = Node::In { expr1: bx(ident("x")), expr2: bx(ident("xs")) };
    assert_eq!(generate(n), "Enum.member?(xs, x)");
}

#[test]
fn bool_canonicalization() {
    for v in ["false", "FALSE", "", "True"] {
        assert_eq!(render(&Node::Bool { value: s(v) }, 1), "    false");
    }
    assert_eq!(generate(Node::Bool { value: s("true") }), "true");
}

#[test]
fn stmts_associative() {
    let left = Node::Stmts {
        expr1: bx(Node::Stmts { expr1: bx(ident("a")), expr2: bx(ident("b")) }),
        expr2: bx(ident("c")),
    };
    let right = Node::Stmts {
        expr1: bx(ident("a")),
        expr2: bx(Node::Stmts { expr1: bx(ident("b")), expr2: bx(ident("c")) }),
    };
    assert_eq!(render(&left, 1), "    a\n    b\n    c");
    assert_eq!(render(&right, 1), "    a\n    b\n    c");
}

#[test]
fn bytes_as_bitstring() {
    let n = Node::Bytes { elems: vec![0, 7, 42, 255] };
    assert_eq!(generate(n), "<<0, 7, 42, 255>>");
    assert_eq!(generate(Node::Bytes { elems: vec![] }), "<<>>");
}

#[test]
fn tuple_and_array() {
    let t = Node::Tuple { elems: vec![lit("1"), ident("a")] };
    assert_eq!(render(&t, 1), "    {1, a}");
    let a = Node::Array { elems: vec![lit("1"), lit("2"), lit("3")] };
    assert_eq!(generate(a), "[1, 2, 3]");
    assert_eq!(generate(Node::Array { elems: vec![] }), "[]");
}

#[test]
fn loop_control_and_ellipsis() {
    assert_eq!(render(&Node::Break, 1), "    throw(:break)");
    assert_eq!(generate(Node::Continue), "throw(:continue)");
    assert_eq!(render(&Node::Ellipsis, 2), "...");
}

#[test]
fn while_as_stream() {
    let n = Node::While { condition: bx(ident("c")), loop_expr: bx(ident("body")) };
    assert_eq!(
        generate(n),
        "Stream.iterate(nil, fn _ -> if c, do: {:cont, body}, else: :halt end) |> Enum.to_list()"
    );
}

#[test]
fn let_with_trailing_expression() {
    let n = Node::Let {
        var: s("x"),
        value: bx(lit("1")),
        expr: bx(Node::Var { var: s("x") }),
    };
    assert_eq!(render(&n, 1), "    x = 1\n    x");
}

#[test]
fn letrec_as_def() {
    let n = Node::LetRec {
        name: s("f"),
        args: vec![ident("a"), ident("b")],
        body: bx(Node::Add { number_expr1: bx(ident("a")), number_expr2: bx(ident("b")) }),
    };
    assert_eq!(generate(n), "def f(a, b) do\n    a + b\nend");
}

#[test]
fn match_with_arms() {
    let arm = |c: &str, r: &str| Node::MatchLine { condition: bx(lit(c)), case_expr: bx(ident(r)) };
    let n = Node::Match { expr: bx(ident("x")), case_list: vec![arm("1", "a"), arm("2", "b")] };
    assert_eq!(generate(n), "case x do\n    1 -> a\n    2 -> b\nend");
}

#[test]
fn import_return_comments_assert() {
    assert_eq!(generate(Node::Iprt { name: s("Enum") }), "import Enum");
    assert_eq!(render(&Node::Return { value: bx(ident("v")) }, 1), "    v");
    assert_eq!(generate(Node::Comment { value: s(" note") }), "# note");
    assert_eq!(generate(Node::CommentMulti { value: s("a\nb") }), "#a\nb");
    let a = Node::Assert { condition: bx(ident("ok")), message: bx(Node::Str { value: s("\"bad\"") }) };
    assert_eq!(generate(a), "if !(ok), do: raise(\"bad\")");
}

#[test]
fn literals_verbatim() {
    assert_eq!(render(&Node::Float { value: s("1.5") }, 1), "    1.5");
    assert_eq!(generate(Node::Str { value: s("\"s\"") }), "\"s\"");
}
