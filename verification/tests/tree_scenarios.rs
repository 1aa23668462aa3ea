// Scenario tests on trees built by hand, exercising the library without any
// parser in front of it.
use matlab_beautifier::{beautify, Arguments, Field, FormatError, Node, NodeKind, State};

fn args() -> Arguments {
    Arguments { files: vec![], sparse_math: false, sparse_add: false, inplace: false }
}

fn node(kind: NodeKind, field: Field, named: bool, text: &str, rows: (usize, usize, usize, usize),
        children: Vec<Node>) -> Node {
    Node {
        kind,
        field,
        named,
        has_error: false,
        start_row: rows.0,
        start_col: rows.1,
        end_row: rows.2,
        end_col: rows.3,
        text: text.as_bytes().to_vec(),
        children,
    }
}

fn leaf(kind: NodeKind, field: Field, text: &str, row: usize, col: usize) -> Node {
    node(kind, field, true, text, (row, col, row, col + text.len()), vec![])
}

fn assignment(lhs: &str, rhs: &str, row: usize, col: usize) -> Node {
    let l = leaf(NodeKind::Identifier, Field::Left, lhs, row, col);
    let r = leaf(NodeKind::Other, Field::Right, rhs, row, col + lhs.len() + 3);
    node(
        NodeKind::Assignment,
        Field::NoField,
        true,
        "",
        (row, col, row, col + lhs.len() + 3 + rhs.len()),
        vec![l, r],
    )
}

fn root(children: Vec<Node>) -> Node {
    let end = children.iter().map(|c| c.end_row).max().unwrap_or(0);
    node(NodeKind::Block, Field::NoField, true, "", (0, 0, end, 0), children)
}

fn fmt(tree: &Node) -> String {
    String::from_utf8(beautify(tree, &args()).unwrap()).unwrap()
}

#[test]
fn single_assignment_gets_semicolon() {
    let t = root(vec![assignment("a", "1", 0, 0)]);
    assert_eq!(fmt(&t), "a = 1;\n");
}

#[test]
fn same_row_assignments_join_with_comma() {
    let t = root(vec![assignment("a", "1", 0, 0), assignment("b", "2", 0, 7)]);
    assert_eq!(fmt(&t), "a = 1, b = 2;\n");
}

#[test]
fn different_row_assignments_each_on_own_line() {
    let t = root(vec![assignment("a", "1", 0, 0), assignment("b", "2", 1, 0)]);
    assert_eq!(fmt(&t), "a = 1;\nb = 2;\n");
}

#[test]
fn blank_run_collapses_to_one_blank_line() {
    let t = root(vec![assignment("a", "1", 0, 0), assignment("b", "2", 5, 0)]);
    assert_eq!(fmt(&t), "a = 1;\n\nb = 2;\n");
}

#[test]
fn one_blank_line_is_kept() {
    let t = root(vec![assignment("a", "1", 0, 0), assignment("b", "2", 2, 0)]);
    assert_eq!(fmt(&t), "a = 1;\n\nb = 2;\n");
}

#[test]
fn if_statement_gets_no_semicolon() {
    let cond = leaf(NodeKind::Identifier, Field::Condition, "x", 0, 3);
    let body = node(
        NodeKind::Block,
        Field::NoField,
        true,
        "",
        (1, 0, 1, 6),
        vec![assignment("a", "1", 1, 0)],
    );
    let ifn = node(NodeKind::IfStatement, Field::NoField, true, "", (0, 0, 2, 3), vec![cond, body]);
    let t = root(vec![ifn]);
    assert_eq!(fmt(&t), "if x\n    a = 1;\nend\n");
}

#[test]
fn single_line_comment_keeps_line() {
    let c = leaf(NodeKind::Comment, Field::NoField, "%   hi there", 0, 0);
    let t = root(vec![c]);
    assert_eq!(fmt(&t), "% hi there\n");
}

#[test]
fn pragma_comment_stays_on_header_line() {
    let cond = leaf(NodeKind::Identifier, Field::Condition, "x", 0, 3);
    let pragma = leaf(NodeKind::Comment, Field::NoField, "%#ok", 0, 5);
    let ifn = node(
        NodeKind::IfStatement,
        Field::NoField,
        true,
        "",
        (0, 0, 1, 3),
        vec![cond, pragma],
    );
    let t = root(vec![ifn]);
    assert_eq!(fmt(&t), "if x %#ok\nend\n");
}

#[test]
fn syntax_error_is_refused() {
    let mut t = root(vec![assignment("a", "1", 0, 0)]);
    t.has_error = true;
    assert_eq!(beautify(&t, &args()), Err(FormatError::Syntax));
}

#[test]
fn missing_assignment_side_is_a_structural_error() {
    let l = leaf(NodeKind::Identifier, Field::Left, "a", 3, 2);
    let bad = node(NodeKind::Assignment, Field::NoField, true, "", (3, 2, 3, 3), vec![l]);
    let t = root(vec![bad]);
    assert_eq!(beautify(&t, &args()), Err(FormatError::Structure { row: 3, col: 2 }));
}

#[test]
fn structural_error_reports_first_bad_node_in_preorder() {
    let l = leaf(NodeKind::Identifier, Field::Left, "a", 1, 0);
    let bad1 = node(NodeKind::Assignment, Field::NoField, true, "", (1, 0, 1, 1), vec![l]);
    let l2 = leaf(NodeKind::Identifier, Field::Left, "b", 2, 4);
    let bad2 = node(NodeKind::Assignment, Field::NoField, true, "", (2, 4, 2, 5), vec![l2]);
    let t = root(vec![bad1, bad2]);
    assert_eq!(beautify(&t, &args()), Err(FormatError::Structure { row: 1, col: 0 }));
}

#[test]
fn unknown_leaf_kinds_are_emitted_verbatim() {
    let t = root(vec![leaf(NodeKind::Other, Field::NoField, "disp", 0, 0)]);
    assert_eq!(fmt(&t), "disp;\n");
}

#[test]
fn state_indent_emits_level_and_extra_spaces() {
    let mut s = State::new();
    s.level = 2;
    s.extra = 3;
    s.indent();
    assert_eq!(s.out, b"           ".to_vec());
    assert_eq!(s.col, 11);
}

#[test]
fn extra_indentation_latch_is_first_writer_wins() {
    let mut s = State::new();
    s.maybe_set_extra_indentation(7);
    assert_eq!(s.extra, 7);
    s.maybe_set_extra_indentation(3);
    assert_eq!(s.extra, 7);
    s.set_extra(0);
    s.maybe_set_extra_indentation(3);
    assert_eq!(s.extra, 3);
}

#[test]
fn comment_between_statements_may_share_the_line() {
    let a = assignment("a", "1", 0, 0);
    let c = leaf(NodeKind::Comment, Field::NoField, "% note", 0, 8);
    let t = root(vec![a, c]);
    assert_eq!(fmt(&t), "a = 1; % note\n");
}

#[test]
fn block_opening_command_indents_following_statements() {
    let open_name = leaf(NodeKind::CommandName, Field::NoField, "cvx_begin", 0, 0);
    let open_cmd = node(NodeKind::Command, Field::NoField, true, "", (0, 0, 0, 9), vec![open_name]);
    let close_name = leaf(NodeKind::CommandName, Field::NoField, "cvx_end", 2, 0);
    let close_cmd =
        node(NodeKind::Command, Field::NoField, true, "", (2, 0, 2, 7), vec![close_name]);
    let t = root(vec![open_cmd, assignment("x", "1", 1, 0), close_cmd]);
    assert_eq!(fmt(&t), "cvx_begin;\n    x = 1;\ncvx_end;\n");
}

#[test]
fn comment_run_is_reemitted_one_marker_per_line() {
    let c = node(
        NodeKind::Comment,
        Field::NoField,
        true,
        "%  one\n   %two",
        (0, 0, 1, 8),
        vec![],
    );
    let t = root(vec![c]);
    assert_eq!(fmt(&t), "% one\n% two\n");
}
