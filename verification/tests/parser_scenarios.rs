// End-to-end tests: source text is parsed with the real grammar, converted
// into the library's tree, and formatted.
use matlab_beautifier::{beautify, Arguments, Field, Node, NodeKind};

fn map_kind(k: &str) -> NodeKind {
    match k {
        "arguments" => NodeKind::Arguments,
        "arguments_statement" => NodeKind::ArgumentsStatement,
        "assignment" => NodeKind::Assignment,
        "attribute" => NodeKind::Attribute,
        "attributes" => NodeKind::Attributes,
        "binary_operator" => NodeKind::BinaryOperator,
        "block" => NodeKind::Block,
        "source_file" => NodeKind::Block,
        "boolean_operator" => NodeKind::BooleanOperator,
        "case_clause" => NodeKind::CaseClause,
        "catch_clause" => NodeKind::CatchClause,
        "cell" => NodeKind::Cell,
        "class_definition" => NodeKind::ClassDefinition,
        "command" => NodeKind::Command,
        "command_name" => NodeKind::CommandName,
        "comment" => NodeKind::Comment,
        "comparison_operator" => NodeKind::ComparisonOperator,
        "default_value" => NodeKind::DefaultValue,
        "dimensions" => NodeKind::Dimensions,
        "else_clause" => NodeKind::ElseClause,
        "elseif_clause" => NodeKind::ElseifClause,
        "enum" => NodeKind::Enum,
        "enumeration" => NodeKind::Enumeration,
        "events" => NodeKind::Events,
        "field_expression" => NodeKind::FieldExpression,
        "for_statement" => NodeKind::ForStatement,
        "function_arguments" => NodeKind::FunctionArguments,
        "function_call" => NodeKind::FunctionCall,
        "function_definition" => NodeKind::FunctionDefinition,
        "function_output" => NodeKind::FunctionOutput,
        "function_signature" => NodeKind::FunctionSignature,
        "global_operator" => NodeKind::GlobalOperator,
        "handle_operator" => NodeKind::HandleOperator,
        "identifier" => NodeKind::Identifier,
        "if_statement" => NodeKind::IfStatement,
        "indirect_access" => NodeKind::IndirectAccess,
        "iterator" => NodeKind::LoopIterator,
        "lambda" => NodeKind::Lambda,
        "line_continuation" => NodeKind::LineContinuation,
        "matrix" => NodeKind::Matrix,
        "metaclass_operator" => NodeKind::MetaclassOperator,
        "methods" => NodeKind::Methods,
        "multioutput_variable" => NodeKind::MultioutputVariable,
        "not_operator" => NodeKind::NotOperator,
        "otherwise_clause" => NodeKind::OtherwiseClause,
        "parenthesis" => NodeKind::Parenthesis,
        "parfor_options" => NodeKind::ParforOptions,
        "persistent_operator" => NodeKind::PersistentOperator,
        "postfix_operator" => NodeKind::PostfixOperator,
        "properties" => NodeKind::Properties,
        "property" => NodeKind::Property,
        "property_name" => NodeKind::PropertyName,
        "range" => NodeKind::Range,
        "row" => NodeKind::Row,
        "superclasses" => NodeKind::Superclasses,
        "switch_statement" => NodeKind::SwitchStatement,
        "try_statement" => NodeKind::TryStatement,
        "unary_operator" => NodeKind::UnaryOperator,
        "validation_functions" => NodeKind::ValidationFunctions,
        "while_statement" => NodeKind::WhileStatement,
        _ => NodeKind::Other,
    }
}

fn map_field(f: Option<&str>) -> Field {
    match f {
        Some("left") => Field::Left,
        Some("right") => Field::Right,
        Some("condition") => Field::Condition,
        Some("name") => Field::Name,
        Some("expression") => Field::Expression,
        _ => Field::NoField,
    }
}

fn convert(node: tree_sitter::Node, src: &[u8], field: Field) -> Node {
    let mut children = Vec::new();
    for i in 0..node.child_count() {
        let ch = node.child(i).unwrap();
        children.push(convert(ch, src, map_field(node.field_name_for_child(i))));
    }
    Node {
        kind: map_kind(node.kind()),
        field,
        named: node.is_named(),
        has_error: node.has_error(),
        start_row: node.start_position().row,
        start_col: node.start_position().column,
        end_row: node.end_position().row,
        end_col: node.end_position().column,
        text: src[node.byte_range()].to_vec(),
        children,
    }
}

fn parse(code: &str) -> Node {
    let mut parser = tree_sitter::Parser::new();
    parser
        .set_language(&tree_sitter_matlab::LANGUAGE.into())
        .expect("could not load the grammar");
    let tree = parser.parse(code, None).expect("could not parse");
    convert(tree.root_node(), code.as_bytes(), Field::NoField)
}

fn args(sparse_math: bool, sparse_add: bool) -> Arguments {
    Arguments { files: vec![], sparse_math, sparse_add, inplace: false }
}

fn fmt_with(code: &str, sparse_math: bool, sparse_add: bool) -> String {
    // The grammar wants every statement terminated, so a final newline is
    // supplied where a snippet leaves it out, as a file on disk would have it.
    let mut code = code.to_string();
    if !code.ends_with('\n') {
        code.push('\n');
    }
    let tree = parse(&code);
    let out = beautify(&tree, &args(sparse_math, sparse_add)).expect("could not format");
    String::from_utf8(out).expect("output was not valid text")
}

fn fmt(code: &str) -> String {
    fmt_with(code, false, false)
}

#[test]
fn plain_assignment() {
    assert_eq!(fmt("a=1"), "a = 1;\n");
}

#[test]
fn terminator_same_row_pair_joined_with_comma() {
    assert_eq!(fmt("a = 1, b = 2"), "a = 1, b = 2;\n");
}

#[test]
fn terminator_separate_rows_semicolons() {
    assert_eq!(fmt("a = 1\nb = 2"), "a = 1;\nb = 2;\n");
}

#[test]
fn blank_lines_collapse_to_one() {
    assert_eq!(fmt("a = 1\n\n\n\n\nb = 2"), "a = 1;\n\nb = 2;\n");
    assert_eq!(fmt("a = 1\n\nb = 2"), "a = 1;\n\nb = 2;\n");
    assert_eq!(fmt("a = 1\nb = 2"), "a = 1;\nb = 2;\n");
}

#[test]
fn operator_spacing_none_keeps_tight() {
    assert_eq!(fmt_with("a=1+2", false, false), "a = 1+2;\n");
}

#[test]
fn operator_spacing_sparse_all_spaces_everything() {
    assert_eq!(fmt_with("a=1+2", true, false), "a = 1 + 2;\n");
    assert_eq!(fmt_with("a=1*2", true, false), "a = 1 * 2;\n");
}

#[test]
fn operator_spacing_sparse_add_only() {
    assert_eq!(fmt_with("a=1+2", false, true), "a = 1 + 2;\n");
    assert_eq!(fmt_with("a=1*2", false, true), "a = 1*2;\n");
}

#[test]
fn range_never_gains_spaces() {
    assert_eq!(fmt_with("a=1:10", true, false), "a = 1:10;\n");
    assert_eq!(fmt_with("a=1:2:10", true, false), "a = 1:2:10;\n");
}

#[test]
fn if_statement_no_trailing_semicolon() {
    assert_eq!(fmt("if x\na=1;\nend"), "if x\n    a = 1;\nend\n");
}

#[test]
fn if_elseif_else() {
    assert_eq!(
        fmt("if x\na=1;\nelseif y\nb=2;\nelse\nc=3;\nend"),
        "if x\n    a = 1;\nelseif y\n    b = 2;\nelse\n    c = 3;\nend\n"
    );
}

#[test]
fn pragma_comment_stays_on_if_header() {
    assert_eq!(fmt("if x %#ok\na=1;\nend"), "if x %#ok\n    a = 1;\nend\n");
}

#[test]
fn matrix_multiline_rows_end_with_semicolon() {
    assert_eq!(fmt("a=[1 2\n3 4]"), "a = [1 2;\n     3 4];\n");
}

#[test]
fn matrix_single_line_rows_joined() {
    assert_eq!(fmt("a=[1 2; 3 4]"), "a = [1 2; 3 4];\n");
}

#[test]
fn continuation_aligns_under_first_operator() {
    // The `+` stands at column six; the continuation line re-aligns there.
    assert_eq!(fmt_with("x = 1 + ...\n2;", true, false), "x = 1 +  ...\n      2;\n");
    // Without operator spacing the `+` stands at column five.
    assert_eq!(fmt("x = 1+ ...\n2;"), "x = 1+ ...\n     2;\n");
}

#[test]
fn comparison_operators_always_spaced() {
    assert_eq!(fmt("a=x==y"), "a = x == y;\n");
    assert_eq!(fmt("a=x&&y"), "a = x && y;\n");
}

#[test]
fn function_call_and_cell_index() {
    assert_eq!(fmt("a=f(1,2)"), "a = f(1, 2);\n");
    assert_eq!(fmt("a=c{1}"), "a = c{1};\n");
}

#[test]
fn while_and_for_loops() {
    assert_eq!(fmt("while x\na=1;\nend"), "while x\n    a = 1;\nend\n");
    assert_eq!(fmt("for i=1:3\na=i;\nend"), "for i = 1:3\n    a = i;\nend\n");
}

#[test]
fn switch_with_otherwise() {
    assert_eq!(
        fmt("switch x\ncase 1\na=1;\notherwise\nb=2;\nend"),
        "switch x\n    case 1\n        a = 1;\n    otherwise\n        b = 2;\nend\n"
    );
}

#[test]
fn try_catch_with_capture() {
    assert_eq!(
        fmt("try\na=1;\ncatch e\nb=2;\nend"),
        "try\n    a = 1;\ncatch e\n    b = 2;\nend\n"
    );
}

#[test]
fn function_definition() {
    assert_eq!(
        fmt("function y = f(x)\ny = x;\nend"),
        "function y = f(x)\n    y = x;\nend\n"
    );
}

#[test]
fn lambda_and_field_access() {
    assert_eq!(fmt("f=@(x) x"), "f = @(x) x;\n");
    assert_eq!(fmt("a=s.f.g"), "a = s.f.g;\n");
}

#[test]
fn block_comment_is_reflowed() {
    assert_eq!(fmt("%{\n  one\n\n  two\n%}"), "%{\n  one\n  two\n%}\n");
}

#[test]
fn section_comment_keeps_marker_tight() {
    assert_eq!(fmt("%% section"), "%% section\n");
}

#[test]
fn parsed_syntax_error_is_refused() {
    let tree = parse("if x\na=1;");
    assert!(beautify(&tree, &args(false, false)).is_err());
}

#[test]
fn determinism_same_input_twice() {
    let code = "if x\na=[1 2\n3 4];\nelse\nb=f(1,2);\nend";
    assert_eq!(fmt(code), fmt(code));
}

#[test]
fn idempotence_on_snippets() {
    let snippets = [
        "a=1",
        "a = 1, b = 2",
        "a=1\n\n\n\nb=2",
        "if x %#ok\na=1;\nelseif y\nb=2;\nelse\nc=3;\nend",
        "while x\na=a-1;\nend",
        "for i=1:3\ns=s+i;\nend",
        "switch x\ncase 1\na=1;\notherwise\nb=2;\nend",
        "try\na=1;\ncatch e\nb=2;\nend",
        "a=[1 2\n3 4]",
        "a=[1 2; 3 4]",
        "f=@(x, y) x+y",
        "a=f(1,2)",
        "a=c{1}",
        "a=s.f.g",
        "global x y",
        "a=x'",
        "b=~x",
        "function y = f(x)\ny = x;\nend",
        "% a comment\na=1",
        "%{\n block\n%}",
    ];
    for code in snippets {
        let once = fmt(code);
        let twice = fmt(&once);
        assert_eq!(twice, once, "not idempotent for {:?}", code);
    }
}

#[test]
fn idempotence_with_sparse_math() {
    let snippets = ["a=1+2*3", "a=(1+2)*3", "a=1:10", "a=x==y&&z<w"];
    for code in snippets {
        let once = fmt_with(code, true, false);
        let twice = fmt_with(&once, true, false);
        assert_eq!(twice, once, "not idempotent for {:?}", code);
    }
}

#[test]
fn classdef_layout() {
    let src = "classdef Foo < Bar\nproperties\nx\nend\nmethods\nfunction y = f(obj)\ny = obj.x;\nend\nend\nend";
    let expected = "classdef Foo < Bar\n    properties\n        x\n    end\n    methods\n        function y = f(obj)\n            y = obj.x;\n        end\n    end\nend\n";
    assert_eq!(fmt(src), expected);
}

#[test]
fn global_declaration_is_space_joined() {
    assert_eq!(fmt("global x y"), "global x y;\n");
}

#[test]
fn unary_postfix_and_not_operators() {
    assert_eq!(fmt("a=-b"), "a = -b;\n");
    assert_eq!(fmt("a=b'"), "a = b';\n");
    assert_eq!(fmt("a=~c"), "a = ~c;\n");
}

#[test]
fn parenthesis_keeps_grouping() {
    assert_eq!(fmt("a=(1+2)*3"), "a = (1+2)*3;\n");
}

#[test]
fn multioutput_target_is_comma_joined() {
    assert_eq!(fmt("[a,b]=f(1)"), "[a, b] = f(1);\n");
}

#[test]
fn command_statement_is_space_joined() {
    assert_eq!(fmt("hold on"), "hold on;\n");
}

#[test]
fn more_idempotence() {
    let snippets = [
        "classdef Foo < Bar\nproperties\nx\nend\nmethods\nfunction y = f(obj)\ny = obj.x;\nend\nend\nend",
        "function f(x)\narguments\nx (1,1) double\nend\ny = x;\nend",
        "parfor i=1:3\na=i;\nend",
        "hold on",
        "a=[1 2 % note\n3 4]",
        "x = 1 + ...\n2;",
        "s.(f) = 1",
    ];
    for code in snippets {
        let once = fmt(code);
        let twice = fmt(&once);
        assert_eq!(twice, once, "not idempotent for {:?}", code);
    }
}

#[test]
fn range_disables_spacing_inside_endpoints() {
    assert_eq!(fmt_with("a=(1+2):10", true, false), "a = (1+2):10;\n");
}

#[test]
fn empty_input_formats_to_one_empty_line() {
    assert_eq!(fmt(""), "\n");
}

#[test]
fn comments_hugging_a_block_render_inside_it() {
    assert_eq!(
        fmt("while x % loop\na=1;\n% tail\nend"),
        "while x\n    % loop\n    a = 1;\n    % tail\nend\n"
    );
}
