//! What the rendering engine emits, stated as one mathematical function per
//! syntactic construct.  Each function maps (configuration, render state,
//! node) to the render state after the construct has been laid out; the
//! executable renderer is proved equal to these functions clause by clause.
use vstd::prelude::*;
use crate::lit::{
    SP, PERCENT, LPAREN, RPAREN, COMMA, DOT, COLON, SEMI, EQUALS, AT, LBRACKET, RBRACKET, LBRACE,
    RBRACE, end_kw_s, while_kw_s, try_kw_s, catch_kw_s, switch_kw_s, case_kw_s, otherwise_kw_s,
    if_kw_s, elseif_kw_s, else_kw_s, function_kw_s, arguments_kw_s, properties_kw_s,
    enumeration_kw_s, events_kw_s, methods_kw_s, classdef_kw_s, comma_sp_s, semi_sp_s, sp_eq_sp_s,
    sp_lt_sp_s, sp_amp_sp_s, sp_lparen_s, sp_lbrace_s, sp_percent_s, rparen_sp_s, block_open_s,
    block_close_s, pragma_mark_s, section_mark_s, cvx_begin_kw_s, subject_kw_s, cvx_end_kw_s,
};
use crate::state::{
    Cfg, StV, sat, sp_print, sp_print_b, sp_newline, sp_break, sp_indent, sp_set_extra,
    sp_maybe_extra, sp_set_level, sp_inc_level, sp_dec_level, sp_align,
};
use crate::textops::{trim, strip_percent, split_lines, starts_with, ends_with, is_pragma};
use crate::tree::{
    Node, NodeKind, Field, node_height, seq_height, named_of, block_stmts_of, command_name_text,
    find_field, find_kind, find_named_kind, nth_named, find_named_not_lc, find_bracket,
    find_getset, find_kind2_excl, is_extra_kind, lemma_height_child, lemma_height_elem,
    lemma_block_stmts_height, lemma_named_of_height_le, lemma_find_field_range,
    lemma_find_kind_range, lemma_find_named_kind_range, lemma_nth_named_range,
    lemma_find_named_not_lc_range, lemma_find_bracket_range,
    lemma_find_getset_range, lemma_find_kind2_excl_range,
};

verus! {

broadcast use
    lemma_height_child,
    lemma_height_elem,
    lemma_block_stmts_height,
    lemma_named_of_height_le,
    lemma_find_field_range,
    lemma_find_kind_range,
    lemma_find_named_kind_range,
    lemma_nth_named_range,
    lemma_find_named_not_lc_range,
    lemma_find_bracket_range,
    lemma_find_getset_range,
    lemma_find_kind2_excl_range;

// ---------------------------------------------------------------------------
// Layout policy, factored out where the testable rules live.
// ---------------------------------------------------------------------------

/// The operators that `sparse_add` spacing applies to: `+ - .+ .-`.
pub open spec fn is_add_op(t: Seq<u8>) -> bool {
    ||| t == seq![43u8]
    ||| t == seq![45u8]
    ||| t == seq![46u8, 43u8]
    ||| t == seq![46u8, 45u8]
}

/// Whether a binary operator written `t` gets surrounding spaces.
pub open spec fn op_spaced(c: Cfg, t: Seq<u8>) -> bool {
    c.sparse_math || (c.sparse_add && is_add_op(t))
}

/// Statements that carry their own block delimiter get no `;` terminator.
pub open spec fn needs_terminator(k: NodeKind) -> bool {
    !(k == NodeKind::ArgumentsStatement || k == NodeKind::ClassDefinition || k == NodeKind::Comment
        || k == NodeKind::ForStatement || k == NodeKind::FunctionDefinition
        || k == NodeKind::IfStatement || k == NodeKind::SwitchStatement
        || k == NodeKind::TryStatement || k == NodeKind::WhileStatement)
}

/// Bareword commands that open an embedded indented region.
pub open spec fn cmd_is_indent(n: Node) -> bool {
    command_name_text(n) == Some(cvx_begin_kw_s()) || command_name_text(n) == Some(subject_kw_s())
}

/// Bareword commands that close it again.
pub open spec fn cmd_is_dedent(n: Node) -> bool {
    command_name_text(n) == Some(cvx_end_kw_s())
}

/// What stands between the end of the previous statement and the start of the
/// current one: one blank line when the source had two or more, a plain line
/// break and re-indentation on a new source row, nothing when the pair may
/// share the output line (two assignments, or a trailing comment).
pub open spec fn spec_stmt_lead(st: StV, prev: Node, cur: Node) -> StV {
    let st1 = if cur.start_row > prev.end_row + 1 {
        sp_newline(st)
    } else {
        st
    };
    if (!(cur.kind == NodeKind::Assignment && prev.kind == NodeKind::Assignment) && cur.kind
        != NodeKind::Comment) || cur.start_row != prev.end_row {
        sp_indent(sp_newline(st1))
    } else {
        st1
    }
}

/// The statement terminator: `, ` between two assignments that shared a source
/// row, nothing after block statements, `;` otherwise.
pub open spec fn spec_stmt_term(st: StV, cur: Node, next: Option<Node>) -> StV {
    if needs_terminator(cur.kind) {
        match next {
            Some(nx) => if cur.kind == NodeKind::Assignment && nx.kind == NodeKind::Assignment
                && cur.end_row == nx.start_row {
                sp_print(st, comma_sp_s())
            } else {
                sp_print_b(st, SEMI)
            },
            None => sp_print_b(st, SEMI),
        }
    } else {
        st
    }
}

// ---------------------------------------------------------------------------
// The statement sequence.
// ---------------------------------------------------------------------------

/// One statement of a block: restore the level ahead of a closing command,
/// lay out the gap to the previous statement, render the statement, drop the
/// alignment latch, raise the level after an opening command, terminate.
pub open spec fn spec_stmt_step(c: Cfg, st: StV, stmts: Seq<Node>, base: int, i: int) -> StV
    recommends
        0 <= i < stmts.len(),
    decreases seq_height(stmts), 3nat, 0nat,
    when 0 <= i < stmts.len()
{
    let cur = stmts[i];
    let st0 = if cur.kind == NodeKind::Command && cmd_is_dedent(cur) {
        sp_set_level(st, base)
    } else {
        st
    };
    let st1 = if i > 0 {
        spec_stmt_lead(st0, stmts[i - 1], cur)
    } else {
        st0
    };
    let st2 = sp_set_extra(spec_node(c, st1, cur), 0);
    let st3 = if cur.kind == NodeKind::Command && cmd_is_indent(cur) {
        sp_inc_level(st2)
    } else {
        st2
    };
    spec_stmt_term(
        st3,
        cur,
        if i + 1 < stmts.len() {
            Some(stmts[i + 1])
        } else {
            None
        },
    )
}

pub open spec fn spec_stmts_at(c: Cfg, st: StV, stmts: Seq<Node>, base: int, i: int) -> StV
    decreases seq_height(stmts), 4nat, stmts.len() - i,
{
    if i < 0 || i >= stmts.len() {
        st
    } else {
        spec_stmts_at(c, spec_stmt_step(c, st, stmts, base, i), stmts, base, i + 1)
    }
}

/// A statement sequence: reset the alignment latch, indent, render each
/// statement with its lead and terminator, restore level and latch, and end
/// the line.
pub open spec fn spec_statements(c: Cfg, st: StV, stmts: Seq<Node>) -> StV
    decreases seq_height(stmts), 5nat, 0nat,
{
    let base = st.level;
    let st1 = sp_indent(sp_set_extra(st, 0));
    let st2 = spec_stmts_at(c, st1, stmts, base, 0);
    sp_newline(sp_set_level(sp_set_extra(st2, 0), base))
}

/// A block reached through dispatch renders its named children.
pub open spec fn spec_block(c: Cfg, st: StV, n: Node) -> StV
    decreases node_height(n), 1nat, 0nat,
{
    spec_statements(c, st, named_of(n.children@))
}

/// The block standing at child position `bi` of `parent`, together with the
/// comment siblings that hug it.
pub open spec fn spec_block_in(c: Cfg, st: StV, parent: Node, bi: int) -> StV
    decreases node_height(parent), 0nat, 0nat,
{
    if 0 <= bi < parent.children@.len() {
        spec_statements(c, st, block_stmts_of(parent.children@, bi))
    } else {
        st
    }
}

// ---------------------------------------------------------------------------
// Comments and line continuations (these call nothing that recurses back).
// ---------------------------------------------------------------------------

pub open spec fn spec_comment_block_lines_at(st: StV, lines: Seq<Seq<u8>>, i: int) -> StV
    decreases lines.len() - i,
{
    if i < 0 || i >= lines.len() {
        st
    } else {
        let t = trim(lines[i]);
        if t.len() == 0 {
            spec_comment_block_lines_at(st, lines, i + 1)
        } else {
            spec_comment_block_lines_at(sp_newline(sp_print(sp_indent(st), t)), lines, i + 1)
        }
    }
}

pub open spec fn spec_comment_multi_at(st: StV, lines: Seq<Seq<u8>>, i: int) -> StV
    decreases lines.len() - i,
{
    if i < 0 || i >= lines.len() {
        st
    } else {
        let t = trim(strip_percent(trim(lines[i])));
        let st1 = if i != 0 {
            sp_indent(sp_newline(st))
        } else {
            st
        };
        let st2 = sp_print_b(st1, PERCENT);
        let st3 = if t.len() > 0 {
            sp_print_b(st2, SP)
        } else {
            st2
        };
        spec_comment_multi_at(sp_print(st3, t), lines, i + 1)
    }
}

/// A comment.  A delimited block comment is re-flowed line by line, two
/// columns deeper, blank lines dropped; a run of single-line comments is
/// re-emitted one marker per line; a lone comment keeps the line, with one
/// space before the marker unless it starts the line, and one space after it
/// unless it is a pragma or section marker or empty.
pub open spec fn spec_comment(st: StV, n: Node) -> StV {
    let text = n.text@;
    if n.start_row != n.end_row {
        if starts_with(text, block_open_s()) {
            let afterp = text.skip(2);
            let inner = if ends_with(afterp, block_close_s()) {
                afterp.take(afterp.len() - 2)
            } else {
                afterp
            };
            let st1 = sp_newline(sp_print(st, block_open_s()));
            let st2 = sp_set_extra(st1, 2);
            let st3 = spec_comment_block_lines_at(st2, split_lines(inner), 0);
            let st4 = sp_indent(sp_set_extra(st3, 0));
            sp_print(st4, block_close_s())
        } else {
            spec_comment_multi_at(st, split_lines(text), 0)
        }
    } else {
        let line = trim(strip_percent(text));
        let special = starts_with(text, pragma_mark_s()) || starts_with(text, section_mark_s());
        let st1 = if st.col == sat(4 * st.level) {
            if special {
                sp_print_b(st, PERCENT)
            } else {
                let a = sp_print_b(st, PERCENT);
                if line.len() > 0 {
                    sp_print_b(a, SP)
                } else {
                    a
                }
            }
        } else {
            if special {
                sp_print(st, sp_percent_s())
            } else {
                let a = sp_print(st, sp_percent_s());
                if line.len() > 0 {
                    sp_print_b(a, SP)
                } else {
                    a
                }
            }
        };
        sp_print(st1, line)
    }
}

/// A line continuation: a separating space and the marker verbatim; if the
/// marker's own text consumed the line break only the cursors move; then
/// re-indent so the next token lines up.
pub open spec fn spec_line_continuation(st: StV, n: Node) -> StV {
    let st1 = sp_print(sp_print_b(st, SP), n.text@);
    let st2 = if n.start_row == n.end_row {
        sp_newline(st1)
    } else {
        sp_break(st1)
    };
    sp_indent(st2)
}

/// Pragma comments among the named children, rendered in place on the current
/// (header) line.
pub open spec fn spec_linter_at(st: StV, n: Node, j: int) -> StV
    decreases n.children@.len() - j,
{
    let s = n.children@;
    if j < 0 || j >= s.len() {
        st
    } else if s[j].named && s[j].kind == NodeKind::Comment && is_pragma(s[j].text@) {
        spec_linter_at(spec_comment(st, s[j]), n, j + 1)
    } else {
        spec_linter_at(st, n, j + 1)
    }
}

/// Non-pragma comments among the named children, each indented on a line of
/// its own; used when a construct has no body block.
pub open spec fn spec_nlc_at(st: StV, n: Node, j: int) -> StV
    decreases n.children@.len() - j,
{
    let s = n.children@;
    if j < 0 || j >= s.len() {
        st
    } else if s[j].named && s[j].kind == NodeKind::Comment && !is_pragma(s[j].text@) {
        spec_nlc_at(sp_newline(spec_comment(sp_indent(st), s[j])), n, j + 1)
    } else {
        spec_nlc_at(st, n, j + 1)
    }
}

/// Non-pragma comment siblings that follow child `j`, each on its own line;
/// the walk passes over unnamed siblings and stops at anything else.
pub open spec fn spec_nlc_after_at(st: StV, n: Node, j: int) -> StV
    decreases n.children@.len() - j,
{
    let s = n.children@;
    if j < 0 || j >= s.len() {
        st
    } else if !s[j].named {
        spec_nlc_after_at(st, n, j + 1)
    } else if s[j].kind == NodeKind::Comment && !is_pragma(s[j].text@) {
        spec_nlc_after_at(sp_newline(spec_comment(sp_indent(st), s[j])), n, j + 1)
    } else {
        st
    }
}

// ---------------------------------------------------------------------------
// Expressions.
// ---------------------------------------------------------------------------

/// An assignment: left side, ` = `, right side; the alignment latch does not
/// leak to the following statement.
pub open spec fn spec_assignment(c: Cfg, st: StV, n: Node) -> StV
    decreases node_height(n), 1nat, 0nat,
{
    let s = n.children@;
    match (find_field(s, Field::Left), find_field(s, Field::Right)) {
        (Some(li), Some(ri)) => sp_set_extra(
            spec_node(c, sp_print(spec_node(c, st, s[li]), sp_eq_sp_s()), s[ri]),
            0,
        ),
        _ => st,
    }
}

/// One operator token of a binary chain: an optional leading space, the
/// alignment latch at the operator's own column, the operator, an optional
/// trailing space.
pub open spec fn spec_binary_op_step(c: Cfg, st: StV, lc: bool, op: Seq<u8>) -> StV {
    if op_spaced(c, op) {
        let st1 = if !lc {
            sp_print_b(st, SP)
        } else {
            st
        };
        let st2 = sp_maybe_extra(st1, sp_align(st1));
        sp_print_b(sp_print(st2, op), SP)
    } else {
        let st1 = sp_maybe_extra(st, sp_align(st));
        sp_print(st1, op)
    }
}

pub open spec fn spec_binary_at(c: Cfg, st: StV, lc: bool, n: Node, i: int) -> StV
    decreases node_height(n), 0nat, n.children@.len() - i,
{
    let s = n.children@;
    if i < 0 || i >= s.len() {
        st
    } else {
        let ch = s[i];
        if ch.named {
            spec_binary_at(
                c,
                spec_node(c, st, ch),
                ch.kind == NodeKind::LineContinuation,
                n,
                i + 1,
            )
        } else {
            spec_binary_at(c, spec_binary_op_step(c, st, lc, trim(ch.text@)), lc, n, i + 1)
        }
    }
}

/// A binary operator chain: operands dispatched in order; each operator token
/// spaced according to the configuration, and the first operator's column
/// latched for continuation alignment.
pub open spec fn spec_binary(c: Cfg, st: StV, n: Node) -> StV
    decreases node_height(n), 1nat, 0nat,
{
    spec_binary_at(c, st, false, n, 0)
}

/// One operator token of a boolean or comparison chain: always spaced.
pub open spec fn spec_boolean_op_step(st: StV, lc: bool, op: Seq<u8>) -> StV {
    let st1 = if !lc {
        sp_print_b(st, SP)
    } else {
        st
    };
    let st2 = sp_maybe_extra(st1, sp_align(st1));
    sp_print_b(sp_print(st2, op), SP)
}

pub open spec fn spec_boolean_at(c: Cfg, st: StV, lc: bool, n: Node, i: int) -> StV
    decreases node_height(n), 0nat, n.children@.len() - i,
{
    let s = n.children@;
    if i < 0 || i >= s.len() {
        st
    } else {
        let ch = s[i];
        if ch.named {
            spec_boolean_at(
                c,
                spec_node(c, st, ch),
                ch.kind == NodeKind::LineContinuation,
                n,
                i + 1,
            )
        } else {
            spec_boolean_at(c, spec_boolean_op_step(st, lc, trim(ch.text@)), lc, n, i + 1)
        }
    }
}

/// Boolean and comparison operators: always spaced.
pub open spec fn spec_boolean(c: Cfg, st: StV, n: Node) -> StV
    decreases node_height(n), 1nat, 0nat,
{
    spec_boolean_at(c, st, false, n, 0)
}

pub open spec fn spec_unary_at(c: Cfg, st: StV, n: Node, i: int) -> StV
    decreases node_height(n), 0nat, n.children@.len() - i,
{
    let s = n.children@;
    if i < 0 || i >= s.len() {
        st
    } else if s[i].kind == NodeKind::LineContinuation {
        spec_unary_at(c, st, n, i + 1)
    } else {
        spec_unary_at(c, spec_node(c, st, s[i]), n, i + 1)
    }
}

/// Unary, postfix, handle, metaclass and not operators: children in order,
/// line continuations dropped.
pub open spec fn spec_unary(c: Cfg, st: StV, n: Node) -> StV
    decreases node_height(n), 1nat, 0nat,
{
    spec_unary_at(c, st, n, 0)
}

/// A parenthesized expression: `(`, alignment latched, the single meaningful
/// child, `)`.
pub open spec fn spec_parenthesis(c: Cfg, st: StV, n: Node) -> StV
    decreases node_height(n), 1nat, 0nat,
{
    match find_named_not_lc(n.children@) {
        Some(ci) => {
            let st1 = sp_print_b(st, LPAREN);
            let st2 = sp_maybe_extra(st1, sp_align(st1));
            sp_print_b(spec_node(c, st2, n.children@[ci]), RPAREN)
        },
        None => st,
    }
}

pub open spec fn spec_range_at(c: Cfg, st: StV, k: int, n: Node, i: int) -> StV
    decreases node_height(n), 0nat, n.children@.len() - i,
{
    let s = n.children@;
    if i < 0 || i >= s.len() {
        st
    } else if s[i].named && s[i].kind != NodeKind::LineContinuation {
        let st1 = if k > 0 {
            sp_print_b(st, COLON)
        } else {
            st
        };
        spec_range_at(c, spec_node(c, st1, s[i]), k + 1, n, i + 1)
    } else {
        spec_range_at(c, st, k, n, i + 1)
    }
}

/// A numeric range: endpoints joined by `:` with no surrounding spaces;
/// operator spacing is disabled for the whole of the range.
pub open spec fn spec_range(c: Cfg, st: StV, n: Node) -> StV
    decreases node_height(n), 1nat, 0nat,
{
    let c2 = Cfg { sparse_math: false, sparse_add: c.sparse_add };
    spec_range_at(c2, st, 0, n, 0)
}

pub open spec fn spec_multioutput_at(c: Cfg, st: StV, k: int, n: Node, i: int) -> StV
    decreases node_height(n), 0nat, n.children@.len() - i,
{
    let s = n.children@;
    if i < 0 || i >= s.len() {
        st
    } else if s[i].named && s[i].kind != NodeKind::LineContinuation {
        let st1 = if k > 0 {
            sp_print(st, comma_sp_s())
        } else {
            st
        };
        spec_multioutput_at(c, spec_node(c, st1, s[i]), k + 1, n, i + 1)
    } else {
        spec_multioutput_at(c, st, k, n, i + 1)
    }
}

/// A multi-output assignment target: `[`, comma-joined children, `]`.
pub open spec fn spec_multioutput(c: Cfg, st: StV, n: Node) -> StV
    decreases node_height(n), 1nat, 0nat,
{
    sp_print_b(spec_multioutput_at(c, sp_print_b(st, LBRACKET), 0, n, 0), RBRACKET)
}

pub open spec fn spec_lambda_args_at(st: StV, args: Node, k: int, i: int) -> StV
    decreases args.children@.len() - i,
{
    let s = args.children@;
    if i < 0 || i >= s.len() {
        st
    } else if s[i].named && s[i].kind != NodeKind::LineContinuation {
        let st1 = if k > 0 {
            sp_print(st, comma_sp_s())
        } else {
            st
        };
        spec_lambda_args_at(sp_print(st1, s[i].text@), args, k + 1, i + 1)
    } else {
        spec_lambda_args_at(st, args, k, i + 1)
    }
}

/// An anonymous function: `@(`, comma-joined parameter names, `) `, body.
pub open spec fn spec_lambda(c: Cfg, st: StV, n: Node) -> StV
    decreases node_height(n), 1nat, 0nat,
{
    let s = n.children@;
    match find_field(s, Field::Expression) {
        Some(ei) => {
            let st1 = sp_print_b(sp_print_b(st, AT), LPAREN);
            let st2 = match find_kind(s, NodeKind::Arguments) {
                Some(ai) => spec_lambda_args_at(st1, s[ai], 0, 0),
                None => st1,
            };
            spec_node(c, sp_print(st2, rparen_sp_s()), s[ei])
        },
        None => st,
    }
}

pub open spec fn spec_fncall_head_at(c: Cfg, st: StV, n: Node, i: int, limit: int) -> StV
    decreases node_height(n), 0nat, limit - i,
{
    let s = n.children@;
    if i < 0 || i >= limit || i >= s.len() {
        st
    } else if s[i].kind == NodeKind::LineContinuation {
        spec_fncall_head_at(c, st, n, i + 1, limit)
    } else {
        spec_fncall_head_at(c, spec_node(c, st, s[i]), n, i + 1, limit)
    }
}

/// A call or indexing expression: the callee, the opening `(` or `{` found
/// among the unnamed tokens, the argument list aligned after the bracket, the
/// matching closing bracket; the previous alignment is restored afterwards.
pub open spec fn spec_fncall(c: Cfg, st: StV, n: Node) -> StV
    decreases node_height(n), 1nat, 0nat,
{
    let s = n.children@;
    let bp = find_bracket(s);
    let limit = match bp {
        Some(b) => b,
        None => s.len() as int,
    };
    let parens = match bp {
        Some(b) => s[b].text@ == seq![40u8],
        None => true,
    };
    let st1 = spec_fncall_head_at(c, st, n, 0, limit);
    let st2 = sp_print_b(
        st1,
        if parens {
            LPAREN
        } else {
            LBRACE
        },
    );
    let prev_extra = st2.extra;
    let st3 = sp_set_extra(st2, sp_align(st2));
    let st4 = match find_kind(s, NodeKind::Arguments) {
        Some(ai) => spec_arguments(c, st3, s[ai]),
        None => st3,
    };
    let st5 = sp_print_b(
        st4,
        if parens {
            RPAREN
        } else {
            RBRACE
        },
    );
    sp_set_extra(st5, prev_extra)
}

pub open spec fn spec_arguments_at(c: Cfg, st: StV, k: int, prev_lc: bool, n: Node, i: int) -> StV
    decreases node_height(n), 0nat, n.children@.len() - i,
{
    let s = n.children@;
    if i < 0 || i >= s.len() {
        st
    } else if s[i].named {
        let st1 = if k > 0 && !prev_lc {
            sp_print(st, comma_sp_s())
        } else {
            st
        };
        spec_arguments_at(
            c,
            spec_node(c, st1, s[i]),
            k + 1,
            s[i].kind == NodeKind::LineContinuation,
            n,
            i + 1,
        )
    } else {
        spec_arguments_at(c, st, k, prev_lc, n, i + 1)
    }
}

/// An argument list: named children joined by `, `, except directly after a
/// line continuation.
pub open spec fn spec_arguments(c: Cfg, st: StV, n: Node) -> StV
    decreases node_height(n), 1nat, 0nat,
{
    spec_arguments_at(c, st, 0, false, n, 0)
}

pub open spec fn spec_command_at(c: Cfg, st: StV, n: Node, i: int) -> StV
    decreases node_height(n), 0nat, n.children@.len() - i,
{
    let s = n.children@;
    if i < 0 || i >= s.len() {
        st
    } else {
        let st1 = if i > 0 {
            sp_print_b(st, SP)
        } else {
            st
        };
        let st2 = spec_node(c, st1, s[i]);
        let st3 = if s[i].kind == NodeKind::CommandName {
            sp_set_extra(st2, sp_align(st2))
        } else {
            st2
        };
        spec_command_at(c, st3, n, i + 1)
    }
}

/// A command-style invocation: space-joined children, aligned after the
/// command name.
pub open spec fn spec_command(c: Cfg, st: StV, n: Node) -> StV
    decreases node_height(n), 1nat, 0nat,
{
    sp_set_extra(spec_command_at(c, st, n, 0), 0)
}

pub open spec fn spec_field_at(c: Cfg, st: StV, k: int, n: Node, i: int) -> StV
    decreases node_height(n), 0nat, n.children@.len() - i,
{
    let s = n.children@;
    if i < 0 || i >= s.len() {
        st
    } else if s[i].named && !is_extra_kind(s[i].kind) {
        let st1 = if k > 0 {
            sp_print_b(st, DOT)
        } else {
            st
        };
        spec_field_at(c, spec_node(c, st1, s[i]), k + 1, n, i + 1)
    } else {
        spec_field_at(c, st, k, n, i + 1)
    }
}

/// A field access: dot-joined children, extras skipped.
pub open spec fn spec_field(c: Cfg, st: StV, n: Node) -> StV
    decreases node_height(n), 1nat, 0nat,
{
    spec_field_at(c, st, 0, n, 0)
}

pub open spec fn spec_matrix_at(c: Cfg, st: StV, first: bool, multiline: bool, n: Node, i: int) -> StV
    decreases node_height(n), 0nat, n.children@.len() - i,
{
    let s = n.children@;
    if i < 0 || i >= s.len() {
        st
    } else if !s[i].named {
        spec_matrix_at(c, st, first, multiline, n, i + 1)
    } else if s[i].kind == NodeKind::Comment {
        let st1 = if !first {
            sp_print_b(st, SEMI)
        } else {
            st
        };
        let st2 = sp_indent(sp_newline(spec_comment(st1, s[i])));
        spec_matrix_at(c, st2, true, multiline, n, i + 1)
    } else {
        let st1 = if !first {
            if multiline {
                sp_indent(sp_newline(sp_print_b(st, SEMI)))
            } else {
                sp_print(st, semi_sp_s())
            }
        } else {
            st
        };
        let st2 = spec_node(c, st1, s[i]);
        let first2 = if !is_extra_kind(s[i].kind) {
            false
        } else {
            first
        };
        spec_matrix_at(c, st2, first2, multiline, n, i + 1)
    }
}

/// A matrix or cell literal: rows terminated by `;`, on lines of their own
/// when the literal spans several source lines, aligned after the opening
/// bracket; an embedded comment forces a row break.
pub open spec fn spec_matrix(c: Cfg, st: StV, n: Node) -> StV
    decreases node_height(n), 1nat, 0nat,
{
    let matrix = n.kind == NodeKind::Matrix;
    let multiline = n.start_row != n.end_row;
    let st1 = sp_print_b(
        st,
        if matrix {
            LBRACKET
        } else {
            LBRACE
        },
    );
    let prev_extra = st1.extra;
    let st2 = sp_set_extra(st1, sp_align(st1));
    let st3 = spec_matrix_at(c, st2, true, multiline, n, 0);
    let st4 = sp_print_b(
        st3,
        if matrix {
            RBRACKET
        } else {
            RBRACE
        },
    );
    sp_set_extra(st4, prev_extra)
}

pub open spec fn spec_row_at(c: Cfg, st: StV, first: bool, n: Node, i: int) -> StV
    decreases node_height(n), 0nat, n.children@.len() - i,
{
    let s = n.children@;
    if i < 0 || i >= s.len() {
        st
    } else if s[i].named {
        let st1 = if !first && !is_extra_kind(s[i].kind) {
            sp_print_b(st, SP)
        } else {
            st
        };
        spec_row_at(c, spec_node(c, st1, s[i]), is_extra_kind(s[i].kind), n, i + 1)
    } else {
        spec_row_at(c, st, first, n, i + 1)
    }
}

/// One row of a matrix or cell: space-joined named children.
pub open spec fn spec_row(c: Cfg, st: StV, n: Node) -> StV
    decreases node_height(n), 1nat, 0nat,
{
    spec_row_at(c, st, true, n, 0)
}

pub open spec fn spec_global_at(st: StV, k: int, n: Node, i: int) -> StV
    decreases n.children@.len() - i,
{
    let s = n.children@;
    if i < 0 || i >= s.len() {
        st
    } else if s[i].kind != NodeKind::LineContinuation {
        let st1 = if k > 0 {
            sp_print_b(st, SP)
        } else {
            st
        };
        spec_global_at(sp_print(st1, s[i].text@), k + 1, n, i + 1)
    } else {
        spec_global_at(st, k, n, i + 1)
    }
}

/// A global or persistent declaration: its tokens verbatim, space-joined.
pub open spec fn spec_global(st: StV, n: Node) -> StV {
    spec_global_at(st, 0, n, 0)
}

// ---------------------------------------------------------------------------
// Control flow and definitions.
// ---------------------------------------------------------------------------

/// A while loop: `while `, the condition, an inline pragma comment, then the
/// body one level deeper and the closing `end`.
pub open spec fn spec_while(c: Cfg, st: StV, n: Node) -> StV
    decreases node_height(n), 1nat, 0nat,
{
    let s = n.children@;
    match find_field(s, Field::Condition) {
        Some(ci) => {
            let st1 = spec_node(c, sp_print(st, while_kw_s()), s[ci]);
            let st2 = sp_inc_level(sp_newline(spec_linter_at(st1, n, 0)));
            let st3 = match find_kind(s, NodeKind::Block) {
                Some(bi) => spec_block_in(c, st2, n, bi),
                None => spec_nlc_at(st2, n, 0),
            };
            sp_print(sp_indent(sp_dec_level(st3)), end_kw_s())
        },
        None => st,
    }
}

/// A try/catch: the two bodies one level deeper, the catch capture verbatim.
pub open spec fn spec_try(c: Cfg, st: StV, n: Node) -> StV
    decreases node_height(n), 1nat, 0nat,
{
    let s = n.children@;
    match find_kind(s, NodeKind::CatchClause) {
        Some(cti) => {
            let catch = s[cti];
            let st1 = sp_inc_level(sp_newline(sp_print(st, try_kw_s())));
            let st2 = match find_kind(s, NodeKind::Block) {
                Some(bi) => spec_block_in(c, st1, n, bi),
                None => spec_nlc_at(st1, n, 0),
            };
            let st3 = sp_print(sp_indent(sp_dec_level(st2)), catch_kw_s());
            let st4 = match find_kind(catch.children@, NodeKind::Identifier) {
                Some(cpi) => sp_print(sp_print_b(st3, SP), catch.children@[cpi].text@),
                None => st3,
            };
            let st5 = sp_inc_level(sp_newline(spec_linter_at(st4, catch, 0)));
            let st6 = match find_kind(catch.children@, NodeKind::Block) {
                Some(cbi) => spec_block_in(c, st5, catch, cbi),
                None => spec_nlc_at(st5, catch, 0),
            };
            sp_print(sp_indent(sp_dec_level(st6)), end_kw_s())
        },
        None => st,
    }
}

pub open spec fn spec_switch_cases_at(c: Cfg, st: StV, n: Node, i: int) -> StV
    decreases node_height(n), 0nat, n.children@.len() - i,
{
    let s = n.children@;
    if i < 0 || i >= s.len() {
        st
    } else if s[i].named && s[i].kind == NodeKind::CaseClause {
        let case = s[i];
        match find_field(case.children@, Field::Condition) {
            Some(cci) => {
                let st1 = sp_print(sp_indent(st), case_kw_s());
                let st2 = spec_node(c, st1, case.children@[cci]);
                let st3 = sp_inc_level(sp_newline(spec_linter_at(st2, case, 0)));
                let st4 = match find_kind(case.children@, NodeKind::Block) {
                    Some(cbi) => spec_block_in(c, st3, case, cbi),
                    None => spec_nlc_at(st3, case, 0),
                };
                spec_switch_cases_at(c, sp_dec_level(st4), n, i + 1)
            },
            None => spec_switch_cases_at(c, st, n, i + 1),
        }
    } else {
        spec_switch_cases_at(c, st, n, i + 1)
    }
}

/// A switch: `switch `, the subject, each case one level deeper, then an
/// optional `otherwise` and the closing `end`.
pub open spec fn spec_switch(c: Cfg, st: StV, n: Node) -> StV
    decreases node_height(n), 1nat, 0nat,
{
    let s = n.children@;
    match find_field(s, Field::Condition) {
        Some(ci) => {
            let st1 = spec_node(c, sp_print(st, switch_kw_s()), s[ci]);
            let st2 = sp_inc_level(sp_newline(spec_linter_at(st1, n, 0)));
            let st3 = spec_switch_cases_at(c, st2, n, 0);
            let st4 = match find_named_kind(s, NodeKind::OtherwiseClause) {
                Some(oi) => {
                    let ow = s[oi];
                    let sta = sp_newline(sp_print(sp_indent(st3), otherwise_kw_s()));
                    let stb = sp_inc_level(sta);
                    let stc = match find_kind(ow.children@, NodeKind::Block) {
                        Some(obi) => spec_block_in(c, stb, ow, obi),
                        None => spec_nlc_at(stb, ow, 0),
                    };
                    sp_dec_level(stc)
                },
                None => st3,
            };
            sp_print(sp_indent(sp_dec_level(st4)), end_kw_s())
        },
        None => st,
    }
}

pub open spec fn spec_if_elseif_at(c: Cfg, st: StV, n: Node, i: int) -> StV
    decreases node_height(n), 0nat, n.children@.len() - i,
{
    let s = n.children@;
    if i < 0 || i >= s.len() {
        st
    } else if s[i].named && s[i].kind == NodeKind::ElseifClause {
        let clause = s[i];
        match find_field(clause.children@, Field::Condition) {
            Some(cci) => {
                let st1 = sp_print(sp_indent(st), elseif_kw_s());
                let st2 = spec_node(c, st1, clause.children@[cci]);
                let st3 = sp_set_extra(sp_inc_level(sp_newline(spec_linter_at(st2, clause, 0))), 0);
                let st4 = match find_kind(clause.children@, NodeKind::Block) {
                    Some(cbi) => spec_block_in(c, st3, clause, cbi),
                    None => spec_nlc_after_at(st3, n, i + 1),
                };
                spec_if_elseif_at(c, sp_dec_level(st4), n, i + 1)
            },
            None => spec_if_elseif_at(c, st, n, i + 1),
        }
    } else {
        spec_if_elseif_at(c, st, n, i + 1)
    }
}

/// A conditional: `if `, the condition with its inline pragma comment, the
/// branch bodies one level deeper, `elseif` and `else` clauses in place, the
/// closing `end`.
pub open spec fn spec_if(c: Cfg, st: StV, n: Node) -> StV
    decreases node_height(n), 1nat, 0nat,
{
    let s = n.children@;
    match find_field(s, Field::Condition) {
        Some(ci) => {
            let st1 = spec_node(c, sp_print(st, if_kw_s()), s[ci]);
            let st2 = sp_inc_level(sp_newline(spec_linter_at(st1, n, 0)));
            let st3 = match find_kind(s, NodeKind::Block) {
                Some(bi) => spec_block_in(c, st2, n, bi),
                None => spec_nlc_at(st2, n, 0),
            };
            let st4 = spec_if_elseif_at(c, sp_dec_level(st3), n, 0);
            let st5 = match find_named_kind(s, NodeKind::ElseClause) {
                Some(ei) => {
                    let ec = s[ei];
                    let sta = sp_inc_level(sp_newline(sp_print(sp_indent(st4), else_kw_s())));
                    let stb = match find_kind(ec.children@, NodeKind::Block) {
                        Some(ebi) => spec_block_in(c, sta, ec, ebi),
                        None => spec_nlc_after_at(sta, n, ei + 1),
                    };
                    sp_dec_level(stb)
                },
                None => st4,
            };
            sp_print(sp_indent(st5), end_kw_s())
        },
        None => st,
    }
}

/// The tail every loop header shares: inline pragma comment, line break, the
/// body one level deeper, the closing `end`.
pub open spec fn spec_for_tail(c: Cfg, st: StV, n: Node) -> StV
    decreases node_height(n), 0nat, 1nat,
{
    let st1 = sp_inc_level(sp_newline(spec_linter_at(st, n, 0)));
    let st2 = match find_kind(n.children@, NodeKind::Block) {
        Some(bi) => spec_block_in(c, st1, n, bi),
        None => spec_nlc_at(st1, n, 0),
    };
    sp_print(sp_indent(sp_dec_level(st2)), end_kw_s())
}

/// A for or parfor loop: the keyword verbatim, the iterator with its range
/// (and parfor options in parentheses), the body one level deeper.
pub open spec fn spec_for(c: Cfg, st: StV, n: Node) -> StV
    decreases node_height(n), 1nat, 0nat,
{
    let s = n.children@;
    if s.len() == 0 {
        st
    } else {
        match find_kind(s, NodeKind::LoopIterator) {
            Some(iti) => {
                let it = s[iti];
                match (nth_named(it.children@, 0), nth_named(it.children@, 1)) {
                    (Some(v0), Some(v1)) => {
                        let st1 = sp_print_b(sp_print(st, s[0].text@), SP);
                        match find_kind(s, NodeKind::ParforOptions) {
                            Some(oi) => match nth_named(s[oi].children@, 0) {
                                Some(o0) => {
                                    let sta = sp_print(
                                        sp_print_b(st1, LPAREN),
                                        it.children@[v0].text@,
                                    );
                                    let stb = spec_node(
                                        c,
                                        sp_print(sta, sp_eq_sp_s()),
                                        it.children@[v1],
                                    );
                                    let stc = sp_print_b(
                                        sp_print(
                                            sp_print(stb, comma_sp_s()),
                                            s[oi].children@[o0].text@,
                                        ),
                                        RPAREN,
                                    );
                                    spec_for_tail(c, stc, n)
                                },
                                None => st,
                            },
                            None => {
                                let sta = sp_print(st1, it.children@[v0].text@);
                                let stb = spec_node(c, sp_print(sta, sp_eq_sp_s()), it.children@[v1]);
                                spec_for_tail(c, stb, n)
                            },
                        }
                    },
                    _ => st,
                }
            },
            None => st,
        }
    }
}

pub open spec fn spec_fnargs_at(st: StV, args: Node, k: int, i: int) -> StV
    decreases args.children@.len() - i,
{
    let s = args.children@;
    if i < 0 || i >= s.len() {
        st
    } else if s[i].named && s[i].kind != NodeKind::LineContinuation {
        let st1 = if k > 0 {
            sp_print(st, comma_sp_s())
        } else {
            st
        };
        spec_fnargs_at(sp_print(st1, s[i].text@), args, k + 1, i + 1)
    } else {
        spec_fnargs_at(st, args, k, i + 1)
    }
}

pub open spec fn spec_function_argstmts_at(c: Cfg, st: StV, n: Node, i: int) -> StV
    decreases node_height(n), 0nat, n.children@.len() - i,
{
    let s = n.children@;
    if i < 0 || i >= s.len() {
        st
    } else if s[i].named && s[i].kind == NodeKind::ArgumentsStatement {
        spec_function_argstmts_at(c, sp_newline(spec_node(c, sp_indent(st), s[i])), n, i + 1)
    } else {
        spec_function_argstmts_at(c, st, n, i + 1)
    }
}

/// The header of a function: optional output and ` = `, optional `get.` or
/// `set.` accessor prefix, the name, the parameter list verbatim.
pub open spec fn spec_function_header(c: Cfg, st: StV, n: Node, ni: int) -> StV
    recommends
        0 <= ni < n.children@.len(),
    decreases node_height(n), 0nat, 0nat,
    when 0 <= ni < n.children@.len()
{
    let s = n.children@;
    let st1 = match find_named_kind(s, NodeKind::FunctionOutput) {
        Some(oi) => if s[oi].children@.len() >= 1 {
            sp_print(spec_node(c, st, s[oi].children@[0]), sp_eq_sp_s())
        } else {
            st
        },
        None => st,
    };
    let st2 = match find_getset(s) {
        Some(gi) => sp_print_b(sp_print(st1, s[gi].text@), DOT),
        None => st1,
    };
    let st3 = sp_print(st2, s[ni].text@);
    match find_named_kind(s, NodeKind::FunctionArguments) {
        Some(ai) => sp_print_b(spec_fnargs_at(sp_print_b(st3, LPAREN), s[ai], 0, 0), RPAREN),
        None => st3,
    }
}

/// A function definition: `function `, the header, any arguments-validation
/// blocks, the body one level deeper, the closing `end`.
pub open spec fn spec_function(c: Cfg, st: StV, n: Node) -> StV
    decreases node_height(n), 1nat, 0nat,
{
    let s = n.children@;
    match find_field(s, Field::Name) {
        Some(ni) => {
            let st1 = spec_function_header(c, sp_print(st, function_kw_s()), n, ni);
            let st2 = sp_inc_level(sp_newline(st1));
            let st3 = spec_function_argstmts_at(c, st2, n, 0);
            let st4 = match find_named_kind(s, NodeKind::Block) {
                Some(bi) => spec_block_in(c, st3, n, bi),
                None => spec_nlc_at(st3, n, 0),
            };
            sp_print(sp_indent(sp_dec_level(st4)), end_kw_s())
        },
        None => st,
    }
}

/// A bare function signature (an abstract method): the header alone.
pub open spec fn spec_signature(c: Cfg, st: StV, n: Node) -> StV
    decreases node_height(n), 1nat, 0nat,
{
    match find_field(n.children@, Field::Name) {
        Some(ni) => spec_function_header(c, st, n, ni),
        None => st,
    }
}

pub open spec fn spec_argstmt_props_at(c: Cfg, st: StV, n: Node, i: int) -> StV
    decreases node_height(n), 0nat, n.children@.len() - i,
{
    let s = n.children@;
    if i < 0 || i >= s.len() {
        st
    } else if s[i].kind == NodeKind::Property {
        spec_argstmt_props_at(c, sp_newline(spec_property(c, sp_indent(st), s[i])), n, i + 1)
    } else {
        spec_argstmt_props_at(c, st, n, i + 1)
    }
}

/// An arguments-validation block: `arguments`, optional attributes, one
/// property per line one level deeper, the closing `end`.
pub open spec fn spec_arguments_statement(c: Cfg, st: StV, n: Node) -> StV
    decreases node_height(n), 1nat, 0nat,
{
    let s = n.children@;
    let st0 = sp_set_extra(st, 0);
    let st1 = sp_print(st0, arguments_kw_s());
    let st2 = match find_kind(s, NodeKind::Attributes) {
        Some(ai) => sp_print_b(spec_arguments(c, sp_print(st1, sp_lparen_s()), s[ai]), RPAREN),
        None => st1,
    };
    let st3 = sp_inc_level(sp_newline(st2));
    let st4 = spec_argstmt_props_at(c, st3, n, 0);
    sp_print(sp_indent(sp_dec_level(st4)), end_kw_s())
}

/// One property declaration: name, dimensions, class, validation functions
/// and default value, space-separated as present.
pub open spec fn spec_property(c: Cfg, st: StV, n: Node) -> StV
    decreases node_height(n), 1nat, 0nat,
{
    let s = n.children@;
    match find_field(s, Field::Name) {
        Some(ni) => {
            let st1 = if s[ni].kind == NodeKind::Identifier {
                sp_print(st, s[ni].text@)
            } else {
                spec_property_name(st, s[ni])
            };
            let st2 = match find_kind(s, NodeKind::Dimensions) {
                Some(di) => spec_dimensions(sp_print_b(st1, SP), s[di]),
                None => st1,
            };
            let st3 = match find_kind2_excl(
                s,
                NodeKind::Identifier,
                NodeKind::PropertyName,
                ni,
            ) {
                Some(cli) => spec_node(c, sp_print_b(st2, SP), s[cli]),
                None => st2,
            };
            let st4 = match find_kind(s, NodeKind::ValidationFunctions) {
                Some(vi) => sp_print_b(spec_arguments(c, sp_print(st3, sp_lbrace_s()), s[vi]), RBRACE),
                None => st3,
            };
            match find_kind(s, NodeKind::DefaultValue) {
                Some(dfi) => match nth_named(s[dfi].children@, 0) {
                    Some(k) => spec_node(c, sp_print(st4, sp_eq_sp_s()), s[dfi].children@[k]),
                    None => st4,
                },
                None => st4,
            }
        },
        None => st,
    }
}

pub open spec fn spec_property_name_at(st: StV, n: Node, i: int) -> StV
    decreases n.children@.len() - i,
{
    if i < 0 || i >= n.children@.len() {
        st
    } else {
        spec_property_name_at(sp_print(st, n.children@[i].text@), n, i + 1)
    }
}

/// A dotted property name, its tokens verbatim.
pub open spec fn spec_property_name(st: StV, n: Node) -> StV {
    spec_property_name_at(st, n, 0)
}

pub open spec fn spec_dimensions_at(st: StV, k: int, n: Node, i: int) -> StV
    decreases n.children@.len() - i,
{
    let s = n.children@;
    if i < 0 || i >= s.len() {
        st
    } else if s[i].named {
        let st1 = if k > 0 {
            sp_print_b(st, COMMA)
        } else {
            st
        };
        spec_dimensions_at(sp_print(st1, s[i].text@), k + 1, n, i + 1)
    } else {
        spec_dimensions_at(st, k, n, i + 1)
    }
}

/// A dimensions annotation: `(`, comma-joined sizes verbatim, `)`.
pub open spec fn spec_dimensions(st: StV, n: Node) -> StV {
    sp_print_b(spec_dimensions_at(sp_print_b(st, LPAREN), 0, n, 0), RPAREN)
}

pub open spec fn spec_attributes_at(c: Cfg, st: StV, k: int, n: Node, i: int) -> StV
    decreases node_height(n), 0nat, n.children@.len() - i,
{
    let s = n.children@;
    if i < 0 || i >= s.len() {
        st
    } else if s[i].kind == NodeKind::Attribute {
        let st1 = if k > 0 {
            sp_print(st, comma_sp_s())
        } else {
            st
        };
        spec_attributes_at(c, spec_attribute(c, st1, s[i]), k + 1, n, i + 1)
    } else {
        spec_attributes_at(c, st, k, n, i + 1)
    }
}

/// An attribute list: `(`, comma-joined attributes, `)`.
pub open spec fn spec_attributes(c: Cfg, st: StV, n: Node) -> StV
    decreases node_height(n), 1nat, 0nat,
{
    sp_print_b(spec_attributes_at(c, sp_print_b(st, LPAREN), 0, n, 0), RPAREN)
}

/// One attribute: its name verbatim, and `=` with the value when given.
pub open spec fn spec_attribute(c: Cfg, st: StV, n: Node) -> StV
    decreases node_height(n), 1nat, 0nat,
{
    let s = n.children@;
    match nth_named(s, 0) {
        Some(i0) => {
            let st1 = sp_print(st, s[i0].text@);
            match nth_named(s, 1) {
                Some(i1) => spec_node(c, sp_print_b(st1, EQUALS), s[i1]),
                None => st1,
            }
        },
        None => st,
    }
}

pub open spec fn spec_properties_props_at(c: Cfg, st: StV, n: Node, i: int) -> StV
    decreases node_height(n), 0nat, n.children@.len() - i,
{
    let s = n.children@;
    if i < 0 || i >= s.len() {
        st
    } else if s[i].named && s[i].kind == NodeKind::Property {
        spec_properties_props_at(c, sp_newline(spec_property(c, sp_indent(st), s[i])), n, i + 1)
    } else {
        spec_properties_props_at(c, st, n, i + 1)
    }
}

/// A properties section of a class: `properties`, optional attributes, one
/// property per line one level deeper, `end`.
pub open spec fn spec_properties(c: Cfg, st: StV, n: Node) -> StV
    decreases node_height(n), 1nat, 0nat,
{
    let s = n.children@;
    let st1 = sp_print(st, properties_kw_s());
    let st2 = match find_named_kind(s, NodeKind::Attributes) {
        Some(ai) => spec_attributes(c, sp_print_b(st1, SP), s[ai]),
        None => st1,
    };
    let st3 = sp_inc_level(sp_newline(st2));
    let st4 = spec_properties_props_at(c, st3, n, 0);
    sp_print(sp_indent(sp_dec_level(st4)), end_kw_s())
}

pub open spec fn spec_enum_fields_at(c: Cfg, st: StV, item: Node, k: int, i: int) -> StV
    decreases node_height(item), 0nat, item.children@.len() - i,
{
    let s = item.children@;
    if i < 0 || i >= s.len() {
        st
    } else if s[i].named {
        let st1 = if k == 0 {
            sp_print(st, s[i].text@)
        } else if k == 1 {
            spec_node(c, sp_print(st, sp_lparen_s()), s[i])
        } else {
            spec_node(c, sp_print(st, comma_sp_s()), s[i])
        };
        spec_enum_fields_at(c, st1, item, k + 1, i + 1)
    } else {
        spec_enum_fields_at(c, st, item, k, i + 1)
    }
}

pub open spec fn spec_enum_items_at(c: Cfg, st: StV, n: Node, i: int) -> StV
    decreases node_height(n), 0nat, n.children@.len() - i,
{
    let s = n.children@;
    if i < 0 || i >= s.len() {
        st
    } else if s[i].named && s[i].kind == NodeKind::Enum {
        let item = s[i];
        let st1 = spec_enum_fields_at(c, sp_indent(st), item, 0, 0);
        let st2 = if nth_named(item.children@, 1) is Some {
            sp_print_b(st1, RPAREN)
        } else {
            st1
        };
        spec_enum_items_at(c, sp_newline(st2), n, i + 1)
    } else {
        spec_enum_items_at(c, st, n, i + 1)
    }
}

/// An enumeration section: `enumeration`, optional attributes, one member per
/// line with its constructor arguments in parentheses, `end`.
pub open spec fn spec_enum(c: Cfg, st: StV, n: Node) -> StV
    decreases node_height(n), 1nat, 0nat,
{
    let s = n.children@;
    let st1 = sp_print(st, enumeration_kw_s());
    let st2 = match find_named_kind(s, NodeKind::Attributes) {
        Some(ai) => spec_attributes(c, sp_print_b(st1, SP), s[ai]),
        None => st1,
    };
    let st3 = sp_inc_level(sp_newline(st2));
    let st4 = spec_enum_items_at(c, st3, n, 0);
    sp_print(sp_indent(sp_dec_level(st4)), end_kw_s())
}

pub open spec fn spec_events_ids_at(st: StV, n: Node, i: int) -> StV
    decreases n.children@.len() - i,
{
    let s = n.children@;
    if i < 0 || i >= s.len() {
        st
    } else if s[i].named && s[i].kind == NodeKind::Identifier {
        spec_events_ids_at(sp_newline(sp_print(sp_indent(st), s[i].text@)), n, i + 1)
    } else {
        spec_events_ids_at(st, n, i + 1)
    }
}

/// An events section: `events`, optional attributes, one identifier per line,
/// `end`.
pub open spec fn spec_events(c: Cfg, st: StV, n: Node) -> StV
    decreases node_height(n), 1nat, 0nat,
{
    let s = n.children@;
    let st1 = sp_print(st, events_kw_s());
    let st2 = match find_named_kind(s, NodeKind::Attributes) {
        Some(ai) => spec_attributes(c, sp_print_b(st1, SP), s[ai]),
        None => st1,
    };
    let st3 = sp_inc_level(sp_newline(st2));
    let st4 = spec_events_ids_at(st3, n, 0);
    sp_print(sp_indent(sp_dec_level(st4)), end_kw_s())
}

pub open spec fn spec_method_sigs_at(c: Cfg, st: StV, n: Node, i: int) -> StV
    decreases node_height(n), 0nat, n.children@.len() - i,
{
    let s = n.children@;
    if i < 0 || i >= s.len() {
        st
    } else if s[i].named && s[i].kind == NodeKind::FunctionSignature {
        spec_method_sigs_at(c, sp_newline(spec_signature(c, sp_indent(st), s[i])), n, i + 1)
    } else {
        spec_method_sigs_at(c, st, n, i + 1)
    }
}

pub open spec fn spec_method_defs_at(c: Cfg, st: StV, k: int, has_sigs: bool, n: Node, i: int) -> StV
    decreases node_height(n), 0nat, n.children@.len() - i,
{
    let s = n.children@;
    if i < 0 || i >= s.len() {
        st
    } else if s[i].named && s[i].kind == NodeKind::FunctionDefinition {
        let st1 = if k > 0 || has_sigs {
            sp_newline(st)
        } else {
            st
        };
        let st2 = sp_newline(spec_function(c, sp_indent(st1), s[i]));
        spec_method_defs_at(c, st2, k + 1, has_sigs, n, i + 1)
    } else {
        spec_method_defs_at(c, st, k, has_sigs, n, i + 1)
    }
}

/// A methods section: `methods`, optional attributes, bare signatures first,
/// then the definitions, blank-line separated, `end`.
pub open spec fn spec_method(c: Cfg, st: StV, n: Node) -> StV
    decreases node_height(n), 1nat, 0nat,
{
    let s = n.children@;
    let st1 = sp_print(st, methods_kw_s());
    let st2 = match find_named_kind(s, NodeKind::Attributes) {
        Some(ai) => spec_attributes(c, sp_print_b(st1, SP), s[ai]),
        None => st1,
    };
    let st3 = sp_inc_level(sp_newline(st2));
    let st4 = spec_method_sigs_at(c, st3, n, 0);
    let has_sigs = find_named_kind(s, NodeKind::FunctionSignature) is Some;
    let st5 = spec_method_defs_at(c, st4, 0, has_sigs, n, 0);
    sp_print(sp_indent(sp_dec_level(st5)), end_kw_s())
}

pub open spec fn spec_superclasses_at(st: StV, sup: Node, k: int, i: int) -> StV
    decreases node_height(sup), 0nat, sup.children@.len() - i,
{
    let s = sup.children@;
    if i < 0 || i >= s.len() {
        st
    } else if s[i].named {
        let st1 = if k > 0 {
            sp_print(st, sp_amp_sp_s())
        } else {
            st
        };
        spec_superclasses_at(spec_property_name(st1, s[i]), sup, k + 1, i + 1)
    } else {
        spec_superclasses_at(st, sup, k, i + 1)
    }
}

pub open spec fn spec_classdef_sections_at(c: Cfg, st: StV, n: Node, k: NodeKind, i: int) -> StV
    decreases node_height(n), 0nat, n.children@.len() - i,
{
    let s = n.children@;
    if i < 0 || i >= s.len() {
        st
    } else if s[i].kind == k {
        let st1 = if k == NodeKind::Properties {
            spec_properties(c, sp_indent(st), s[i])
        } else if k == NodeKind::Enumeration {
            spec_enum(c, sp_indent(st), s[i])
        } else if k == NodeKind::Events {
            spec_events(c, sp_indent(st), s[i])
        } else {
            spec_method(c, sp_indent(st), s[i])
        };
        spec_classdef_sections_at(c, sp_newline(st1), n, k, i + 1)
    } else {
        spec_classdef_sections_at(c, st, n, k, i + 1)
    }
}

/// A class definition: `classdef`, attributes, name, superclasses, then in
/// fixed order the properties, enumeration, events and method sections, each
/// one level deeper, and the closing `end` at the start of its line.
pub open spec fn spec_classdef(c: Cfg, st: StV, n: Node) -> StV
    decreases node_height(n), 1nat, 0nat,
{
    let s = n.children@;
    match find_field(s, Field::Name) {
        Some(ni) => {
            let st1 = sp_print(st, classdef_kw_s());
            let st2 = match find_kind(s, NodeKind::Attributes) {
                Some(ai) => sp_print_b(spec_attributes(c, st1, s[ai]), SP),
                None => st1,
            };
            let st3 = sp_print(st2, s[ni].text@);
            let st4 = match find_kind(s, NodeKind::Superclasses) {
                Some(si) => spec_superclasses_at(sp_print(st3, sp_lt_sp_s()), s[si], 0, 0),
                None => st3,
            };
            let st5 = sp_inc_level(sp_set_extra(sp_newline(st4), 0));
            let st6 = spec_classdef_sections_at(c, st5, n, NodeKind::Properties, 0);
            let st7 = spec_classdef_sections_at(c, st6, n, NodeKind::Enumeration, 0);
            let st8 = spec_classdef_sections_at(c, st7, n, NodeKind::Events, 0);
            let st9 = spec_classdef_sections_at(c, st8, n, NodeKind::Methods, 0);
            sp_print(sp_dec_level(st9), end_kw_s())
        },
        None => st,
    }
}

// ---------------------------------------------------------------------------
// Dispatch.
// ---------------------------------------------------------------------------

/// Renders one node by its kind; a kind without a routine of its own is
/// emitted verbatim.
pub open spec fn spec_node(c: Cfg, st: StV, n: Node) -> StV
    decreases node_height(n), 2nat, 0nat,
{
    match n.kind {
        NodeKind::ArgumentsStatement => spec_arguments_statement(c, st, n),
        NodeKind::Assignment => spec_assignment(c, st, n),
        NodeKind::BinaryOperator => spec_binary(c, st, n),
        NodeKind::Block => spec_block(c, st, n),
        NodeKind::BooleanOperator => spec_boolean(c, st, n),
        NodeKind::Cell => spec_matrix(c, st, n),
        NodeKind::ClassDefinition => spec_classdef(c, st, n),
        NodeKind::Command => spec_command(c, st, n),
        NodeKind::Comment => spec_comment(st, n),
        NodeKind::ComparisonOperator => spec_boolean(c, st, n),
        NodeKind::FieldExpression => spec_field(c, st, n),
        NodeKind::ForStatement => spec_for(c, st, n),
        NodeKind::FunctionCall => spec_fncall(c, st, n),
        NodeKind::FunctionDefinition => spec_function(c, st, n),
        NodeKind::GlobalOperator => spec_global(st, n),
        NodeKind::HandleOperator => spec_unary(c, st, n),
        NodeKind::IfStatement => spec_if(c, st, n),
        NodeKind::IndirectAccess => spec_parenthesis(c, st, n),
        NodeKind::Lambda => spec_lambda(c, st, n),
        NodeKind::LineContinuation => spec_line_continuation(st, n),
        NodeKind::Matrix => spec_matrix(c, st, n),
        NodeKind::MetaclassOperator => spec_unary(c, st, n),
        NodeKind::MultioutputVariable => spec_multioutput(c, st, n),
        NodeKind::NotOperator => spec_unary(c, st, n),
        NodeKind::Parenthesis => spec_parenthesis(c, st, n),
        NodeKind::PersistentOperator => spec_global(st, n),
        NodeKind::PostfixOperator => spec_unary(c, st, n),
        NodeKind::Property => spec_property(c, st, n),
        NodeKind::PropertyName => spec_property_name(st, n),
        NodeKind::Range => spec_range(c, st, n),
        NodeKind::Row => spec_row(c, st, n),
        NodeKind::SwitchStatement => spec_switch(c, st, n),
        NodeKind::TryStatement => spec_try(c, st, n),
        NodeKind::UnaryOperator => spec_unary(c, st, n),
        NodeKind::WhileStatement => spec_while(c, st, n),
        _ => sp_print(st, n.text@),
    }
}

/// The initial render state: empty output, all cursors at zero.
pub open spec fn init_stv() -> StV {
    StV { out: Seq::<u8>::empty(), col: 0, row: 0, level: 0, extra: 0 }
}

/// The full formatted text of a well-formed tree under a configuration.
pub open spec fn spec_beautify(c: Cfg, root: Node) -> Seq<u8> {
    spec_block(c, init_stv(), root).out
}

} // verus!
