//! The layout guarantees the formatter gives, stated and proved over the
//! rendering specification.
use vstd::prelude::*;
use crate::render_spec::{
    spec_beautify, spec_range, spec_stmt_lead, spec_stmt_term, op_spaced, is_add_op,
    needs_terminator, spec_binary_op_step, spec_boolean_op_step, spec_line_continuation,
    spec_comment, spec_matrix_at, spec_node,
};
use crate::state::{Cfg, StV, sat, sp_align, sp_print, sp_print_b, sp_newline, sp_indent};
use crate::lit::{SEMI, SP, comma_sp_s, semi_sp_s};
use crate::tree::{Node, NodeKind};

verus! {

/// Determinism: the output is a function of the tree and the configuration
/// alone, so two formatting passes over the same input are byte-identical.
pub proof fn lemma_format_deterministic(c: Cfg, root: Node, out1: Seq<u8>, out2: Seq<u8>)
    requires
        out1 == spec_beautify(c, root),
        out2 == spec_beautify(c, root),
    ensures
        out1 == out2,
{
}

/// Range spacing invariant: a numeric range renders the same whatever the
/// `sparse_math` setting, so `1:10` never gains spaces around `:` even when
/// all other operators are spaced.
pub proof fn lemma_range_ignores_operator_spacing(c1: Cfg, c2: Cfg, st: StV, n: Node)
    requires
        c1.sparse_add == c2.sparse_add,
    ensures
        spec_range(c1, st, n) == spec_range(c2, st, n),
{
}

/// Blank-line collapse: a gap of two or more source rows between adjacent
/// statements yields exactly one blank output line (two line breaks); a gap
/// of one row yields a plain line break; statements on one source row that
/// may share a line (two assignments, or a trailing comment) add nothing.
pub proof fn lemma_blank_line_collapse(st: StV, prev: Node, cur: Node)
    ensures
        cur.start_row > prev.end_row + 1 ==> spec_stmt_lead(st, prev, cur) == sp_indent(
            sp_newline(sp_newline(st)),
        ),
        cur.start_row <= prev.end_row + 1 && cur.start_row != prev.end_row ==> spec_stmt_lead(
            st,
            prev,
            cur,
        ) == sp_indent(sp_newline(st)),
        cur.start_row == prev.end_row && ((cur.kind == NodeKind::Assignment && prev.kind
            == NodeKind::Assignment) || cur.kind == NodeKind::Comment) ==> spec_stmt_lead(
            st,
            prev,
            cur,
        ) == st,
{
}

/// Terminator policy: two assignments sharing a source row are joined with
/// `, `; a statement that needs a terminator otherwise gets `;`; a statement
/// that introduces its own block, such as a conditional, gets none.
pub proof fn lemma_terminator_policy(st: StV, cur: Node, next: Option<Node>)
    ensures
        (cur.kind == NodeKind::Assignment && (next matches Some(nx) && nx.kind
            == NodeKind::Assignment && cur.end_row == nx.start_row)) ==> spec_stmt_term(
            st,
            cur,
            next,
        ) == sp_print(st, comma_sp_s()),
        needs_terminator(cur.kind) && next is None ==> spec_stmt_term(st, cur, next) == sp_print_b(
            st,
            SEMI,
        ),
        needs_terminator(cur.kind) && (next matches Some(nx) && !(cur.kind == NodeKind::Assignment
            && nx.kind == NodeKind::Assignment && cur.end_row == nx.start_row)) ==> spec_stmt_term(
            st,
            cur,
            next,
        ) == sp_print_b(st, SEMI),
        cur.kind == NodeKind::IfStatement ==> spec_stmt_term(st, cur, next) == st,
{
}

/// Continuation alignment, first half: the first operator token of a binary,
/// boolean or comparison chain latches the alignment column to the column the
/// operator itself is printed at (relative to the nominal indentation); once
/// latched it is never overwritten within the statement.
pub proof fn lemma_first_operator_latches_alignment(c: Cfg, st: StV, lc: bool, op: Seq<u8>)
    ensures
        st.extra == 0 ==> spec_binary_op_step(c, st, lc, op).extra == (if op_spaced(c, op) && !lc {
            sp_align(sp_print_b(st, SP))
        } else {
            sp_align(st)
        }),
        st.extra == 0 ==> spec_boolean_op_step(st, lc, op).extra == (if !lc {
            sp_align(sp_print_b(st, SP))
        } else {
            sp_align(st)
        }),
        st.extra != 0 ==> spec_binary_op_step(c, st, lc, op).extra == st.extra
            && spec_boolean_op_step(st, lc, op).extra == st.extra,
{
}

/// Continuation alignment, second half: after a line continuation the next
/// token is printed at the nominal indentation plus the latched alignment
/// column, so a broken expression re-aligns under the latched column.
pub proof fn lemma_line_continuation_realigns(st: StV, n: Node)
    ensures
        spec_line_continuation(st, n).col == sat(4 * st.level + st.extra),
        spec_line_continuation(st, n).level == st.level,
        spec_line_continuation(st, n).extra == st.extra,
{
}

/// A comment written on one source line never breaks the output line it is
/// printed on: its rendering leaves the row counter, the level and the
/// alignment untouched.  A pragma comment printed on a header line therefore
/// stays there.
pub proof fn lemma_single_line_comment_stays_inline(st: StV, n: Node)
    requires
        n.start_row == n.end_row,
    ensures
        spec_comment(st, n).row == st.row,
        spec_comment(st, n).level == st.level,
        spec_comment(st, n).extra == st.extra,
{
}

/// Matrix row termination: after the first row of a matrix or cell literal,
/// every further row of a literal that spans several source lines is led in
/// by `;`, a line break and the row alignment; within a single-line literal
/// the rows are joined by `; ` with no line break.
pub proof fn lemma_matrix_row_termination(c: Cfg, st: StV, multiline: bool, n: Node, i: int)
    requires
        0 <= i < n.children@.len(),
        n.children@[i].named,
        n.children@[i].kind != NodeKind::Comment,
    ensures
        spec_matrix_at(c, st, false, multiline, n, i) == spec_matrix_at(
            c,
            spec_node(
                c,
                if multiline {
                    sp_indent(sp_newline(sp_print_b(st, SEMI)))
                } else {
                    sp_print(st, semi_sp_s())
                },
                n.children@[i],
            ),
            false,
            multiline,
            n,
            i + 1,
        ),
{
}

/// Operator spacing modes: no operator is spaced when both toggles are off,
/// every operator is spaced under `sparse_math`, and under `sparse_add` alone
/// exactly the addition and subtraction operators are spaced.
pub proof fn lemma_operator_spacing_modes(t: Seq<u8>)
    ensures
        !op_spaced(Cfg { sparse_math: false, sparse_add: false }, t),
        op_spaced(Cfg { sparse_math: true, sparse_add: false }, t),
        op_spaced(Cfg { sparse_math: false, sparse_add: true }, t) <==> is_add_op(t),
{
}

} // verus!
