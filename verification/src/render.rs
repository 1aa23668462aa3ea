//! The rendering engine: executable counterparts of the `render_spec`
//! functions, each proved to leave the render state exactly as its
//! specification says.
use vstd::prelude::*;
use crate::lit::{
    SP, PERCENT, LPAREN, RPAREN, COMMA, DOT, COLON, SEMI, EQUALS, AT, LBRACKET, RBRACKET, LBRACE,
    RBRACE, end_kw, while_kw, try_kw, catch_kw, switch_kw, case_kw, otherwise_kw, if_kw, elseif_kw,
    else_kw, function_kw, arguments_kw, properties_kw, enumeration_kw, events_kw, methods_kw,
    classdef_kw, comma_sp, semi_sp, sp_eq_sp, sp_lt_sp, sp_amp_sp, sp_lparen, sp_lbrace,
    sp_percent, rparen_sp, block_open, block_close, pragma_mark, section_mark, cvx_begin_kw,
    subject_kw, cvx_end_kw,
};
use crate::state::{State, Cfg, sp_set_extra};
use crate::textops::{
    is_pragma, views_of, bytes_eq, has_prefix, has_suffix, sub_bytes, trim_bytes,
    strip_percent_bytes, split_lines_vec,
};
use crate::tree::{
    Node, NodeKind, Field, node_height, seq_height, named_of, hug_before, hug_after,
    block_stmts_of, nodes_of, is_extra, child_by_field, child_of_kind,
    named_child_of_kind, named_child_at, named_child_not_lc, bracket_child, getset_child,
    kind2_excl_child, lemma_height_child, lemma_height_elem, lemma_block_stmts_height,
    lemma_named_of_height_le, lemma_find_field_range, lemma_find_kind_range,
    lemma_find_named_kind_range, lemma_nth_named_range, lemma_find_named_not_lc_range,
    lemma_find_bracket_range, lemma_find_getset_range,
    lemma_find_kind2_excl_range,
};
use crate::render_spec::{
    op_spaced, needs_terminator, cmd_is_indent, cmd_is_dedent, spec_stmt_lead,
    spec_stmt_term, spec_stmt_step, spec_stmts_at, spec_statements, spec_block, spec_block_in,
    spec_comment, spec_comment_block_lines_at, spec_comment_multi_at, spec_line_continuation,
    spec_linter_at, spec_nlc_at, spec_nlc_after_at, spec_assignment, spec_binary, spec_binary_at,
    spec_boolean, spec_boolean_at, spec_unary, spec_unary_at, spec_parenthesis, spec_range,
    spec_range_at, spec_multioutput, spec_multioutput_at, spec_lambda, spec_lambda_args_at,
    spec_fncall, spec_fncall_head_at, spec_arguments, spec_arguments_at, spec_command,
    spec_command_at, spec_field, spec_field_at, spec_matrix, spec_matrix_at, spec_row, spec_row_at,
    spec_global, spec_global_at, spec_while, spec_try, spec_switch, spec_switch_cases_at, spec_if,
    spec_if_elseif_at, spec_for, spec_for_tail, spec_function, spec_function_header,
    spec_signature, spec_fnargs_at, spec_function_argstmts_at, spec_arguments_statement,
    spec_argstmt_props_at, spec_property, spec_property_name, spec_property_name_at,
    spec_dimensions, spec_dimensions_at, spec_classdef, spec_classdef_sections_at,
    spec_superclasses_at, spec_attributes, spec_attributes_at, spec_attribute, spec_properties,
    spec_properties_props_at, spec_enum, spec_enum_items_at, spec_enum_fields_at, spec_events,
    spec_events_ids_at, spec_method, spec_method_sigs_at, spec_method_defs_at,
};

verus! {

broadcast use
    lemma_height_child,
    lemma_height_elem,
    lemma_block_stmts_height,
    lemma_named_of_height_le,
    lemma_find_field_range,
    lemma_find_kind_range,
    lemma_find_named_kind_range,
    lemma_nth_named_range,
    lemma_find_named_not_lc_range,
    lemma_find_bracket_range,
    lemma_find_getset_range,
    lemma_find_kind2_excl_range;

// ---------------------------------------------------------------------------
// Policy helpers.
// ---------------------------------------------------------------------------

/// Whether a binary operator written `t` gets surrounding spaces under `c`:
/// always under `sparse_math`, for `+ - .+ .-` under `sparse_add`, else never.
pub fn op_spacing(c: Cfg, t: &Vec<u8>) -> (r: bool)
    ensures
        r == op_spaced(c, t@),
{
    if c.sparse_math {
        return true;
    }
    if !c.sparse_add {
        return false;
    }
    let plus: Vec<u8> = vec![43u8];
    let minus: Vec<u8> = vec![45u8];
    let dplus: Vec<u8> = vec![46u8, 43u8];
    let dminus: Vec<u8> = vec![46u8, 45u8];
    proof {
        assert(plus@ =~= seq![43u8]);
        assert(minus@ =~= seq![45u8]);
        assert(dplus@ =~= seq![46u8, 43u8]);
        assert(dminus@ =~= seq![46u8, 45u8]);
    }
    bytes_eq(t, &plus) || bytes_eq(t, &minus) || bytes_eq(t, &dplus) || bytes_eq(t, &dminus)
}

/// Which statement kinds take a `;` terminator: those that do not carry their
/// own block delimiter.
pub fn statement_needs_terminator(k: NodeKind) -> (r: bool)
    ensures
        r == needs_terminator(k),
{
    !(k == NodeKind::ArgumentsStatement || k == NodeKind::ClassDefinition || k == NodeKind::Comment
        || k == NodeKind::ForStatement || k == NodeKind::FunctionDefinition
        || k == NodeKind::IfStatement || k == NodeKind::SwitchStatement
        || k == NodeKind::TryStatement || k == NodeKind::WhileStatement)
}

/// Whether this bareword command opens an embedded indented region.
pub fn command_is_indent(n: &Node) -> (r: bool)
    ensures
        r == cmd_is_indent(*n),
{
    match named_child_at(&n.children, 0) {
        Some(i) => {
            let a = cvx_begin_kw();
            let b = subject_kw();
            bytes_eq(&n.children[i].text, &a) || bytes_eq(&n.children[i].text, &b)
        },
        None => false,
    }
}

/// Whether this bareword command closes one.
pub fn command_is_dedent(n: &Node) -> (r: bool)
    ensures
        r == cmd_is_dedent(*n),
{
    match named_child_at(&n.children, 0) {
        Some(i) => {
            let a = cvx_end_kw();
            bytes_eq(&n.children[i].text, &a)
        },
        None => false,
    }
}

/// Whether a comment is a pragma (linter directive).
pub fn comment_is_pragma(t: &Vec<u8>) -> (r: bool)
    ensures
        r == is_pragma(t@),
{
    let p = pragma_mark();
    has_prefix(t, &p)
}

// ---------------------------------------------------------------------------
// Statement-list collection.
// ---------------------------------------------------------------------------

/// The named children of `v`, as references in order.
pub fn collect_named<'a>(v: &'a Vec<Node>) -> (r: Vec<&'a Node>)
    ensures
        nodes_of(r@) == named_of(v@),
{
    let mut r: Vec<&'a Node> = Vec::new();
    proof {
        assert(v@.skip(0) =~= v@);
        assert(nodes_of(r@) =~= Seq::<Node>::empty());
        assert(nodes_of(r@) + named_of(v@) =~= named_of(v@));
    }
    let mut i: usize = 0;
    while i < v.len()
        invariant
            i <= v@.len(),
            named_of(v@) == nodes_of(r@) + named_of(v@.skip(i as int)),
        decreases v@.len() - i,
    {
        proof {
            assert(v@.skip(i as int)[0] == v@[i as int]);
            assert(v@.skip(i as int).drop_first() =~= v@.skip(i as int + 1));
        }
        if v[i].named {
            let ghost r0 = r@;
            r.push(&v[i]);
            proof {
                assert(nodes_of(r@) =~= nodes_of(r0) + seq![v@[i as int]]);
                assert(nodes_of(r0) + (seq![v@[i as int]] + named_of(v@.skip(i as int + 1))) =~= (
                nodes_of(r0) + seq![v@[i as int]]) + named_of(v@.skip(i as int + 1)));
            }
        }
        i = i + 1;
    }
    proof {
        assert(named_of(v@.skip(i as int)) =~= Seq::<Node>::empty());
        assert(nodes_of(r@) + Seq::<Node>::empty() =~= nodes_of(r@));
    }
    r
}

/// The statements rendered for the block at child position `bi`: hugging
/// comments before it, its named children, hugging comments after it.
pub fn collect_block_stmts<'a>(v: &'a Vec<Node>, bi: usize) -> (r: Vec<&'a Node>)
    requires
        bi < v@.len(),
    ensures
        nodes_of(r@) == block_stmts_of(v@, bi as int),
{
    let mut r: Vec<&'a Node> = Vec::new();
    proof {
        assert(nodes_of(r@) =~= Seq::<Node>::empty());
    }
    // Backward walk: comments hugging the block from before.
    let mut j: usize = bi;
    let mut stop = false;
    while j > 0 && !stop
        invariant
            j <= bi < v@.len(),
            stop ==> hug_before(v@, bi - 1) == nodes_of(r@),
            !stop ==> hug_before(v@, bi - 1) == hug_before(v@, j - 1) + nodes_of(r@),
        decreases j, if stop { 0int } else { 1int },
    {
        let cnd = &v[j - 1];
        if !cnd.named {
            j = j - 1;
        } else if cnd.kind == NodeKind::Comment {
            if comment_is_pragma(&cnd.text) {
                j = j - 1;
            } else {
                let ghost r0 = r@;
                r.insert(0, cnd);
                proof {
                    assert(nodes_of(r@) =~= seq![v@[j - 1]] + nodes_of(r0));
                    assert(hug_before(v@, j - 1) == hug_before(v@, j - 2).push(v@[j - 1]));
                    assert(hug_before(v@, j - 2).push(v@[j - 1]) + nodes_of(r0) =~= hug_before(
                        v@,
                        j - 2,
                    ) + (seq![v@[j - 1]] + nodes_of(r0)));
                }
                j = j - 1;
            }
        } else {
            proof {
                assert(hug_before(v@, j - 1) =~= Seq::<Node>::empty());
                assert(Seq::<Node>::empty() + nodes_of(r@) =~= nodes_of(r@));
            }
            stop = true;
        }
    }
    proof {
        if !stop {
            assert(hug_before(v@, -1) =~= Seq::<Node>::empty());
            assert(Seq::<Node>::empty() + nodes_of(r@) =~= nodes_of(r@));
        }
        assert(hug_before(v@, bi - 1) == nodes_of(r@));
    }
    // The block's own named children.
    let ghost hb = nodes_of(r@);
    let b = &v[bi];
    proof {
        assert(b.children@.skip(0) =~= b.children@);
        assert(hb + Seq::<Node>::empty() =~= hb);
    }
    let mut i: usize = 0;
    while i < b.children.len()
        invariant
            i <= b.children@.len(),
            *b == v@[bi as int],
            hb == hug_before(v@, bi as int - 1),
            hb + named_of(b.children@) == nodes_of(r@) + named_of(b.children@.skip(i as int)),
        decreases b.children@.len() - i,
    {
        proof {
            assert(b.children@.skip(i as int)[0] == b.children@[i as int]);
            assert(b.children@.skip(i as int).drop_first() =~= b.children@.skip(i as int + 1));
        }
        if b.children[i].named {
            let ghost r0 = r@;
            r.push(&b.children[i]);
            proof {
                assert(nodes_of(r@) =~= nodes_of(r0) + seq![b.children@[i as int]]);
                assert(nodes_of(r0) + (seq![b.children@[i as int]] + named_of(
                    b.children@.skip(i as int + 1),
                )) =~= (nodes_of(r0) + seq![b.children@[i as int]]) + named_of(
                    b.children@.skip(i as int + 1),
                ));
            }
        }
        i = i + 1;
    }
    proof {
        assert(named_of(b.children@.skip(i as int)) =~= Seq::<Node>::empty());
        assert(nodes_of(r@) + Seq::<Node>::empty() =~= nodes_of(r@));
        assert(nodes_of(r@) == hb + named_of(v@[bi as int].children@));
    }
    // Forward walk: comments hugging the block from after.
    let ghost mid = nodes_of(r@);
    let vlen = v.len();
    let mut k: usize = bi + 1;
    let mut stop2 = false;
    while k < v.len() && !stop2
        invariant
            bi < k <= v@.len(),
            mid == hug_before(v@, bi as int - 1) + named_of(v@[bi as int].children@),
            stop2 ==> mid + hug_after(v@, bi as int + 1) == nodes_of(r@),
            !stop2 ==> mid + hug_after(v@, bi as int + 1) == nodes_of(r@) + hug_after(
                v@,
                k as int,
            ),
        decreases v@.len() - k, if stop2 { 0int } else { 1int },
    {
        let cnd = &v[k];
        if !cnd.named {
            k = k + 1;
        } else if cnd.kind == NodeKind::Comment {
            let ghost r0 = r@;
            r.push(cnd);
            proof {
                assert(nodes_of(r@) =~= nodes_of(r0) + seq![v@[k as int]]);
                assert(hug_after(v@, k as int) == seq![v@[k as int]] + hug_after(v@, k + 1));
                assert(nodes_of(r0) + (seq![v@[k as int]] + hug_after(v@, k + 1)) =~= (nodes_of(r0)
                    + seq![v@[k as int]]) + hug_after(v@, k + 1));
            }
            k = k + 1;
        } else {
            proof {
                assert(hug_after(v@, k as int) =~= Seq::<Node>::empty());
                assert(nodes_of(r@) + Seq::<Node>::empty() =~= nodes_of(r@));
            }
            stop2 = true;
        }
    }
    proof {
        if !stop2 {
            assert(hug_after(v@, k as int) =~= Seq::<Node>::empty());
            assert(nodes_of(r@) + Seq::<Node>::empty() =~= nodes_of(r@));
        }
        assert(nodes_of(r@) =~= block_stmts_of(v@, bi as int));
    }
    r
}

// ---------------------------------------------------------------------------
// Comments and line continuations.
// ---------------------------------------------------------------------------

/// Renders a comment: a delimited block comment re-flowed two columns deeper,
/// a multi-line run re-emitted one marker per line, or a single-line comment
/// kept in place.
pub fn format_comment(state: &mut State, n: &Node)
    ensures
        final(state)@ == spec_comment(old(state)@, *n),
{
    if n.start_row != n.end_row {
        let bo = block_open();
        if has_prefix(&n.text, &bo) {
            let afterp = sub_bytes(&n.text, 2, n.text.len());
            proof {
                assert(afterp@ =~= n.text@.skip(2));
            }
            let bc = block_close();
            let inner = if has_suffix(&afterp, &bc) {
                let w = sub_bytes(&afterp, 0, afterp.len() - 2);
                proof {
                    assert(w@ =~= afterp@.take(afterp@.len() - 2));
                }
                w
            } else {
                let w = sub_bytes(&afterp, 0, afterp.len());
                proof {
                    assert(w@ =~= afterp@);
                }
                w
            };
            state.println(&bo);
            state.set_extra(2);
            let lines = split_lines_vec(&inner);
            let ghost target = spec_comment_block_lines_at(state@, views_of(lines@), 0);
            let mut i: usize = 0;
            while i < lines.len()
                invariant
                    i <= lines@.len(),
                    spec_comment_block_lines_at(state@, views_of(lines@), i as int) == target,
                decreases lines@.len() - i,
            {
                proof {
                    assert(views_of(lines@)[i as int] == lines@[i as int]@);
                }
                let t = trim_bytes(&lines[i]);
                if t.len() > 0 {
                    state.indent();
                    state.println(&t);
                }
                i = i + 1;
            }
            state.set_extra(0);
            state.indent();
            state.print(&bc);
        } else {
            let lines = split_lines_vec(&n.text);
            let ghost target = spec_comment_multi_at(state@, views_of(lines@), 0);
            let mut i: usize = 0;
            while i < lines.len()
                invariant
                    i <= lines@.len(),
                    spec_comment_multi_at(state@, views_of(lines@), i as int) == target,
                decreases lines@.len() - i,
            {
                proof {
                    assert(views_of(lines@)[i as int] == lines@[i as int]@);
                }
                let t0 = trim_bytes(&lines[i]);
                let t1 = strip_percent_bytes(&t0);
                let t = trim_bytes(&t1);
                if i != 0 {
                    state.newline();
                    state.indent();
                }
                state.print_b(PERCENT);
                if t.len() > 0 {
                    state.print_b(SP);
                }
                state.print(&t);
                i = i + 1;
            }
        }
    } else {
        let t0 = strip_percent_bytes(&n.text);
        let line = trim_bytes(&t0);
        let pm = pragma_mark();
        let sm = section_mark();
        let special = has_prefix(&n.text, &pm) || has_prefix(&n.text, &sm);
        let at_indent = {
            let four: usize = match state.level.checked_mul(4) {
                Some(x) => x,
                None => usize::MAX,
            };
            state.col == four
        };
        if at_indent {
            state.print_b(PERCENT);
            if !special && line.len() > 0 {
                state.print_b(SP);
            }
        } else {
            let sl = sp_percent();
            state.print(&sl);
            if !special && line.len() > 0 {
                state.print_b(SP);
            }
        }
        state.print(&line);
    }
}

/// Renders a line continuation marker and re-indents the next line.
pub fn format_line_continuation(state: &mut State, n: &Node)
    ensures
        final(state)@ == spec_line_continuation(old(state)@, *n),
{
    state.print_b(SP);
    state.print(&n.text);
    if n.start_row == n.end_row {
        state.newline();
    } else {
        state.break_only();
    }
    state.indent();
}

/// Prints the pragma comments among the named children, in place.
pub fn print_linter_comment(state: &mut State, n: &Node)
    ensures
        final(state)@ == spec_linter_at(old(state)@, *n, 0),
{
    let ghost target = spec_linter_at(state@, *n, 0);
    let mut j: usize = 0;
    while j < n.children.len()
        invariant
            j <= n.children@.len(),
            spec_linter_at(state@, *n, j as int) == target,
        decreases n.children@.len() - j,
    {
        let ch = &n.children[j];
        if ch.named && ch.kind == NodeKind::Comment && comment_is_pragma(&ch.text) {
            format_comment(state, ch);
        }
        j = j + 1;
    }
}

/// Prints the non-pragma comments among the named children, one per line.
pub fn print_non_linter_comments(state: &mut State, n: &Node)
    ensures
        final(state)@ == spec_nlc_at(old(state)@, *n, 0),
{
    let ghost target = spec_nlc_at(state@, *n, 0);
    let mut j: usize = 0;
    while j < n.children.len()
        invariant
            j <= n.children@.len(),
            spec_nlc_at(state@, *n, j as int) == target,
        decreases n.children@.len() - j,
    {
        let ch = &n.children[j];
        if ch.named && ch.kind == NodeKind::Comment && !comment_is_pragma(&ch.text) {
            state.indent();
            format_comment(state, ch);
            state.newline();
        }
        j = j + 1;
    }
}

/// Prints the run of non-pragma comment siblings that follows child `j0`.
pub fn print_non_linter_comments_after(state: &mut State, n: &Node, j0: usize)
    ensures
        final(state)@ == spec_nlc_after_at(old(state)@, *n, j0 as int),
{
    let ghost target = spec_nlc_after_at(state@, *n, j0 as int);
    let mut j: usize = j0;
    let mut stop = false;
    while j < n.children.len() && !stop
        invariant
            j0 <= j <= n.children@.len() || j == j0,
            stop ==> state@ == target,
            !stop ==> spec_nlc_after_at(state@, *n, j as int) == target,
        decreases n.children@.len() - j, if stop { 0int } else { 1int },
    {
        let ch = &n.children[j];
        if !ch.named {
            j = j + 1;
        } else if ch.kind == NodeKind::Comment && !comment_is_pragma(&ch.text) {
            state.indent();
            format_comment(state, ch);
            state.newline();
            j = j + 1;
        } else {
            stop = true;
        }
    }
}

/// Emits a global or persistent declaration verbatim, space-joined.
pub fn format_global(state: &mut State, n: &Node)
    ensures
        final(state)@ == spec_global(old(state)@, *n),
{
    let ghost target = spec_global_at(state@, 0, *n, 0);
    let mut k: usize = 0;
    let mut i: usize = 0;
    while i < n.children.len()
        invariant
            i <= n.children@.len(),
            spec_global_at(state@, k as int, *n, i as int) == target,
            k <= i,
        decreases n.children@.len() - i,
    {
        let ch = &n.children[i];
        if !(ch.kind == NodeKind::LineContinuation) {
            if k > 0 {
                state.print_b(SP);
            }
            state.print(&ch.text);
            k = k + 1;
        }
        i = i + 1;
    }
}

/// Emits a dotted property name verbatim.
pub fn format_property_name(state: &mut State, n: &Node)
    ensures
        final(state)@ == spec_property_name(old(state)@, *n),
{
    let ghost target = spec_property_name_at(state@, *n, 0);
    let mut i: usize = 0;
    while i < n.children.len()
        invariant
            i <= n.children@.len(),
            spec_property_name_at(state@, *n, i as int) == target,
        decreases n.children@.len() - i,
    {
        state.print(&n.children[i].text);
        i = i + 1;
    }
}

// ---------------------------------------------------------------------------
// The statement sequence.
// ---------------------------------------------------------------------------

/// Renders an ordered statement list with blank-line, same-line and
/// terminator policy, one indentation unit already entered by the caller.
pub fn format_statements(state: &mut State, c: Cfg, stmts: &Vec<&Node>)
    ensures
        final(state)@ == spec_statements(c, old(state)@, nodes_of(stmts@)),
    decreases seq_height(nodes_of(stmts@)), 5nat, 0nat,
{
    let ghost ns = nodes_of(stmts@);
    let base = state.level;
    state.set_extra(0);
    state.indent();
    let ghost target = spec_stmts_at(c, state@, ns, base as int, 0);
    let mut i: usize = 0;
    while i < stmts.len()
        invariant
            i <= stmts@.len(),
            ns == nodes_of(stmts@),
            spec_stmts_at(c, state@, ns, base as int, i as int) == target,
        decreases stmts@.len() - i,
    {
        let ch: &Node = stmts[i];
        let ghost st_in = state@;
        proof {
            assert(*ch == ns[i as int]);
            assert(node_height(ns[i as int]) <= seq_height(ns));
        }
        if ch.kind == NodeKind::Command && command_is_dedent(ch) {
            state.set_level(base);
        }
        proof {
            assert(state@ == (if ns[i as int].kind == NodeKind::Command && cmd_is_dedent(
                ns[i as int],
            ) {
                crate::state::sp_set_level(st_in, base as int)
            } else {
                st_in
            }));
        }
        let ghost st0 = state@;
        if i > 0 {
            let prev: &Node = stmts[i - 1];
            proof {
                assert(*prev == ns[i - 1]);
            }
            if ch.start_row > prev.end_row && ch.start_row - prev.end_row > 1 {
                state.newline();
            }
            if (!(ch.kind == NodeKind::Assignment && prev.kind == NodeKind::Assignment)
                && !(ch.kind == NodeKind::Comment)) || ch.start_row != prev.end_row {
                state.newline();
                state.indent();
            }
            proof {
                assert(state@ == spec_stmt_lead(st0, ns[i - 1], ns[i as int]));
            }
        }
        let ghost st1 = state@;
        format_node(state, c, ch);
        state.set_extra(0);
        proof {
            assert(state@ == sp_set_extra(
                crate::render_spec::spec_node(c, st1, ns[i as int]),
                0,
            ));
        }
        if ch.kind == NodeKind::Command && command_is_indent(ch) {
            state.inc_level();
        }
        let ghost st3 = state@;
        if statement_needs_terminator(ch.kind) {
            if i + 1 < stmts.len() {
                let nx: &Node = stmts[i + 1];
                proof {
                    assert(*nx == ns[i + 1]);
                }
                if ch.kind == NodeKind::Assignment && nx.kind == NodeKind::Assignment && ch.end_row
                    == nx.start_row {
                    let t = comma_sp();
                    state.print(&t);
                } else {
                    state.print_b(SEMI);
                }
            } else {
                state.print_b(SEMI);
            }
        }
        proof {
            assert(state@ == spec_stmt_term(
                st3,
                ns[i as int],
                if i + 1 < ns.len() {
                    Some(ns[i + 1])
                } else {
                    None
                },
            ));
            assert(state@ == spec_stmt_step(c, st_in, ns, base as int, i as int));
        }
        i = i + 1;
    }
    state.set_extra(0);
    state.set_level(base);
    state.newline();
}

/// A block reached through dispatch renders its named children.
pub fn format_block(state: &mut State, c: Cfg, n: &Node)
    ensures
        final(state)@ == spec_block(c, old(state)@, *n),
    decreases node_height(*n), 1nat, 0nat,
{
    let stmts = collect_named(&n.children);
    format_statements(state, c, &stmts);
}

/// Renders the block at child position `bi` of `parent`, with the comment
/// siblings that hug it.
pub fn format_block_in(state: &mut State, c: Cfg, parent: &Node, bi: usize)
    ensures
        final(state)@ == spec_block_in(c, old(state)@, *parent, bi as int),
    decreases node_height(*parent), 0nat, 0nat,
{
    if bi < parent.children.len() {
        let stmts = collect_block_stmts(&parent.children, bi);
        format_statements(state, c, &stmts);
    }
}

/// Emits a dimensions annotation: `(`, comma-joined sizes verbatim, `)`.
pub fn format_dimensions(state: &mut State, n: &Node)
    ensures
        final(state)@ == spec_dimensions(old(state)@, *n),
{
    state.print_b(LPAREN);
    let ghost target = spec_dimensions_at(state@, 0, *n, 0);
    let mut k: usize = 0;
    let mut i: usize = 0;
    while i < n.children.len()
        invariant
            i <= n.children@.len(),
            spec_dimensions_at(state@, k as int, *n, i as int) == target,
            k <= i,
        decreases n.children@.len() - i,
    {
        let ch = &n.children[i];
        if ch.named {
            if k > 0 {
                state.print_b(COMMA);
            }
            state.print(&ch.text);
            k = k + 1;
        }
        i = i + 1;
    }
    state.print_b(RPAREN);
}

// ---------------------------------------------------------------------------
// Expressions.
// ---------------------------------------------------------------------------

/// Renders an assignment: left side, ` = `, right side; the alignment latch
/// does not leak past it.
pub fn format_assignment(state: &mut State, c: Cfg, n: &Node)
    ensures
        final(state)@ == spec_assignment(c, old(state)@, *n),
    decreases node_height(*n), 1nat, 0nat,
{
    let li = child_by_field(&n.children, Field::Left);
    let ri = child_by_field(&n.children, Field::Right);
    match (li, ri) {
        (Some(l), Some(r)) => {
            format_node(state, c, &n.children[l]);
            let t = sp_eq_sp();
            state.print(&t);
            format_node(state, c, &n.children[r]);
            state.set_extra(0);
        },
        _ => {},
    }
}

/// Renders a binary operator chain, spacing operators according to the
/// configuration and latching the first operator's column for continuation
/// alignment.
pub fn format_binary(state: &mut State, c: Cfg, n: &Node)
    ensures
        final(state)@ == spec_binary(c, old(state)@, *n),
    decreases node_height(*n), 1nat, 0nat,
{
    let ghost target = spec_binary_at(c, state@, false, *n, 0);
    let mut lc = false;
    let mut i: usize = 0;
    while i < n.children.len()
        invariant
            i <= n.children@.len(),
            spec_binary_at(c, state@, lc, *n, i as int) == target,
        decreases n.children@.len() - i,
    {
        let ch = &n.children[i];
        if ch.named {
            lc = ch.kind == NodeKind::LineContinuation;
            format_node(state, c, ch);
        } else {
            let op = trim_bytes(&ch.text);
            if op_spacing(c, &op) {
                if !lc {
                    state.print_b(SP);
                }
                let a2 = state.align();
                state.maybe_set_extra_indentation(a2);
                state.print(&op);
                state.print_b(SP);
            } else {
                let a2 = state.align();
                state.maybe_set_extra_indentation(a2);
                state.print(&op);
            }
        }
        i = i + 1;
    }
}

/// Renders a boolean or comparison operator chain, always spaced.
pub fn format_boolean(state: &mut State, c: Cfg, n: &Node)
    ensures
        final(state)@ == spec_boolean(c, old(state)@, *n),
    decreases node_height(*n), 1nat, 0nat,
{
    let ghost target = spec_boolean_at(c, state@, false, *n, 0);
    let mut lc = false;
    let mut i: usize = 0;
    while i < n.children.len()
        invariant
            i <= n.children@.len(),
            spec_boolean_at(c, state@, lc, *n, i as int) == target,
        decreases n.children@.len() - i,
    {
        let ch = &n.children[i];
        if ch.named {
            lc = ch.kind == NodeKind::LineContinuation;
            format_node(state, c, ch);
        } else {
            let op = trim_bytes(&ch.text);
            if !lc {
                state.print_b(SP);
            }
            let a2 = state.align();
            state.maybe_set_extra_indentation(a2);
            state.print(&op);
            state.print_b(SP);
        }
        i = i + 1;
    }
}

/// Renders a unary-style operator: children in order, continuations dropped.
pub fn format_unary(state: &mut State, c: Cfg, n: &Node)
    ensures
        final(state)@ == spec_unary(c, old(state)@, *n),
    decreases node_height(*n), 1nat, 0nat,
{
    let ghost target = spec_unary_at(c, state@, *n, 0);
    let mut i: usize = 0;
    while i < n.children.len()
        invariant
            i <= n.children@.len(),
            spec_unary_at(c, state@, *n, i as int) == target,
        decreases n.children@.len() - i,
    {
        let ch = &n.children[i];
        if !(ch.kind == NodeKind::LineContinuation) {
            format_node(state, c, ch);
        }
        i = i + 1;
    }
}

/// Renders a parenthesized expression around its single meaningful child.
pub fn format_parenthesis(state: &mut State, c: Cfg, n: &Node)
    ensures
        final(state)@ == spec_parenthesis(c, old(state)@, *n),
    decreases node_height(*n), 1nat, 0nat,
{
    match named_child_not_lc(&n.children) {
        Some(ci) => {
            state.print_b(LPAREN);
            let al = state.align();
            state.maybe_set_extra_indentation(al);
            format_node(state, c, &n.children[ci]);
            state.print_b(RPAREN);
        },
        None => {},
    }
}

/// Renders a numeric range, `:`-joined with no surrounding spaces; operator
/// spacing is disabled within.
pub fn format_range(state: &mut State, c: Cfg, n: &Node)
    ensures
        final(state)@ == spec_range(c, old(state)@, *n),
    decreases node_height(*n), 1nat, 0nat,
{
    let c2 = Cfg { sparse_math: false, sparse_add: c.sparse_add };
    let ghost target = spec_range_at(c2, state@, 0, *n, 0);
    let mut k: usize = 0;
    let mut i: usize = 0;
    while i < n.children.len()
        invariant
            i <= n.children@.len(),
            spec_range_at(c2, state@, k as int, *n, i as int) == target,
            k <= i,
        decreases n.children@.len() - i,
    {
        let ch = &n.children[i];
        if ch.named && !(ch.kind == NodeKind::LineContinuation) {
            if k > 0 {
                state.print_b(COLON);
            }
            format_node(state, c2, ch);
            k = k + 1;
        }
        i = i + 1;
    }
}

/// Renders a multi-output assignment target: `[`, comma-joined, `]`.
pub fn format_multioutput(state: &mut State, c: Cfg, n: &Node)
    ensures
        final(state)@ == spec_multioutput(c, old(state)@, *n),
    decreases node_height(*n), 1nat, 0nat,
{
    state.print_b(LBRACKET);
    let ghost target = spec_multioutput_at(c, state@, 0, *n, 0);
    let mut k: usize = 0;
    let mut i: usize = 0;
    while i < n.children.len()
        invariant
            i <= n.children@.len(),
            spec_multioutput_at(c, state@, k as int, *n, i as int) == target,
            k <= i,
        decreases n.children@.len() - i,
    {
        let ch = &n.children[i];
        if ch.named && !(ch.kind == NodeKind::LineContinuation) {
            if k > 0 {
                let t = comma_sp();
                state.print(&t);
            }
            format_node(state, c, ch);
            k = k + 1;
        }
        i = i + 1;
    }
    state.print_b(RBRACKET);
}

/// Renders an anonymous function: `@(`, parameter names, `) `, body.
pub fn format_lambda(state: &mut State, c: Cfg, n: &Node)
    ensures
        final(state)@ == spec_lambda(c, old(state)@, *n),
    decreases node_height(*n), 1nat, 0nat,
{
    match child_by_field(&n.children, Field::Expression) {
        Some(ei) => {
            state.print_b(AT);
            state.print_b(LPAREN);
            match child_of_kind(&n.children, NodeKind::Arguments) {
                Some(ai) => {
                    let args = &n.children[ai];
                    let ghost target = spec_lambda_args_at(state@, *args, 0, 0);
                    let mut k: usize = 0;
                    let mut j: usize = 0;
                    while j < args.children.len()
                        invariant
                            j <= args.children@.len(),
                            spec_lambda_args_at(state@, *args, k as int, j as int) == target,
                            k <= j,
                        decreases args.children@.len() - j,
                    {
                        let ch = &args.children[j];
                        if ch.named && !(ch.kind == NodeKind::LineContinuation) {
                            if k > 0 {
                                let t = comma_sp();
                                state.print(&t);
                            }
                            state.print(&ch.text);
                            k = k + 1;
                        }
                        j = j + 1;
                    }
                },
                None => {},
            }
            let t = rparen_sp();
            state.print(&t);
            format_node(state, c, &n.children[ei]);
        },
        None => {},
    }
}

/// Renders a call or indexing expression: callee, opening bracket, aligned
/// argument list, closing bracket; the previous alignment is restored.
pub fn format_fncall(state: &mut State, c: Cfg, n: &Node)
    ensures
        final(state)@ == spec_fncall(c, old(state)@, *n),
    decreases node_height(*n), 1nat, 0nat,
{
    let bp = bracket_child(&n.children);
    let limit: usize = match bp {
        Some(b) => b,
        None => n.children.len(),
    };
    let parens: bool = match bp {
        Some(b) => {
            let lp: Vec<u8> = vec![40u8];
            proof {
                assert(lp@ =~= seq![40u8]);
            }
            bytes_eq(&n.children[b].text, &lp)
        },
        None => true,
    };
    let ghost target = spec_fncall_head_at(c, state@, *n, 0, limit as int);
    let mut i: usize = 0;
    while i < limit
        invariant
            i <= limit <= n.children@.len(),
            spec_fncall_head_at(c, state@, *n, i as int, limit as int) == target,
        decreases limit - i,
    {
        let ch = &n.children[i];
        if !(ch.kind == NodeKind::LineContinuation) {
            format_node(state, c, ch);
        }
        i = i + 1;
    }
    if parens {
        state.print_b(LPAREN);
    } else {
        state.print_b(LBRACE);
    }
    let prev_extra = state.extra;
    let al = state.align();
    state.set_extra(al);
    match child_of_kind(&n.children, NodeKind::Arguments) {
        Some(ai) => format_arguments(state, c, &n.children[ai]),
        None => {},
    }
    if parens {
        state.print_b(RPAREN);
    } else {
        state.print_b(RBRACE);
    }
    state.set_extra(prev_extra);
}

/// Renders an argument list: named children joined by `, `, except directly
/// after a line continuation.
pub fn format_arguments(state: &mut State, c: Cfg, n: &Node)
    ensures
        final(state)@ == spec_arguments(c, old(state)@, *n),
    decreases node_height(*n), 1nat, 0nat,
{
    let ghost target = spec_arguments_at(c, state@, 0, false, *n, 0);
    let mut k: usize = 0;
    let mut prev_lc = false;
    let mut i: usize = 0;
    while i < n.children.len()
        invariant
            i <= n.children@.len(),
            spec_arguments_at(c, state@, k as int, prev_lc, *n, i as int) == target,
            k <= i,
        decreases n.children@.len() - i,
    {
        let ch = &n.children[i];
        if ch.named {
            if k > 0 && !prev_lc {
                let t = comma_sp();
                state.print(&t);
            }
            format_node(state, c, ch);
            prev_lc = ch.kind == NodeKind::LineContinuation;
            k = k + 1;
        }
        i = i + 1;
    }
}

/// Renders a command-style invocation: space-joined children, aligned after
/// the command name.
pub fn format_command(state: &mut State, c: Cfg, n: &Node)
    ensures
        final(state)@ == spec_command(c, old(state)@, *n),
    decreases node_height(*n), 1nat, 0nat,
{
    let ghost target = spec_command_at(c, state@, *n, 0);
    let mut i: usize = 0;
    while i < n.children.len()
        invariant
            i <= n.children@.len(),
            spec_command_at(c, state@, *n, i as int) == target,
        decreases n.children@.len() - i,
    {
        let ch = &n.children[i];
        if i > 0 {
            state.print_b(SP);
        }
        format_node(state, c, ch);
        if ch.kind == NodeKind::CommandName {
            let al = state.align();
            state.set_extra(al);
        }
        i = i + 1;
    }
    state.set_extra(0);
}

/// Renders a field access, dot-joined, extras skipped.
pub fn format_field(state: &mut State, c: Cfg, n: &Node)
    ensures
        final(state)@ == spec_field(c, old(state)@, *n),
    decreases node_height(*n), 1nat, 0nat,
{
    let ghost target = spec_field_at(c, state@, 0, *n, 0);
    let mut k: usize = 0;
    let mut i: usize = 0;
    while i < n.children.len()
        invariant
            i <= n.children@.len(),
            spec_field_at(c, state@, k as int, *n, i as int) == target,
            k <= i,
        decreases n.children@.len() - i,
    {
        let ch = &n.children[i];
        if ch.named && !is_extra(ch.kind) {
            if k > 0 {
                state.print_b(DOT);
            }
            format_node(state, c, ch);
            k = k + 1;
        }
        i = i + 1;
    }
}

/// Renders a matrix or cell literal with its row-termination policy.
pub fn format_matrix(state: &mut State, c: Cfg, n: &Node)
    ensures
        final(state)@ == spec_matrix(c, old(state)@, *n),
    decreases node_height(*n), 1nat, 0nat,
{
    let matrix = n.kind == NodeKind::Matrix;
    let multiline = n.start_row != n.end_row;
    if matrix {
        state.print_b(LBRACKET);
    } else {
        state.print_b(LBRACE);
    }
    let prev_extra = state.extra;
    let al = state.align();
    state.set_extra(al);
    let ghost target = spec_matrix_at(c, state@, true, multiline, *n, 0);
    let mut first = true;
    let mut i: usize = 0;
    while i < n.children.len()
        invariant
            i <= n.children@.len(),
            spec_matrix_at(c, state@, first, multiline, *n, i as int) == target,
        decreases n.children@.len() - i,
    {
        let ch = &n.children[i];
        if ch.named {
            if ch.kind == NodeKind::Comment {
                if !first {
                    state.print_b(SEMI);
                }
                format_comment(state, ch);
                state.newline();
                state.indent();
                first = true;
            } else {
                if !first {
                    if multiline {
                        state.print_b(SEMI);
                        state.newline();
                        state.indent();
                    } else {
                        let t = semi_sp();
                        state.print(&t);
                    }
                }
                format_node(state, c, ch);
                if !is_extra(ch.kind) {
                    first = false;
                }
            }
        }
        i = i + 1;
    }
    if matrix {
        state.print_b(RBRACKET);
    } else {
        state.print_b(RBRACE);
    }
    state.set_extra(prev_extra);
}

/// Renders one row of a matrix or cell, space-joined.
pub fn format_row(state: &mut State, c: Cfg, n: &Node)
    ensures
        final(state)@ == spec_row(c, old(state)@, *n),
    decreases node_height(*n), 1nat, 0nat,
{
    let ghost target = spec_row_at(c, state@, true, *n, 0);
    let mut first = true;
    let mut i: usize = 0;
    while i < n.children.len()
        invariant
            i <= n.children@.len(),
            spec_row_at(c, state@, first, *n, i as int) == target,
        decreases n.children@.len() - i,
    {
        let ch = &n.children[i];
        if ch.named {
            if !first && !is_extra(ch.kind) {
                state.print_b(SP);
            }
            format_node(state, c, ch);
            first = is_extra(ch.kind);
        }
        i = i + 1;
    }
}

// ---------------------------------------------------------------------------
// Control flow and definitions.
// ---------------------------------------------------------------------------

/// Renders a while loop.
pub fn format_while(state: &mut State, c: Cfg, n: &Node)
    ensures
        final(state)@ == spec_while(c, old(state)@, *n),
    decreases node_height(*n), 1nat, 0nat,
{
    match child_by_field(&n.children, Field::Condition) {
        Some(ci) => {
            let t = while_kw();
            state.print(&t);
            format_node(state, c, &n.children[ci]);
            print_linter_comment(state, n);
            state.newline();
            state.inc_level();
            match child_of_kind(&n.children, NodeKind::Block) {
                Some(bi) => format_block_in(state, c, n, bi),
                None => print_non_linter_comments(state, n),
            }
            state.dec_level();
            state.indent();
            let e = end_kw();
            state.print(&e);
        },
        None => {},
    }
}

/// Renders a try/catch.
pub fn format_try(state: &mut State, c: Cfg, n: &Node)
    ensures
        final(state)@ == spec_try(c, old(state)@, *n),
    decreases node_height(*n), 1nat, 0nat,
{
    match child_of_kind(&n.children, NodeKind::CatchClause) {
        Some(cti) => {
            let t = try_kw();
            state.println(&t);
            state.inc_level();
            match child_of_kind(&n.children, NodeKind::Block) {
                Some(bi) => format_block_in(state, c, n, bi),
                None => print_non_linter_comments(state, n),
            }
            state.dec_level();
            state.indent();
            let ck = catch_kw();
            state.print(&ck);
            let catch = &n.children[cti];
            match child_of_kind(&catch.children, NodeKind::Identifier) {
                Some(cpi) => {
                    state.print_b(SP);
                    state.print(&catch.children[cpi].text);
                },
                None => {},
            }
            print_linter_comment(state, catch);
            state.newline();
            state.inc_level();
            match child_of_kind(&catch.children, NodeKind::Block) {
                Some(cbi) => format_block_in(state, c, catch, cbi),
                None => print_non_linter_comments(state, catch),
            }
            state.dec_level();
            state.indent();
            let e = end_kw();
            state.print(&e);
        },
        None => {},
    }
}

/// Renders a switch with its cases and optional otherwise clause.
pub fn format_switch(state: &mut State, c: Cfg, n: &Node)
    ensures
        final(state)@ == spec_switch(c, old(state)@, *n),
    decreases node_height(*n), 1nat, 0nat,
{
    match child_by_field(&n.children, Field::Condition) {
        Some(ci) => {
            let t = switch_kw();
            state.print(&t);
            format_node(state, c, &n.children[ci]);
            print_linter_comment(state, n);
            state.newline();
            state.inc_level();
            let ghost target = spec_switch_cases_at(c, state@, *n, 0);
            let mut i: usize = 0;
            while i < n.children.len()
                invariant
                    i <= n.children@.len(),
                    spec_switch_cases_at(c, state@, *n, i as int) == target,
                decreases n.children@.len() - i,
            {
                let case = &n.children[i];
                if case.named && case.kind == NodeKind::CaseClause {
                    match child_by_field(&case.children, Field::Condition) {
                        Some(cci) => {
                            state.indent();
                            let ckw = case_kw();
                            state.print(&ckw);
                            format_node(state, c, &case.children[cci]);
                            print_linter_comment(state, case);
                            state.newline();
                            state.inc_level();
                            match child_of_kind(&case.children, NodeKind::Block) {
                                Some(cbi) => format_block_in(state, c, case, cbi),
                                None => print_non_linter_comments(state, case),
                            }
                            state.dec_level();
                        },
                        None => {},
                    }
                }
                i = i + 1;
            }
            match named_child_of_kind(&n.children, NodeKind::OtherwiseClause) {
                Some(oi) => {
                    let ow = &n.children[oi];
                    state.indent();
                    let okw = otherwise_kw();
                    state.println(&okw);
                    state.inc_level();
                    match child_of_kind(&ow.children, NodeKind::Block) {
                        Some(obi) => format_block_in(state, c, ow, obi),
                        None => print_non_linter_comments(state, ow),
                    }
                    state.dec_level();
                },
                None => {},
            }
            state.dec_level();
            state.indent();
            let e = end_kw();
            state.print(&e);
        },
        None => {},
    }
}

/// Renders a conditional with its elseif and else clauses.
pub fn format_if(state: &mut State, c: Cfg, n: &Node)
    ensures
        final(state)@ == spec_if(c, old(state)@, *n),
    decreases node_height(*n), 1nat, 0nat,
{
    match child_by_field(&n.children, Field::Condition) {
        Some(ci) => {
            let t = if_kw();
            state.print(&t);
            format_node(state, c, &n.children[ci]);
            print_linter_comment(state, n);
            state.newline();
            state.inc_level();
            match child_of_kind(&n.children, NodeKind::Block) {
                Some(bi) => format_block_in(state, c, n, bi),
                None => print_non_linter_comments(state, n),
            }
            state.dec_level();
            let ghost target = spec_if_elseif_at(c, state@, *n, 0);
            let mut i: usize = 0;
            while i < n.children.len()
                invariant
                    i <= n.children@.len(),
                    spec_if_elseif_at(c, state@, *n, i as int) == target,
                decreases n.children@.len() - i,
            {
                let clause = &n.children[i];
                if clause.named && clause.kind == NodeKind::ElseifClause {
                    match child_by_field(&clause.children, Field::Condition) {
                        Some(cci) => {
                            state.indent();
                            let ekw = elseif_kw();
                            state.print(&ekw);
                            format_node(state, c, &clause.children[cci]);
                            print_linter_comment(state, clause);
                            state.newline();
                            state.inc_level();
                            state.set_extra(0);
                            match child_of_kind(&clause.children, NodeKind::Block) {
                                Some(cbi) => format_block_in(state, c, clause, cbi),
                                None => print_non_linter_comments_after(state, n, i + 1),
                            }
                            state.dec_level();
                        },
                        None => {},
                    }
                }
                i = i + 1;
            }
            match named_child_of_kind(&n.children, NodeKind::ElseClause) {
                Some(ei) => {
                    let ec = &n.children[ei];
                    state.indent();
                    let ekw = else_kw();
                    state.println(&ekw);
                    state.inc_level();
                    match child_of_kind(&ec.children, NodeKind::Block) {
                        Some(ebi) => format_block_in(state, c, ec, ebi),
                        None => print_non_linter_comments_after(state, n, ei + 1),
                    }
                    state.dec_level();
                },
                None => {},
            }
            state.indent();
            let e = end_kw();
            state.print(&e);
        },
        None => {},
    }
}

/// The shared loop tail: inline pragma comment, body one level deeper, `end`.
pub fn format_for_tail(state: &mut State, c: Cfg, n: &Node)
    ensures
        final(state)@ == spec_for_tail(c, old(state)@, *n),
    decreases node_height(*n), 0nat, 1nat,
{
    print_linter_comment(state, n);
    state.newline();
    state.inc_level();
    match child_of_kind(&n.children, NodeKind::Block) {
        Some(bi) => format_block_in(state, c, n, bi),
        None => print_non_linter_comments(state, n),
    }
    state.dec_level();
    state.indent();
    let e = end_kw();
    state.print(&e);
}

/// Renders a for or parfor loop.
pub fn format_for(state: &mut State, c: Cfg, n: &Node)
    ensures
        final(state)@ == spec_for(c, old(state)@, *n),
    decreases node_height(*n), 1nat, 0nat,
{
    if n.children.len() == 0 {
        return;
    }
    match child_of_kind(&n.children, NodeKind::LoopIterator) {
        Some(iti) => {
            let it = &n.children[iti];
            let v0 = named_child_at(&it.children, 0);
            let v1 = named_child_at(&it.children, 1);
            match (v0, v1) {
                (Some(i0), Some(i1)) => {
                    match child_of_kind(&n.children, NodeKind::ParforOptions) {
                        Some(oi) => {
                            match named_child_at(&n.children[oi].children, 0) {
                                Some(o0) => {
                                    state.print(&n.children[0].text);
                                    state.print_b(SP);
                                    state.print_b(LPAREN);
                                    state.print(&it.children[i0].text);
                                    let t = sp_eq_sp();
                                    state.print(&t);
                                    format_node(state, c, &it.children[i1]);
                                    let t2 = comma_sp();
                                    state.print(&t2);
                                    state.print(&n.children[oi].children[o0].text);
                                    state.print_b(RPAREN);
                                    format_for_tail(state, c, n);
                                },
                                None => {},
                            }
                        },
                        None => {
                            state.print(&n.children[0].text);
                            state.print_b(SP);
                            state.print(&it.children[i0].text);
                            let t = sp_eq_sp();
                            state.print(&t);
                            format_node(state, c, &it.children[i1]);
                            format_for_tail(state, c, n);
                        },
                    }
                },
                _ => {},
            }
        },
        None => {},
    }
}

/// Renders the shared function header: output, accessor prefix, name and
/// parameter list.
pub fn format_function_header(state: &mut State, c: Cfg, n: &Node, ni: usize)
    requires
        ni < n.children@.len(),
    ensures
        final(state)@ == spec_function_header(c, old(state)@, *n, ni as int),
    decreases node_height(*n), 0nat, 0nat,
{
    match named_child_of_kind(&n.children, NodeKind::FunctionOutput) {
        Some(oi) => {
            let o = &n.children[oi];
            if o.children.len() >= 1 {
                format_node(state, c, &o.children[0]);
                let t = sp_eq_sp();
                state.print(&t);
            }
        },
        None => {},
    }
    match getset_child(&n.children) {
        Some(gi) => {
            state.print(&n.children[gi].text);
            state.print_b(DOT);
        },
        None => {},
    }
    state.print(&n.children[ni].text);
    match named_child_of_kind(&n.children, NodeKind::FunctionArguments) {
        Some(ai) => {
            let args = &n.children[ai];
            state.print_b(LPAREN);
            let ghost target = spec_fnargs_at(state@, *args, 0, 0);
            let mut k: usize = 0;
            let mut j: usize = 0;
            while j < args.children.len()
                invariant
                    j <= args.children@.len(),
                    spec_fnargs_at(state@, *args, k as int, j as int) == target,
                    k <= j,
                decreases args.children@.len() - j,
            {
                let ch = &args.children[j];
                if ch.named && !(ch.kind == NodeKind::LineContinuation) {
                    if k > 0 {
                        let t = comma_sp();
                        state.print(&t);
                    }
                    state.print(&ch.text);
                    k = k + 1;
                }
                j = j + 1;
            }
            state.print_b(RPAREN);
        },
        None => {},
    }
}

/// Renders a function definition.
pub fn format_function(state: &mut State, c: Cfg, n: &Node)
    ensures
        final(state)@ == spec_function(c, old(state)@, *n),
    decreases node_height(*n), 1nat, 0nat,
{
    match child_by_field(&n.children, Field::Name) {
        Some(ni) => {
            let t = function_kw();
            state.print(&t);
            format_function_header(state, c, n, ni);
            state.newline();
            state.inc_level();
            let ghost target = spec_function_argstmts_at(c, state@, *n, 0);
            let mut i: usize = 0;
            while i < n.children.len()
                invariant
                    i <= n.children@.len(),
                    spec_function_argstmts_at(c, state@, *n, i as int) == target,
                decreases n.children@.len() - i,
            {
                let ch = &n.children[i];
                if ch.named && ch.kind == NodeKind::ArgumentsStatement {
                    state.indent();
                    format_node(state, c, ch);
                    state.newline();
                }
                i = i + 1;
            }
            match named_child_of_kind(&n.children, NodeKind::Block) {
                Some(bi) => format_block_in(state, c, n, bi),
                None => print_non_linter_comments(state, n),
            }
            state.dec_level();
            state.indent();
            let e = end_kw();
            state.print(&e);
        },
        None => {},
    }
}

/// Renders a bare function signature.
pub fn format_signature(state: &mut State, c: Cfg, n: &Node)
    ensures
        final(state)@ == spec_signature(c, old(state)@, *n),
    decreases node_height(*n), 1nat, 0nat,
{
    match child_by_field(&n.children, Field::Name) {
        Some(ni) => format_function_header(state, c, n, ni),
        None => {},
    }
}

/// Renders an arguments-validation block.
pub fn format_arguments_statement(state: &mut State, c: Cfg, n: &Node)
    ensures
        final(state)@ == spec_arguments_statement(c, old(state)@, *n),
    decreases node_height(*n), 1nat, 0nat,
{
    state.set_extra(0);
    let t = arguments_kw();
    state.print(&t);
    match child_of_kind(&n.children, NodeKind::Attributes) {
        Some(ai) => {
            let t2 = sp_lparen();
            state.print(&t2);
            format_arguments(state, c, &n.children[ai]);
            state.print_b(RPAREN);
        },
        None => {},
    }
    state.newline();
    state.inc_level();
    let ghost target = spec_argstmt_props_at(c, state@, *n, 0);
    let mut i: usize = 0;
    while i < n.children.len()
        invariant
            i <= n.children@.len(),
            spec_argstmt_props_at(c, state@, *n, i as int) == target,
        decreases n.children@.len() - i,
    {
        let ch = &n.children[i];
        if ch.kind == NodeKind::Property {
            state.indent();
            format_property(state, c, ch);
            state.newline();
        }
        i = i + 1;
    }
    state.dec_level();
    state.indent();
    let e = end_kw();
    state.print(&e);
}

/// Renders one property declaration.
pub fn format_property(state: &mut State, c: Cfg, n: &Node)
    ensures
        final(state)@ == spec_property(c, old(state)@, *n),
    decreases node_height(*n), 1nat, 0nat,
{
    match child_by_field(&n.children, Field::Name) {
        Some(ni) => {
            let nm = &n.children[ni];
            if nm.kind == NodeKind::Identifier {
                state.print(&nm.text);
            } else {
                format_property_name(state, nm);
            }
            match child_of_kind(&n.children, NodeKind::Dimensions) {
                Some(di) => {
                    state.print_b(SP);
                    format_dimensions(state, &n.children[di]);
                },
                None => {},
            }
            match kind2_excl_child(&n.children, NodeKind::Identifier, NodeKind::PropertyName, ni) {
                Some(cli) => {
                    state.print_b(SP);
                    format_node(state, c, &n.children[cli]);
                },
                None => {},
            }
            match child_of_kind(&n.children, NodeKind::ValidationFunctions) {
                Some(vi) => {
                    let t = sp_lbrace();
                    state.print(&t);
                    format_arguments(state, c, &n.children[vi]);
                    state.print_b(RBRACE);
                },
                None => {},
            }
            match child_of_kind(&n.children, NodeKind::DefaultValue) {
                Some(dfi) => {
                    match named_child_at(&n.children[dfi].children, 0) {
                        Some(k) => {
                            let t = sp_eq_sp();
                            state.print(&t);
                            format_node(state, c, &n.children[dfi].children[k]);
                        },
                        None => {},
                    }
                },
                None => {},
            }
        },
        None => {},
    }
}

/// Renders an attribute list.
pub fn format_attributes(state: &mut State, c: Cfg, n: &Node)
    ensures
        final(state)@ == spec_attributes(c, old(state)@, *n),
    decreases node_height(*n), 1nat, 0nat,
{
    state.print_b(LPAREN);
    let ghost target = spec_attributes_at(c, state@, 0, *n, 0);
    let mut k: usize = 0;
    let mut i: usize = 0;
    while i < n.children.len()
        invariant
            i <= n.children@.len(),
            spec_attributes_at(c, state@, k as int, *n, i as int) == target,
            k <= i,
        decreases n.children@.len() - i,
    {
        let ch = &n.children[i];
        if ch.kind == NodeKind::Attribute {
            if k > 0 {
                let t = comma_sp();
                state.print(&t);
            }
            format_attribute(state, c, ch);
            k = k + 1;
        }
        i = i + 1;
    }
    state.print_b(RPAREN);
}

/// Renders one attribute.
pub fn format_attribute(state: &mut State, c: Cfg, n: &Node)
    ensures
        final(state)@ == spec_attribute(c, old(state)@, *n),
    decreases node_height(*n), 1nat, 0nat,
{
    match named_child_at(&n.children, 0) {
        Some(i0) => {
            state.print(&n.children[i0].text);
            match named_child_at(&n.children, 1) {
                Some(i1) => {
                    state.print_b(EQUALS);
                    format_node(state, c, &n.children[i1]);
                },
                None => {},
            }
        },
        None => {},
    }
}

/// Renders a properties section of a class.
pub fn format_properties(state: &mut State, c: Cfg, n: &Node)
    ensures
        final(state)@ == spec_properties(c, old(state)@, *n),
    decreases node_height(*n), 1nat, 0nat,
{
    let t = properties_kw();
    state.print(&t);
    match named_child_of_kind(&n.children, NodeKind::Attributes) {
        Some(ai) => {
            state.print_b(SP);
            format_attributes(state, c, &n.children[ai]);
        },
        None => {},
    }
    state.newline();
    state.inc_level();
    let ghost target = spec_properties_props_at(c, state@, *n, 0);
    let mut i: usize = 0;
    while i < n.children.len()
        invariant
            i <= n.children@.len(),
            spec_properties_props_at(c, state@, *n, i as int) == target,
        decreases n.children@.len() - i,
    {
        let ch = &n.children[i];
        if ch.named && ch.kind == NodeKind::Property {
            state.indent();
            format_property(state, c, ch);
            state.newline();
        }
        i = i + 1;
    }
    state.dec_level();
    state.indent();
    let e = end_kw();
    state.print(&e);
}

/// Renders an enumeration section.
pub fn format_enum(state: &mut State, c: Cfg, n: &Node)
    ensures
        final(state)@ == spec_enum(c, old(state)@, *n),
    decreases node_height(*n), 1nat, 0nat,
{
    let t = enumeration_kw();
    state.print(&t);
    match named_child_of_kind(&n.children, NodeKind::Attributes) {
        Some(ai) => {
            state.print_b(SP);
            format_attributes(state, c, &n.children[ai]);
        },
        None => {},
    }
    state.newline();
    state.inc_level();
    let ghost target = spec_enum_items_at(c, state@, *n, 0);
    let mut i: usize = 0;
    while i < n.children.len()
        invariant
            i <= n.children@.len(),
            spec_enum_items_at(c, state@, *n, i as int) == target,
        decreases n.children@.len() - i,
    {
        let item = &n.children[i];
        if item.named && item.kind == NodeKind::Enum {
            state.indent();
            let ghost inner = spec_enum_fields_at(c, state@, *item, 0, 0);
            let mut k: usize = 0;
            let mut j: usize = 0;
            while j < item.children.len()
                invariant
                    j <= item.children@.len(),
                    *item == n.children@[i as int],
                    i < n.children@.len(),
                    spec_enum_fields_at(c, state@, *item, k as int, j as int) == inner,
                    k <= j,
                decreases item.children@.len() - j,
            {
                let ch = &item.children[j];
                proof {
                    assert(*ch == item.children@[j as int]);
                    assert(node_height(*item) < node_height(*n));
                    assert(node_height(*ch) < node_height(*item));
                }
                if ch.named {
                    if k == 0 {
                        state.print(&ch.text);
                    } else if k == 1 {
                        let t2 = sp_lparen();
                        state.print(&t2);
                        format_node(state, c, ch);
                    } else {
                        let t2 = comma_sp();
                        state.print(&t2);
                        format_node(state, c, ch);
                    }
                    k = k + 1;
                }
                j = j + 1;
            }
            if named_child_at(&item.children, 1).is_some() {
                state.print_b(RPAREN);
            }
            state.newline();
        }
        i = i + 1;
    }
    state.dec_level();
    state.indent();
    let e = end_kw();
    state.print(&e);
}

/// Renders an events section.
pub fn format_events(state: &mut State, c: Cfg, n: &Node)
    ensures
        final(state)@ == spec_events(c, old(state)@, *n),
    decreases node_height(*n), 1nat, 0nat,
{
    let t = events_kw();
    state.print(&t);
    match named_child_of_kind(&n.children, NodeKind::Attributes) {
        Some(ai) => {
            state.print_b(SP);
            format_attributes(state, c, &n.children[ai]);
        },
        None => {},
    }
    state.newline();
    state.inc_level();
    let ghost target = spec_events_ids_at(state@, *n, 0);
    let mut i: usize = 0;
    while i < n.children.len()
        invariant
            i <= n.children@.len(),
            spec_events_ids_at(state@, *n, i as int) == target,
        decreases n.children@.len() - i,
    {
        let ch = &n.children[i];
        if ch.named && ch.kind == NodeKind::Identifier {
            state.indent();
            state.print(&ch.text);
            state.newline();
        }
        i = i + 1;
    }
    state.dec_level();
    state.indent();
    let e = end_kw();
    state.print(&e);
}

/// Renders a methods section: signatures first, then definitions separated by
/// blank lines.
pub fn format_method(state: &mut State, c: Cfg, n: &Node)
    ensures
        final(state)@ == spec_method(c, old(state)@, *n),
    decreases node_height(*n), 1nat, 0nat,
{
    let t = methods_kw();
    state.print(&t);
    match named_child_of_kind(&n.children, NodeKind::Attributes) {
        Some(ai) => {
            state.print_b(SP);
            format_attributes(state, c, &n.children[ai]);
        },
        None => {},
    }
    state.newline();
    state.inc_level();
    let ghost target = spec_method_sigs_at(c, state@, *n, 0);
    let mut i: usize = 0;
    while i < n.children.len()
        invariant
            i <= n.children@.len(),
            spec_method_sigs_at(c, state@, *n, i as int) == target,
        decreases n.children@.len() - i,
    {
        let ch = &n.children[i];
        if ch.named && ch.kind == NodeKind::FunctionSignature {
            state.indent();
            format_signature(state, c, ch);
            state.newline();
        }
        i = i + 1;
    }
    let has_sigs = named_child_of_kind(&n.children, NodeKind::FunctionSignature).is_some();
    let ghost target2 = spec_method_defs_at(c, state@, 0, has_sigs, *n, 0);
    let mut k: usize = 0;
    let mut j: usize = 0;
    while j < n.children.len()
        invariant
            j <= n.children@.len(),
            spec_method_defs_at(c, state@, k as int, has_sigs, *n, j as int) == target2,
            k <= j,
        decreases n.children@.len() - j,
    {
        let ch = &n.children[j];
        if ch.named && ch.kind == NodeKind::FunctionDefinition {
            if k > 0 || has_sigs {
                state.newline();
            }
            state.indent();
            format_function(state, c, ch);
            state.newline();
            k = k + 1;
        }
        j = j + 1;
    }
    state.dec_level();
    state.indent();
    let e = end_kw();
    state.print(&e);
}

/// Renders the class sections of one kind, in source order.
fn format_class_sections(state: &mut State, c: Cfg, n: &Node, k: NodeKind)
    ensures
        final(state)@ == spec_classdef_sections_at(c, old(state)@, *n, k, 0),
    decreases node_height(*n), 0nat, 0nat,
{
    let ghost target = spec_classdef_sections_at(c, state@, *n, k, 0);
    let mut i: usize = 0;
    while i < n.children.len()
        invariant
            i <= n.children@.len(),
            spec_classdef_sections_at(c, state@, *n, k, i as int) == target,
        decreases n.children@.len() - i,
    {
        let ch = &n.children[i];
        if ch.kind == k {
            state.indent();
            if k == NodeKind::Properties {
                format_properties(state, c, ch);
            } else if k == NodeKind::Enumeration {
                format_enum(state, c, ch);
            } else if k == NodeKind::Events {
                format_events(state, c, ch);
            } else {
                format_method(state, c, ch);
            }
            state.newline();
        }
        i = i + 1;
    }
}

/// Renders a class definition with its sections in fixed order.
pub fn format_classdef(state: &mut State, c: Cfg, n: &Node)
    ensures
        final(state)@ == spec_classdef(c, old(state)@, *n),
    decreases node_height(*n), 1nat, 0nat,
{
    match child_by_field(&n.children, Field::Name) {
        Some(ni) => {
            let t = classdef_kw();
            state.print(&t);
            match child_of_kind(&n.children, NodeKind::Attributes) {
                Some(ai) => {
                    format_attributes(state, c, &n.children[ai]);
                    state.print_b(SP);
                },
                None => {},
            }
            state.print(&n.children[ni].text);
            match child_of_kind(&n.children, NodeKind::Superclasses) {
                Some(si) => {
                    let sup = &n.children[si];
                    let t2 = sp_lt_sp();
                    state.print(&t2);
                    let ghost target = spec_superclasses_at(state@, *sup, 0, 0);
                    let mut k: usize = 0;
                    let mut j: usize = 0;
                    while j < sup.children.len()
                        invariant
                            j <= sup.children@.len(),
                            spec_superclasses_at(state@, *sup, k as int, j as int) == target,
                            k <= j,
                        decreases sup.children@.len() - j,
                    {
                        let ch = &sup.children[j];
                        if ch.named {
                            if k > 0 {
                                let t3 = sp_amp_sp();
                                state.print(&t3);
                            }
                            format_property_name(state, ch);
                            k = k + 1;
                        }
                        j = j + 1;
                    }
                },
                None => {},
            }
            state.newline();
            state.set_extra(0);
            state.inc_level();
            format_class_sections(state, c, n, NodeKind::Properties);
            format_class_sections(state, c, n, NodeKind::Enumeration);
            format_class_sections(state, c, n, NodeKind::Events);
            format_class_sections(state, c, n, NodeKind::Methods);
            state.dec_level();
            let e = end_kw();
            state.print(&e);
        },
        None => {},
    }
}

// ---------------------------------------------------------------------------
// Dispatch.
// ---------------------------------------------------------------------------

/// Renders one node according to its kind; kinds without a routine of their
/// own are emitted verbatim.
pub fn format_node(state: &mut State, c: Cfg, n: &Node)
    ensures
        final(state)@ == crate::render_spec::spec_node(c, old(state)@, *n),
    decreases node_height(*n), 2nat, 0nat,
{
    match n.kind {
        NodeKind::ArgumentsStatement => format_arguments_statement(state, c, n),
        NodeKind::Assignment => format_assignment(state, c, n),
        NodeKind::BinaryOperator => format_binary(state, c, n),
        NodeKind::Block => format_block(state, c, n),
        NodeKind::BooleanOperator => format_boolean(state, c, n),
        NodeKind::Cell => format_matrix(state, c, n),
        NodeKind::ClassDefinition => format_classdef(state, c, n),
        NodeKind::Command => format_command(state, c, n),
        NodeKind::Comment => format_comment(state, n),
        NodeKind::ComparisonOperator => format_boolean(state, c, n),
        NodeKind::FieldExpression => format_field(state, c, n),
        NodeKind::ForStatement => format_for(state, c, n),
        NodeKind::FunctionCall => format_fncall(state, c, n),
        NodeKind::FunctionDefinition => format_function(state, c, n),
        NodeKind::GlobalOperator => format_global(state, n),
        NodeKind::HandleOperator => format_unary(state, c, n),
        NodeKind::IfStatement => format_if(state, c, n),
        NodeKind::IndirectAccess => format_parenthesis(state, c, n),
        NodeKind::Lambda => format_lambda(state, c, n),
        NodeKind::LineContinuation => format_line_continuation(state, n),
        NodeKind::Matrix => format_matrix(state, c, n),
        NodeKind::MetaclassOperator => format_unary(state, c, n),
        NodeKind::MultioutputVariable => format_multioutput(state, c, n),
        NodeKind::NotOperator => format_unary(state, c, n),
        NodeKind::Parenthesis => format_parenthesis(state, c, n),
        NodeKind::PersistentOperator => format_global(state, n),
        NodeKind::PostfixOperator => format_unary(state, c, n),
        NodeKind::Property => format_property(state, c, n),
        NodeKind::PropertyName => format_property_name(state, n),
        NodeKind::Range => format_range(state, c, n),
        NodeKind::Row => format_row(state, c, n),
        NodeKind::SwitchStatement => format_switch(state, c, n),
        NodeKind::TryStatement => format_try(state, c, n),
        NodeKind::UnaryOperator => format_unary(state, c, n),
        NodeKind::WhileStatement => format_while(state, c, n),
        _ => {
            state.print(&n.text);
        },
    }
}

} // verus!
