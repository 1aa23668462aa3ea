use vstd::prelude::*;
use crate::textops::{is_pragma, starts_with, ends_with};
use crate::lit::block_open_s;
use crate::lit::block_close_s;

verus! {

/// The syntactic category of a tree node. Nodes of a category that the
/// formatter does not lay out specially are emitted verbatim from `text`.
#[derive(Clone, Copy, PartialEq, Eq, Structural, Debug)]
pub enum NodeKind {
    Arguments,
    ArgumentsStatement,
    Assignment,
    Attribute,
    Attributes,
    BinaryOperator,
    Block,
    BooleanOperator,
    CaseClause,
    CatchClause,
    Cell,
    ClassDefinition,
    Command,
    CommandName,
    Comment,
    ComparisonOperator,
    DefaultValue,
    Dimensions,
    ElseClause,
    ElseifClause,
    Enum,
    Enumeration,
    Events,
    FieldExpression,
    ForStatement,
    FunctionArguments,
    FunctionCall,
    FunctionDefinition,
    FunctionOutput,
    FunctionSignature,
    GlobalOperator,
    HandleOperator,
    Identifier,
    IfStatement,
    IndirectAccess,
    Lambda,
    LineContinuation,
    LoopIterator,
    Matrix,
    MetaclassOperator,
    Methods,
    MultioutputVariable,
    NotOperator,
    OtherwiseClause,
    Parenthesis,
    ParforOptions,
    PersistentOperator,
    PostfixOperator,
    Properties,
    Property,
    PropertyName,
    Range,
    Row,
    Superclasses,
    SwitchStatement,
    TryStatement,
    UnaryOperator,
    ValidationFunctions,
    WhileStatement,
    Other,
}

/// The grammar field under which a node is attached to its parent, where the
/// formatter needs one; `NoField` for every other child.
#[derive(Clone, Copy, PartialEq, Eq, Structural, Debug)]
pub enum Field {
    NoField,
    Left,
    Right,
    Condition,
    Name,
    Expression,
}

/// One node of the concrete syntax tree, owned by the library: the kind tag,
/// the grammar field it fills in its parent, whether the grammar marks it as a
/// named node, the source range it spans (rows and columns), its verbatim
/// source text, and its children in source order.
pub struct Node {
    pub kind: NodeKind,
    pub field: Field,
    pub named: bool,
    pub has_error: bool,
    pub start_row: usize,
    pub start_col: usize,
    pub end_row: usize,
    pub end_col: usize,
    pub text: Vec<u8>,
    pub children: Vec<Node>,
}

/// Comments and line continuations may appear anywhere in the grammar; the
/// tree marks them as extra nodes.
pub open spec fn is_extra_kind(k: NodeKind) -> bool {
    k == NodeKind::Comment || k == NodeKind::LineContinuation
}

pub fn is_extra(k: NodeKind) -> (r: bool)
    ensures
        r == is_extra_kind(k),
{
    k == NodeKind::Comment || k == NodeKind::LineContinuation
}

pub open spec fn node_height(n: Node) -> nat
    decreases n,
{
    1 + seq_height(n.children@)
}

pub open spec fn seq_height(s: Seq<Node>) -> nat
    decreases s,
{
    if s.len() == 0 {
        0
    } else {
        let h0 = node_height(s[0]);
        let hr = seq_height(s.drop_first());
        if h0 >= hr {
            h0
        } else {
            hr
        }
    }
}

pub proof fn lemma_seq_height(s: Seq<Node>, i: int)
    requires
        0 <= i < s.len(),
    ensures
        node_height(s[i]) <= seq_height(s),
    decreases s.len(),
{
    if i == 0 {
    } else {
        lemma_seq_height(s.drop_first(), i - 1);
        assert(s.drop_first()[i - 1] == s[i]);
    }
}

pub proof fn lemma_child_height(n: Node, i: int)
    requires
        0 <= i < n.children@.len(),
    ensures
        node_height(n.children@[i]) < node_height(n),
{
    lemma_seq_height(n.children@, i);
}

pub proof fn lemma_seq_height_bound(s: Seq<Node>, h: nat)
    requires
        h >= 1,
        forall|i: int| 0 <= i < s.len() ==> node_height(#[trigger] s[i]) < h,
    ensures
        seq_height(s) < h,
    decreases s.len(),
{
    if s.len() > 0 {
        assert(forall|i: int|
            0 <= i < s.drop_first().len() ==> node_height(#[trigger] s.drop_first()[i]) < h);
        lemma_seq_height_bound(s.drop_first(), h);
    }
}

// ---------------------------------------------------------------------------
// Finders over a child list.  Each spec function returns the index of the
// first child that matches; each exec function is proved to agree with it.
// ---------------------------------------------------------------------------

pub open spec fn find_field_from(s: Seq<Node>, f: Field, i: int) -> Option<int>
    decreases s.len() - i,
{
    if i < 0 || i >= s.len() {
        None
    } else if s[i].field == f {
        Some(i)
    } else {
        find_field_from(s, f, i + 1)
    }
}

pub open spec fn find_field(s: Seq<Node>, f: Field) -> Option<int> {
    find_field_from(s, f, 0)
}

pub open spec fn find_kind_from(s: Seq<Node>, k: NodeKind, i: int) -> Option<int>
    decreases s.len() - i,
{
    if i < 0 || i >= s.len() {
        None
    } else if s[i].kind == k {
        Some(i)
    } else {
        find_kind_from(s, k, i + 1)
    }
}

/// First child of the given kind, named or not.
pub open spec fn find_kind(s: Seq<Node>, k: NodeKind) -> Option<int> {
    find_kind_from(s, k, 0)
}

pub open spec fn find_named_kind_from(s: Seq<Node>, k: NodeKind, i: int) -> Option<int>
    decreases s.len() - i,
{
    if i < 0 || i >= s.len() {
        None
    } else if s[i].named && s[i].kind == k {
        Some(i)
    } else {
        find_named_kind_from(s, k, i + 1)
    }
}

/// First named child of the given kind.
pub open spec fn find_named_kind(s: Seq<Node>, k: NodeKind) -> Option<int> {
    find_named_kind_from(s, k, 0)
}

pub open spec fn nth_named_from(s: Seq<Node>, n: int, i: int) -> Option<int>
    decreases s.len() - i,
{
    if i < 0 || i >= s.len() {
        None
    } else if s[i].named {
        if n == 0 {
            Some(i)
        } else {
            nth_named_from(s, n - 1, i + 1)
        }
    } else {
        nth_named_from(s, n, i + 1)
    }
}

/// Index of the n-th named child (counting from zero).
pub open spec fn nth_named(s: Seq<Node>, n: int) -> Option<int> {
    nth_named_from(s, n, 0)
}

/// First named child that is not a line continuation.
pub open spec fn find_named_not_lc_from(s: Seq<Node>, i: int) -> Option<int>
    decreases s.len() - i,
{
    if i < 0 || i >= s.len() {
        None
    } else if s[i].named && s[i].kind != NodeKind::LineContinuation {
        Some(i)
    } else {
        find_named_not_lc_from(s, i + 1)
    }
}

pub open spec fn find_named_not_lc(s: Seq<Node>) -> Option<int> {
    find_named_not_lc_from(s, 0)
}

/// First child that opens an invocation's argument list: an unnamed `(` or
/// `{` token (a line continuation never counts).
pub open spec fn find_bracket_from(s: Seq<Node>, i: int) -> Option<int>
    decreases s.len() - i,
{
    if i < 0 || i >= s.len() {
        None
    } else if s[i].kind != NodeKind::LineContinuation && !s[i].named && (s[i].text@ == seq![40u8]
        || s[i].text@ == seq![123u8]) {
        Some(i)
    } else {
        find_bracket_from(s, i + 1)
    }
}

pub open spec fn find_bracket(s: Seq<Node>) -> Option<int> {
    find_bracket_from(s, 0)
}

/// First unnamed child reading `get.` or `set.`.
pub open spec fn find_getset_from(s: Seq<Node>, i: int) -> Option<int>
    decreases s.len() - i,
{
    if i < 0 || i >= s.len() {
        None
    } else if !s[i].named && (s[i].text@ == crate::lit::get_dot_s() || s[i].text@
        == crate::lit::set_dot_s()) {
        Some(i)
    } else {
        find_getset_from(s, i + 1)
    }
}

pub open spec fn find_getset(s: Seq<Node>) -> Option<int> {
    find_getset_from(s, 0)
}

/// First child, other than the one at `excl`, whose kind is `k1` or `k2`.
pub open spec fn find_kind2_excl_from(
    s: Seq<Node>,
    k1: NodeKind,
    k2: NodeKind,
    excl: int,
    i: int,
) -> Option<int>
    decreases s.len() - i,
{
    if i < 0 || i >= s.len() {
        None
    } else if i != excl && (s[i].kind == k1 || s[i].kind == k2) {
        Some(i)
    } else {
        find_kind2_excl_from(s, k1, k2, excl, i + 1)
    }
}

pub open spec fn find_kind2_excl(s: Seq<Node>, k1: NodeKind, k2: NodeKind, excl: int) -> Option<
    int,
> {
    find_kind2_excl_from(s, k1, k2, excl, 0)
}

// What a successful find means: the index is in range and the child matches.

pub broadcast proof fn lemma_find_field_range(s: Seq<Node>, f: Field, k: int)
    ensures
        0 <= k ==> match #[trigger] find_field_from(s, f, k) {
            Some(i) => k <= i < s.len() && s[i].field == f,
            None => true,
        },
    decreases s.len() - k,
{
    if 0 <= k < s.len() && s[k].field != f {
        lemma_find_field_range(s, f, k + 1);
    }
}

pub broadcast proof fn lemma_find_kind_range(s: Seq<Node>, kd: NodeKind, k: int)
    ensures
        0 <= k ==> match #[trigger] find_kind_from(s, kd, k) {
            Some(i) => k <= i < s.len() && s[i].kind == kd,
            None => true,
        },
    decreases s.len() - k,
{
    if 0 <= k < s.len() && s[k].kind != kd {
        lemma_find_kind_range(s, kd, k + 1);
    }
}

pub broadcast proof fn lemma_find_named_kind_range(s: Seq<Node>, kd: NodeKind, k: int)
    ensures
        0 <= k ==> match #[trigger] find_named_kind_from(s, kd, k) {
            Some(i) => k <= i < s.len() && s[i].named && s[i].kind == kd,
            None => true,
        },
    decreases s.len() - k,
{
    if 0 <= k < s.len() && !(s[k].named && s[k].kind == kd) {
        lemma_find_named_kind_range(s, kd, k + 1);
    }
}

pub broadcast proof fn lemma_nth_named_range(s: Seq<Node>, n: int, k: int)
    ensures
        0 <= k ==> match #[trigger] nth_named_from(s, n, k) {
            Some(i) => k <= i < s.len() && s[i].named,
            None => true,
        },
    decreases s.len() - k,
{
    if 0 <= k < s.len() {
        if s[k].named {
            if n != 0 {
                lemma_nth_named_range(s, n - 1, k + 1);
            }
        } else {
            lemma_nth_named_range(s, n, k + 1);
        }
    }
}

pub broadcast proof fn lemma_find_named_not_lc_range(s: Seq<Node>, k: int)
    ensures
        0 <= k ==> match #[trigger] find_named_not_lc_from(s, k) {
            Some(i) => k <= i < s.len() && s[i].named && s[i].kind != NodeKind::LineContinuation,
            None => true,
        },
    decreases s.len() - k,
{
    if 0 <= k < s.len() && !(s[k].named && s[k].kind != NodeKind::LineContinuation) {
        lemma_find_named_not_lc_range(s, k + 1);
    }
}

pub broadcast proof fn lemma_find_bracket_range(s: Seq<Node>, k: int)
    ensures
        0 <= k ==> match #[trigger] find_bracket_from(s, k) {
            Some(i) => k <= i < s.len() && !s[i].named && s[i].kind != NodeKind::LineContinuation
                && (s[i].text@ == seq![40u8] || s[i].text@ == seq![123u8]),
            None => true,
        },
    decreases s.len() - k,
{
    if 0 <= k < s.len() && !(s[k].kind != NodeKind::LineContinuation && !s[k].named && (s[k].text@
        == seq![40u8] || s[k].text@ == seq![123u8])) {
        lemma_find_bracket_range(s, k + 1);
    }
}

pub broadcast proof fn lemma_find_getset_range(s: Seq<Node>, k: int)
    ensures
        0 <= k ==> match #[trigger] find_getset_from(s, k) {
            Some(i) => k <= i < s.len() && !s[i].named && (s[i].text@ == crate::lit::get_dot_s()
                || s[i].text@ == crate::lit::set_dot_s()),
            None => true,
        },
    decreases s.len() - k,
{
    if 0 <= k < s.len() && !(!s[k].named && (s[k].text@ == crate::lit::get_dot_s() || s[k].text@
        == crate::lit::set_dot_s())) {
        lemma_find_getset_range(s, k + 1);
    }
}

pub broadcast proof fn lemma_find_kind2_excl_range(
    s: Seq<Node>,
    k1: NodeKind,
    k2: NodeKind,
    excl: int,
    k: int,
)
    ensures
        0 <= k ==> match #[trigger] find_kind2_excl_from(s, k1, k2, excl, k) {
            Some(i) => k <= i < s.len() && i != excl && (s[i].kind == k1 || s[i].kind == k2),
            None => true,
        },
    decreases s.len() - k,
{
    if 0 <= k < s.len() && !(k != excl && (s[k].kind == k1 || s[k].kind == k2)) {
        lemma_find_kind2_excl_range(s, k1, k2, excl, k + 1);
    }
}

// Exec counterparts.

pub fn child_by_field(v: &Vec<Node>, f: Field) -> (r: Option<usize>)
    ensures
        match r {
            Some(i) => i < v@.len() && find_field(v@, f) == Some(i as int),
            None => find_field(v@, f) is None,
        },
{
    let mut i: usize = 0;
    while i < v.len()
        invariant
            i <= v@.len(),
            find_field(v@, f) == find_field_from(v@, f, i as int),
        decreases v@.len() - i,
    {
        if v[i].field == f {
            return Some(i);
        }
        i = i + 1;
    }
    None
}

pub fn child_of_kind(v: &Vec<Node>, k: NodeKind) -> (r: Option<usize>)
    ensures
        match r {
            Some(i) => i < v@.len() && find_kind(v@, k) == Some(i as int),
            None => find_kind(v@, k) is None,
        },
{
    let mut i: usize = 0;
    while i < v.len()
        invariant
            i <= v@.len(),
            find_kind(v@, k) == find_kind_from(v@, k, i as int),
        decreases v@.len() - i,
    {
        if v[i].kind == k {
            return Some(i);
        }
        i = i + 1;
    }
    None
}

pub fn named_child_of_kind(v: &Vec<Node>, k: NodeKind) -> (r: Option<usize>)
    ensures
        match r {
            Some(i) => i < v@.len() && find_named_kind(v@, k) == Some(i as int),
            None => find_named_kind(v@, k) is None,
        },
{
    let mut i: usize = 0;
    while i < v.len()
        invariant
            i <= v@.len(),
            find_named_kind(v@, k) == find_named_kind_from(v@, k, i as int),
        decreases v@.len() - i,
    {
        if v[i].named && v[i].kind == k {
            return Some(i);
        }
        i = i + 1;
    }
    None
}

pub fn named_child_at(v: &Vec<Node>, n: usize) -> (r: Option<usize>)
    ensures
        match r {
            Some(i) => i < v@.len() && nth_named(v@, n as int) == Some(i as int),
            None => nth_named(v@, n as int) is None,
        },
{
    let mut i: usize = 0;
    let mut left: usize = n;
    while i < v.len()
        invariant
            i <= v@.len(),
            left <= n,
            nth_named(v@, n as int) == nth_named_from(v@, left as int, i as int),
        decreases v@.len() - i,
    {
        if v[i].named {
            if left == 0 {
                return Some(i);
            }
            left = left - 1;
        }
        i = i + 1;
    }
    None
}

pub fn named_child_not_lc(v: &Vec<Node>) -> (r: Option<usize>)
    ensures
        match r {
            Some(i) => i < v@.len() && find_named_not_lc(v@) == Some(i as int),
            None => find_named_not_lc(v@) is None,
        },
{
    let mut i: usize = 0;
    while i < v.len()
        invariant
            i <= v@.len(),
            find_named_not_lc(v@) == find_named_not_lc_from(v@, i as int),
        decreases v@.len() - i,
    {
        if v[i].named && !(v[i].kind == NodeKind::LineContinuation) {
            return Some(i);
        }
        i = i + 1;
    }
    None
}

pub fn bracket_child(v: &Vec<Node>) -> (r: Option<usize>)
    ensures
        match r {
            Some(i) => i < v@.len() && find_bracket(v@) == Some(i as int),
            None => find_bracket(v@) is None,
        },
{
    let lp: Vec<u8> = vec![40u8];
    let lb: Vec<u8> = vec![123u8];
    proof {
        assert(lp@ =~= seq![40u8]);
        assert(lb@ =~= seq![123u8]);
    }
    let mut i: usize = 0;
    while i < v.len()
        invariant
            i <= v@.len(),
            lp@ == seq![40u8],
            lb@ == seq![123u8],
            find_bracket(v@) == find_bracket_from(v@, i as int),
        decreases v@.len() - i,
    {
        if !(v[i].kind == NodeKind::LineContinuation) && !v[i].named && (crate::textops::bytes_eq(
            &v[i].text,
            &lp,
        ) || crate::textops::bytes_eq(&v[i].text, &lb)) {
            return Some(i);
        }
        i = i + 1;
    }
    None
}

pub fn getset_child(v: &Vec<Node>) -> (r: Option<usize>)
    ensures
        match r {
            Some(i) => i < v@.len() && find_getset(v@) == Some(i as int),
            None => find_getset(v@) is None,
        },
{
    let g = crate::lit::get_dot();
    let s = crate::lit::set_dot();
    let mut i: usize = 0;
    while i < v.len()
        invariant
            i <= v@.len(),
            g@ == crate::lit::get_dot_s(),
            s@ == crate::lit::set_dot_s(),
            find_getset(v@) == find_getset_from(v@, i as int),
        decreases v@.len() - i,
    {
        if !v[i].named && (crate::textops::bytes_eq(&v[i].text, &g) || crate::textops::bytes_eq(
            &v[i].text,
            &s,
        )) {
            return Some(i);
        }
        i = i + 1;
    }
    None
}

pub fn kind2_excl_child(v: &Vec<Node>, k1: NodeKind, k2: NodeKind, excl: usize) -> (r: Option<
    usize,
>)
    ensures
        match r {
            Some(i) => i < v@.len() && find_kind2_excl(v@, k1, k2, excl as int) == Some(i as int),
            None => find_kind2_excl(v@, k1, k2, excl as int) is None,
        },
{
    let mut i: usize = 0;
    while i < v.len()
        invariant
            i <= v@.len(),
            find_kind2_excl(v@, k1, k2, excl as int) == find_kind2_excl_from(
                v@,
                k1,
                k2,
                excl as int,
                i as int,
            ),
        decreases v@.len() - i,
    {
        if i != excl && (v[i].kind == k1 || v[i].kind == k2) {
            return Some(i);
        }
        i = i + 1;
    }
    None
}

// ---------------------------------------------------------------------------
// Statement lists.  A block renders its named children, together with the
// comment siblings that hug it: comments directly before it at the same level
// (pragma comments excepted, they belong to the header line) and comments
// directly after it.
// ---------------------------------------------------------------------------

/// The named children of `s`, in order.
pub open spec fn named_of(s: Seq<Node>) -> Seq<Node>
    decreases s.len(),
{
    if s.len() == 0 {
        Seq::empty()
    } else if s[0].named {
        seq![s[0]] + named_of(s.drop_first())
    } else {
        named_of(s.drop_first())
    }
}

/// Comment siblings walking backwards from `j`: unnamed siblings are passed
/// over, pragma comments are skipped, other comments are collected, and the
/// first named non-comment sibling stops the walk.  Source order is kept.
pub open spec fn hug_before(s: Seq<Node>, j: int) -> Seq<Node>
    decreases j + 1,
{
    if j < 0 || j >= s.len() {
        Seq::empty()
    } else if !s[j].named {
        hug_before(s, j - 1)
    } else if s[j].kind == NodeKind::Comment {
        if is_pragma(s[j].text@) {
            hug_before(s, j - 1)
        } else {
            hug_before(s, j - 1).push(s[j])
        }
    } else {
        Seq::empty()
    }
}

/// Comment siblings walking forwards from `j`: unnamed siblings are passed
/// over, comments are collected, and the first named non-comment sibling
/// stops the walk.
pub open spec fn hug_after(s: Seq<Node>, j: int) -> Seq<Node>
    decreases s.len() - j,
{
    if j < 0 || j >= s.len() {
        Seq::empty()
    } else if !s[j].named {
        hug_after(s, j + 1)
    } else if s[j].kind == NodeKind::Comment {
        seq![s[j]] + hug_after(s, j + 1)
    } else {
        Seq::empty()
    }
}

/// The statements a block at child position `bi` renders: hugging comments
/// before it, its own named children, hugging comments after it.
pub open spec fn block_stmts_of(s: Seq<Node>, bi: int) -> Seq<Node>
    recommends
        0 <= bi < s.len(),
{
    hug_before(s, bi - 1) + named_of(s[bi].children@) + hug_after(s, bi + 1)
}

pub proof fn lemma_named_of_height(s: Seq<Node>)
    ensures
        forall|k: int|
            0 <= k < named_of(s).len() ==> node_height(#[trigger] named_of(s)[k]) <= seq_height(s),
    decreases s.len(),
{
    if s.len() > 0 {
        lemma_named_of_height(s.drop_first());
        lemma_seq_height(s, 0);
        let q = named_of(s);
        assert forall|k: int| 0 <= k < q.len() implies node_height(#[trigger] q[k]) <= seq_height(
            s,
        ) by {
            if s[0].named {
                if k == 0 {
                } else {
                    assert(q[k] == named_of(s.drop_first())[k - 1]);
                }
            } else {
                assert(q[k] == named_of(s.drop_first())[k]);
            }
        }
    }
}

pub proof fn lemma_hug_before_height(s: Seq<Node>, j: int)
    ensures
        forall|k: int|
            0 <= k < hug_before(s, j).len() ==> node_height(#[trigger] hug_before(s, j)[k])
                <= seq_height(s),
    decreases j + 1,
{
    if 0 <= j < s.len() {
        lemma_hug_before_height(s, j - 1);
        lemma_seq_height(s, j);
        let q = hug_before(s, j);
        assert forall|k: int| 0 <= k < q.len() implies node_height(#[trigger] q[k]) <= seq_height(
            s,
        ) by {
            if !s[j].named {
                assert(q[k] == hug_before(s, j - 1)[k]);
            } else if s[j].kind == NodeKind::Comment {
                if is_pragma(s[j].text@) {
                    assert(q[k] == hug_before(s, j - 1)[k]);
                } else if k < q.len() - 1 {
                    assert(q[k] == hug_before(s, j - 1)[k]);
                } else {
                    assert(q[k] == s[j]);
                }
            }
        }
    }
}

pub proof fn lemma_hug_after_height(s: Seq<Node>, j: int)
    ensures
        forall|k: int|
            0 <= k < hug_after(s, j).len() ==> node_height(#[trigger] hug_after(s, j)[k])
                <= seq_height(s),
    decreases s.len() - j,
{
    if 0 <= j < s.len() {
        lemma_hug_after_height(s, j + 1);
        lemma_seq_height(s, j);
        let q = hug_after(s, j);
        assert forall|k: int| 0 <= k < q.len() implies node_height(#[trigger] q[k]) <= seq_height(
            s,
        ) by {
            if !s[j].named {
                assert(q[k] == hug_after(s, j + 1)[k]);
            } else if s[j].kind == NodeKind::Comment {
                if k > 0 {
                    assert(q[k] == hug_after(s, j + 1)[k - 1]);
                } else {
                    assert(q[k] == s[j]);
                }
            }
        }
    }
}

/// The statement list of a block stands no higher than the sibling list it
/// was drawn from.
pub broadcast proof fn lemma_block_stmts_height(s: Seq<Node>, bi: int)
    ensures
        0 <= bi < s.len() ==> #[trigger] seq_height(block_stmts_of(s, bi)) <= seq_height(s),
{
    if 0 <= bi < s.len() {
        let q = block_stmts_of(s, bi);
        lemma_hug_before_height(s, bi - 1);
        lemma_named_of_height(s[bi].children@);
        lemma_hug_after_height(s, bi + 1);
        lemma_seq_height(s, bi);
        assert forall|k: int| 0 <= k < q.len() implies node_height(#[trigger] q[k]) < seq_height(s)
            + 1 by {
            let a = hug_before(s, bi - 1);
            let b = named_of(s[bi].children@);
            if k < a.len() {
                assert(q[k] == a[k]);
            } else if k < a.len() + b.len() {
                assert(q[k] == b[k - a.len()]);
                assert(node_height(q[k]) <= seq_height(s[bi].children@));
                assert(seq_height(s[bi].children@) < node_height(s[bi]));
            } else {
                assert(q[k] == hug_after(s, bi + 1)[k - a.len() - b.len()]);
            }
        }
        lemma_seq_height_bound(q, seq_height(s) + 1);
    }
}

/// The named children of a list stand no higher than the list.
pub broadcast proof fn lemma_named_of_height_le(s: Seq<Node>)
    ensures
        #[trigger] seq_height(named_of(s)) <= seq_height(s),
{
    lemma_named_of_height(s);
    lemma_seq_height_bound(named_of(s), seq_height(s) + 1);
}

/// A child stands strictly below its parent.
pub broadcast proof fn lemma_height_child(n: Node, i: int)
    ensures
        0 <= i < n.children@.len() ==> #[trigger] node_height(n.children@[i]) < node_height(n),
{
    if 0 <= i < n.children@.len() {
        lemma_child_height(n, i);
    }
}

/// An element of a list stands no higher than the list.
pub broadcast proof fn lemma_height_elem(s: Seq<Node>, i: int)
    ensures
        0 <= i < s.len() ==> #[trigger] node_height(s[i]) <= seq_height(s),
{
    if 0 <= i < s.len() {
        lemma_seq_height(s, i);
    }
}

/// The text of a command's name: its first named child, verbatim.
pub open spec fn command_name_text(n: Node) -> Option<Seq<u8>> {
    match nth_named(n.children@, 0) {
        Some(i) => Some(n.children@[i].text@),
        None => None,
    }
}

/// Reference-sequence view: the nodes a vector of references points at.
pub open spec fn nodes_of(s: Seq<&Node>) -> Seq<Node> {
    Seq::new(s.len(), |i: int| *s[i])
}

// ---------------------------------------------------------------------------
// Structural well-formedness: every child a formatting routine demands is
// present.  A tree that fails this check is refused before any output is
// produced, with the source position of the first offending node in preorder.
// ---------------------------------------------------------------------------

pub open spec fn kind_ok(n: Node) -> bool {
    let s = n.children@;
    match n.kind {
        NodeKind::Assignment => find_field(s, Field::Left) is Some && find_field(
            s,
            Field::Right,
        ) is Some,
        NodeKind::Parenthesis => find_named_not_lc(s) is Some,
        NodeKind::IndirectAccess => find_named_not_lc(s) is Some,
        NodeKind::Lambda => find_field(s, Field::Expression) is Some,
        NodeKind::WhileStatement => find_field(s, Field::Condition) is Some,
        NodeKind::TryStatement => find_kind(s, NodeKind::CatchClause) is Some,
        NodeKind::SwitchStatement => find_field(s, Field::Condition) is Some,
        NodeKind::CaseClause => find_field(s, Field::Condition) is Some,
        NodeKind::IfStatement => find_field(s, Field::Condition) is Some,
        NodeKind::ElseifClause => find_field(s, Field::Condition) is Some,
        NodeKind::ForStatement => {
            &&& s.len() >= 1
            &&& match find_kind(s, NodeKind::LoopIterator) {
                Some(ii) => nth_named(s[ii].children@, 1) is Some,
                None => false,
            }
            &&& match find_kind(s, NodeKind::ParforOptions) {
                Some(oi) => nth_named(s[oi].children@, 0) is Some,
                None => true,
            }
        },
        NodeKind::FunctionDefinition => {
            &&& find_field(s, Field::Name) is Some
            &&& match find_named_kind(s, NodeKind::FunctionOutput) {
                Some(oi) => s[oi].children@.len() >= 1,
                None => true,
            }
        },
        NodeKind::FunctionSignature => {
            &&& find_field(s, Field::Name) is Some
            &&& match find_named_kind(s, NodeKind::FunctionOutput) {
                Some(oi) => s[oi].children@.len() >= 1,
                None => true,
            }
        },
        NodeKind::Property => {
            &&& find_field(s, Field::Name) is Some
            &&& match find_kind(s, NodeKind::DefaultValue) {
                Some(di) => nth_named(s[di].children@, 0) is Some,
                None => true,
            }
        },
        NodeKind::Attribute => nth_named(s, 0) is Some,
        NodeKind::Command => nth_named(s, 0) is Some,
        NodeKind::Comment => (n.start_row != n.end_row && starts_with(n.text@, block_open_s()))
            ==> (n.text@.len() >= 4 && ends_with(n.text@, block_close_s())),
        _ => true,
    }
}

pub open spec fn wf_seq(s: Seq<Node>) -> bool
    decreases s,
{
    if s.len() == 0 {
        true
    } else {
        wf_node(s[0]) && wf_seq(s.drop_first())
    }
}

pub open spec fn wf_node(n: Node) -> bool
    decreases n,
{
    kind_ok(n) && wf_seq(n.children@)
}

/// Source position of the first node in preorder that breaks `kind_ok`, if
/// any; `wf_node` holds exactly when there is none.
pub open spec fn first_bad(n: Node) -> Option<(usize, usize)>
    decreases n,
{
    if !kind_ok(n) {
        Some((n.start_row, n.start_col))
    } else {
        first_bad_seq(n.children@)
    }
}

pub open spec fn first_bad_seq(s: Seq<Node>) -> Option<(usize, usize)>
    decreases s,
{
    if s.len() == 0 {
        None
    } else {
        match first_bad(s[0]) {
            Some(p) => Some(p),
            None => first_bad_seq(s.drop_first()),
        }
    }
}

pub proof fn lemma_first_bad_none(n: Node)
    ensures
        first_bad(n) is None <==> wf_node(n),
    decreases n,
{
    if kind_ok(n) {
        lemma_first_bad_seq_none(n.children@);
    }
}

proof fn lemma_first_bad_seq_none(s: Seq<Node>)
    ensures
        first_bad_seq(s) is None <==> wf_seq(s),
    decreases s,
{
    if s.len() > 0 {
        lemma_first_bad_none(s[0]);
        lemma_first_bad_seq_none(s.drop_first());
    }
}

/// Checks structural well-formedness, reporting the position of the first
/// offending node in preorder.
pub fn check_node(n: &Node) -> (r: Option<(usize, usize)>)
    ensures
        r == first_bad(*n),
    decreases node_height(*n),
{
    if !check_kind_ok(n) {
        return Some((n.start_row, n.start_col));
    }
    proof {
        assert(n.children@.skip(0) =~= n.children@);
    }
    let mut i: usize = 0;
    while i < n.children.len()
        invariant
            i <= n.children@.len(),
            kind_ok(*n),
            first_bad_seq(n.children@.skip(i as int)) == first_bad(*n),
        decreases n.children@.len() - i,
    {
        proof {
            lemma_child_height(*n, i as int);
            assert(n.children@.skip(i as int)[0] == n.children@[i as int]);
        }
        let r = check_node(&n.children[i]);
        if r.is_some() {
            return r;
        }
        i = i + 1;
        proof {
            assert(n.children@.skip(i - 1).drop_first() =~= n.children@.skip(i as int));
        }
    }
    proof {
        assert(n.children@.skip(i as int) =~= Seq::<Node>::empty());
    }
    None
}

fn check_kind_ok(n: &Node) -> (r: bool)
    ensures
        r == kind_ok(*n),
{
    let s = &n.children;
    match n.kind {
        NodeKind::Assignment => child_by_field(s, Field::Left).is_some() && child_by_field(
            s,
            Field::Right,
        ).is_some(),
        NodeKind::Parenthesis => named_child_not_lc(s).is_some(),
        NodeKind::IndirectAccess => named_child_not_lc(s).is_some(),
        NodeKind::Lambda => child_by_field(s, Field::Expression).is_some(),
        NodeKind::WhileStatement => child_by_field(s, Field::Condition).is_some(),
        NodeKind::TryStatement => child_of_kind(s, NodeKind::CatchClause).is_some(),
        NodeKind::SwitchStatement => child_by_field(s, Field::Condition).is_some(),
        NodeKind::CaseClause => child_by_field(s, Field::Condition).is_some(),
        NodeKind::IfStatement => child_by_field(s, Field::Condition).is_some(),
        NodeKind::ElseifClause => child_by_field(s, Field::Condition).is_some(),
        NodeKind::ForStatement => {
            let it = child_of_kind(s, NodeKind::LoopIterator);
            let itok = match it {
                Some(ii) => named_child_at(&s[ii].children, 1).is_some(),
                None => false,
            };
            let optok = match child_of_kind(s, NodeKind::ParforOptions) {
                Some(oi) => named_child_at(&s[oi].children, 0).is_some(),
                None => true,
            };
            s.len() >= 1 && itok && optok
        },
        NodeKind::FunctionDefinition => {
            let outok = match named_child_of_kind(s, NodeKind::FunctionOutput) {
                Some(oi) => s[oi].children.len() >= 1,
                None => true,
            };
            child_by_field(s, Field::Name).is_some() && outok
        },
        NodeKind::FunctionSignature => {
            let outok = match named_child_of_kind(s, NodeKind::FunctionOutput) {
                Some(oi) => s[oi].children.len() >= 1,
                None => true,
            };
            child_by_field(s, Field::Name).is_some() && outok
        },
        NodeKind::Property => {
            let defok = match child_of_kind(s, NodeKind::DefaultValue) {
                Some(di) => named_child_at(&s[di].children, 0).is_some(),
                None => true,
            };
            child_by_field(s, Field::Name).is_some() && defok
        },
        NodeKind::Attribute => named_child_at(s, 0).is_some(),
        NodeKind::Command => named_child_at(s, 0).is_some(),
        NodeKind::Comment => {
            if n.start_row != n.end_row && crate::textops::has_prefix(
                &n.text,
                &crate::lit::block_open(),
            ) {
                n.text.len() >= 4 && crate::textops::has_suffix(&n.text, &crate::lit::block_close())
            } else {
                true
            }
        },
        _ => true,
    }
}

} // verus!
