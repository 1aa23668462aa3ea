use vstd::prelude::*;

verus! {


// Single-byte tokens, usable in both spec and exec code.
pub const NL: u8 = 10;
pub const SP: u8 = 32;
pub const PERCENT: u8 = 37;
pub const LPAREN: u8 = 40;
pub const RPAREN: u8 = 41;
pub const COMMA: u8 = 44;
pub const DOT: u8 = 46;
pub const COLON: u8 = 58;
pub const SEMI: u8 = 59;
pub const EQUALS: u8 = 61;
pub const AT: u8 = 64;
pub const LBRACKET: u8 = 91;
pub const RBRACKET: u8 = 93;
pub const LBRACE: u8 = 123;
pub const RBRACE: u8 = 125;

/// The token `end`.
pub open spec fn end_kw_s() -> Seq<u8> {
    seq![101u8, 110u8, 100u8]
}

pub fn end_kw() -> (v: Vec<u8>)
    ensures
        v@ == end_kw_s(),
{
    let v: Vec<u8> = vec![101u8, 110u8, 100u8];
    proof {
        assert(v@ =~= end_kw_s());
    }
    v
}

/// The token `while `.
pub open spec fn while_kw_s() -> Seq<u8> {
    seq![119u8, 104u8, 105u8, 108u8, 101u8, 32u8]
}

pub fn while_kw() -> (v: Vec<u8>)
    ensures
        v@ == while_kw_s(),
{
    let v: Vec<u8> = vec![119u8, 104u8, 105u8, 108u8, 101u8, 32u8];
    proof {
        assert(v@ =~= while_kw_s());
    }
    v
}

/// The token `try`.
pub open spec fn try_kw_s() -> Seq<u8> {
    seq![116u8, 114u8, 121u8]
}

pub fn try_kw() -> (v: Vec<u8>)
    ensures
        v@ == try_kw_s(),
{
    let v: Vec<u8> = vec![116u8, 114u8, 121u8];
    proof {
        assert(v@ =~= try_kw_s());
    }
    v
}

/// The token `catch`.
pub open spec fn catch_kw_s() -> Seq<u8> {
    seq![99u8, 97u8, 116u8, 99u8, 104u8]
}

pub fn catch_kw() -> (v: Vec<u8>)
    ensures
        v@ == catch_kw_s(),
{
    let v: Vec<u8> = vec![99u8, 97u8, 116u8, 99u8, 104u8];
    proof {
        assert(v@ =~= catch_kw_s());
    }
    v
}

/// The token `switch `.
pub open spec fn switch_kw_s() -> Seq<u8> {
    seq![115u8, 119u8, 105u8, 116u8, 99u8, 104u8, 32u8]
}

pub fn switch_kw() -> (v: Vec<u8>)
    ensures
        v@ == switch_kw_s(),
{
    let v: Vec<u8> = vec![115u8, 119u8, 105u8, 116u8, 99u8, 104u8, 32u8];
    proof {
        assert(v@ =~= switch_kw_s());
    }
    v
}

/// The token `case `.
pub open spec fn case_kw_s() -> Seq<u8> {
    seq![99u8, 97u8, 115u8, 101u8, 32u8]
}

pub fn case_kw() -> (v: Vec<u8>)
    ensures
        v@ == case_kw_s(),
{
    let v: Vec<u8> = vec![99u8, 97u8, 115u8, 101u8, 32u8];
    proof {
        assert(v@ =~= case_kw_s());
    }
    v
}

/// The token `otherwise`.
pub open spec fn otherwise_kw_s() -> Seq<u8> {
    seq![111u8, 116u8, 104u8, 101u8, 114u8, 119u8, 105u8, 115u8, 101u8]
}

pub fn otherwise_kw() -> (v: Vec<u8>)
    ensures
        v@ == otherwise_kw_s(),
{
    let v: Vec<u8> = vec![111u8, 116u8, 104u8, 101u8, 114u8, 119u8, 105u8, 115u8, 101u8];
    proof {
        assert(v@ =~= otherwise_kw_s());
    }
    v
}

/// The token `if `.
pub open spec fn if_kw_s() -> Seq<u8> {
    seq![105u8, 102u8, 32u8]
}

pub fn if_kw() -> (v: Vec<u8>)
    ensures
        v@ == if_kw_s(),
{
    let v: Vec<u8> = vec![105u8, 102u8, 32u8];
    proof {
        assert(v@ =~= if_kw_s());
    }
    v
}

/// The token `elseif `.
pub open spec fn elseif_kw_s() -> Seq<u8> {
    seq![101u8, 108u8, 115u8, 101u8, 105u8, 102u8, 32u8]
}

pub fn elseif_kw() -> (v: Vec<u8>)
    ensures
        v@ == elseif_kw_s(),
{
    let v: Vec<u8> = vec![101u8, 108u8, 115u8, 101u8, 105u8, 102u8, 32u8];
    proof {
        assert(v@ =~= elseif_kw_s());
    }
    v
}

/// The token `else`.
pub open spec fn else_kw_s() -> Seq<u8> {
    seq![101u8, 108u8, 115u8, 101u8]
}

pub fn else_kw() -> (v: Vec<u8>)
    ensures
        v@ == else_kw_s(),
{
    let v: Vec<u8> = vec![101u8, 108u8, 115u8, 101u8];
    proof {
        assert(v@ =~= else_kw_s());
    }
    v
}

/// The token `function `.
pub open spec fn function_kw_s() -> Seq<u8> {
    seq![102u8, 117u8, 110u8, 99u8, 116u8, 105u8, 111u8, 110u8, 32u8]
}

pub fn function_kw() -> (v: Vec<u8>)
    ensures
        v@ == function_kw_s(),
{
    let v: Vec<u8> = vec![102u8, 117u8, 110u8, 99u8, 116u8, 105u8, 111u8, 110u8, 32u8];
    proof {
        assert(v@ =~= function_kw_s());
    }
    v
}

/// The token `arguments`.
pub open spec fn arguments_kw_s() -> Seq<u8> {
    seq![97u8, 114u8, 103u8, 117u8, 109u8, 101u8, 110u8, 116u8, 115u8]
}

pub fn arguments_kw() -> (v: Vec<u8>)
    ensures
        v@ == arguments_kw_s(),
{
    let v: Vec<u8> = vec![97u8, 114u8, 103u8, 117u8, 109u8, 101u8, 110u8, 116u8, 115u8];
    proof {
        assert(v@ =~= arguments_kw_s());
    }
    v
}

/// The token `properties`.
pub open spec fn properties_kw_s() -> Seq<u8> {
    seq![112u8, 114u8, 111u8, 112u8, 101u8, 114u8, 116u8, 105u8, 101u8, 115u8]
}

pub fn properties_kw() -> (v: Vec<u8>)
    ensures
        v@ == properties_kw_s(),
{
    let v: Vec<u8> = vec![112u8, 114u8, 111u8, 112u8, 101u8, 114u8, 116u8, 105u8, 101u8, 115u8];
    proof {
        assert(v@ =~= properties_kw_s());
    }
    v
}

/// The token `enumeration`.
pub open spec fn enumeration_kw_s() -> Seq<u8> {
    seq![101u8, 110u8, 117u8, 109u8, 101u8, 114u8, 97u8, 116u8, 105u8, 111u8, 110u8]
}

pub fn enumeration_kw() -> (v: Vec<u8>)
    ensures
        v@ == enumeration_kw_s(),
{
    let v: Vec<u8> = vec![101u8, 110u8, 117u8, 109u8, 101u8, 114u8, 97u8, 116u8, 105u8, 111u8, 110u8];
    proof {
        assert(v@ =~= enumeration_kw_s());
    }
    v
}

/// The token `events`.
pub open spec fn events_kw_s() -> Seq<u8> {
    seq![101u8, 118u8, 101u8, 110u8, 116u8, 115u8]
}

pub fn events_kw() -> (v: Vec<u8>)
    ensures
        v@ == events_kw_s(),
{
    let v: Vec<u8> = vec![101u8, 118u8, 101u8, 110u8, 116u8, 115u8];
    proof {
        assert(v@ =~= events_kw_s());
    }
    v
}

/// The token `methods`.
pub open spec fn methods_kw_s() -> Seq<u8> {
    seq![109u8, 101u8, 116u8, 104u8, 111u8, 100u8, 115u8]
}

pub fn methods_kw() -> (v: Vec<u8>)
    ensures
        v@ == methods_kw_s(),
{
    let v: Vec<u8> = vec![109u8, 101u8, 116u8, 104u8, 111u8, 100u8, 115u8];
    proof {
        assert(v@ =~= methods_kw_s());
    }
    v
}

/// The token `classdef `.
pub open spec fn classdef_kw_s() -> Seq<u8> {
    seq![99u8, 108u8, 97u8, 115u8, 115u8, 100u8, 101u8, 102u8, 32u8]
}

pub fn classdef_kw() -> (v: Vec<u8>)
    ensures
        v@ == classdef_kw_s(),
{
    let v: Vec<u8> = vec![99u8, 108u8, 97u8, 115u8, 115u8, 100u8, 101u8, 102u8, 32u8];
    proof {
        assert(v@ =~= classdef_kw_s());
    }
    v
}

/// The token `, `.
pub open spec fn comma_sp_s() -> Seq<u8> {
    seq![44u8, 32u8]
}

pub fn comma_sp() -> (v: Vec<u8>)
    ensures
        v@ == comma_sp_s(),
{
    let v: Vec<u8> = vec![44u8, 32u8];
    proof {
        assert(v@ =~= comma_sp_s());
    }
    v
}

/// The token `; `.
pub open spec fn semi_sp_s() -> Seq<u8> {
    seq![59u8, 32u8]
}

pub fn semi_sp() -> (v: Vec<u8>)
    ensures
        v@ == semi_sp_s(),
{
    let v: Vec<u8> = vec![59u8, 32u8];
    proof {
        assert(v@ =~= semi_sp_s());
    }
    v
}

/// The token ` = `.
pub open spec fn sp_eq_sp_s() -> Seq<u8> {
    seq![32u8, 61u8, 32u8]
}

pub fn sp_eq_sp() -> (v: Vec<u8>)
    ensures
        v@ == sp_eq_sp_s(),
{
    let v: Vec<u8> = vec![32u8, 61u8, 32u8];
    proof {
        assert(v@ =~= sp_eq_sp_s());
    }
    v
}

/// The token ` < `.
pub open spec fn sp_lt_sp_s() -> Seq<u8> {
    seq![32u8, 60u8, 32u8]
}

pub fn sp_lt_sp() -> (v: Vec<u8>)
    ensures
        v@ == sp_lt_sp_s(),
{
    let v: Vec<u8> = vec![32u8, 60u8, 32u8];
    proof {
        assert(v@ =~= sp_lt_sp_s());
    }
    v
}

/// The token ` & `.
pub open spec fn sp_amp_sp_s() -> Seq<u8> {
    seq![32u8, 38u8, 32u8]
}

pub fn sp_amp_sp() -> (v: Vec<u8>)
    ensures
        v@ == sp_amp_sp_s(),
{
    let v: Vec<u8> = vec![32u8, 38u8, 32u8];
    proof {
        assert(v@ =~= sp_amp_sp_s());
    }
    v
}

/// The token ` (`.
pub open spec fn sp_lparen_s() -> Seq<u8> {
    seq![32u8, 40u8]
}

pub fn sp_lparen() -> (v: Vec<u8>)
    ensures
        v@ == sp_lparen_s(),
{
    let v: Vec<u8> = vec![32u8, 40u8];
    proof {
        assert(v@ =~= sp_lparen_s());
    }
    v
}

/// The token ` {`.
pub open spec fn sp_lbrace_s() -> Seq<u8> {
    seq![32u8, 123u8]
}

pub fn sp_lbrace() -> (v: Vec<u8>)
    ensures
        v@ == sp_lbrace_s(),
{
    let v: Vec<u8> = vec![32u8, 123u8];
    proof {
        assert(v@ =~= sp_lbrace_s());
    }
    v
}

/// The token ` %`.
pub open spec fn sp_percent_s() -> Seq<u8> {
    seq![32u8, 37u8]
}

pub fn sp_percent() -> (v: Vec<u8>)
    ensures
        v@ == sp_percent_s(),
{
    let v: Vec<u8> = vec![32u8, 37u8];
    proof {
        assert(v@ =~= sp_percent_s());
    }
    v
}

/// The token `) `.
pub open spec fn rparen_sp_s() -> Seq<u8> {
    seq![41u8, 32u8]
}

pub fn rparen_sp() -> (v: Vec<u8>)
    ensures
        v@ == rparen_sp_s(),
{
    let v: Vec<u8> = vec![41u8, 32u8];
    proof {
        assert(v@ =~= rparen_sp_s());
    }
    v
}

/// The token `%{`.
pub open spec fn block_open_s() -> Seq<u8> {
    seq![37u8, 123u8]
}

pub fn block_open() -> (v: Vec<u8>)
    ensures
        v@ == block_open_s(),
{
    let v: Vec<u8> = vec![37u8, 123u8];
    proof {
        assert(v@ =~= block_open_s());
    }
    v
}

/// The token `%}`.
pub open spec fn block_close_s() -> Seq<u8> {
    seq![37u8, 125u8]
}

pub fn block_close() -> (v: Vec<u8>)
    ensures
        v@ == block_close_s(),
{
    let v: Vec<u8> = vec![37u8, 125u8];
    proof {
        assert(v@ =~= block_close_s());
    }
    v
}

/// The token `%#`.
pub open spec fn pragma_mark_s() -> Seq<u8> {
    seq![37u8, 35u8]
}

pub fn pragma_mark() -> (v: Vec<u8>)
    ensures
        v@ == pragma_mark_s(),
{
    let v: Vec<u8> = vec![37u8, 35u8];
    proof {
        assert(v@ =~= pragma_mark_s());
    }
    v
}

/// The token `%%`.
pub open spec fn section_mark_s() -> Seq<u8> {
    seq![37u8, 37u8]
}

pub fn section_mark() -> (v: Vec<u8>)
    ensures
        v@ == section_mark_s(),
{
    let v: Vec<u8> = vec![37u8, 37u8];
    proof {
        assert(v@ =~= section_mark_s());
    }
    v
}

/// The token `get.`.
pub open spec fn get_dot_s() -> Seq<u8> {
    seq![103u8, 101u8, 116u8, 46u8]
}

pub fn get_dot() -> (v: Vec<u8>)
    ensures
        v@ == get_dot_s(),
{
    let v: Vec<u8> = vec![103u8, 101u8, 116u8, 46u8];
    proof {
        assert(v@ =~= get_dot_s());
    }
    v
}

/// The token `set.`.
pub open spec fn set_dot_s() -> Seq<u8> {
    seq![115u8, 101u8, 116u8, 46u8]
}

pub fn set_dot() -> (v: Vec<u8>)
    ensures
        v@ == set_dot_s(),
{
    let v: Vec<u8> = vec![115u8, 101u8, 116u8, 46u8];
    proof {
        assert(v@ =~= set_dot_s());
    }
    v
}

/// The token `cvx_begin`.
pub open spec fn cvx_begin_kw_s() -> Seq<u8> {
    seq![99u8, 118u8, 120u8, 95u8, 98u8, 101u8, 103u8, 105u8, 110u8]
}

pub fn cvx_begin_kw() -> (v: Vec<u8>)
    ensures
        v@ == cvx_begin_kw_s(),
{
    let v: Vec<u8> = vec![99u8, 118u8, 120u8, 95u8, 98u8, 101u8, 103u8, 105u8, 110u8];
    proof {
        assert(v@ =~= cvx_begin_kw_s());
    }
    v
}

/// The token `subject`.
pub open spec fn subject_kw_s() -> Seq<u8> {
    seq![115u8, 117u8, 98u8, 106u8, 101u8, 99u8, 116u8]
}

pub fn subject_kw() -> (v: Vec<u8>)
    ensures
        v@ == subject_kw_s(),
{
    let v: Vec<u8> = vec![115u8, 117u8, 98u8, 106u8, 101u8, 99u8, 116u8];
    proof {
        assert(v@ =~= subject_kw_s());
    }
    v
}

/// The token `cvx_end`.
pub open spec fn cvx_end_kw_s() -> Seq<u8> {
    seq![99u8, 118u8, 120u8, 95u8, 101u8, 110u8, 100u8]
}

pub fn cvx_end_kw() -> (v: Vec<u8>)
    ensures
        v@ == cvx_end_kw_s(),
{
    let v: Vec<u8> = vec![99u8, 118u8, 120u8, 95u8, 101u8, 110u8, 100u8];
    proof {
        assert(v@ =~= cvx_end_kw_s());
    }
    v
}

} // verus!
