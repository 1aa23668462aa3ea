use vstd::prelude::*;
use crate::lit::NL;

verus! {

/// The command-line options of the formatter.  Only the two spacing toggles
/// reach the rendering engine; `files` and `inplace` steer the caller.
pub struct Arguments {
    pub files: Vec<String>,
    pub sparse_math: bool,
    pub sparse_add: bool,
    pub inplace: bool,
}

/// The configuration the rendering engine reads: whether operators get
/// surrounding spaces, for all operators or for addition and subtraction only.
#[derive(Clone, Copy, PartialEq, Eq, Structural, Debug)]
pub struct Cfg {
    pub sparse_math: bool,
    pub sparse_add: bool,
}

impl Arguments {
    pub open spec fn cfg_spec(&self) -> Cfg {
        Cfg { sparse_math: self.sparse_math, sparse_add: self.sparse_add }
    }

    pub fn cfg(&self) -> (c: Cfg)
        ensures
            c == self.cfg_spec(),
    {
        Cfg { sparse_math: self.sparse_math, sparse_add: self.sparse_add }
    }
}

/// Mathematical image of the render state: the output accumulated so far and
/// the four cursors.
pub struct StV {
    pub out: Seq<u8>,
    pub col: int,
    pub row: int,
    pub level: int,
    pub extra: int,
}

/// Addition clamped to the machine range; every cursor update saturates, so
/// the renderer is total.
pub open spec fn sat(x: int) -> int {
    if x > usize::MAX as int {
        usize::MAX as int
    } else if x < 0 {
        0
    } else {
        x
    }
}

pub open spec fn spaces(n: int) -> Seq<u8> {
    Seq::new(if n >= 0 { n as nat } else { 0nat }, |i: int| 32u8)
}

/// Text appended to the output; the column advances by its length.
pub open spec fn sp_print(st: StV, s: Seq<u8>) -> StV {
    StV { out: st.out + s, col: sat(st.col + s.len()), ..st }
}

pub open spec fn sp_print_b(st: StV, b: u8) -> StV {
    sp_print(st, seq![b])
}

/// A line break: the column returns to zero and the row advances.
pub open spec fn sp_newline(st: StV) -> StV {
    StV { out: st.out.push(NL), col: 0, row: sat(st.row + 1), ..st }
}

/// A line break that the printed text itself already contained: only the
/// cursors move.
pub open spec fn sp_break(st: StV) -> StV {
    StV { col: 0, row: sat(st.row + 1), ..st }
}

/// The current indentation: four spaces per nesting level, then the extra
/// alignment column.
pub open spec fn sp_indent(st: StV) -> StV {
    sp_print(st, spaces(4 * st.level + st.extra))
}

pub open spec fn sp_set_extra(st: StV, v: int) -> StV {
    StV { extra: v, ..st }
}

/// First writer wins: the extra indentation is only latched while it is zero.
pub open spec fn sp_maybe_extra(st: StV, v: int) -> StV {
    if st.extra == 0 {
        StV { extra: v, ..st }
    } else {
        st
    }
}

pub open spec fn sp_set_level(st: StV, v: int) -> StV {
    StV { level: v, ..st }
}

pub open spec fn sp_inc_level(st: StV) -> StV {
    StV { level: sat(st.level + 1), ..st }
}

pub open spec fn sp_dec_level(st: StV) -> StV {
    StV { level: sat(st.level - 1), ..st }
}

/// The column the current token starts at, relative to the nominal
/// indentation: where continuation lines of this statement will be aligned.
pub open spec fn sp_align(st: StV) -> int {
    sat(st.col - sat(4 * st.level))
}

/// The render state threaded through the whole traversal: the output buffer
/// and the four cursors (current column, current row, nesting level, extra
/// alignment).
pub struct State {
    pub out: Vec<u8>,
    pub col: usize,
    pub row: usize,
    pub level: usize,
    pub extra: usize,
}

impl View for State {
    type V = StV;

    open spec fn view(&self) -> StV {
        StV {
            out: self.out@,
            col: self.col as int,
            row: self.row as int,
            level: self.level as int,
            extra: self.extra as int,
        }
    }
}

impl State {
    pub fn new() -> (s: State)
        ensures
            s@ == (StV { out: Seq::<u8>::empty(), col: 0, row: 0, level: 0, extra: 0 }),
    {
        let s = State { out: Vec::new(), col: 0, row: 0, level: 0, extra: 0 };
        proof {
            assert(s@.out =~= Seq::<u8>::empty());
        }
        s
    }

    pub fn print(&mut self, s: &Vec<u8>)
        ensures
            final(self)@ == sp_print(old(self)@, s@),
    {
        let mut i: usize = 0;
        while i < s.len()
            invariant
                i <= s@.len(),
                self.out@ == old(self)@.out + s@.subrange(0, i as int),
                self.col == old(self).col,
                self.row == old(self).row,
                self.level == old(self).level,
                self.extra == old(self).extra,
            decreases s@.len() - i,
        {
            self.out.push(s[i]);
            i = i + 1;
            proof {
                assert(old(self)@.out + s@.subrange(0, i as int) =~= (old(self)@.out + s@.subrange(
                    0,
                    i - 1,
                )).push(s@[i - 1]));
            }
        }
        proof {
            assert(old(self)@.out + s@.subrange(0, 0) =~= old(self)@.out);
            assert(s@.subrange(0, s@.len() as int) =~= s@);
        }
        self.col = self.col.saturating_add(s.len());
    }

    pub fn print_b(&mut self, b: u8)
        ensures
            final(self)@ == sp_print_b(old(self)@, b),
    {
        self.out.push(b);
        self.col = self.col.saturating_add(1);
        proof {
            assert(old(self)@.out.push(b) =~= old(self)@.out + seq![b]);
        }
    }

    /// Ends the current output line.
    pub fn newline(&mut self)
        ensures
            final(self)@ == sp_newline(old(self)@),
    {
        self.out.push(NL);
        self.col = 0;
        self.row = self.row.saturating_add(1);
    }

    pub fn println(&mut self, s: &Vec<u8>)
        ensures
            final(self)@ == sp_newline(sp_print(old(self)@, s@)),
    {
        self.print(s);
        self.newline();
    }

    /// Marks a line break that already stands in the printed text: only the
    /// cursors move.
    pub fn break_only(&mut self)
        ensures
            final(self)@ == sp_break(old(self)@),
    {
        self.col = 0;
        self.row = self.row.saturating_add(1);
    }

    pub fn indent(&mut self)
        ensures
            final(self)@ == sp_indent(old(self)@),
    {
        let mut i: usize = 0;
        while i < self.level
            invariant
                i <= self.level,
                self.out@ == old(self)@.out + spaces(4 * i),
                self.col == sat(old(self)@.col + 4 * i),
                self.row == old(self).row,
                self.level == old(self).level,
                self.extra == old(self).extra,
            decreases self.level - i,
        {
            self.out.push(32);
            self.out.push(32);
            self.out.push(32);
            self.out.push(32);
            self.col = self.col.saturating_add(4);
            i = i + 1;
            proof {
                assert((old(self)@.out + spaces(4 * (i - 1))).push(32).push(32).push(32).push(32)
                    =~= old(self)@.out + spaces(4 * i));
            }
        }
        let mut j: usize = 0;
        while j < self.extra
            invariant
                j <= self.extra,
                self.out@ == old(self)@.out + spaces(4 * self.level + j),
                self.col == sat(old(self)@.col + 4 * self.level + j),
                self.row == old(self).row,
                self.level == old(self).level,
                self.extra == old(self).extra,
            decreases self.extra - j,
        {
            self.out.push(32);
            self.col = self.col.saturating_add(1);
            j = j + 1;
            proof {
                assert((old(self)@.out + spaces(4 * self.level + j - 1)).push(32) =~= old(
                    self,
                )@.out + spaces(4 * self.level + j));
            }
        }
        proof {
            assert(old(self)@.out + spaces(0) =~= old(self)@.out);
        }
    }

    /// Latches the continuation-alignment column: the first request within a
    /// statement wins, later ones are no-ops until the next reset.
    pub fn maybe_set_extra_indentation(&mut self, value: usize)
        ensures
            final(self)@ == sp_maybe_extra(old(self)@, value as int),
    {
        if self.extra == 0 {
            self.extra = value;
        }
    }

    pub fn set_extra(&mut self, value: usize)
        ensures
            final(self)@ == sp_set_extra(old(self)@, value as int),
    {
        self.extra = value;
    }

    pub fn set_level(&mut self, value: usize)
        ensures
            final(self)@ == sp_set_level(old(self)@, value as int),
    {
        self.level = value;
    }

    pub fn inc_level(&mut self)
        ensures
            final(self)@ == sp_inc_level(old(self)@),
    {
        self.level = self.level.saturating_add(1);
    }

    pub fn dec_level(&mut self)
        ensures
            final(self)@ == sp_dec_level(old(self)@),
    {
        self.level = self.level.saturating_sub(1);
    }

    /// The alignment column of the token about to be printed.
    pub fn align(&self) -> (r: usize)
        ensures
            r as int == sp_align(self@),
    {
        let four: usize = match self.level.checked_mul(4) {
            Some(v) => v,
            None => usize::MAX,
        };
        self.col.saturating_sub(four)
    }
}

} // verus!
