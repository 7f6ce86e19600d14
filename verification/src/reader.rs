//! Verified core of the serial reader task: demarcating the raw byte stream
//! into lines, and turning one demarcated line into a reading to forward.
//!
//! The blocking reads themselves, and the channel that carries readings to
//! the controller, are unverified plumbing around these two pieces.

use vstd::prelude::*;

use crate::history::Reading;
use crate::parser::parse_radar_data;
use crate::parser::parse_spec;

verus! {

/// The byte that ends a line.
pub const NEWLINE: u8 = 10;

/// The byte dropped when it stands just before the newline.
pub const CARRIAGE_RETURN: u8 = 13;

/// What a run of pending bytes becomes once its newline arrives: the bytes
/// themselves, less a single trailing carriage return when there is one.
pub open spec fn completed_line(s: Seq<u8>) -> Seq<u8> {
    if s.len() > 0 && s.last() == CARRIAGE_RETURN {
        s.drop_last()
    } else {
        s
    }
}

/// Splits the serial byte stream into lines at each newline byte. Bytes
/// accumulate until a newline arrives; the newline itself is never kept.
pub struct LineSplitter {
    pending: Vec<u8>,
}

impl View for LineSplitter {
    type V = Seq<u8>;

    closed spec fn view(&self) -> Seq<u8> {
        self.pending@
    }
}

impl LineSplitter {
    /// A splitter with no pending bytes.
    pub fn new() -> (r: Self)
        ensures
            r@ == Seq::<u8>::empty(),
    {
        LineSplitter { pending: Vec::new() }
    }

    /// Feed one byte from the stream. A newline completes the pending bytes
    /// as a line and empties the splitter; any other byte is appended and no
    /// line comes out.
    pub fn feed(&mut self, b: u8) -> (line: Option<Vec<u8>>)
        ensures
            b == NEWLINE ==> (line matches Some(l) && l@ == completed_line(old(self)@)
                && final(self)@ == Seq::<u8>::empty()),
            b != NEWLINE ==> line is None && final(self)@ == old(self)@.push(b),
    {
        if b == NEWLINE {
            let len = self.pending.len();
            if len > 0 && self.pending[len - 1] == CARRIAGE_RETURN {
                self.pending.pop();
            }
            let mut out: Vec<u8> = Vec::new();
            core::mem::swap(&mut out, &mut self.pending);
            Some(out)
        } else {
            self.pending.push(b);
            None
        }
    }
}

/// One step of the reader task after demarcation: apply the line parser and
/// build the reading to forward to the controller, or nothing when the line
/// does not have the two-field shape.
pub fn process_line(line: &str) -> (r: Option<Reading>)
    ensures
        match r {
            Some(rd) => parse_spec(line@) == Some((rd.angle@, rd.distance@)),
            None => parse_spec(line@) is None,
        },
{
    match parse_radar_data(line) {
        Some(p) => Some(Reading { angle: p.0, distance: p.1 }),
        None => None,
    }
}

} // verus!
