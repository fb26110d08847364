//! The optional validity window a transaction carries.

use vstd::prelude::*;

use crate::primitives::{push_u64_be, spec_u64_be};

verus! {

/// Unix-timestamp window in which a transaction may be executed.  Only the
/// window's internal consistency is checked here; whether the present moment
/// falls inside it is the block builder's concern.
#[derive(Clone, Copy, PartialEq, Eq, Structural, Debug)]
pub struct TimeRange {
    pub valid_from: u64,
    pub valid_until: u64,
}

impl TimeRange {
    pub fn new(valid_from: u64, valid_until: u64) -> (r: TimeRange)
        ensures
            r.valid_from == valid_from,
            r.valid_until == valid_until,
    {
        TimeRange { valid_from, valid_until }
    }

    pub open spec fn spec_is_valid(self) -> bool {
        self.valid_from <= self.valid_until
    }

    /// The window is internally consistent: it opens no later than it
    /// closes.
    pub fn check_correctness(&self) -> (r: bool)
        ensures
            r == self.spec_is_valid(),
    {
        self.valid_from <= self.valid_until
    }

    pub open spec fn spec_bytes(self) -> Seq<u8> {
        spec_u64_be(self.valid_from) + spec_u64_be(self.valid_until)
    }

    /// Appends the sixteen-byte suffix of the canonical encodings.
    pub fn push_bytes(&self, out: &mut Vec<u8>)
        ensures
            final(out)@ == old(out)@ + self.spec_bytes(),
    {
        push_u64_be(out, self.valid_from);
        push_u64_be(out, self.valid_until);
        assert(final(out)@ =~= old(out)@ + self.spec_bytes());
    }
}

impl Default for TimeRange {
    /// The unbounded window.
    fn default() -> (r: Self)
        ensures
            r.valid_from == 0,
            r.valid_until == u64::MAX,
    {
        TimeRange { valid_from: 0, valid_until: u64::MAX }
    }
}

} // verus!
