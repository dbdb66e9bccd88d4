use vstd::prelude::*;

verus! {

/// Queue version pair used across Connect messages.
#[derive(Debug, Clone, Copy, PartialEq, Eq, Structural, Default)]
pub struct QueueVersion {
    pub major: u64,
    pub minor: u64,
}

/// `a + 1`, saturating at `u64::MAX`.
pub open spec fn saturating_succ(a: u64) -> u64 {
    if a == u64::MAX { a } else { (a + 1) as u64 }
}

impl QueueVersion {
    pub fn new(major: u64, minor: u64) -> (v: Self)
        ensures
            v.major == major,
            v.minor == minor,
    {
        Self { major, minor }
    }

    /// The next minor version: the major part is kept, the minor part
    /// grows by one and stays at `u64::MAX` once it is there.
    pub fn next_minor(self) -> (v: Self)
        ensures
            v.major == self.major,
            v.minor == saturating_succ(self.minor),
    {
        Self { major: self.major, minor: self.minor.saturating_add(1) }
    }
}

} // verus!
