//! The weight of database accesses.
use vstd::prelude::*;

verus! {

/// The weight of one database read and of one database write.
#[derive(Clone, Copy, Debug, PartialEq, Eq, Structural)]
pub struct RuntimeDbWeight {
    pub read: u64,
    pub write: u64,
}

/// `a * b`, or `u64::MAX` when the product does not fit.
pub open spec fn saturating_mul(a: int, b: int) -> int {
    if a * b > u64::MAX { u64::MAX as int } else { a * b }
}

/// `a + b`, or `u64::MAX` when the sum does not fit.
pub open spec fn saturating_add(a: int, b: int) -> int {
    if a + b > u64::MAX { u64::MAX as int } else { a + b }
}

/// The weight of `r` reads and `w` writes, saturating at `u64::MAX`.
pub open spec fn reads_writes_weight(db: RuntimeDbWeight, r: int, w: int) -> int {
    saturating_add(saturating_mul(db.read as int, r), saturating_mul(db.write as int, w))
}

impl RuntimeDbWeight {
    /// The weight of `r` reads and `w` writes.
    pub fn reads_writes(&self, r: u64, w: u64) -> (weight: u64)
        ensures
            weight == reads_writes_weight(*self, r as int, w as int),
    {
        let read_weight = match self.read.checked_mul(r) {
            Some(v) => v,
            None => u64::MAX,
        };
        let write_weight = match self.write.checked_mul(w) {
            Some(v) => v,
            None => u64::MAX,
        };
        read_weight.saturating_add(write_weight)
    }
}

} // verus!
