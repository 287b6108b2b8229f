//! Byte ranges: half-open intervals over the source text, with 32-bit
//! bounds on the owned side.
use vstd::prelude::*;
use vstd::std_specs::cmp::PartialEqSpecImpl;

verus! {

/// The bytes from `start` up to, not including, `end`.
#[derive(Clone, Copy, Debug, PartialEq, Eq, Structural)]
pub struct Range {
    pub start: u32,
    pub end: u32,
}

/// Both bounds of a native range can be held in 32 bits.
pub open spec fn range_fits(native: std::ops::Range<usize>) -> bool {
    native.start <= u32::MAX && native.end <= u32::MAX
}

/// The owned range with the bounds of `native`, cut to 32 bits.
pub open spec fn narrowed(native: std::ops::Range<usize>) -> Range {
    Range { start: native.start as u32, end: native.end as u32 }
}

/// The native range with the bounds of `abi`.
pub open spec fn widened(abi: Range) -> std::ops::Range<usize> {
    std::ops::Range { start: abi.start as usize, end: abi.end as usize }
}

impl Range {
    /// Narrows a native range. A bound beyond 32 bits has no counterpart,
    /// so such a range is not accepted.
    pub fn from(native: std::ops::Range<usize>) -> (abi: Range)
        requires
            range_fits(native),
        ensures
            abi == narrowed(native),
            abi.start == native.start,
            abi.end == native.end,
    {
        Range { start: native.start as u32, end: native.end as u32 }
    }

    /// Narrows a native range where both bounds fit in 32 bits, and says
    /// so where one does not.
    pub fn try_from(native: std::ops::Range<usize>) -> (abi: Option<Range>)
        ensures
            range_fits(native) ==> abi == Some(narrowed(native)),
            !range_fits(native) ==> abi is None,
    {
        if native.start <= 0xffff_ffff && native.end <= 0xffff_ffff {
            Some(Range::from(native))
        } else {
            None
        }
    }

    /// Widens to a native range with the same bounds.
    pub fn into(self) -> (native: std::ops::Range<usize>)
        ensures
            native == widened(self),
            native.start == self.start,
            native.end == self.end,
    {
        std::ops::Range { start: self.start as usize, end: self.end as usize }
    }
}

/// An owned range equals a native range exactly when it has the same two
/// bounds. A native range with a bound beyond 32 bits equals no owned
/// range.
impl PartialEq<std::ops::Range<usize>> for Range {
    fn eq(&self, native: &std::ops::Range<usize>) -> (same: bool) {
        self.start as usize == native.start && self.end as usize == native.end
    }
}

impl PartialEqSpecImpl<std::ops::Range<usize>> for Range {
    open spec fn obeys_eq_spec() -> bool {
        true
    }

    open spec fn eq_spec(&self, native: &std::ops::Range<usize>) -> bool {
        self.start == native.start && self.end == native.end
    }
}

/// An owned range has the bounds of a native range exactly when the
/// native range fits in 32 bits and narrows to it.
pub proof fn lemma_same_bounds(abi: Range, native: std::ops::Range<usize>)
    ensures
        (abi.start == native.start && abi.end == native.end) <==> (range_fits(native) && abi
            == narrowed(native)),
{
}

/// Narrowing succeeds on every range that ends within 32 bits, and
/// widening the result gives the range back: neither bound changes.
pub proof fn lemma_narrow_then_widen(native: std::ops::Range<usize>)
    requires
        native.start <= native.end,
        native.end <= u32::MAX,
    ensures
        range_fits(native),
        widened(narrowed(native)) == native,
{
}

/// Widening an owned range and narrowing the result gives the owned range
/// back.
pub proof fn lemma_widen_then_narrow(abi: Range)
    ensures
        range_fits(widened(abi)),
        narrowed(widened(abi)) == abi,
{
}

} // verus!
