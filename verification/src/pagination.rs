//! A pagination cursor for the read path: clamps a client-supplied range
//! request to explicit inclusive bounds and computes a safe result cap,
//! without overflow or panics on adversarial bounds.

use vstd::prelude::*;

verus! {

/// A type which can be used as a cursor, to make a sub-selection of items.
pub trait Cursor: Sized {
    /// The minimum value for the cursor.
    spec fn spec_min() -> Self;

    /// The maximum value for the cursor.
    spec fn spec_max() -> Self;

    /// The inclusive number of items between two points of the cursor.
    spec fn spec_distance(&self, other: &Self) -> nat;

    /// The minimum value for the cursor.
    fn min_value() -> (r: Self)
        ensures
            r == Self::spec_min(),
    ;

    /// The maximum value for the cursor.
    fn max_value() -> (r: Self)
        ensures
            r == Self::spec_max(),
    ;

    /// The number of items between two points in the cursor.
    fn distance_between(&self, other: &Self) -> (r: u64)
        ensures
            r as nat == self.spec_distance(other),
    ;
}

/// The difference `a - b` wrapped into the 64-bit signed range.
pub open spec fn i64_wrapping_sub(a: int, b: int) -> int {
    let d = a - b;
    if d < i64::MIN {
        d + 0x10000000000000000
    } else if d > i64::MAX {
        d - 0x10000000000000000
    } else {
        d
    }
}

/// The absolute value of an integer.
pub open spec fn abs_int(d: int) -> int {
    if d < 0 {
        -d
    } else {
        d
    }
}

impl Cursor for i64 {
    open spec fn spec_min() -> i64 {
        0
    }

    open spec fn spec_max() -> i64 {
        i64::MAX
    }

    /// The magnitude of the wrapped difference, plus one: the inclusive
    /// count of cursor points between the two, for in-range bounds.
    open spec fn spec_distance(&self, other: &Self) -> nat {
        (abs_int(i64_wrapping_sub(*self as int, *other as int)) + 1) as nat
    }

    fn min_value() -> i64 {
        0
    }

    fn max_value() -> i64 {
        i64::MAX
    }

    /// Computed with wrapping subtraction, so it never overflows, for any
    /// pair of bounds.
    fn distance_between(&self, other: &Self) -> (r: u64)
        ensures
            r as nat == self.spec_distance(other),
    {
        let d: i128 = *self as i128 - *other as i128;
        let w: i128 = if d > i64::MAX as i128 {
            d - 0x10000000000000000i128
        } else if d < i64::MIN as i128 {
            d + 0x10000000000000000i128
        } else {
            d
        };
        let a: u64 = if w < 0 {
            (-w) as u64
        } else {
            w as u64
        };
        a + 1
    }
}

/// An inclusive pagination range over a cursor type.
#[derive(Clone, Copy, Debug)]
pub struct Pagination<C> {
    pub start: C,
    pub stop: C,
}

impl<C: Cursor> Pagination<C> {
    /// Clamp a client-supplied request to explicit bounds: an absent bound
    /// becomes the cursor's sentinel minimum or maximum.
    pub fn new(start: Option<C>, stop: Option<C>) -> (r: Self)
        ensures
            (start matches Some(s) ==> r.start == s),
            (start is None ==> r.start == C::spec_min()),
            (stop matches Some(s) ==> r.stop == s),
            (stop is None ==> r.stop == C::spec_max()),
    {
        let start = match start {
            Some(s) => s,
            None => C::min_value(),
        };
        let stop = match stop {
            Some(s) => s,
            None => C::max_value(),
        };
        Pagination { start, stop }
    }

    /// The safe result cap: never more than the caller requested, and
    /// never more than the inclusive span between the bounds.
    pub fn limit(&self, no_more_than: u64) -> (r: u64)
        ensures
            r <= no_more_than,
            r as nat <= self.start.spec_distance(&self.stop),
            r as nat == self.start.spec_distance(&self.stop) || r == no_more_than,
    {
        let d = self.start.distance_between(&self.stop);
        if d < no_more_than {
            d
        } else {
            no_more_than
        }
    }
}

} // verus!
