use vstd::prelude::*;

verus! {

/// A total order on `Self`, supplied by the value type: the one comparison
/// capability needed to compute minimum, maximum and clamp.
pub trait TotalOrder: Sized {
    /// The ordering relation: `self` comes no later than `other`.
    spec fn le(self, other: Self) -> bool;

    proof fn reflexive(x: Self)
        ensures
            Self::le(x, x),
    ;

    proof fn transitive(x: Self, y: Self, z: Self)
        requires
            Self::le(x, y),
            Self::le(y, z),
        ensures
            Self::le(x, z),
    ;

    proof fn antisymmetric(x: Self, y: Self)
        requires
            Self::le(x, y),
            Self::le(y, x),
        ensures
            x == y,
    ;

    proof fn total(x: Self, y: Self)
        ensures
            Self::le(x, y) || Self::le(y, x),
    ;

    /// Executable comparison, agreeing with the ordering relation.
    fn le_exec(&self, other: &Self) -> (b: bool)
        ensures
            b == self.le(*other),
    ;
}

/// The greater of `a` and `b`; on equal values, `b`.
pub open spec fn spec_max<T: TotalOrder>(a: T, b: T) -> T {
    if a.le(b) {
        b
    } else {
        a
    }
}

/// The lesser of `a` and `b`; on equal values, `a`.
pub open spec fn spec_min<T: TotalOrder>(a: T, b: T) -> T {
    if a.le(b) {
        a
    } else {
        b
    }
}

/// `x` forced into the inclusive range `[lo, hi]`: `lo` where `x` comes
/// before `lo`, `hi` where `x` comes after `hi`, otherwise `x` itself.
pub open spec fn spec_clamp<T: TotalOrder>(x: T, lo: T, hi: T) -> T {
    if !lo.le(x) {
        lo
    } else if !x.le(hi) {
        hi
    } else {
        x
    }
}

/// `spec_max(a, b)` is the maximum of `a` and `b` under the order: it is one
/// of the two, and each of the two comes no later than it.
pub proof fn lemma_max_is_upper_bound<T: TotalOrder>(a: T, b: T)
    ensures
        spec_max(a, b) == a || spec_max(a, b) == b,
        a.le(spec_max(a, b)),
        b.le(spec_max(a, b)),
{
    T::total(a, b);
    T::reflexive(a);
    T::reflexive(b);
}

/// `spec_min(a, b)` is the minimum of `a` and `b` under the order: it is one
/// of the two, and it comes no later than either of the two.
pub proof fn lemma_min_is_lower_bound<T: TotalOrder>(a: T, b: T)
    ensures
        spec_min(a, b) == a || spec_min(a, b) == b,
        spec_min(a, b).le(a),
        spec_min(a, b).le(b),
{
    T::total(a, b);
    T::reflexive(a);
    T::reflexive(b);
}

/// For `lo` no later than `hi`, `spec_clamp(x, lo, hi)` lies in `[lo, hi]`,
/// and is `lo` where `x` comes strictly before `lo`, `hi` where `x` comes
/// strictly after `hi`, and `x` itself where `x` already lies in the range.
pub proof fn lemma_clamp_in_range<T: TotalOrder>(x: T, lo: T, hi: T)
    requires
        lo.le(hi),
    ensures
        lo.le(spec_clamp(x, lo, hi)),
        spec_clamp(x, lo, hi).le(hi),
        lo.le(x) && x.le(hi) ==> spec_clamp(x, lo, hi) == x,
        !lo.le(x) ==> spec_clamp(x, lo, hi) == lo,
        lo.le(x) && !x.le(hi) ==> spec_clamp(x, lo, hi) == hi,
{
    T::reflexive(lo);
    T::reflexive(hi);
}

/// Bounding a value by itself leaves it unchanged, and clamping to the
/// one-point range `[p, p]` forces any value to that point.
pub proof fn lemma_bound_idempotent<T: TotalOrder>(v: T, p: T)
    ensures
        spec_max(v, v) == v,
        spec_min(v, v) == v,
        spec_clamp(v, p, p) == p,
{
    if p.le(v) && v.le(p) {
        T::antisymmetric(v, p);
    }
}

/// An extension trait for mutating in-place versions of minimum, maximum and
/// clamp over a total order.
///
/// Each operation replaces the value behind `self` with the bounded value; no
/// other outcome is possible, since the comparison is verified never to fail.
pub trait OrdAssign: TotalOrder {
    /// Replace the value with the greater of itself and `other`.
    fn bound_at_least(&mut self, other: Self)
        ensures
            *final(self) == spec_max(*old(self), other),
    ;

    /// Replace the value with the lesser of itself and `other`.
    fn bound_at_most(&mut self, other: Self)
        ensures
            *final(self) == spec_min(*old(self), other),
    ;

    /// Replace the value with itself clamped into the inclusive range
    /// `[lo, hi]`.
    fn bound(&mut self, lo: Self, hi: Self)
        requires
            lo.le(hi),
        ensures
            *final(self) == spec_clamp(*old(self), lo, hi),
    ;
}

impl<T: TotalOrder> OrdAssign for T {
    fn bound_at_least(&mut self, other: Self) {
        if self.le_exec(&other) {
            *self = other;
        }
    }

    fn bound_at_most(&mut self, other: Self) {
        if !self.le_exec(&other) {
            *self = other;
        }
    }

    fn bound(&mut self, lo: Self, hi: Self) {
        if !lo.le_exec(self) {
            *self = lo;
        } else if !self.le_exec(&hi) {
            *self = hi;
        }
    }
}

impl TotalOrder for i32 {
    open spec fn le(self, other: Self) -> bool {
        self <= other
    }

    proof fn reflexive(x: Self) {
    }

    proof fn transitive(x: Self, y: Self, z: Self) {
    }

    proof fn antisymmetric(x: Self, y: Self) {
    }

    proof fn total(x: Self, y: Self) {
    }

    fn le_exec(&self, other: &Self) -> (b: bool) {
        *self <= *other
    }
}

impl TotalOrder for u64 {
    open spec fn le(self, other: Self) -> bool {
        self <= other
    }

    proof fn reflexive(x: Self) {
    }

    proof fn transitive(x: Self, y: Self, z: Self) {
    }

    proof fn antisymmetric(x: Self, y: Self) {
    }

    proof fn total(x: Self, y: Self) {
    }

    fn le_exec(&self, other: &Self) -> (b: bool) {
        *self <= *other
    }
}

impl TotalOrder for usize {
    open spec fn le(self, other: Self) -> bool {
        self <= other
    }

    proof fn reflexive(x: Self) {
    }

    proof fn transitive(x: Self, y: Self, z: Self) {
    }

    proof fn antisymmetric(x: Self, y: Self) {
    }

    proof fn total(x: Self, y: Self) {
    }

    fn le_exec(&self, other: &Self) -> (b: bool) {
        *self <= *other
    }
}

} // verus!
