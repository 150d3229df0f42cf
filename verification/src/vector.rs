//! The vector value type and its componentwise and geometric operations.

use vstd::prelude::*;

verus! {

/// Bit pattern of the 32-bit floating-point value zero.
pub const ZERO_BITS: u32 = 0x0000_0000;

/// Bit pattern of the 32-bit floating-point value one.
pub const ONE_BITS: u32 = 0x3F80_0000;

/// Bit pattern of the fixed tolerance of `approx_eq`: eight times the
/// machine epsilon of the 32-bit floating-point type, that is 2^-20. The
/// factor is an empirically chosen, provisional constant, not one derived
/// from a formal error bound.
pub const APPROX_EPSILON_BITS: u32 = 0x3580_0000;

/// A vector in 3-dimensional space. Each component holds the bit pattern of
/// a 32-bit floating-point number, so that copies are bit-for-bit and the
/// componentwise structure of every operation can be verified. The scalar
/// arithmetic itself is passed in by the caller as closures.
#[derive(Clone, Copy, Debug, PartialEq, Eq, Structural)]
pub struct Vec3f {
    c0: u32,
    c1: u32,
    c2: u32,
}

impl View for Vec3f {
    type V = Seq<u32>;

    closed spec fn view(&self) -> Seq<u32> {
        seq![self.c0, self.c1, self.c2]
    }
}

/// The vector whose components are the given sequence of three bit patterns.
pub closed spec fn spec_from_array(s: Seq<u32>) -> Vec3f {
    Vec3f { c0: s[0], c1: s[1], c2: s[2] }
}

impl Vec3f {
    /// Builds a vector from three scalar components, given as bit patterns.
    pub fn new(c0: u32, c1: u32, c2: u32) -> (r: Self)
        ensures
            r@ == seq![c0, c1, c2],
    {
        Vec3f { c0, c1, c2 }
    }

    /// Builds a vector with all three components equal to `s`.
    pub fn splat(s: u32) -> (r: Self)
        ensures
            r@ == seq![s, s, s],
    {
        Vec3f { c0: s, c1: s, c2: s }
    }

    /// The standard basis vector along the first axis: one, zero, zero.
    pub fn basis_0() -> (r: Self)
        ensures
            r@ == seq![ONE_BITS, ZERO_BITS, ZERO_BITS],
    {
        Vec3f { c0: ONE_BITS, c1: ZERO_BITS, c2: ZERO_BITS }
    }

    /// The standard basis vector along the second axis: zero, one, zero.
    pub fn basis_1() -> (r: Self)
        ensures
            r@ == seq![ZERO_BITS, ONE_BITS, ZERO_BITS],
    {
        Vec3f { c0: ZERO_BITS, c1: ONE_BITS, c2: ZERO_BITS }
    }

    /// The standard basis vector along the third axis: zero, zero, one.
    pub fn basis_2() -> (r: Self)
        ensures
            r@ == seq![ZERO_BITS, ZERO_BITS, ONE_BITS],
    {
        Vec3f { c0: ZERO_BITS, c1: ZERO_BITS, c2: ONE_BITS }
    }

    /// Reads the component at index `i` (0, 1 or 2). Any larger index is a
    /// contract violation: verified callers are stopped statically, and a
    /// caller that bypasses the contract panics rather than read a wrong
    /// component.
    pub fn index(&self, i: usize) -> (r: u32)
        requires
            i < 3,
        ensures
            r == self@[i as int],
    {
        if i == 0 {
            self.c0
        } else if i == 1 {
            self.c1
        } else if i == 2 {
            self.c2
        } else {
            unreached()
        }
    }

    /// Builds a vector whose components are the three elements of `a`,
    /// bit for bit and in order.
    pub fn from_array(a: [u32; 3]) -> (r: Self)
        ensures
            r == spec_from_array(a@),
            r@ == a@,
    {
        let r = Vec3f { c0: a[0], c1: a[1], c2: a[2] };
        proof {
            assert(r@ =~= a@);
        }
        r
    }

    /// Returns the three components as an array, bit for bit and in order.
    pub fn to_array(self) -> (r: [u32; 3])
        ensures
            r@ == self@,
    {
        let r = [self.c0, self.c1, self.c2];
        proof {
            assert(r@ =~= self@);
        }
        r
    }

    /// Replaces the component at index `i` (0, 1 or 2) with `v`, leaving the
    /// other two components unchanged. Any larger index is a contract
    /// violation: verified callers are stopped statically, and a caller that
    /// bypasses the contract panics rather than write elsewhere.
    pub fn set(&mut self, i: usize, v: u32)
        requires
            i < 3,
        ensures
            final(self)@ == old(self)@.update(i as int, v),
    {
        if i == 0 {
            self.c0 = v;
        } else if i == 1 {
            self.c1 = v;
        } else if i == 2 {
            self.c2 = v;
        } else {
            unreached::<()>();
        }
        proof {
            assert(self@ =~= old(self)@.update(i as int, v));
        }
    }
}

impl Vec3f {
    /// Applies `f` to each of the three components independently, preserving
    /// order, and returns the new vector; the receiver is unchanged.
    pub fn map<F: Fn(u32) -> u32>(self, f: F) -> (r: Self)
        requires
            call_requires(f, (self@[0],)),
            call_requires(f, (self@[1],)),
            call_requires(f, (self@[2],)),
        ensures
            r@.len() == 3,
            call_ensures(f, (self@[0],), r@[0]),
            call_ensures(f, (self@[1],), r@[1]),
            call_ensures(f, (self@[2],), r@[2]),
    {
        Vec3f { c0: f(self.c0), c1: f(self.c1), c2: f(self.c2) }
    }

    /// Applies `f` pairwise to corresponding components of `self` and
    /// `other`, returning the vector of the three results in order.
    pub fn zip_map<F: Fn(u32, u32) -> u32>(self, other: Self, f: F) -> (r: Self)
        requires
            call_requires(f, (self@[0], other@[0])),
            call_requires(f, (self@[1], other@[1])),
            call_requires(f, (self@[2], other@[2])),
        ensures
            r@.len() == 3,
            call_ensures(f, (self@[0], other@[0]), r@[0]),
            call_ensures(f, (self@[1], other@[1]), r@[1]),
            call_ensures(f, (self@[2], other@[2]), r@[2]),
    {
        Vec3f { c0: f(self.c0, other.c0), c1: f(self.c1, other.c1), c2: f(self.c2, other.c2) }
    }

    /// Replaces `self` with `self.zip_map(other, f)`: the in-place form goes
    /// through the very same code path as the value-returning one, so the two
    /// cannot diverge in ordering.
    pub fn zip_map_assign<F: Fn(u32, u32) -> u32>(&mut self, other: Self, f: F)
        requires
            call_requires(f, (old(self)@[0], other@[0])),
            call_requires(f, (old(self)@[1], other@[1])),
            call_requires(f, (old(self)@[2], other@[2])),
        ensures
            final(self)@.len() == 3,
            call_ensures(f, (old(self)@[0], other@[0]), final(self)@[0]),
            call_ensures(f, (old(self)@[1], other@[1]), final(self)@[1]),
            call_ensures(f, (old(self)@[2], other@[2]), final(self)@[2]),
    {
        let updated = (*self).zip_map(other, f);
        *self = updated;
    }

    /// Applies `f` to each component with the scalar `s` as the right-hand
    /// argument: the result's components satisfy `f(component, s)`.
    /// Equivalent to `zip_map` against `splat(s)`.
    pub fn splat_map<F: Fn(u32, u32) -> u32>(self, s: u32, f: F) -> (r: Self)
        requires
            call_requires(f, (self@[0], s)),
            call_requires(f, (self@[1], s)),
            call_requires(f, (self@[2], s)),
        ensures
            r@.len() == 3,
            call_ensures(f, (self@[0], s), r@[0]),
            call_ensures(f, (self@[1], s), r@[1]),
            call_ensures(f, (self@[2], s), r@[2]),
    {
        self.zip_map(Self::splat(s), f)
    }

    /// Applies `f` to each component with the scalar `s` as the left-hand
    /// argument: the result's components satisfy `f(s, component)`. The
    /// argument order is the one distinction from `splat_map`, and it is what
    /// makes scalar-left forms of non-commutative operators come out right.
    /// Equivalent to `splat(s).zip_map(self, f)`.
    pub fn splat_map_left<F: Fn(u32, u32) -> u32>(self, s: u32, f: F) -> (r: Self)
        requires
            call_requires(f, (s, self@[0])),
            call_requires(f, (s, self@[1])),
            call_requires(f, (s, self@[2])),
        ensures
            r@.len() == 3,
            call_ensures(f, (s, self@[0]), r@[0]),
            call_ensures(f, (s, self@[1]), r@[1]),
            call_ensures(f, (s, self@[2]), r@[2]),
    {
        Self::splat(s).zip_map(self, f)
    }

    /// Folds the three components left to right: the result is
    /// `f(f(c0, c1), c2)`.
    pub fn reduce<F: Fn(u32, u32) -> u32>(self, f: F) -> (r: u32)
        requires
            call_requires(f, (self@[0], self@[1])),
            forall|m: u32|
                call_ensures(f, (self@[0], self@[1]), m) ==> call_requires(f, (m, self@[2])),
        ensures
            exists|m: u32|
                #[trigger] call_ensures(f, (self@[0], self@[1]), m)
                    && call_ensures(f, (m, self@[2]), r),
    {
        let m = f(self.c0, self.c1);
        f(m, self.c2)
    }
}

/// Holds when `r` can be the dot product of `a` and `b` computed with the
/// scalar multiplication `times` and the scalar addition `plus`: there are
/// componentwise products `p0`, `p1`, `p2` that `plus` folds left to right
/// into `r`.
pub open spec fn dot_rel<M: Fn(u32, u32) -> u32, A: Fn(u32, u32) -> u32>(
    times: M,
    plus: A,
    a: Seq<u32>,
    b: Seq<u32>,
    r: u32,
) -> bool {
    exists|p0: u32, p1: u32, p2: u32, s: u32|
        #![trigger call_ensures(times, (a[0], b[0]), p0), call_ensures(times, (a[1], b[1]), p1), call_ensures(times, (a[2], b[2]), p2), call_ensures(plus, (p0, p1), s)]
        call_ensures(times, (a[0], b[0]), p0) && call_ensures(times, (a[1], b[1]), p1)
            && call_ensures(times, (a[2], b[2]), p2) && call_ensures(plus, (p0, p1), s)
            && call_ensures(plus, (s, p2), r)
}

/// Holds when `r` can be one component of the cross product: the difference,
/// by `minus`, of the product of `x1` and `y1` and the product of `x2` and
/// `y2`, in that order.
pub open spec fn cross_component_rel<M: Fn(u32, u32) -> u32, S: Fn(u32, u32) -> u32>(
    times: M,
    minus: S,
    x1: u32,
    y1: u32,
    x2: u32,
    y2: u32,
    r: u32,
) -> bool {
    exists|p: u32, q: u32|
        #![trigger call_ensures(times, (x1, y1), p), call_ensures(times, (x2, y2), q)]
        call_ensures(times, (x1, y1), p) && call_ensures(times, (x2, y2), q)
            && call_ensures(minus, (p, q), r)
}

/// Holds when `r` can be the right-handed cross product of `a` and `b`:
/// `(a1*b2 - a2*b1, a2*b0 - a0*b2, a0*b1 - a1*b0)`, with `times` as the
/// scalar multiplication and `minus` as the scalar subtraction.
pub open spec fn cross_rel<M: Fn(u32, u32) -> u32, S: Fn(u32, u32) -> u32>(
    times: M,
    minus: S,
    a: Seq<u32>,
    b: Seq<u32>,
    r: Seq<u32>,
) -> bool {
    &&& cross_component_rel(times, minus, a[1], b[2], a[2], b[1], r[0])
    &&& cross_component_rel(times, minus, a[2], b[0], a[0], b[2], r[1])
    &&& cross_component_rel(times, minus, a[0], b[1], a[1], b[0], r[2])
}

/// Holds when `r` can be the length of `a`: the square root, by `root`, of
/// some dot product of `a` with itself.
pub open spec fn length_rel<
    M: Fn(u32, u32) -> u32,
    A: Fn(u32, u32) -> u32,
    R: Fn(u32) -> u32,
>(times: M, plus: A, root: R, a: Seq<u32>, r: u32) -> bool {
    exists|sq: u32| #[trigger] dot_rel(times, plus, a, a, sq) && call_ensures(root, (sq,), r)
}

/// Holds when `total` can be the sum of the absolute componentwise
/// differences of `a` and `b`: differences by `minus`, magnitudes by
/// `abs_of`, folded left to right by `plus`.
pub open spec fn l1_diff_rel<
    S: Fn(u32, u32) -> u32,
    B: Fn(u32) -> u32,
    A: Fn(u32, u32) -> u32,
>(minus: S, abs_of: B, plus: A, a: Seq<u32>, b: Seq<u32>, total: u32) -> bool {
    exists|d0: u32, d1: u32, d2: u32, m0: u32, m1: u32, m2: u32, s: u32|
        #![trigger call_ensures(minus, (a[0], b[0]), d0), call_ensures(minus, (a[1], b[1]), d1), call_ensures(minus, (a[2], b[2]), d2), call_ensures(abs_of, (d0,), m0), call_ensures(abs_of, (d1,), m1), call_ensures(abs_of, (d2,), m2), call_ensures(plus, (m0, m1), s)]
        call_ensures(minus, (a[0], b[0]), d0) && call_ensures(minus, (a[1], b[1]), d1)
            && call_ensures(minus, (a[2], b[2]), d2) && call_ensures(abs_of, (d0,), m0)
            && call_ensures(abs_of, (d1,), m1) && call_ensures(abs_of, (d2,), m2)
            && call_ensures(plus, (m0, m1), s) && call_ensures(plus, (s, m2), total)
}

impl Vec3f {
    /// The dot product: the componentwise products by `times`, summed left to
    /// right by `plus`. Built from `zip_map` and `reduce`, so it cannot
    /// diverge from the combinators' semantics.
    pub fn dot<M: Fn(u32, u32) -> u32, A: Fn(u32, u32) -> u32>(
        self,
        other: Self,
        times: M,
        plus: A,
    ) -> (r: u32)
        requires
            forall|x: u32, y: u32| #[trigger] call_requires(times, (x, y)),
            forall|x: u32, y: u32| #[trigger] call_requires(plus, (x, y)),
        ensures
            dot_rel(times, plus, self@, other@, r),
    {
        let products = self.zip_map(other, times);
        let r = products.reduce(plus);
        proof {
            let s = choose|s: u32|
                #[trigger] call_ensures(plus, (products@[0], products@[1]), s)
                    && call_ensures(plus, (s, products@[2]), r);
            assert(dot_rel(times, plus, self@, other@, r));
        }
        r
    }

    /// The squared magnitude: exactly the dot product of the vector with
    /// itself.
    pub fn length_squared<M: Fn(u32, u32) -> u32, A: Fn(u32, u32) -> u32>(
        self,
        times: M,
        plus: A,
    ) -> (r: u32)
        requires
            forall|x: u32, y: u32| #[trigger] call_requires(times, (x, y)),
            forall|x: u32, y: u32| #[trigger] call_requires(plus, (x, y)),
        ensures
            dot_rel(times, plus, self@, self@, r),
    {
        self.dot(self, times, plus)
    }

    /// The magnitude: the square root, by `root`, of the squared magnitude.
    pub fn length<
        M: Fn(u32, u32) -> u32,
        A: Fn(u32, u32) -> u32,
        R: Fn(u32) -> u32,
    >(self, times: M, plus: A, root: R) -> (r: u32)
        requires
            forall|x: u32, y: u32| #[trigger] call_requires(times, (x, y)),
            forall|x: u32, y: u32| #[trigger] call_requires(plus, (x, y)),
            forall|x: u32| #[trigger] call_requires(root, (x,)),
        ensures
            length_rel(times, plus, root, self@, r),
    {
        let sq = self.length_squared(times, plus);
        root(sq)
    }

    /// The vector scaled by the reciprocal of its own length: each component
    /// is multiplied, on the right, by `divide(ONE_BITS, length)`. A vector
    /// of length zero is not guarded against: the caller's `divide` decides
    /// what a division by zero yields, as the floating-point standard does.
    pub fn normalized<
        M: Fn(u32, u32) -> u32 + Copy,
        A: Fn(u32, u32) -> u32,
        R: Fn(u32) -> u32,
        D: Fn(u32, u32) -> u32,
    >(self, times: M, plus: A, root: R, divide: D) -> (r: Self)
        requires
            forall|x: u32, y: u32| #[trigger] call_requires(times, (x, y)),
            forall|x: u32, y: u32| #[trigger] call_requires(plus, (x, y)),
            forall|x: u32| #[trigger] call_requires(root, (x,)),
            forall|x: u32, y: u32| #[trigger] call_requires(divide, (x, y)),
        ensures
            r@.len() == 3,
            exists|len: u32, inv: u32|
                #![trigger length_rel(times, plus, root, self@, len), call_ensures(divide, (ONE_BITS, len), inv)]
                length_rel(times, plus, root, self@, len)
                    && call_ensures(divide, (ONE_BITS, len), inv)
                    && call_ensures(times, (self@[0], inv), r@[0])
                    && call_ensures(times, (self@[1], inv), r@[1])
                    && call_ensures(times, (self@[2], inv), r@[2]),
    {
        let len = self.length(times, plus, root);
        let inv = divide(ONE_BITS, len);
        self.splat_map(inv, times)
    }

    /// The standard right-handed cross product,
    /// `(a1*b2 - a2*b1, a2*b0 - a0*b2, a0*b1 - a1*b0)`, with `times` as the
    /// scalar multiplication and `minus` as the scalar subtraction.
    pub fn cross<M: Fn(u32, u32) -> u32, S: Fn(u32, u32) -> u32>(
        self,
        other: Self,
        times: M,
        minus: S,
    ) -> (r: Self)
        requires
            forall|x: u32, y: u32| #[trigger] call_requires(times, (x, y)),
            forall|x: u32, y: u32| #[trigger] call_requires(minus, (x, y)),
        ensures
            r@.len() == 3,
            cross_rel(times, minus, self@, other@, r@),
    {
        let p0 = times(self.c1, other.c2);
        let q0 = times(self.c2, other.c1);
        let p1 = times(self.c2, other.c0);
        let q1 = times(self.c0, other.c2);
        let p2 = times(self.c0, other.c1);
        let q2 = times(self.c1, other.c0);
        Vec3f { c0: minus(p0, q0), c1: minus(p1, q1), c2: minus(p2, q2) }
    }

    /// True iff the sum of the absolute componentwise differences is, by
    /// `less`, strictly under the fixed tolerance `APPROX_EPSILON_BITS`. The
    /// aggregation is an L1 distance — differences by `minus`, magnitudes by
    /// `abs_of`, summed left to right by `plus` — not a Euclidean one.
    pub fn approx_eq<
        S: Fn(u32, u32) -> u32,
        B: Fn(u32) -> u32,
        A: Fn(u32, u32) -> u32,
        L: Fn(u32, u32) -> bool,
    >(self, other: Self, minus: S, abs_of: B, plus: A, less: L) -> (r: bool)
        requires
            forall|x: u32, y: u32| #[trigger] call_requires(minus, (x, y)),
            forall|x: u32| #[trigger] call_requires(abs_of, (x,)),
            forall|x: u32, y: u32| #[trigger] call_requires(plus, (x, y)),
            forall|x: u32, y: u32| #[trigger] call_requires(less, (x, y)),
        ensures
            exists|total: u32|
                #[trigger] l1_diff_rel(minus, abs_of, plus, self@, other@, total)
                    && call_ensures(less, (total, APPROX_EPSILON_BITS), r),
    {
        let diffs = self.zip_map(other, minus);
        let mags = diffs.map(abs_of);
        let total = mags.reduce(plus);
        proof {
            let s = choose|s: u32|
                #[trigger] call_ensures(plus, (mags@[0], mags@[1]), s)
                    && call_ensures(plus, (s, mags@[2]), total);
            assert(l1_diff_rel(minus, abs_of, plus, self@, other@, total));
        }
        less(total, APPROX_EPSILON_BITS)
    }
}

impl Default for Vec3f {
    /// The zero vector: every component is the zero bit pattern.
    fn default() -> (r: Self)
        ensures
            r@ == seq![ZERO_BITS, ZERO_BITS, ZERO_BITS],
    {
        Vec3f { c0: ZERO_BITS, c1: ZERO_BITS, c2: ZERO_BITS }
    }
}

/// Every vector views as a sequence of exactly three components.
pub proof fn lemma_view_len(v: Vec3f)
    ensures
        v@.len() == 3,
{
}

/// The array round trip, array first: building a vector from three
/// components and reading them back returns the components unchanged, bit
/// for bit.
pub proof fn lemma_array_round_trip(s: Seq<u32>)
    requires
        s.len() == 3,
    ensures
        spec_from_array(s)@ == s,
{
    assert(spec_from_array(s)@ =~= s);
}

/// The array round trip, vector first: a vector rebuilt from its own
/// components is the same vector.
pub proof fn lemma_vector_round_trip(v: Vec3f)
    ensures
        spec_from_array(v@) == v,
{
}

} // verus!
