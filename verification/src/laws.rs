//! Algebraic laws of the vector operations.
//!
//! The executable operations in `vector` are parameterized by scalar-function
//! closures and therefore carry relational contracts. This module states the
//! idealized model of each operation over mathematical scalar functions
//! (`spec_fn`), proves the laws that hold of that model, and proves bridge
//! lemmas: whenever the closures are deterministic, the relational contracts
//! pin the executable results down to exactly the model.

use vstd::prelude::*;

use crate::vector::cross_rel;
use crate::vector::dot_rel;

verus! {

/// The sequence of three copies of `s`.
pub open spec fn spec_splat(s: u32) -> Seq<u32> {
    seq![s, s, s]
}

/// `f` applied to each of the three components of `v`, in order.
pub open spec fn spec_map(v: Seq<u32>, f: spec_fn(u32) -> u32) -> Seq<u32> {
    seq![f(v[0]), f(v[1]), f(v[2])]
}

/// `f` applied pairwise to corresponding components of `a` and `b`.
pub open spec fn spec_zip_map(a: Seq<u32>, b: Seq<u32>, f: spec_fn(u32, u32) -> u32) -> Seq<u32> {
    seq![f(a[0], b[0]), f(a[1], b[1]), f(a[2], b[2])]
}

/// `f` applied to each component of `v` with the scalar `s` on the right.
pub open spec fn spec_splat_map(v: Seq<u32>, s: u32, f: spec_fn(u32, u32) -> u32) -> Seq<u32> {
    seq![f(v[0], s), f(v[1], s), f(v[2], s)]
}

/// `f` applied to each component of `v` with the scalar `s` on the left.
pub open spec fn spec_splat_map_left(s: u32, v: Seq<u32>, f: spec_fn(u32, u32) -> u32) -> Seq<
    u32,
> {
    seq![f(s, v[0]), f(s, v[1]), f(s, v[2])]
}

/// The three components of `v` folded left to right: `f(f(v0, v1), v2)`.
pub open spec fn spec_reduce(v: Seq<u32>, f: spec_fn(u32, u32) -> u32) -> u32 {
    f(f(v[0], v[1]), v[2])
}

/// The right-handed cross product of `a` and `b` over the scalar functions
/// `times` and `minus`: `(a1*b2 - a2*b1, a2*b0 - a0*b2, a0*b1 - a1*b0)`.
pub open spec fn spec_cross(
    a: Seq<u32>,
    b: Seq<u32>,
    times: spec_fn(u32, u32) -> u32,
    minus: spec_fn(u32, u32) -> u32,
) -> Seq<u32> {
    seq![
        minus(times(a[1], b[2]), times(a[2], b[1])),
        minus(times(a[2], b[0]), times(a[0], b[2])),
        minus(times(a[0], b[1]), times(a[1], b[0])),
    ]
}

/// The dot product of `a` and `b` over the scalar functions `times` and
/// `plus`: the componentwise products, folded left to right.
pub open spec fn spec_dot(
    a: Seq<u32>,
    b: Seq<u32>,
    times: spec_fn(u32, u32) -> u32,
    plus: spec_fn(u32, u32) -> u32,
) -> u32 {
    spec_reduce(spec_zip_map(a, b, times), plus)
}

/// Broadcasting a scalar on the right is the same as zipping against the
/// splatted scalar: `splat_map` adds nothing beyond `zip_map` and `splat`.
pub proof fn lemma_splat_map_matches_zip_map(v: Seq<u32>, s: u32, f: spec_fn(u32, u32) -> u32)
    requires
        v.len() == 3,
    ensures
        spec_splat_map(v, s, f) == spec_zip_map(v, spec_splat(s), f),
{
    assert(spec_splat_map(v, s, f) =~= spec_zip_map(v, spec_splat(s), f));
}

/// Broadcasting a scalar on the left is the same as zipping the splatted
/// scalar against the vector, with the scalar as the left-hand argument of
/// `f` throughout: the scalar-left form of a non-commutative operator is
/// exactly the splatted-vector form, never its mirror image.
pub proof fn lemma_splat_map_left_matches_zip_map(
    s: u32,
    v: Seq<u32>,
    f: spec_fn(u32, u32) -> u32,
)
    requires
        v.len() == 3,
    ensures
        spec_splat_map_left(s, v, f) == spec_zip_map(spec_splat(s), v, f),
{
    assert(spec_splat_map_left(s, v, f) =~= spec_zip_map(spec_splat(s), v, f));
}

/// Reading a component right after writing it yields the written value, and
/// reading any other component yields what stood there before: a write
/// touches exactly one component.
pub proof fn lemma_read_after_write(s: Seq<u32>, i: int, j: int, x: u32)
    requires
        s.len() == 3,
        0 <= i < 3,
        0 <= j < 3,
    ensures
        s.update(i, x)[i] == x,
        i != j ==> s.update(i, x)[j] == s[j],
{
}

/// Anti-commutativity of the cross-product formula: when the scalar
/// multiplication commutes and negating a difference swaps its operands,
/// exchanging the two vectors negates the cross product componentwise.
pub proof fn lemma_cross_antisymmetric(
    a: Seq<u32>,
    b: Seq<u32>,
    times: spec_fn(u32, u32) -> u32,
    minus: spec_fn(u32, u32) -> u32,
    neg_of: spec_fn(u32) -> u32,
)
    requires
        a.len() == 3,
        b.len() == 3,
        forall|x: u32, y: u32| #[trigger] times(x, y) == times(y, x),
        forall|x: u32, y: u32| #[trigger] neg_of(minus(x, y)) == minus(y, x),
    ensures
        spec_cross(a, b, times, minus) == spec_map(spec_cross(b, a, times, minus), neg_of),
{
    assert(neg_of(minus(times(b[1], a[2]), times(b[2], a[1]))) == minus(
        times(a[1], b[2]),
        times(a[2], b[1]),
    ));
    assert(neg_of(minus(times(b[2], a[0]), times(b[0], a[2]))) == minus(
        times(a[2], b[0]),
        times(a[0], b[2]),
    ));
    assert(neg_of(minus(times(b[0], a[1]), times(b[1], a[0]))) == minus(
        times(a[0], b[1]),
        times(a[1], b[0]),
    ));
    assert(spec_cross(a, b, times, minus) =~= spec_map(
        spec_cross(b, a, times, minus),
        neg_of,
    ));
}

/// Bridge for `zip_map`: when `f` is deterministic — every result it can
/// return equals `g` of the arguments — the relational contract of `zip_map`
/// admits exactly one result vector, the componentwise application of `g`.
pub proof fn lemma_zip_map_deterministic<F: Fn(u32, u32) -> u32>(
    f: F,
    g: spec_fn(u32, u32) -> u32,
    a: Seq<u32>,
    b: Seq<u32>,
    r: Seq<u32>,
)
    requires
        a.len() == 3,
        b.len() == 3,
        r.len() == 3,
        forall|x: u32, y: u32, z: u32| #[trigger] call_ensures(f, (x, y), z) ==> z == g(x, y),
        call_ensures(f, (a[0], b[0]), r[0]),
        call_ensures(f, (a[1], b[1]), r[1]),
        call_ensures(f, (a[2], b[2]), r[2]),
    ensures
        r == spec_zip_map(a, b, g),
{
    assert(r =~= spec_zip_map(a, b, g));
}

/// Bridge for `cross`: when the multiplication and subtraction closures are
/// deterministic, the relational contract of `cross` admits exactly one
/// result, the model cross product of the two vectors.
pub proof fn lemma_cross_deterministic<M: Fn(u32, u32) -> u32, S: Fn(u32, u32) -> u32>(
    times: M,
    minus: S,
    times_spec: spec_fn(u32, u32) -> u32,
    minus_spec: spec_fn(u32, u32) -> u32,
    a: Seq<u32>,
    b: Seq<u32>,
    r: Seq<u32>,
)
    requires
        a.len() == 3,
        b.len() == 3,
        r.len() == 3,
        forall|x: u32, y: u32, z: u32|
            #[trigger] call_ensures(times, (x, y), z) ==> z == times_spec(x, y),
        forall|x: u32, y: u32, z: u32|
            #[trigger] call_ensures(minus, (x, y), z) ==> z == minus_spec(x, y),
        cross_rel(times, minus, a, b, r),
    ensures
        r == spec_cross(a, b, times_spec, minus_spec),
{
    assert(r =~= spec_cross(a, b, times_spec, minus_spec));
}

/// Bridge for `dot`: when the multiplication and addition closures are
/// deterministic, the relational contract of `dot` admits exactly one
/// result, the model dot product of the two vectors.
pub proof fn lemma_dot_deterministic<M: Fn(u32, u32) -> u32, A: Fn(u32, u32) -> u32>(
    times: M,
    plus: A,
    times_spec: spec_fn(u32, u32) -> u32,
    plus_spec: spec_fn(u32, u32) -> u32,
    a: Seq<u32>,
    b: Seq<u32>,
    r: u32,
)
    requires
        a.len() == 3,
        b.len() == 3,
        forall|x: u32, y: u32, z: u32|
            #[trigger] call_ensures(times, (x, y), z) ==> z == times_spec(x, y),
        forall|x: u32, y: u32, z: u32|
            #[trigger] call_ensures(plus, (x, y), z) ==> z == plus_spec(x, y),
        dot_rel(times, plus, a, b, r),
    ensures
        r == spec_dot(a, b, times_spec, plus_spec),
{
}

} // verus!
