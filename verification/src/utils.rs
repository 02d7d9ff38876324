//! Axis adapters between the physics frame and a presentation frame.
//!
//! The engine works in a right-handed frame whose Z axis points up; a
//! presentation layer may want Y up instead. The two adapters are the
//! quarter turns about the X axis that carry one frame into the other. A
//! quarter turn only moves components and flips one sign, so it is exact on
//! encodings: nothing is rounded, and the adapters undo each other bit for
//! bit.
use crate::num::Num;
use crate::vector::Vec3;
use vstd::prelude::*;

verus! {

/// The quarter turn about X by `-pi/2`: `(x, y, z)` goes to `(x, z, -y)`.
pub open spec fn zup2yup_spec(p: Vec3) -> Vec3 {
    Vec3 { x: p.x, y: p.z, z: p.y.neg_spec() }
}

/// The quarter turn about X by `+pi/2`: `(x, y, z)` goes to `(x, -z, y)`.
pub open spec fn yup2zup_spec(p: Vec3) -> Vec3 {
    Vec3 { x: p.x, y: p.z.neg_spec(), z: p.y }
}

/// Carries a vector of the Z-up frame into the Y-up frame.
#[verifier::when_used_as_spec(zup2yup_spec)]
pub fn zup2yup(p: Vec3) -> (r: Vec3)
    ensures
        r == zup2yup_spec(p),
{
    Vec3 { x: p.x, y: p.z, z: p.y.neg() }
}

/// Carries a vector of the Y-up frame into the Z-up frame.
#[verifier::when_used_as_spec(yup2zup_spec)]
pub fn yup2zup(p: Vec3) -> (r: Vec3)
    ensures
        r == yup2zup_spec(p),
{
    Vec3 { x: p.x, y: p.z.neg(), z: p.y }
}

/// Negating twice gives back the encoding.
pub proof fn lemma_neg_involution(a: Num)
    ensures
        a.neg_spec().neg_spec() == a,
{
}

/// The adapters are inverse to each other, exactly: whatever the encodings
/// hold, NaNs and signed zeros included.
pub proof fn lemma_axis_round_trip(p: Vec3)
    ensures
        yup2zup_spec(zup2yup_spec(p)) == p,
        zup2yup_spec(yup2zup_spec(p)) == p,
{
    lemma_neg_involution(p.y);
    lemma_neg_involution(p.z);
}

/// The adapters are rotations: they keep the X component, keep the length,
/// and keep a finite vector finite.
pub proof fn lemma_axis_swap_is_rigid(p: Vec3)
    ensures
        zup2yup_spec(p).x == p.x,
        yup2zup_spec(p).x == p.x,
        zup2yup_spec(p).squared_length_units() == p.squared_length_units(),
        yup2zup_spec(p).squared_length_units() == p.squared_length_units(),
        zup2yup_spec(p).is_finite_spec() == p.is_finite_spec(),
        yup2zup_spec(p).is_finite_spec() == p.is_finite_spec(),
{
    let ny = p.y.neg_spec();
    let nz = p.z.neg_spec();
    assert(ny.magnitude_bits() == p.y.magnitude_bits());
    assert(nz.magnitude_bits() == p.z.magnitude_bits());
    assert(ny.units() == -p.y.units());
    assert(nz.units() == -p.z.units());
    assert(ny.units() * ny.units() == p.y.units() * p.y.units()) by (nonlinear_arith)
        requires
            ny.units() == -p.y.units(),
    ;
    assert(nz.units() * nz.units() == p.z.units() * p.z.units()) by (nonlinear_arith)
        requires
            nz.units() == -p.z.units(),
    ;
}

/// Four quarter turns in one direction are a full turn.
pub proof fn lemma_four_quarter_turns(p: Vec3)
    ensures
        zup2yup_spec(zup2yup_spec(zup2yup_spec(zup2yup_spec(p)))) == p,
        zup2yup_spec(zup2yup_spec(p)) == yup2zup_spec(yup2zup_spec(p)),
{
    lemma_neg_involution(p.y);
    lemma_neg_involution(p.z);
}

} // verus!
