//! Perimeter of an axis-aligned rectangle from two signed side lengths.
//!
//! The whole computation is `(longueur + largeur) * 2` over `i32`. Negative
//! side lengths are accepted and contribute arithmetically. Overflow policy:
//! inputs whose perimeter would leave the `i32` range are excluded by
//! precondition, so the arithmetic is exact, with no wrapping, no saturation
//! and no panic.

use vstd::prelude::*;

verus! {

/// The perimeter of a rectangle with sides `longueur` and `largeur`, over
/// unbounded integers: twice the sum of the two sides.
pub open spec fn perimetre(longueur: int, largeur: int) -> int {
    (longueur + largeur) * 2
}

/// Computes the perimeter of a rectangle from its two side lengths.
///
/// The result is exactly `(longueur + largeur) * 2`; the precondition rules
/// out the pairs whose perimeter does not fit in `i32`.
pub fn calculer_perimetre(longueur: i32, largeur: i32) -> (p: i32)
    requires
        i32::MIN <= perimetre(longueur as int, largeur as int) <= i32::MAX,
    ensures
        p == perimetre(longueur as int, largeur as int),
{
    (longueur + largeur) * 2
}

/// The perimeter is commutative in its two side lengths.
pub proof fn lemma_perimetre_commutatif(longueur: int, largeur: int)
    ensures
        perimetre(longueur, largeur) == perimetre(largeur, longueur),
{
}

/// The perimeter is a function of the side lengths alone: any two results
/// that meet the contract of `calculer_perimetre` for the same pair of sides
/// are equal.
pub proof fn lemma_perimetre_deterministe(longueur: i32, largeur: i32, p1: i32, p2: i32)
    requires
        p1 == perimetre(longueur as int, largeur as int),
        p2 == perimetre(longueur as int, largeur as int),
    ensures
        p1 == p2,
{
}

} // verus!
