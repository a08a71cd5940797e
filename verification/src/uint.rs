//! 256-bit unsigned amounts.

use vstd::prelude::*;

verus! {

/// The number that four 64-bit limbs stand for, least significant limb first.
pub open spec fn limbs_value(limbs: [u64; 4]) -> nat {
    (limbs[0] as nat) + (limbs[1] as nat) * 0x1_0000_0000_0000_0000nat + (limbs[2] as nat)
        * 0x1_0000_0000_0000_0000_0000_0000_0000_0000nat + (limbs[3] as nat)
        * 0x1_0000_0000_0000_0000_0000_0000_0000_0000_0000_0000_0000_0000nat
}

/// An unsigned 256-bit amount, held as four 64-bit limbs, least significant
/// first. Its view is the number itself.
#[derive(Clone, Copy, Debug, Eq, Hash)]
pub struct U256 {
    pub limbs: [u64; 4],
}

impl View for U256 {
    type V = nat;

    open spec fn view(&self) -> nat {
        limbs_value(self.limbs)
    }
}

impl PartialEq for U256 {
    fn eq(&self, other: &U256) -> (same: bool) {
        let same = self.limbs[0] == other.limbs[0] && self.limbs[1] == other.limbs[1]
            && self.limbs[2] == other.limbs[2] && self.limbs[3] == other.limbs[3];
        assert(same ==> self.limbs =~= other.limbs);
        same
    }
}

impl vstd::std_specs::cmp::PartialEqSpecImpl for U256 {
    open spec fn obeys_eq_spec() -> bool {
        true
    }

    open spec fn eq_spec(&self, other: &U256) -> bool {
        *self == *other
    }
}

impl U256 {
    /// The largest amount, 2^256 - 1.
    pub open spec fn max_value() -> nat {
        0xffff_ffff_ffff_ffff_ffff_ffff_ffff_ffff_ffff_ffff_ffff_ffff_ffff_ffff_ffff_ffffnat
    }

    /// The amount with the given limbs, least significant first.
    pub fn from_limbs(limbs: [u64; 4]) -> (r: U256)
        ensures
            r.limbs == limbs,
    {
        U256 { limbs }
    }

    /// The amount `x`.
    pub fn from_u128(x: u128) -> (r: U256)
        ensures
            r@ == x,
    {
        let low: u64 = (x % 0x1_0000_0000_0000_0000) as u64;
        let high: u64 = (x / 0x1_0000_0000_0000_0000) as u64;
        U256 { limbs: [low, high, 0, 0] }
    }

    /// The amount `x`.
    pub fn from_u64(x: u64) -> (r: U256)
        ensures
            r@ == x,
    {
        U256 { limbs: [x, 0, 0, 0] }
    }

    /// `self + rhs`, or `None` where the sum does not fit in 256 bits.
    pub fn checked_add(self, rhs: U256) -> (sum: Option<U256>)
        ensures
            sum is Some <==> self@ + rhs@ <= U256::max_value(),
            sum matches Some(s) ==> s@ == self@ + rhs@,
    {
        uint_checked_add(self, rhs)
    }

    /// `self - rhs`, or `None` where `rhs` is the larger.
    pub fn checked_sub(self, rhs: U256) -> (difference: Option<U256>)
        ensures
            difference is Some <==> rhs@ <= self@,
            difference matches Some(d) ==> d@ == self@ - rhs@,
    {
        uint_checked_sub(self, rhs)
    }

    /// Whether `self` is strictly less than `rhs`.
    pub fn lt(self, rhs: U256) -> (less: bool)
        ensures
            less == (self@ < rhs@),
    {
        uint_lt(self, rhs)
    }
}

/// `ruint::Uint::checked_add` at 256 bits (`alloy_primitives::U256`): the sum
/// of the two numbers where it is below 2^256, and `None` where the addition
/// carries out of the top limb. The limbs go in and come out as they are,
/// least significant first.
#[verifier::external_body]
fn uint_checked_add(a: U256, b: U256) -> (sum: Option<U256>)
    ensures
        sum is Some <==> a@ + b@ <= U256::max_value(),
        sum matches Some(s) ==> s@ == a@ + b@,
{
    let x = alloy_primitives::U256::from_limbs(a.limbs);
    let y = alloy_primitives::U256::from_limbs(b.limbs);
    match x.checked_add(y) {
        Some(s) => Some(U256 { limbs: s.into_limbs() }),
        None => None,
    }
}

/// `ruint::Uint::checked_sub` at 256 bits: the difference of the two numbers
/// where the second is not the larger, and `None` where the subtraction
/// borrows out of the top limb.
#[verifier::external_body]
fn uint_checked_sub(a: U256, b: U256) -> (difference: Option<U256>)
    ensures
        difference is Some <==> b@ <= a@,
        difference matches Some(d) ==> d@ == a@ - b@,
{
    let x = alloy_primitives::U256::from_limbs(a.limbs);
    let y = alloy_primitives::U256::from_limbs(b.limbs);
    match x.checked_sub(y) {
        Some(d) => Some(U256 { limbs: d.into_limbs() }),
        None => None,
    }
}

/// `PartialOrd::lt` of `ruint::Uint` at 256 bits, the `<` of
/// `alloy_primitives::U256`, which orders two values as the numbers they
/// stand for.
#[verifier::external_body]
fn uint_lt(a: U256, b: U256) -> (less: bool)
    ensures
        less == (a@ < b@),
{
    alloy_primitives::U256::from_limbs(a.limbs) < alloy_primitives::U256::from_limbs(b.limbs)
}

} // verus!
