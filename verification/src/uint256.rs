use alloy_primitives::U256;
use vstd::prelude::*;

verus! {

/// A 256-bit unsigned integer, held as four 64-bit limbs, least significant first.
#[derive(Clone, Copy, Debug, PartialEq, Eq)]
pub struct Uint256 {
    pub limbs: [u64; 4],
}

/// `2^256`: one more than the largest value a `Uint256` can hold.
pub open spec fn modulus() -> nat {
    0x1_0000_0000_0000_0000_0000_0000_0000_0000_0000_0000_0000_0000_0000_0000_0000_0000nat
}

/// The number that four limbs stand for, least significant first.
pub open spec fn limbs_value(limbs: [u64; 4]) -> nat {
    (limbs[0] + limbs[1] * 0x1_0000_0000_0000_0000int + limbs[2]
        * 0x1_0000_0000_0000_0000_0000_0000_0000_0000int + limbs[3]
        * 0x1_0000_0000_0000_0000_0000_0000_0000_0000_0000_0000_0000_0000int) as nat
}

impl View for Uint256 {
    type V = nat;

    open spec fn view(&self) -> nat {
        limbs_value(self.limbs)
    }
}

impl Uint256 {
    /// The value zero.
    pub fn zero() -> (r: Uint256)
        ensures
            r@ == 0,
    {
        Uint256 { limbs: [0, 0, 0, 0] }
    }

    /// Widens a 64-bit number.
    pub fn from_u64(x: u64) -> (r: Uint256)
        ensures
            r@ == x,
    {
        Uint256 { limbs: [x, 0, 0, 0] }
    }

    /// Every value is below `2^256`.
    pub proof fn lemma_bounded(self)
        ensures
            self@ < modulus(),
    {
    }
}

/// Adds with `wrapping_add` of `alloy_primitives::U256`, which is `ruint::Uint<256, 4>`.
/// Each number is rebuilt from its limbs with `from_limbs`, and the sum is taken apart with
/// `into_limbs`. The contract claims that the limbs are read least significant first and
/// that the sum is reduced modulo `2^256`. Nothing here is proved of the outside code.
#[verifier::external_body]
pub(crate) fn wrapping_add(a: Uint256, b: Uint256) -> (r: Uint256)
    ensures
        r@ == (a@ + b@) % modulus(),
{
    Uint256 { limbs: U256::from_limbs(a.limbs).wrapping_add(U256::from_limbs(b.limbs)).into_limbs() }
}

/// Compares with `<` of `alloy_primitives::U256`, which is `ruint::Uint<256, 4>`. Each
/// number is rebuilt from its limbs with `from_limbs`. The contract claims that the result
/// is the order of the numbers that the limbs stand for. Nothing here is proved of the
/// outside code.
#[verifier::external_body]
pub(crate) fn less_than(a: Uint256, b: Uint256) -> (r: bool)
    ensures
        r == (a@ < b@),
{
    U256::from_limbs(a.limbs) < U256::from_limbs(b.limbs)
}

} // verus!
