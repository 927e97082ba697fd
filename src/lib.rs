//! Ledger core of a cross-chain token bridge.
use vstd::prelude::*;

pub mod address;
pub mod asset;
pub mod bridge;
pub mod chain;
pub mod instruction;
pub mod protocol;
pub mod records;
pub mod state;
pub mod wire;

verus! {

/// An address on another chain, opaque to this ledger.
pub type Address = [u8; 32];

/// A 32-byte account address.
#[derive(Clone, Copy, Debug)]
pub struct Pubkey(pub [u8; 32]);

impl View for Pubkey {
    type V = Seq<u8>;

    open spec fn view(&self) -> Seq<u8> {
        self.0@
    }
}

impl PartialEq for Pubkey {
    fn eq(&self, other: &Pubkey) -> (r: bool) {
        let mut i: usize = 0;
        while i < 32
            invariant
                i <= 32,
                forall|j: int| 0 <= j < i ==> self.0@[j] == other.0@[j],
            decreases 32 - i,
        {
            if self.0[i] != other.0[i] {
                return false;
            }
            i = i + 1;
        }
        assert(self.0@ =~= other.0@);
        true
    }
}

impl vstd::std_specs::cmp::PartialEqSpecImpl for Pubkey {
    open spec fn obeys_eq_spec() -> bool {
        true
    }

    open spec fn eq_spec(&self, other: &Pubkey) -> bool {
        self.0@ == other.0@
    }
}

/// Why an operation was refused.
#[derive(Clone, Copy, Debug, PartialEq, Eq, Structural)]
pub enum BridgeError {
    /// A malformed instruction payload, an out-of-range chain code, or a
    /// reference that does not match the bridge configuration.
    InvalidArgument,
    /// A record with the wrong tag or size, or a cross-reference mismatch.
    InvalidAccountData,
    /// The target slot already holds a record.
    AccountAlreadyInitialized,
    /// The target slot is smaller than the record it must hold.
    AccountDataTooSmall,
    /// The slot's balance is below the rent-exempt minimum.
    AccountNotRentExempt,
    /// An intermediate value of the fee computation does not fit in 128 bits,
    /// its divisor is zero, or the fee exceeds the amount it is taken from.
    ArithmeticOverflow,
    /// A record field holds a value outside its type (a flag other than 0 or 1).
    InvalidEncoding,
    /// No derived address could be found for the given seeds.
    AddressDerivationFailed,
}

} // verus!
