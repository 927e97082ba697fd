//! Per-transfer records: one lock record for each outbound transfer and one
//! claim record for each inbound claim, keyed by a 64-bit lock id.
use vstd::bytes::*;
use vstd::prelude::*;

use crate::chain::BlockchainId;
use crate::wire::{push_slice, push_u64, read_array, read_u64};
use crate::{Address, BridgeError, Pubkey};

verus! {

/// The tag in the first byte of a per-transfer record.
#[derive(Clone, Copy, Debug, PartialEq, Eq, Structural)]
pub enum AccountKey {
    Uninitialized,
    Bridge,
    Token,
    Lock,
    Claimed,
}

impl AccountKey {
    /// The tag byte of this kind.
    pub open spec fn spec_tag(self) -> u8 {
        match self {
            AccountKey::Uninitialized => 0,
            AccountKey::Bridge => 1,
            AccountKey::Token => 2,
            AccountKey::Lock => 3,
            AccountKey::Claimed => 4,
        }
    }

    #[verifier::when_used_as_spec(spec_tag)]
    pub fn tag(self) -> (r: u8)
        ensures
            r == self.spec_tag(),
    {
        match self {
            AccountKey::Uninitialized => 0,
            AccountKey::Bridge => 1,
            AccountKey::Token => 2,
            AccountKey::Lock => 3,
            AccountKey::Claimed => 4,
        }
    }
}

/// Marks the transfer `lock_id` from chain `source` as claimed.
#[derive(Clone, Copy, Debug)]
pub struct Claimed {
    pub key: AccountKey,
    pub bridge: Pubkey,
    pub source: BlockchainId,
    pub lock_id: u64,
}

/// The audit trail of one outbound transfer.
#[derive(Clone, Copy, Debug)]
pub struct Lock {
    pub key: AccountKey,
    pub bridge: Pubkey,
    /// The bridge's lock counter when the record was made.
    pub index: u64,
    pub recipient: Address,
    pub destination: BlockchainId,
    pub amount: u64,
    pub token_source: BlockchainId,
    pub source_address: Address,
}

/// A token known to the bridge.
#[derive(Clone, Copy, Debug)]
pub struct Token {
    pub key: AccountKey,
    pub bridge: Pubkey,
    pub source: BlockchainId,
    pub source_address: Address,
    pub decimals: u8,
    pub symbol: [u8; 12],
    pub name: [u8; 32],
    pub mint: Pubkey,
    pub fee: u64,
    pub fee_collector: Pubkey,
    /// Whether the token is mapped to a local token although its source is elsewhere.
    pub is_wrapped: bool,
}

/// The stored layout of a claim record.
pub open spec fn claimed_bytes(c: Claimed) -> Seq<u8> {
    seq![c.key.spec_tag()] + c.bridge@ + c.source@ + spec_u64_to_le_bytes(c.lock_id)
}

/// The stored layout of a lock record.
pub open spec fn lock_record_bytes(l: Lock) -> Seq<u8> {
    seq![l.key.spec_tag()] + l.bridge@ + spec_u64_to_le_bytes(l.index) + l.recipient@
        + l.destination@ + spec_u64_to_le_bytes(l.amount) + l.token_source@ + l.source_address@
}

impl Claimed {
    /// Size of the stored record in bytes.
    pub const LEN: usize = 1 + 32 + 4 + 8;

    /// The stored bytes of this record.
    pub fn to_bytes(&self) -> (r: Vec<u8>)
        ensures
            r@ == claimed_bytes(*self),
            r@.len() == Self::LEN,
    {
        let mut out: Vec<u8> = Vec::new();
        out.push(self.key.tag());
        push_slice(&mut out, self.bridge.0.as_slice());
        push_slice(&mut out, self.source.as_slice());
        push_u64(&mut out, self.lock_id);
        proof {
            lemma_auto_spec_u64_to_from_le_bytes();
        }
        assert(out@ =~= claimed_bytes(*self));
        out
    }

    /// Loads a claim record: exactly `LEN` bytes tagged `Claimed`.
    pub fn from_account_info(data: &[u8]) -> (r: Result<Claimed, BridgeError>)
        ensures
            r is Ok <==> (data@.len() == Self::LEN && data@[0] == AccountKey::Claimed.spec_tag()),
            r is Err ==> r == Err::<Claimed, BridgeError>(BridgeError::InvalidAccountData),
            r matches Ok(c) ==> c.key == AccountKey::Claimed && claimed_bytes(c) == data@,
    {
        if data.len() != Self::LEN || data[0] != AccountKey::Claimed.tag() {
            return Err(BridgeError::InvalidAccountData);
        }
        let c = Claimed {
            key: AccountKey::Claimed,
            bridge: Pubkey(read_array(data, 1)),
            source: read_array(data, 33),
            lock_id: read_u64(data, 37),
        };
        assert(claimed_bytes(c) =~= data@);
        Ok(c)
    }
}

impl Lock {
    /// Size of the stored record in bytes.
    pub const LEN: usize = 1 + 32 + 8 + 32 + 4 + 8 + 4 + 32;

    /// The stored bytes of this record.
    pub fn to_bytes(&self) -> (r: Vec<u8>)
        ensures
            r@ == lock_record_bytes(*self),
            r@.len() == Self::LEN,
    {
        let mut out: Vec<u8> = Vec::new();
        out.push(self.key.tag());
        push_slice(&mut out, self.bridge.0.as_slice());
        push_u64(&mut out, self.index);
        push_slice(&mut out, self.recipient.as_slice());
        push_slice(&mut out, self.destination.as_slice());
        push_u64(&mut out, self.amount);
        push_slice(&mut out, self.token_source.as_slice());
        push_slice(&mut out, self.source_address.as_slice());
        proof {
            lemma_auto_spec_u64_to_from_le_bytes();
        }
        assert(out@ =~= lock_record_bytes(*self));
        out
    }

    /// Loads a lock record: exactly `LEN` bytes tagged `Lock`.
    pub fn from_account_info(data: &[u8]) -> (r: Result<Lock, BridgeError>)
        ensures
            r is Ok <==> (data@.len() == Self::LEN && data@[0] == AccountKey::Lock.spec_tag()),
            r is Err ==> r == Err::<Lock, BridgeError>(BridgeError::InvalidAccountData),
            r matches Ok(l) ==> l.key == AccountKey::Lock && lock_record_bytes(l) == data@,
    {
        if data.len() != Self::LEN || data[0] != AccountKey::Lock.tag() {
            return Err(BridgeError::InvalidAccountData);
        }
        let l = Lock {
            key: AccountKey::Lock,
            bridge: Pubkey(read_array(data, 1)),
            index: read_u64(data, 33),
            recipient: read_array(data, 41),
            destination: read_array(data, 73),
            amount: read_u64(data, 77),
            token_source: read_array(data, 85),
            source_address: read_array(data, 89),
        };
        assert(lock_record_bytes(l) =~= data@);
        Ok(l)
    }
}

} // verus!
