//! The lock and claim transitions: validation, fee, and the exclusive
//! creation of the record that makes each transfer happen at most once.
use vstd::bytes::{lemma_auto_spec_u128_to_from_le_bytes, lemma_auto_spec_u64_to_from_le_bytes};
use vstd::prelude::*;

use crate::asset::Asset;
use crate::bridge::{fee_of, Bridge};
use crate::chain::{same_chain_id, BlockchainId};
use crate::instruction::{unlock_args_bytes, BridgeProgramInstruction, UnlockArgs};
use crate::records::{claimed_bytes, lock_record_bytes, AccountKey, Claimed, Lock};
use crate::state::assert_uninitialized;
use crate::{Address, BridgeError, Pubkey};

verus! {

/// The outcome of creating a record with bytes `record` in `slot`, and the
/// slot afterwards: refused unless the slot is still uninitialized and large
/// enough, in which case the record overwrites its first bytes.
pub open spec fn create_outcome(slot: Seq<u8>, record: Seq<u8>) -> (Result<(), BridgeError>, Seq<u8>) {
    if !(slot.len() > 0 && slot[0] == 0) {
        (Err(BridgeError::AccountAlreadyInitialized), slot)
    } else if slot.len() < record.len() {
        (Err(BridgeError::AccountDataTooSmall), slot)
    } else {
        (Ok(()), record + slot.subrange(record.len() as int, slot.len() as int))
    }
}

/// Creates a record in `slot` if the slot is still uninitialized.
pub fn create_record(slot: &mut Vec<u8>, record: &[u8]) -> (r: Result<(), BridgeError>)
    ensures
        (r, final(slot)@) == create_outcome(old(slot)@, record@),
{
    match assert_uninitialized(slot.as_slice()) {
        Ok(()) => {},
        Err(e) => return Err(e),
    }
    if slot.len() < record.len() {
        return Err(BridgeError::AccountDataTooSmall);
    }
    let ghost start = slot@;
    let mut i: usize = 0;
    while i < record.len()
        invariant
            record@.len() <= start.len(),
            slot@.len() == start.len(),
            i <= record@.len(),
            forall|j: int| 0 <= j < i ==> slot@[j] == record@[j],
            forall|j: int| i <= j < start.len() ==> slot@[j] == start[j],
        decreases record@.len() - i,
    {
        slot[i] = record[i];
        i = i + 1;
    }
    assert(slot@ =~= record@ + start.subrange(record@.len() as int, start.len() as int));
    Ok(())
}

/// The claim record of the transfer `lock_id` from chain `source`.
pub open spec fn claim_record(bridge: Pubkey, source: BlockchainId, lock_id: u64) -> Claimed {
    Claimed { key: AccountKey::Claimed, bridge, source, lock_id }
}

/// Claims the transfer `lock_id` from chain `source` by creating its claim
/// record in `slot`, the slot at the address derived from that pair. Fails
/// with `AccountAlreadyInitialized`, leaving the slot as it was, when the
/// slot already holds a record.
pub fn claim(slot: &mut Vec<u8>, bridge: &Pubkey, source: BlockchainId, lock_id: u64) -> (r: Result<
    Claimed,
    BridgeError,
>)
    ensures
        final(slot)@ == create_outcome(
            old(slot)@,
            claimed_bytes(claim_record(*bridge, source, lock_id)),
        ).1,
        create_outcome(old(slot)@, claimed_bytes(claim_record(*bridge, source, lock_id))).0
            matches Err(e) ==> r == Err::<Claimed, BridgeError>(e),
        create_outcome(old(slot)@, claimed_bytes(claim_record(*bridge, source, lock_id))).0 is Ok
            ==> r == Ok::<Claimed, BridgeError>(claim_record(*bridge, source, lock_id)),
{
    let record = Claimed { key: AccountKey::Claimed, bridge: *bridge, source, lock_id };
    let bytes = record.to_bytes();
    match create_record(slot, bytes.as_slice()) {
        Ok(()) => Ok(record),
        Err(e) => Err(e),
    }
}

/// A transfer is claimed at most once: after a claim of the transfer
/// `lock_id` from `source` has succeeded on a slot, claiming the same pair
/// again on that slot fails with `AccountAlreadyInitialized` and leaves the
/// slot unchanged, so no second payout follows.
pub proof fn lemma_claim_only_once(slot: Seq<u8>, bridge: Pubkey, source: BlockchainId, lock_id: u64)
    requires
        create_outcome(slot, claimed_bytes(claim_record(bridge, source, lock_id))).0 is Ok,
    ensures
        ({
            let record = claimed_bytes(claim_record(bridge, source, lock_id));
            let after = create_outcome(slot, record).1;
            create_outcome(after, record) == (
                Err::<(), BridgeError>(BridgeError::AccountAlreadyInitialized),
                after,
            )
        }),
{
    let record = claimed_bytes(claim_record(bridge, source, lock_id));
    let after = create_outcome(slot, record).1;
    assert(after[0] == record[0]);
}

/// What a lock moves: the fee to the fee collector, the rest to the bridge.
#[derive(Clone, Copy, Debug)]
pub struct LockCharge {
    pub fee: u64,
    pub net_amount: u64,
}

/// Whether a lock of `mint` into `bridge_token_account` may go ahead under
/// the bridge `bridge` stored at `bridge_key`.
pub open spec fn lock_allowed(
    bridge: Bridge,
    bridge_key: Pubkey,
    asset: Asset,
    mint: Pubkey,
    bridge_token_account: Pubkey,
) -> bool {
    &&& bridge.active
    &&& asset.bridge@ == bridge_key@
    &&& asset.mint@ == mint@
    &&& asset.token_account@ == bridge_token_account@
    &&& asset.enabled
}

/// Validates a lock of `amount` and splits it into fee and net amount. The
/// bridge must be active and the asset must be enabled, belong to the bridge
/// and match the supplied mint and token account.
pub fn check_lock(
    bridge: &Bridge,
    bridge_key: &Pubkey,
    asset: &Asset,
    mint: &Pubkey,
    bridge_token_account: &Pubkey,
    amount: u64,
    stake_size: u64,
    pool_size: u64,
) -> (r: Result<LockCharge, BridgeError>)
    ensures
        !lock_allowed(*bridge, *bridge_key, *asset, *mint, *bridge_token_account) ==> r == Err::<
            LockCharge,
            BridgeError,
        >(BridgeError::InvalidAccountData),
        !asset.enabled ==> r == Err::<LockCharge, BridgeError>(BridgeError::InvalidAccountData),
        lock_allowed(*bridge, *bridge_key, *asset, *mint, *bridge_token_account) ==> match fee_of(
            amount,
            stake_size,
            pool_size,
            bridge.base_fee_rate_bp,
            bridge.fee_multiplier,
        ) {
            Err(e) => r == Err::<LockCharge, BridgeError>(e),
            Ok(fee) => if fee <= amount {
                r == Ok::<LockCharge, BridgeError>(LockCharge { fee, net_amount: (amount - fee) as u64 })
            } else {
                r == Err::<LockCharge, BridgeError>(BridgeError::ArithmeticOverflow)
            },
        },
{
    if !bridge.active {
        return Err(BridgeError::InvalidAccountData);
    }
    match asset.assert_bridge_account(bridge_key) {
        Ok(()) => {},
        Err(e) => return Err(e),
    }
    if !(asset.mint == *mint) {
        return Err(BridgeError::InvalidAccountData);
    }
    match asset.assert_token_account(bridge_token_account) {
        Ok(()) => {},
        Err(e) => return Err(e),
    }
    if !asset.enabled {
        return Err(BridgeError::InvalidAccountData);
    }
    let fee = match bridge.calculate_fee(amount, stake_size, pool_size) {
        Ok(f) => f,
        Err(e) => return Err(e),
    };
    if fee > amount {
        return Err(BridgeError::ArithmeticOverflow);
    }
    Ok(LockCharge { fee, net_amount: amount - fee })
}

/// The lock record made for a transfer.
pub open spec fn lock_record(
    bridge: Pubkey,
    index: u64,
    recipient: Address,
    destination: BlockchainId,
    amount: u64,
    token_source: BlockchainId,
    source_address: Address,
) -> Lock {
    Lock {
        key: AccountKey::Lock,
        bridge,
        index,
        recipient,
        destination,
        amount,
        token_source,
        source_address,
    }
}

/// Records a lock by creating its record in `slot`, the slot at the address
/// derived from the lock id. A lock id that was used before finds its slot
/// initialized and fails with `AccountAlreadyInitialized`, leaving it as it was.
pub fn record_lock(
    slot: &mut Vec<u8>,
    bridge: &Pubkey,
    index: u64,
    recipient: Address,
    destination: BlockchainId,
    amount: u64,
    token_source: BlockchainId,
    source_address: Address,
) -> (r: Result<Lock, BridgeError>)
    ensures
        ({
            let l = lock_record(
                *bridge,
                index,
                recipient,
                destination,
                amount,
                token_source,
                source_address,
            );
            &&& final(slot)@ == create_outcome(old(slot)@, lock_record_bytes(l)).1
            &&& create_outcome(old(slot)@, lock_record_bytes(l)).0 matches Err(e) ==> r == Err::<
                Lock,
                BridgeError,
            >(e)
            &&& create_outcome(old(slot)@, lock_record_bytes(l)).0 is Ok ==> r == Ok::<
                Lock,
                BridgeError,
            >(l)
        }),
{
    let record = Lock {
        key: AccountKey::Lock,
        bridge: *bridge,
        index,
        recipient,
        destination,
        amount,
        token_source,
        source_address,
    };
    let bytes = record.to_bytes();
    match create_record(slot, bytes.as_slice()) {
        Ok(()) => Ok(record),
        Err(e) => Err(e),
    }
}

/// The message a claim's signer attests: the claim's fields in their wire
/// order, that is the unlock payload without its instruction index.
pub open spec fn claim_message(a: UnlockArgs) -> Seq<u8> {
    unlock_args_bytes(a).drop_last()
}

/// Whether the asset matches the token named by a claim and the accounts
/// supplied with it.
pub open spec fn claim_asset_matches(
    asset: Asset,
    bridge_key: Pubkey,
    args: UnlockArgs,
    mint: Pubkey,
    bridge_token_account: Pubkey,
) -> bool {
    &&& asset.bridge@ == bridge_key@
    &&& asset.source@ == args.token_source@
    &&& asset.source_address@ == args.token_source_address@
    &&& asset.mint@ == mint@
    &&& asset.token_account@ == bridge_token_account@
}

/// Checks a claim before anything changes: `signer`, the verified signer of
/// `message`, must be the bridge's unlock signer, `message` must attest the
/// claim's own fields, and the asset must match the claimed token and the
/// supplied accounts.
pub fn check_claim(
    bridge: &Bridge,
    bridge_key: &Pubkey,
    asset: &Asset,
    mint: &Pubkey,
    bridge_token_account: &Pubkey,
    args: &UnlockArgs,
    signer: &Pubkey,
    message: &[u8],
) -> (r: Result<(), BridgeError>)
    ensures
        signer@ != bridge.unlock_signer@ || message@ != claim_message(*args) ==> r == Err::<
            (),
            BridgeError,
        >(BridgeError::InvalidArgument),
        signer@ == bridge.unlock_signer@ && message@ == claim_message(*args) ==> (r is Ok
            <==> claim_asset_matches(*asset, *bridge_key, *args, *mint, *bridge_token_account)),
        r is Err ==> r == Err::<(), BridgeError>(BridgeError::InvalidArgument) || r == Err::<
            (),
            BridgeError,
        >(BridgeError::InvalidAccountData),
        signer@ == bridge.unlock_signer@ && message@ == claim_message(*args) && r is Err ==> r
            == Err::<(), BridgeError>(BridgeError::InvalidAccountData),
{
    if !(*signer == bridge.unlock_signer) {
        return Err(BridgeError::InvalidArgument);
    }
    let payload = BridgeProgramInstruction::Unlock(*args).to_bytes();
    assert(payload@ == seq![4u8] + unlock_args_bytes(*args));
    proof {
        lemma_auto_spec_u64_to_from_le_bytes();
        lemma_auto_spec_u128_to_from_le_bytes();
    }
    assert(claim_message(*args).len() == 64);
    if message.len() != 64 {
        return Err(BridgeError::InvalidArgument);
    }
    let mut i: usize = 0;
    while i < 64
        invariant
            message@.len() == 64,
            payload@ == seq![4u8] + unlock_args_bytes(*args),
            payload@.len() == 66,
            i <= 64,
            forall|j: int| 0 <= j < i ==> message@[j] == payload@[j + 1],
        decreases 64 - i,
    {
        if message[i] != payload[i + 1] {
            assert(message@[i as int] != claim_message(*args)[i as int]);
            return Err(BridgeError::InvalidArgument);
        }
        i = i + 1;
    }
    assert(message@ =~= claim_message(*args));
    match asset.assert_bridge_account(bridge_key) {
        Ok(()) => {},
        Err(e) => return Err(e),
    }
    if !same_chain_id(&asset.source, &args.token_source) {
        return Err(BridgeError::InvalidAccountData);
    }
    if !(Pubkey(asset.source_address) == Pubkey(args.token_source_address)) {
        return Err(BridgeError::InvalidAccountData);
    }
    if !(asset.mint == *mint) {
        return Err(BridgeError::InvalidAccountData);
    }
    asset.assert_token_account(bridge_token_account)
}

} // verus!
