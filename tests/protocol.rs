use bridge_ledger::asset::Asset;
use bridge_ledger::bridge::Bridge;
use bridge_ledger::instruction::{BridgeProgramInstruction, UnlockArgs};
use bridge_ledger::protocol::{check_claim, check_lock, claim, create_record, record_lock};
use bridge_ledger::records::Claimed;
use bridge_ledger::state::AccountKey;
use bridge_ledger::{BridgeError, Pubkey};

fn key(b: u8) -> Pubkey {
    Pubkey([b; 32])
}

fn asset(enabled: bool) -> Asset {
    Asset {
        key: AccountKey::Token,
        bridge: key(1),
        source: *b"SOL\0",
        source_address: [2u8; 32],
        decimals: 9,
        symbol: [0u8; 12],
        name: [0u8; 32],
        mint: key(5),
        token_account: key(6),
        min_fee: 0,
        fee_collector: key(7),
        is_wrapped: false,
        enabled,
    }
}

#[test]
fn second_claim_is_rejected_and_changes_nothing() {
    let mut slot = vec![0u8; Claimed::LEN + 3];
    let first = claim(&mut slot, &key(1), *b"ETH\0", 42).unwrap();
    assert_eq!(first.lock_id, 42);
    assert_eq!(slot[..Claimed::LEN].to_vec(), first.to_bytes());
    let after_first = slot.clone();
    assert_eq!(claim(&mut slot, &key(1), *b"ETH\0", 42).unwrap_err(), BridgeError::AccountAlreadyInitialized);
    assert_eq!(slot, after_first);
}

#[test]
fn claim_needs_room() {
    let mut slot = vec![0u8; 10];
    assert_eq!(claim(&mut slot, &key(1), *b"ETH\0", 1).unwrap_err(), BridgeError::AccountDataTooSmall);
    assert_eq!(slot, vec![0u8; 10]);
}

#[test]
fn duplicate_lock_id_is_rejected() {
    let mut slot = vec![0u8; 121];
    let l = record_lock(&mut slot, &key(1), 0, [3u8; 32], *b"BSC\0", 100, *b"SOL\0", [2u8; 32]).unwrap();
    assert_eq!(slot, l.to_bytes());
    let before = slot.clone();
    let again = record_lock(&mut slot, &key(1), 1, [3u8; 32], *b"BSC\0", 100, *b"SOL\0", [2u8; 32]);
    assert_eq!(again.unwrap_err(), BridgeError::AccountAlreadyInitialized);
    assert_eq!(slot, before);
}

#[test]
fn create_record_keeps_the_tail() {
    let mut slot = vec![0u8, 9, 9, 9];
    assert_eq!(create_record(&mut slot, &[5, 6]), Ok(()));
    assert_eq!(slot, vec![5, 6, 9, 9]);
}

#[test]
fn lock_with_disabled_asset_fails() {
    let bridge = Bridge::new(key(9), key(2), key(3), 0, key(4), 30, key(8), 200000);
    let r = check_lock(&bridge, &key(1), &asset(false), &key(5), &key(6), 1_000_000_000, 0, 100_000_000_000_000);
    assert_eq!(r.unwrap_err(), BridgeError::InvalidAccountData);
}

#[test]
fn lock_charges_the_fee() {
    let bridge = Bridge::new(key(9), key(2), key(3), 0, key(4), 30, key(8), 200000);
    let c = check_lock(&bridge, &key(1), &asset(true), &key(5), &key(6), 1_000_000_000, 0, 100_000_000_000_000).unwrap();
    assert_eq!(c.fee, 3000000);
    assert_eq!(c.net_amount, 997000000);
}

#[test]
fn lock_checks_references() {
    let bridge = Bridge::new(key(9), key(2), key(3), 0, key(4), 30, key(8), 200000);
    let a = asset(true);
    assert_eq!(check_lock(&bridge, &key(2), &a, &key(5), &key(6), 10, 0, 10).unwrap_err(), BridgeError::InvalidAccountData);
    assert_eq!(check_lock(&bridge, &key(1), &a, &key(4), &key(6), 10, 0, 10).unwrap_err(), BridgeError::InvalidAccountData);
    assert_eq!(check_lock(&bridge, &key(1), &a, &key(5), &key(7), 10, 0, 10).unwrap_err(), BridgeError::InvalidAccountData);
    let mut inactive = bridge;
    inactive.active = false;
    assert_eq!(check_lock(&inactive, &key(1), &a, &key(5), &key(6), 10, 0, 10).unwrap_err(), BridgeError::InvalidAccountData);
}

#[test]
fn lock_fee_above_amount_fails() {
    // rate 2 * 10^8 leaves the base adjustment at zero; share 1 makes the fee 10^4 times the amount
    let bridge = Bridge::new(key(9), key(2), key(3), 0, key(4), 200_000_000, key(8), 1);
    let r = check_lock(&bridge, &key(1), &asset(true), &key(5), &key(6), 10, 1, 10000);
    assert_eq!(r.unwrap_err(), BridgeError::ArithmeticOverflow);
}

fn claim_args() -> UnlockArgs {
    UnlockArgs {
        lock_id: 7,
        lock_source: *b"ETH\0",
        amount: 1000,
        token_source: *b"SOL\0",
        token_source_address: [2u8; 32],
        secp_instruction_index: 1,
    }
}

#[test]
fn claim_checks_signer_message_and_asset() {
    let bridge = Bridge::new(key(9), key(2), key(3), 0, key(4), 30, key(8), 200000);
    let args = claim_args();
    let wire = BridgeProgramInstruction::Unlock(args).to_bytes();
    let message = &wire[1..65];
    assert_eq!(message.len(), 64);
    let a = asset(true);
    assert_eq!(check_claim(&bridge, &key(1), &a, &key(5), &key(6), &args, &key(4), message), Ok(()));
    assert_eq!(
        check_claim(&bridge, &key(1), &a, &key(5), &key(6), &args, &key(3), message),
        Err(BridgeError::InvalidArgument)
    );
    let mut forged = message.to_vec();
    forged[20] ^= 1;
    assert_eq!(
        check_claim(&bridge, &key(1), &a, &key(5), &key(6), &args, &key(4), &forged),
        Err(BridgeError::InvalidArgument)
    );
    assert_eq!(
        check_claim(&bridge, &key(1), &a, &key(5), &key(6), &args, &key(4), &wire),
        Err(BridgeError::InvalidArgument)
    );
    assert_eq!(
        check_claim(&bridge, &key(1), &a, &key(7), &key(6), &args, &key(4), message),
        Err(BridgeError::InvalidAccountData)
    );
    let mut other = args;
    other.token_source = *b"BSC\0";
    let wire = BridgeProgramInstruction::Unlock(other).to_bytes();
    assert_eq!(
        check_claim(&bridge, &key(1), &a, &key(5), &key(6), &other, &key(4), &wire[1..65]),
        Err(BridgeError::InvalidAccountData)
    );
}
