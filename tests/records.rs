use bridge_ledger::asset::Asset;
use bridge_ledger::bridge::Bridge;
use bridge_ledger::records::{AccountKey as RecordKey, Claimed, Lock};
use bridge_ledger::state::{assert_rent_exempt, assert_uninitialized, try_from_slice_checked, AccountKey};
use bridge_ledger::{BridgeError, Pubkey};
use borsh::BorshSerialize;

fn key(b: u8) -> Pubkey {
    Pubkey([b; 32])
}

fn sample_asset(enabled: bool) -> Asset {
    Asset {
        key: AccountKey::Token,
        bridge: key(1),
        source: *b"ETH\0",
        source_address: [2u8; 32],
        decimals: 9,
        symbol: [3u8; 12],
        name: [4u8; 32],
        mint: key(5),
        token_account: key(6),
        min_fee: 1000,
        fee_collector: key(7),
        is_wrapped: true,
        enabled,
    }
}

#[test]
fn bridge_record_round_trips() {
    let b = Bridge::new(key(1), key(2), key(3), 254, key(4), 30, key(5), 200000);
    let bytes = b.to_bytes();
    assert_eq!(bytes.len(), Bridge::LEN);
    assert_eq!(Bridge::LEN, 211);
    assert_eq!(bytes[0], 1);
    let expected = (1u8, [1u8; 32], [1u8; 32], true, [2u8; 32], [3u8; 32], 254u8, [4u8; 32], 30u64, [5u8; 32], 200000u64)
        .try_to_vec()
        .unwrap();
    assert_eq!(bytes, expected);
    let back = Bridge::from_account_info(&bytes).unwrap();
    assert_eq!(back.to_bytes(), bytes);
    assert_eq!(back.owner, key(1));
    assert_eq!(back.token_manager, key(1));
    assert!(back.active);
    assert_eq!(back.fee_multiplier, 200000);
}

#[test]
fn bridge_record_rejects_bad_frames() {
    let bytes = Bridge::new(key(1), key(2), key(3), 0, key(4), 30, key(5), 1).to_bytes();
    let mut wrong_tag = bytes.clone();
    wrong_tag[0] = 3;
    assert_eq!(Bridge::from_account_info(&wrong_tag).unwrap_err(), BridgeError::InvalidAccountData);
    assert_eq!(Bridge::from_account_info(&bytes[..210]).unwrap_err(), BridgeError::InvalidAccountData);
    assert_eq!(Bridge::from_account_info(&[]).unwrap_err(), BridgeError::InvalidAccountData);
    let mut bad_flag = bytes.clone();
    bad_flag[65] = 2;
    assert_eq!(Bridge::from_account_info(&bad_flag).unwrap_err(), BridgeError::InvalidEncoding);
}

#[test]
fn asset_record_round_trips() {
    let a = sample_asset(true);
    let bytes = a.to_bytes();
    assert_eq!(Asset::LEN, 220);
    assert_eq!(bytes.len(), 220);
    let back = Asset::from_account_info(&bytes).unwrap();
    assert_eq!(back.to_bytes(), bytes);
    assert_eq!(back.min_fee, 1000);
    assert!(back.is_wrapped && back.enabled);
    let mut bad = bytes.clone();
    bad[219] = 7;
    assert_eq!(Asset::from_account_info(&bad).unwrap_err(), BridgeError::InvalidEncoding);
    bad[0] = 1;
    assert_eq!(Asset::from_account_info(&bad).unwrap_err(), BridgeError::InvalidAccountData);
}

#[test]
fn asset_reference_checks() {
    let a = sample_asset(true);
    assert_eq!(a.assert_bridge_account(&key(1)), Ok(()));
    assert_eq!(a.assert_bridge_account(&key(2)), Err(BridgeError::InvalidAccountData));
    assert_eq!(a.assert_token_account(&key(6)), Ok(()));
    assert_eq!(a.assert_token_account(&key(1)), Err(BridgeError::InvalidAccountData));
}

#[test]
fn framing_checks() {
    assert_eq!(try_from_slice_checked(&[1, 0, 0], AccountKey::Bridge, 3), Ok(()));
    assert_eq!(try_from_slice_checked(&[1, 0], AccountKey::Bridge, 3), Err(BridgeError::InvalidAccountData));
    assert_eq!(try_from_slice_checked(&[3, 0, 0], AccountKey::Bridge, 3), Err(BridgeError::InvalidAccountData));
    assert_eq!(try_from_slice_checked(&[], AccountKey::Uninitialized, 0), Err(BridgeError::InvalidAccountData));
    assert_eq!(assert_uninitialized(&[0, 5]), Ok(()));
    assert_eq!(assert_uninitialized(&[1, 0]), Err(BridgeError::AccountAlreadyInitialized));
    assert_eq!(assert_uninitialized(&[]), Err(BridgeError::AccountAlreadyInitialized));
    assert_eq!(assert_rent_exempt(10, 20, true), Err(BridgeError::AccountDataTooSmall));
    assert_eq!(assert_rent_exempt(20, 20, false), Err(BridgeError::AccountNotRentExempt));
    assert_eq!(assert_rent_exempt(30, 20, true), Ok(()));
}

#[test]
fn claim_and_lock_records_round_trip() {
    let c = Claimed { key: RecordKey::Claimed, bridge: key(1), source: *b"ETH\0", lock_id: 9 };
    let bytes = c.to_bytes();
    assert_eq!(bytes.len(), Claimed::LEN);
    assert_eq!(bytes, (4u8, [1u8; 32], *b"ETH\0", 9u64).try_to_vec().unwrap());
    let back = Claimed::from_account_info(&bytes).unwrap();
    assert_eq!(back.lock_id, 9);
    assert_eq!(back.source, *b"ETH\0");
    let l = Lock {
        key: RecordKey::Lock,
        bridge: key(1),
        index: 3,
        recipient: [2u8; 32],
        destination: *b"BSC\0",
        amount: 500,
        token_source: *b"SOL\0",
        source_address: [4u8; 32],
    };
    let bytes = l.to_bytes();
    assert_eq!(bytes.len(), Lock::LEN);
    let back = Lock::from_account_info(&bytes).unwrap();
    assert_eq!(back.to_bytes(), bytes);
    assert_eq!(Lock::from_account_info(&bytes[1..]).unwrap_err(), BridgeError::InvalidAccountData);
}
