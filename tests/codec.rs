use bridge_ledger::chain::{chain_id_from_str, chain_id_to_str, str_to_chain_id};
use bridge_ledger::instruction::{BridgeProgramInstruction, LockArgs, UnlockArgs};
use bridge_ledger::BridgeError;
use borsh::BorshSerialize;

fn lock_args() -> LockArgs {
    LockArgs { recipient: [7u8; 32], destination: *b"ETH\0", amount: 123456789, lock_id: 0x0102030405060708090a0b0c0d0e0f10 }
}

fn unlock_args() -> UnlockArgs {
    UnlockArgs {
        lock_id: 42,
        lock_source: *b"ETH\0",
        amount: 99,
        token_source: *b"BSC\0",
        token_source_address: [9u8; 32],
        secp_instruction_index: 3,
    }
}

#[test]
fn chain_id_is_zero_padded() {
    assert_eq!(str_to_chain_id("SOL"), *b"SOL\0");
    assert_eq!(str_to_chain_id("ETH"), [69, 84, 72, 0]);
    assert_eq!(str_to_chain_id(""), [0, 0, 0, 0]);
    assert_eq!(str_to_chain_id("ABCD"), *b"ABCD");
}

#[test]
fn long_chain_id_is_rejected() {
    assert_eq!(chain_id_from_str("ETHER"), Err(BridgeError::InvalidArgument));
    assert_eq!(chain_id_from_str("BSC"), Ok(*b"BSC\0"));
}

#[test]
fn chain_id_name_drops_padding() {
    assert_eq!(chain_id_to_str(b"ETH\0"), Ok(b"ETH".to_vec()));
    assert_eq!(chain_id_to_str(b"ABCD"), Ok(b"ABCD".to_vec()));
    assert_eq!(chain_id_to_str(&[0, 0, 0, 0]), Ok(vec![]));
    assert_eq!(chain_id_to_str(&[0xff, 0, 0, 0]), Err(BridgeError::InvalidArgument));
}

#[test]
fn simple_variants_encode_to_their_tag() {
    assert_eq!(BridgeProgramInstruction::InitBridge.to_bytes(), vec![0]);
    assert_eq!(BridgeProgramInstruction::AddToken.to_bytes(), vec![1]);
    assert_eq!(BridgeProgramInstruction::RemoveToken.to_bytes(), vec![2]);
}

#[test]
fn lock_encoding_matches_borsh_layout() {
    let a = lock_args();
    let bytes = BridgeProgramInstruction::Lock(a).to_bytes();
    let expected = (3u8, a.recipient, a.destination, a.amount, a.lock_id).try_to_vec().unwrap();
    assert_eq!(bytes, expected);
    assert_eq!(bytes.len(), 61);
}

#[test]
fn unlock_encoding_matches_borsh_layout() {
    let a = unlock_args();
    let bytes = BridgeProgramInstruction::Unlock(a).to_bytes();
    let expected = (
        4u8,
        a.lock_id,
        a.lock_source,
        a.amount,
        a.token_source,
        a.token_source_address,
        a.secp_instruction_index,
    )
        .try_to_vec()
        .unwrap();
    assert_eq!(bytes, expected);
    assert_eq!(bytes.len(), 66);
}

#[test]
fn every_variant_round_trips() {
    let all = vec![
        BridgeProgramInstruction::InitBridge,
        BridgeProgramInstruction::AddToken,
        BridgeProgramInstruction::RemoveToken,
        BridgeProgramInstruction::Lock(lock_args()),
        BridgeProgramInstruction::Unlock(unlock_args()),
    ];
    for i in all {
        let bytes = i.to_bytes();
        let decoded = BridgeProgramInstruction::from_bytes(&bytes).unwrap();
        assert_eq!(decoded.to_bytes(), bytes);
        assert_eq!(format!("{:?}", decoded), format!("{:?}", i));
    }
}

#[test]
fn decoded_lock_has_its_fields() {
    let bytes = BridgeProgramInstruction::Lock(lock_args()).to_bytes();
    match BridgeProgramInstruction::from_bytes(&bytes).unwrap() {
        BridgeProgramInstruction::Lock(a) => {
            assert_eq!(a.recipient, [7u8; 32]);
            assert_eq!(a.destination, *b"ETH\0");
            assert_eq!(a.amount, 123456789);
            assert_eq!(a.lock_id, 0x0102030405060708090a0b0c0d0e0f10);
        }
        other => panic!("unexpected {:?}", other),
    }
}

#[test]
fn decode_rejects_wrong_length_and_unknown_tag() {
    assert_eq!(BridgeProgramInstruction::from_bytes(&[]).unwrap_err(), BridgeError::InvalidArgument);
    assert_eq!(BridgeProgramInstruction::from_bytes(&[0, 0]).unwrap_err(), BridgeError::InvalidArgument);
    assert_eq!(BridgeProgramInstruction::from_bytes(&[5]).unwrap_err(), BridgeError::InvalidArgument);
    let mut bytes = BridgeProgramInstruction::Lock(lock_args()).to_bytes();
    bytes.push(0);
    assert_eq!(BridgeProgramInstruction::from_bytes(&bytes).unwrap_err(), BridgeError::InvalidArgument);
    bytes.truncate(60);
    assert_eq!(BridgeProgramInstruction::from_bytes(&bytes).unwrap_err(), BridgeError::InvalidArgument);
}
