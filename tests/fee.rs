use bridge_ledger::bridge::Bridge;
use bridge_ledger::{BridgeError, Pubkey};
use solana_program::native_token::sol_to_lamports;

fn key(b: u8) -> Pubkey {
    Pubkey([b; 32])
}

fn bridge_with(base_fee: u64, fee_multiplier: u64) -> Bridge {
    Bridge::new(key(1), key(2), key(3), 0, key(4), base_fee, key(5), fee_multiplier)
}

#[test]
fn test_calculate_fee() {
    let amount: u64 = sol_to_lamports(1.0);
    let base_fee: u64 = 30;
    let fee_multiplier: u64 = 200000;
    let pool_size: u64 = sol_to_lamports(100000.0);

    let bridge = bridge_with(base_fee, fee_multiplier);

    let stake_size = sol_to_lamports(0.0);
    assert_eq!(bridge.calculate_fee(amount, stake_size, pool_size).unwrap(), 3000000);

    let stake_size = sol_to_lamports(10.0);
    assert_eq!(bridge.calculate_fee(amount, stake_size, pool_size).unwrap(), 2830188);

    let stake_size = sol_to_lamports(30.0);
    assert_eq!(bridge.calculate_fee(amount, stake_size, pool_size).unwrap(), 2542373);

    let stake_size = sol_to_lamports(100.0);
    assert_eq!(bridge.calculate_fee(amount, stake_size, pool_size).unwrap(), 1875000);

    let stake_size = sol_to_lamports(300.0);
    assert_eq!(bridge.calculate_fee(amount, stake_size, pool_size).unwrap(), 1071428);

    let stake_size = sol_to_lamports(1000.0);
    assert_eq!(bridge.calculate_fee(amount, stake_size, pool_size).unwrap(), 428571);

    let stake_size = sol_to_lamports(10000.0);
    assert_eq!(bridge.calculate_fee(amount, stake_size, pool_size).unwrap(), 49180);

    let stake_size = sol_to_lamports(100000.0);
    assert_eq!(bridge.calculate_fee(amount, stake_size, pool_size).unwrap(), 4991);
}

#[test]
fn fee_is_zero_on_degenerate_inputs() {
    let bridge = bridge_with(30, 200000);
    assert_eq!(bridge.calculate_fee(1_000_000_000, 5, 0), Ok(0));
    assert_eq!(bridge.calculate_fee(0, 5, 100), Ok(0));
    let free = bridge_with(0, 200000);
    assert_eq!(free.calculate_fee(1_000_000_000, 5, 100), Ok(0));
}

#[test]
fn fee_exact_small_values() {
    // share = 2 * 3 * 10000 / 4 = 15000, adj = 10^8 / 100 = 10^6, fee = 7 * 10^4 / 1015000 = 0
    let bridge = bridge_with(100, 2);
    assert_eq!(bridge.calculate_fee(7, 3, 4), Ok(0));
    // adj = 10^8 / 10^4 = 10^4, share = 0, fee = 500 * 10^4 / 10^4 = 500
    let bridge = bridge_with(10000, 1);
    assert_eq!(bridge.calculate_fee(500, 0, 10), Ok(500));
}

#[test]
fn fee_decreases_with_stake() {
    let bridge = bridge_with(30, 200000);
    let small = bridge.calculate_fee(1_000_000, 10, 1000).unwrap();
    let large = bridge.calculate_fee(1_000_000, 900, 1000).unwrap();
    assert!(large < small);
}

#[test]
fn fee_overflow_is_reported() {
    let bridge = bridge_with(30, u64::MAX);
    assert_eq!(bridge.calculate_fee(1, u64::MAX, 1), Err(BridgeError::ArithmeticOverflow));
}

#[test]
fn fee_with_zero_divisor_is_reported() {
    // a rate above 10^8 basis points leaves the base adjustment at zero
    let bridge = bridge_with(200_000_000, 1);
    assert_eq!(bridge.calculate_fee(1, 0, 1), Err(BridgeError::ArithmeticOverflow));
}

#[test]
fn fee_truncates_to_u64() {
    // adj = 0 with rate 2 * 10^8, share = 1 * 1 * 10^4 / 10^4 = 1, fee = amount * 10^4
    let bridge = bridge_with(200_000_000, 1);
    let amount = u64::MAX;
    let expected = ((amount as u128) * 10000) as u64;
    assert_eq!(bridge.calculate_fee(amount, 1, 10000), Ok(expected));
}

#[test]
fn validator_check() {
    let bridge = Bridge::new(key(1), key(2), key(3), 0, key(4), 30, key(5), 1);
    assert_eq!(bridge.assert_validator(&key(2), &key(3)), Ok(()));
    assert_eq!(bridge.assert_validator(&key(2), &key(9)), Err(BridgeError::InvalidArgument));
    assert_eq!(bridge.assert_validator(&key(9), &key(3)), Err(BridgeError::InvalidArgument));
}
