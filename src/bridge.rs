//! The bridge configuration record and its fee formula.
use vstd::prelude::*;

use vstd::arithmetic::div_mod::{lemma_div_is_ordered, lemma_div_is_ordered_by_denominator};
use vstd::bytes::*;

use crate::state::{try_from_slice_checked, AccountKey};
use crate::wire::{bool_byte, push_bool, push_slice, push_u64, read_array, read_bool, read_u64};
use crate::{BridgeError, Pubkey};

verus! {

/// Basis points in one whole.
pub const BP: u128 = 10000;

/// `BP * BP`.
pub const BP_SQUARED: u128 = 100000000;

/// Configuration of one bridge deployment.
#[derive(Clone, Copy, Debug)]
pub struct Bridge {
    pub key: AccountKey,
    /// Signs the privileged instructions.
    pub owner: Pubkey,
    pub token_manager: Pubkey,
    pub active: bool,
    pub validator_program_id: Pubkey,
    pub validator: Pubkey,
    pub authority_bump_seed: u8,
    pub unlock_signer: Pubkey,
    pub base_fee_rate_bp: u64,
    pub pool: Pubkey,
    pub fee_multiplier: u64,
}

/// The stored layout of a bridge record.
pub open spec fn bridge_bytes(b: Bridge) -> Seq<u8> {
    seq![b.key.spec_tag()] + b.owner@ + b.token_manager@ + seq![bool_byte(b.active)]
        + b.validator_program_id@ + b.validator@ + seq![b.authority_bump_seed] + b.unlock_signer@
        + spec_u64_to_le_bytes(b.base_fee_rate_bp) + b.pool@ + spec_u64_to_le_bytes(b.fee_multiplier)
}

/// Two bridge records with the same stored bytes are the same record, so
/// loading the bytes of `b` gives `b` back.
pub proof fn lemma_bridge_bytes_injective(b: Bridge, c: Bridge)
    requires
        bridge_bytes(b) == bridge_bytes(c),
        b.key == AccountKey::Bridge,
        c.key == AccountKey::Bridge,
    ensures
        b == c,
{
    lemma_auto_spec_u64_to_from_le_bytes();
    let x = bridge_bytes(b);
    let y = bridge_bytes(c);
    assert(x.subrange(1, 33) =~= b.owner@ && y.subrange(1, 33) =~= c.owner@);
    assert(x.subrange(33, 65) =~= b.token_manager@ && y.subrange(33, 65) =~= c.token_manager@);
    assert(x[65] == bool_byte(b.active) && y[65] == bool_byte(c.active));
    assert(x.subrange(66, 98) =~= b.validator_program_id@ && y.subrange(66, 98)
        =~= c.validator_program_id@);
    assert(x.subrange(98, 130) =~= b.validator@ && y.subrange(98, 130) =~= c.validator@);
    assert(x[130] == b.authority_bump_seed && y[130] == c.authority_bump_seed);
    assert(x.subrange(131, 163) =~= b.unlock_signer@ && y.subrange(131, 163) =~= c.unlock_signer@);
    assert(x.subrange(163, 171) =~= spec_u64_to_le_bytes(b.base_fee_rate_bp) && y.subrange(163, 171)
        =~= spec_u64_to_le_bytes(c.base_fee_rate_bp));
    assert(x.subrange(171, 203) =~= b.pool@ && y.subrange(171, 203) =~= c.pool@);
    assert(x.subrange(203, 211) =~= spec_u64_to_le_bytes(b.fee_multiplier) && y.subrange(203, 211)
        =~= spec_u64_to_le_bytes(c.fee_multiplier));
    assert(b.owner.0 =~= c.owner.0);
    assert(b.token_manager.0 =~= c.token_manager.0);
    assert(b.validator_program_id.0 =~= c.validator_program_id.0);
    assert(b.validator.0 =~= c.validator.0);
    assert(b.unlock_signer.0 =~= c.unlock_signer.0);
    assert(b.pool.0 =~= c.pool.0);
}

/// The fee for moving `amount` for a sender with `stake` out of a pool of
/// `pool` units, under a base rate of `rate` basis points and `multiplier`.
pub open spec fn fee_of(amount: u64, stake: u64, pool: u64, rate: u64, multiplier: u64) -> Result<
    u64,
    BridgeError,
> {
    if pool == 0 || amount == 0 || rate == 0 {
        Ok(0u64)
    } else if multiplier * stake * BP > u128::MAX {
        Err(BridgeError::ArithmeticOverflow)
    } else {
        let user_share_bp = (multiplier * stake * BP) as int / (pool as int);
        let base_fee_adj_bp = (BP_SQUARED as int) / (rate as int);
        let divisor = user_share_bp + base_fee_adj_bp;
        if divisor > u128::MAX || divisor == 0 {
            Err(BridgeError::ArithmeticOverflow)
        } else {
            Ok(((amount * BP) as int / divisor) as u64)
        }
    }
}

/// The fee before it is cut to 64 bits, for inputs on which `fee_of`
/// reaches the formula.
pub open spec fn fee_quotient(amount: u64, stake: u64, pool: u64, rate: u64, multiplier: u64) -> int {
    (amount * BP) as int / ((multiplier * stake * BP) as int / (pool as int) + (BP_SQUARED as int)
        / (rate as int))
}

/// A larger stake never raises the fee, and a larger amount never lowers it,
/// while the fee fits in 64 bits: the fee of (`amount1`, `stake2`) is at most
/// that of (`amount2`, `stake1`).
pub proof fn lemma_fee_monotone(
    amount1: u64,
    amount2: u64,
    stake1: u64,
    stake2: u64,
    pool: u64,
    rate: u64,
    multiplier: u64,
)
    requires
        amount1 <= amount2,
        stake1 <= stake2,
        fee_of(amount1, stake2, pool, rate, multiplier) is Ok,
        fee_of(amount2, stake1, pool, rate, multiplier) is Ok,
        pool > 0,
        amount1 > 0,
        rate > 0,
        fee_quotient(amount2, stake1, pool, rate, multiplier) <= u64::MAX,
    ensures
        fee_of(amount1, stake2, pool, rate, multiplier)->Ok_0 <= fee_of(
            amount2,
            stake1,
            pool,
            rate,
            multiplier,
        )->Ok_0,
{
    let m = multiplier as int;
    let p1 = m * stake1 * BP;
    let p2 = m * stake2 * BP;
    assert(p1 <= p2) by (nonlinear_arith)
        requires
            stake1 <= stake2,
            m >= 0,
            p1 == m * stake1 * BP,
            p2 == m * stake2 * BP,
    ;
    lemma_div_is_ordered(p1, p2, pool as int);
    let adj = (BP_SQUARED as int) / (rate as int);
    let d1 = p1 / (pool as int) + adj;
    let d2 = p2 / (pool as int) + adj;
    assert(d1 >= 1);
    lemma_div_is_ordered_by_denominator((amount1 * BP) as int, d1, d2);
    lemma_div_is_ordered((amount1 * BP) as int, (amount2 * BP) as int, d1);
    let q_low = (amount1 * BP) as int / d2;
    let q_high = (amount2 * BP) as int / d1;
    assert(0 <= q_low <= q_high);
    assert(q_high == fee_quotient(amount2, stake1, pool, rate, multiplier));
}

impl Bridge {
    /// Size of the stored record in bytes.
    pub const LEN: usize = 1 + 32 + 32 + 1 + 32 + 32 + 1 + 32 + 8 + 32 + 8;

    /// A fresh, active bridge whose token manager is its owner.
    pub fn new(
        owner: Pubkey,
        validator_program_id: Pubkey,
        validator: Pubkey,
        authority_bump_seed: u8,
        unlock_signer: Pubkey,
        base_fee_rate_bp: u64,
        pool: Pubkey,
        fee_multiplier: u64,
    ) -> (r: Bridge)
        ensures
            r == (Bridge {
                key: AccountKey::Bridge,
                owner,
                token_manager: owner,
                active: true,
                validator_program_id,
                validator,
                authority_bump_seed,
                unlock_signer,
                base_fee_rate_bp,
                pool,
                fee_multiplier,
            }),
    {
        Bridge {
            key: AccountKey::Bridge,
            owner,
            token_manager: owner,
            active: true,
            validator_program_id,
            validator,
            authority_bump_seed,
            unlock_signer,
            base_fee_rate_bp,
            pool,
            fee_multiplier,
        }
    }

    /// Loads a bridge record from the bytes of its slot.
    pub fn from_account_info(data: &[u8]) -> (r: Result<Bridge, BridgeError>)
        ensures
            r is Ok <==> (data@.len() == Self::LEN && data@[0] == AccountKey::Bridge.spec_tag()
                && data@[65] <= 1),
            !(data@.len() == Self::LEN && data@[0] == AccountKey::Bridge.spec_tag()) ==> r == Err::<
                Bridge,
                BridgeError,
            >(BridgeError::InvalidAccountData),
            data@.len() == Self::LEN && data@[0] == AccountKey::Bridge.spec_tag() && data@[65] > 1
                ==> r == Err::<Bridge, BridgeError>(BridgeError::InvalidEncoding),
            r matches Ok(b) ==> b.key == AccountKey::Bridge && bridge_bytes(b) == data@,
    {
        match try_from_slice_checked(data, AccountKey::Bridge, Self::LEN) {
            Ok(()) => {},
            Err(e) => return Err(e),
        }
        let active = match read_bool(data, 65) {
            Some(v) => v,
            None => return Err(BridgeError::InvalidEncoding),
        };
        let b = Bridge {
            key: AccountKey::Bridge,
            owner: Pubkey(read_array(data, 1)),
            token_manager: Pubkey(read_array(data, 33)),
            active,
            validator_program_id: Pubkey(read_array(data, 66)),
            validator: Pubkey(read_array(data, 98)),
            authority_bump_seed: data[130],
            unlock_signer: Pubkey(read_array(data, 131)),
            base_fee_rate_bp: read_u64(data, 163),
            pool: Pubkey(read_array(data, 171)),
            fee_multiplier: read_u64(data, 203),
        };
        assert(bridge_bytes(b) =~= data@);
        Ok(b)
    }

    /// The stored bytes of this record.
    pub fn to_bytes(&self) -> (r: Vec<u8>)
        ensures
            r@ == bridge_bytes(*self),
            r@.len() == Self::LEN,
    {
        let mut out: Vec<u8> = Vec::new();
        out.push(self.key.tag());
        push_slice(&mut out, self.owner.0.as_slice());
        push_slice(&mut out, self.token_manager.0.as_slice());
        push_bool(&mut out, self.active);
        push_slice(&mut out, self.validator_program_id.0.as_slice());
        push_slice(&mut out, self.validator.0.as_slice());
        out.push(self.authority_bump_seed);
        push_slice(&mut out, self.unlock_signer.0.as_slice());
        push_u64(&mut out, self.base_fee_rate_bp);
        push_slice(&mut out, self.pool.0.as_slice());
        push_u64(&mut out, self.fee_multiplier);
        proof {
            lemma_auto_spec_u64_to_from_le_bytes();
        }
        assert(out@ =~= bridge_bytes(*self));
        out
    }

    /// Succeeds exactly when both references name this bridge's validator.
    pub fn assert_validator(&self, validator_program_id: &Pubkey, validator: &Pubkey) -> (r: Result<
        (),
        BridgeError,
    >)
        ensures
            r is Ok <==> (self.validator_program_id@ == validator_program_id@
                && self.validator@ == validator@),
            r is Err ==> r == Err::<(), BridgeError>(BridgeError::InvalidArgument),
    {
        if !(self.validator_program_id == *validator_program_id) || !(self.validator == *validator) {
            return Err(BridgeError::InvalidArgument);
        }
        Ok(())
    }

    /// The bridge fee for a transfer, by the bonding-curve formula `fee_of`.
    pub fn calculate_fee(&self, transfer_amount: u64, stake_size: u64, pool_size: u64) -> (r: Result<
        u64,
        BridgeError,
    >)
        ensures
            r == fee_of(
                transfer_amount,
                stake_size,
                pool_size,
                self.base_fee_rate_bp,
                self.fee_multiplier,
            ),
            pool_size == 0 || transfer_amount == 0 || self.base_fee_rate_bp == 0 ==> r == Ok::<
                u64,
                BridgeError,
            >(0u64),
    {
        if pool_size == 0 || transfer_amount == 0 || self.base_fee_rate_bp == 0 {
            return Ok(0);
        }
        assert((self.fee_multiplier as u128) * (stake_size as u128) <= u128::MAX) by (nonlinear_arith)
            requires
                self.fee_multiplier <= u64::MAX,
                stake_size <= u64::MAX,
        ;
        let product = (self.fee_multiplier as u128) * (stake_size as u128);
        let user_share_bp = match product.checked_mul(BP) {
            Some(v) => v,
            None => return Err(BridgeError::ArithmeticOverflow),
        };
        let user_share_bp = user_share_bp / (pool_size as u128);
        let base_fee_adj_bp = BP_SQUARED / (self.base_fee_rate_bp as u128);
        let divisor = match user_share_bp.checked_add(base_fee_adj_bp) {
            Some(v) => v,
            None => return Err(BridgeError::ArithmeticOverflow),
        };
        if divisor == 0 {
            return Err(BridgeError::ArithmeticOverflow);
        }
        let amount_bp = (transfer_amount as u128) * BP;
        let result = amount_bp / divisor;
        Ok(#[verifier::truncate] (result as u64))
    }
}

} // verus!
