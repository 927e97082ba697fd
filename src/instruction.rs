//! Instructions: their wire form and the account lists that go with them.
use vstd::bytes::*;
use vstd::prelude::*;

use vstd::string::StringSliceAdditionalSpecFns;

use crate::address::{derived_key, seeds_to_pubkey};
use crate::asset::{asset_prefix, asset_seed, Asset};
use crate::chain::{all_ascii, chain_id_from_str, chain_id_of, chain_name, BlockchainId};
use crate::wire::{push_slice, push_u128, push_u64, read_array, read_u128, read_u64};
use crate::{Address, BridgeError, Pubkey};

verus! {

broadcast use vstd::array::group_array_axioms;

/// Lock id of a transfer, unique on its source chain.
pub type LockId = u128;

/// Payload of a lock (send) instruction.
#[derive(Clone, Copy, Debug)]
pub struct LockArgs {
    pub recipient: Address,
    pub destination: BlockchainId,
    pub amount: u64,
    pub lock_id: LockId,
}

/// Payload of an unlock (claim) instruction.
#[derive(Clone, Copy, Debug)]
pub struct UnlockArgs {
    pub lock_id: LockId,
    pub lock_source: BlockchainId,
    pub amount: u64,
    pub token_source: BlockchainId,
    pub token_source_address: Address,
    /// Which instruction of the same batch carries the verified signature.
    pub secp_instruction_index: u8,
}

/// The instructions of the bridge program.
#[derive(Clone, Copy, Debug)]
pub enum BridgeProgramInstruction {
    /// Initializes a new bridge record.
    InitBridge,
    AddToken,
    RemoveToken,
    /// Locks (sends) tokens.
    Lock(LockArgs),
    /// Unlocks (receives) tokens.
    Unlock(UnlockArgs),
}

/// Payload bytes of a lock instruction.
pub open spec fn lock_args_bytes(a: LockArgs) -> Seq<u8> {
    a.recipient@ + a.destination@ + spec_u64_to_le_bytes(a.amount) + spec_u128_to_le_bytes(
        a.lock_id,
    )
}

/// Payload bytes of an unlock instruction.
pub open spec fn unlock_args_bytes(a: UnlockArgs) -> Seq<u8> {
    spec_u128_to_le_bytes(a.lock_id) + a.lock_source@ + spec_u64_to_le_bytes(a.amount)
        + a.token_source@ + a.token_source_address@ + seq![a.secp_instruction_index]
}

/// The wire form: a variant byte, then the variant's fixed payload.
pub open spec fn instruction_bytes(i: BridgeProgramInstruction) -> Seq<u8> {
    match i {
        BridgeProgramInstruction::InitBridge => seq![0u8],
        BridgeProgramInstruction::AddToken => seq![1u8],
        BridgeProgramInstruction::RemoveToken => seq![2u8],
        BridgeProgramInstruction::Lock(a) => seq![3u8] + lock_args_bytes(a),
        BridgeProgramInstruction::Unlock(a) => seq![4u8] + unlock_args_bytes(a),
    }
}

/// Size in bytes of the wire form of the variant tagged `tag`.
pub open spec fn instruction_len(tag: u8) -> int {
    if tag <= 2 {
        1
    } else if tag == 3 {
        61
    } else {
        66
    }
}

/// The variant byte of `i`.
pub open spec fn variant_tag(i: BridgeProgramInstruction) -> u8 {
    match i {
        BridgeProgramInstruction::InitBridge => 0u8,
        BridgeProgramInstruction::AddToken => 1u8,
        BridgeProgramInstruction::RemoveToken => 2u8,
        BridgeProgramInstruction::Lock(_) => 3u8,
        BridgeProgramInstruction::Unlock(_) => 4u8,
    }
}

/// Whether `b` is the wire form of some instruction.
pub open spec fn is_instruction_bytes(b: Seq<u8>) -> bool {
    b.len() > 0 && b[0] <= 4 && b.len() == instruction_len(b[0])
}

impl BridgeProgramInstruction {
    /// The wire form of this instruction.
    pub fn to_bytes(&self) -> (r: Vec<u8>)
        ensures
            r@ == instruction_bytes(*self),
    {
        let mut out: Vec<u8> = Vec::new();
        match self {
            BridgeProgramInstruction::InitBridge => out.push(0u8),
            BridgeProgramInstruction::AddToken => out.push(1u8),
            BridgeProgramInstruction::RemoveToken => out.push(2u8),
            BridgeProgramInstruction::Lock(a) => {
                out.push(3u8);
                push_slice(&mut out, a.recipient.as_slice());
                push_slice(&mut out, a.destination.as_slice());
                push_u64(&mut out, a.amount);
                push_u128(&mut out, a.lock_id);
            },
            BridgeProgramInstruction::Unlock(a) => {
                out.push(4u8);
                push_u128(&mut out, a.lock_id);
                push_slice(&mut out, a.lock_source.as_slice());
                push_u64(&mut out, a.amount);
                push_slice(&mut out, a.token_source.as_slice());
                push_slice(&mut out, a.token_source_address.as_slice());
                out.push(a.secp_instruction_index);
            },
        }
        assert(out@ =~= instruction_bytes(*self));
        out
    }

    /// Reads an instruction from its wire form; refuses an unknown variant
    /// byte and a payload of the wrong length.
    pub fn from_bytes(data: &[u8]) -> (r: Result<BridgeProgramInstruction, BridgeError>)
        ensures
            r is Ok <==> is_instruction_bytes(data@),
            r matches Ok(i) ==> instruction_bytes(i) == data@,
            r is Err ==> r == Err::<BridgeProgramInstruction, BridgeError>(
                BridgeError::InvalidArgument,
            ),
    {
        if data.len() == 0 {
            return Err(BridgeError::InvalidArgument);
        }
        let tag = data[0];
        if tag <= 2 {
            if data.len() != 1 {
                return Err(BridgeError::InvalidArgument);
            }
            let i = if tag == 0 {
                BridgeProgramInstruction::InitBridge
            } else if tag == 1 {
                BridgeProgramInstruction::AddToken
            } else {
                BridgeProgramInstruction::RemoveToken
            };
            assert(instruction_bytes(i) =~= data@);
            Ok(i)
        } else if tag == 3 {
            if data.len() != 61 {
                return Err(BridgeError::InvalidArgument);
            }
            let a = LockArgs {
                recipient: read_array(data, 1),
                destination: read_array(data, 33),
                amount: read_u64(data, 37),
                lock_id: read_u128(data, 45),
            };
            assert(instruction_bytes(BridgeProgramInstruction::Lock(a)) =~= data@);
            Ok(BridgeProgramInstruction::Lock(a))
        } else if tag == 4 {
            if data.len() != 66 {
                return Err(BridgeError::InvalidArgument);
            }
            let a = UnlockArgs {
                lock_id: read_u128(data, 1),
                lock_source: read_array(data, 17),
                amount: read_u64(data, 21),
                token_source: read_array(data, 29),
                token_source_address: read_array(data, 33),
                secp_instruction_index: data[65],
            };
            assert(instruction_bytes(BridgeProgramInstruction::Unlock(a)) =~= data@);
            Ok(BridgeProgramInstruction::Unlock(a))
        } else {
            Err(BridgeError::InvalidArgument)
        }
    }
}

/// Two instructions with the same wire form are the same instruction.
proof fn lemma_instruction_bytes_injective(i: BridgeProgramInstruction, j: BridgeProgramInstruction)
    requires
        instruction_bytes(i) == instruction_bytes(j),
    ensures
        i == j,
{
    lemma_auto_spec_u64_to_from_le_bytes();
    lemma_auto_spec_u128_to_from_le_bytes();
    let b = instruction_bytes(i);
    assert(b[0] == variant_tag(i));
    assert(instruction_bytes(j)[0] == variant_tag(j));
    match (i, j) {
        (BridgeProgramInstruction::Lock(a), BridgeProgramInstruction::Lock(c)) => {
            assert(b.subrange(1, 33) =~= a.recipient@);
            assert(b.subrange(1, 33) =~= c.recipient@);
            assert(b.subrange(33, 37) =~= a.destination@);
            assert(b.subrange(33, 37) =~= c.destination@);
            assert(b.subrange(37, 45) =~= spec_u64_to_le_bytes(a.amount));
            assert(b.subrange(37, 45) =~= spec_u64_to_le_bytes(c.amount));
            assert(b.subrange(45, 61) =~= spec_u128_to_le_bytes(a.lock_id));
            assert(b.subrange(45, 61) =~= spec_u128_to_le_bytes(c.lock_id));
            assert(a.recipient =~= c.recipient);
            assert(a.destination =~= c.destination);
            assert(a == c);
        },
        (BridgeProgramInstruction::Unlock(a), BridgeProgramInstruction::Unlock(c)) => {
            assert(b.subrange(1, 17) =~= spec_u128_to_le_bytes(a.lock_id));
            assert(b.subrange(1, 17) =~= spec_u128_to_le_bytes(c.lock_id));
            assert(b.subrange(17, 21) =~= a.lock_source@);
            assert(b.subrange(17, 21) =~= c.lock_source@);
            assert(b.subrange(21, 29) =~= spec_u64_to_le_bytes(a.amount));
            assert(b.subrange(21, 29) =~= spec_u64_to_le_bytes(c.amount));
            assert(b.subrange(29, 33) =~= a.token_source@);
            assert(b.subrange(29, 33) =~= c.token_source@);
            assert(b.subrange(33, 65) =~= a.token_source_address@);
            assert(b.subrange(33, 65) =~= c.token_source_address@);
            assert(a.lock_source =~= c.lock_source);
            assert(a.token_source =~= c.token_source);
            assert(a.token_source_address =~= c.token_source_address);
            assert(b[65] == a.secp_instruction_index);
            assert(b[65] == c.secp_instruction_index);
            assert(a == c);
        },
        _ => {},
    }
}

/// Round trip of the wire form: the encoding of every instruction is
/// accepted by the decoder, and the only instruction it can decode to is the
/// one encoded (`from_bytes` returns an instruction whose encoding is the
/// input, so decoding then encoding gives the input bytes back).
pub proof fn lemma_instruction_round_trip(i: BridgeProgramInstruction, decoded: BridgeProgramInstruction)
    ensures
        is_instruction_bytes(instruction_bytes(i)),
        instruction_bytes(decoded) == instruction_bytes(i) ==> decoded == i,
{
    lemma_auto_spec_u64_to_from_le_bytes();
    lemma_auto_spec_u128_to_from_le_bytes();
    if instruction_bytes(decoded) == instruction_bytes(i) {
        lemma_instruction_bytes_injective(decoded, i);
    }
}

/// One account that an instruction reads or writes, with its role.
#[derive(Clone, Copy, Debug)]
pub struct AccountMeta {
    pub pubkey: Pubkey,
    pub is_signer: bool,
    pub is_writable: bool,
}

impl AccountMeta {
    /// A writable account.
    pub fn new(pubkey: Pubkey, is_signer: bool) -> (r: AccountMeta)
        ensures
            r == (AccountMeta { pubkey, is_signer, is_writable: true }),
    {
        AccountMeta { pubkey, is_signer, is_writable: true }
    }

    /// A read-only account.
    pub fn new_readonly(pubkey: Pubkey, is_signer: bool) -> (r: AccountMeta)
        ensures
            r == (AccountMeta { pubkey, is_signer, is_writable: false }),
    {
        AccountMeta { pubkey, is_signer, is_writable: false }
    }
}

/// An instruction ready for submission: the program, its accounts in their
/// fixed order, and the wire form of its payload.
#[derive(Debug)]
pub struct Instruction {
    pub program_id: Pubkey,
    pub accounts: Vec<AccountMeta>,
    pub data: Vec<u8>,
}

/// An account list as (address, signer, writable) triples.
pub open spec fn metas_view(v: Seq<AccountMeta>) -> Seq<(Seq<u8>, bool, bool)> {
    v.map_values(|m: AccountMeta| (m.pubkey@, m.is_signer, m.is_writable))
}

/// The address of the rent sysvar.
pub open spec fn rent_sysvar_key() -> Seq<u8> {
    seq![6u8, 167, 213, 23, 25, 44, 92, 81, 33, 140, 201, 76, 61, 74, 241, 127, 88, 218, 238, 8,
        155, 161, 253, 68, 227, 219, 217, 138, 0, 0, 0, 0]
}

/// The address of the instructions sysvar.
pub open spec fn instructions_sysvar_key() -> Seq<u8> {
    seq![6u8, 167, 213, 23, 24, 123, 209, 102, 53, 218, 212, 4, 85, 253, 194, 192, 193, 36, 198,
        143, 33, 86, 117, 165, 219, 186, 203, 95, 8, 0, 0, 0]
}

/// The address of the token program.
pub open spec fn token_program_key() -> Seq<u8> {
    seq![6u8, 221, 246, 225, 215, 101, 161, 147, 217, 203, 225, 70, 206, 235, 121, 172, 28, 180,
        133, 237, 95, 91, 55, 145, 58, 140, 245, 133, 126, 255, 0, 169]
}

/// The address of the system program: 32 zero bytes.
pub open spec fn system_program_key() -> Seq<u8> {
    Seq::new(32, |i: int| 0u8)
}

/// Relies on `sysvar::rent::id()`, declared as `SysvarRent111111111111111111111111111111111`.
#[verifier::external_body]
fn rent_sysvar_id() -> (r: Pubkey)
    ensures
        r@ == rent_sysvar_key(),
{
    Pubkey(solana_program::sysvar::rent::id().to_bytes())
}

/// Relies on `sysvar::instructions::id()`, declared as `Sysvar1nstructions1111111111111111111111111`.
#[verifier::external_body]
fn instructions_sysvar_id() -> (r: Pubkey)
    ensures
        r@ == instructions_sysvar_key(),
{
    Pubkey(solana_program::sysvar::instructions::id().to_bytes())
}

/// Relies on `spl_token::id()`, declared as `TokenkegQfeZyiNwAJbNbGKPFXCWuBvf9Ss623VQ5DA`.
#[verifier::external_body]
fn token_program_id() -> (r: Pubkey)
    ensures
        r@ == token_program_key(),
{
    Pubkey(spl_token::id().to_bytes())
}

/// Relies on `system_program::id()`, declared as `11111111111111111111111111111111`.
#[verifier::external_body]
fn system_program_id() -> (r: Pubkey)
    ensures
        r@ == system_program_key(),
{
    Pubkey(solana_program::system_program::id().to_bytes())
}

/// The big-endian bytes of a lock id.
pub open spec fn lock_id_bytes(x: u128) -> Seq<u8> {
    Seq::new(16, |i: int| spec_u128_to_le_bytes(x)[15 - i])
}

/// ASCII `lock`.
pub open spec fn lock_seed() -> Seq<u8> {
    seq![108u8, 111, 99, 107]
}

/// ASCII `unlock_`.
pub open spec fn unlock_prefix() -> Seq<u8> {
    seq![117u8, 110, 108, 111, 99, 107, 95]
}

/// Seeds of a lock record's address.
pub open spec fn lock_seeds_of(validator: Seq<u8>, lock_id: u128) -> Seq<Seq<u8>> {
    seq![validator, lock_id_bytes(lock_id), lock_seed()]
}

/// Seeds of a claim record's address.
pub open spec fn unlock_seeds_of(validator: Seq<u8>, lock_id: u128, source: Seq<u8>) -> Seq<
    Seq<u8>,
> {
    seq![validator, lock_id_bytes(lock_id), unlock_prefix() + source]
}

/// The big-endian bytes of `x`.
fn lock_id_to_be_bytes(x: u128) -> (r: Vec<u8>)
    ensures
        r@ == lock_id_bytes(x),
{
    let le = u128_to_le_bytes(x);
    let mut r: Vec<u8> = Vec::new();
    let mut i: usize = 0;
    while i < 16
        invariant
            le@ == spec_u128_to_le_bytes(x),
            le@.len() == 16,
            i <= 16,
            r@ =~= Seq::new(i as nat, |j: int| spec_u128_to_le_bytes(x)[15 - j]),
        decreases 16 - i,
    {
        r.push(le[15 - i]);
        i = i + 1;
    }
    r
}

fn key_vec(k: &Pubkey) -> (r: Vec<u8>)
    ensures
        r@ == k@,
{
    let mut r: Vec<u8> = Vec::new();
    push_slice(&mut r, k.0.as_slice());
    assert(r@ =~= k@);
    r
}

/// Seeds of the lock record of `lock_id`: the validator, the lock id in
/// big-endian order and `lock`.
pub fn lock_account_seeds(validator: &Pubkey, lock_id: LockId) -> (r: Vec<Vec<u8>>)
    ensures
        r.deep_view() == lock_seeds_of(validator@, lock_id),
{
    let mut seeds: Vec<Vec<u8>> = Vec::new();
    seeds.push(key_vec(validator));
    seeds.push(lock_id_to_be_bytes(lock_id));
    seeds.push(vec![108u8, 111, 99, 107]);
    assert(seeds@[0].deep_view() =~= validator@);
    assert(seeds@[1].deep_view() =~= lock_id_bytes(lock_id));
    assert(seeds@[2].deep_view() =~= lock_seed());
    assert(seeds.deep_view() =~= lock_seeds_of(validator@, lock_id));
    seeds
}

/// Seeds of the claim record of `lock_id` from chain `source`: the
/// validator, the lock id in big-endian order and `unlock_` followed by the
/// source's name.
pub fn unlock_account_seeds(validator: &Pubkey, lock_id: LockId, source: &str) -> (r: Vec<Vec<u8>>)
    ensures
        r.deep_view() == unlock_seeds_of(validator@, lock_id, source.spec_bytes()),
{
    let mut seed: Vec<u8> = vec![117u8, 110, 108, 111, 99, 107, 95];
    push_slice(&mut seed, source.as_bytes());
    let mut seeds: Vec<Vec<u8>> = Vec::new();
    seeds.push(key_vec(validator));
    seeds.push(lock_id_to_be_bytes(lock_id));
    seeds.push(seed);
    assert(seeds@[0].deep_view() =~= validator@);
    assert(seeds@[1].deep_view() =~= lock_id_bytes(lock_id));
    assert(seeds@[2].deep_view() =~= unlock_prefix() + source.spec_bytes());
    assert(seeds.deep_view() =~= unlock_seeds_of(validator@, lock_id, source.spec_bytes()));
    seeds
}

/// Distinct lock ids give distinct seed lists, for lock records and for claim records alike.
pub proof fn lemma_lock_seeds_distinct(validator: Seq<u8>, id1: u128, id2: u128, source: Seq<u8>)
    requires
        id1 != id2,
    ensures
        lock_seeds_of(validator, id1) != lock_seeds_of(validator, id2),
        unlock_seeds_of(validator, id1, source) != unlock_seeds_of(validator, id2, source),
{
    lemma_auto_spec_u128_to_from_le_bytes();
    if lock_id_bytes(id1) == lock_id_bytes(id2) {
        assert(spec_u128_to_le_bytes(id1) =~= spec_u128_to_le_bytes(id2)) by {
            assert forall|i: int| 0 <= i < 16 implies spec_u128_to_le_bytes(id1)[i]
                == spec_u128_to_le_bytes(id2)[i] by {
                assert(lock_id_bytes(id1)[15 - i] == lock_id_bytes(id2)[15 - i]);
            }
        }
    }
    assert(lock_seeds_of(validator, id1)[1] == lock_id_bytes(id1));
    assert(lock_seeds_of(validator, id2)[1] == lock_id_bytes(id2));
    assert(unlock_seeds_of(validator, id1, source)[1] == lock_id_bytes(id1));
    assert(unlock_seeds_of(validator, id2, source)[1] == lock_id_bytes(id2));
}

/// Builds a lock (send) instruction: `amount` of `mint` from `sender` to
/// `recipient` on chain `destination`, recorded under `lock_id`. Refuses a
/// destination name longer than four bytes.
#[verifier::rlimit(50)]
pub fn lock(
    program_id: &Pubkey,
    bridge: &Pubkey,
    mint: &Pubkey,
    sender: &Pubkey,
    sender_token_account: &Pubkey,
    bridge_token_account: &Pubkey,
    fee_collector: &Pubkey,
    validator: &Pubkey,
    pool: &Pubkey,
    user_pool_token_account: &Pubkey,
    validator_program_id: &Pubkey,
    recipient: Address,
    destination: &str,
    amount: u64,
    lock_id: LockId,
) -> (r: Result<Instruction, BridgeError>)
    ensures
        destination.spec_bytes().len() > 4 ==> r == Err::<Instruction, BridgeError>(
            BridgeError::InvalidArgument,
        ),
        r is Ok <==> (destination.spec_bytes().len() <= 4 && derived_key(
            seq![bridge@],
            program_id@,
        ) is Ok && derived_key(lock_seeds_of(validator@, lock_id), validator_program_id@) is Ok
            && derived_key(seq![bridge@, mint@, asset_seed()], program_id@) is Ok),
        destination.spec_bytes().len() <= 4 && r is Err ==> r == Err::<Instruction, BridgeError>(
            BridgeError::AddressDerivationFailed,
        ),
        r matches Ok(ix) ==> {
            &&& ix.program_id@ == program_id@
            &&& ix.data@ == seq![3u8] + recipient@ + chain_id_of(destination.spec_bytes())
                + spec_u64_to_le_bytes(amount) + spec_u128_to_le_bytes(lock_id)
            &&& ix.accounts@.len() == 16
            &&& derived_key(seq![bridge@], program_id@) == Ok::<Seq<u8>, BridgeError>(
                ix.accounts@[1].pubkey@,
            )
            &&& derived_key(seq![bridge@, mint@, asset_seed()], program_id@) == Ok::<
                Seq<u8>,
                BridgeError,
            >(ix.accounts@[3].pubkey@)
            &&& derived_key(lock_seeds_of(validator@, lock_id), validator_program_id@) == Ok::<
                Seq<u8>,
                BridgeError,
            >(ix.accounts@[11].pubkey@)
            &&& metas_view(ix.accounts@) == seq![
                (bridge@, false, false),
                (ix.accounts@[1].pubkey@, false, true),
                (mint@, false, true),
                (ix.accounts@[3].pubkey@, false, false),
                (sender@, true, true),
                (sender_token_account@, false, true),
                (bridge_token_account@, false, true),
                (fee_collector@, false, true),
                (validator@, false, true),
                (pool@, false, false),
                (user_pool_token_account@, false, false),
                (ix.accounts@[11].pubkey@, false, true),
                (validator_program_id@, false, false),
                (rent_sysvar_key(), false, false),
                (token_program_key(), false, false),
                (system_program_key(), false, false),
            ]
        },
{
    let destination = match chain_id_from_str(destination) {
        Ok(d) => d,
        Err(e) => return Err(e),
    };
    let payload = BridgeProgramInstruction::Lock(LockArgs { recipient, destination, amount, lock_id });
    let data = payload.to_bytes();
    let mut authority_seeds: Vec<Vec<u8>> = Vec::new();
    authority_seeds.push(key_vec(bridge));
    assert(authority_seeds@[0].deep_view() =~= bridge@);
    assert(authority_seeds.deep_view() =~= seq![bridge@]);
    let bridge_authority = match seeds_to_pubkey(program_id, &authority_seeds) {
        Ok(k) => k,
        Err(e) => return Err(e),
    };
    let lock_account = match seeds_to_pubkey(
        validator_program_id,
        &lock_account_seeds(validator, lock_id),
    ) {
        Ok(k) => k,
        Err(e) => return Err(e),
    };
    let mint_seeds = match Asset::get_asset_by_mint_signer_seeds(bridge, mint) {
        Ok(v) => v,
        Err(e) => return Err(e),
    };
    let asset_by_mint = match seeds_to_pubkey(program_id, &mint_seeds) {
        Ok(k) => k,
        Err(e) => return Err(e),
    };
    let mut accounts: Vec<AccountMeta> = Vec::new();
    accounts.push(AccountMeta::new_readonly(*bridge, false));
    accounts.push(AccountMeta::new(bridge_authority, false));
    accounts.push(AccountMeta::new(*mint, false));
    accounts.push(AccountMeta::new_readonly(asset_by_mint, false));
    accounts.push(AccountMeta::new(*sender, true));
    accounts.push(AccountMeta::new(*sender_token_account, false));
    accounts.push(AccountMeta::new(*bridge_token_account, false));
    accounts.push(AccountMeta::new(*fee_collector, false));
    accounts.push(AccountMeta::new(*validator, false));
    accounts.push(AccountMeta::new_readonly(*pool, false));
    accounts.push(AccountMeta::new_readonly(*user_pool_token_account, false));
    accounts.push(AccountMeta::new(lock_account, false));
    accounts.push(AccountMeta::new_readonly(*validator_program_id, false));
    accounts.push(AccountMeta::new_readonly(rent_sysvar_id(), false));
    accounts.push(AccountMeta::new_readonly(token_program_id(), false));
    accounts.push(AccountMeta::new_readonly(system_program_id(), false));
    assert(metas_view(accounts@) =~= seq![
        (bridge@, false, false),
        (bridge_authority@, false, true),
        (mint@, false, true),
        (asset_by_mint@, false, false),
        (sender@, true, true),
        (sender_token_account@, false, true),
        (bridge_token_account@, false, true),
        (fee_collector@, false, true),
        (validator@, false, true),
        (pool@, false, false),
        (user_pool_token_account@, false, false),
        (lock_account@, false, true),
        (validator_program_id@, false, false),
        (rent_sysvar_key(), false, false),
        (token_program_key(), false, false),
        (system_program_key(), false, false),
    ]);
    Ok(Instruction { program_id: *program_id, accounts, data })
}

/// The seeds of the asset keyed by token source `ts` and `address` under `bridge`.
pub open spec fn source_asset_seeds(bridge: Seq<u8>, ts: Seq<u8>, address: Seq<u8>) -> Seq<Seq<u8>> {
    seq![bridge, address, asset_prefix() + chain_name(chain_id_of(ts))]
}

/// Builds an unlock (claim) instruction for the transfer `lock_id` from chain
/// `source`, paying `amount` of the token that comes from `token_source` at
/// `token_source_address` to `recipient`. Refuses a chain name longer than
/// four bytes and a token source whose name is not ASCII.
#[verifier::rlimit(50)]
pub fn unlock(
    program_id: &Pubkey,
    bridge: &Pubkey,
    recipient: &Pubkey,
    recipient_token_account: &Pubkey,
    validator: &Pubkey,
    bridge_token_account: &Pubkey,
    mint: &Pubkey,
    payer: &Pubkey,
    fee_collector: &Pubkey,
    validator_program_id: &Pubkey,
    lock_id: LockId,
    source: &str,
    amount: u64,
    token_source: &str,
    token_source_address: Address,
    secp_instruction_index: u8,
) -> (r: Result<Instruction, BridgeError>)
    ensures
        source.spec_bytes().len() > 4 || token_source.spec_bytes().len() > 4 ==> r == Err::<
            Instruction,
            BridgeError,
        >(BridgeError::InvalidArgument),
        source.spec_bytes().len() <= 4 && token_source.spec_bytes().len() <= 4 && !all_ascii(
            chain_name(chain_id_of(token_source.spec_bytes())),
        ) ==> r == Err::<Instruction, BridgeError>(BridgeError::InvalidArgument),
        r is Ok <==> (source.spec_bytes().len() <= 4 && token_source.spec_bytes().len() <= 4
            && all_ascii(chain_name(chain_id_of(token_source.spec_bytes()))) && derived_key(
            seq![bridge@],
            program_id@,
        ) is Ok && derived_key(
            unlock_seeds_of(validator@, lock_id, source.spec_bytes()),
            validator_program_id@,
        ) is Ok && derived_key(
            source_asset_seeds(bridge@, token_source.spec_bytes(), token_source_address@),
            program_id@,
        ) is Ok),
        r is Err ==> r == Err::<Instruction, BridgeError>(BridgeError::InvalidArgument) || r
            == Err::<Instruction, BridgeError>(BridgeError::AddressDerivationFailed),
        r matches Ok(ix) ==> {
            &&& ix.program_id@ == program_id@
            &&& ix.data@ == seq![4u8] + spec_u128_to_le_bytes(lock_id) + chain_id_of(
                source.spec_bytes(),
            ) + spec_u64_to_le_bytes(amount) + chain_id_of(token_source.spec_bytes())
                + token_source_address@ + seq![secp_instruction_index]
            &&& ix.accounts@.len() == 16
            &&& derived_key(seq![bridge@], program_id@) == Ok::<Seq<u8>, BridgeError>(
                ix.accounts@[1].pubkey@,
            )
            &&& derived_key(
                source_asset_seeds(bridge@, token_source.spec_bytes(), token_source_address@),
                program_id@,
            ) == Ok::<Seq<u8>, BridgeError>(ix.accounts@[5].pubkey@)
            &&& derived_key(
                unlock_seeds_of(validator@, lock_id, source.spec_bytes()),
                validator_program_id@,
            ) == Ok::<Seq<u8>, BridgeError>(ix.accounts@[8].pubkey@)
            &&& metas_view(ix.accounts@) == seq![
                (bridge@, false, false),
                (ix.accounts@[1].pubkey@, false, false),
                (recipient@, false, true),
                (validator@, false, false),
                (recipient_token_account@, false, true),
                (ix.accounts@[5].pubkey@, false, false),
                (bridge_token_account@, false, true),
                (mint@, false, true),
                (ix.accounts@[8].pubkey@, false, true),
                (payer@, true, true),
                (fee_collector@, false, true),
                (validator_program_id@, false, false),
                (instructions_sysvar_key(), false, false),
                (rent_sysvar_key(), false, false),
                (token_program_key(), false, false),
                (system_program_key(), false, false),
            ]
        },
{
    let lock_source = match chain_id_from_str(source) {
        Ok(d) => d,
        Err(e) => return Err(e),
    };
    let token_source_id = match chain_id_from_str(token_source) {
        Ok(d) => d,
        Err(e) => return Err(e),
    };
    let source_seeds = match Asset::get_asset_by_source_signer_seeds(
        bridge,
        token_source_id,
        token_source_address,
    ) {
        Ok(v) => v,
        Err(e) => return Err(e),
    };
    let payload = BridgeProgramInstruction::Unlock(
        UnlockArgs {
            lock_id,
            lock_source,
            amount,
            token_source: token_source_id,
            token_source_address,
            secp_instruction_index,
        },
    );
    let data = payload.to_bytes();
    let mut authority_seeds: Vec<Vec<u8>> = Vec::new();
    authority_seeds.push(key_vec(bridge));
    assert(authority_seeds@[0].deep_view() =~= bridge@);
    assert(authority_seeds.deep_view() =~= seq![bridge@]);
    let bridge_authority = match seeds_to_pubkey(program_id, &authority_seeds) {
        Ok(k) => k,
        Err(e) => return Err(e),
    };
    let unlock_account = match seeds_to_pubkey(
        validator_program_id,
        &unlock_account_seeds(validator, lock_id, source),
    ) {
        Ok(k) => k,
        Err(e) => return Err(e),
    };
    let asset_by_source = match seeds_to_pubkey(program_id, &source_seeds) {
        Ok(k) => k,
        Err(e) => return Err(e),
    };
    let mut accounts: Vec<AccountMeta> = Vec::new();
    accounts.push(AccountMeta::new_readonly(*bridge, false));
    accounts.push(AccountMeta::new_readonly(bridge_authority, false));
    accounts.push(AccountMeta::new(*recipient, false));
    accounts.push(AccountMeta::new_readonly(*validator, false));
    accounts.push(AccountMeta::new(*recipient_token_account, false));
    accounts.push(AccountMeta::new_readonly(asset_by_source, false));
    accounts.push(AccountMeta::new(*bridge_token_account, false));
    accounts.push(AccountMeta::new(*mint, false));
    accounts.push(AccountMeta::new(unlock_account, false));
    accounts.push(AccountMeta::new(*payer, true));
    accounts.push(AccountMeta::new(*fee_collector, false));
    accounts.push(AccountMeta::new_readonly(*validator_program_id, false));
    accounts.push(AccountMeta::new_readonly(instructions_sysvar_id(), false));
    accounts.push(AccountMeta::new_readonly(rent_sysvar_id(), false));
    accounts.push(AccountMeta::new_readonly(token_program_id(), false));
    accounts.push(AccountMeta::new_readonly(system_program_id(), false));
    assert(metas_view(accounts@) =~= seq![
        (bridge@, false, false),
        (bridge_authority@, false, false),
        (recipient@, false, true),
        (validator@, false, false),
        (recipient_token_account@, false, true),
        (asset_by_source@, false, false),
        (bridge_token_account@, false, true),
        (mint@, false, true),
        (unlock_account@, false, true),
        (payer@, true, true),
        (fee_collector@, false, true),
        (validator_program_id@, false, false),
        (instructions_sysvar_key(), false, false),
        (rent_sysvar_key(), false, false),
        (token_program_key(), false, false),
        (system_program_key(), false, false),
    ]);
    Ok(Instruction { program_id: *program_id, accounts, data })
}

} // verus!
