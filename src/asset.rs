//! The record of one bridged token.
use vstd::bytes::*;
use vstd::prelude::*;

use crate::chain::{all_ascii, chain_id_to_str, chain_name, BlockchainId};
use crate::state::{try_from_slice_checked, AccountKey};
use crate::wire::{bool_byte, push_bool, push_slice, push_u64, read_array, read_bool, read_u64};
use crate::{Address, BridgeError, Pubkey};

verus! {

/// One token that the bridge carries.
#[derive(Clone, Copy, Debug)]
pub struct Asset {
    pub key: AccountKey,
    /// The bridge this token belongs to.
    pub bridge: Pubkey,
    /// The chain the token comes from.
    pub source: BlockchainId,
    /// The token's address on its source chain.
    pub source_address: Address,
    pub decimals: u8,
    pub symbol: [u8; 12],
    pub name: [u8; 32],
    pub mint: Pubkey,
    /// The token account held by the bridge.
    pub token_account: Pubkey,
    pub min_fee: u64,
    pub fee_collector: Pubkey,
    /// Whether the token is mapped to a local token although its source is elsewhere.
    pub is_wrapped: bool,
    pub enabled: bool,
}

/// The stored layout of an asset record.
pub open spec fn asset_bytes(a: Asset) -> Seq<u8> {
    seq![a.key.spec_tag()] + a.bridge@ + a.source@ + a.source_address@ + seq![a.decimals]
        + a.symbol@ + a.name@ + a.mint@ + a.token_account@ + spec_u64_to_le_bytes(a.min_fee)
        + a.fee_collector@ + seq![bool_byte(a.is_wrapped)] + seq![bool_byte(a.enabled)]
}

/// Two asset records with the same stored bytes are the same record, so
/// loading the bytes of `a` gives `a` back.
pub proof fn lemma_asset_bytes_injective(a: Asset, c: Asset)
    requires
        asset_bytes(a) == asset_bytes(c),
        a.key == AccountKey::Token,
        c.key == AccountKey::Token,
    ensures
        a == c,
{
    lemma_auto_spec_u64_to_from_le_bytes();
    let x = asset_bytes(a);
    let y = asset_bytes(c);
    assert(x.subrange(1, 33) =~= a.bridge@ && y.subrange(1, 33) =~= c.bridge@);
    assert(x.subrange(33, 37) =~= a.source@ && y.subrange(33, 37) =~= c.source@);
    assert(x.subrange(37, 69) =~= a.source_address@ && y.subrange(37, 69) =~= c.source_address@);
    assert(x[69] == a.decimals && y[69] == c.decimals);
    assert(x.subrange(70, 82) =~= a.symbol@ && y.subrange(70, 82) =~= c.symbol@);
    assert(x.subrange(82, 114) =~= a.name@ && y.subrange(82, 114) =~= c.name@);
    assert(x.subrange(114, 146) =~= a.mint@ && y.subrange(114, 146) =~= c.mint@);
    assert(x.subrange(146, 178) =~= a.token_account@ && y.subrange(146, 178) =~= c.token_account@);
    assert(x.subrange(178, 186) =~= spec_u64_to_le_bytes(a.min_fee) && y.subrange(178, 186)
        =~= spec_u64_to_le_bytes(c.min_fee));
    assert(x.subrange(186, 218) =~= a.fee_collector@ && y.subrange(186, 218) =~= c.fee_collector@);
    assert(x[218] == bool_byte(a.is_wrapped) && y[218] == bool_byte(c.is_wrapped));
    assert(x[219] == bool_byte(a.enabled) && y[219] == bool_byte(c.enabled));
    assert(a.bridge.0 =~= c.bridge.0);
    assert(a.source =~= c.source);
    assert(a.source_address =~= c.source_address);
    assert(a.symbol =~= c.symbol);
    assert(a.name =~= c.name);
    assert(a.mint.0 =~= c.mint.0);
    assert(a.token_account.0 =~= c.token_account.0);
    assert(a.fee_collector.0 =~= c.fee_collector.0);
}

/// ASCII `asset`.
pub open spec fn asset_seed() -> Seq<u8> {
    seq![97u8, 115, 115, 101, 116]
}

/// ASCII `asset_`.
pub open spec fn asset_prefix() -> Seq<u8> {
    seq![97u8, 115, 115, 101, 116, 95]
}

/// A fresh vector holding the bytes of `s`.
fn to_vec(s: &[u8]) -> (r: Vec<u8>)
    ensures
        r@ == s@,
{
    let mut r: Vec<u8> = Vec::new();
    push_slice(&mut r, s);
    assert(r@ =~= s@);
    r
}

impl Asset {
    /// Size of the stored record in bytes.
    pub const LEN: usize = 1 + 32 + 4 + 32 + 1 + 12 + 32 + 32 + 32 + 8 + 32 + 1 + 1;

    /// Loads an asset record from the bytes of its slot.
    pub fn from_account_info(data: &[u8]) -> (r: Result<Asset, BridgeError>)
        ensures
            r is Ok <==> (data@.len() == Self::LEN && data@[0] == AccountKey::Token.spec_tag()
                && data@[218] <= 1 && data@[219] <= 1),
            !(data@.len() == Self::LEN && data@[0] == AccountKey::Token.spec_tag()) ==> r == Err::<
                Asset,
                BridgeError,
            >(BridgeError::InvalidAccountData),
            data@.len() == Self::LEN && data@[0] == AccountKey::Token.spec_tag() && (data@[218] > 1
                || data@[219] > 1) ==> r == Err::<Asset, BridgeError>(BridgeError::InvalidEncoding),
            r matches Ok(a) ==> a.key == AccountKey::Token && asset_bytes(a) == data@,
    {
        match try_from_slice_checked(data, AccountKey::Token, Self::LEN) {
            Ok(()) => {},
            Err(e) => return Err(e),
        }
        let is_wrapped = match read_bool(data, 218) {
            Some(v) => v,
            None => return Err(BridgeError::InvalidEncoding),
        };
        let enabled = match read_bool(data, 219) {
            Some(v) => v,
            None => return Err(BridgeError::InvalidEncoding),
        };
        let a = Asset {
            key: AccountKey::Token,
            bridge: Pubkey(read_array(data, 1)),
            source: read_array(data, 33),
            source_address: read_array(data, 37),
            decimals: data[69],
            symbol: read_array(data, 70),
            name: read_array(data, 82),
            mint: Pubkey(read_array(data, 114)),
            token_account: Pubkey(read_array(data, 146)),
            min_fee: read_u64(data, 178),
            fee_collector: Pubkey(read_array(data, 186)),
            is_wrapped,
            enabled,
        };
        assert(asset_bytes(a) =~= data@);
        Ok(a)
    }

    /// The stored bytes of this record.
    pub fn to_bytes(&self) -> (r: Vec<u8>)
        ensures
            r@ == asset_bytes(*self),
            r@.len() == Self::LEN,
    {
        let mut out: Vec<u8> = Vec::new();
        out.push(self.key.tag());
        push_slice(&mut out, self.bridge.0.as_slice());
        push_slice(&mut out, self.source.as_slice());
        push_slice(&mut out, self.source_address.as_slice());
        out.push(self.decimals);
        push_slice(&mut out, self.symbol.as_slice());
        push_slice(&mut out, self.name.as_slice());
        push_slice(&mut out, self.mint.0.as_slice());
        push_slice(&mut out, self.token_account.0.as_slice());
        push_u64(&mut out, self.min_fee);
        push_slice(&mut out, self.fee_collector.0.as_slice());
        push_bool(&mut out, self.is_wrapped);
        push_bool(&mut out, self.enabled);
        proof {
            lemma_auto_spec_u64_to_from_le_bytes();
        }
        assert(out@ =~= asset_bytes(*self));
        out
    }

    /// Succeeds exactly when this asset belongs to `bridge_account`.
    pub fn assert_bridge_account(&self, bridge_account: &Pubkey) -> (r: Result<(), BridgeError>)
        ensures
            r is Ok <==> self.bridge@ == bridge_account@,
            r is Err ==> r == Err::<(), BridgeError>(BridgeError::InvalidAccountData),
    {
        if !(self.bridge == *bridge_account) {
            return Err(BridgeError::InvalidAccountData);
        }
        Ok(())
    }

    /// Succeeds exactly when `token_account` is the bridge's token account for this asset.
    pub fn assert_token_account(&self, token_account: &Pubkey) -> (r: Result<(), BridgeError>)
        ensures
            r is Ok <==> self.token_account@ == token_account@,
            r is Err ==> r == Err::<(), BridgeError>(BridgeError::InvalidAccountData),
    {
        if !(self.token_account == *token_account) {
            return Err(BridgeError::InvalidAccountData);
        }
        Ok(())
    }

    /// Seeds of the asset's address keyed by its source chain and source address:
    /// the bridge, the source address and `asset_` followed by the chain's mnemonic.
    pub fn get_asset_by_source_signer_seeds(
        bridge: &Pubkey,
        source: BlockchainId,
        source_address: Address,
    ) -> (r: Result<Vec<Vec<u8>>, BridgeError>)
        ensures
            r is Ok <==> all_ascii(chain_name(source@)),
            r matches Ok(seeds) ==> seeds.deep_view() == seq![
                bridge@,
                source_address@,
                asset_prefix() + chain_name(source@),
            ],
            r is Err ==> r == Err::<Vec<Vec<u8>>, BridgeError>(BridgeError::InvalidArgument),
    {
        let name = match chain_id_to_str(&source) {
            Ok(n) => n,
            Err(e) => return Err(e),
        };
        let mut seed: Vec<u8> = vec![97u8, 115, 115, 101, 116, 95];
        push_slice(&mut seed, name.as_slice());
        let mut seeds: Vec<Vec<u8>> = Vec::new();
        seeds.push(to_vec(bridge.0.as_slice()));
        seeds.push(to_vec(source_address.as_slice()));
        seeds.push(seed);
        assert(seeds@[0].deep_view() =~= bridge@);
        assert(seeds@[1].deep_view() =~= source_address@);
        assert(seeds@[2].deep_view() =~= asset_prefix() + chain_name(source@));
        assert(seeds.deep_view() =~= seq![
            bridge@,
            source_address@,
            asset_prefix() + chain_name(source@),
        ]);
        Ok(seeds)
    }

    /// Seeds of the asset's address keyed by its mint: the bridge, the mint and `asset`.
    pub fn get_asset_by_mint_signer_seeds(bridge: &Pubkey, mint: &Pubkey) -> (r: Result<
        Vec<Vec<u8>>,
        BridgeError,
    >)
        ensures
            r matches Ok(seeds) && seeds.deep_view() == seq![bridge@, mint@, asset_seed()],
    {
        let mut seeds: Vec<Vec<u8>> = Vec::new();
        seeds.push(to_vec(bridge.0.as_slice()));
        seeds.push(to_vec(mint.0.as_slice()));
        seeds.push(vec![97u8, 115, 115, 101, 116]);
        assert(seeds@[0].deep_view() =~= bridge@);
        assert(seeds@[1].deep_view() =~= mint@);
        assert(seeds@[2].deep_view() =~= asset_seed());
        assert(seeds.deep_view() =~= seq![bridge@, mint@, asset_seed()]);
        Ok(seeds)
    }
}

} // verus!
