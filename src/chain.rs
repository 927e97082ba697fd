//! Four-byte chain codes.
use vstd::prelude::*;
use vstd::string::StringSliceAdditionalSpecFns;

use crate::BridgeError;

verus! {

/// A chain code: an ASCII mnemonic left-aligned in four bytes, zero-padded.
pub type BlockchainId = [u8; 4];

/// The code whose first bytes are `name` and whose remaining bytes are zero.
pub open spec fn chain_id_of(name: Seq<u8>) -> Seq<u8>
    recommends
        name.len() <= 4,
{
    Seq::new(4, |i: int| if i < name.len() { name[i] } else { 0u8 })
}

/// Packs the bytes of `s` into a chain code, padding with zeros.
pub fn str_to_chain_id(s: &str) -> (r: BlockchainId)
    requires
        s.spec_bytes().len() <= 4,
    ensures
        r@ == chain_id_of(s.spec_bytes()),
{
    let bytes = s.as_bytes();
    let mut result: [u8; 4] = [0u8; 4];
    let n = bytes.len();
    let mut i: usize = 0;
    while i < n
        invariant
            n == bytes@.len(),
            bytes@ == s.spec_bytes(),
            n <= 4,
            i <= n,
            forall|j: int| 0 <= j < i ==> result@[j] == bytes@[j],
            forall|j: int| i <= j < 4 ==> result@[j] == 0u8,
        decreases n - i,
    {
        result[i] = bytes[i];
        i = i + 1;
    }
    assert(result@ =~= chain_id_of(s.spec_bytes()));
    result
}

/// Packs `s` into a chain code, refusing a name longer than four bytes.
pub fn chain_id_from_str(s: &str) -> (r: Result<BlockchainId, BridgeError>)
    ensures
        s.spec_bytes().len() > 4 ==> r == Err::<BlockchainId, BridgeError>(
            BridgeError::InvalidArgument,
        ),
        s.spec_bytes().len() <= 4 ==> (r matches Ok(id) && id@ == chain_id_of(s.spec_bytes())),
{
    if s.as_bytes().len() > 4 {
        Err(BridgeError::InvalidArgument)
    } else {
        Ok(str_to_chain_id(s))
    }
}

/// A chain code with its zero padding removed.
pub open spec fn chain_name(id: Seq<u8>) -> Seq<u8>
    decreases id.len(),
{
    if id.len() > 0 && id.last() == 0 {
        chain_name(id.drop_last())
    } else {
        id
    }
}

/// Whether every byte is ASCII.
pub open spec fn all_ascii(b: Seq<u8>) -> bool {
    forall|i: int| 0 <= i < b.len() ==> b[i] < 128
}

/// The mnemonic stored in a chain code: its bytes up to the trailing zero
/// padding. Refuses a code whose mnemonic is not ASCII.
pub fn chain_id_to_str(id: &BlockchainId) -> (r: Result<Vec<u8>, BridgeError>)
    ensures
        all_ascii(chain_name(id@)) <==> r is Ok,
        r matches Ok(name) ==> name@ == chain_name(id@),
        r is Err ==> r == Err::<Vec<u8>, BridgeError>(BridgeError::InvalidArgument),
{
    let mut n: usize = 4;
    assert(id@.subrange(0, 4) =~= id@);
    while n > 0 && id[n - 1] == 0
        invariant
            n <= 4,
            chain_name(id@) == chain_name(id@.subrange(0, n as int)),
        decreases n,
    {
        assert(id@.subrange(0, n as int).drop_last() =~= id@.subrange(0, n - 1));
        n = n - 1;
    }
    assert(chain_name(id@.subrange(0, n as int)) == id@.subrange(0, n as int));
    let mut name: Vec<u8> = Vec::new();
    let mut i: usize = 0;
    while i < n
        invariant
            n <= 4,
            i <= n,
            chain_name(id@) == id@.subrange(0, n as int),
            name@ == id@.subrange(0, i as int),
            all_ascii(name@),
        decreases n - i,
    {
        if id[i] >= 128 {
            assert(chain_name(id@)[i as int] >= 128);
            return Err(BridgeError::InvalidArgument);
        }
        name.push(id[i]);
        i = i + 1;
        assert(name@ =~= id@.subrange(0, i as int));
    }
    Ok(name)
}

/// Whether two chain codes are equal.
pub fn same_chain_id(a: &BlockchainId, b: &BlockchainId) -> (r: bool)
    ensures
        r == (a@ == b@),
{
    let mut i: usize = 0;
    while i < 4
        invariant
            i <= 4,
            forall|j: int| 0 <= j < i ==> a@[j] == b@[j],
        decreases 4 - i,
    {
        if a[i] != b[i] {
            return false;
        }
        i = i + 1;
    }
    assert(a@ =~= b@);
    true
}

} // verus!
