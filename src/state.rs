//! Record tags and the checks shared by every stored record.
use vstd::prelude::*;

use crate::BridgeError;

verus! {

/// The tag in the first byte of a stored record.
#[derive(Clone, Copy, Debug, PartialEq, Eq, Structural)]
pub enum AccountKey {
    Uninitialized,
    Bridge,
    Manager,
    Token,
}

impl AccountKey {
    /// The tag byte of this kind.
    pub open spec fn spec_tag(self) -> u8 {
        match self {
            AccountKey::Uninitialized => 0,
            AccountKey::Bridge => 1,
            AccountKey::Manager => 2,
            AccountKey::Token => 3,
        }
    }

    #[verifier::when_used_as_spec(spec_tag)]
    pub fn tag(self) -> (r: u8)
        ensures
            r == self.spec_tag(),
    {
        match self {
            AccountKey::Uninitialized => 0,
            AccountKey::Bridge => 1,
            AccountKey::Manager => 2,
            AccountKey::Token => 3,
        }
    }
}

/// Checks the framing of a stored record: exactly `data_size` bytes, the
/// first of which is the tag of `data_type`.
pub fn try_from_slice_checked(data: &[u8], data_type: AccountKey, data_size: usize) -> (r: Result<
    (),
    BridgeError,
>)
    ensures
        r is Ok <==> (data@.len() == data_size && data@.len() > 0 && data@[0] == data_type.spec_tag()),
        r is Err ==> r == Err::<(), BridgeError>(BridgeError::InvalidAccountData),
{
    if data.len() != data_size || data.len() == 0 || data[0] != data_type.tag() {
        Err(BridgeError::InvalidAccountData)
    } else {
        Ok(())
    }
}

/// Succeeds exactly when the slot is non-empty and its tag byte is still
/// the uninitialized one.
pub fn assert_uninitialized(data: &[u8]) -> (r: Result<(), BridgeError>)
    ensures
        r is Ok <==> (data@.len() > 0 && data@[0] == AccountKey::Uninitialized.spec_tag()),
        r is Err ==> r == Err::<(), BridgeError>(BridgeError::AccountAlreadyInitialized),
{
    if data.len() > 0 && data[0] == AccountKey::Uninitialized.tag() {
        Ok(())
    } else {
        Err(BridgeError::AccountAlreadyInitialized)
    }
}

/// Checks that a slot of `data_len` bytes can hold a record of `size` bytes,
/// given the host's verdict `exempt` on whether its balance is rent-exempt.
pub fn assert_rent_exempt(data_len: usize, size: usize, exempt: bool) -> (r: Result<
    (),
    BridgeError,
>)
    ensures
        data_len < size ==> r == Err::<(), BridgeError>(BridgeError::AccountDataTooSmall),
        data_len >= size && !exempt ==> r == Err::<(), BridgeError>(
            BridgeError::AccountNotRentExempt,
        ),
        data_len >= size && exempt ==> r == Ok::<(), BridgeError>(()),
{
    if data_len < size {
        return Err(BridgeError::AccountDataTooSmall);
    }
    if !exempt {
        Err(BridgeError::AccountNotRentExempt)
    } else {
        Ok(())
    }
}

} // verus!
