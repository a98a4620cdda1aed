use vstd::prelude::*;

use crate::address::Address;
use crate::error::ProcessError;
use spl_token::solana_program::program_pack::Pack;

verus! {

/// What the host runtime tells this program about one account handle.
#[derive(Clone, Debug)]
pub struct AccountHandle {
    pub key: Address,
    /// The program that owns the account.
    pub owner: Address,
    pub is_signer: bool,
    pub is_writable: bool,
    pub data: Vec<u8>,
}

/// The fields of a token account that the handlers read.
#[derive(Clone, Copy, Debug)]
pub struct TokenAccountState {
    pub mint: Address,
    pub owner: Address,
}

/// The four-byte tag of an optional field starts at `at` and reads "none" or "some".
pub open spec fn option_tag_ok(data: Seq<u8>, at: int) -> bool {
    data.subrange(at, at + 4) == seq![0u8, 0, 0, 0] || data.subrange(at, at + 4) == seq![
        1u8,
        0,
        0,
        0,
    ]
}

/// `data` is an initialised token-account record (165 bytes).
pub open spec fn token_account_decodes(data: Seq<u8>) -> bool {
    &&& data.len() == 165
    &&& option_tag_ok(data, 72)
    &&& (data[108] == 1 || data[108] == 2)
    &&& option_tag_ok(data, 109)
    &&& option_tag_ok(data, 129)
}

/// `data` is an initialised mint record (82 bytes).
pub open spec fn mint_decodes(data: Seq<u8>) -> bool {
    &&& data.len() == 82
    &&& option_tag_ok(data, 0)
    &&& data[45] == 1
    &&& option_tag_ok(data, 46)
}

/// Relies on `spl_token::state::Account::unpack`: it accepts exactly the
/// initialised 165-byte records and reads the mint at bytes 0..32 and the
/// owner at bytes 32..64.
#[verifier::external_body]
fn unpack_token_account(data: &[u8]) -> (r: Option<TokenAccountState>)
    ensures
        r is Some <==> token_account_decodes(data@),
        r matches Some(s) ==> s.mint@ == data@.subrange(0, 32) && s.owner@ == data@.subrange(
            32,
            64,
        ),
{
    spl_token::state::Account::unpack(data).ok().map(
        |a|
            TokenAccountState {
                mint: Address { bytes: a.mint.to_bytes() },
                owner: Address { bytes: a.owner.to_bytes() },
            },
    )
}

/// Relies on `spl_token::state::Mint::unpack`: it accepts exactly the
/// initialised 82-byte records and reads the decimals at byte 44.
#[verifier::external_body]
fn unpack_mint_decimals(data: &[u8]) -> (r: Option<u8>)
    ensures
        r is Some <==> mint_decodes(data@),
        r matches Some(d) ==> d == data@[44],
{
    spl_token::state::Mint::unpack(data).ok().map(|m| m.decimals)
}

/// Fails with `MissingSignature` unless the handle signed.
pub fn require_signer(handle: &AccountHandle) -> (r: Result<(), ProcessError>)
    ensures
        r == (if handle.is_signer {
            Ok(())
        } else {
            Err(ProcessError::MissingSignature)
        }),
{
    if handle.is_signer {
        Ok(())
    } else {
        Err(ProcessError::MissingSignature)
    }
}

/// Fails with `NotWritable` unless the handle is writable.
pub fn require_writable(handle: &AccountHandle) -> (r: Result<(), ProcessError>)
    ensures
        r == (if handle.is_writable {
            Ok(())
        } else {
            Err(ProcessError::NotWritable)
        }),
{
    if handle.is_writable {
        Ok(())
    } else {
        Err(ProcessError::NotWritable)
    }
}

/// Fails with `UnexpectedOwner` unless `program` owns the account.
pub fn require_owned_by(handle: &AccountHandle, program: &Address) -> (r: Result<(), ProcessError>)
    ensures
        r == (if handle.owner@ == program@ {
            Ok(())
        } else {
            Err(ProcessError::UnexpectedOwner)
        }),
{
    if handle.owner.same_as(program) {
        Ok(())
    } else {
        Err(ProcessError::UnexpectedOwner)
    }
}

/// Fails with `AddressMismatch` unless the handle's address is `expected`.
pub fn require_address_equals(handle: &AccountHandle, expected: &Address) -> (r: Result<
    (),
    ProcessError,
>)
    ensures
        r == (if handle.key@ == expected@ {
            Ok(())
        } else {
            Err(ProcessError::AddressMismatch)
        }),
{
    if handle.key.same_as(expected) {
        Ok(())
    } else {
        Err(ProcessError::AddressMismatch)
    }
}

/// Fails with `AliasedAccounts` where two handles name the same account.
pub fn require_distinct(a: &AccountHandle, b: &AccountHandle) -> (r: Result<(), ProcessError>)
    ensures
        r == (if a.key@ != b.key@ {
            Ok(())
        } else {
            Err(ProcessError::AliasedAccounts)
        }),
{
    if a.key.same_as(&b.key) {
        Err(ProcessError::AliasedAccounts)
    } else {
        Ok(())
    }
}

/// Checks a handle against the outcome of an address derivation: no address
/// gives `InvalidDerivation`, another address gives `AddressMismatch`.
pub fn require_derived_address(handle: &AccountHandle, derived: Option<Address>) -> (r: Result<
    (),
    ProcessError,
>)
    ensures
        r == (match derived {
            None => Err(ProcessError::InvalidDerivation),
            Some(a) => if handle.key@ == a@ {
                Ok(())
            } else {
                Err(ProcessError::AddressMismatch)
            },
        }),
{
    match derived {
        None => Err(ProcessError::InvalidDerivation),
        Some(a) => require_address_equals(handle, &a),
    }
}

/// The linkage a decoded token account must show: it belongs to `mint` and
/// to `owner`.
pub open spec fn holder_linkage(data: Seq<u8>, mint: Seq<u8>, owner: Seq<u8>) -> Result<
    (),
    ProcessError,
> {
    if !token_account_decodes(data) {
        Err(ProcessError::MalformedAccountData)
    } else if data.subrange(0, 32) == mint && data.subrange(32, 64) == owner {
        Ok(())
    } else {
        Err(ProcessError::InconsistentState)
    }
}

/// Decodes the holder's token account and checks its mint and owner links.
pub fn check_holder_linkage(holder: &AccountHandle, mint: &Address, owner: &Address) -> (r: Result<
    (),
    ProcessError,
>)
    ensures
        r == holder_linkage(holder.data@, mint@, owner@),
{
    match unpack_token_account(holder.data.as_slice()) {
        None => Err(ProcessError::MalformedAccountData),
        Some(state) => {
            if state.mint.same_as(mint) && state.owner.same_as(owner) {
                Ok(())
            } else {
                Err(ProcessError::InconsistentState)
            }
        },
    }
}

/// The decimals recorded in a mint account, or `MalformedAccountData`.
pub open spec fn recorded_decimals(data: Seq<u8>) -> Result<u8, ProcessError> {
    if mint_decodes(data) {
        Ok(data[44])
    } else {
        Err(ProcessError::MalformedAccountData)
    }
}

/// Decodes a mint account and returns its decimals.
pub fn read_mint_decimals(mint: &AccountHandle) -> (r: Result<u8, ProcessError>)
    ensures
        r == recorded_decimals(mint.data@),
{
    match unpack_mint_decimals(mint.data.as_slice()) {
        None => Err(ProcessError::MalformedAccountData),
        Some(d) => Ok(d),
    }
}

} // verus!
