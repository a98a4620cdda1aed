use vstd::prelude::*;

use crate::address::{
    associated_token_address, associated_token_program_key, system_program_key, token_program_key,
    Address,
};
use solana_program::pubkey::Pubkey;

verus! {

/// One account named by an outbound call, with the access it is given.
#[derive(Clone, Copy, Debug)]
pub struct AccountLink {
    pub address: Address,
    pub is_signer: bool,
    pub is_writable: bool,
}

impl View for AccountLink {
    type V = (Seq<u8>, bool, bool);

    open spec fn view(&self) -> (Seq<u8>, bool, bool) {
        (self.address@, self.is_signer, self.is_writable)
    }
}

/// An instruction for another program: its address, accounts and payload.
#[derive(Clone, Debug)]
pub struct CallRequest {
    pub program_id: Address,
    pub accounts: Vec<AccountLink>,
    pub data: Vec<u8>,
}

/// The mathematical form of a `CallRequest`.
pub struct CallView {
    pub program_id: Seq<u8>,
    pub accounts: Seq<(Seq<u8>, bool, bool)>,
    pub data: Seq<u8>,
}

impl View for CallRequest {
    type V = CallView;

    open spec fn view(&self) -> CallView {
        CallView {
            program_id: self.program_id@,
            accounts: self.accounts@.map_values(|l: AccountLink| l@),
            data: self.data@,
        }
    }
}

/// A call to forward through the host, with the positions of the handles to
/// hand along and the seeds by which this program signs for a derived address
/// (empty where no signature is needed).
#[derive(Clone, Debug)]
pub struct ForwardedCall {
    pub request: CallRequest,
    pub handles: Vec<usize>,
    pub signer_seeds: Vec<Vec<u8>>,
}

/// The mathematical form of a `ForwardedCall`.
pub struct ForwardedView {
    pub request: CallView,
    pub handles: Seq<usize>,
    pub signer_seeds: Seq<Seq<u8>>,
}

impl View for ForwardedCall {
    type V = ForwardedView;

    open spec fn view(&self) -> ForwardedView {
        ForwardedView {
            request: self.request@,
            handles: self.handles@,
            signer_seeds: self.signer_seeds@.map_values(|s: Vec<u8>| s@),
        }
    }
}

/// The little-endian bytes of `x`.
pub open spec fn le_u64(x: u64) -> Seq<u8> {
    seq![
        (x & 0xff) as u8,
        ((x >> 8u64) & 0xff) as u8,
        ((x >> 16u64) & 0xff) as u8,
        ((x >> 24u64) & 0xff) as u8,
        ((x >> 32u64) & 0xff) as u8,
        ((x >> 40u64) & 0xff) as u8,
        ((x >> 48u64) & 0xff) as u8,
        ((x >> 56u64) & 0xff) as u8,
    ]
}

/// The system program's `CreateAccount` payload: variant 0 as a four-byte
/// tag, then lamports, space and owner.
pub open spec fn create_account_data(lamports: u64, space: u64, owner: Seq<u8>) -> Seq<u8> {
    seq![0u8, 0, 0, 0] + le_u64(lamports) + le_u64(space) + owner
}

/// The token program's `InitializeMint2` payload, without a freeze authority.
pub open spec fn initialize_mint2_data(authority: Seq<u8>, decimals: u8) -> Seq<u8> {
    seq![20u8, decimals] + authority + seq![0u8]
}

/// The token program's `BurnChecked` payload.
pub open spec fn burn_checked_data(amount: u64, decimals: u8) -> Seq<u8> {
    seq![15u8] + le_u64(amount) + seq![decimals]
}

/// The system program's `CreateAccount` call.
pub open spec fn create_account_call(
    from: Seq<u8>,
    to: Seq<u8>,
    lamports: u64,
    space: u64,
    owner: Seq<u8>,
) -> CallView {
    CallView {
        program_id: system_program_key(),
        accounts: seq![(from, true, true), (to, true, true)],
        data: create_account_data(lamports, space, owner),
    }
}

/// The token program's `InitializeMint2` call.
pub open spec fn initialize_mint2_call(mint: Seq<u8>, authority: Seq<u8>, decimals: u8) -> CallView {
    CallView {
        program_id: token_program_key(),
        accounts: seq![(mint, false, true)],
        data: initialize_mint2_data(authority, decimals),
    }
}

/// The associated-token-account program's `CreateIdempotent` call.
pub open spec fn create_idempotent_call(
    payer: Seq<u8>,
    wallet: Seq<u8>,
    mint: Seq<u8>,
    token_program: Seq<u8>,
) -> CallView {
    CallView {
        program_id: associated_token_program_key(),
        accounts: seq![
            (payer, true, true),
            (associated_token_address(wallet, mint, token_program), false, true),
            (wallet, false, false),
            (mint, false, false),
            (system_program_key(), false, false),
            (token_program, false, false),
        ],
        data: seq![1u8],
    }
}

/// The token program's `BurnChecked` call, signed by the authority itself.
pub open spec fn burn_checked_call(
    account: Seq<u8>,
    mint: Seq<u8>,
    authority: Seq<u8>,
    amount: u64,
    decimals: u8,
) -> CallView {
    CallView {
        program_id: token_program_key(),
        accounts: seq![(account, false, true), (mint, false, true), (authority, true, false)],
        data: burn_checked_data(amount, decimals),
    }
}

/// Relies on `solana_system_interface::instruction::create_account`: the
/// system program's `CreateAccount` with `from` and `to` as writable signers.
#[verifier::external_body]
pub(crate) fn create_account(from: &Address, to: &Address, lamports: u64, space: u64, owner: &Address) -> (r: CallRequest)
    ensures
        r@ == create_account_call(from@, to@, lamports, space, owner@),
{
    let k = |a: &Address| Pubkey::new_from_array(a.bytes);
    let ix = solana_system_interface::instruction::create_account(&k(from), &k(to), lamports, space, &k(owner));
    let accounts = ix.accounts.iter().map(|m| AccountLink { address: Address { bytes: m.pubkey.to_bytes() }, is_signer: m.is_signer, is_writable: m.is_writable });
    CallRequest { program_id: Address { bytes: ix.program_id.to_bytes() }, accounts: accounts.collect(), data: ix.data }
}

/// Relies on `spl_token::instruction::initialize_mint2` with no freeze
/// authority: it fails only where `token_program` is not the token program.
#[verifier::external_body]
pub(crate) fn initialize_mint2(token_program: &Address, mint: &Address, authority: &Address, decimals: u8) -> (r: Option<CallRequest>)
    ensures
        r is Some <==> token_program@ == token_program_key(),
        r matches Some(c) ==> c@ == initialize_mint2_call(mint@, authority@, decimals),
{
    let k = |a: &Address| Pubkey::new_from_array(a.bytes);
    let ix = spl_token::instruction::initialize_mint2(&k(token_program), &k(mint), &k(authority), None, decimals).ok()?;
    let accounts = ix.accounts.iter().map(|m| AccountLink { address: Address { bytes: m.pubkey.to_bytes() }, is_signer: m.is_signer, is_writable: m.is_writable });
    Some(CallRequest { program_id: Address { bytes: ix.program_id.to_bytes() }, accounts: accounts.collect(), data: ix.data })
}

/// Relies on `spl_associated_token_account::instruction::create_associated_token_account_idempotent`:
/// the `CreateIdempotent` call for the wallet's associated account.
#[verifier::external_body]
pub(crate) fn create_associated_token_account_idempotent(payer: &Address, wallet: &Address, mint: &Address, token_program: &Address) -> (r: CallRequest)
    ensures
        r@ == create_idempotent_call(payer@, wallet@, mint@, token_program@),
{
    let k = |a: &Address| Pubkey::new_from_array(a.bytes);
    let ix = spl_associated_token_account::instruction::create_associated_token_account_idempotent(&k(payer), &k(wallet), &k(mint), &k(token_program));
    let accounts = ix.accounts.iter().map(|m| AccountLink { address: Address { bytes: m.pubkey.to_bytes() }, is_signer: m.is_signer, is_writable: m.is_writable });
    CallRequest { program_id: Address { bytes: ix.program_id.to_bytes() }, accounts: accounts.collect(), data: ix.data }
}

/// Relies on `spl_token::instruction::burn_checked` with no multisignature
/// signers: it fails only where `token_program` is not the token program.
#[verifier::external_body]
pub(crate) fn burn_checked(token_program: &Address, account: &Address, mint: &Address, authority: &Address, amount: u64, decimals: u8) -> (r: Option<CallRequest>)
    ensures
        r is Some <==> token_program@ == token_program_key(),
        r matches Some(c) ==> c@ == burn_checked_call(account@, mint@, authority@, amount, decimals),
{
    let k = |a: &Address| Pubkey::new_from_array(a.bytes);
    let ix = spl_token::instruction::burn_checked(&k(token_program), &k(account), &k(mint), &k(authority), &[], amount, decimals).ok()?;
    let accounts = ix.accounts.iter().map(|m| AccountLink { address: Address { bytes: m.pubkey.to_bytes() }, is_signer: m.is_signer, is_writable: m.is_writable });
    Some(CallRequest { program_id: Address { bytes: ix.program_id.to_bytes() }, accounts: accounts.collect(), data: ix.data })
}

} // verus!
