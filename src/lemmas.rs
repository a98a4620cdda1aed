use vstd::prelude::*;

use crate::account::{recorded_decimals, token_account_decodes, AccountHandle};
use crate::address::{program_address, token_program_key};
use crate::error::ProcessError;
use crate::token::{base_amount, burn_outcome, create_ata_outcome, create_mint_outcome, mint_tag};
use vstd::arithmetic::power::{lemma_pow1, lemma_pow_increases, pow};

verus! {

/// The two handle lists carry the same addresses and the same signer and
/// writable flags, whatever the accounts hold or who owns them.
pub open spec fn same_handles(a: Seq<AccountHandle>, b: Seq<AccountHandle>) -> bool {
    &&& a.len() == b.len()
    &&& forall|i: int|
        0 <= i < a.len() ==> {
            &&& (#[trigger] a[i]).key@ == b[i].key@
            &&& a[i].is_signer == b[i].is_signer
            &&& a[i].is_writable == b[i].is_writable
        }
}

/// Creating the mint accepts one address only for a given program and
/// disambiguator: two successful creations with the same program and
/// disambiguator were handed the same mint address.
pub proof fn lemma_mint_address_determined(
    program_id: Seq<u8>,
    bump: u8,
    accounts1: Seq<AccountHandle>,
    accounts2: Seq<AccountHandle>,
    authority1: Seq<u8>,
    authority2: Seq<u8>,
    decimals1: u8,
    decimals2: u8,
    lamports1: u64,
    lamports2: u64,
)
    requires
        create_mint_outcome(program_id, accounts1, authority1, bump, decimals1, lamports1) is Ok,
        create_mint_outcome(program_id, accounts2, authority2, bump, decimals2, lamports2) is Ok,
    ensures
        accounts1[1].key@ == accounts2[1].key@,
        program_address(mint_tag(), bump, program_id) == Some(accounts1[1].key@),
{
}

/// Provisioning a holder account looks at addresses and flags only: calling it
/// again after the holder account has been created (its contents and owner
/// changed) gives the same outcome, the same idempotent creation call.
pub proof fn lemma_create_ata_repeatable(before: Seq<AccountHandle>, after: Seq<AccountHandle>)
    requires
        same_handles(before, after),
    ensures
        create_ata_outcome(before) == create_ata_outcome(after),
{
    if before.len() >= 6 {
        assert(before[0].key@ == after[0].key@);
        assert(before[1].key@ == after[1].key@);
        assert(before[2].key@ == after[2].key@);
        assert(before[3].key@ == after[3].key@);
        assert(before[0].is_signer == after[0].is_signer);
    }
}

/// A mint handle whose address is not the derivation for the disambiguator is
/// refused, and no call is issued.
pub proof fn lemma_forged_mint_refused(
    program_id: Seq<u8>,
    accounts: Seq<AccountHandle>,
    authority: Seq<u8>,
    bump: u8,
    decimals: u8,
    lamports: u64,
)
    requires
        accounts.len() >= 4,
        accounts[0].is_signer,
        accounts[1].is_writable,
        accounts[0].key@ != accounts[1].key@,
        program_address(mint_tag(), bump, program_id) != Some(accounts[1].key@),
    ensures
        create_mint_outcome(program_id, accounts, authority, bump, decimals, lamports) == Err::<
            Seq<crate::call::ForwardedView>,
            ProcessError,
        >(
            if program_address(mint_tag(), bump, program_id) is None {
                ProcessError::InvalidDerivation
            } else {
                ProcessError::AddressMismatch
            },
        ),
{
}

/// Burning without the owner's signature is refused with `MissingSignature`
/// before any account is read, and no call is issued.
pub proof fn lemma_unsigned_burn_refused(accounts: Seq<AccountHandle>, amount_ui: u64)
    requires
        accounts.len() >= 4,
        !accounts[1].is_signer,
    ensures
        burn_outcome(accounts, amount_ui) == Err::<Seq<crate::call::ForwardedView>, ProcessError>(
            ProcessError::MissingSignature,
        ),
{
}

/// The largest whole-unit amount cannot be scaled to base units when the mint
/// has at least one decimal.
pub proof fn lemma_max_amount_overflows(decimals: u8)
    requires
        decimals >= 1,
    ensures
        base_amount(u64::MAX, decimals) is None,
{
    lemma_pow1(10);
    lemma_pow_increases(10, 1, decimals as nat);
    assert(u64::MAX * pow(10, decimals as nat) > u64::MAX) by (nonlinear_arith)
        requires
            pow(10, decimals as nat) >= 10,
    ;
}

/// Burning the largest whole-unit amount from a valid holder account of a mint
/// with at least one decimal fails with `ArithmeticOverflow`, and no call is
/// issued.
pub proof fn lemma_max_burn_overflows(accounts: Seq<AccountHandle>)
    requires
        accounts.len() >= 4,
        accounts[1].is_signer,
        accounts[2].key@ != accounts[0].key@,
        accounts[2].key@ != accounts[1].key@,
        accounts[0].owner@ == token_program_key(),
        accounts[2].owner@ == token_program_key(),
        token_account_decodes(accounts[2].data@),
        accounts[2].data@.subrange(0, 32) == accounts[0].key@,
        accounts[2].data@.subrange(32, 64) == accounts[1].key@,
        recorded_decimals(accounts[0].data@) matches Ok(d) && d >= 1,
    ensures
        burn_outcome(accounts, u64::MAX) == Err::<Seq<crate::call::ForwardedView>, ProcessError>(
            ProcessError::ArithmeticOverflow,
        ),
{
    lemma_max_amount_overflows(recorded_decimals(accounts[0].data@)->Ok_0);
}

/// A holder account that names another mint than the one supplied is refused
/// with `InconsistentState`, and no burn call is issued.
pub proof fn lemma_burn_linkage_mismatch_refused(accounts: Seq<AccountHandle>, amount_ui: u64)
    requires
        accounts.len() >= 4,
        accounts[1].is_signer,
        accounts[2].key@ != accounts[0].key@,
        accounts[2].key@ != accounts[1].key@,
        accounts[0].owner@ == token_program_key(),
        accounts[2].owner@ == token_program_key(),
        token_account_decodes(accounts[2].data@),
        accounts[2].data@.subrange(0, 32) != accounts[0].key@,
    ensures
        burn_outcome(accounts, amount_ui) == Err::<Seq<crate::call::ForwardedView>, ProcessError>(
            ProcessError::InconsistentState,
        ),
{
}

} // verus!
