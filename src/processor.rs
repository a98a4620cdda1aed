use vstd::prelude::*;

use crate::account::AccountHandle;
use crate::address::Address;
use crate::call::{ForwardedCall, ForwardedView};
use crate::error::ProcessError;
use crate::instruction::{
    decode_error, ix_bytes, lemma_ix_bytes_injective, undecodable, Ix,
};
use crate::token::{
    burn_outcome, burn_user_tokens, create_and_init_mint, create_ata_for, create_ata_outcome,
    create_mint_outcome, outcome_view,
};

verus! {

/// What an instruction does, given the handles supplied with it.
pub open spec fn dispatch_outcome(
    ix: Ix,
    program_id: Seq<u8>,
    accounts: Seq<AccountHandle>,
    mint_rent_lamports: u64,
) -> Result<Seq<ForwardedView>, ProcessError> {
    match ix {
        Ix::CreateAndInitMint { mint_authority, decimals, bump } => create_mint_outcome(
            program_id,
            accounts,
            mint_authority@,
            bump,
            decimals,
            mint_rent_lamports,
        ),
        Ix::CreateAtaFor => create_ata_outcome(accounts),
        Ix::BurnUserTokens { amount_ui } => burn_outcome(accounts, amount_ui),
    }
}

/// Decodes `data` and runs the operation it names against `accounts`.
///
/// `mint_rent_lamports` is the rent-exempt balance of a mint record, used when
/// the mint is created. A payload that is no instruction's fails before any
/// account is looked at. On success the result lists the calls to forward,
/// in order; the first that fails aborts the whole call.
pub fn process_instruction(
    program_id: &Address,
    accounts: &Vec<AccountHandle>,
    data: &[u8],
    mint_rent_lamports: u64,
) -> (r: Result<Vec<ForwardedCall>, ProcessError>)
    ensures
        undecodable(data@) ==> r == Err::<Vec<ForwardedCall>, ProcessError>(decode_error(data@)),
        forall|ix: Ix|
            #[trigger] ix_bytes(ix) == data@ ==> outcome_view(r) == dispatch_outcome(
                ix,
                program_id@,
                accounts@,
                mint_rent_lamports,
            ),
{
    let ix = match Ix::unpack(data) {
        Ok(ix) => ix,
        Err(e) => return Err(e),
    };
    let r = match ix {
        Ix::CreateAndInitMint { mint_authority, decimals, bump } => create_and_init_mint(
            program_id,
            accounts,
            &mint_authority,
            bump,
            decimals,
            mint_rent_lamports,
        ),
        Ix::CreateAtaFor => create_ata_for(accounts),
        Ix::BurnUserTokens { amount_ui } => burn_user_tokens(accounts, amount_ui),
    };
    assert forall|other: Ix| #[trigger] ix_bytes(other) == data@ implies outcome_view(r)
        == dispatch_outcome(other, program_id@, accounts@, mint_rent_lamports) by {
        lemma_ix_bytes_injective(other, ix);
    }
    r
}

} // verus!
