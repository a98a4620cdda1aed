use vstd::prelude::*;

use crate::account::{
    check_holder_linkage, holder_linkage, read_mint_decimals, recorded_decimals, require_owned_by,
    require_signer, require_writable, require_derived_address, require_address_equals, require_distinct,
    AccountHandle,
};
use crate::address::{
    associated_token_address, create_program_address, get_associated_token_address,
    program_address, token_program_id, token_program_key, Address,
};
use crate::call::{
    burn_checked, burn_checked_call, create_account, create_account_call,
    create_associated_token_account_idempotent, create_idempotent_call, initialize_mint2,
    initialize_mint2_call, ForwardedCall, ForwardedView,
};
use crate::error::ProcessError;
use spl_token::solana_program::program_pack::Pack;
use vstd::arithmetic::power::{lemma_pow0, lemma_pow1, lemma_pow_adds, lemma_pow_positive, pow};

verus! {

/// The tag from which the mint's address is derived: the bytes of "MINT".
pub open spec fn mint_tag() -> Seq<u8> {
    seq![77u8, 73, 78, 84]
}

/// Size in bytes of a mint record of the token program.
pub open spec fn mint_record_len() -> u64 {
    82
}

/// `amount_ui` whole tokens in base units, or `None` where that leaves the
/// 64-bit range.
pub open spec fn base_amount(amount_ui: u64, decimals: u8) -> Option<u64> {
    if amount_ui * pow(10, decimals as nat) <= u64::MAX {
        Some((amount_ui * pow(10, decimals as nat)) as u64)
    } else {
        None
    }
}

/// The views of a list of forwarded calls.
pub open spec fn call_views(calls: Seq<ForwardedCall>) -> Seq<ForwardedView> {
    calls.map_values(|c: ForwardedCall| c@)
}

/// The outcome of a handler, with its calls taken to their views.
pub open spec fn outcome_view(r: Result<Vec<ForwardedCall>, ProcessError>) -> Result<
    Seq<ForwardedView>,
    ProcessError,
> {
    match r {
        Ok(calls) => Ok(call_views(calls@)),
        Err(e) => Err(e),
    }
}

/// What creating the mint does, given the account handles
/// `[payer, mint, system program, token program]`.
pub open spec fn create_mint_outcome(
    program_id: Seq<u8>,
    accounts: Seq<AccountHandle>,
    mint_authority: Seq<u8>,
    bump: u8,
    decimals: u8,
    lamports: u64,
) -> Result<Seq<ForwardedView>, ProcessError> {
    if accounts.len() < 4 {
        Err(ProcessError::NotEnoughAccountKeys)
    } else if !accounts[0].is_signer {
        Err(ProcessError::MissingSignature)
    } else if !accounts[1].is_writable {
        Err(ProcessError::NotWritable)
    } else if accounts[0].key@ == accounts[1].key@ {
        Err(ProcessError::AliasedAccounts)
    } else if program_address(mint_tag(), bump, program_id) is None {
        Err(ProcessError::InvalidDerivation)
    } else if program_address(mint_tag(), bump, program_id) != Some(accounts[1].key@) {
        Err(ProcessError::AddressMismatch)
    } else {
        Ok(
            seq![
                ForwardedView {
                    request: create_account_call(
                        accounts[0].key@,
                        accounts[1].key@,
                        lamports,
                        mint_record_len(),
                        token_program_key(),
                    ),
                    handles: seq![3usize, 0, 1, 2],
                    signer_seeds: seq![mint_tag(), seq![bump]],
                },
                ForwardedView {
                    request: initialize_mint2_call(accounts[1].key@, mint_authority, decimals),
                    handles: seq![1usize],
                    signer_seeds: seq![],
                },
            ],
        )
    }
}

/// Relies on `spl_token::state::Mint::LEN`: the size of a mint record.
#[verifier::external_body]
fn mint_len() -> (r: u64)
    ensures
        r == mint_record_len(),
{
    spl_token::state::Mint::LEN as u64
}

fn mint_tag_bytes() -> (r: Vec<u8>)
    ensures
        r@ == mint_tag(),
{
    let r: Vec<u8> = vec![77u8, 73, 78, 84];
    assert(r@ =~= mint_tag());
    r
}

/// Creates the token mint at the address derived from "MINT" and `bump`, and
/// initialises it with `mint_authority` and `token_decimals`.
///
/// Accounts: `[payer (signer), mint (writable), system program, token program]`,
/// the payer and the mint distinct. `lamports` is the balance that makes a mint record rent-exempt. The result
/// lists the calls to forward, in order: allocating the mint (signed for by
/// this program) and initialising it.
pub fn create_and_init_mint(
    program_id: &Address,
    accounts: &Vec<AccountHandle>,
    mint_authority: &Address,
    bump: u8,
    token_decimals: u8,
    lamports: u64,
) -> (r: Result<Vec<ForwardedCall>, ProcessError>)
    ensures
        outcome_view(r) == create_mint_outcome(
            program_id@,
            accounts@,
            mint_authority@,
            bump,
            token_decimals,
            lamports,
        ),
{
    if accounts.len() < 4 {
        return Err(ProcessError::NotEnoughAccountKeys);
    }
    let payer = &accounts[0];
    let token_mint = &accounts[1];
    require_signer(payer)?;
    require_writable(token_mint)?;
    require_distinct(payer, token_mint)?;
    let tag = mint_tag_bytes();
    let expected = create_program_address(&tag, bump, program_id);
    require_derived_address(token_mint, expected)?;

    let token_program = token_program_id();
    let space = mint_len();
    let allocate = create_account(&payer.key, &token_mint.key, lamports, space, &token_program);
    let initialize = match initialize_mint2(
        &token_program,
        &token_mint.key,
        mint_authority,
        token_decimals,
    ) {
        Some(c) => c,
        None => return Err(ProcessError::IncorrectProgramId),
    };
    let disambiguator: Vec<u8> = vec![bump];
    assert(disambiguator@ =~= seq![bump]);
    let seeds: Vec<Vec<u8>> = vec![tag, disambiguator];
    let first = ForwardedCall { request: allocate, handles: vec![3usize, 0, 1, 2], signer_seeds: seeds };
    let second = ForwardedCall { request: initialize, handles: vec![1usize], signer_seeds: Vec::new() };
    let calls: Vec<ForwardedCall> = vec![first, second];
    assert(first@.handles =~= seq![3usize, 0, 1, 2]);
    assert(first@.signer_seeds =~= seq![mint_tag(), seq![bump]]);
    assert(second@.handles =~= seq![1usize]);
    assert(second@.signer_seeds =~= Seq::<Seq<u8>>::empty());
    assert(call_views(calls@) =~= seq![first@, second@]);
    Ok(calls)
}

/// What provisioning a holder account does, given the account handles
/// `[payer, owner, holder account, mint, token program, system program]`.
pub open spec fn create_ata_outcome(accounts: Seq<AccountHandle>) -> Result<
    Seq<ForwardedView>,
    ProcessError,
> {
    if accounts.len() < 6 {
        Err(ProcessError::NotEnoughAccountKeys)
    } else if accounts[2].key@ != associated_token_address(
        accounts[1].key@,
        accounts[3].key@,
        token_program_key(),
    ) {
        Err(ProcessError::AddressMismatch)
    } else if !accounts[0].is_signer {
        Err(ProcessError::MissingSignature)
    } else if accounts[0].key@ == accounts[2].key@ {
        Err(ProcessError::AliasedAccounts)
    } else {
        Ok(
            seq![
                ForwardedView {
                    request: create_idempotent_call(
                        accounts[0].key@,
                        accounts[1].key@,
                        accounts[3].key@,
                        token_program_key(),
                    ),
                    handles: seq![0usize, 2, 1, 3, 5, 4],
                    signer_seeds: seq![],
                },
            ],
        )
    }
}

/// Provisions the owner's associated token account for the mint, whether or
/// not it exists already.
///
/// Accounts: `[payer (signer), owner, holder account (writable), mint, token
/// program, system program]`. The holder account must be the associated
/// account of the owner and the mint, and differ from the payer. The result is the one idempotent
/// creation call to forward.
pub fn create_ata_for(accounts: &Vec<AccountHandle>) -> (r: Result<Vec<ForwardedCall>, ProcessError>)
    ensures
        outcome_view(r) == create_ata_outcome(accounts@),
{
    if accounts.len() < 6 {
        return Err(ProcessError::NotEnoughAccountKeys);
    }
    let payer = &accounts[0];
    let owner = &accounts[1];
    let holder = &accounts[2];
    let token_mint = &accounts[3];
    let token_program = token_program_id();
    let expected = get_associated_token_address(&owner.key, &token_mint.key, &token_program);
    require_address_equals(holder, &expected)?;
    require_signer(payer)?;
    require_distinct(payer, holder)?;

    let request = create_associated_token_account_idempotent(
        &payer.key,
        &owner.key,
        &token_mint.key,
        &token_program,
    );
    let call = ForwardedCall {
        request,
        handles: vec![0usize, 2, 1, 3, 5, 4],
        signer_seeds: Vec::new(),
    };
    assert(call@.handles =~= seq![0usize, 2, 1, 3, 5, 4]);
    assert(call@.signer_seeds =~= Seq::<Seq<u8>>::empty());
    let calls: Vec<ForwardedCall> = vec![call];
    assert(call_views(calls@) =~= seq![call@]);
    Ok(calls)
}

/// Converts `amount_ui` whole tokens to base units, `amount_ui * 10^decimals`,
/// or `None` where that exceeds `u64::MAX`.
pub fn ui_to_base(amount_ui: u64, decimals: u8) -> (r: Option<u64>)
    ensures
        r == base_amount(amount_ui, decimals),
{
    let mut acc: u64 = amount_ui;
    let mut i: u8 = 0;
    proof {
        lemma_pow0(10);
    }
    while i < decimals
        invariant
            i <= decimals,
            acc == amount_ui * pow(10, i as nat),
        decreases decimals - i,
    {
        proof {
            lemma_pow1(10);
            lemma_pow_adds(10, i as nat, 1);
            lemma_pow_positive(10, i as nat);
        }
        match acc.checked_mul(10) {
            Some(v) => {
                assert(v == amount_ui * pow(10, (i + 1) as nat)) by (nonlinear_arith)
                    requires
                        v == acc * 10,
                        acc == amount_ui * pow(10, i as nat),
                        pow(10, (i + 1) as nat) == pow(10, i as nat) * 10,
                ;
                acc = v;
            },
            None => {
                proof {
                    let rest = (decimals - i - 1) as nat;
                    lemma_pow_adds(10, (i + 1) as nat, rest);
                    lemma_pow_positive(10, rest);
                    assert(pow(10, decimals as nat) == pow(10, i as nat) * 10 * pow(10, rest))
                        by (nonlinear_arith)
                        requires
                            pow(10, decimals as nat) == pow(10, (i + 1) as nat) * pow(10, rest),
                            pow(10, (i + 1) as nat) == pow(10, i as nat) * 10,
                    ;
                    assert(amount_ui * pow(10, decimals as nat) >= acc * 10) by (nonlinear_arith)
                        requires
                            acc == amount_ui * pow(10, i as nat),
                            pow(10, decimals as nat) == pow(10, i as nat) * 10 * pow(10, rest),
                            pow(10, rest) >= 1,
                            amount_ui >= 0,
                            pow(10, i as nat) >= 0,
                    ;
                }
                return None;
            },
        }
        i = i + 1;
    }
    Some(acc)
}

/// What burning does, given the account handles `[mint, owner, holder account,
/// token program]`.
pub open spec fn burn_outcome(accounts: Seq<AccountHandle>, amount_ui: u64) -> Result<
    Seq<ForwardedView>,
    ProcessError,
> {
    if accounts.len() < 4 {
        Err(ProcessError::NotEnoughAccountKeys)
    } else if !accounts[1].is_signer {
        Err(ProcessError::MissingSignature)
    } else if accounts[2].key@ == accounts[0].key@ || accounts[2].key@ == accounts[1].key@ {
        Err(ProcessError::AliasedAccounts)
    } else if accounts[2].owner@ != token_program_key() || accounts[0].owner@ != token_program_key() {
        Err(ProcessError::UnexpectedOwner)
    } else if holder_linkage(accounts[2].data@, accounts[0].key@, accounts[1].key@) is Err {
        Err(holder_linkage(accounts[2].data@, accounts[0].key@, accounts[1].key@)->Err_0)
    } else if recorded_decimals(accounts[0].data@) is Err {
        Err(recorded_decimals(accounts[0].data@)->Err_0)
    } else if base_amount(amount_ui, recorded_decimals(accounts[0].data@)->Ok_0) is None {
        Err(ProcessError::ArithmeticOverflow)
    } else {
        Ok(
            seq![
                ForwardedView {
                    request: burn_checked_call(
                        accounts[2].key@,
                        accounts[0].key@,
                        accounts[1].key@,
                        base_amount(amount_ui, recorded_decimals(accounts[0].data@)->Ok_0)->Some_0,
                        recorded_decimals(accounts[0].data@)->Ok_0,
                    ),
                    handles: seq![2usize, 0, 1],
                    signer_seeds: seq![],
                },
            ],
        )
    }
}

/// Burns `amount_ui` whole tokens from the owner's holder account.
///
/// Accounts: `[mint, owner (signer), holder account (writable), token program]`.
/// The holder account must differ from the mint and the owner. The mint and
/// the holder account must be owned by the token program, and
/// the holder account must belong to that mint and that owner. The amount is
/// scaled by the mint's recorded decimals, and the result is the one checked
/// burn call to forward.
pub fn burn_user_tokens(accounts: &Vec<AccountHandle>, amount_ui: u64) -> (r: Result<
    Vec<ForwardedCall>,
    ProcessError,
>)
    ensures
        outcome_view(r) == burn_outcome(accounts@, amount_ui),
{
    if accounts.len() < 4 {
        return Err(ProcessError::NotEnoughAccountKeys);
    }
    let mint_account = &accounts[0];
    let owner_account = &accounts[1];
    let holder = &accounts[2];
    require_signer(owner_account)?;
    require_distinct(holder, mint_account)?;
    require_distinct(holder, owner_account)?;
    let token_program = token_program_id();
    require_owned_by(holder, &token_program)?;
    require_owned_by(mint_account, &token_program)?;
    check_holder_linkage(holder, &mint_account.key, &owner_account.key)?;
    let decimals = read_mint_decimals(mint_account)?;
    let amount_base = match ui_to_base(amount_ui, decimals) {
        Some(a) => a,
        None => return Err(ProcessError::ArithmeticOverflow),
    };
    let request = match burn_checked(
        &token_program,
        &holder.key,
        &mint_account.key,
        &owner_account.key,
        amount_base,
        decimals,
    ) {
        Some(c) => c,
        None => return Err(ProcessError::IncorrectProgramId),
    };
    let call = ForwardedCall { request, handles: vec![2usize, 0, 1], signer_seeds: Vec::new() };
    assert(call@.handles =~= seq![2usize, 0, 1]);
    assert(call@.signer_seeds =~= Seq::<Seq<u8>>::empty());
    let calls: Vec<ForwardedCall> = vec![call];
    assert(call_views(calls@) =~= seq![call@]);
    Ok(calls)
}

} // verus!
