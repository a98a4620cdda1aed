use solana_program::instruction::Instruction;
use solana_program::program_option::COption;
use solana_program::program_pack::Pack;
use solana_program::pubkey::Pubkey;
use spl_token::state::{Account as SplAccount, AccountState, Mint as SplMint};

use token_mints::account::AccountHandle;
use token_mints::address::Address;
use token_mints::call::{CallRequest, ForwardedCall};
use token_mints::error::ProcessError;
use token_mints::instruction::Ix;
use token_mints::processor::process_instruction;
use token_mints::token::{burn_user_tokens, create_and_init_mint, create_ata_for, ui_to_base};

const RENT: u64 = 1_461_600;

fn key(n: u8) -> Pubkey {
    Pubkey::new_from_array([n; 32])
}

fn addr(pk: &Pubkey) -> Address {
    Address::new(pk.to_bytes())
}

fn handle(k: &Pubkey, owner: &Pubkey, is_signer: bool, is_writable: bool, data: Vec<u8>) -> AccountHandle {
    AccountHandle { key: addr(k), owner: addr(owner), is_signer, is_writable, data }
}

fn system_id() -> Pubkey {
    Pubkey::new_from_array([0u8; 32])
}

fn mint_data(authority: &Pubkey, decimals: u8) -> Vec<u8> {
    let mint = SplMint {
        mint_authority: COption::Some(*authority),
        supply: 5_000_000,
        decimals,
        is_initialized: true,
        freeze_authority: COption::None,
    };
    let mut data = vec![0u8; SplMint::LEN];
    mint.pack_into_slice(&mut data);
    data
}

fn token_account_data(mint: &Pubkey, owner: &Pubkey, amount: u64) -> Vec<u8> {
    let account = SplAccount {
        mint: *mint,
        owner: *owner,
        amount,
        delegate: COption::None,
        state: AccountState::Initialized,
        is_native: COption::None,
        delegated_amount: 0,
        close_authority: COption::None,
    };
    let mut data = vec![0u8; SplAccount::LEN];
    account.pack_into_slice(&mut data);
    data
}

fn same_request(r: &CallRequest, ix: &Instruction) -> bool {
    r.program_id.bytes == ix.program_id.to_bytes()
        && r.data == ix.data
        && r.accounts.len() == ix.accounts.len()
        && r.accounts.iter().zip(ix.accounts.iter()).all(|(a, m)| {
            a.address.bytes == m.pubkey.to_bytes()
                && a.is_signer == m.is_signer
                && a.is_writable == m.is_writable
        })
}

fn mint_pda(program_id: &Pubkey) -> (Pubkey, u8) {
    Pubkey::find_program_address(&[b"MINT"], program_id)
}

fn mint_accounts(payer: &Pubkey, mint: &Pubkey) -> Vec<AccountHandle> {
    vec![
        handle(payer, &system_id(), true, true, vec![]),
        handle(mint, &system_id(), false, true, vec![]),
        handle(&system_id(), &key(200), false, false, vec![]),
        handle(&spl_token::id(), &key(201), false, false, vec![]),
    ]
}

fn ata_of(owner: &Pubkey, mint: &Pubkey) -> Pubkey {
    #[allow(deprecated)]
    spl_associated_token_account::get_associated_token_address_with_program_id(owner, mint, &spl_token::id())
}

fn ata_accounts(payer: &Pubkey, owner: &Pubkey, holder: &Pubkey, mint: &Pubkey, holder_data: Vec<u8>) -> Vec<AccountHandle> {
    let holder_owner = if holder_data.is_empty() { system_id() } else { spl_token::id() };
    vec![
        handle(payer, &system_id(), true, true, vec![]),
        handle(owner, &system_id(), false, false, vec![]),
        handle(holder, &holder_owner, false, true, holder_data),
        handle(mint, &spl_token::id(), false, false, vec![]),
        handle(&spl_token::id(), &key(201), false, false, vec![]),
        handle(&system_id(), &key(200), false, false, vec![]),
    ]
}

fn burn_accounts(mint: &Pubkey, owner: &Pubkey, holder: &Pubkey, decimals: u8, holder_data: Vec<u8>, owner_signs: bool) -> Vec<AccountHandle> {
    vec![
        handle(mint, &spl_token::id(), false, true, mint_data(&key(9), decimals)),
        handle(owner, &system_id(), owner_signs, true, vec![]),
        handle(holder, &spl_token::id(), false, true, holder_data),
        handle(&spl_token::id(), &key(201), false, false, vec![]),
    ]
}

fn only_call(r: Result<Vec<ForwardedCall>, ProcessError>) -> ForwardedCall {
    let calls = r.unwrap();
    assert_eq!(calls.len(), 1);
    calls.into_iter().next().unwrap()
}

#[test]
fn test_init_mint() {
    let program_id = key(1);
    let payer = key(2);
    let (mint, bump) = mint_pda(&program_id);
    let data = Ix::CreateAndInitMint { mint_authority: addr(&payer), decimals: 6, bump }.pack();
    let calls = process_instruction(&addr(&program_id), &mint_accounts(&payer, &mint), &data, RENT).unwrap();
    assert_eq!(calls.len(), 2);

    let allocate = solana_system_interface::instruction::create_account(&payer, &mint, RENT, 82, &spl_token::id());
    assert!(same_request(&calls[0].request, &allocate));
    assert_eq!(calls[0].handles, vec![3, 0, 1, 2]);
    assert_eq!(calls[0].signer_seeds, vec![b"MINT".to_vec(), vec![bump]]);

    let init = spl_token::instruction::initialize_mint2(&spl_token::id(), &mint, &payer, None, 6).unwrap();
    assert!(same_request(&calls[1].request, &init));
    assert_eq!(calls[1].handles, vec![1]);
    assert!(calls[1].signer_seeds.is_empty());
}

#[test]
fn test_create_ata_for_mint() {
    let program_id = key(1);
    let (mint, _) = mint_pda(&program_id);
    let payer = key(2);
    let owner = key(3);
    let holder = ata_of(&owner, &mint);
    let data = Ix::CreateAtaFor.pack();
    let accounts = ata_accounts(&payer, &owner, &holder, &mint, vec![]);
    let call = only_call(process_instruction(&addr(&program_id), &accounts, &data, RENT));
    #[allow(deprecated)]
    let expected = spl_associated_token_account::instruction::create_associated_token_account_idempotent(
        &payer,
        &owner,
        &mint,
        &spl_token::id(),
    );
    assert!(same_request(&call.request, &expected));
    assert_eq!(call.request.accounts[1].address.bytes, holder.to_bytes());
    assert_eq!(call.handles, vec![0, 2, 1, 3, 5, 4]);
    assert!(call.signer_seeds.is_empty());
}

#[test]
fn test_burn_tokens() {
    let program_id = key(1);
    let (mint, _) = mint_pda(&program_id);
    let owner = key(3);
    let holder = ata_of(&owner, &mint);
    let decimals = 6u8;
    let base = 5 * 10u64.pow(decimals as u32);
    let accounts = burn_accounts(&mint, &owner, &holder, decimals, token_account_data(&mint, &owner, base), true);
    let data = Ix::BurnUserTokens { amount_ui: 2 }.pack();
    let call = only_call(process_instruction(&addr(&program_id), &accounts, &data, RENT));
    let expected_ix = spl_token::instruction::burn_checked(&spl_token::id(), &holder, &mint, &owner, &[], 2_000_000, 6).unwrap();
    assert!(same_request(&call.request, &expected_ix));
    assert_eq!(call.handles, vec![2, 0, 1]);
    let burned = u64::from_le_bytes(call.request.data[1..9].try_into().unwrap());
    assert_eq!(base - burned, 3_000_000);
}

#[test]
fn same_inputs_give_the_same_mint_calls() {
    let program_id = key(4);
    let payer = key(2);
    let (mint, bump) = mint_pda(&program_id);
    let accounts = mint_accounts(&payer, &mint);
    let a = create_and_init_mint(&addr(&program_id), &accounts, &addr(&payer), bump, 9, RENT).unwrap();
    let b = create_and_init_mint(&addr(&program_id), &accounts, &addr(&payer), bump, 9, RENT).unwrap();
    assert_eq!(a.len(), b.len());
    for (x, y) in a.iter().zip(b.iter()) {
        assert_eq!(x.request.data, y.request.data);
        assert_eq!(x.request.program_id.bytes, y.request.program_id.bytes);
        assert_eq!(x.signer_seeds, y.signer_seeds);
    }
}

#[test]
fn other_disambiguators_derive_other_addresses() {
    let program_id = key(5);
    let payer = key(2);
    let mut derived: Vec<(u8, Pubkey)> = Vec::new();
    for bump in 0u8..=255 {
        if let Ok(a) = Pubkey::create_program_address(&[b"MINT", &[bump]], &program_id) {
            derived.push((bump, a));
        }
        if derived.len() == 8 {
            break;
        }
    }
    assert!(derived.len() >= 2);
    for (b1, a1) in derived.iter() {
        for (b2, _) in derived.iter() {
            let r = create_and_init_mint(&addr(&program_id), &mint_accounts(&payer, a1), &addr(&payer), *b2, 6, RENT);
            if b1 == b2 {
                assert_eq!(r.unwrap().len(), 2);
            } else {
                assert_eq!(r.unwrap_err(), ProcessError::AddressMismatch);
            }
        }
    }
}

#[test]
fn forged_mint_address_is_refused() {
    let program_id = key(1);
    let payer = key(2);
    let (_, bump) = mint_pda(&program_id);
    let forged = key(77);
    let r = create_and_init_mint(&addr(&program_id), &mint_accounts(&payer, &forged), &addr(&payer), bump, 6, RENT);
    assert_eq!(r.unwrap_err(), ProcessError::AddressMismatch);
}

#[test]
fn disambiguator_without_address_is_refused() {
    let mut n: u8 = 10;
    loop {
        let program_id = key(n);
        let (mint, bump) = mint_pda(&program_id);
        if bump < 255 {
            let r = create_and_init_mint(&addr(&program_id), &mint_accounts(&key(2), &mint), &addr(&key(2)), 255, 6, RENT);
            assert_eq!(r.unwrap_err(), ProcessError::InvalidDerivation);
            break;
        }
        n += 1;
    }
}

#[test]
fn create_mint_guards() {
    let program_id = key(1);
    let payer = key(2);
    let (mint, bump) = mint_pda(&program_id);
    let pid = addr(&program_id);
    let auth = addr(&payer);

    let mut unsigned = mint_accounts(&payer, &mint);
    unsigned[0].is_signer = false;
    assert_eq!(create_and_init_mint(&pid, &unsigned, &auth, bump, 6, RENT).unwrap_err(), ProcessError::MissingSignature);

    let mut read_only = mint_accounts(&payer, &mint);
    read_only[1].is_writable = false;
    assert_eq!(create_and_init_mint(&pid, &read_only, &auth, bump, 6, RENT).unwrap_err(), ProcessError::NotWritable);

    let mut short = mint_accounts(&payer, &mint);
    short.pop();
    assert_eq!(create_and_init_mint(&pid, &short, &auth, bump, 6, RENT).unwrap_err(), ProcessError::NotEnoughAccountKeys);
}

#[test]
fn provisioning_twice_issues_the_same_call() {
    let (mint, _) = mint_pda(&key(1));
    let payer = key(2);
    let owner = key(3);
    let holder = ata_of(&owner, &mint);
    let first = only_call(create_ata_for(&ata_accounts(&payer, &owner, &holder, &mint, vec![])));
    let existing = token_account_data(&mint, &owner, 0);
    let second = only_call(create_ata_for(&ata_accounts(&payer, &owner, &holder, &mint, existing)));
    assert_eq!(first.request.data, second.request.data);
    assert_eq!(first.request.data, vec![1u8]);
    assert_eq!(first.handles, second.handles);
    for (a, b) in first.request.accounts.iter().zip(second.request.accounts.iter()) {
        assert_eq!(a.address.bytes, b.address.bytes);
    }
}

#[test]
fn provisioning_guards() {
    let (mint, _) = mint_pda(&key(1));
    let payer = key(2);
    let owner = key(3);
    let wrong = key(50);
    assert_eq!(create_ata_for(&ata_accounts(&payer, &owner, &wrong, &mint, vec![])).unwrap_err(), ProcessError::AddressMismatch);

    let holder = ata_of(&owner, &mint);
    let mut unsigned = ata_accounts(&payer, &owner, &holder, &mint, vec![]);
    unsigned[0].is_signer = false;
    assert_eq!(create_ata_for(&unsigned).unwrap_err(), ProcessError::MissingSignature);

    let mut short = ata_accounts(&payer, &owner, &holder, &mint, vec![]);
    short.truncate(5);
    assert_eq!(create_ata_for(&short).unwrap_err(), ProcessError::NotEnoughAccountKeys);
}

#[test]
fn burn_without_owner_signature_is_refused() {
    let (mint, _) = mint_pda(&key(1));
    let owner = key(3);
    let holder = ata_of(&owner, &mint);
    let accounts = burn_accounts(&mint, &owner, &holder, 6, token_account_data(&mint, &owner, 10), false);
    assert_eq!(burn_user_tokens(&accounts, 1).unwrap_err(), ProcessError::MissingSignature);
}

#[test]
fn burn_of_max_amount_overflows() {
    let (mint, _) = mint_pda(&key(1));
    let owner = key(3);
    let holder = ata_of(&owner, &mint);
    let accounts = burn_accounts(&mint, &owner, &holder, 1, token_account_data(&mint, &owner, 10), true);
    assert_eq!(burn_user_tokens(&accounts, u64::MAX).unwrap_err(), ProcessError::ArithmeticOverflow);
    let accounts = burn_accounts(&mint, &owner, &holder, 0, token_account_data(&mint, &owner, 10), true);
    let call = only_call(burn_user_tokens(&accounts, u64::MAX));
    assert_eq!(call.request.data[1..9].to_vec(), u64::MAX.to_le_bytes().to_vec());
}

#[test]
fn burn_with_other_mint_is_refused() {
    let (mint, _) = mint_pda(&key(1));
    let owner = key(3);
    let holder = ata_of(&owner, &mint);
    let other_mint = key(60);
    let accounts = burn_accounts(&mint, &owner, &holder, 6, token_account_data(&other_mint, &owner, 10), true);
    assert_eq!(burn_user_tokens(&accounts, 1).unwrap_err(), ProcessError::InconsistentState);
    let accounts = burn_accounts(&mint, &owner, &holder, 6, token_account_data(&mint, &key(61), 10), true);
    assert_eq!(burn_user_tokens(&accounts, 1).unwrap_err(), ProcessError::InconsistentState);
}

#[test]
fn burn_checks_owners_and_layouts() {
    let (mint, _) = mint_pda(&key(1));
    let owner = key(3);
    let holder = ata_of(&owner, &mint);
    let mut accounts = burn_accounts(&mint, &owner, &holder, 6, token_account_data(&mint, &owner, 10), true);
    accounts[2].owner = addr(&key(99));
    assert_eq!(burn_user_tokens(&accounts, 1).unwrap_err(), ProcessError::UnexpectedOwner);

    let mut accounts = burn_accounts(&mint, &owner, &holder, 6, token_account_data(&mint, &owner, 10), true);
    accounts[0].owner = addr(&key(99));
    assert_eq!(burn_user_tokens(&accounts, 1).unwrap_err(), ProcessError::UnexpectedOwner);

    let accounts = burn_accounts(&mint, &owner, &holder, 6, vec![0u8; 165], true);
    assert_eq!(burn_user_tokens(&accounts, 1).unwrap_err(), ProcessError::MalformedAccountData);

    let mut accounts = burn_accounts(&mint, &owner, &holder, 6, token_account_data(&mint, &owner, 10), true);
    accounts[0].data = vec![0u8; 82];
    assert_eq!(burn_user_tokens(&accounts, 1).unwrap_err(), ProcessError::MalformedAccountData);

    let mut short = burn_accounts(&mint, &owner, &holder, 6, token_account_data(&mint, &owner, 10), true);
    short.pop();
    assert_eq!(burn_user_tokens(&short, 1).unwrap_err(), ProcessError::NotEnoughAccountKeys);
}

#[test]
fn whole_units_scale_to_base_units() {
    assert_eq!(ui_to_base(2, 6), Some(2_000_000));
    assert_eq!(ui_to_base(7, 0), Some(7));
    assert_eq!(ui_to_base(0, 255), Some(0));
    assert_eq!(ui_to_base(u64::MAX, 0), Some(u64::MAX));
    assert_eq!(ui_to_base(1, 19), Some(10_000_000_000_000_000_000));
    assert_eq!(ui_to_base(1, 20), None);
    assert_eq!(ui_to_base(2, 19), None);
    assert_eq!(ui_to_base(u64::MAX, 1), None);
}

#[test]
fn payloads_round_trip() {
    let authority = key(8);
    let bytes = Ix::CreateAndInitMint { mint_authority: addr(&authority), decimals: 6, bump: 254 }.pack();
    assert_eq!(bytes.len(), 35);
    assert_eq!(bytes[0], 0);
    assert_eq!(bytes[1..33].to_vec(), authority.to_bytes().to_vec());
    assert_eq!(bytes[33..].to_vec(), vec![6u8, 254]);
    match Ix::unpack(&bytes).unwrap() {
        Ix::CreateAndInitMint { mint_authority, decimals, bump } => {
            assert_eq!(mint_authority.bytes, authority.to_bytes());
            assert_eq!((decimals, bump), (6, 254));
        }
        other => panic!("decoded {:?}", other),
    }

    assert_eq!(Ix::CreateAtaFor.pack(), vec![1u8]);
    assert!(matches!(Ix::unpack(&[1u8]).unwrap(), Ix::CreateAtaFor));

    let bytes = Ix::BurnUserTokens { amount_ui: 258 }.pack();
    assert_eq!(bytes, vec![2u8, 2, 1, 0, 0, 0, 0, 0, 0]);
    match Ix::unpack(&bytes).unwrap() {
        Ix::BurnUserTokens { amount_ui } => assert_eq!(amount_ui, 258),
        other => panic!("decoded {:?}", other),
    }
}

#[test]
fn malformed_payloads_are_refused() {
    assert_eq!(Ix::unpack(&[]).unwrap_err(), ProcessError::MalformedPayload);
    assert_eq!(Ix::unpack(&[3u8]).unwrap_err(), ProcessError::UnrecognizedOpcode);
    assert_eq!(Ix::unpack(&[1u8, 0]).unwrap_err(), ProcessError::MalformedPayload);
    assert_eq!(Ix::unpack(&[2u8, 1, 2]).unwrap_err(), ProcessError::MalformedPayload);
    assert_eq!(Ix::unpack(&[0u8; 34]).unwrap_err(), ProcessError::MalformedPayload);
    let r = process_instruction(&addr(&key(1)), &vec![], &[9u8, 9], RENT);
    assert_eq!(r.unwrap_err(), ProcessError::UnrecognizedOpcode);
}

#[test]
fn aliased_accounts_are_refused() {
    let program_id = key(1);
    let (mint, bump) = mint_pda(&program_id);
    let r = create_and_init_mint(&addr(&program_id), &mint_accounts(&mint, &mint), &addr(&key(2)), bump, 6, RENT);
    assert_eq!(r.unwrap_err(), ProcessError::AliasedAccounts);

    let owner = key(3);
    let holder = ata_of(&owner, &mint);
    let r = create_ata_for(&ata_accounts(&holder, &owner, &holder, &mint, vec![]));
    assert_eq!(r.unwrap_err(), ProcessError::AliasedAccounts);

    let mut accounts = burn_accounts(&mint, &owner, &holder, 6, token_account_data(&mint, &owner, 10), true);
    accounts[2].key = addr(&mint);
    assert_eq!(burn_user_tokens(&accounts, 1).unwrap_err(), ProcessError::AliasedAccounts);
    let mut accounts = burn_accounts(&mint, &owner, &holder, 6, token_account_data(&mint, &owner, 10), true);
    accounts[2].key = addr(&owner);
    assert_eq!(burn_user_tokens(&accounts, 1).unwrap_err(), ProcessError::AliasedAccounts);
}

#[test]
fn wire_formats_match_the_stated_layouts() {
    let token_program: [u8; 32] = [
        6, 221, 246, 225, 215, 101, 161, 147, 217, 203, 225, 70, 206, 235, 121, 172, 28, 180, 133,
        237, 95, 91, 55, 145, 58, 140, 245, 133, 126, 255, 0, 169,
    ];
    let ata_program: [u8; 32] = [
        140, 151, 37, 143, 78, 36, 137, 241, 187, 61, 16, 41, 20, 142, 13, 131, 11, 90, 19, 153,
        218, 255, 16, 132, 4, 142, 123, 216, 219, 233, 248, 89,
    ];
    assert_eq!(spl_token::id().to_bytes(), token_program);
    assert_eq!(spl_associated_token_account::id().to_bytes(), ata_program);

    let program_id = key(1);
    let payer = key(2);
    let (mint, bump) = mint_pda(&program_id);
    let calls = create_and_init_mint(&addr(&program_id), &mint_accounts(&payer, &mint), &addr(&payer), bump, 6, RENT).unwrap();
    let mut expected = vec![0u8, 0, 0, 0];
    expected.extend_from_slice(&RENT.to_le_bytes());
    expected.extend_from_slice(&82u64.to_le_bytes());
    expected.extend_from_slice(&token_program);
    assert_eq!(calls[0].request.data, expected);
    assert_eq!(calls[0].request.program_id.bytes, [0u8; 32]);
    assert!(calls[0].request.accounts.iter().all(|l| l.is_signer && l.is_writable));

    let mut expected = vec![20u8, 6];
    expected.extend_from_slice(&payer.to_bytes());
    expected.push(0);
    assert_eq!(calls[1].request.data, expected);
    assert_eq!(calls[1].request.program_id.bytes, token_program);

    let owner = key(3);
    let holder = ata_of(&owner, &mint);
    let call = only_call(create_ata_for(&ata_accounts(&payer, &owner, &holder, &mint, vec![])));
    assert_eq!(call.request.program_id.bytes, ata_program);
    assert_eq!(call.request.data, vec![1u8]);
    assert_eq!(call.request.accounts[4].address.bytes, [0u8; 32]);
    assert_eq!(call.request.accounts[5].address.bytes, token_program);

    let accounts = burn_accounts(&mint, &owner, &holder, 2, token_account_data(&mint, &owner, 500), true);
    let call = only_call(burn_user_tokens(&accounts, 3));
    let mut expected = vec![15u8];
    expected.extend_from_slice(&300u64.to_le_bytes());
    expected.push(2);
    assert_eq!(call.request.data, expected);
    let flags: Vec<(bool, bool)> = call.request.accounts.iter().map(|l| (l.is_signer, l.is_writable)).collect();
    assert_eq!(flags, vec![(false, true), (false, true), (true, false)]);
}
