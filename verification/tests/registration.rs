use anchor_lang::prelude::Pubkey;
use tokenvesting::{
    create_employee_account, create_vesting_account, derive_employee_address,
    derive_plan_address, find_employee_address, find_plan_address, find_treasury_address,
    head_seed, tail_seed, treasury_signer_seeds, Address, CreateEmployeeAccount,
    CreateVestingAccount, EmployeeAccount, ErrorCode, TokenAccount, VestingAccount,
    EMPLOYEE_TAG, MAX_COMPANY_NAME_LEN, MAX_SEEDS, MAX_SEED_LEN, PLAN_TAG, TREASURY_TAG,
};

fn program() -> Address {
    Address::new([9u8; 32])
}

fn key(n: u8) -> Address {
    Address::new([n; 32])
}

fn plan_accounts(name: &str) -> CreateVestingAccount {
    let (plan_key, _) = find_plan_address(&program(), &name.to_string()).unwrap();
    let (treasury_key, _) = find_treasury_address(&program(), &name.to_string()).unwrap();
    CreateVestingAccount {
        program_id: program(),
        signer: key(1),
        vesting_account_key: plan_key,
        vesting_account: None,
        mint: key(2),
        treasury_token_account_key: treasury_key,
        treasury_token_account: None,
    }
}

fn registered_plan(name: &str) -> (Address, VestingAccount) {
    let mut ctx = plan_accounts(name);
    assert_eq!(create_vesting_account(&mut ctx, name.to_string()), Ok(()));
    (ctx.vesting_account_key, ctx.vesting_account.unwrap())
}

fn employee_accounts(name: &str, beneficiary: Address) -> CreateEmployeeAccount {
    let (plan_key, plan) = registered_plan(name);
    let (schedule_key, _) = find_employee_address(&program(), &beneficiary, &plan_key).unwrap();
    CreateEmployeeAccount {
        program_id: program(),
        owner: key(1),
        beneficiary,
        vesting_account_key: plan_key,
        vesting_account: plan,
        employee_account_key: schedule_key,
        employee_account: None,
    }
}

#[test]
fn the_tags_spell_their_names() {
    assert_eq!(&PLAN_TAG[..], b"vesting_plan");
    assert_eq!(&TREASURY_TAG[..], b"vesting_treasury");
    assert_eq!(&EMPLOYEE_TAG[..], b"employee_vesting");
    assert_eq!(MAX_COMPANY_NAME_LEN, 50);
}

#[test]
fn the_limits_of_a_derivation_are_those_of_the_program_library() {
    assert_eq!(MAX_SEED_LEN, anchor_lang::solana_program::pubkey::MAX_SEED_LEN);
    assert_eq!(MAX_SEEDS, anchor_lang::solana_program::pubkey::MAX_SEEDS);
}

#[test]
fn a_short_name_is_one_seed_of_its_utf8_bytes() {
    assert_eq!(head_seed(&"Acme".to_string()), &[65u8, 99, 109, 101][..]);
    assert_eq!(tail_seed(&"Acme".to_string()), &[0u8; 0][..]);
    assert_eq!(head_seed(&"é".to_string()), &[0xc3u8, 0xa9][..]);
    assert_eq!(head_seed(&String::new()), &[0u8; 0][..]);
    let full = "x".repeat(32);
    assert_eq!(head_seed(&full), full.as_bytes());
    assert_eq!(tail_seed(&full), &[0u8; 0][..]);
}

#[test]
fn a_long_name_is_cut_after_thirty_two_bytes() {
    let name = "abcdefghijklmnopqrstuvwxyzABCDEFGHIJKLMNOPQRSTUVWX".to_string();
    assert_eq!(name.len(), 50);
    assert_eq!(head_seed(&name), b"abcdefghijklmnopqrstuvwxyzABCDEF");
    assert_eq!(tail_seed(&name), b"GHIJKLMNOPQRSTUVWX");
    let one_more = "y".repeat(33);
    assert_eq!(head_seed(&one_more).len(), 32);
    assert_eq!(tail_seed(&one_more), b"y");
}

#[test]
fn the_plan_address_is_the_one_the_program_library_finds() {
    let id = Pubkey::new_from_array([9u8; 32]);
    let (expected, bump) = Pubkey::find_program_address(&[b"vesting_plan", b"Acme", b""], &id);
    let found = find_plan_address(&program(), &"Acme".to_string());
    assert_eq!(found, Some((Address::new(expected.to_bytes()), bump)));
    assert_ne!(found.unwrap().0, program());
}

#[test]
fn the_treasury_address_is_found_under_the_treasury_tag() {
    let id = Pubkey::new_from_array([9u8; 32]);
    let (expected, bump) =
        Pubkey::find_program_address(&[b"vesting_treasury", b"Acme", b""], &id);
    let found = find_treasury_address(&program(), &"Acme".to_string());
    assert_eq!(found, Some((Address::new(expected.to_bytes()), bump)));
    assert_ne!(found, find_plan_address(&program(), &"Acme".to_string()));
}

#[test]
fn the_schedule_address_is_found_from_beneficiary_and_plan() {
    let id = Pubkey::new_from_array([9u8; 32]);
    let (expected, bump) =
        Pubkey::find_program_address(&[b"employee_vesting", &[5u8; 32], &[6u8; 32]], &id);
    let found = find_employee_address(&program(), &key(5), &key(6));
    assert_eq!(found, Some((Address::new(expected.to_bytes()), bump)));
    assert_ne!(found, find_employee_address(&program(), &key(6), &key(5)));
}

#[test]
fn an_address_found_derives_again_with_its_bump_seed() {
    let name = "Acme".to_string();
    let (plan_key, bump) = find_plan_address(&program(), &name).unwrap();
    assert_eq!(derive_plan_address(&program(), &name, bump), Some(plan_key));
    let (schedule_key, schedule_bump) =
        find_employee_address(&program(), &key(5), &plan_key).unwrap();
    assert_eq!(
        derive_employee_address(&program(), &key(5), &plan_key, schedule_bump),
        Some(schedule_key)
    );
}

#[test]
fn a_derived_address_is_the_one_the_program_library_creates() {
    let id = Pubkey::new_from_array([9u8; 32]);
    let name = "Acme".to_string();
    let mut bump = 255u8;
    let mut some = 0;
    loop {
        let expected =
            Pubkey::create_program_address(&[b"vesting_plan", b"Acme", b"", &[bump]], &id)
            .ok()
            .map(|k| Address::new(k.to_bytes()));
        assert_eq!(derive_plan_address(&program(), &name, bump), expected);
        if expected.is_some() {
            some += 1;
        }
        if bump == 240 {
            break;
        }
        bump -= 1;
    }
    assert!(some > 0);
}

#[test]
fn another_program_derives_another_address() {
    let name = "Acme".to_string();
    let here = find_plan_address(&program(), &name).unwrap();
    let there = find_plan_address(&key(10), &name).unwrap();
    assert_ne!(here.0, there.0);
}

#[test]
fn the_treasury_signs_with_tag_name_and_bump() {
    let seeds = treasury_signer_seeds(&"Acme".to_string(), 254);
    assert_eq!(
        seeds,
        vec![b"vesting_treasury".to_vec(), b"Acme".to_vec(), Vec::new(), vec![254u8]]
    );
    let long = treasury_signer_seeds(&"n".repeat(40), 7);
    assert_eq!(
        long,
        vec![b"vesting_treasury".to_vec(), vec![b'n'; 32], vec![b'n'; 8], vec![7u8]]
    );
}

#[test]
fn the_bump_seed_found_is_the_highest_that_derives() {
    for name in ["Acme", "Bolt", "Crest", "Dune", "Elm", "Fjord", "Grove", "Heath"] {
        let name = name.to_string();
        let (plan_key, bump) = find_plan_address(&program(), &name).unwrap();
        assert!(bump >= 1);
        assert_eq!(derive_plan_address(&program(), &name, bump), Some(plan_key));
        let mut higher = 255u8;
        while higher > bump {
            assert_eq!(derive_plan_address(&program(), &name, higher), None);
            higher -= 1;
        }
    }
}

#[test]
fn a_plan_and_a_treasury_never_share_their_seeds() {
    let long_plan = "vesting_treasuryAcme".to_string();
    let plan = find_plan_address(&program(), &long_plan).unwrap();
    let treasury = find_treasury_address(&program(), &"Acme".to_string()).unwrap();
    assert_ne!(plan.0, treasury.0);
    let tail = "_treasuryAcme".to_string();
    assert_ne!(find_plan_address(&program(), &tail).unwrap().0, treasury.0);
}

#[test]
fn different_names_have_different_addresses() {
    let names = ["Acme", "Acme ", "acme", "Acm", "AcmeAcme", ""];
    for (i, first) in names.iter().enumerate() {
        for second in names.iter().skip(i + 1) {
            let a = find_plan_address(&program(), &first.to_string()).unwrap();
            let b = find_plan_address(&program(), &second.to_string()).unwrap();
            assert_ne!(a.0, b.0);
            let c = find_treasury_address(&program(), &first.to_string()).unwrap();
            let d = find_treasury_address(&program(), &second.to_string()).unwrap();
            assert_ne!(c.0, d.0);
        }
    }
}

#[test]
fn different_pairs_have_different_schedule_addresses() {
    let base = find_employee_address(&program(), &key(5), &key(6)).unwrap();
    assert_ne!(base.0, find_employee_address(&program(), &key(7), &key(6)).unwrap().0);
    assert_ne!(base.0, find_employee_address(&program(), &key(5), &key(8)).unwrap().0);
    assert_eq!(base, find_employee_address(&program(), &key(5), &key(6)).unwrap());
}

#[test]
fn a_name_of_up_to_sixty_four_bytes_has_an_address_and_a_longer_one_has_none() {
    let id = Pubkey::new_from_array([9u8; 32]);
    let name = "z".repeat(64);
    let (expected, bump) =
        Pubkey::find_program_address(&[b"vesting_plan", &[b'z'; 32], &[b'z'; 32]], &id);
    assert_eq!(
        find_plan_address(&program(), &name),
        Some((Address::new(expected.to_bytes()), bump))
    );
    assert_eq!(find_plan_address(&program(), &"z".repeat(65)), None);
    assert_eq!(find_treasury_address(&program(), &"z".repeat(65)), None);
    assert_eq!(derive_plan_address(&program(), &"z".repeat(65), 255), None);
}

#[test]
fn a_plan_is_registered_for_its_signer() {
    let mut ctx = plan_accounts("Acme");
    let before = ctx.clone();
    let (_, bump) = find_plan_address(&program(), &"Acme".to_string()).unwrap();
    let (_, treasury_bump) = find_treasury_address(&program(), &"Acme".to_string()).unwrap();
    assert_eq!(create_vesting_account(&mut ctx, "Acme".to_string()), Ok(()));
    assert_eq!(
        ctx.vesting_account,
        Some(VestingAccount {
            owner: key(1),
            mint: key(2),
            treasury_token_account: before.treasury_token_account_key,
            company_name: "Acme".to_string(),
            treasury_bump,
            bump,
        })
    );
    assert_eq!(
        ctx.treasury_token_account,
        Some(TokenAccount {
            mint: key(2),
            authority: before.treasury_token_account_key,
            amount: 0
        })
    );
    assert_eq!(ctx.program_id, before.program_id);
    assert_eq!(ctx.signer, before.signer);
    assert_eq!(ctx.vesting_account_key, before.vesting_account_key);
    assert_eq!(ctx.mint, before.mint);
    assert_eq!(ctx.treasury_token_account_key, before.treasury_token_account_key);
}

#[test]
fn a_second_plan_under_the_same_name_is_a_duplicate() {
    let mut ctx = plan_accounts("Acme");
    assert_eq!(create_vesting_account(&mut ctx, "Acme".to_string()), Ok(()));
    let before = ctx.clone();
    assert_eq!(
        create_vesting_account(&mut ctx, "Acme".to_string()),
        Err(ErrorCode::DuplicatePlan)
    );
    assert_eq!(ctx, before);
}

#[test]
fn a_treasury_that_is_open_already_is_a_duplicate() {
    let mut ctx = plan_accounts("Acme");
    ctx.treasury_token_account =
        Some(TokenAccount { mint: key(2), authority: key(3), amount: 7 });
    let before = ctx.clone();
    assert_eq!(
        create_vesting_account(&mut ctx, "Acme".to_string()),
        Err(ErrorCode::DuplicatePlan)
    );
    assert_eq!(ctx, before);
}

#[test]
fn a_name_of_more_than_fifty_bytes_is_too_long() {
    let mut ctx = plan_accounts("Acme");
    let before = ctx.clone();
    let name = "x".repeat(51);
    assert_eq!(create_vesting_account(&mut ctx, name), Err(ErrorCode::NameTooLong));
    assert_eq!(ctx, before);
    let umlauts = "ä".repeat(26);
    assert_eq!(umlauts.chars().count(), 26);
    assert_eq!(create_vesting_account(&mut ctx, umlauts), Err(ErrorCode::NameTooLong));
    assert_eq!(ctx, before);
}

#[test]
fn a_long_name_is_judged_before_a_duplicate() {
    let mut ctx = plan_accounts("Acme");
    assert_eq!(create_vesting_account(&mut ctx, "Acme".to_string()), Ok(()));
    assert_eq!(
        create_vesting_account(&mut ctx, "y".repeat(60)),
        Err(ErrorCode::NameTooLong)
    );
}

#[test]
fn a_name_of_fifty_bytes_is_registered() {
    let id = Pubkey::new_from_array([9u8; 32]);
    let name = "a".repeat(50);
    let (expected, bump) =
        Pubkey::find_program_address(&[b"vesting_plan", &[b'a'; 32], &[b'a'; 18]], &id);
    let (expected_treasury, treasury_bump) =
        Pubkey::find_program_address(&[b"vesting_treasury", &[b'a'; 32], &[b'a'; 18]], &id);
    let mut ctx = plan_accounts(&name);
    assert_eq!(ctx.vesting_account_key, Address::new(expected.to_bytes()));
    assert_eq!(ctx.treasury_token_account_key, Address::new(expected_treasury.to_bytes()));
    assert_eq!(create_vesting_account(&mut ctx, name.clone()), Ok(()));
    let plan = ctx.vesting_account.clone().unwrap();
    assert_eq!(plan.company_name, name);
    assert_eq!(plan.owner, key(1));
    assert_eq!(plan.bump, bump);
    assert_eq!(plan.treasury_bump, treasury_bump);
    assert_eq!(plan.treasury_token_account, Address::new(expected_treasury.to_bytes()));
    assert_eq!(create_vesting_account(&mut ctx, name), Err(ErrorCode::DuplicatePlan));
}

#[test]
fn names_of_every_length_within_the_bound_are_registered() {
    for len in [0usize, 1, 31, 32, 33, 40, 49, 50] {
        let name = "q".repeat(len);
        let mut ctx = plan_accounts(&name);
        assert_eq!(create_vesting_account(&mut ctx, name.clone()), Ok(()));
        let plan = ctx.vesting_account.unwrap();
        assert_eq!(plan.company_name, name);
        assert_eq!(
            derive_plan_address(&program(), &name, plan.bump),
            Some(ctx.vesting_account_key)
        );
    }
}

#[test]
fn a_name_registered_at_the_address_of_another_is_refused() {
    let mut ctx = plan_accounts(&"z".repeat(40));
    let before = ctx.clone();
    assert_eq!(create_vesting_account(&mut ctx, "z".repeat(41)), Err(ErrorCode::Unauthorized));
    assert_eq!(ctx, before);
}

#[test]
fn a_plan_at_another_address_than_the_derived_one_is_refused() {
    let mut ctx = plan_accounts("Acme");
    ctx.vesting_account_key = key(40);
    let before = ctx.clone();
    assert_eq!(
        create_vesting_account(&mut ctx, "Acme".to_string()),
        Err(ErrorCode::Unauthorized)
    );
    assert_eq!(ctx, before);
    let mut other = plan_accounts("Acme");
    assert_eq!(
        create_vesting_account(&mut other, "Acne".to_string()),
        Err(ErrorCode::Unauthorized)
    );
}

#[test]
fn a_treasury_at_another_address_than_the_derived_one_is_refused() {
    let mut ctx = plan_accounts("Acme");
    ctx.treasury_token_account_key = key(41);
    assert_eq!(
        create_vesting_account(&mut ctx, "Acme".to_string()),
        Err(ErrorCode::Unauthorized)
    );
    assert_eq!(ctx.vesting_account, None);
}

#[test]
fn register_takes_what_was_found_as_it_is() {
    let mut ctx = plan_accounts("Acme");
    ctx.vesting_account_key = key(50);
    ctx.treasury_token_account_key = key(51);
    assert_eq!(
        ctx.register("Acme".to_string(), Some((key(50), 3)), None),
        Err(ErrorCode::Unauthorized)
    );
    assert_eq!(
        ctx.register("Acme".to_string(), None, Some((key(51), 4))),
        Err(ErrorCode::Unauthorized)
    );
    assert_eq!(
        ctx.register("Acme".to_string(), Some((key(51), 3)), Some((key(50), 4))),
        Err(ErrorCode::Unauthorized)
    );
    assert_eq!(ctx.register("Acme".to_string(), Some((key(50), 3)), Some((key(51), 4))), Ok(()));
    let plan = ctx.vesting_account.clone().unwrap();
    assert_eq!(plan.bump, 3);
    assert_eq!(plan.treasury_bump, 4);
    assert_eq!(plan.treasury_token_account, key(51));
}

#[test]
fn an_employee_is_enrolled_with_nothing_withdrawn() {
    let mut ctx = employee_accounts("Acme", key(5));
    let before = ctx.clone();
    let (_, bump) =
        find_employee_address(&program(), &key(5), &before.vesting_account_key).unwrap();
    assert_eq!(create_employee_account(&mut ctx, key(5), 0, 1000, 1000, 100), Ok(()));
    assert_eq!(
        ctx.employee_account,
        Some(EmployeeAccount {
            beneficiary: key(5),
            start_time: 0,
            end_time: 1000,
            cliff_time: 100,
            vesting_account: before.vesting_account_key,
            total_amount: 1000,
            total_withdrawn: 0,
            bump,
        })
    );
    assert_eq!(ctx.vesting_account, before.vesting_account);
    assert_eq!(ctx.employee_account_key, before.employee_account_key);
}

#[test]
fn the_beneficiary_is_the_one_among_the_accounts() {
    let mut ctx = employee_accounts("Acme", key(5));
    assert_eq!(create_employee_account(&mut ctx, key(77), 0, 1000, 1000, 100), Ok(()));
    assert_eq!(ctx.employee_account.unwrap().beneficiary, key(5));
}

#[test]
fn only_the_owner_of_the_plan_enrolls() {
    let mut ctx = employee_accounts("Acme", key(5));
    ctx.owner = key(8);
    let before = ctx.clone();
    assert_eq!(
        create_employee_account(&mut ctx, key(5), 0, 1000, 1000, 100),
        Err(ErrorCode::NotPlanOwner)
    );
    assert_eq!(ctx, before);
}

#[test]
fn a_second_schedule_for_the_same_pair_is_a_duplicate() {
    let mut ctx = employee_accounts("Acme", key(5));
    assert_eq!(create_employee_account(&mut ctx, key(5), 0, 1000, 1000, 100), Ok(()));
    let before = ctx.clone();
    assert_eq!(
        create_employee_account(&mut ctx, key(5), 1, 2, 3, 4),
        Err(ErrorCode::DuplicateSchedule)
    );
    assert_eq!(ctx, before);
}

#[test]
fn a_schedule_at_another_address_than_the_derived_one_is_refused() {
    let mut ctx = employee_accounts("Acme", key(5));
    ctx.beneficiary = key(6);
    let before = ctx.clone();
    assert_eq!(
        create_employee_account(&mut ctx, key(6), 0, 1000, 1000, 100),
        Err(ErrorCode::Unauthorized)
    );
    assert_eq!(ctx, before);
}

#[test]
fn the_terms_of_a_schedule_are_not_judged_at_enrollment() {
    let mut ctx = employee_accounts("Acme", key(5));
    assert_eq!(create_employee_account(&mut ctx, key(5), 500, 500, 1000, -7), Ok(()));
    let stored = ctx.employee_account.unwrap();
    assert_eq!(stored.start_time, 500);
    assert_eq!(stored.end_time, 500);
    assert_eq!(stored.cliff_time, -7);
    let mut late = employee_accounts("Late", key(5));
    assert_eq!(create_employee_account(&mut late, key(5), 0, 10, 1000, 9999), Ok(()));
    assert_eq!(late.employee_account.unwrap().cliff_time, 9999);
}

#[test]
fn enroll_takes_what_was_found_as_it_is() {
    let mut ctx = employee_accounts("Acme", key(5));
    ctx.employee_account_key = key(60);
    assert_eq!(ctx.enroll(0, 10, 20, 5, None), Err(ErrorCode::Unauthorized));
    assert_eq!(ctx.enroll(0, 10, 20, 5, Some((key(61), 9))), Err(ErrorCode::Unauthorized));
    assert_eq!(ctx.enroll(0, 10, 20, 5, Some((key(60), 9))), Ok(()));
    assert_eq!(ctx.employee_account.unwrap().bump, 9);
}
