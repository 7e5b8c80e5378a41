use nft_mint::address::Address;
use nft_mint::error::AppError;
use nft_mint::pipeline::{execute, CallFailure, CallReport, PlannedCall};
use nft_mint::request::CallRequest;
use nft_mint::runtime::ClockReading;
use nft_mint::text::{text_from_utf8, to_decimal};
use nft_mint::utils::{
    create_or_allocate_account_raw, get_random, get_random_u8, issue_allocation_calls, lamports_shortfall, mix,
    now_timestamp, plan_allocation, plan_token_account, plan_token_transfer, random_from, random_u8_from,
    spl_token_create_account, spl_token_transfer, timestamp_as_u64, timestamp_from, transfer_notice,
};
use solana_program::account_info::AccountInfo;
use solana_program::entrypoint::ProgramResult;
use solana_program::instruction::Instruction;
use solana_program::program_error::ProgramError;
use solana_program::program_stubs::{set_syscall_stubs, SyscallStubs};
use solana_program::pubkey::Pubkey;
use solana_program::rent::Rent;
use solana_program::{system_instruction, sysvar};
use std::collections::hash_map::DefaultHasher;
use std::hash::Hasher;
use std::sync::{Arc, Mutex};

struct Observed {
    instruction: Instruction,
    keys: Vec<Pubkey>,
    seeds: Vec<Vec<Vec<u8>>>,
}

struct Tape {
    calls: Arc<Mutex<Vec<Observed>>>,
    logs: Arc<Mutex<Vec<String>>>,
    fail_at: Option<(usize, ProgramError)>,
}

impl SyscallStubs for Tape {
    fn sol_log(&self, message: &str) {
        self.logs.lock().unwrap().push(message.to_string());
    }

    fn sol_invoke_signed(
        &self,
        instruction: &Instruction,
        account_infos: &[AccountInfo],
        signers_seeds: &[&[&[u8]]],
    ) -> ProgramResult {
        let mut calls = self.calls.lock().unwrap();
        let index: usize = calls.len();
        calls.push(Observed {
            instruction: instruction.clone(),
            keys: account_infos.iter().map(|info| *info.key).collect(),
            seeds: signers_seeds
                .iter()
                .map(|signer| signer.iter().map(|seed| seed.to_vec()).collect())
                .collect(),
        });
        match &self.fail_at {
            Some((at, error)) if *at == index => Err(error.clone()),
            _ => Ok(()),
        }
    }
}

struct Reel {
    calls: Arc<Mutex<Vec<Observed>>>,
    logs: Arc<Mutex<Vec<String>>>,
}

fn record(fail_at: Option<(usize, ProgramError)>) -> Reel {
    let calls = Arc::new(Mutex::new(Vec::new()));
    let logs = Arc::new(Mutex::new(Vec::new()));
    set_syscall_stubs(Box::new(Tape { calls: calls.clone(), logs: logs.clone(), fail_at }));
    Reel { calls, logs }
}

struct Slot {
    key: Pubkey,
    owner: Pubkey,
    lamports: u64,
    data: Vec<u8>,
}

fn pubkey(fill: u8) -> Pubkey {
    Pubkey::new_from_array([fill; 32])
}

fn slot(fill: u8, lamports: u64) -> Slot {
    Slot { key: pubkey(fill), owner: pubkey(0), lamports, data: Vec::new() }
}

fn rent_slot(lamports_per_byte_year: u64) -> Slot {
    let mut data: Vec<u8> = Vec::new();
    data.extend_from_slice(&lamports_per_byte_year.to_le_bytes());
    data.extend_from_slice(&2.0f64.to_le_bytes());
    data.push(50);
    Slot { key: sysvar::rent::id(), owner: pubkey(0), lamports: 1, data }
}

fn info(slot: &mut Slot) -> AccountInfo<'_> {
    AccountInfo::new(&slot.key, false, true, &mut slot.lamports, &mut slot.data, &slot.owner, false, 0)
}

fn named(fill: u8) -> Address {
    Address::new([fill; 32])
}

fn seeds_of(seeds: &[&[u8]]) -> Vec<Vec<Vec<u8>>> {
    vec![seeds.iter().map(|seed| seed.to_vec()).collect()]
}

#[test]
fn numbers_are_written_in_decimal() {
    assert_eq!(to_decimal(0), "0");
    assert_eq!(to_decimal(7), "7");
    assert_eq!(to_decimal(10), "10");
    assert_eq!(to_decimal(1_461_600), "1461600");
    assert_eq!(to_decimal(u64::MAX), "18446744073709551615");
    for number in [9u64, 99, 100, 101, 1_000_000_007, 9_999_999_999_999_999_999] {
        assert_eq!(to_decimal(number), format!("{}", number));
    }
}

#[test]
fn transfer_notice_names_the_amount() {
    assert_eq!(transfer_notice(1), "Transfer 1 lamports to the new account");
    assert_eq!(transfer_notice(2_039_280), "Transfer 2039280 lamports to the new account");
}

#[test]
fn text_is_decoded_from_valid_utf8_only() {
    assert_eq!(text_from_utf8(vec![0x68, 0x69]), Some("hi".to_string()));
    assert_eq!(text_from_utf8(vec![0xe4, 0xb8, 0x96]), Some("\u{4e16}".to_string()));
    assert_eq!(text_from_utf8(Vec::new()), Some(String::new()));
    assert_eq!(text_from_utf8(vec![0x80]), None);
    assert_eq!(text_from_utf8(vec![0xc0, 0x80]), None);
    assert_eq!(text_from_utf8(vec![0xf4, 0x90, 0x80, 0x80]), None);
}

#[test]
fn shortfall_is_what_is_missing_from_the_minimum() {
    assert_eq!(lamports_shortfall(100, 0), 100);
    assert_eq!(lamports_shortfall(100, 40), 60);
    assert_eq!(lamports_shortfall(100, 99), 1);
    assert_eq!(lamports_shortfall(u64::MAX, 1), u64::MAX - 1);
}

#[test]
fn nothing_is_short_where_the_balance_reaches_the_minimum() {
    assert_eq!(lamports_shortfall(100, 100), 0);
    assert_eq!(lamports_shortfall(100, 250), 0);
    assert_eq!(lamports_shortfall(0, 0), 0);
    assert_eq!(lamports_shortfall(0, 1), 0);
    assert_eq!(lamports_shortfall(1, 0), 1);
}

#[test]
fn allocation_plan_funds_first_when_lamports_are_missing() {
    let seeds: [&[u8]; 2] = [b"vault", &[254]];
    let plan = plan_allocation(&named(9), &named(1), &named(3), 500, 64, &seeds);
    let expected: Vec<PlannedCall> = vec![
        PlannedCall {
            label: Some("Transfer 500 lamports to the new account".to_string()),
            request: CallRequest::Transfer { from: named(3), to: named(1), lamports: 500 },
            accounts: vec![2, 0, 1],
            signer_seeds: None,
        },
        PlannedCall {
            label: Some("Allocate space for the account".to_string()),
            request: CallRequest::Allocate { account: named(1), space: 64 },
            accounts: vec![0, 1],
            signer_seeds: Some(&seeds),
        },
        PlannedCall {
            label: Some("Assign the account to the owning program".to_string()),
            request: CallRequest::Assign { account: named(1), owner: named(9) },
            accounts: vec![0, 1],
            signer_seeds: Some(&seeds),
        },
    ];
    assert_eq!(plan, expected);
}

#[test]
fn allocation_plan_skips_the_transfer_when_nothing_is_missing() {
    let seeds: [&[u8]; 0] = [];
    let plan = plan_allocation(&named(9), &named(1), &named(3), 0, 64, &seeds);
    assert_eq!(plan.len(), 2);
    assert_eq!(plan[0].request, CallRequest::Allocate { account: named(1), space: 64 });
    assert_eq!(plan[1].request, CallRequest::Assign { account: named(1), owner: named(9) });
    assert_eq!(plan[0].signer_seeds, Some(&seeds[..]));
}

#[test]
fn account_short_of_rent_is_funded_allocated_and_assigned() {
    let reel = record(None);
    let mut new_account = slot(1, 1_000);
    let mut rent = rent_slot(Rent::default().lamports_per_byte_year);
    let mut system = slot(2, 0);
    system.key = solana_program::system_program::id();
    let mut payer = slot(3, 10_000_000);
    let seeds: [&[u8]; 2] = [b"vault", &[254]];
    let missing: u64 = Rent::default().minimum_balance(64) - 1_000;
    let result = create_or_allocate_account_raw(
        named(9),
        &info(&mut new_account),
        &info(&mut rent),
        &info(&mut system),
        &info(&mut payer),
        64,
        &seeds,
    );
    assert_eq!(result, Ok(()));
    let calls = reel.calls.lock().unwrap();
    assert_eq!(calls.len(), 3);
    assert_eq!(calls[0].instruction, system_instruction::transfer(&pubkey(3), &pubkey(1), missing));
    assert_eq!(calls[0].keys, vec![pubkey(3), pubkey(1), solana_program::system_program::id()]);
    assert!(calls[0].seeds.is_empty());
    assert_eq!(calls[1].instruction, system_instruction::allocate(&pubkey(1), 64));
    assert_eq!(calls[1].keys, vec![pubkey(1), solana_program::system_program::id()]);
    assert_eq!(calls[1].seeds, seeds_of(&seeds));
    assert_eq!(calls[2].instruction, system_instruction::assign(&pubkey(1), &pubkey(9)));
    assert_eq!(calls[2].keys, vec![pubkey(1), solana_program::system_program::id()]);
    assert_eq!(calls[2].seeds, seeds_of(&seeds));
    assert_eq!(
        *reel.logs.lock().unwrap(),
        vec![
            format!("Transfer {} lamports to the new account", missing),
            "Allocate space for the account".to_string(),
            "Assign the account to the owning program".to_string(),
            "Completed assignation!".to_string(),
        ]
    );
}

#[test]
fn funded_account_is_only_allocated_and_assigned() {
    let reel = record(None);
    let mut new_account = slot(1, Rent::default().minimum_balance(10));
    let mut rent = rent_slot(Rent::default().lamports_per_byte_year);
    let mut system = slot(2, 0);
    let mut payer = slot(3, 0);
    let seeds: [&[u8]; 0] = [];
    let result = create_or_allocate_account_raw(
        named(9),
        &info(&mut new_account),
        &info(&mut rent),
        &info(&mut system),
        &info(&mut payer),
        10,
        &seeds,
    );
    assert_eq!(result, Ok(()));
    let calls = reel.calls.lock().unwrap();
    assert_eq!(calls.len(), 2);
    assert_eq!(calls[0].instruction, system_instruction::allocate(&pubkey(1), 10));
    assert_eq!(calls[0].seeds, seeds_of(&seeds));
    assert_eq!(calls[1].instruction, system_instruction::assign(&pubkey(1), &pubkey(9)));
    assert_eq!(reel.logs.lock().unwrap().len(), 3);
}

#[test]
fn free_rent_asks_for_no_transfer() {
    let reel = record(None);
    let mut new_account = slot(1, 0);
    let mut rent = rent_slot(0);
    let mut system = slot(2, 0);
    let mut payer = slot(3, 5);
    let seeds: [&[u8]; 0] = [];
    let result = create_or_allocate_account_raw(
        named(9),
        &info(&mut new_account),
        &info(&mut rent),
        &info(&mut system),
        &info(&mut payer),
        0,
        &seeds,
    );
    assert_eq!(result, Ok(()));
    let calls = reel.calls.lock().unwrap();
    assert_eq!(calls.len(), 2);
    assert_eq!(calls[0].instruction, system_instruction::allocate(&pubkey(1), 0));
    assert_eq!(calls[1].instruction, system_instruction::assign(&pubkey(1), &pubkey(9)));
    assert_eq!(
        *reel.logs.lock().unwrap(),
        vec![
            "Allocate space for the account".to_string(),
            "Assign the account to the owning program".to_string(),
            "Completed assignation!".to_string(),
        ]
    );
}

#[test]
fn account_one_lamport_short_is_sent_one_lamport() {
    let reel = record(None);
    let minimum: u64 = Rent::default().minimum_balance(64);
    let mut new_account = slot(1, minimum - 1);
    let mut rent = rent_slot(Rent::default().lamports_per_byte_year);
    let mut system = slot(2, 0);
    let mut payer = slot(3, 5);
    let seeds: [&[u8]; 0] = [];
    let result = create_or_allocate_account_raw(
        named(9),
        &info(&mut new_account),
        &info(&mut rent),
        &info(&mut system),
        &info(&mut payer),
        64,
        &seeds,
    );
    assert_eq!(result, Ok(()));
    let calls = reel.calls.lock().unwrap();
    assert_eq!(calls.len(), 3);
    assert_eq!(calls[0].instruction, system_instruction::transfer(&pubkey(3), &pubkey(1), 1));
}

#[test]
fn refused_rent_sysvar_ends_the_helpers_before_any_call() {
    let reel = record(None);
    let none: [&[u8]; 0] = [];
    let mut new_account = slot(1, 0);
    let mut not_rent = slot(6, 0);
    not_rent.data = vec![0; 17];
    let mut system = slot(2, 0);
    let mut payer = slot(3, 10_000_000);
    let allocated = create_or_allocate_account_raw(
        named(9),
        &info(&mut new_account),
        &info(&mut not_rent),
        &info(&mut system),
        &info(&mut payer),
        64,
        &none,
    );
    assert_eq!(allocated, Err(AppError::External(ProgramError::InvalidArgument)));
    let mut token_program = slot(4, 0);
    token_program.key = spl_token::id();
    let mut mint = slot(2, 0);
    let mut authority = slot(5, 0);
    let created = spl_token_create_account(
        &info(&mut token_program),
        &info(&mut payer),
        &info(&mut mint),
        &info(&mut new_account),
        &info(&mut authority),
        &none,
        &none,
        &info(&mut not_rent),
    );
    assert_eq!(created, Err(AppError::External(ProgramError::InvalidArgument)));
    assert!(reel.calls.lock().unwrap().is_empty());
    assert!(reel.logs.lock().unwrap().is_empty());
    assert_eq!(new_account.lamports, 0);
    assert_eq!(payer.lamports, 10_000_000);
}

#[test]
fn failed_allocation_ends_the_helper_with_the_error() {
    let reel = record(Some((1, ProgramError::Custom(3))));
    let mut new_account = slot(1, 0);
    let mut rent = rent_slot(Rent::default().lamports_per_byte_year);
    let mut system = slot(2, 0);
    let mut payer = slot(3, 10_000_000);
    let seeds: [&[u8]; 0] = [];
    let result = create_or_allocate_account_raw(
        named(9),
        &info(&mut new_account),
        &info(&mut rent),
        &info(&mut system),
        &info(&mut payer),
        64,
        &seeds,
    );
    assert_eq!(result, Err(AppError::External(ProgramError::Custom(3))));
    assert_eq!(reel.calls.lock().unwrap().len(), 2);
    assert_eq!(reel.logs.lock().unwrap().len(), 2);
}

#[test]
fn allocation_needs_the_rent_sysvar() {
    let reel = record(None);
    let mut new_account = slot(1, 0);
    let mut rent = slot(6, 0);
    let mut system = slot(2, 0);
    let mut payer = slot(3, 10_000_000);
    let seeds: [&[u8]; 0] = [];
    let result = create_or_allocate_account_raw(
        named(9),
        &info(&mut new_account),
        &info(&mut rent),
        &info(&mut system),
        &info(&mut payer),
        64,
        &seeds,
    );
    assert_eq!(result, Err(AppError::External(ProgramError::InvalidArgument)));
    assert!(reel.calls.lock().unwrap().is_empty());
}

#[test]
fn allocation_with_overflowing_rent_is_refused() {
    let reel = record(None);
    let mut new_account = slot(1, 0);
    let mut rent = rent_slot(u64::MAX);
    let mut system = slot(2, 0);
    let mut payer = slot(3, 10_000_000);
    let seeds: [&[u8]; 0] = [];
    let result = create_or_allocate_account_raw(
        named(9),
        &info(&mut new_account),
        &info(&mut rent),
        &info(&mut system),
        &info(&mut payer),
        64,
        &seeds,
    );
    assert_eq!(result, Err(AppError::RentOverflow));
    assert!(reel.calls.lock().unwrap().is_empty());
}

#[test]
fn balance_that_is_being_written_is_an_error() {
    let _reel = record(None);
    let mut new_account = slot(1, 0);
    let mut rent = rent_slot(Rent::default().lamports_per_byte_year);
    let mut system = slot(2, 0);
    let mut payer = slot(3, 10_000_000);
    let seeds: [&[u8]; 0] = [];
    let new_info = info(&mut new_account);
    let held = new_info.lamports.borrow_mut();
    let result = create_or_allocate_account_raw(
        named(9),
        &new_info,
        &info(&mut rent),
        &info(&mut system),
        &info(&mut payer),
        64,
        &seeds,
    );
    assert_eq!(result, Err(AppError::External(ProgramError::AccountBorrowFailed)));
    drop(held);
}

#[test]
fn allocation_report_follows_its_plan() {
    let _reel = record(Some((2, ProgramError::Custom(8))));
    let mut new_account = slot(1, 0);
    let mut system = slot(2, 0);
    let mut payer = slot(3, 0);
    let seeds: [&[u8]; 1] = [b"s"];
    let report = {
        let infos = vec![info(&mut new_account), info(&mut system), info(&mut payer)];
        let refs: Vec<&AccountInfo> = infos.iter().collect();
        issue_allocation_calls(&named(9), &named(1), &named(3), 5, 64, &seeds, &refs)
    };
    assert_eq!(report.issued.len(), 3);
    assert_eq!(report.failure, Some(CallFailure::Failed { index: 2, error: ProgramError::Custom(8) }));
}

#[test]
fn empty_plan_runs_to_an_empty_report() {
    let reel = record(None);
    let plan: Vec<PlannedCall> = Vec::new();
    let none: Vec<&AccountInfo> = Vec::new();
    let report = execute(&plan, &none);
    assert_eq!(report, CallReport { issued: Vec::new(), failure: None });
    assert!(reel.calls.lock().unwrap().is_empty());
}

#[test]
fn token_account_plan_creates_then_initializes() {
    let create: [&[u8]; 1] = [b"create"];
    let initialize: [&[u8]; 1] = [b"init"];
    let plan = plan_token_account(&named(4), &named(1), &named(2), &named(3), &named(5), 2_039_280, &create, &initialize);
    let expected: Vec<PlannedCall> = vec![
        PlannedCall {
            label: Some("spl_token_create_account create".to_string()),
            request: CallRequest::CreateAccount {
                from: named(1),
                to: named(3),
                lamports: 2_039_280,
                space: 165,
                owner: named(4),
            },
            accounts: vec![1, 3],
            signer_seeds: Some(&create),
        },
        PlannedCall {
            label: Some("spl_token_create_account initialize".to_string()),
            request: CallRequest::InitializeAccount {
                token_program: named(4),
                account: named(3),
                mint: named(2),
                owner: named(5),
            },
            accounts: vec![0, 3, 2, 4, 5],
            signer_seeds: Some(&initialize),
        },
    ];
    assert_eq!(plan, expected);
}

#[test]
fn token_account_is_created_and_initialized() {
    let reel = record(None);
    let mut token_program = slot(4, 0);
    token_program.key = spl_token::id();
    let mut payer = slot(1, 10_000_000);
    let mut mint = slot(2, 0);
    let mut new_account = slot(3, 0);
    let mut authority = slot(5, 0);
    let mut rent = rent_slot(Rent::default().lamports_per_byte_year);
    let create: [&[u8]; 1] = [b"create"];
    let initialize: [&[u8]; 2] = [b"init", &[7]];
    let result = spl_token_create_account(
        &info(&mut token_program),
        &info(&mut payer),
        &info(&mut mint),
        &info(&mut new_account),
        &info(&mut authority),
        &create,
        &initialize,
        &info(&mut rent),
    );
    assert_eq!(result, Ok(()));
    let calls = reel.calls.lock().unwrap();
    assert_eq!(calls.len(), 2);
    assert_eq!(
        calls[0].instruction,
        system_instruction::create_account(
            &pubkey(1),
            &pubkey(3),
            Rent::default().minimum_balance(165),
            165,
            &spl_token::id()
        )
    );
    assert_eq!(calls[0].keys, vec![pubkey(1), pubkey(3)]);
    assert_eq!(calls[0].seeds, seeds_of(&create));
    assert_eq!(
        calls[1].instruction,
        spl_token::instruction::initialize_account(&spl_token::id(), &pubkey(3), &pubkey(2), &pubkey(5)).unwrap()
    );
    assert_eq!(calls[1].keys, vec![spl_token::id(), pubkey(3), pubkey(2), pubkey(5), sysvar::rent::id()]);
    assert_eq!(calls[1].seeds, seeds_of(&initialize));
    assert_eq!(
        *reel.logs.lock().unwrap(),
        vec![
            "spl_token_create_account create".to_string(),
            "spl_token_create_account initialize".to_string(),
            "spl_token_create_account success".to_string(),
        ]
    );
}

#[test]
fn token_account_for_another_program_is_refused_after_creation() {
    let reel = record(None);
    let mut token_program = slot(4, 0);
    let mut payer = slot(1, 10_000_000);
    let mut mint = slot(2, 0);
    let mut new_account = slot(3, 0);
    let mut authority = slot(5, 0);
    let mut rent = rent_slot(Rent::default().lamports_per_byte_year);
    let none: [&[u8]; 0] = [];
    let result = spl_token_create_account(
        &info(&mut token_program),
        &info(&mut payer),
        &info(&mut mint),
        &info(&mut new_account),
        &info(&mut authority),
        &none,
        &none,
        &info(&mut rent),
    );
    assert_eq!(result, Err(AppError::External(ProgramError::IncorrectProgramId)));
    assert_eq!(reel.calls.lock().unwrap().len(), 1);
    assert_eq!(reel.logs.lock().unwrap().len(), 2);
}

#[test]
fn token_transfer_plan_is_one_silent_signed_call() {
    let seeds: [&[u8]; 1] = [b"auth"];
    let plan = plan_token_transfer(&named(4), &named(1), &named(2), &named(3), 25, &seeds);
    let expected: Vec<PlannedCall> = vec![PlannedCall {
        label: None,
        request: CallRequest::TokenTransfer {
            token_program: named(4),
            source: named(1),
            destination: named(2),
            authority: named(3),
            signers: vec![],
            amount: 25,
        },
        accounts: vec![1, 2, 3, 0],
        signer_seeds: Some(&seeds),
    }];
    assert_eq!(plan, expected);
}

#[test]
fn tokens_are_transferred_with_one_signed_call() {
    let reel = record(None);
    let mut token_program = slot(4, 0);
    token_program.key = spl_token::id();
    let mut source = slot(1, 0);
    let mut destination = slot(2, 0);
    let mut authority = slot(3, 0);
    let seeds: [&[u8]; 1] = [b"auth"];
    let result = spl_token_transfer(
        info(&mut token_program),
        info(&mut source),
        info(&mut destination),
        info(&mut authority),
        25,
        &seeds,
    );
    assert_eq!(result, Ok(()));
    let calls = reel.calls.lock().unwrap();
    assert_eq!(calls.len(), 1);
    assert_eq!(
        calls[0].instruction,
        spl_token::instruction::transfer(&spl_token::id(), &pubkey(1), &pubkey(2), &pubkey(3), &[], 25).unwrap()
    );
    assert_eq!(calls[0].keys, vec![pubkey(1), pubkey(2), pubkey(3), spl_token::id()]);
    assert_eq!(calls[0].seeds, seeds_of(&seeds));
    assert!(reel.logs.lock().unwrap().is_empty());
}

#[test]
fn rejected_transfer_comes_back_with_the_token_program_s_error() {
    let _reel = record(Some((0, ProgramError::InsufficientFunds)));
    let mut token_program = slot(4, 0);
    token_program.key = spl_token::id();
    let mut source = slot(1, 0);
    let mut destination = slot(2, 0);
    let mut authority = slot(3, 0);
    let seeds: [&[u8]; 0] = [];
    let result = spl_token_transfer(
        info(&mut token_program),
        info(&mut source),
        info(&mut destination),
        info(&mut authority),
        25,
        &seeds,
    );
    assert_eq!(result, Err(AppError::External(ProgramError::InsufficientFunds)));
}

#[test]
fn transfer_through_another_program_is_refused_unsent() {
    let reel = record(None);
    let mut token_program = slot(4, 0);
    let mut source = slot(1, 0);
    let mut destination = slot(2, 0);
    let mut authority = slot(3, 0);
    let seeds: [&[u8]; 0] = [];
    let result = spl_token_transfer(
        info(&mut token_program),
        info(&mut source),
        info(&mut destination),
        info(&mut authority),
        25,
        &seeds,
    );
    assert_eq!(result, Err(AppError::External(ProgramError::IncorrectProgramId)));
    assert!(reel.calls.lock().unwrap().is_empty());
}

#[test]
fn timestamps_are_read_bit_for_bit() {
    assert_eq!(timestamp_as_u64(0), 0);
    assert_eq!(timestamp_as_u64(1_700_000_000), 1_700_000_000);
    assert_eq!(timestamp_as_u64(i64::MAX), i64::MAX as u64);
    assert_eq!(timestamp_as_u64(-1), u64::MAX);
    assert_eq!(timestamp_as_u64(i64::MIN), 1u64 << 63);
    assert_eq!(timestamp_as_u64(-1_700_000_000), (-1_700_000_000i64) as u64);
}

#[test]
fn timestamp_follows_the_clock_s_answer() {
    assert_eq!(timestamp_from(Ok(ClockReading { slot: 5, unix_timestamp: 1_700_000_000 })), Ok(1_700_000_000));
    assert_eq!(
        timestamp_from(Err(ProgramError::UnsupportedSysvar)),
        Err(AppError::External(ProgramError::UnsupportedSysvar))
    );
}

#[test]
fn clock_is_not_handed_out_off_chain() {
    assert_eq!(now_timestamp(), Err(AppError::External(ProgramError::UnsupportedSysvar)));
    assert_eq!(get_random(3), Err(AppError::External(ProgramError::UnsupportedSysvar)));
    assert_eq!(get_random_u8(3, 10), Err(AppError::External(ProgramError::UnsupportedSysvar)));
}

#[test]
fn mixing_hashes_seed_slot_and_time_in_that_order() {
    let clock = ClockReading { slot: 123_456, unix_timestamp: -42 };
    let mut hasher = DefaultHasher::new();
    hasher.write_u8(9);
    hasher.write_u64(123_456);
    hasher.write_i64(-42);
    assert_eq!(mix(9, &clock), hasher.finish());
    assert_eq!(mix(9, &clock), mix(9, &clock));
    assert_ne!(mix(9, &clock), mix(10, &clock));
    assert_ne!(mix(9, &clock), mix(9, &ClockReading { slot: 123_457, unix_timestamp: -42 }));
}

#[test]
fn mixing_feeds_the_numbers_lowest_byte_first() {
    let clock = ClockReading { slot: 0x0102_0304_0506_0708, unix_timestamp: -2 };
    let mut hasher = DefaultHasher::new();
    hasher.write(&[200]);
    hasher.write(&[8, 7, 6, 5, 4, 3, 2, 1]);
    hasher.write(&[254, 255, 255, 255, 255, 255, 255, 255]);
    assert_eq!(mix(200, &clock), hasher.finish());
}

#[test]
fn random_byte_is_the_mixed_value_reduced() {
    let clock = ClockReading { slot: 77, unix_timestamp: 1_700_000_000 };
    let value: u64 = mix(4, &clock);
    assert_eq!(nft_mint::utils::reduce_to_u8(value, 10) as u64, value % 10);
    assert_eq!(nft_mint::utils::reduce_to_u8(value, 1 << 20) as u64, (value % (1 << 20)) % 256);
}

#[test]
fn random_byte_follows_the_answer_it_is_given() {
    assert_eq!(random_u8_from(Ok(1000), 7), Ok(6));
    assert_eq!(random_u8_from(Ok(1000), 100_000), Ok(232));
    assert_eq!(random_u8_from(Ok(u64::MAX), 1), Ok(0));
    assert_eq!(random_u8_from(Ok(5), 0), Err(AppError::ZeroDivisor));
    let refused = || AppError::External(ProgramError::UnsupportedSysvar);
    assert_eq!(random_u8_from(Err(refused()), 7), Err(refused()));
    assert_eq!(random_u8_from(Err(refused()), 0), Err(refused()));
    assert_eq!(random_u8_from(Err(AppError::RentOverflow), 0), Err(AppError::RentOverflow));
}

#[test]
fn clock_error_comes_back_whatever_the_divisor() {
    assert_eq!(get_random_u8(3, 0), Err(AppError::External(ProgramError::UnsupportedSysvar)));
    assert_eq!(get_random_u8(3, 1), Err(AppError::External(ProgramError::UnsupportedSysvar)));
}

#[test]
fn random_value_follows_the_clock_s_answer() {
    let clock = ClockReading { slot: 1, unix_timestamp: 2 };
    assert_eq!(random_from(7, Ok(clock)), Ok(mix(7, &clock)));
    assert_eq!(
        random_from(7, Err(ProgramError::Custom(1))),
        Err(AppError::External(ProgramError::Custom(1)))
    );
}
