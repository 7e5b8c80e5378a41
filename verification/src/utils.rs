use vstd::prelude::*;
use vstd::bytes::{spec_u64_to_le_bytes, u64_to_le_bytes};
use vstd::std_specs::hash::DefaultHasherAdditionalSpecFns;
use vstd::string::StringExecFns;
use std::collections::hash_map::DefaultHasher;
use std::hash::Hasher;
use solana_program::account_info::AccountInfo;
use solana_program::program_error::ProgramError;
use crate::account::AccountSnapshot;
use crate::address::Address;
use crate::error::AppError;
use crate::instruction::{read_instruction, spec_decode_prefix, GameInstruction};
use crate::pipeline::{execute, plan_runnable, plan_view, Attempt, CallReport, PlannedCall, PlannedCallView};
use crate::request::{CallRequest, CallRequestView};
use crate::runtime::{
    account_lamports, find_program_address, log_line, minimum_balance, read_clock, read_rent, seeds_view,
    snapshot, spec_minimum_balance, spec_program_address, token_account_len, ClockReading, RentReading,
    ACCOUNT_STORAGE_OVERHEAD,
};
use crate::text::{decimal, to_decimal};

verus! {

// ---------------------------------------------------------------------------
// Account validators
// ---------------------------------------------------------------------------

/// Succeeds where the account's address is `expected`, and fails with
/// `InvalidEqPubkey` where it is not.
pub fn assert_eq_pubkey(account: &AccountSnapshot, expected: &Address) -> (checked: Result<(), AppError>)
    ensures
        checked is Ok <==> account.key@ == expected@,
        checked is Err ==> checked == Err::<(), AppError>(AppError::InvalidEqPubkey),
{
    if account.key.same(expected) {
        Ok(())
    } else {
        Err(AppError::InvalidEqPubkey)
    }
}

/// Succeeds where the account is owned by the program `owner`, and fails
/// with `InvalidOwner` where it is not.
pub fn assert_owned_by(account: &AccountSnapshot, owner: &Address) -> (checked: Result<(), AppError>)
    ensures
        checked is Ok <==> account.owner@ == owner@,
        checked is Err ==> checked == Err::<(), AppError>(AppError::InvalidOwner),
{
    if account.owner.same(owner) {
        Ok(())
    } else {
        Err(AppError::InvalidOwner)
    }
}

/// Succeeds where the account signed the transaction, and fails with
/// `MissingSignature` where it did not.
pub fn assert_signer(account: &AccountSnapshot) -> (checked: Result<(), AppError>)
    ensures
        checked is Ok <==> account.is_signer,
        checked is Err <==> !account.is_signer,
        checked is Err ==> checked == Err::<(), AppError>(AppError::MissingSignature),
{
    if !account.is_signer {
        Err(AppError::MissingSignature)
    } else {
        Ok(())
    }
}

/// What the derivation check answers for an account address `key`, given
/// what the search for the derived address found: the bump byte where the
/// search found exactly `key`, and `InvalidDerivedKey` in every other case.
pub open spec fn spec_check_derivation(derived: Option<(Seq<u8>, u8)>, key: Seq<u8>) -> Result<u8, AppError> {
    match derived {
        Some((address, bump)) => if address == key {
            Ok(bump)
        } else {
            Err(AppError::InvalidDerivedKey)
        },
        None => Err(AppError::InvalidDerivedKey),
    }
}

/// What [`assert_derivation`] answers for an account address, a program and
/// a seed path.
pub open spec fn spec_assert_derivation(program_id: Seq<u8>, key: Seq<u8>, path: Seq<Seq<u8>>) -> Result<u8, AppError> {
    spec_check_derivation(spec_program_address(path, program_id), key)
}

/// Compares an account's address with a derived address: the bump byte where
/// they are the same, `InvalidDerivedKey` where they differ or nothing was
/// derived.
pub fn check_derivation(derived: Option<(Address, u8)>, account: &AccountSnapshot) -> (checked: Result<u8, AppError>)
    ensures
        checked == spec_check_derivation(
            match derived {
                Some((address, bump)) => Some((address@, bump)),
                None => None,
            },
            account.key@,
        ),
{
    match derived {
        Some((address, bump)) => {
            if address.same(&account.key) {
                Ok(bump)
            } else {
                Err(AppError::InvalidDerivedKey)
            }
        },
        None => Err(AppError::InvalidDerivedKey),
    }
}

/// Derives the program address of `path` under `program_id` again and
/// compares it with the account's address. Succeeds, with the derivation's
/// bump byte, exactly where the account's address is the derived one; fails
/// with `InvalidDerivedKey` otherwise, also where no address can be derived.
pub fn assert_derivation(program_id: &Address, account: &AccountSnapshot, path: &[&[u8]]) -> (checked: Result<u8, AppError>)
    ensures
        checked == spec_assert_derivation(program_id@, account.key@, seeds_view(path@)),
{
    let derived = find_program_address(path, program_id);
    check_derivation(derived, account)
}

/// An account address passes the derivation check for at most one bump byte,
/// and two addresses that pass it for the same program and seeds are one
/// address: the derivation is a function of the program and the seeds.
pub proof fn lemma_derivation_is_unique(program_id: Seq<u8>, path: Seq<Seq<u8>>, first: Seq<u8>, second: Seq<u8>)
    requires
        spec_assert_derivation(program_id, first, path) is Ok,
        spec_assert_derivation(program_id, second, path) is Ok,
    ensures
        first == second,
        spec_assert_derivation(program_id, first, path) == spec_assert_derivation(program_id, second, path),
{
}

/// An account that passes the derivation check fails it, with
/// `InvalidDerivedKey`, for every other program or seed path that does not
/// derive the very same address.
pub proof fn lemma_tampered_derivation_fails(
    program_id: Seq<u8>,
    path: Seq<Seq<u8>>,
    key: Seq<u8>,
    other_program: Seq<u8>,
    other_path: Seq<Seq<u8>>,
)
    requires
        spec_assert_derivation(program_id, key, path) is Ok,
        !(spec_program_address(other_path, other_program) matches Some((address, _)) && address == key),
    ensures
        spec_assert_derivation(other_program, key, other_path) == Err::<u8, AppError>(AppError::InvalidDerivedKey),
{
}

// ---------------------------------------------------------------------------
// Rent
// ---------------------------------------------------------------------------

/// Whether the runtime can compute the minimum balance of an account of
/// `size` bytes: the size with the overhead fits 64 bits, and so does their
/// sum times the price per byte and year.
pub open spec fn rent_computable(reading: &RentReading, size: usize) -> bool {
    &&& ACCOUNT_STORAGE_OVERHEAD + size <= u64::MAX
    &&& (ACCOUNT_STORAGE_OVERHEAD + size) * reading.byte_year_price() <= u64::MAX
}

/// The balance that exempts an account of `size` bytes from rent: what the
/// runtime's rent computation gives for the price and the threshold of the
/// reading, and `None` where that computation does not fit 64 bits.
pub open spec fn spec_rent_exempt_minimum(reading: &RentReading, size: usize) -> Option<u64> {
    if rent_computable(reading, size) {
        Some(spec_minimum_balance(reading.byte_year_price(), reading.threshold(), size))
    } else {
        None
    }
}

/// The balance that exempts an account of `size` bytes from rent, as the
/// runtime computes it from the rent parameters; `None` exactly where the
/// computation does not fit 64 bits.
pub fn rent_exempt_minimum(reading: &RentReading, size: usize) -> (lamports: Option<u64>)
    ensures
        lamports == spec_rent_exempt_minimum(reading, size),
        lamports is Some <==> rent_computable(reading, size),
{
    let price = reading.lamports_per_byte_year();
    match ACCOUNT_STORAGE_OVERHEAD.checked_add(size as u64) {
        None => None,
        Some(total) => {
            match total.checked_mul(price) {
                None => None,
                Some(_) => Some(minimum_balance(reading, size)),
            }
        },
    }
}

/// What `balance` is short of `minimum`: their difference where the balance
/// is below the minimum, and zero where it is not.
pub open spec fn spec_lamports_shortfall(minimum: u64, balance: u64) -> u64 {
    if balance < minimum {
        (minimum - balance) as u64
    } else {
        0
    }
}

/// The lamports to transfer to an account with `balance` so that it holds
/// `minimum`: nothing where it already does.
pub fn lamports_shortfall(minimum: u64, balance: u64) -> (missing: u64)
    ensures
        missing == spec_lamports_shortfall(minimum, balance),
        missing > 0 <==> balance < minimum,
        balance < minimum ==> balance + missing == minimum,
{
    minimum.saturating_sub(balance)
}

// ---------------------------------------------------------------------------
// Creating or allocating an account
// ---------------------------------------------------------------------------

/// The line logged before lamports are moved to a new account.
pub open spec fn spec_transfer_notice(lamports: u64) -> Seq<char> {
    "Transfer "@ + decimal(lamports as nat) + " lamports to the new account"@
}

/// The line logged before `lamports` are moved to a new account.
pub fn transfer_notice(lamports: u64) -> (line: String)
    ensures
        line@ == spec_transfer_notice(lamports),
{
    let amount = to_decimal(lamports);
    "Transfer ".to_owned().concat(amount.as_str()).concat(" lamports to the new account")
}

// Positions of the handles that the allocation calls are given.

/// The account to fund, size and assign.
pub const ALLOCATION_NEW_ACCOUNT: usize = 0;

/// The system program.
pub const ALLOCATION_SYSTEM_PROGRAM: usize = 1;

/// The account that pays what the new account is short of.
pub const ALLOCATION_PAYER: usize = 2;

/// The calls that bring an account under a program: a transfer of the
/// `missing` lamports from the payer, made only where the balance is short;
/// then the allocation of `size` bytes; then the assignment to `program_id`.
/// The last two are signed with `seeds`.
pub open spec fn spec_allocation_plan(
    program_id: Seq<u8>,
    new_account: Seq<u8>,
    payer: Seq<u8>,
    missing: u64,
    size: u64,
    seeds: Seq<Seq<u8>>,
) -> Seq<PlannedCallView> {
    let funding = if missing > 0 {
        seq![
            PlannedCallView {
                label: Some(spec_transfer_notice(missing)),
                request: CallRequestView::Transfer { from: payer, to: new_account, lamports: missing },
                accounts: seq![ALLOCATION_PAYER, ALLOCATION_NEW_ACCOUNT, ALLOCATION_SYSTEM_PROGRAM],
                signer_seeds: None,
            },
        ]
    } else {
        seq![]
    };
    funding + seq![
        PlannedCallView {
            label: Some("Allocate space for the account"@),
            request: CallRequestView::Allocate { account: new_account, space: size },
            accounts: seq![ALLOCATION_NEW_ACCOUNT, ALLOCATION_SYSTEM_PROGRAM],
            signer_seeds: Some(seeds),
        },
        PlannedCallView {
            label: Some("Assign the account to the owning program"@),
            request: CallRequestView::Assign { account: new_account, owner: program_id },
            accounts: seq![ALLOCATION_NEW_ACCOUNT, ALLOCATION_SYSTEM_PROGRAM],
            signer_seeds: Some(seeds),
        },
    ]
}

/// Plans the calls that bring an account under a program: see
/// [`spec_allocation_plan`].
pub fn plan_allocation<'s>(
    program_id: &Address,
    new_account: &Address,
    payer: &Address,
    missing: u64,
    size: u64,
    seeds: &'s [&'s [u8]],
) -> (plan: Vec<PlannedCall<'s>>)
    ensures
        plan_view(plan@) == spec_allocation_plan(
            program_id@,
            new_account@,
            payer@,
            missing,
            size,
            seeds_view(seeds@),
        ),
        plan_runnable(plan_view(plan@), 3),
{
    let mut plan: Vec<PlannedCall<'s>> = Vec::new();
    if missing > 0 {
        let notice = transfer_notice(missing);
        plan.push(
            PlannedCall::new(
                Some(notice.as_str()),
                CallRequest::Transfer { from: *payer, to: *new_account, lamports: missing },
                vec![ALLOCATION_PAYER, ALLOCATION_NEW_ACCOUNT, ALLOCATION_SYSTEM_PROGRAM],
                None,
            ),
        );
    }
    plan.push(
        PlannedCall::new(
            Some("Allocate space for the account"),
            CallRequest::Allocate { account: *new_account, space: size },
            vec![ALLOCATION_NEW_ACCOUNT, ALLOCATION_SYSTEM_PROGRAM],
            Some(seeds),
        ),
    );
    plan.push(
        PlannedCall::new(
            Some("Assign the account to the owning program"),
            CallRequest::Assign { account: *new_account, owner: *program_id },
            vec![ALLOCATION_NEW_ACCOUNT, ALLOCATION_SYSTEM_PROGRAM],
            Some(seeds),
        ),
    );
    proof {
        let got = plan_view(plan@);
        let want = spec_allocation_plan(program_id@, new_account@, payer@, missing, size, seeds_view(seeds@));
        assert(got.len() == want.len());
        assert forall|i: int| 0 <= i < got.len() implies got[i] == want[i] by {
            if missing > 0 {
                assert(got[0] == want[0]);
                assert(got[1] == want[1]);
                assert(got[2] == want[2]);
            } else {
                assert(got[0] == want[0]);
                assert(got[1] == want[1]);
            }
        }
        assert(got =~= want);
    }
    plan
}

/// Makes the calls of [`spec_allocation_plan`] in order and stops at the
/// first that is refused or fails. `infos` holds the handles of the new
/// account, of the system program and of the payer, in that order.
///
/// Whatever the system program answers, the report is a run of the plan.
pub fn issue_allocation_calls<'a>(
    program_id: &Address,
    new_account: &Address,
    payer: &Address,
    missing: u64,
    size: u64,
    seeds: &[&[u8]],
    infos: &[&AccountInfo<'a>],
) -> (report: CallReport)
    requires
        infos@.len() >= 3,
    ensures
        report.follows(
            spec_allocation_plan(program_id@, new_account@, payer@, missing, size, seeds_view(seeds@)),
        ),
{
    let plan = plan_allocation(program_id, new_account, payer, missing, size, seeds);
    proof {
        let steps = plan_view(plan@);
        assert forall|i: int| 0 <= i < steps.len() implies (#[trigger] steps[i]).runnable(infos@.len()) by {
            assert(steps[i].runnable(3));
        }
    }
    execute(&plan, infos)
}

/// What bringing an account under a program comes to, for each answer to
/// the two questions asked of the runtime beforehand. A refused rent sysvar
/// stops it with the runtime's error, a rent that does not fit with
/// `RentOverflow`, a refused balance with the runtime's error, and nothing is
/// handed to the runtime then. Otherwise the calls of
/// [`spec_allocation_plan`] are run for what the balance is short of the
/// rent-exempt minimum.
pub open spec fn allocation_attempted(
    program_id: Seq<u8>,
    new_account: Seq<u8>,
    payer: Seq<u8>,
    rent: Result<RentReading, ProgramError>,
    balance: Result<u64, ProgramError>,
    size: usize,
    seeds: Seq<Seq<u8>>,
    attempt: Attempt,
) -> bool {
    match rent {
        Err(error) => attempt == Attempt::Stopped(AppError::External(error)),
        Ok(reading) => match spec_rent_exempt_minimum(&reading, size) {
            None => attempt == Attempt::Stopped(AppError::RentOverflow),
            Some(minimum) => match balance {
                Err(error) => attempt == Attempt::Stopped(AppError::External(error)),
                Ok(held) => attempt.ran(
                    spec_allocation_plan(
                        program_id,
                        new_account,
                        payer,
                        spec_lamports_shortfall(minimum, held),
                        size as u64,
                        seeds,
                    ),
                ),
            },
        },
    }
}

/// Brings an account under a program, given what the runtime answered for
/// the rent sysvar and for the account's balance: see
/// [`allocation_attempted`]. `infos` holds the handles of the new account,
/// of the system program and of the payer, in that order.
pub fn allocate_with<'a>(
    program_id: &Address,
    new_account: &Address,
    payer: &Address,
    rent: Result<RentReading, ProgramError>,
    balance: Result<u64, ProgramError>,
    size: usize,
    seeds: &[&[u8]],
    infos: &[&AccountInfo<'a>],
) -> (attempt: Attempt)
    requires
        infos@.len() >= 3,
    ensures
        allocation_attempted(
            program_id@,
            new_account@,
            payer@,
            rent,
            balance,
            size,
            seeds_view(seeds@),
            attempt,
        ),
{
    let reading = match rent {
        Ok(reading) => reading,
        Err(error) => {
            return Attempt::Stopped(AppError::External(error));
        },
    };
    let minimum = match rent_exempt_minimum(&reading, size) {
        Some(minimum) => minimum,
        None => {
            return Attempt::Stopped(AppError::RentOverflow);
        },
    };
    let held = match balance {
        Ok(held) => held,
        Err(error) => {
            return Attempt::Stopped(AppError::External(error));
        },
    };
    let missing = lamports_shortfall(minimum, held);
    Attempt::Ran(issue_allocation_calls(program_id, new_account, payer, missing, size as u64, seeds, infos))
}

/// Brings `new_account_info` under the program `program_id` with `size`
/// bytes of data: reads the rent-exempt minimum for that size, has the payer
/// transfer what the account's balance is short of it, then allocates the
/// data and assigns the account, both signed with `signer_seeds` (empty for
/// an account that is not program-derived).
///
/// The first failure ends the instruction. It is the runtime's or the system
/// program's error, as it came, or `RentOverflow`. What comes back for each
/// answer of the runtime is stated by [`allocate_with`].
pub fn create_or_allocate_account_raw<'a>(
    program_id: Address,
    new_account_info: &AccountInfo<'a>,
    rent_sysvar_info: &AccountInfo<'a>,
    system_program_info: &AccountInfo<'a>,
    payer_info: &AccountInfo<'a>,
    size: usize,
    signer_seeds: &[&[u8]],
) -> (result: Result<(), AppError>)
    ensures
        result matches Err(error) ==> error is External || error is RentOverflow,
{
    let new_account = snapshot(new_account_info).key;
    let payer = snapshot(payer_info).key;
    let rent = read_rent(rent_sysvar_info);
    let balance = account_lamports(new_account_info);
    let mut infos: Vec<&AccountInfo<'a>> = Vec::new();
    infos.push(new_account_info);
    infos.push(system_program_info);
    infos.push(payer_info);
    let attempt = allocate_with(
        &program_id,
        &new_account,
        &payer,
        rent,
        balance,
        size,
        signer_seeds,
        infos.as_slice(),
    );
    let result = attempt.into_result();
    if result.is_ok() {
        log_line("Completed assignation!");
    }
    result
}

// ---------------------------------------------------------------------------
// Creating a token account
// ---------------------------------------------------------------------------

// Positions of the handles that the token account calls are given.

/// The token program.
pub const TOKEN_ACCOUNT_TOKEN_PROGRAM: usize = 0;

/// The account that pays for the new token account.
pub const TOKEN_ACCOUNT_PAYER: usize = 1;

/// The mint of the new token account.
pub const TOKEN_ACCOUNT_MINT: usize = 2;

/// The token account to create.
pub const TOKEN_ACCOUNT_NEW_ACCOUNT: usize = 3;

/// The holder of the new token account.
pub const TOKEN_ACCOUNT_AUTHORITY: usize = 4;

/// The rent sysvar.
pub const TOKEN_ACCOUNT_RENT_SYSVAR: usize = 5;

/// Size in bytes of a token account's data.
pub const TOKEN_ACCOUNT_SIZE: usize = 165;

/// The two calls that create a token account: the system program creates
/// the account, paid by the payer with `rent` lamports, sized for a token
/// account and owned by the token program; then the token program
/// initialises it for the mint and the authority. Each call is signed with
/// its own seeds.
pub open spec fn spec_token_account_plan(
    token_program: Seq<u8>,
    payer: Seq<u8>,
    mint: Seq<u8>,
    new_account: Seq<u8>,
    authority: Seq<u8>,
    rent: u64,
    create_account_seeds: Seq<Seq<u8>>,
    initialize_account_seeds: Seq<Seq<u8>>,
) -> Seq<PlannedCallView> {
    seq![
        PlannedCallView {
            label: Some("spl_token_create_account create"@),
            request: CallRequestView::CreateAccount {
                from: payer,
                to: new_account,
                lamports: rent,
                space: TOKEN_ACCOUNT_SIZE as u64,
                owner: token_program,
            },
            accounts: seq![TOKEN_ACCOUNT_PAYER, TOKEN_ACCOUNT_NEW_ACCOUNT],
            signer_seeds: Some(create_account_seeds),
        },
        PlannedCallView {
            label: Some("spl_token_create_account initialize"@),
            request: CallRequestView::InitializeAccount {
                token_program,
                account: new_account,
                mint,
                owner: authority,
            },
            accounts: seq![
                TOKEN_ACCOUNT_TOKEN_PROGRAM,
                TOKEN_ACCOUNT_NEW_ACCOUNT,
                TOKEN_ACCOUNT_MINT,
                TOKEN_ACCOUNT_AUTHORITY,
                TOKEN_ACCOUNT_RENT_SYSVAR,
            ],
            signer_seeds: Some(initialize_account_seeds),
        },
    ]
}

/// Plans the calls that create a token account: see
/// [`spec_token_account_plan`].
pub fn plan_token_account<'s>(
    token_program: &Address,
    payer: &Address,
    mint: &Address,
    new_account: &Address,
    authority: &Address,
    rent: u64,
    create_account_seeds: &'s [&'s [u8]],
    initialize_account_seeds: &'s [&'s [u8]],
) -> (plan: Vec<PlannedCall<'s>>)
    ensures
        plan_view(plan@) == spec_token_account_plan(
            token_program@,
            payer@,
            mint@,
            new_account@,
            authority@,
            rent,
            seeds_view(create_account_seeds@),
            seeds_view(initialize_account_seeds@),
        ),
        plan_runnable(plan_view(plan@), 6),
{
    let mut plan: Vec<PlannedCall<'s>> = Vec::new();
    plan.push(
        PlannedCall::new(
            Some("spl_token_create_account create"),
            CallRequest::CreateAccount {
                from: *payer,
                to: *new_account,
                lamports: rent,
                space: TOKEN_ACCOUNT_SIZE as u64,
                owner: *token_program,
            },
            vec![TOKEN_ACCOUNT_PAYER, TOKEN_ACCOUNT_NEW_ACCOUNT],
            Some(create_account_seeds),
        ),
    );
    plan.push(
        PlannedCall::new(
            Some("spl_token_create_account initialize"),
            CallRequest::InitializeAccount {
                token_program: *token_program,
                account: *new_account,
                mint: *mint,
                owner: *authority,
            },
            vec![
                TOKEN_ACCOUNT_TOKEN_PROGRAM,
                TOKEN_ACCOUNT_NEW_ACCOUNT,
                TOKEN_ACCOUNT_MINT,
                TOKEN_ACCOUNT_AUTHORITY,
                TOKEN_ACCOUNT_RENT_SYSVAR,
            ],
            Some(initialize_account_seeds),
        ),
    );
    proof {
        let got = plan_view(plan@);
        let want = spec_token_account_plan(
            token_program@,
            payer@,
            mint@,
            new_account@,
            authority@,
            rent,
            seeds_view(create_account_seeds@),
            seeds_view(initialize_account_seeds@),
        );
        assert(got[0] == want[0]);
        assert(got[1] == want[1]);
        assert(got =~= want);
    }
    plan
}

/// Makes the calls of [`spec_token_account_plan`] in order and stops at the
/// first that is refused or fails. `infos` holds the handles of the token
/// program, the payer, the mint, the new account, the authority and the rent
/// sysvar, in that order.
///
/// Whatever the called programs answer, the report is a run of the plan.
pub fn issue_token_account_calls<'a>(
    token_program: &Address,
    payer: &Address,
    mint: &Address,
    new_account: &Address,
    authority: &Address,
    rent: u64,
    create_account_seeds: &[&[u8]],
    initialize_account_seeds: &[&[u8]],
    infos: &[&AccountInfo<'a>],
) -> (report: CallReport)
    requires
        infos@.len() >= 6,
    ensures
        report.follows(
            spec_token_account_plan(
                token_program@,
                payer@,
                mint@,
                new_account@,
                authority@,
                rent,
                seeds_view(create_account_seeds@),
                seeds_view(initialize_account_seeds@),
            ),
        ),
{
    let plan = plan_token_account(
        token_program,
        payer,
        mint,
        new_account,
        authority,
        rent,
        create_account_seeds,
        initialize_account_seeds,
    );
    proof {
        let steps = plan_view(plan@);
        assert forall|i: int| 0 <= i < steps.len() implies (#[trigger] steps[i]).runnable(infos@.len()) by {
            assert(steps[i].runnable(6));
        }
    }
    execute(&plan, infos)
}

/// What creating a token account comes to, for each answer of the runtime
/// for the rent sysvar. A refused rent sysvar stops it with the runtime's
/// error and a rent that does not fit with `RentOverflow`, and nothing is
/// handed to the runtime then. Otherwise the calls of
/// [`spec_token_account_plan`] are run with the rent-exempt minimum for a
/// token account.
pub open spec fn token_account_attempted(
    token_program: Seq<u8>,
    payer: Seq<u8>,
    mint: Seq<u8>,
    new_account: Seq<u8>,
    authority: Seq<u8>,
    rent: Result<RentReading, ProgramError>,
    create_account_seeds: Seq<Seq<u8>>,
    initialize_account_seeds: Seq<Seq<u8>>,
    attempt: Attempt,
) -> bool {
    match rent {
        Err(error) => attempt == Attempt::Stopped(AppError::External(error)),
        Ok(reading) => match spec_rent_exempt_minimum(&reading, TOKEN_ACCOUNT_SIZE) {
            None => attempt == Attempt::Stopped(AppError::RentOverflow),
            Some(minimum) => attempt.ran(
                spec_token_account_plan(
                    token_program,
                    payer,
                    mint,
                    new_account,
                    authority,
                    minimum,
                    create_account_seeds,
                    initialize_account_seeds,
                ),
            ),
        },
    }
}

/// Creates a token account, given what the runtime answered for the rent
/// sysvar: see [`token_account_attempted`]. `infos` holds the handles of the
/// token program, the payer, the mint, the new account, the authority and
/// the rent sysvar, in that order.
pub fn create_token_account_with<'a>(
    token_program: &Address,
    payer: &Address,
    mint: &Address,
    new_account: &Address,
    authority: &Address,
    rent: Result<RentReading, ProgramError>,
    create_account_seeds: &[&[u8]],
    initialize_account_seeds: &[&[u8]],
    infos: &[&AccountInfo<'a>],
) -> (attempt: Attempt)
    requires
        infos@.len() >= 6,
    ensures
        token_account_attempted(
            token_program@,
            payer@,
            mint@,
            new_account@,
            authority@,
            rent,
            seeds_view(create_account_seeds@),
            seeds_view(initialize_account_seeds@),
            attempt,
        ),
{
    let size = token_account_len();
    let reading = match rent {
        Ok(reading) => reading,
        Err(error) => {
            return Attempt::Stopped(AppError::External(error));
        },
    };
    let minimum = match rent_exempt_minimum(&reading, size) {
        Some(minimum) => minimum,
        None => {
            return Attempt::Stopped(AppError::RentOverflow);
        },
    };
    Attempt::Ran(
        issue_token_account_calls(
            token_program,
            payer,
            mint,
            new_account,
            authority,
            minimum,
            create_account_seeds,
            initialize_account_seeds,
            infos,
        ),
    )
}

/// Creates a token account of `mint_info` held by `authority`: the system
/// program creates `new_account` with the rent-exempt minimum for a token
/// account, paid by `payer_info`, and the token program initialises it. The
/// creation is signed with `create_account_seeds` and the initialisation
/// with `initialize_account_seeds`; both are empty where the account is not
/// program-derived.
///
/// The first failure ends the instruction. It is the runtime's or a called
/// program's error, as it came, or `RentOverflow`. What comes back for each
/// answer of the runtime is stated by [`create_token_account_with`].
pub fn spl_token_create_account<'a>(
    token_program: &AccountInfo<'a>,
    payer_info: &AccountInfo<'a>,
    mint_info: &AccountInfo<'a>,
    new_account: &AccountInfo<'a>,
    authority: &AccountInfo<'a>,
    create_account_seeds: &[&[u8]],
    initialize_account_seeds: &[&[u8]],
    rent_info: &AccountInfo<'a>,
) -> (result: Result<(), AppError>)
    ensures
        result matches Err(error) ==> error is External || error is RentOverflow,
{
    let rent = read_rent(rent_info);
    let mut infos: Vec<&AccountInfo<'a>> = Vec::new();
    infos.push(token_program);
    infos.push(payer_info);
    infos.push(mint_info);
    infos.push(new_account);
    infos.push(authority);
    infos.push(rent_info);
    let attempt = create_token_account_with(
        &snapshot(token_program).key,
        &snapshot(payer_info).key,
        &snapshot(mint_info).key,
        &snapshot(new_account).key,
        &snapshot(authority).key,
        rent,
        create_account_seeds,
        initialize_account_seeds,
        infos.as_slice(),
    );
    let result = attempt.into_result();
    if result.is_ok() {
        log_line("spl_token_create_account success");
    }
    result
}

// ---------------------------------------------------------------------------
// Transferring tokens
// ---------------------------------------------------------------------------

// Positions of the handles that the token transfer is given.

/// The token program.
pub const TRANSFER_TOKEN_PROGRAM: usize = 0;

/// The token account that pays.
pub const TRANSFER_SOURCE: usize = 1;

/// The token account that receives.
pub const TRANSFER_DESTINATION: usize = 2;

/// The holder of the paying token account.
pub const TRANSFER_AUTHORITY: usize = 3;

/// The one call of a token transfer: the token program moves `amount` units
/// from `source` to `destination`, authorised by `authority` alone and
/// signed with `seeds`. Nothing is logged before it.
pub open spec fn spec_token_transfer_plan(
    token_program: Seq<u8>,
    source: Seq<u8>,
    destination: Seq<u8>,
    authority: Seq<u8>,
    amount: u64,
    seeds: Seq<Seq<u8>>,
) -> Seq<PlannedCallView> {
    seq![
        PlannedCallView {
            label: None,
            request: CallRequestView::TokenTransfer {
                token_program,
                source,
                destination,
                authority,
                signers: seq![],
                amount,
            },
            accounts: seq![
                TRANSFER_SOURCE,
                TRANSFER_DESTINATION,
                TRANSFER_AUTHORITY,
                TRANSFER_TOKEN_PROGRAM,
            ],
            signer_seeds: Some(seeds),
        },
    ]
}

/// Plans the call of a token transfer: see [`spec_token_transfer_plan`].
pub fn plan_token_transfer<'s>(
    token_program: &Address,
    source: &Address,
    destination: &Address,
    authority: &Address,
    amount: u64,
    seeds: &'s [&'s [u8]],
) -> (plan: Vec<PlannedCall<'s>>)
    ensures
        plan_view(plan@) == spec_token_transfer_plan(
            token_program@,
            source@,
            destination@,
            authority@,
            amount,
            seeds_view(seeds@),
        ),
        plan_runnable(plan_view(plan@), 4),
{
    let signers: Vec<Address> = Vec::new();
    proof {
        assert(crate::request::addresses_view(signers@) =~= Seq::<Seq<u8>>::empty());
    }
    let mut plan: Vec<PlannedCall<'s>> = Vec::new();
    plan.push(
        PlannedCall::new(
            None,
            CallRequest::TokenTransfer {
                token_program: *token_program,
                source: *source,
                destination: *destination,
                authority: *authority,
                signers,
                amount,
            },
            vec![TRANSFER_SOURCE, TRANSFER_DESTINATION, TRANSFER_AUTHORITY, TRANSFER_TOKEN_PROGRAM],
            Some(seeds),
        ),
    );
    proof {
        let got = plan_view(plan@);
        let want = spec_token_transfer_plan(
            token_program@,
            source@,
            destination@,
            authority@,
            amount,
            seeds_view(seeds@),
        );
        assert(got[0] == want[0]);
        assert(got =~= want);
    }
    plan
}

/// Makes the call of [`spec_token_transfer_plan`]. `infos` holds the handles
/// of the token program, the source, the destination and the authority, in
/// that order.
///
/// Whatever the token program answers, the report is a run of the plan.
pub fn issue_token_transfer_call<'a>(
    token_program: &Address,
    source: &Address,
    destination: &Address,
    authority: &Address,
    amount: u64,
    seeds: &[&[u8]],
    infos: &[&AccountInfo<'a>],
) -> (report: CallReport)
    requires
        infos@.len() >= 4,
    ensures
        report.follows(
            spec_token_transfer_plan(
                token_program@,
                source@,
                destination@,
                authority@,
                amount,
                seeds_view(seeds@),
            ),
        ),
{
    let plan = plan_token_transfer(token_program, source, destination, authority, amount, seeds);
    proof {
        let steps = plan_view(plan@);
        assert forall|i: int| 0 <= i < steps.len() implies (#[trigger] steps[i]).runnable(infos@.len()) by {
            assert(steps[i].runnable(4));
        }
    }
    execute(&plan, infos)
}

/// The accounts and arguments of a token transfer.
pub struct TokenTransferParams<'a: 'b, 'b> {
    /// The token account that pays.
    pub source: AccountInfo<'a>,
    /// The token account that receives.
    pub destination: AccountInfo<'a>,
    /// The number of units to move.
    pub amount: u64,
    /// The holder of the paying token account.
    pub authority: AccountInfo<'a>,
    /// The seeds that sign for the authority.
    pub authority_signer_seeds: &'b [&'b [u8]],
    /// The token program.
    pub token_program: AccountInfo<'a>,
}

/// Moves `amount` units from token account `source` to `destination` with
/// one call to the token program, authorised by `authority` and signed with
/// `signer_seeds`. Fails with the token program's error, as it came,
/// whenever the token program rejects the transfer.
pub fn spl_token_transfer<'a>(
    token_program: AccountInfo<'a>,
    source: AccountInfo<'a>,
    destination: AccountInfo<'a>,
    authority: AccountInfo<'a>,
    amount: u64,
    signer_seeds: &[&[u8]],
) -> (result: Result<(), AppError>)
    ensures
        result matches Err(error) ==> error is External,
{
    let mut infos: Vec<&AccountInfo<'a>> = Vec::new();
    infos.push(&token_program);
    infos.push(&source);
    infos.push(&destination);
    infos.push(&authority);
    issue_token_transfer_call(
        &snapshot(&token_program).key,
        &snapshot(&source).key,
        &snapshot(&destination).key,
        &snapshot(&authority).key,
        amount,
        signer_seeds,
        infos.as_slice(),
    ).into_result()
}

// ---------------------------------------------------------------------------
// Clock and pseudo-random values
// ---------------------------------------------------------------------------

/// The byte that a 64-bit value reduces to under `divisor`: the remainder of
/// the division, cut to its low eight bits.
pub open spec fn spec_reduce(random: u64, divisor: u64) -> u8
    recommends
        divisor > 0,
{
    ((random % divisor) % 256) as u8
}

/// Reduces a 64-bit value modulo `divisor` and keeps the low byte.
pub fn reduce_to_u8(random: u64, divisor: u64) -> (byte: u8)
    requires
        divisor > 0,
    ensures
        byte == spec_reduce(random, divisor),
        divisor <= 256 ==> byte == random % divisor,
{
    let remainder: u64 = random % divisor;
    (remainder % 256) as u8
}

/// The value that the standard library's default hasher gives for a seed
/// byte and a clock reading: the digest of three writes to a fresh hasher,
/// the seed as one byte, then the slot and then the timestamp, each as the
/// eight bytes of its 64 bits, lowest first.
pub open spec fn spec_mix(seed: u8, slot: u64, timestamp: i64) -> u64 {
    DefaultHasher::spec_finish(
        seq![
            seq![seed],
            spec_u64_to_le_bytes(slot),
            spec_u64_to_le_bytes(spec_timestamp_as_u64(timestamp)),
        ],
    )
}

/// Mixes a seed byte with a clock reading into 64 bits, with the standard
/// library's default hasher: the seed, then the slot, then the timestamp.
/// The numbers are fed lowest byte first, the byte order of the targets that
/// the runtime supports, so that the value does not depend on the machine.
///
/// This is a toy: whoever chooses when a transaction runs can predict or bias
/// the value. It must not guard anything of worth.
pub fn mix(seed: u8, clock: &ClockReading) -> (value: u64)
    ensures
        value == spec_mix(seed, clock.slot, clock.unix_timestamp),
{
    let seed_bytes: [u8; 1] = [seed];
    let slot_bytes = u64_to_le_bytes(clock.slot);
    let time_bytes = u64_to_le_bytes(timestamp_as_u64(clock.unix_timestamp));
    let mut hasher = DefaultHasher::new();
    hasher.write(seed_bytes.as_slice());
    hasher.write(slot_bytes.as_slice());
    hasher.write(time_bytes.as_slice());
    proof {
        assert(seed_bytes@ =~= seq![seed]);
        assert(hasher@ =~= seq![
            seq![seed],
            spec_u64_to_le_bytes(clock.slot),
            spec_u64_to_le_bytes(spec_timestamp_as_u64(clock.unix_timestamp)),
        ]);
    }
    hasher.finish()
}

/// What `get_random` returns for a given answer of the clock: the mixed value
/// where the clock answered, the clock's error as it came where it did not.
pub fn random_from(seed: u8, clock: Result<ClockReading, ProgramError>) -> (random: Result<u64, AppError>)
    ensures
        match clock {
            Ok(reading) => random == Ok::<u64, AppError>(spec_mix(seed, reading.slot, reading.unix_timestamp)),
            Err(error) => random == Err::<u64, AppError>(AppError::External(error)),
        },
{
    match clock {
        Ok(reading) => Ok(mix(seed, &reading)),
        Err(error) => Err(AppError::External(error)),
    }
}

/// A pseudo-random 64-bit value: the seed mixed with the slot and the time
/// that the cluster clock gives at this moment. Fails only where the runtime
/// does not hand out the clock, with the runtime's error.
///
/// Not unpredictable: see [`mix`].
pub fn get_random(seed: u8) -> (random: Result<u64, AppError>)
    ensures
        random matches Err(error) ==> error is External,
        random matches Ok(value) ==> exists|slot: u64, timestamp: i64|
            value == #[trigger] spec_mix(seed, slot, timestamp),
{
    let clock = read_clock();
    let ghost answer = clock;
    let random = random_from(seed, clock);
    proof {
        if answer is Ok {
            let reading = answer->Ok_0;
            assert(random->Ok_0 == spec_mix(seed, reading.slot, reading.unix_timestamp));
        }
    }
    random
}

/// What `get_random_u8` returns for a given answer of [`get_random`]: an
/// error is handed on as it came, whatever the divisor; a value is reduced
/// modulo the divisor and cut to its low byte, and there is no remainder
/// modulo zero.
pub open spec fn spec_random_u8_from(random: Result<u64, AppError>, divisor: u64) -> Result<u8, AppError> {
    match random {
        Err(error) => Err(error),
        Ok(value) => if divisor == 0 {
            Err(AppError::ZeroDivisor)
        } else {
            Ok(spec_reduce(value, divisor))
        },
    }
}

/// What `get_random_u8` returns for a given answer of [`get_random`]: see
/// [`spec_random_u8_from`].
pub fn random_u8_from(random: Result<u64, AppError>, divisor: u64) -> (byte: Result<u8, AppError>)
    ensures
        byte == spec_random_u8_from(random, divisor),
{
    match random {
        Err(error) => Err(error),
        Ok(value) => {
            if divisor == 0 {
                Err(AppError::ZeroDivisor)
            } else {
                Ok(reduce_to_u8(value, divisor))
            }
        },
    }
}

/// A pseudo-random byte: the value of [`get_random`] reduced modulo
/// `divisor` and cut to its low byte. The clock is asked first, and its
/// error comes back whatever the divisor is; a zero divisor fails with
/// `ZeroDivisor` once the clock has answered.
pub fn get_random_u8(seed: u8, divisor: u64) -> (random: Result<u8, AppError>)
    ensures
        random matches Err(error) ==> error is External || (error is ZeroDivisor && divisor == 0),
        random matches Ok(byte) ==> divisor > 0 && exists|slot: u64, timestamp: i64|
            byte == spec_reduce(#[trigger] spec_mix(seed, slot, timestamp), divisor),
        random matches Ok(byte) ==> (divisor <= 256 ==> byte < divisor),
{
    random_u8_from(get_random(seed), divisor)
}

/// A signed timestamp read as an unsigned 64-bit number: itself where it is
/// not negative, and 2^64 more than itself where it is.
pub open spec fn spec_timestamp_as_u64(timestamp: i64) -> u64 {
    if timestamp >= 0 {
        timestamp as u64
    } else {
        (timestamp + 0x1_0000_0000_0000_0000) as u64
    }
}

/// Reads a signed timestamp as an unsigned 64-bit number, bit for bit.
pub fn timestamp_as_u64(timestamp: i64) -> (seconds: u64)
    ensures
        seconds == spec_timestamp_as_u64(timestamp),
{
    if timestamp >= 0 {
        timestamp as u64
    } else {
        let below: u64 = (-(timestamp + 1)) as u64;
        u64::MAX - below
    }
}

/// What `now_timestamp` returns for a given answer of the clock: the
/// timestamp as an unsigned number where the clock answered, the clock's
/// error as it came where it did not.
pub fn timestamp_from(clock: Result<ClockReading, ProgramError>) -> (seconds: Result<u64, AppError>)
    ensures
        match clock {
            Ok(reading) => seconds == Ok::<u64, AppError>(spec_timestamp_as_u64(reading.unix_timestamp)),
            Err(error) => seconds == Err::<u64, AppError>(AppError::External(error)),
        },
{
    match clock {
        Ok(reading) => Ok(timestamp_as_u64(reading.unix_timestamp)),
        Err(error) => Err(AppError::External(error)),
    }
}

/// The cluster's time in seconds since the Unix epoch. Fails only where the
/// runtime does not hand out the clock.
pub fn now_timestamp() -> (seconds: Result<u64, AppError>)
    ensures
        seconds matches Err(error) ==> error is External,
{
    timestamp_from(read_clock())
}

// ---------------------------------------------------------------------------
// Decoding without the end check
// ---------------------------------------------------------------------------

/// Decodes the instruction at the front of `data` and ignores whatever
/// follows it. Fails with `DecodeError` where no instruction can be read.
pub fn try_from_slice_unchecked(data: &[u8]) -> (decoded: Result<GameInstruction, AppError>)
    ensures
        match spec_decode_prefix(data@) {
            Some(instruction) => decoded matches Ok(got) && got@ == instruction,
            None => decoded == Err::<GameInstruction, AppError>(AppError::DecodeError),
        },
{
    match read_instruction(data) {
        Some((instruction, _)) => Ok(instruction),
        None => Err(AppError::DecodeError),
    }
}

} // verus!
