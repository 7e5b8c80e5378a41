use vstd::prelude::*;
use solana_program::account_info::AccountInfo;
use solana_program::program_error::ProgramError;
use crate::account::{read_accounts, AccountSnapshot};
use crate::address::Address;
use crate::error::AppError;
use crate::instruction::{
    lemma_encode_decoded_instruction, spec_decode, GameInstruction, GameInstructionView,
};
use crate::pipeline::Attempt;
use crate::processor::mint::{
    check_mint_accounts, lemma_standard_texts_fit, mint_attempted, mint_with_rent, spec_mint_rejection,
    MintAccounts, TokenMetadata, TokenMetadataView, MINT_ACCOUNT_COUNT, RENT_SYSVAR,
};
use crate::request::associated_token_derivable;
use crate::runtime::{read_rent, RentReading};

pub mod mint;

verus! {

/// The metadata texts of the token that an instruction mints: the
/// instruction's document address and its title, the standard title where
/// it has none, and the standard symbol.
pub open spec fn spec_instruction_metadata(instruction: GameInstructionView) -> TokenMetadataView {
    match instruction {
        GameInstructionView::Mint(args) => TokenMetadataView::titled(args.title, args.uri),
    }
}

/// Runs a decoded instruction for accounts that passed the checks, given
/// what the runtime answered for the rent sysvar. A `Mint` instruction mints
/// one token whose metadata carries the texts of
/// [`spec_instruction_metadata`]; what comes back for each answer of the
/// runtime is what [`mint_attempted`] says for those texts.
pub fn run_instruction<'a>(
    instruction: GameInstruction,
    accounts: &MintAccounts,
    rent: Result<RentReading, ProgramError>,
    infos: &[&AccountInfo<'a>],
) -> (attempt: Attempt)
    requires
        instruction@.encodable(),
        associated_token_derivable(accounts.signer.key@, accounts.mint.key@),
        infos@.len() >= MINT_ACCOUNT_COUNT,
    ensures
        mint_attempted(*accounts, spec_instruction_metadata(instruction@), rent, attempt),
{
    proof {
        lemma_standard_texts_fit();
    }
    match instruction {
        GameInstruction::Mint(args) => {
            let metadata = TokenMetadata::titled(args.title, args.uri);
            mint_with_rent(accounts, &metadata, rent, infos)
        },
    }
}

/// What running a decoded instruction on an account list comes to. A list
/// that fails the checks stops it with the error of
/// [`spec_mint_rejection`], and nothing is asked of the runtime. For a list
/// that passes them it is, for some answer of the runtime for the rent
/// sysvar, what [`mint_attempted`] says for the instruction's texts.
pub open spec fn instruction_answered(
    instruction: GameInstructionView,
    snapshots: Seq<AccountSnapshot>,
    attempt: Attempt,
) -> bool {
    match spec_mint_rejection(snapshots) {
        Some(error) => attempt == Attempt::Stopped(error),
        None => exists|rent: Result<RentReading, ProgramError>| #[trigger]
            mint_attempted(
                MintAccounts::spec_from_list(snapshots),
                spec_instruction_metadata(instruction),
                rent,
                attempt,
            ),
    }
}

/// Runs a decoded instruction on an account list of which `snapshots` is
/// what was read, account by account: runs the checks, reads the rent sysvar
/// and makes the calls, and says what became of it. See
/// [`instruction_answered`].
pub fn attempt_instruction<'a>(
    instruction: GameInstruction,
    snapshots: &Vec<AccountSnapshot>,
    infos: &[&AccountInfo<'a>],
) -> (attempt: Attempt)
    requires
        instruction@.encodable(),
        snapshots@.len() == infos@.len(),
    ensures
        instruction_answered(instruction@, snapshots@, attempt),
{
    let roles = match check_mint_accounts(snapshots.as_slice()) {
        Ok(roles) => roles,
        Err(error) => {
            return Attempt::Stopped(error);
        },
    };
    let rent = read_rent(infos[RENT_SYSVAR]);
    let ghost answer = rent;
    let ghost decoded = instruction@;
    let attempt = run_instruction(instruction, &roles, rent, infos);
    assert(mint_attempted(
        MintAccounts::spec_from_list(snapshots@),
        spec_instruction_metadata(decoded),
        answer,
        attempt,
    ));
    attempt
}

/// The program's entry point: decodes `input` and runs the instruction it
/// spells on `accounts`.
///
/// Input that does not spell an instruction fails with `DecodeError`, and
/// only such input does; no account is read or touched then. Then each
/// account is read once and the instruction is run as
/// [`attempt_instruction`] states it: a `Mint` instruction mints one token
/// whose metadata carries the instruction's document address and title, the
/// standard title where it has none.
pub fn process_instruction<'a>(
    program_id: &Address,
    accounts: &[AccountInfo<'a>],
    input: &[u8],
) -> (result: Result<(), AppError>)
    ensures
        spec_decode(input@) is None <==> result == Err::<(), AppError>(AppError::DecodeError),
        spec_decode(input@) is Some ==> (accounts@.len() < MINT_ACCOUNT_COUNT <==> result == Err::<
            (),
            AppError,
        >(AppError::NotEnoughAccountKeys)),
{
    let instruction = match GameInstruction::try_from_slice(input) {
        Ok(instruction) => instruction,
        Err(error) => {
            return Err(error);
        },
    };
    proof {
        lemma_encode_decoded_instruction(input@);
    }
    let (snapshots, handles) = read_accounts(accounts);
    attempt_instruction(instruction, &snapshots, handles.as_slice()).into_result()
}

} // verus!
