use vstd::prelude::*;
use vstd::utf8::encode_utf8;
use solana_program::account_info::AccountInfo;
use solana_program::program_error::ProgramError;
use crate::account::{read_accounts, AccountSnapshot};
use crate::address::Address;
use crate::error::AppError;
use crate::pipeline::{execute, plan_runnable, plan_view, Attempt, CallReport, PlannedCall, PlannedCallView};
use crate::request::{
    addresses_view, associated_token_address, associated_token_derivable, fits_length_prefix, CallRequest,
    CallRequestView, Creator,
};
use crate::runtime::{read_rent, RentReading};
use crate::text::lemma_utf8_length_bound;
use crate::utils::{assert_signer, rent_exempt_minimum, spec_rent_exempt_minimum};

verus! {

// Positions of the accounts in the list that the mint instruction is given.

/// The mint and freeze authority of the new mint.
pub const AUTHORITY: usize = 0;

/// The fee payer, who signs the transaction and receives the token.
pub const SIGNER: usize = 1;

/// The mint account to create.
pub const MINT: usize = 2;

/// The signer's associated token account for the mint.
pub const TOKEN_ACCOUNT: usize = 3;

/// The token program.
pub const TOKEN_PROGRAM: usize = 4;

/// The associated-token-account program.
pub const ASSOCIATED_TOKEN_PROGRAM: usize = 5;

/// The rent sysvar.
pub const RENT_SYSVAR: usize = 6;

/// The system program.
pub const SYSTEM_PROGRAM: usize = 7;

/// The metadata program.
pub const METADATA_PROGRAM: usize = 8;

/// The metadata account of the mint.
pub const METADATA: usize = 9;

/// The master edition account of the mint.
pub const EDITION: usize = 10;

/// Number of accounts that the mint instruction reads.
pub const MINT_ACCOUNT_COUNT: usize = 11;

/// Size in bytes of a token mint's data.
pub const MINT_SIZE: usize = 82;

/// Decimals of the new mint: a non-fungible token has none.
pub const MINT_DECIMALS: u8 = 0;

/// Units minted: exactly one.
pub const MINT_AMOUNT: u64 = 1;

/// Share of the royalties that goes to the single creator, in percent.
pub const CREATOR_SHARE: u8 = 100;

/// Royalties on secondary sales, in hundredths of a percent.
pub const SELLER_FEE_BASIS_POINTS: u16 = 1;

/// Prints that the master edition allows: none, the token is unique.
pub const MAX_SUPPLY: u64 = 0;

/// The accounts of the mint instruction, each under the role that its
/// position in the list gives it.
#[derive(Clone, Copy, Debug, PartialEq, Eq)]
pub struct MintAccounts {
    pub authority: AccountSnapshot,
    pub signer: AccountSnapshot,
    pub mint: AccountSnapshot,
    pub token_account: AccountSnapshot,
    pub token_program: AccountSnapshot,
    pub associated_token_program: AccountSnapshot,
    pub rent_sysvar: AccountSnapshot,
    pub system_program: AccountSnapshot,
    pub metadata_program: AccountSnapshot,
    pub metadata: AccountSnapshot,
    pub edition: AccountSnapshot,
}

impl MintAccounts {
    /// The roles of the first eleven accounts of a list.
    pub open spec fn spec_from_list(list: Seq<AccountSnapshot>) -> MintAccounts
        recommends
            list.len() >= MINT_ACCOUNT_COUNT,
    {
        MintAccounts {
            authority: list[AUTHORITY as int],
            signer: list[SIGNER as int],
            mint: list[MINT as int],
            token_account: list[TOKEN_ACCOUNT as int],
            token_program: list[TOKEN_PROGRAM as int],
            associated_token_program: list[ASSOCIATED_TOKEN_PROGRAM as int],
            rent_sysvar: list[RENT_SYSVAR as int],
            system_program: list[SYSTEM_PROGRAM as int],
            metadata_program: list[METADATA_PROGRAM as int],
            metadata: list[METADATA as int],
            edition: list[EDITION as int],
        }
    }

    /// Reads the roles off the account list, by position alone. A list
    /// shorter than eleven accounts fails with `NotEnoughAccountKeys`;
    /// accounts beyond the eleventh are ignored.
    pub fn from_list(list: &[AccountSnapshot]) -> (accounts: Result<MintAccounts, AppError>)
        ensures
            list@.len() >= MINT_ACCOUNT_COUNT ==> accounts == Ok::<MintAccounts, AppError>(
                Self::spec_from_list(list@),
            ),
            list@.len() < MINT_ACCOUNT_COUNT ==> accounts == Err::<MintAccounts, AppError>(
                AppError::NotEnoughAccountKeys,
            ),
    {
        if list.len() < MINT_ACCOUNT_COUNT {
            return Err(AppError::NotEnoughAccountKeys);
        }
        Ok(
            MintAccounts {
                authority: list[AUTHORITY],
                signer: list[SIGNER],
                mint: list[MINT],
                token_account: list[TOKEN_ACCOUNT],
                token_program: list[TOKEN_PROGRAM],
                associated_token_program: list[ASSOCIATED_TOKEN_PROGRAM],
                rent_sysvar: list[RENT_SYSVAR],
                system_program: list[SYSTEM_PROGRAM],
                metadata_program: list[METADATA_PROGRAM],
                metadata: list[METADATA],
                edition: list[EDITION],
            },
        )
    }
}

/// The texts of a token's metadata record.
#[derive(Clone, Debug, PartialEq, Eq)]
pub struct TokenMetadata {
    pub name: String,
    pub symbol: String,
    pub uri: String,
}

/// The mathematical value of a [`TokenMetadata`].
pub struct TokenMetadataView {
    pub name: Seq<char>,
    pub symbol: Seq<char>,
    pub uri: Seq<char>,
}

impl View for TokenMetadata {
    type V = TokenMetadataView;

    open spec fn view(&self) -> TokenMetadataView {
        TokenMetadataView { name: self.name@, symbol: self.symbol@, uri: self.uri@ }
    }
}

impl TokenMetadataView {
    /// Whether each text, in UTF-8, fits the 32-bit length prefix of the
    /// metadata program's argument encoding.
    pub open spec fn fits(self) -> bool {
        &&& fits_length_prefix(encode_utf8(self.name).len())
        &&& fits_length_prefix(encode_utf8(self.symbol).len())
        &&& fits_length_prefix(encode_utf8(self.uri).len())
    }

    /// The record of a token minted without arguments.
    pub open spec fn standard() -> TokenMetadataView {
        TokenMetadataView {
            name: "my_title"@,
            symbol: "my_symbol"@,
            uri: "https://arweave.net/y5e5DJsiwH0s_ayfMwYk-SnrZtVZzHLQDSTZ5dNRUHA"@,
        }
    }

    /// The record of a token minted with a document address and, optionally,
    /// a title; a token without a title gets the standard one.
    pub open spec fn titled(title: Option<Seq<char>>, uri: Seq<char>) -> TokenMetadataView {
        TokenMetadataView {
            name: match title {
                Some(text) => text,
                None => "my_title"@,
            },
            symbol: "my_symbol"@,
            uri,
        }
    }
}

/// The standard texts fit their length prefix.
pub proof fn lemma_standard_texts_fit()
    ensures
        TokenMetadataView::standard().fits(),
        fits_length_prefix(encode_utf8("my_title"@).len()),
        fits_length_prefix(encode_utf8("my_symbol"@).len()),
{
    reveal_strlit("my_title");
    reveal_strlit("my_symbol");
    reveal_strlit("https://arweave.net/y5e5DJsiwH0s_ayfMwYk-SnrZtVZzHLQDSTZ5dNRUHA");
    lemma_utf8_length_bound("my_title"@);
    lemma_utf8_length_bound("my_symbol"@);
    lemma_utf8_length_bound("https://arweave.net/y5e5DJsiwH0s_ayfMwYk-SnrZtVZzHLQDSTZ5dNRUHA"@);
}

impl TokenMetadata {
    /// The record of a token minted without arguments.
    pub fn standard() -> (record: TokenMetadata)
        ensures
            record@ == TokenMetadataView::standard(),
            record@.fits(),
    {
        proof {
            lemma_standard_texts_fit();
        }
        TokenMetadata {
            name: "my_title".to_owned(),
            symbol: "my_symbol".to_owned(),
            uri: "https://arweave.net/y5e5DJsiwH0s_ayfMwYk-SnrZtVZzHLQDSTZ5dNRUHA".to_owned(),
        }
    }

    /// The record of a token minted with a document address and, optionally,
    /// a title; a token without a title gets the standard one.
    pub fn titled(title: Option<String>, uri: String) -> (record: TokenMetadata)
        ensures
            record@ == TokenMetadataView::titled(
                match title {
                    Some(text) => Some(text@),
                    None => None,
                },
                uri@,
            ),
    {
        let name = match title {
            Some(text) => text,
            None => "my_title".to_owned(),
        };
        TokenMetadata { name, symbol: "my_symbol".to_owned(), uri }
    }
}

/// The six calls that mint one token, in the order in which they are made,
/// each with the accounts it is handed:
///
/// 1. the system program creates the mint account, paid by the signer with
///    `rent` lamports, sized for a mint and owned by the token program;
/// 2. the token program initialises the mint, without decimals, with the
///    authority as mint and freeze authority;
/// 3. the associated-token-account program creates the signer's token
///    account for the mint;
/// 4. the token program mints one unit into that account;
/// 5. the metadata program creates the metadata record, with the signer as
///    its only creator, unconfirmed, at a full share;
/// 6. the metadata program creates the master edition, with no prints.
pub open spec fn spec_mint_plan(accounts: MintAccounts, metadata: TokenMetadataView, rent: u64) -> Seq<PlannedCallView> {
    seq![
        PlannedCallView {
            label: Some("Create Account"@),
            request: CallRequestView::CreateAccount {
                from: accounts.signer.key@,
                to: accounts.mint.key@,
                lamports: rent,
                space: MINT_SIZE as u64,
                owner: accounts.token_program.key@,
            },
            accounts: seq![SIGNER, MINT],
            signer_seeds: None,
        },
        PlannedCallView {
            label: Some("Initialize Mint"@),
            request: CallRequestView::InitializeMint {
                token_program: accounts.token_program.key@,
                mint: accounts.mint.key@,
                mint_authority: accounts.authority.key@,
                freeze_authority: Some(accounts.authority.key@),
                decimals: MINT_DECIMALS,
            },
            accounts: seq![AUTHORITY, MINT, RENT_SYSVAR, TOKEN_PROGRAM],
            signer_seeds: None,
        },
        PlannedCallView {
            label: Some("Create Associated Token Account"@),
            request: CallRequestView::CreateAssociatedTokenAccount {
                funder: accounts.signer.key@,
                wallet: accounts.signer.key@,
                mint: accounts.mint.key@,
            },
            accounts: seq![
                SIGNER,
                TOKEN_ACCOUNT,
                ASSOCIATED_TOKEN_PROGRAM,
                MINT,
                TOKEN_PROGRAM,
                SYSTEM_PROGRAM,
            ],
            signer_seeds: None,
        },
        PlannedCallView {
            label: Some("Mint To"@),
            request: CallRequestView::MintTo {
                token_program: accounts.token_program.key@,
                mint: accounts.mint.key@,
                account: accounts.token_account.key@,
                owner: accounts.signer.key@,
                signers: seq![accounts.signer.key@],
                amount: MINT_AMOUNT,
            },
            accounts: seq![SIGNER, TOKEN_ACCOUNT, MINT, TOKEN_PROGRAM, SYSTEM_PROGRAM],
            signer_seeds: None,
        },
        PlannedCallView {
            label: Some("Create Metadata Account"@),
            request: CallRequestView::CreateMetadataAccounts {
                program: accounts.metadata_program.key@,
                metadata: accounts.metadata.key@,
                mint: accounts.mint.key@,
                mint_authority: accounts.signer.key@,
                payer: accounts.signer.key@,
                update_authority: accounts.signer.key@,
                name: metadata.name,
                symbol: metadata.symbol,
                uri: metadata.uri,
                creators: Some(seq![(accounts.signer.key@, false, CREATOR_SHARE)]),
                seller_fee_basis_points: SELLER_FEE_BASIS_POINTS,
                update_authority_is_signer: true,
                is_mutable: false,
            },
            accounts: seq![
                METADATA,
                MINT,
                SIGNER,
                METADATA_PROGRAM,
                TOKEN_PROGRAM,
                SYSTEM_PROGRAM,
                RENT_SYSVAR,
            ],
            signer_seeds: None,
        },
        PlannedCallView {
            label: Some("Create Master Edition"@),
            request: CallRequestView::CreateMasterEdition {
                program: accounts.metadata_program.key@,
                edition: accounts.edition.key@,
                mint: accounts.mint.key@,
                update_authority: accounts.signer.key@,
                mint_authority: accounts.signer.key@,
                metadata: accounts.metadata.key@,
                payer: accounts.signer.key@,
                max_supply: Some(MAX_SUPPLY),
            },
            accounts: seq![
                EDITION,
                MINT,
                SIGNER,
                METADATA,
                METADATA_PROGRAM,
                TOKEN_PROGRAM,
                SYSTEM_PROGRAM,
                RENT_SYSVAR,
            ],
            signer_seeds: None,
        },
    ]
}

/// Plans the calls that mint one token: see [`spec_mint_plan`].
pub fn plan_mint(accounts: &MintAccounts, metadata: &TokenMetadata, rent: u64) -> (plan: Vec<PlannedCall<'static>>)
    requires
        metadata@.fits(),
        associated_token_derivable(accounts.signer.key@, accounts.mint.key@),
    ensures
        plan_view(plan@) == spec_mint_plan(*accounts, metadata@, rent),
        plan_runnable(plan_view(plan@), MINT_ACCOUNT_COUNT as nat),
{
    let signer = accounts.signer.key;
    let mint = accounts.mint.key;
    let token_program = accounts.token_program.key;
    let metadata_program = accounts.metadata_program.key;
    let signers = vec![signer];
    let creators = vec![Creator { address: signer, verified: false, share: CREATOR_SHARE }];
    proof {
        assert(addresses_view(signers@) =~= seq![signer@]);
        assert(creators@.map_values(|c: Creator| (c.address@, c.verified, c.share)) =~= seq![
            (signer@, false, CREATOR_SHARE),
        ]);
    }
    let mut plan: Vec<PlannedCall<'static>> = Vec::new();
    plan.push(
        PlannedCall::new(
            Some("Create Account"),
            CallRequest::CreateAccount { from: signer, to: mint, lamports: rent, space: MINT_SIZE as u64, owner: token_program },
            vec![SIGNER, MINT],
            None,
        ),
    );
    plan.push(
        PlannedCall::new(
            Some("Initialize Mint"),
            CallRequest::InitializeMint {
                token_program,
                mint,
                mint_authority: accounts.authority.key,
                freeze_authority: Some(accounts.authority.key),
                decimals: MINT_DECIMALS,
            },
            vec![AUTHORITY, MINT, RENT_SYSVAR, TOKEN_PROGRAM],
            None,
        ),
    );
    plan.push(
        PlannedCall::new(
            Some("Create Associated Token Account"),
            CallRequest::CreateAssociatedTokenAccount { funder: signer, wallet: signer, mint },
            vec![SIGNER, TOKEN_ACCOUNT, ASSOCIATED_TOKEN_PROGRAM, MINT, TOKEN_PROGRAM, SYSTEM_PROGRAM],
            None,
        ),
    );
    plan.push(
        PlannedCall::new(
            Some("Mint To"),
            CallRequest::MintTo {
                token_program,
                mint,
                account: accounts.token_account.key,
                owner: signer,
                signers,
                amount: MINT_AMOUNT,
            },
            vec![SIGNER, TOKEN_ACCOUNT, MINT, TOKEN_PROGRAM, SYSTEM_PROGRAM],
            None,
        ),
    );
    plan.push(
        PlannedCall::new(
            Some("Create Metadata Account"),
            CallRequest::CreateMetadataAccounts {
                program: metadata_program,
                metadata: accounts.metadata.key,
                mint,
                mint_authority: signer,
                payer: signer,
                update_authority: signer,
                name: metadata.name.clone(),
                symbol: metadata.symbol.clone(),
                uri: metadata.uri.clone(),
                creators: Some(creators),
                seller_fee_basis_points: SELLER_FEE_BASIS_POINTS,
                update_authority_is_signer: true,
                is_mutable: false,
            },
            vec![METADATA, MINT, SIGNER, METADATA_PROGRAM, TOKEN_PROGRAM, SYSTEM_PROGRAM, RENT_SYSVAR],
            None,
        ),
    );
    plan.push(
        PlannedCall::new(
            Some("Create Master Edition"),
            CallRequest::CreateMasterEdition {
                program: metadata_program,
                edition: accounts.edition.key,
                mint,
                update_authority: signer,
                mint_authority: signer,
                metadata: accounts.metadata.key,
                payer: signer,
                max_supply: Some(MAX_SUPPLY),
            },
            vec![EDITION, MINT, SIGNER, METADATA, METADATA_PROGRAM, TOKEN_PROGRAM, SYSTEM_PROGRAM, RENT_SYSVAR],
            None,
        ),
    );
    proof {
        let got = plan_view(plan@);
        let want = spec_mint_plan(*accounts, metadata@, rent);
        assert(got.len() == 6);
        assert(got[0] == want[0]);
        assert(got[1] == want[1]);
        assert(got[2] == want[2]);
        assert(got[3] == want[3]);
        assert(got[4] == want[4]);
        assert(got[5] == want[5]);
        assert(got =~= want);
    }
    plan
}

/// Makes the calls that mint one token, in the order of [`spec_mint_plan`],
/// and stops at the first that is refused or fails. `infos` is the account
/// list that the instruction was given; `accounts` is what was read of it and
/// `rent` the balance that exempts a mint account from rent.
///
/// Whatever the called programs answer, the report is a run of the plan.
pub fn issue_mint_calls<'a>(
    accounts: &MintAccounts,
    metadata: &TokenMetadata,
    rent: u64,
    infos: &[&AccountInfo<'a>],
) -> (report: CallReport)
    requires
        metadata@.fits(),
        associated_token_derivable(accounts.signer.key@, accounts.mint.key@),
        infos@.len() >= MINT_ACCOUNT_COUNT,
    ensures
        report.follows(spec_mint_plan(*accounts, metadata@, rent)),
{
    let plan = plan_mint(accounts, metadata, rent);
    proof {
        let steps = plan_view(plan@);
        assert forall|i: int| 0 <= i < steps.len() implies (#[trigger] steps[i]).runnable(infos@.len()) by {
            assert(steps[i].runnable(MINT_ACCOUNT_COUNT as nat));
        }
    }
    execute(&plan, infos)
}

/// In every run of the mint plan, a mint-to call is handed to the runtime
/// only after the initialize-mint call for the same mint address was handed
/// to it and came back with success.
pub proof fn lemma_mint_to_follows_initialize_mint(
    accounts: MintAccounts,
    metadata: TokenMetadataView,
    rent: u64,
    report: CallReport,
    step: int,
)
    requires
        report.follows(spec_mint_plan(accounts, metadata, rent)),
        0 <= step < report.issued@.len(),
        spec_mint_plan(accounts, metadata, rent)[step].request is MintTo,
    ensures
        ({
            let plan = spec_mint_plan(accounts, metadata, rent);
            exists|earlier: int|
                {
                    &&& 0 <= earlier < step
                    &&& report.succeeded(earlier)
                    &&& (#[trigger] plan[earlier]).request is InitializeMint
                    &&& plan[earlier].request->InitializeMint_mint == plan[step].request->MintTo_mint
                    &&& plan[earlier].request.instruction() == Some(report.issued@[earlier]@)
                }
        }),
{
    let plan = spec_mint_plan(accounts, metadata, rent);
    assert(step == 3);
    assert(plan[1].request is InitializeMint);
    assert(report.succeeded(1));
}

/// What the checks before the first call answer for an account list: the
/// error they stop with, or `None` where they pass. The list must hold the
/// eleven accounts, the account at the signer's position must have signed,
/// and the signer must have an associated token account address for the
/// mint.
pub open spec fn spec_mint_rejection(snapshots: Seq<AccountSnapshot>) -> Option<AppError> {
    if snapshots.len() < MINT_ACCOUNT_COUNT {
        Some(AppError::NotEnoughAccountKeys)
    } else if !snapshots[SIGNER as int].is_signer {
        Some(AppError::MissingSignature)
    } else if !associated_token_derivable(snapshots[SIGNER as int].key@, snapshots[MINT as int].key@) {
        Some(AppError::InvalidDerivedKey)
    } else {
        None
    }
}

/// Runs the checks that come before the first call: the roles of the
/// accounts where the list passes them, and otherwise the error of
/// [`spec_mint_rejection`]. Nothing is asked of the runtime.
pub fn check_mint_accounts(snapshots: &[AccountSnapshot]) -> (checked: Result<MintAccounts, AppError>)
    ensures
        match spec_mint_rejection(snapshots@) {
            Some(error) => checked == Err::<MintAccounts, AppError>(error),
            None => checked == Ok::<MintAccounts, AppError>(MintAccounts::spec_from_list(snapshots@)),
        },
{
    let accounts = match MintAccounts::from_list(snapshots) {
        Ok(accounts) => accounts,
        Err(error) => {
            return Err(error);
        },
    };
    match assert_signer(&accounts.signer) {
        Ok(()) => {},
        Err(error) => {
            return Err(error);
        },
    }
    if associated_token_address(&accounts.signer.key, &accounts.mint.key).is_none() {
        return Err(AppError::InvalidDerivedKey);
    }
    Ok(accounts)
}

/// What minting comes to once the checks have passed, for each answer of the
/// runtime for the rent sysvar. A refused rent sysvar stops it with the
/// runtime's error and a rent that does not fit with `RentOverflow`, and
/// nothing is handed to the runtime then. Otherwise the calls of
/// [`spec_mint_plan`] are run with the rent-exempt minimum for a mint
/// account.
pub open spec fn mint_attempted(
    accounts: MintAccounts,
    metadata: TokenMetadataView,
    rent: Result<RentReading, ProgramError>,
    attempt: Attempt,
) -> bool {
    match rent {
        Err(error) => attempt == Attempt::Stopped(AppError::External(error)),
        Ok(reading) => match spec_rent_exempt_minimum(&reading, MINT_SIZE) {
            None => attempt == Attempt::Stopped(AppError::RentOverflow),
            Some(minimum) => attempt.ran(spec_mint_plan(accounts, metadata, minimum)),
        },
    }
}

/// Mints one token for accounts that passed the checks, given what the
/// runtime answered for the rent sysvar: see [`mint_attempted`]. `infos` is
/// the account list that the instruction was given.
pub fn mint_with_rent<'a>(
    accounts: &MintAccounts,
    metadata: &TokenMetadata,
    rent: Result<RentReading, ProgramError>,
    infos: &[&AccountInfo<'a>],
) -> (attempt: Attempt)
    requires
        metadata@.fits(),
        associated_token_derivable(accounts.signer.key@, accounts.mint.key@),
        infos@.len() >= MINT_ACCOUNT_COUNT,
    ensures
        mint_attempted(*accounts, metadata@, rent, attempt),
{
    let reading = match rent {
        Ok(reading) => reading,
        Err(error) => {
            return Attempt::Stopped(AppError::External(error));
        },
    };
    let minimum = match rent_exempt_minimum(&reading, MINT_SIZE) {
        Some(minimum) => minimum,
        None => {
            return Attempt::Stopped(AppError::RentOverflow);
        },
    };
    Attempt::Ran(issue_mint_calls(accounts, metadata, minimum, infos))
}

/// What minting on an account list comes to. A list that fails the checks
/// stops it with the error of [`spec_mint_rejection`], and nothing is asked
/// of the runtime. For a list that passes them it is, for some answer of the
/// runtime for the rent sysvar, what [`mint_attempted`] says.
pub open spec fn mint_answered(snapshots: Seq<AccountSnapshot>, metadata: TokenMetadataView, attempt: Attempt) -> bool {
    match spec_mint_rejection(snapshots) {
        Some(error) => attempt == Attempt::Stopped(error),
        None => exists|rent: Result<RentReading, ProgramError>| #[trigger]
            mint_attempted(MintAccounts::spec_from_list(snapshots), metadata, rent, attempt),
    }
}

/// Mints one token on an account list of which `snapshots` is what was read,
/// account by account: runs the checks, reads the rent sysvar and makes the
/// calls, and says what became of it. See [`mint_answered`].
pub fn attempt_mint<'a>(
    snapshots: &Vec<AccountSnapshot>,
    infos: &[&AccountInfo<'a>],
    metadata: &TokenMetadata,
) -> (attempt: Attempt)
    requires
        snapshots@.len() == infos@.len(),
        metadata@.fits(),
    ensures
        mint_answered(snapshots@, metadata@, attempt),
{
    let accounts = match check_mint_accounts(snapshots.as_slice()) {
        Ok(accounts) => accounts,
        Err(error) => {
            return Attempt::Stopped(error);
        },
    };
    let rent = read_rent(infos[RENT_SYSVAR]);
    let ghost answer = rent;
    let attempt = mint_with_rent(&accounts, metadata, rent, infos);
    assert(mint_attempted(MintAccounts::spec_from_list(snapshots@), metadata@, answer, attempt));
    attempt
}

/// Mints one token on an account list of which `snapshots` is what was read,
/// account by account.
///
/// The checks come first, and a list that fails them is answered before
/// anything is asked of the runtime: `NotEnoughAccountKeys` for a list
/// shorter than eleven accounts, `MissingSignature` where the signer did not
/// sign, `InvalidDerivedKey` where no associated token account address can
/// be derived for the signer and the mint. Then the rent for a mint account
/// is read from the rent sysvar, and the calls of [`spec_mint_plan`] are
/// made in order. From there on the result is the runtime's: success where
/// every call succeeded, and else the error of the first refusal, as it
/// came, or `RentOverflow`. The result is that of [`attempt_mint`].
pub fn mint_with_accounts<'a>(
    snapshots: &Vec<AccountSnapshot>,
    infos: &[&AccountInfo<'a>],
    metadata: &TokenMetadata,
) -> (result: Result<(), AppError>)
    requires
        snapshots@.len() == infos@.len(),
        metadata@.fits(),
    ensures
        spec_mint_rejection(snapshots@) matches Some(error) ==> result == Err::<(), AppError>(error),
        spec_mint_rejection(snapshots@) is None ==> (result matches Err(error) ==> error is External || error
            is RentOverflow),
{
    attempt_mint(snapshots, infos, metadata).into_result()
}

/// Mints one token with the given metadata texts on the account list that
/// the instruction was given. Each account is read once; the rest is
/// [`mint_with_accounts`].
pub fn process_mint_with<'a>(
    program_id: &Address,
    accounts: &[AccountInfo<'a>],
    metadata: &TokenMetadata,
) -> (result: Result<(), AppError>)
    requires
        metadata@.fits(),
    ensures
        accounts@.len() < MINT_ACCOUNT_COUNT <==> result == Err::<(), AppError>(AppError::NotEnoughAccountKeys),
        result matches Err(error) ==> error is NotEnoughAccountKeys || error is MissingSignature || error
            is InvalidDerivedKey || error is External || error is RentOverflow,
{
    let (snapshots, handles) = read_accounts(accounts);
    mint_with_accounts(&snapshots, handles.as_slice(), metadata)
}

/// Mints one token with the standard metadata texts on the account list
/// that the instruction was given: creates the mint account, initialises the
/// mint, creates the signer's associated token account, mints one unit into
/// it, and creates the metadata and master edition records.
///
/// A list shorter than eleven accounts fails with `NotEnoughAccountKeys`,
/// and only such a list does.
pub fn process_mint<'a>(program_id: &Address, accounts: &[AccountInfo<'a>]) -> (result: Result<(), AppError>)
    ensures
        accounts@.len() < MINT_ACCOUNT_COUNT <==> result == Err::<(), AppError>(AppError::NotEnoughAccountKeys),
        result matches Err(error) ==> error is NotEnoughAccountKeys || error is MissingSignature || error
            is InvalidDerivedKey || error is External || error is RentOverflow,
{
    let metadata = TokenMetadata::standard();
    process_mint_with(program_id, accounts, &metadata)
}

} // verus!
