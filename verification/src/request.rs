use vstd::prelude::*;
use vstd::utf8::encode_utf8;
use crate::address::Address;
use crate::cpi::{AccountMeta, Instruction, InstructionView};
use mpl_token_metadata::instruction::{create_master_edition_v3, create_metadata_accounts_v2};
use mpl_token_metadata::state;
use solana_program::program_error::ProgramError;
use solana_program::pubkey::Pubkey;
use crate::runtime::{find_program_address, seeds_view, spec_program_address};

verus! {

/// A creator entry of a token's metadata: who, whether confirmed by their
/// signature, and their share of the royalties in percent.
#[derive(Clone, Copy, Debug, PartialEq, Eq)]
pub struct Creator {
    pub address: Address,
    pub verified: bool,
    pub share: u8,
}

/// The bytes of an optional address.
pub open spec fn option_view(address: Option<Address>) -> Option<Seq<u8>> {
    match address {
        Some(a) => Some(a@),
        None => None,
    }
}

/// The bytes of each address of a list.
pub open spec fn addresses_view(addresses: Seq<Address>) -> Seq<Seq<u8>> {
    addresses.map_values(|a: Address| a@)
}

/// Each creator of a list as address bytes, confirmation and share.
pub open spec fn creators_view(creators: Option<Vec<Creator>>) -> Option<Seq<(Seq<u8>, bool, u8)>> {
    match creators {
        Some(list) => Some(list@.map_values(|c: Creator| (c.address@, c.verified, c.share))),
        None => None,
    }
}

/// Whether a length, in bytes or in items, fits the 32-bit prefix that the
/// metadata program's argument encoding writes before a text or a list.
pub open spec fn fits_length_prefix(len: nat) -> bool {
    len <= u32::MAX
}

/// Whether the texts and the creator list of a metadata record can be
/// encoded: each text's UTF-8 form and the list fit their length prefix.
pub open spec fn metadata_fits(
    name: Seq<char>,
    symbol: Seq<char>,
    uri: Seq<char>,
    creators: Option<Seq<(Seq<u8>, bool, u8)>>,
) -> bool {
    &&& fits_length_prefix(encode_utf8(name).len())
    &&& fits_length_prefix(encode_utf8(symbol).len())
    &&& fits_length_prefix(encode_utf8(uri).len())
    &&& (creators matches Some(list) ==> fits_length_prefix(list.len()))
}

// ---------------------------------------------------------------------------
// System program
// ---------------------------------------------------------------------------

/// The instruction that the system program's `create_account` builder returns
/// for these arguments.
pub uninterp spec fn spec_create_account(
    from: Seq<u8>,
    to: Seq<u8>,
    lamports: u64,
    space: u64,
    owner: Seq<u8>,
) -> InstructionView;

/// Calls `solana_program::system_instruction::create_account`: the call that
/// creates account `to`, funded by `from` with `lamports`, holding `space`
/// bytes and owned by `owner`. The result is the builder's, field by field.
#[verifier::external_body]
pub(crate) fn build_create_account(
    from: &Address,
    to: &Address,
    lamports: u64,
    space: u64,
    owner: &Address,
) -> (call: Instruction)
    ensures
        call@ == spec_create_account(from@, to@, lamports, space, owner@),
{
    let ix = solana_program::system_instruction::create_account(
        &Pubkey::new_from_array(from.bytes),
        &Pubkey::new_from_array(to.bytes),
        lamports,
        space,
        &Pubkey::new_from_array(owner.bytes),
    );
    let metas = ix.accounts.iter().map(|m| AccountMeta::new(m.pubkey.to_bytes(), m.is_signer, m.is_writable));
    Instruction::new(ix.program_id.to_bytes(), metas.collect(), ix.data)
}

/// The instruction that the system program's `transfer` builder returns for
/// these arguments.
pub uninterp spec fn spec_transfer(from: Seq<u8>, to: Seq<u8>, lamports: u64) -> InstructionView;

/// Calls `solana_program::system_instruction::transfer`: the call that moves
/// `lamports` from `from` to `to`. The result is the builder's, field by field.
#[verifier::external_body]
pub(crate) fn build_transfer(from: &Address, to: &Address, lamports: u64) -> (call: Instruction)
    ensures
        call@ == spec_transfer(from@, to@, lamports),
{
    let ix = solana_program::system_instruction::transfer(
        &Pubkey::new_from_array(from.bytes),
        &Pubkey::new_from_array(to.bytes),
        lamports,
    );
    let metas = ix.accounts.iter().map(|m| AccountMeta::new(m.pubkey.to_bytes(), m.is_signer, m.is_writable));
    Instruction::new(ix.program_id.to_bytes(), metas.collect(), ix.data)
}

/// The instruction that the system program's `allocate` builder returns for
/// these arguments.
pub uninterp spec fn spec_allocate(account: Seq<u8>, space: u64) -> InstructionView;

/// Calls `solana_program::system_instruction::allocate`: the call that gives
/// `account` `space` bytes of data. The result is the builder's, field by
/// field.
#[verifier::external_body]
pub(crate) fn build_allocate(account: &Address, space: u64) -> (call: Instruction)
    ensures
        call@ == spec_allocate(account@, space),
{
    let ix = solana_program::system_instruction::allocate(&Pubkey::new_from_array(account.bytes), space);
    let metas = ix.accounts.iter().map(|m| AccountMeta::new(m.pubkey.to_bytes(), m.is_signer, m.is_writable));
    Instruction::new(ix.program_id.to_bytes(), metas.collect(), ix.data)
}

/// The instruction that the system program's `assign` builder returns for
/// these arguments.
pub uninterp spec fn spec_assign(account: Seq<u8>, owner: Seq<u8>) -> InstructionView;

/// Calls `solana_program::system_instruction::assign`: the call that hands
/// `account` over to the program `owner`. The result is the builder's, field
/// by field.
#[verifier::external_body]
pub(crate) fn build_assign(account: &Address, owner: &Address) -> (call: Instruction)
    ensures
        call@ == spec_assign(account@, owner@),
{
    let ix = solana_program::system_instruction::assign(
        &Pubkey::new_from_array(account.bytes),
        &Pubkey::new_from_array(owner.bytes),
    );
    let metas = ix.accounts.iter().map(|m| AccountMeta::new(m.pubkey.to_bytes(), m.is_signer, m.is_writable));
    Instruction::new(ix.program_id.to_bytes(), metas.collect(), ix.data)
}

// ---------------------------------------------------------------------------
// Token program
// ---------------------------------------------------------------------------

/// The instruction that the token program's `initialize_mint` builder returns
/// for these arguments, or `None` where the builder refuses them.
pub uninterp spec fn spec_initialize_mint(
    token_program: Seq<u8>,
    mint: Seq<u8>,
    mint_authority: Seq<u8>,
    freeze_authority: Option<Seq<u8>>,
    decimals: u8,
) -> Option<InstructionView>;

/// Calls `spl_token::instruction::initialize_mint`: the call that makes
/// `mint` a token mint. The builder refuses a `token_program` that is not the
/// token program; its error comes back as it is. Otherwise the result is the
/// builder's, field by field.
#[verifier::external_body]
pub(crate) fn build_initialize_mint(
    token_program: &Address,
    mint: &Address,
    mint_authority: &Address,
    freeze_authority: &Option<Address>,
    decimals: u8,
) -> (built: Result<Instruction, ProgramError>)
    ensures
        built is Ok <==> spec_initialize_mint(token_program@, mint@, mint_authority@, option_view(*freeze_authority), decimals) is Some,
        built matches Ok(call) ==> spec_initialize_mint(token_program@, mint@, mint_authority@, option_view(*freeze_authority), decimals) == Some(call@),
{
    let freeze = freeze_authority.map(|a| Pubkey::new_from_array(a.bytes));
    let ix = spl_token::instruction::initialize_mint(
        &Pubkey::new_from_array(token_program.bytes),
        &Pubkey::new_from_array(mint.bytes),
        &Pubkey::new_from_array(mint_authority.bytes),
        freeze.as_ref(),
        decimals,
    )?;
    let metas = ix.accounts.iter().map(|m| AccountMeta::new(m.pubkey.to_bytes(), m.is_signer, m.is_writable));
    Ok(Instruction::new(ix.program_id.to_bytes(), metas.collect(), ix.data))
}

/// The instruction that the token program's `initialize_account` builder
/// returns for these arguments, or `None` where the builder refuses them.
pub uninterp spec fn spec_initialize_account(
    token_program: Seq<u8>,
    account: Seq<u8>,
    mint: Seq<u8>,
    owner: Seq<u8>,
) -> Option<InstructionView>;

/// Calls `spl_token::instruction::initialize_account`: the call that makes
/// `account` a token account of `mint` held by `owner`. The builder refuses a
/// `token_program` that is not the token program; its error comes back as it
/// is. Otherwise the result is the builder's, field by field.
#[verifier::external_body]
pub(crate) fn build_initialize_account(
    token_program: &Address,
    account: &Address,
    mint: &Address,
    owner: &Address,
) -> (built: Result<Instruction, ProgramError>)
    ensures
        built is Ok <==> spec_initialize_account(token_program@, account@, mint@, owner@) is Some,
        built matches Ok(call) ==> spec_initialize_account(token_program@, account@, mint@, owner@) == Some(call@),
{
    let ix = spl_token::instruction::initialize_account(
        &Pubkey::new_from_array(token_program.bytes),
        &Pubkey::new_from_array(account.bytes),
        &Pubkey::new_from_array(mint.bytes),
        &Pubkey::new_from_array(owner.bytes),
    )?;
    let metas = ix.accounts.iter().map(|m| AccountMeta::new(m.pubkey.to_bytes(), m.is_signer, m.is_writable));
    Ok(Instruction::new(ix.program_id.to_bytes(), metas.collect(), ix.data))
}

/// The instruction that the token program's `mint_to` builder returns for
/// these arguments, or `None` where the builder refuses them.
pub uninterp spec fn spec_mint_to(
    token_program: Seq<u8>,
    mint: Seq<u8>,
    account: Seq<u8>,
    owner: Seq<u8>,
    signers: Seq<Seq<u8>>,
    amount: u64,
) -> Option<InstructionView>;

/// Calls `spl_token::instruction::mint_to`: the call that mints `amount`
/// units of `mint` into `account`, authorised by `owner` and co-signed by
/// `signers`. The builder refuses a `token_program` that is not the token
/// program; its error comes back as it is. Otherwise the result is the
/// builder's, field by field.
#[verifier::external_body]
pub(crate) fn build_mint_to(
    token_program: &Address,
    mint: &Address,
    account: &Address,
    owner: &Address,
    signers: &Vec<Address>,
    amount: u64,
) -> (built: Result<Instruction, ProgramError>)
    ensures
        built is Ok <==> spec_mint_to(token_program@, mint@, account@, owner@, addresses_view(signers@), amount) is Some,
        built matches Ok(call) ==> spec_mint_to(token_program@, mint@, account@, owner@, addresses_view(signers@), amount) == Some(call@),
{
    let keys: Vec<Pubkey> = signers.iter().map(|a| Pubkey::new_from_array(a.bytes)).collect();
    let ix = spl_token::instruction::mint_to(
        &Pubkey::new_from_array(token_program.bytes),
        &Pubkey::new_from_array(mint.bytes),
        &Pubkey::new_from_array(account.bytes),
        &Pubkey::new_from_array(owner.bytes),
        &keys.iter().collect::<Vec<&Pubkey>>(),
        amount,
    )?;
    let metas = ix.accounts.iter().map(|m| AccountMeta::new(m.pubkey.to_bytes(), m.is_signer, m.is_writable));
    Ok(Instruction::new(ix.program_id.to_bytes(), metas.collect(), ix.data))
}

/// The instruction that the token program's `transfer` builder returns for
/// these arguments, or `None` where the builder refuses them.
pub uninterp spec fn spec_token_transfer(
    token_program: Seq<u8>,
    source: Seq<u8>,
    destination: Seq<u8>,
    authority: Seq<u8>,
    signers: Seq<Seq<u8>>,
    amount: u64,
) -> Option<InstructionView>;

/// Calls `spl_token::instruction::transfer`: the call that moves `amount`
/// units from token account `source` to `destination`, authorised by
/// `authority` and co-signed by `signers`. The builder refuses a
/// `token_program` that is not the token program; its error comes back as it
/// is. Otherwise the result is the builder's, field by field.
#[verifier::external_body]
pub(crate) fn build_token_transfer(
    token_program: &Address,
    source: &Address,
    destination: &Address,
    authority: &Address,
    signers: &Vec<Address>,
    amount: u64,
) -> (built: Result<Instruction, ProgramError>)
    ensures
        built is Ok <==> spec_token_transfer(token_program@, source@, destination@, authority@, addresses_view(signers@), amount) is Some,
        built matches Ok(call) ==> spec_token_transfer(token_program@, source@, destination@, authority@, addresses_view(signers@), amount) == Some(call@),
{
    let keys: Vec<Pubkey> = signers.iter().map(|a| Pubkey::new_from_array(a.bytes)).collect();
    let ix = spl_token::instruction::transfer(
        &Pubkey::new_from_array(token_program.bytes),
        &Pubkey::new_from_array(source.bytes),
        &Pubkey::new_from_array(destination.bytes),
        &Pubkey::new_from_array(authority.bytes),
        &keys.iter().collect::<Vec<&Pubkey>>(),
        amount,
    )?;
    let metas = ix.accounts.iter().map(|m| AccountMeta::new(m.pubkey.to_bytes(), m.is_signer, m.is_writable));
    Ok(Instruction::new(ix.program_id.to_bytes(), metas.collect(), ix.data))
}

// ---------------------------------------------------------------------------
// Associated-token-account program
// ---------------------------------------------------------------------------

/// Address of the token program, `TokenkegQfeZyiNwAJbNbGKPFXCWuBvf9Ss623VQ5DA`.
pub const TOKEN_PROGRAM_ID: [u8; 32] = [
    6, 221, 246, 225, 215, 101, 161, 147, 217, 203, 225, 70, 206, 235, 121, 172,
    28, 180, 133, 237, 95, 91, 55, 145, 58, 140, 245, 133, 126, 255, 0, 169,
];

/// Address of the associated-token-account program,
/// `ATokenGPvbdGVxr1b2hvZbsiqW5xWH25efTNsLJA8knL`.
pub const ASSOCIATED_TOKEN_PROGRAM_ID: [u8; 32] = [
    140, 151, 37, 143, 78, 36, 137, 241, 187, 61, 16, 41, 20, 142, 13, 131,
    11, 90, 19, 153, 218, 255, 16, 132, 4, 142, 123, 216, 219, 233, 248, 89,
];

/// The seeds of the token account associated with `wallet` for `mint`: the
/// wallet, the token program and the mint.
pub open spec fn associated_token_seeds(wallet: Seq<u8>, mint: Seq<u8>) -> Seq<Seq<u8>> {
    seq![wallet, TOKEN_PROGRAM_ID@, mint]
}

/// Whether `wallet` has an associated token account address for `mint`: the
/// search for the address derived from their seeds under the
/// associated-token-account program finds one.
pub open spec fn associated_token_derivable(wallet: Seq<u8>, mint: Seq<u8>) -> bool {
    spec_program_address(associated_token_seeds(wallet, mint), ASSOCIATED_TOKEN_PROGRAM_ID@) is Some
}

/// The address of the token account associated with `wallet` for `mint`, and
/// its bump byte; `None` where the search for it finds nothing.
pub fn associated_token_address(wallet: &Address, mint: &Address) -> (found: Option<(Address, u8)>)
    ensures
        found is Some <==> associated_token_derivable(wallet@, mint@),
        found matches Some((address, bump)) ==> spec_program_address(
            associated_token_seeds(wallet@, mint@),
            ASSOCIATED_TOKEN_PROGRAM_ID@,
        ) == Some((address@, bump)),
{
    let token_program = TOKEN_PROGRAM_ID;
    let seeds: [&[u8]; 3] = [wallet.bytes.as_slice(), token_program.as_slice(), mint.bytes.as_slice()];
    let program = Address::new(ASSOCIATED_TOKEN_PROGRAM_ID);
    assert(seeds_view(seeds@) =~= associated_token_seeds(wallet@, mint@));
    find_program_address(seeds.as_slice(), &program)
}

/// The instruction that the associated-token-account program's
/// `create_associated_token_account` builder returns for these arguments.
pub uninterp spec fn spec_create_associated_token_account(
    funder: Seq<u8>,
    wallet: Seq<u8>,
    mint: Seq<u8>,
) -> InstructionView;

/// Calls
/// `spl_associated_token_account::instruction::create_associated_token_account`:
/// the call that creates the token account of `wallet` for `mint`, paid by
/// `funder`. The builder searches for that account's address, derived from
/// the seeds of [`associated_token_seeds`] under the program's own address,
/// and stops the program where the search finds nothing; those inputs are
/// left out. The result is the builder's, field by field.
#[verifier::external_body]
pub(crate) fn build_create_associated_token_account(
    funder: &Address,
    wallet: &Address,
    mint: &Address,
) -> (call: Instruction)
    requires
        associated_token_derivable(wallet@, mint@),
    ensures
        call@ == spec_create_associated_token_account(funder@, wallet@, mint@),
{
    let ix = spl_associated_token_account::instruction::create_associated_token_account(
        &Pubkey::new_from_array(funder.bytes),
        &Pubkey::new_from_array(wallet.bytes),
        &Pubkey::new_from_array(mint.bytes),
    );
    let metas = ix.accounts.iter().map(|m| AccountMeta::new(m.pubkey.to_bytes(), m.is_signer, m.is_writable));
    Instruction::new(ix.program_id.to_bytes(), metas.collect(), ix.data)
}

// ---------------------------------------------------------------------------
// Metadata program
// ---------------------------------------------------------------------------

/// The instruction that the metadata program's `create_metadata_accounts_v2`
/// builder returns for these arguments, without collection and without uses.
pub uninterp spec fn spec_create_metadata_accounts(
    program: Seq<u8>,
    metadata: Seq<u8>,
    mint: Seq<u8>,
    mint_authority: Seq<u8>,
    payer: Seq<u8>,
    update_authority: Seq<u8>,
    name: Seq<char>,
    symbol: Seq<char>,
    uri: Seq<char>,
    creators: Option<Seq<(Seq<u8>, bool, u8)>>,
    seller_fee_basis_points: u16,
    update_authority_is_signer: bool,
    is_mutable: bool,
) -> InstructionView;

/// Calls `mpl_token_metadata::instruction::create_metadata_accounts_v2`, with
/// no collection and no uses: the call that creates the metadata record of
/// `mint`. The builder encodes its arguments with 32-bit length prefixes and
/// stops the program where a length does not fit; those inputs are left out.
/// The result is the builder's, field by field.
#[verifier::external_body]
pub(crate) fn build_create_metadata_accounts(
    program: &Address,
    metadata: &Address,
    mint: &Address,
    mint_authority: &Address,
    payer: &Address,
    update_authority: &Address,
    name: String,
    symbol: String,
    uri: String,
    creators: &Option<Vec<Creator>>,
    seller_fee_basis_points: u16,
    update_authority_is_signer: bool,
    is_mutable: bool,
) -> (call: Instruction)
    requires
        metadata_fits(name@, symbol@, uri@, creators_view(*creators)),
    ensures
        call@ == spec_create_metadata_accounts(program@, metadata@, mint@, mint_authority@, payer@, update_authority@, name@, symbol@, uri@, creators_view(*creators), seller_fee_basis_points, update_authority_is_signer, is_mutable),
{
    let key = |a: &Address| Pubkey::new_from_array(a.bytes);
    let list = creators.as_ref().map(|l| l.iter().map(|c| state::Creator { address: key(&c.address), verified: c.verified, share: c.share }).collect());
    let ix = create_metadata_accounts_v2(
        key(program), key(metadata), key(mint), key(mint_authority), key(payer), key(update_authority),
        name, symbol, uri, list,
        seller_fee_basis_points, update_authority_is_signer, is_mutable, None, None,
    );
    let metas = ix.accounts.iter().map(|m| AccountMeta::new(m.pubkey.to_bytes(), m.is_signer, m.is_writable));
    Instruction::new(ix.program_id.to_bytes(), metas.collect(), ix.data)
}

/// The instruction that the metadata program's `create_master_edition_v3`
/// builder returns for these arguments.
pub uninterp spec fn spec_create_master_edition(
    program: Seq<u8>,
    edition: Seq<u8>,
    mint: Seq<u8>,
    update_authority: Seq<u8>,
    mint_authority: Seq<u8>,
    metadata: Seq<u8>,
    payer: Seq<u8>,
    max_supply: Option<u64>,
) -> InstructionView;

/// Calls `mpl_token_metadata::instruction::create_master_edition_v3`: the
/// call that creates the master edition record of `mint`, with at most
/// `max_supply` prints. The result is the builder's, field by field.
#[verifier::external_body]
pub(crate) fn build_create_master_edition(
    program: &Address,
    edition: &Address,
    mint: &Address,
    update_authority: &Address,
    mint_authority: &Address,
    metadata: &Address,
    payer: &Address,
    max_supply: Option<u64>,
) -> (call: Instruction)
    ensures
        call@ == spec_create_master_edition(program@, edition@, mint@, update_authority@, mint_authority@, metadata@, payer@, max_supply),
{
    let key = |a: &Address| Pubkey::new_from_array(a.bytes);
    let ix = create_master_edition_v3(
        key(program), key(edition), key(mint), key(update_authority), key(mint_authority), key(metadata), key(payer),
        max_supply,
    );
    let metas = ix.accounts.iter().map(|m| AccountMeta::new(m.pubkey.to_bytes(), m.is_signer, m.is_writable));
    Instruction::new(ix.program_id.to_bytes(), metas.collect(), ix.data)
}

// ---------------------------------------------------------------------------
// Requests
// ---------------------------------------------------------------------------

/// A call that the program wants made, by kind and arguments. A request is
/// plain data: it is turned into an [`Instruction`] only when its turn comes.
#[derive(Clone, Debug, PartialEq, Eq)]
pub enum CallRequest {
    /// System program: create account `to`, funded by `from`.
    CreateAccount { from: Address, to: Address, lamports: u64, space: u64, owner: Address },
    /// System program: move `lamports` from `from` to `to`.
    Transfer { from: Address, to: Address, lamports: u64 },
    /// System program: give `account` `space` bytes of data.
    Allocate { account: Address, space: u64 },
    /// System program: hand `account` over to the program `owner`.
    Assign { account: Address, owner: Address },
    /// Token program: make `mint` a token mint.
    InitializeMint {
        token_program: Address,
        mint: Address,
        mint_authority: Address,
        freeze_authority: Option<Address>,
        decimals: u8,
    },
    /// Token program: make `account` a token account of `mint` held by `owner`.
    InitializeAccount { token_program: Address, account: Address, mint: Address, owner: Address },
    /// Token program: mint `amount` units of `mint` into `account`.
    MintTo {
        token_program: Address,
        mint: Address,
        account: Address,
        owner: Address,
        signers: Vec<Address>,
        amount: u64,
    },
    /// Token program: move `amount` units from `source` to `destination`.
    TokenTransfer {
        token_program: Address,
        source: Address,
        destination: Address,
        authority: Address,
        signers: Vec<Address>,
        amount: u64,
    },
    /// Associated-token-account program: create the token account of `wallet`
    /// for `mint`, paid by `funder`.
    CreateAssociatedTokenAccount { funder: Address, wallet: Address, mint: Address },
    /// Metadata program: create the metadata record of `mint`.
    CreateMetadataAccounts {
        program: Address,
        metadata: Address,
        mint: Address,
        mint_authority: Address,
        payer: Address,
        update_authority: Address,
        name: String,
        symbol: String,
        uri: String,
        creators: Option<Vec<Creator>>,
        seller_fee_basis_points: u16,
        update_authority_is_signer: bool,
        is_mutable: bool,
    },
    /// Metadata program: create the master edition record of `mint`.
    CreateMasterEdition {
        program: Address,
        edition: Address,
        mint: Address,
        update_authority: Address,
        mint_authority: Address,
        metadata: Address,
        payer: Address,
        max_supply: Option<u64>,
    },
}

/// The mathematical value of a [`CallRequest`]: addresses as byte sequences,
/// texts as character sequences, lists as sequences.
pub enum CallRequestView {
    CreateAccount { from: Seq<u8>, to: Seq<u8>, lamports: u64, space: u64, owner: Seq<u8> },
    Transfer { from: Seq<u8>, to: Seq<u8>, lamports: u64 },
    Allocate { account: Seq<u8>, space: u64 },
    Assign { account: Seq<u8>, owner: Seq<u8> },
    InitializeMint {
        token_program: Seq<u8>,
        mint: Seq<u8>,
        mint_authority: Seq<u8>,
        freeze_authority: Option<Seq<u8>>,
        decimals: u8,
    },
    InitializeAccount { token_program: Seq<u8>, account: Seq<u8>, mint: Seq<u8>, owner: Seq<u8> },
    MintTo {
        token_program: Seq<u8>,
        mint: Seq<u8>,
        account: Seq<u8>,
        owner: Seq<u8>,
        signers: Seq<Seq<u8>>,
        amount: u64,
    },
    TokenTransfer {
        token_program: Seq<u8>,
        source: Seq<u8>,
        destination: Seq<u8>,
        authority: Seq<u8>,
        signers: Seq<Seq<u8>>,
        amount: u64,
    },
    CreateAssociatedTokenAccount { funder: Seq<u8>, wallet: Seq<u8>, mint: Seq<u8> },
    CreateMetadataAccounts {
        program: Seq<u8>,
        metadata: Seq<u8>,
        mint: Seq<u8>,
        mint_authority: Seq<u8>,
        payer: Seq<u8>,
        update_authority: Seq<u8>,
        name: Seq<char>,
        symbol: Seq<char>,
        uri: Seq<char>,
        creators: Option<Seq<(Seq<u8>, bool, u8)>>,
        seller_fee_basis_points: u16,
        update_authority_is_signer: bool,
        is_mutable: bool,
    },
    CreateMasterEdition {
        program: Seq<u8>,
        edition: Seq<u8>,
        mint: Seq<u8>,
        update_authority: Seq<u8>,
        mint_authority: Seq<u8>,
        metadata: Seq<u8>,
        payer: Seq<u8>,
        max_supply: Option<u64>,
    },
}

impl View for CallRequest {
    type V = CallRequestView;

    open spec fn view(&self) -> CallRequestView {
        match *self {
            CallRequest::CreateAccount { from, to, lamports, space, owner } => CallRequestView::CreateAccount {
                from: from@,
                to: to@,
                lamports,
                space,
                owner: owner@,
            },
            CallRequest::Transfer { from, to, lamports } => CallRequestView::Transfer {
                from: from@,
                to: to@,
                lamports,
            },
            CallRequest::Allocate { account, space } => CallRequestView::Allocate { account: account@, space },
            CallRequest::Assign { account, owner } => CallRequestView::Assign {
                account: account@,
                owner: owner@,
            },
            CallRequest::InitializeMint { token_program, mint, mint_authority, freeze_authority, decimals } => CallRequestView::InitializeMint {
                token_program: token_program@,
                mint: mint@,
                mint_authority: mint_authority@,
                freeze_authority: option_view(freeze_authority),
                decimals,
            },
            CallRequest::InitializeAccount { token_program, account, mint, owner } => CallRequestView::InitializeAccount {
                token_program: token_program@,
                account: account@,
                mint: mint@,
                owner: owner@,
            },
            CallRequest::MintTo { token_program, mint, account, owner, signers, amount } => CallRequestView::MintTo {
                token_program: token_program@,
                mint: mint@,
                account: account@,
                owner: owner@,
                signers: addresses_view(signers@),
                amount,
            },
            CallRequest::TokenTransfer { token_program, source, destination, authority, signers, amount } => CallRequestView::TokenTransfer {
                token_program: token_program@,
                source: source@,
                destination: destination@,
                authority: authority@,
                signers: addresses_view(signers@),
                amount,
            },
            CallRequest::CreateAssociatedTokenAccount { funder, wallet, mint } => CallRequestView::CreateAssociatedTokenAccount {
                funder: funder@,
                wallet: wallet@,
                mint: mint@,
            },
            CallRequest::CreateMetadataAccounts {
                program,
                metadata,
                mint,
                mint_authority,
                payer,
                update_authority,
                name,
                symbol,
                uri,
                creators,
                seller_fee_basis_points,
                update_authority_is_signer,
                is_mutable,
            } => CallRequestView::CreateMetadataAccounts {
                program: program@,
                metadata: metadata@,
                mint: mint@,
                mint_authority: mint_authority@,
                payer: payer@,
                update_authority: update_authority@,
                name: name@,
                symbol: symbol@,
                uri: uri@,
                creators: creators_view(creators),
                seller_fee_basis_points,
                update_authority_is_signer,
                is_mutable,
            },
            CallRequest::CreateMasterEdition {
                program,
                edition,
                mint,
                update_authority,
                mint_authority,
                metadata,
                payer,
                max_supply,
            } => CallRequestView::CreateMasterEdition {
                program: program@,
                edition: edition@,
                mint: mint@,
                update_authority: update_authority@,
                mint_authority: mint_authority@,
                metadata: metadata@,
                payer: payer@,
                max_supply,
            },
        }
    }
}

impl CallRequestView {
    /// Whether the called program's builder can take the request at all. A
    /// metadata record cannot be built where a text or the creator list is
    /// too long for its length prefix, and an associated token account
    /// cannot where the wallet has no address for the mint.
    pub open spec fn encodable(self) -> bool {
        match self {
            CallRequestView::CreateMetadataAccounts { name, symbol, uri, creators, .. } => metadata_fits(
                name,
                symbol,
                uri,
                creators,
            ),
            CallRequestView::CreateAssociatedTokenAccount { wallet, mint, .. } => associated_token_derivable(
                wallet,
                mint,
            ),
            _ => true,
        }
    }

    /// The instruction that stands for the request, or `None` where the
    /// called program's builder refuses the arguments.
    pub open spec fn instruction(self) -> Option<InstructionView> {
        match self {
            CallRequestView::CreateAccount { from, to, lamports, space, owner } => Some(
                spec_create_account(from, to, lamports, space, owner),
            ),
            CallRequestView::Transfer { from, to, lamports } => Some(spec_transfer(from, to, lamports)),
            CallRequestView::Allocate { account, space } => Some(spec_allocate(account, space)),
            CallRequestView::Assign { account, owner } => Some(spec_assign(account, owner)),
            CallRequestView::InitializeMint { token_program, mint, mint_authority, freeze_authority, decimals } => spec_initialize_mint(
                token_program,
                mint,
                mint_authority,
                freeze_authority,
                decimals,
            ),
            CallRequestView::InitializeAccount { token_program, account, mint, owner } => spec_initialize_account(
                token_program,
                account,
                mint,
                owner,
            ),
            CallRequestView::MintTo { token_program, mint, account, owner, signers, amount } => spec_mint_to(
                token_program,
                mint,
                account,
                owner,
                signers,
                amount,
            ),
            CallRequestView::TokenTransfer { token_program, source, destination, authority, signers, amount } => spec_token_transfer(
                token_program,
                source,
                destination,
                authority,
                signers,
                amount,
            ),
            CallRequestView::CreateAssociatedTokenAccount { funder, wallet, mint } => Some(
                spec_create_associated_token_account(funder, wallet, mint),
            ),
            CallRequestView::CreateMetadataAccounts {
                program,
                metadata,
                mint,
                mint_authority,
                payer,
                update_authority,
                name,
                symbol,
                uri,
                creators,
                seller_fee_basis_points,
                update_authority_is_signer,
                is_mutable,
            } => Some(
                spec_create_metadata_accounts(
                    program,
                    metadata,
                    mint,
                    mint_authority,
                    payer,
                    update_authority,
                    name,
                    symbol,
                    uri,
                    creators,
                    seller_fee_basis_points,
                    update_authority_is_signer,
                    is_mutable,
                ),
            ),
            CallRequestView::CreateMasterEdition {
                program,
                edition,
                mint,
                update_authority,
                mint_authority,
                metadata,
                payer,
                max_supply,
            } => Some(
                spec_create_master_edition(
                    program,
                    edition,
                    mint,
                    update_authority,
                    mint_authority,
                    metadata,
                    payer,
                    max_supply,
                ),
            ),
        }
    }
}

/// Turns a request into the instruction that stands for it, with the called
/// program's own builder. Where the builder refuses the arguments its error
/// comes back as it is.
pub fn build(request: &CallRequest) -> (built: Result<Instruction, ProgramError>)
    requires
        request@.encodable(),
    ensures
        built is Ok <==> request@.instruction() is Some,
        built matches Ok(call) ==> request@.instruction() == Some(call@),
{
    match request {
        CallRequest::CreateAccount { from, to, lamports, space, owner } => Ok(
            build_create_account(from, to, *lamports, *space, owner),
        ),
        CallRequest::Transfer { from, to, lamports } => Ok(build_transfer(from, to, *lamports)),
        CallRequest::Allocate { account, space } => Ok(build_allocate(account, *space)),
        CallRequest::Assign { account, owner } => Ok(build_assign(account, owner)),
        CallRequest::InitializeMint { token_program, mint, mint_authority, freeze_authority, decimals } => build_initialize_mint(
            token_program,
            mint,
            mint_authority,
            freeze_authority,
            *decimals,
        ),
        CallRequest::InitializeAccount { token_program, account, mint, owner } => build_initialize_account(
            token_program,
            account,
            mint,
            owner,
        ),
        CallRequest::MintTo { token_program, mint, account, owner, signers, amount } => build_mint_to(
            token_program,
            mint,
            account,
            owner,
            signers,
            *amount,
        ),
        CallRequest::TokenTransfer { token_program, source, destination, authority, signers, amount } => build_token_transfer(
            token_program,
            source,
            destination,
            authority,
            signers,
            *amount,
        ),
        CallRequest::CreateAssociatedTokenAccount { funder, wallet, mint } => Ok(
            build_create_associated_token_account(funder, wallet, mint),
        ),
        CallRequest::CreateMetadataAccounts {
            program,
            metadata,
            mint,
            mint_authority,
            payer,
            update_authority,
            name,
            symbol,
            uri,
            creators,
            seller_fee_basis_points,
            update_authority_is_signer,
            is_mutable,
        } => Ok(
            build_create_metadata_accounts(
                program,
                metadata,
                mint,
                mint_authority,
                payer,
                update_authority,
                name.clone(),
                symbol.clone(),
                uri.clone(),
                creators,
                *seller_fee_basis_points,
                *update_authority_is_signer,
                *is_mutable,
            ),
        ),
        CallRequest::CreateMasterEdition {
            program,
            edition,
            mint,
            update_authority,
            mint_authority,
            metadata,
            payer,
            max_supply,
        } => Ok(
            build_create_master_edition(
                program,
                edition,
                mint,
                update_authority,
                mint_authority,
                metadata,
                payer,
                *max_supply,
            ),
        ),
    }
}

} // verus!
