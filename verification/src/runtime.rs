use vstd::prelude::*;
use solana_program::account_info::AccountInfo;
use solana_program::instruction as outside;
use solana_program::program_error::ProgramError;
use solana_program::program_pack::Pack;
use solana_program::pubkey::Pubkey;
use solana_program::rent::Rent;
use solana_program::sysvar::Sysvar;
use crate::account::AccountSnapshot;
use crate::address::Address;
use crate::cpi::Instruction;

verus! {

/// An account as the runtime hands it to the program. The program passes it
/// on to the calls it makes and never looks inside; what it needs to know of
/// an account it reads once, into an [`AccountSnapshot`].
#[verifier::external_type_specification]
#[verifier::external_body]
pub struct ExAccountInfo<'a>(AccountInfo<'a>);

/// The cluster's rent parameters, as the runtime decodes them.
#[verifier::external_type_specification]
#[verifier::external_body]
pub struct ExRent(Rent);

/// Reads the fields `key`, `owner` and `is_signer` of an `AccountInfo`, the
/// two addresses with `Pubkey::to_bytes`. The handle is opaque to the proofs,
/// so nothing is promised of what is read: the checks state their results
/// over the snapshot.
#[verifier::external_body]
pub(crate) fn snapshot(info: &AccountInfo) -> (read: AccountSnapshot)
{
    AccountSnapshot {
        key: Address::new(info.key.to_bytes()),
        owner: Address::new(info.owner.to_bytes()),
        is_signer: info.is_signer,
    }
}

/// Calls `AccountInfo::try_lamports`: the account's balance at this moment,
/// or the runtime's error where the balance is being changed elsewhere.
#[verifier::external_body]
pub(crate) fn account_lamports(info: &AccountInfo) -> (balance: Result<u64, ProgramError>)
{
    info.try_lamports()
}

/// The rent parameters read from the rent sysvar account: the price of one
/// byte for one year, the exemption threshold as the 64 bits of its
/// floating-point value, and the runtime's own value that the minimum
/// balance is computed from.
#[derive(Debug)]
pub struct RentReading {
    lamports_per_byte_year: u64,
    exemption_threshold_bits: u64,
    rent: Rent,
}

impl RentReading {
    /// The price of one byte for one year, in lamports.
    pub closed spec fn byte_year_price(&self) -> u64 {
        self.lamports_per_byte_year
    }

    /// The exemption threshold, in years, as the 64 bits of its
    /// floating-point value.
    pub closed spec fn threshold(&self) -> u64 {
        self.exemption_threshold_bits
    }

    /// The price of one byte for one year, in lamports.
    pub fn lamports_per_byte_year(&self) -> (price: u64)
        ensures
            price == self.byte_year_price(),
    {
        self.lamports_per_byte_year
    }

    /// The exemption threshold, in years, as the 64 bits of its
    /// floating-point value.
    pub fn exemption_threshold_bits(&self) -> (bits: u64)
        ensures
            bits == self.threshold(),
    {
        self.exemption_threshold_bits
    }
}

/// Bytes that the runtime charges for every account on top of its data.
pub const ACCOUNT_STORAGE_OVERHEAD: u64 = 128;

/// Calls `Rent::from_account_info`, which accepts only the rent sysvar
/// account and decodes its data; any refusal comes back as the runtime's
/// error. The data is first borrowed with `AccountInfo::try_borrow_data`, so
/// that an account whose data is being changed elsewhere is an error too and
/// never a stop of the program. The reading keeps the decoded value together
/// with its price per byte and year and with the bits of its threshold.
#[verifier::external_body]
pub(crate) fn read_rent(info: &AccountInfo) -> (reading: Result<RentReading, ProgramError>)
{
    let _held = info.try_borrow_data()?;
    let rent = Rent::from_account_info(info)?;
    Ok(RentReading {
        lamports_per_byte_year: rent.lamports_per_byte_year,
        exemption_threshold_bits: rent.exemption_threshold.to_bits(),
        rent,
    })
}

/// The balance that the runtime's rent computation gives for an account of
/// `size` bytes, at a price per byte and year and an exemption threshold
/// given by its 64 bits.
pub uninterp spec fn spec_minimum_balance(lamports_per_byte_year: u64, exemption_threshold_bits: u64, size: usize) -> u64;

/// Calls `Rent::minimum_balance`: the balance that exempts an account of
/// `size` bytes from rent. The runtime adds its overhead to the size,
/// multiplies the sum by the price per byte and year, both in 64 bits, and
/// then scales the product by its exemption threshold; inputs whose sum or
/// product does not fit are left out. The amount depends on the price, the
/// threshold and the size alone.
#[verifier::external_body]
pub(crate) fn minimum_balance(reading: &RentReading, size: usize) -> (lamports: u64)
    requires
        ACCOUNT_STORAGE_OVERHEAD + size <= u64::MAX,
        (ACCOUNT_STORAGE_OVERHEAD + size) * reading.byte_year_price() <= u64::MAX,
    ensures
        lamports == spec_minimum_balance(reading.byte_year_price(), reading.threshold(), size),
{
    reading.rent.minimum_balance(size)
}

/// Reads `spl_token::state::Account::LEN`: the size in bytes of a token
/// account's data.
#[verifier::external_body]
pub(crate) fn token_account_len() -> (len: usize)
    ensures
        len == 165,
{
    spl_token::state::Account::LEN
}

/// Calls `solana_program::log::sol_log`: writes one line to the program log.
#[verifier::external_body]
pub(crate) fn log_line(message: &str)
{
    solana_program::log::sol_log(message)
}

/// The byte sequences of a list of seeds.
pub open spec fn seeds_view(seeds: Seq<&[u8]>) -> Seq<Seq<u8>> {
    seeds.map_values(|seed: &[u8]| seed@)
}

/// The program-derived address that the runtime finds for these seeds under
/// this program, with its bump byte; `None` where it finds none.
pub uninterp spec fn spec_program_address(seeds: Seq<Seq<u8>>, program_id: Seq<u8>) -> Option<(Seq<u8>, u8)>;

/// Calls `Pubkey::try_find_program_address`: the address derived from `seeds`
/// under `program_id`, and the bump byte that made it valid. The search is
/// deterministic. It finds nothing where there are too many seeds, a seed is
/// too long, or no bump byte gives a valid address.
#[verifier::external_body]
pub(crate) fn find_program_address(seeds: &[&[u8]], program_id: &Address) -> (found: Option<(Address, u8)>)
    ensures
        found is Some <==> spec_program_address(seeds_view(seeds@), program_id@) is Some,
        found matches Some((address, bump)) ==> spec_program_address(seeds_view(seeds@), program_id@) == Some((address@, bump)),
{
    let found = Pubkey::try_find_program_address(seeds, &Pubkey::new_from_array(program_id.bytes));
    found.map(|(key, bump)| (Address::new(key.to_bytes()), bump))
}

/// Calls `solana_program::program::invoke`: hands `call` to the runtime,
/// together with a copy of each of `handles`, in their order. Whether the
/// called program succeeds is for it and the runtime to say; nothing is
/// promised of the outcome.
#[verifier::external_body]
pub(crate) fn invoke<'a>(call: &Instruction, handles: &Vec<&AccountInfo<'a>>) -> (outcome: Result<(), ProgramError>)
{
    let key = |a: &Address| Pubkey::new_from_array(a.bytes);
    let metas = call.accounts.iter().map(|m| outside::AccountMeta { pubkey: key(&m.pubkey), is_signer: m.is_signer, is_writable: m.is_writable });
    let ix = outside::Instruction { program_id: key(&call.program_id), accounts: metas.collect(), data: call.data.clone() };
    let passed: Vec<AccountInfo<'a>> = handles.iter().map(|handle| (*handle).clone()).collect();
    solana_program::program::invoke(&ix, &passed)
}

/// Calls `solana_program::program::invoke_signed`: as [`invoke`], and signs
/// the call for the program-derived address that `seeds` stand for.
#[verifier::external_body]
pub(crate) fn invoke_signed<'a>(call: &Instruction, handles: &Vec<&AccountInfo<'a>>, seeds: &[&[u8]]) -> (outcome: Result<(), ProgramError>)
{
    let key = |a: &Address| Pubkey::new_from_array(a.bytes);
    let metas = call.accounts.iter().map(|m| outside::AccountMeta { pubkey: key(&m.pubkey), is_signer: m.is_signer, is_writable: m.is_writable });
    let ix = outside::Instruction { program_id: key(&call.program_id), accounts: metas.collect(), data: call.data.clone() };
    let passed: Vec<AccountInfo<'a>> = handles.iter().map(|handle| (*handle).clone()).collect();
    solana_program::program::invoke_signed(&ix, &passed, &[seeds])
}

/// What the program reads of the cluster clock.
#[derive(Clone, Copy, Debug, PartialEq, Eq)]
pub struct ClockReading {
    pub slot: u64,
    pub unix_timestamp: i64,
}

/// Calls `solana_program::clock::Clock::get` and keeps the slot and the
/// timestamp. What comes back depends on when the transaction runs, and the
/// runtime may refuse the request; nothing is promised of either.
#[verifier::external_body]
pub(crate) fn read_clock() -> (reading: Result<ClockReading, ProgramError>)
{
    let clock = solana_program::clock::Clock::get()?;
    Ok(ClockReading { slot: clock.slot, unix_timestamp: clock.unix_timestamp })
}

} // verus!
