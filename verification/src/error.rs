use vstd::prelude::*;
use solana_program::program_error::ProgramError;

verus! {

/// The runtime's error type. It is carried through unopened: an error that a
/// called program or the runtime reports reaches the caller as it came.
#[verifier::external_type_specification]
#[verifier::external_body]
pub struct ExProgramError(ProgramError);

/// Why an instruction failed.
///
/// The first six are the program's own checks. `RentOverflow` stands for a rent
/// sysvar whose minimum balance does not fit 64 bits, and `ZeroDivisor` for a
/// remainder asked modulo zero. `External` carries, as it came, an error
/// reported by the runtime or by a called program.
#[derive(Debug, PartialEq)]
pub enum AppError {
    /// An account that had to sign the transaction did not.
    MissingSignature,
    /// An account is not owned by the expected program.
    InvalidOwner,
    /// An account's address is not the expected one.
    InvalidEqPubkey,
    /// An account's address is not the one derived from the seeds.
    InvalidDerivedKey,
    /// The account list is shorter than the positions the instruction reads.
    NotEnoughAccountKeys,
    /// The instruction bytes do not follow the wire format.
    DecodeError,
    /// The minimum balance for an account size exceeds 64 bits.
    RentOverflow,
    /// A value was to be reduced modulo zero.
    ZeroDivisor,
    /// An error surfaced from the runtime or from a called program.
    External(ProgramError),
}

} // verus!
