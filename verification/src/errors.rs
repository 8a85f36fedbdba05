use vstd::prelude::*;

verus! {

/// Classification of every way an instruction can fail.
///
/// The processor only classifies a failure; formatting or logging the message
/// is the host's concern.  A failure anywhere aborts the whole instruction
/// with no observable mutation of any account.
#[derive(Clone, Copy, Debug, PartialEq, Eq, Structural)]
pub enum TestCounterError {
    /// The discriminant byte of the payload is not recognized.
    InvalidInstruction,
    /// The Counter payload is not exactly an 8-byte little-endian timestamp.
    WrongClientTimestamp,
    /// A counter increment or balance addition would exceed the representable range.
    AmountOverflow,
    /// The data account is not owned by the invoking program.
    IncorrectProgramId,
    /// The signer account is not the data account's controller, or did not sign.
    IllegalOwner,
    /// The persisted buffer is too short to decode the expected record.
    MalformedState,
    /// Fewer accounts were supplied than the instruction requires.
    MissingAccount,
}

} // verus!
