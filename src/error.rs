use vstd::prelude::*;

verus! {

/// Why an instruction was refused. Every failure aborts the whole call.
#[derive(Clone, Copy, Debug, PartialEq, Eq, Structural)]
pub enum ProcessError {
    /// Fewer account handles were supplied than the operation needs.
    NotEnoughAccountKeys,
    /// A handle that must have signed the transaction did not.
    MissingSignature,
    /// A handle that the operation mutates was passed read-only.
    NotWritable,
    /// A handle's address differs from the independently derived one.
    AddressMismatch,
    /// No program-derived address exists for the given disambiguator.
    InvalidDerivation,
    /// One account was passed in two slots that must name different accounts.
    AliasedAccounts,
    /// An account is not owned by the program that must own it.
    UnexpectedOwner,
    /// A decoded account names another mint or owner than the caller claims.
    InconsistentState,
    /// An account's bytes do not hold an initialised record of the expected kind.
    MalformedAccountData,
    /// Scaling a whole-unit amount to base units exceeds the 64-bit range.
    ArithmeticOverflow,
    /// The instruction payload starts with an unknown opcode.
    UnrecognizedOpcode,
    /// The instruction payload is empty, short, or has trailing bytes.
    MalformedPayload,
    /// An outbound call was addressed to a program other than the token program.
    IncorrectProgramId,
}

} // verus!
