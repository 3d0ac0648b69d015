//! Why a cross-check did not accept.

use anchor_lang::solana_program::program_error::ProgramError;
use vstd::prelude::*;

verus! {

/// The host's error type. It is carried through untouched; nothing here
/// looks inside a value of it.
#[verifier::external_type_specification]
#[verifier::external_body]
pub struct ExProgramError(ProgramError);

/// The three ways in which the preceding instruction can fail to be the
/// signature verification the caller expects.
#[derive(Clone, Copy, Debug, PartialEq, Eq)]
pub enum ExampleErrors {
    /// The instruction was not addressed to the Ed25519 program.
    WrongProgram,
    /// The verified message is not the expected one.
    WrongMessage,
    /// The verified public key is not the expected one.
    WrongPubkey,
}

/// Every way in which a cross-check ends without accepting.
#[derive(Debug, PartialEq, Eq)]
pub enum Error {
    /// The sysvar data cannot hold the index of the current instruction,
    /// so there is nothing to look up in.
    SysvarTooShort,
    /// The host found no instruction at the requested position. Its own
    /// error is handed on as it came.
    InstructionLookupFailed(ProgramError),
    /// The payload is too short for its header or for the regions the
    /// header points at.
    MalformedPayload,
    /// The instruction was decoded and is not the expected verification.
    Mismatch(ExampleErrors),
}

} // verus!
