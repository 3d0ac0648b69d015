//! Cross-checks a claimed signer and message against the Ed25519
//! signature-verification instruction that ran just before the current one
//! in the same transaction.
//!
//! The native Ed25519 program does the cryptography. This crate reads the
//! instruction that program was given, out of the instructions sysvar, and
//! decides whether it verified the expected key over the expected message.

pub mod error;
pub mod host;
pub mod payload;
pub mod verify;

pub use error::{Error, ExampleErrors};
pub use host::{ed25519_program_id, instructions_sysvar_id, Instruction, InstructionsSysvar};
pub use verify::{
    conditional_method, verify_found, verify_instruction, verify_relative, Initialize,
    PREVIOUS_INSTRUCTION,
};
