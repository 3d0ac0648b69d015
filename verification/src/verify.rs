//! The cross-check: is the instruction before the current one a
//! verification, by the Ed25519 program, of the expected key over the
//! expected message?

use crate::error::{Error, ExampleErrors};
use crate::host::{
    ed25519_program_id_bytes, instruction_relative, instructions_sysvar_id,
    instructions_sysvar_id_bytes, is_ed25519_program, relative_instruction, Instruction,
    InstructionsSysvar,
};
use crate::payload::{
    decode_offsets, embedded_key, embedded_message, region_equals, well_formed, PUBKEY_LEN,
};
use anchor_lang::solana_program::program_error::ProgramError;
use vstd::prelude::*;

verus! {

/// Offset, from the current instruction, of the one directly before it.
pub const PREVIOUS_INSTRUCTION: i64 = -1;

/// An instruction with this address and this data went to the Ed25519
/// program, and the data is well formed.
pub open spec fn is_verification(program_id: Seq<u8>, payload: Seq<u8>) -> bool {
    program_id == ed25519_program_id_bytes() && well_formed(payload)
}

/// What the cross-check makes of one instruction. The tests come in a fixed
/// order, and the first that fails names the error: the program, the shape
/// of the payload, the key, the message.
pub open spec fn instruction_outcome(
    program_id: Seq<u8>,
    payload: Seq<u8>,
    expected_key: Seq<u8>,
    expected_message: Seq<u8>,
) -> Result<(), Error> {
    if program_id != ed25519_program_id_bytes() {
        Err(Error::Mismatch(ExampleErrors::WrongProgram))
    } else if !well_formed(payload) {
        Err(Error::MalformedPayload)
    } else if embedded_key(payload) != expected_key {
        Err(Error::Mismatch(ExampleErrors::WrongPubkey))
    } else if embedded_message(payload) != expected_message {
        Err(Error::Mismatch(ExampleErrors::WrongMessage))
    } else {
        Ok(())
    }
}

/// `outcome` is what the cross-check of the instruction at `relative_offset`
/// from the current one comes to, for a sysvar account with the given
/// address and data.
pub open spec fn is_relative_outcome(
    outcome: Result<(), Error>,
    relative_offset: i64,
    sysvar_key: Seq<u8>,
    sysvar_data: Seq<u8>,
    expected_key: Seq<u8>,
    expected_message: Seq<u8>,
) -> bool {
    if sysvar_key == instructions_sysvar_id_bytes() && sysvar_data.len() < 2 {
        outcome == Err::<(), Error>(Error::SysvarTooShort)
    } else {
        match relative_instruction(relative_offset, sysvar_key, sysvar_data) {
            Some((program_id, payload)) => outcome == instruction_outcome(
                program_id,
                payload,
                expected_key,
                expected_message,
            ),
            None => outcome matches Err(Error::InstructionLookupFailed(_)),
        }
    }
}

/// Two results are the same outcome: they are equal, or both are a failed
/// lookup. The host's error inside a failed lookup is not compared.
pub open spec fn same_outcome(first: Result<(), Error>, second: Result<(), Error>) -> bool {
    ||| first == second
    ||| (first matches Err(Error::InstructionLookupFailed(_))
        && second matches Err(Error::InstructionLookupFailed(_)))
}

/// Cross-checks one instruction against the expected key and message.
///
/// An instruction of another program is refused as such before its data is
/// looked at, however short or odd that data is. The data of an Ed25519
/// instruction must hold the header and the two regions it points at. After
/// that the key decides before the message does: where both differ, the
/// error is `WrongPubkey`. A message of another length differs.
pub fn verify_instruction(
    instruction: &Instruction,
    expected_key: &[u8; 32],
    expected_message: &[u8],
) -> (outcome: Result<(), Error>)
    ensures
        instruction.program_id@ != ed25519_program_id_bytes() ==> outcome == Err::<(), Error>(
            Error::Mismatch(ExampleErrors::WrongProgram),
        ),
        instruction.program_id@ == ed25519_program_id_bytes() && !well_formed(instruction.data@)
            ==> outcome == Err::<(), Error>(Error::MalformedPayload),
        is_verification(instruction.program_id@, instruction.data@)
            && embedded_key(instruction.data@) != expected_key@
            ==> outcome == Err::<(), Error>(Error::Mismatch(ExampleErrors::WrongPubkey)),
        is_verification(instruction.program_id@, instruction.data@)
            && embedded_key(instruction.data@) == expected_key@
            && embedded_message(instruction.data@) != expected_message@
            ==> outcome == Err::<(), Error>(Error::Mismatch(ExampleErrors::WrongMessage)),
        is_verification(instruction.program_id@, instruction.data@)
            && embedded_key(instruction.data@) == expected_key@
            && embedded_message(instruction.data@) == expected_message@
            ==> outcome == Ok::<(), Error>(()),
{
    if !is_ed25519_program(&instruction.program_id) {
        return Err(Error::Mismatch(ExampleErrors::WrongProgram));
    }
    let payload = instruction.data.as_slice();
    let offsets = match decode_offsets(payload) {
        Some(offsets) => offsets,
        None => return Err(Error::MalformedPayload),
    };
    let pubkeys_are_equal = region_equals(
        payload,
        offsets.public_key_start,
        PUBKEY_LEN,
        expected_key.as_slice(),
    );
    let messages_are_equal = region_equals(
        payload,
        offsets.message_data_start,
        offsets.message_size,
        expected_message,
    );
    if !pubkeys_are_equal {
        return Err(Error::Mismatch(ExampleErrors::WrongPubkey));
    }
    if !messages_are_equal {
        return Err(Error::Mismatch(ExampleErrors::WrongMessage));
    }
    Ok(())
}

/// Takes what the lookup in the sysvar came to. A failed lookup is handed
/// on with the host's error unchanged; an instruction that was found is
/// cross-checked.
pub fn verify_found(
    found: Result<Instruction, ProgramError>,
    expected_key: &[u8; 32],
    expected_message: &[u8],
) -> (outcome: Result<(), Error>)
    ensures
        match found {
            Ok(instruction) => outcome == instruction_outcome(
                instruction.program_id@,
                instruction.data@,
                expected_key@,
                expected_message@,
            ),
            Err(error) => outcome == Err::<(), Error>(Error::InstructionLookupFailed(error)),
        },
{
    match found {
        Ok(instruction) => verify_instruction(&instruction, expected_key, expected_message),
        Err(error) => Err(Error::InstructionLookupFailed(error)),
    }
}

/// Looks up the instruction at `relative_offset` from the current one in
/// the instructions sysvar and cross-checks it.
///
/// Sysvar data too short to hold the index of the current instruction is
/// refused before the host is asked. An account under any other address
/// than the sysvar's is never accepted.
pub fn verify_relative(
    relative_offset: i64,
    sysvar: &InstructionsSysvar,
    expected_key: &[u8; 32],
    expected_message: &[u8],
) -> (outcome: Result<(), Error>)
    ensures
        is_relative_outcome(
            outcome,
            relative_offset,
            sysvar.key@,
            sysvar.data@,
            expected_key@,
            expected_message@,
        ),
        sysvar.key@ != instructions_sysvar_id_bytes() ==> outcome matches Err(
            Error::InstructionLookupFailed(_),
        ),
{
    let sysvar_id = instructions_sysvar_id();
    let is_sysvar = region_equals(sysvar.key.as_slice(), 0, PUBKEY_LEN, sysvar_id.as_slice());
    assert(sysvar.key@.subrange(0, PUBKEY_LEN as int) =~= sysvar.key@);
    if is_sysvar && sysvar.data.len() < 2 {
        return Err(Error::SysvarTooShort);
    }
    let found = instruction_relative(relative_offset, sysvar);
    verify_found(found, expected_key, expected_message)
}

/// The accounts that `conditional_method` reads.
#[derive(Debug, PartialEq, Eq)]
pub struct Initialize {
    /// Address of the signer that the Ed25519 program must have verified.
    pub sigverify_dude: [u8; 32],
    /// The instructions sysvar of the running transaction.
    pub instructions_sysvar: InstructionsSysvar,
}

/// Accepts exactly when the instruction directly before the current one is
/// an Ed25519 verification of `sigverify_dude` over `message_input`.
pub fn conditional_method(accounts: &Initialize, message_input: Vec<u8>) -> (outcome: Result<
    (),
    Error,
>)
    ensures
        is_relative_outcome(
            outcome,
            PREVIOUS_INSTRUCTION,
            accounts.instructions_sysvar.key@,
            accounts.instructions_sysvar.data@,
            accounts.sigverify_dude@,
            message_input@,
        ),
        accounts.instructions_sysvar.key@ != instructions_sysvar_id_bytes() ==> outcome matches Err(
            Error::InstructionLookupFailed(_),
        ),
{
    verify_relative(
        PREVIOUS_INSTRUCTION,
        &accounts.instructions_sysvar,
        &accounts.sigverify_dude,
        message_input.as_slice(),
    )
}

/// The outcome depends on the sysvar, the offset and the expectation alone:
/// any two results of the cross-check on the same values are the same
/// outcome.
pub proof fn lemma_outcome_is_determined(
    first: Result<(), Error>,
    second: Result<(), Error>,
    relative_offset: i64,
    sysvar_key: Seq<u8>,
    sysvar_data: Seq<u8>,
    expected_key: Seq<u8>,
    expected_message: Seq<u8>,
)
    requires
        is_relative_outcome(
            first,
            relative_offset,
            sysvar_key,
            sysvar_data,
            expected_key,
            expected_message,
        ),
        is_relative_outcome(
            second,
            relative_offset,
            sysvar_key,
            sysvar_data,
            expected_key,
            expected_message,
        ),
    ensures
        same_outcome(first, second),
{
}

} // verus!
