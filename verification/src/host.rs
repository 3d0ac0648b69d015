//! The boundary to the host's own code: the identity of the Ed25519 program
//! and the lookup of an instruction in the instructions sysvar.
//!
//! Nothing in this module is proved. Each function states what the host
//! function it calls does, and the rest of the crate is verified against
//! those statements.

use anchor_lang::solana_program::account_info::AccountInfo;
use anchor_lang::solana_program::ed25519_program;
use anchor_lang::solana_program::program_error::ProgramError;
use anchor_lang::solana_program::pubkey::Pubkey;
use anchor_lang::solana_program::sysvar::instructions::get_instruction_relative;
use vstd::prelude::*;

verus! {

/// What this crate reads of an instruction: the program it was addressed to
/// and the bytes it was given.
#[derive(Debug, PartialEq, Eq)]
pub struct Instruction {
    pub program_id: [u8; 32],
    pub data: Vec<u8>,
}

/// The instructions sysvar account as plain values: its address and its data.
#[derive(Debug, PartialEq, Eq)]
pub struct InstructionsSysvar {
    pub key: [u8; 32],
    pub data: Vec<u8>,
}

/// The address of the native Ed25519 program,
/// `Ed25519SigVerify111111111111111111111111111`, as bytes.
pub open spec fn ed25519_program_id_bytes() -> Seq<u8> {
    seq![
        3u8, 125, 70, 214, 124, 147, 251, 190, 18, 249, 66, 143, 131, 141, 64, 255,
        5, 112, 116, 73, 39, 244, 138, 100, 252, 202, 112, 68, 128, 0, 0, 0,
    ]
}

/// The address of the native Ed25519 program.
pub fn ed25519_program_id() -> (id: [u8; 32])
    ensures
        id@ == ed25519_program_id_bytes(),
{
    let id: [u8; 32] = [
        3, 125, 70, 214, 124, 147, 251, 190, 18, 249, 66, 143, 131, 141, 64, 255,
        5, 112, 116, 73, 39, 244, 138, 100, 252, 202, 112, 68, 128, 0, 0, 0,
    ];
    assert(id@ =~= ed25519_program_id_bytes());
    id
}

/// The address of the instructions sysvar,
/// `Sysvar1nstructions1111111111111111111111111`, as bytes.
pub open spec fn instructions_sysvar_id_bytes() -> Seq<u8> {
    seq![
        6u8, 167, 213, 23, 24, 123, 209, 102, 53, 218, 212, 4, 85, 253, 194, 192,
        193, 36, 198, 143, 33, 86, 117, 165, 219, 186, 203, 95, 8, 0, 0, 0,
    ]
}

/// The address of the instructions sysvar.
pub fn instructions_sysvar_id() -> (id: [u8; 32])
    ensures
        id@ == instructions_sysvar_id_bytes(),
{
    let id: [u8; 32] = [
        6, 167, 213, 23, 24, 123, 209, 102, 53, 218, 212, 4, 85, 253, 194, 192,
        193, 36, 198, 143, 33, 86, 117, 165, 219, 186, 203, 95, 8, 0, 0, 0,
    ];
    assert(id@ =~= instructions_sysvar_id_bytes());
    id
}

/// Calls `ed25519_program::check_id`, which compares an address with the
/// program's fixed address and returns whether they are equal.
#[verifier::external_body]
pub(crate) fn is_ed25519_program(program_id: &[u8; 32]) -> (is: bool)
    ensures
        is == (program_id@ == ed25519_program_id_bytes()),
{
    ed25519_program::check_id(&Pubkey::new_from_array(*program_id))
}

/// The program address and the data of the instruction that
/// `get_instruction_relative` finds, for an offset relative to the current
/// instruction and a sysvar account with the given address and data; `None`
/// where it returns an error.
pub uninterp spec fn relative_instruction(
    index_relative_to_current: i64,
    key: Seq<u8>,
    data: Seq<u8>,
) -> Option<(Seq<u8>, Seq<u8>)>;

/// Calls `sysvar::instructions::get_instruction_relative` on an account made
/// of the given address and data; the function reads nothing else of an
/// account.
///
/// It first compares the address with that of the instructions sysvar and
/// returns an error for any other. Then it indexes the last two bytes of the
/// data without a test, so under the sysvar's address the data must hold
/// them. Every read after that is tested and fails with an error.
#[verifier::external_body]
pub(crate) fn instruction_relative(
    index_relative_to_current: i64,
    sysvar: &InstructionsSysvar,
) -> (found: Result<Instruction, ProgramError>)
    requires
        sysvar.key@ == instructions_sysvar_id_bytes() ==> sysvar.data@.len() >= 2,
    ensures
        relative_instruction(index_relative_to_current, sysvar.key@, sysvar.data@) == match found {
            Ok(instruction) => Some((instruction.program_id@, instruction.data@)),
            Err(_) => None,
        },
        sysvar.key@ != instructions_sysvar_id_bytes() ==> found is Err,
{
    let key = Pubkey::new_from_array(sysvar.key);
    let mut lamports = 0u64;
    let mut data = sysvar.data.clone();
    let account = AccountInfo::new(&key, false, false, &mut lamports, &mut data, &key, false, 0);
    match get_instruction_relative(index_relative_to_current, &account) {
        Ok(found) => Ok(Instruction { program_id: found.program_id.to_bytes(), data: found.data }),
        Err(error) => Err(error),
    }
}

} // verus!
