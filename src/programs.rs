//! The instructions of the two auxiliary programs: the activator, which
//! hands a staged feature account to the feature-gate program, and the
//! deterministic stub, which writes or burns a target account.

use vstd::prelude::*;
use crate::address::Address;
use crate::instruction::{
    AccountRef, Op, op_is, system_program_bytes, writable, writable_signer,
};

verus! {

/// Address of the activator program.
pub const ACTIVATOR_ID_BYTES: [u8; 32] = [
    2, 221, 24, 57, 146, 194, 252, 146, 9, 197, 241, 165, 98, 166, 109, 41,
    84, 14, 191, 129, 0, 63, 149, 159, 226, 154, 238, 166, 64, 0, 0, 0,
];

/// Address of the feature-gate program, to which the activator assigns a
/// staged feature account.
pub const FEATURE_GATE_PROGRAM_BYTES: [u8; 32] = [
    3, 192, 160, 205, 203, 6, 210, 218, 239, 174, 130, 209, 111, 238, 122, 207,
    97, 236, 115, 123, 35, 72, 27, 33, 148, 106, 118, 112, 0, 0, 0, 0,
];

/// Address of the activator program.
pub fn activator_id() -> (r: Address)
    ensures
        r.bytes == ACTIVATOR_ID_BYTES,
{
    Address { bytes: ACTIVATOR_ID_BYTES }
}

/// Address of the feature-gate program.
pub fn feature_gate_program_id() -> (r: Address)
    ensures
        r.bytes == FEATURE_GATE_PROGRAM_BYTES,
{
    Address { bytes: FEATURE_GATE_PROGRAM_BYTES }
}

/// The activation of a staged feature: the activator program, given the
/// feature account as its one writable, non-signing account, and no input.
pub fn activate_feature(feature_id: &Address) -> (r: Op)
    ensures
        op_is(r, Address { bytes: ACTIVATOR_ID_BYTES }, seq![writable(*feature_id)], Seq::empty()),
{
    let mut accounts: Vec<AccountRef> = Vec::new();
    accounts.push(AccountRef { key: *feature_id, signer: false, writable: true });
    let r = Op { program: activator_id(), accounts, data: Vec::new() };
    assert(r.accounts@ =~= seq![writable(*feature_id)]);
    assert(r.data@ =~= Seq::<u8>::empty());
    r
}

/// Relies on `solana_sdk_ids::system_program::ID`, the all-zero address.
#[verifier::external_body]
fn system_program_id() -> (r: Address)
    ensures
        r.bytes@ == system_program_bytes(),
{
    Address { bytes: solana_sdk_ids::system_program::ID.to_bytes() }
}

/// Address of the incinerator (`1nc1nerator11111111111111111111111111111111`),
/// the sink of burnt lamports.
pub const INCINERATOR_BYTES: [u8; 32] = [
    0, 51, 144, 114, 141, 52, 17, 96, 121, 189, 201, 17, 191, 255, 0, 219,
    212, 77, 46, 205, 204, 247, 156, 166, 225, 0, 56, 225, 0, 0, 0, 0,
];

/// Relies on `solana_sdk_ids::incinerator::ID`, declared as
/// `1nc1nerator11111111111111111111111111111111`.
#[verifier::external_body]
fn incinerator_id() -> (r: Address)
    ensures
        r.bytes == INCINERATOR_BYTES,
{
    Address { bytes: solana_sdk_ids::incinerator::ID.to_bytes() }
}

/// Tag of the stub's write.
pub const STUB_WRITE: u8 = 0;

/// Tag of the stub's burn.
pub const STUB_BURN: u8 = 1;

/// The stub's write of `data` into `target`: funded by `payer`, both
/// signing, with the system program read-only; input is the write tag
/// followed by the data.
pub fn write(program_id: &Address, target: &Address, payer: &Address, data: &[u8]) -> (r: Op)
    ensures
        r.program == *program_id,
        r.accounts@.len() == 3,
        r.accounts@[0] == writable_signer(*target),
        r.accounts@[1] == writable_signer(*payer),
        is_readonly_system(r.accounts@[2]),
        r.data@ == seq![STUB_WRITE] + data@,
{
    let mut input: Vec<u8> = Vec::new();
    input.push(STUB_WRITE);
    let mut i: usize = 0;
    while i < data.len()
        invariant
            0 <= i <= data@.len(),
            input@ == seq![STUB_WRITE] + data@.subrange(0, i as int),
        decreases data@.len() - i,
    {
        input.push(data[i]);
        i = i + 1;
        assert(input@ =~= seq![STUB_WRITE] + data@.subrange(0, i as int));
    }
    assert(data@.subrange(0, data@.len() as int) =~= data@);
    let mut accounts: Vec<AccountRef> = Vec::new();
    accounts.push(AccountRef { key: *target, signer: true, writable: true });
    accounts.push(AccountRef { key: *payer, signer: true, writable: true });
    accounts.push(AccountRef { key: system_program_id(), signer: false, writable: false });
    Op { program: *program_id, accounts, data: input }
}

/// Whether an account entry is the system program, read-only and not signing.
pub open spec fn is_readonly_system(m: AccountRef) -> bool {
    m.key.bytes@ == system_program_bytes() && !m.signer && !m.writable
}

/// The stub's burn of every lamport of `target`, which signs, into the
/// incinerator, writable and not signing; the system program comes last,
/// read-only; input is the burn tag alone.
pub fn burn(program_id: &Address, target: &Address) -> (r: Op)
    ensures
        r.program == *program_id,
        r.accounts@.len() == 3,
        r.accounts@[0] == writable_signer(*target),
        r.accounts@[1] == writable(Address { bytes: INCINERATOR_BYTES }),
        is_readonly_system(r.accounts@[2]),
        r.data@ == seq![STUB_BURN],
{
    let mut input: Vec<u8> = Vec::new();
    input.push(STUB_BURN);
    let mut accounts: Vec<AccountRef> = Vec::new();
    accounts.push(AccountRef { key: *target, signer: true, writable: true });
    accounts.push(AccountRef { key: incinerator_id(), signer: false, writable: true });
    accounts.push(AccountRef { key: system_program_id(), signer: false, writable: false });
    assert(input@ =~= seq![STUB_BURN]);
    Op { program: *program_id, accounts, data: input }
}

/// What the stub is asked to do.
#[derive(Debug)]
pub enum StubCommand {
    /// Write these bytes into the target account.
    Write(Vec<u8>),
    /// Burn the target account's lamports.
    Burn,
}

/// Why the stub refuses its input.
#[derive(Clone, Copy, Debug, PartialEq, Eq, Structural)]
pub enum StubError {
    /// The input is empty or starts with an unknown tag.
    InvalidInstructionData,
    /// An account that the command needs as a signer did not sign.
    MissingRequiredSignature,
}

/// The signer check of the stub: a write needs both the target and the
/// payer to sign, a burn needs the target to sign.
pub fn check_stub_signers(command: &StubCommand, target_signed: bool, payer_signed: bool) -> (r: Result<(), StubError>)
    ensures
        r is Ok <==> (match command {
            StubCommand::Write(_) => target_signed && payer_signed,
            StubCommand::Burn => target_signed,
        }),
        r matches Err(e) ==> e == StubError::MissingRequiredSignature,
{
    let ok = match command {
        StubCommand::Write(_) => target_signed && payer_signed,
        StubCommand::Burn => target_signed,
    };
    if ok {
        Ok(())
    } else {
        Err(StubError::MissingRequiredSignature)
    }
}

/// Reads the stub's input: the write tag followed by the bytes to write, or
/// the burn tag (anything after it is ignored); anything else is refused.
pub fn decode_stub_input(input: &[u8]) -> (r: Result<StubCommand, StubError>)
    ensures
        input@.len() > 0 && input@[0] == STUB_WRITE ==> (r matches Ok(StubCommand::Write(d)) && d@
            == input@.drop_first()),
        input@.len() > 0 && input@[0] == STUB_BURN ==> r matches Ok(StubCommand::Burn),
        (input@.len() == 0 || (input@[0] != STUB_WRITE && input@[0] != STUB_BURN)) ==> r
            == Err::<StubCommand, StubError>(StubError::InvalidInstructionData),
{
    if input.len() == 0 {
        return Err(StubError::InvalidInstructionData);
    }
    if input[0] == STUB_WRITE {
        let mut rest: Vec<u8> = Vec::new();
        let mut i: usize = 1;
        while i < input.len()
            invariant
                1 <= i <= input@.len(),
                rest@ == input@.subrange(1, i as int),
            decreases input@.len() - i,
        {
            rest.push(input[i]);
            i = i + 1;
            assert(rest@ =~= input@.subrange(1, i as int));
        }
        assert(rest@ =~= input@.drop_first());
        Ok(StubCommand::Write(rest))
    } else if input[0] == STUB_BURN {
        Ok(StubCommand::Burn)
    } else {
        Err(StubError::InvalidInstructionData)
    }
}

} // verus!
