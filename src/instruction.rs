//! Ledger instructions as plain values, and the instructions of the token
//! model that the workers, the monitor and the provisioner build.

use vstd::prelude::*;
use crate::address::Address;

verus! {

/// One account that an instruction names, with its access flags.
#[derive(Clone, Copy, Debug, PartialEq, Eq)]
pub struct AccountRef {
    pub key: Address,
    pub signer: bool,
    pub writable: bool,
}

/// One instruction: the program that runs it, the accounts it names, in
/// order, and its input bytes.
#[derive(Debug)]
pub struct Op {
    pub program: Address,
    pub accounts: Vec<AccountRef>,
    pub data: Vec<u8>,
}

pub open spec fn writable(key: Address) -> AccountRef {
    AccountRef { key, signer: false, writable: true }
}

pub open spec fn writable_signer(key: Address) -> AccountRef {
    AccountRef { key, signer: true, writable: true }
}

pub open spec fn readonly(key: Address) -> AccountRef {
    AccountRef { key, signer: false, writable: false }
}

pub open spec fn readonly_signer(key: Address) -> AccountRef {
    AccountRef { key, signer: true, writable: false }
}

/// Whether an account entry is read-only and need not sign.
pub open spec fn is_readonly(m: AccountRef) -> bool {
    !m.signer && !m.writable
}

/// Whether `op` runs `program` on exactly `accounts` with input `data`.
pub open spec fn op_is(op: Op, program: Address, accounts: Seq<AccountRef>, data: Seq<u8>) -> bool {
    op.program == program && op.accounts@ == accounts && op.data@ == data
}

/// The eight little-endian bytes of `x`.
pub open spec fn le_bytes(x: u64) -> Seq<u8> {
    Seq::new(8, |i: int| ((x as int / vstd::arithmetic::power::pow(256, i as nat)) % 256) as u8)
}

/// The all-zero address of the system program.
pub open spec fn system_program_bytes() -> Seq<u8> {
    Seq::new(32, |i: int| 0u8)
}

/// Input of the system program's account creation.
pub open spec fn create_account_data(lamports: u64, space: u64, owner: Address) -> Seq<u8> {
    seq![0u8, 0u8, 0u8, 0u8] + le_bytes(lamports) + le_bytes(space) + owner.bytes@
}

/// Input of a token instruction made of a tag and an amount.
pub open spec fn token_amount_data(tag: u8, amount: u64) -> Seq<u8> {
    seq![tag] + le_bytes(amount)
}

/// Address of the token program (`TokenkegQfeZyiNwAJbNbGKPFXCWuBvf9Ss623VQ5DA`),
/// the only program id for which the token instruction builders succeed.
pub const TOKEN_PROGRAM_ID_BYTES: [u8; 32] = [
    6, 221, 246, 225, 215, 101, 161, 147, 217, 203, 225, 70, 206, 235, 121, 172,
    28, 180, 133, 237, 95, 91, 55, 145, 58, 140, 245, 133, 126, 255, 0, 169,
];

/// Whether `a` is the token program's address.
pub open spec fn is_token_program(a: Address) -> bool {
    a.bytes == TOKEN_PROGRAM_ID_BYTES
}

/// Tag of the token model's transfer.
pub const TOKEN_TRANSFER: u8 = 3;

/// Tag of the token model's minting.
pub const TOKEN_MINT_TO: u8 = 7;

/// Relies on `solana_system_interface::instruction::create_account`: the
/// system program moves `lamports` from `from` to `to`, allocates `space`
/// bytes and assigns `owner`; both accounts sign.
#[verifier::external_body]
fn system_create_account(from: &Address, to: &Address, lamports: u64, space: u64, owner: &Address) -> (r: Op)
    ensures
        r.program.bytes@ == system_program_bytes(),
        r.accounts@ == seq![writable_signer(*from), writable_signer(*to)],
        r.data@ == create_account_data(lamports, space, *owner),
{
    let ix = solana_system_interface::instruction::create_account(
        &from.bytes.into(), &to.bytes.into(), lamports, space, &owner.bytes.into());
    Op {
        program: Address { bytes: ix.program_id.to_bytes() },
        accounts: ix.accounts.iter().map(|m| AccountRef { key: Address { bytes: m.pubkey.to_bytes() }, signer: m.is_signer, writable: m.is_writable }).collect(),
        data: ix.data,
    }
}

/// Relies on `spl_token_interface::instruction::transfer` with no
/// multisignature signers: `amount` moves from `source` to `destination`
/// on the authority's signature. The builder refuses (`None`) exactly a
/// program id other than the token program's.
#[verifier::external_body]
fn token_transfer(program: &Address, source: &Address, destination: &Address, authority: &Address, amount: u64) -> (r: Option<Op>)
    ensures
        r is Some <==> is_token_program(*program),
        r matches Some(op) ==> op_is(
            op,
            *program,
            seq![writable(*source), writable(*destination), readonly_signer(*authority)],
            token_amount_data(TOKEN_TRANSFER, amount),
        ),
{
    let ix = spl_token_interface::instruction::transfer(
        &program.bytes.into(), &source.bytes.into(), &destination.bytes.into(), &authority.bytes.into(), &[], amount).ok()?;
    Some(Op {
        program: Address { bytes: ix.program_id.to_bytes() },
        accounts: ix.accounts.iter().map(|m| AccountRef { key: Address { bytes: m.pubkey.to_bytes() }, signer: m.is_signer, writable: m.is_writable }).collect(),
        data: ix.data,
    })
}

/// Relies on `spl_token_interface::instruction::mint_to` with no
/// multisignature signers: `amount` new units go to `account` on the mint
/// authority's signature. The builder refuses (`None`) exactly a program id
/// other than the token program's.
#[verifier::external_body]
fn token_mint_to(program: &Address, mint: &Address, account: &Address, authority: &Address, amount: u64) -> (r: Option<Op>)
    ensures
        r is Some <==> is_token_program(*program),
        r matches Some(op) ==> op_is(
            op,
            *program,
            seq![writable(*mint), writable(*account), readonly_signer(*authority)],
            token_amount_data(TOKEN_MINT_TO, amount),
        ),
{
    let ix = spl_token_interface::instruction::mint_to(
        &program.bytes.into(), &mint.bytes.into(), &account.bytes.into(), &authority.bytes.into(), &[], amount).ok()?;
    Some(Op {
        program: Address { bytes: ix.program_id.to_bytes() },
        accounts: ix.accounts.iter().map(|m| AccountRef { key: Address { bytes: m.pubkey.to_bytes() }, signer: m.is_signer, writable: m.is_writable }).collect(),
        data: ix.data,
    })
}

/// Relies on `spl_token_interface::instruction::initialize_mint` with no
/// freeze authority: the mint, then the rent sysvar, read-only. The builder
/// refuses (`None`) exactly a program id other than the token program's.
#[verifier::external_body]
fn token_initialize_mint(program: &Address, mint: &Address, authority: &Address, decimals: u8) -> (r: Option<Op>)
    ensures
        r is Some <==> is_token_program(*program),
        r matches Some(op) ==> {
            &&& op.program == *program
            &&& op.accounts@.len() == 2
            &&& op.accounts@[0] == writable(*mint)
            &&& is_readonly(op.accounts@[1])
            &&& op.data@ == seq![0u8, decimals] + authority.bytes@ + seq![0u8]
        },
{
    let ix = spl_token_interface::instruction::initialize_mint(
        &program.bytes.into(), &mint.bytes.into(), &authority.bytes.into(), None, decimals).ok()?;
    Some(Op {
        program: Address { bytes: ix.program_id.to_bytes() },
        accounts: ix.accounts.iter().map(|m| AccountRef { key: Address { bytes: m.pubkey.to_bytes() }, signer: m.is_signer, writable: m.is_writable }).collect(),
        data: ix.data,
    })
}

/// Relies on `spl_token_interface::instruction::initialize_account`: the
/// holder account, its mint, its owner, then the rent sysvar, read-only.
/// The builder refuses (`None`) exactly a program id other than the token
/// program's.
#[verifier::external_body]
fn token_initialize_account(program: &Address, account: &Address, mint: &Address, owner: &Address) -> (r: Option<Op>)
    ensures
        r is Some <==> is_token_program(*program),
        r matches Some(op) ==> {
            &&& op.program == *program
            &&& op.accounts@.len() == 4
            &&& op.accounts@[0] == writable(*account)
            &&& op.accounts@[1] == readonly(*mint)
            &&& op.accounts@[2] == readonly(*owner)
            &&& is_readonly(op.accounts@[3])
            &&& op.data@ == seq![1u8]
        },
{
    let ix = spl_token_interface::instruction::initialize_account(
        &program.bytes.into(), &account.bytes.into(), &mint.bytes.into(), &owner.bytes.into()).ok()?;
    Some(Op {
        program: Address { bytes: ix.program_id.to_bytes() },
        accounts: ix.accounts.iter().map(|m| AccountRef { key: Address { bytes: m.pubkey.to_bytes() }, signer: m.is_signer, writable: m.is_writable }).collect(),
        data: ix.data,
    })
}

/// Relies on `spl_token_interface::state::Mint::LEN` (`Pack`): a mint record
/// takes 82 bytes.
#[verifier::external_body]
fn mint_len() -> (r: usize)
    ensures
        r == 82,
{
    <spl_token_interface::state::Mint as solana_sdk::program_pack::Pack>::LEN
}

/// Relies on `spl_token_interface::state::Account::LEN` (`Pack`): a holder
/// record takes 165 bytes.
#[verifier::external_body]
fn token_account_len() -> (r: usize)
    ensures
        r == 165,
{
    <spl_token_interface::state::Account as solana_sdk::program_pack::Pack>::LEN
}

/// The largest data length that the rent computation accepts.
pub const MAX_DATA_LEN: usize = 10485760;

/// Relies on `solana_sdk::rent::Rent::default().minimum_balance`: with the
/// default rate of 6960 lamports per byte, an account of `len` data bytes,
/// plus 128 bytes of overhead, is rent-exempt from this balance on.
#[verifier::external_body]
fn rent_exempt_minimum(len: usize) -> (r: u64)
    requires
        len <= MAX_DATA_LEN,
    ensures
        r == (128 + len) * 6960,
{
    solana_sdk::rent::Rent::default().minimum_balance(len)
}

/// The accounts the workers contend on: a mint, two holder accounts bound
/// to it, and the authority that may move units between them.
#[derive(Clone, Copy, Debug)]
pub struct ResourcePair {
    pub mint: Address,
    pub account_a: Address,
    pub account_b: Address,
    pub authority: Address,
}

/// Units moved by each transfer.
pub const TRANSFER_AMOUNT: u64 = 1;

/// Units minted into the first holder account when provisioning.
pub const INITIAL_SUPPLY: u64 = 1000000000;

/// Decimals of the provisioned mint.
pub const MINT_DECIMALS: u8 = 0;

/// The transfer that every worker submits and the monitor dry-runs: one
/// unit from the first holder account to the second, signed by the
/// authority. `None` exactly where `token_program` is not the token
/// program.
pub fn transfer_op(token_program: &Address, pair: &ResourcePair) -> (r: Option<Op>)
    ensures
        r is Some <==> is_token_program(*token_program),
        r matches Some(op) ==> op_is(
            op,
            *token_program,
            seq![writable(pair.account_a), writable(pair.account_b), readonly_signer(pair.authority)],
            token_amount_data(TOKEN_TRANSFER, TRANSFER_AMOUNT),
        ),
{
    token_transfer(token_program, &pair.account_a, &pair.account_b, &pair.authority, TRANSFER_AMOUNT)
}

/// Whether `op` creates the account `to`, paid by `from`, with `space` bytes
/// and a rent-exempt balance, owned by `owner`.
pub open spec fn creates_account(op: Op, from: Address, to: Address, space: u64, owner: Address) -> bool {
    &&& op.program.bytes@ == system_program_bytes()
    &&& op.accounts@ == seq![writable_signer(from), writable_signer(to)]
    &&& op.data@ == create_account_data(((128 + space) * 6960) as u64, space, owner)
}

/// The batched provisioning of a resource pair, in order: create the mint
/// and the two holder accounts (owned by the token program, sized to their
/// records, rent-exempt, paid by `payer`), initialize the mint under the
/// authority, initialize both holder accounts on the mint, and mint the
/// initial supply into the first. `None` exactly where `token_program` is
/// not the token program.
pub fn provisioning_ops(token_program: &Address, payer: &Address, pair: &ResourcePair) -> (r: Option<Vec<Op>>)
    ensures
        r is Some <==> is_token_program(*token_program),
        r matches Some(ops) ==> {
            &&& ops@.len() == 7
            &&& creates_account(ops@[0], *payer, pair.mint, 82, *token_program)
            &&& creates_account(ops@[1], *payer, pair.account_a, 165, *token_program)
            &&& creates_account(ops@[2], *payer, pair.account_b, 165, *token_program)
            &&& ops@[3].program == *token_program
            &&& ops@[3].accounts@.len() == 2
            &&& ops@[3].accounts@[0] == writable(pair.mint)
            &&& ops@[3].data@ == seq![0u8, MINT_DECIMALS] + pair.authority.bytes@ + seq![0u8]
            &&& ops@[4].program == *token_program
            &&& ops@[4].accounts@.len() == 4
            &&& ops@[4].accounts@.subrange(0, 3) == seq![writable(pair.account_a), readonly(pair.mint), readonly(pair.authority)]
            &&& ops@[4].data@ == seq![1u8]
            &&& ops@[5].program == *token_program
            &&& ops@[5].accounts@.len() == 4
            &&& ops@[5].accounts@.subrange(0, 3) == seq![writable(pair.account_b), readonly(pair.mint), readonly(pair.authority)]
            &&& ops@[5].data@ == seq![1u8]
            &&& op_is(
                ops@[6],
                *token_program,
                seq![writable(pair.mint), writable(pair.account_a), readonly_signer(pair.authority)],
                token_amount_data(TOKEN_MINT_TO, INITIAL_SUPPLY),
            )
        },
{
    let mint_space = mint_len();
    let account_space = token_account_len();
    let mint_lamports = rent_exempt_minimum(mint_space);
    let account_lamports = rent_exempt_minimum(account_space);
    let mut ops: Vec<Op> = Vec::new();
    ops.push(system_create_account(payer, &pair.mint, mint_lamports, mint_space as u64, token_program));
    ops.push(system_create_account(payer, &pair.account_a, account_lamports, account_space as u64, token_program));
    ops.push(system_create_account(payer, &pair.account_b, account_lamports, account_space as u64, token_program));
    ops.push(token_initialize_mint(token_program, &pair.mint, &pair.authority, MINT_DECIMALS)?);
    ops.push(token_initialize_account(token_program, &pair.account_a, &pair.mint, &pair.authority)?);
    ops.push(token_initialize_account(token_program, &pair.account_b, &pair.mint, &pair.authority)?);
    ops.push(token_mint_to(token_program, &pair.mint, &pair.account_a, &pair.authority, INITIAL_SUPPLY)?);
    assert(ops@[4].accounts@.subrange(0, 3) =~= seq![writable(pair.account_a), readonly(pair.mint), readonly(pair.authority)]);
    assert(ops@[5].accounts@.subrange(0, 3) =~= seq![writable(pair.account_b), readonly(pair.mint), readonly(pair.authority)]);
    Some(ops)
}

} // verus!
