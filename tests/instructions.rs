use cbmt_harness::address::Address;
use cbmt_harness::file::{elf_file_name, elf_path, FileReader};
use cbmt_harness::instruction::{
    provisioning_ops, transfer_op, AccountRef, ResourcePair, TOKEN_PROGRAM_ID_BYTES,
};
use cbmt_harness::programs::{
    activate_feature, activator_id, burn, check_stub_signers, decode_stub_input,
    feature_gate_program_id, StubCommand, StubError, INCINERATOR_BYTES,
};

fn token_program() -> Address {
    Address::from_bytes(
        agave_feature_set::replace_spl_token_with_p_token::SPL_TOKEN_PROGRAM_ID.to_bytes(),
    )
}

fn pair() -> ResourcePair {
    ResourcePair {
        mint: Address::from_bytes([10; 32]),
        account_a: Address::from_bytes([11; 32]),
        account_b: Address::from_bytes([12; 32]),
        authority: Address::from_bytes([13; 32]),
    }
}

fn meta(key: Address, signer: bool, writable: bool) -> AccountRef {
    AccountRef { key, signer, writable }
}

#[test]
fn transfer_moves_one_unit_from_a_to_b() {
    let p = pair();
    let op = transfer_op(&token_program(), &p).unwrap();
    assert!(op.program == token_program());
    assert_eq!(
        op.accounts,
        vec![meta(p.account_a, false, true), meta(p.account_b, false, true), meta(p.authority, true, false)]
    );
    assert_eq!(op.data, vec![3, 1, 0, 0, 0, 0, 0, 0, 0]);
}

#[test]
fn transfer_is_refused_for_another_program() {
    assert!(transfer_op(&Address::from_bytes([1; 32]), &pair()).is_none());
    assert!(provisioning_ops(&Address::from_bytes([1; 32]), &Address::from_bytes([9; 32]), &pair()).is_none());
}

fn le(x: u64) -> Vec<u8> {
    x.to_le_bytes().to_vec()
}

#[test]
fn provisioning_creates_and_funds_accounts() {
    let p = pair();
    let payer = Address::from_bytes([9; 32]);
    let tp = token_program();
    let ops = provisioning_ops(&tp, &payer, &p).unwrap();
    assert_eq!(ops.len(), 7);
    let system = Address::from_bytes([0; 32]);
    for (i, (target, space)) in [(p.mint, 82u64), (p.account_a, 165), (p.account_b, 165)].iter().enumerate() {
        assert!(ops[i].program == system);
        assert_eq!(ops[i].accounts, vec![meta(payer, true, true), meta(*target, true, true)]);
        let mut data = vec![0, 0, 0, 0];
        data.extend(le((128 + space) * 6960));
        data.extend(le(*space));
        data.extend(tp.bytes);
        assert_eq!(ops[i].data, data);
    }
    assert_eq!(le((128 + 82) * 6960), le(1461600));
    let mut init_mint = vec![0, 0];
    init_mint.extend(p.authority.bytes);
    init_mint.push(0);
    assert_eq!(ops[3].data, init_mint);
    assert_eq!(ops[3].accounts[0], meta(p.mint, false, true));
    assert_eq!(ops[4].data, vec![1]);
    assert_eq!(ops[4].accounts[..3], [meta(p.account_a, false, true), meta(p.mint, false, false), meta(p.authority, false, false)]);
    assert_eq!(ops[5].accounts[0], meta(p.account_b, false, true));
    let mut mint_to = vec![7];
    mint_to.extend(le(1_000_000_000));
    assert_eq!(ops[6].data, mint_to);
    assert_eq!(ops[6].accounts, vec![meta(p.mint, false, true), meta(p.account_a, false, true), meta(p.authority, true, false)]);
}

#[test]
fn activation_targets_staged_feature() {
    let feature = Address::from_bytes(agave_feature_set::replace_spl_token_with_p_token::ID.to_bytes());
    let op = activate_feature(&feature);
    assert!(op.program == activator_id());
    assert_eq!(op.accounts, vec![meta(feature, false, true)]);
    assert!(op.data.is_empty());
}

fn parse_key(text: &str) -> [u8; 32] {
    text.parse::<solana_sdk::pubkey::Pubkey>().unwrap().to_bytes()
}

#[test]
fn program_ids_match_their_names() {
    assert_eq!(activator_id().bytes, parse_key("CBMTActivator111111111111111111111111111111"));
    assert_eq!(feature_gate_program_id().bytes, solana_sdk_ids::feature::ID.to_bytes());
    assert_eq!(feature_gate_program_id().bytes, parse_key("Feature111111111111111111111111111111111111"));
    assert_eq!(TOKEN_PROGRAM_ID_BYTES, spl_token_interface::id().to_bytes());
    assert_eq!(INCINERATOR_BYTES, solana_sdk_ids::incinerator::ID.to_bytes());
    assert_eq!(token_program().bytes, TOKEN_PROGRAM_ID_BYTES);
}

#[test]
fn stub_signer_checks() {
    let w = StubCommand::Write(vec![1]);
    assert!(check_stub_signers(&w, true, true).is_ok());
    assert_eq!(check_stub_signers(&w, false, true), Err(StubError::MissingRequiredSignature));
    assert_eq!(check_stub_signers(&w, true, false), Err(StubError::MissingRequiredSignature));
    assert!(check_stub_signers(&StubCommand::Burn, true, false).is_ok());
    assert_eq!(check_stub_signers(&StubCommand::Burn, false, true), Err(StubError::MissingRequiredSignature));
}

#[test]
fn stub_write_and_burn_layouts() {
    let prog = Address::from_bytes([20; 32]);
    let target = Address::from_bytes([21; 32]);
    let payer = Address::from_bytes([22; 32]);
    let op = cbmt_harness::programs::write(&prog, &target, &payer, &[7, 8, 9]);
    assert_eq!(op.data, vec![0, 7, 8, 9]);
    assert_eq!(op.accounts[0], meta(target, true, true));
    assert_eq!(op.accounts[1], meta(payer, true, true));
    assert_eq!(op.accounts[2], meta(Address::from_bytes([0; 32]), false, false));
    let op = burn(&prog, &target);
    assert_eq!(op.data, vec![1]);
    assert_eq!(op.accounts[0], meta(target, true, true));
    assert_eq!(op.accounts[1], meta(Address::from_bytes(solana_sdk_ids::incinerator::ID.to_bytes()), false, true));
}

#[test]
fn stub_input_decodes() {
    match decode_stub_input(&[0, 4, 5]) {
        Ok(StubCommand::Write(d)) => assert_eq!(d, vec![4, 5]),
        other => panic!("unexpected {:?}", other),
    }
    assert!(matches!(decode_stub_input(&[0]), Ok(StubCommand::Write(d)) if d.is_empty()));
    assert!(matches!(decode_stub_input(&[1, 9]), Ok(StubCommand::Burn)));
    assert!(matches!(decode_stub_input(&[2]), Err(StubError::InvalidInstructionData)));
    assert!(matches!(decode_stub_input(&[]), Err(StubError::InvalidInstructionData)));
}

#[test]
fn elf_names_and_paths() {
    assert_eq!(elf_file_name("p_token"), "p_token.so");
    assert_eq!(elf_path("./target/elfs", "cbmt_program_activator"), "./target/elfs/cbmt_program_activator.so");
    assert_eq!(elf_path("./target/elfs/", "p_token"), "./target/elfs/p_token.so");
}

#[test]
fn elf_is_loaded_from_first_directory_holding_it() {
    let reader = FileReader::new(&["a", "b", "c"]);
    let read = |p: &String| -> Option<Vec<u8>> {
        match p.as_str() {
            "b/p_token.so" => Some(vec![1, 2]),
            "c/p_token.so" => Some(vec![3]),
            _ => None,
        }
    };
    assert_eq!(reader.load_program_elf("p_token", &read).unwrap(), vec![1, 2]);
    let found = reader.find_file("p_token.so", &read).unwrap();
    assert_eq!(found.0, "b/p_token.so");
}

#[test]
fn missing_elf_names_the_file() {
    let reader = FileReader::new(&["a"]);
    let read = |_p: &String| -> Option<Vec<u8>> { None };
    let err = reader.load_program_elf("stub", &read).unwrap_err();
    assert_eq!(err.file_name, "stub.so");
    assert!(FileReader::new(&[]).find_file("x", &read).is_none());
}
