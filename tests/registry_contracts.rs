use confidential_vote::error::ErrorCode;
use confidential_vote::registry::{
    get_noop_offset, init_apply_vote_comp_def, init_computation_definition,
    init_init_tally_comp_def, init_reveal_tally_comp_def, init_tally_meta, register_contract,
    reveal_tally_meta, CircuitSource, ComputationDefinitionMeta, ComputationSignature,
    ContractRegistry, InitComputationDefinitionArgs, LocalCircuitSource, OffChainCircuitSource,
    Output, Parameter,
};
use confidential_vote::wire::read_u32_le;

const DISC: [u8; 8] = [45, 185, 155, 17, 97, 77, 230, 73];

fn small_meta() -> ComputationDefinitionMeta {
    ComputationDefinitionMeta {
        circuit_len: 5,
        signature: ComputationSignature {
            parameters: vec![Parameter::Ciphertext, Parameter::PlaintextU128],
            outputs: vec![Output::PlaintextU64],
        },
    }
}

#[test]
fn offsets_are_first_digest_bytes_little_endian() {
    assert_eq!(get_noop_offset("init_tally"), 1179362454);
    assert_eq!(get_noop_offset("apply_vote"), 3401005569);
    assert_eq!(get_noop_offset("reveal_tally"), 1651770906);
}

#[test]
fn read_u32_le_takes_first_four_bytes() {
    assert_eq!(read_u32_le(&[150, 164, 75, 70, 99]), 1179362454);
    assert_eq!(read_u32_le(&[1, 0, 0, 0]), 1);
}

#[test]
fn registration_payload_is_exact() {
    let mut reg = ContractRegistry::new();
    let data = init_computation_definition(&mut reg, [9; 32], [7; 32], 0x0102_0304, small_meta())
        .unwrap();
    let mut expected: Vec<u8> = DISC.to_vec();
    expected.extend_from_slice(&[4, 3, 2, 1]);
    expected.extend_from_slice(&[7; 32]);
    expected.extend_from_slice(&[5, 0, 0, 0]);
    expected.extend_from_slice(&[2, 0, 0, 0, 6, 5]);
    expected.extend_from_slice(&[1, 0, 0, 0, 4]);
    expected.extend_from_slice(&[1, 1, 0]);
    expected.extend_from_slice(&[9; 32]);
    expected.extend_from_slice(&[0x40, 0x42, 0x0f, 0, 0, 0, 0, 0]);
    expected.push(0);
    assert_eq!(data, expected);
    assert_eq!(reg.contracts.len(), 1);
    assert_eq!(reg.contracts[0].offset, 0x0102_0304);
    assert_eq!(reg.contracts[0].upload_auth, [9; 32]);
}

#[test]
fn same_offset_cannot_be_registered_twice() {
    let mut reg = ContractRegistry::new();
    assert!(init_computation_definition(&mut reg, [1; 32], [2; 32], 77, small_meta()).is_ok());
    let again = init_computation_definition(&mut reg, [3; 32], [2; 32], 77, small_meta());
    assert_eq!(again, Err(ErrorCode::ContractAlreadyRegistered));
    assert_eq!(reg.contracts.len(), 1);
    assert_eq!(reg.contracts[0].upload_auth, [1; 32]);
    assert!(reg.contains(77));
    assert!(!reg.contains(78));
}

#[test]
fn same_name_cannot_be_registered_twice() {
    let mut reg = ContractRegistry::new();
    assert!(register_contract(&mut reg, [1; 32], [2; 32], "apply_vote", small_meta()).is_ok());
    let again = register_contract(&mut reg, [1; 32], [2; 32], "apply_vote", small_meta());
    assert_eq!(again, Err(ErrorCode::ContractAlreadyRegistered));
    assert_eq!(reg.contracts[0].offset, 3401005569);
}

#[test]
fn phase_contracts_register_once_each() {
    let mut reg = ContractRegistry::new();
    let a = init_init_tally_comp_def(&mut reg, [1; 32], [2; 32]).unwrap();
    let b = init_apply_vote_comp_def(&mut reg, [1; 32], [2; 32]).unwrap();
    let c = init_reveal_tally_comp_def(&mut reg, [1; 32], [2; 32]).unwrap();
    assert_eq!(&a[..8], &DISC);
    assert_eq!(&a[8..12], &[150, 164, 75, 70]);
    assert_eq!(&b[8..12], &[1, 58, 183, 202]);
    assert_eq!(&c[8..12], &[26, 6, 116, 98]);
    // discriminator, offset, program, size, 4+10 parameters, 4+9 outputs,
    // on-chain source (3 + 32), compute units, no finalization authority
    assert_eq!(a.len(), 8 + 4 + 32 + 4 + 14 + 13 + 35 + 8 + 1);
    assert_eq!(&a[44..48], &1348136u32.to_le_bytes());
    assert_eq!(reg.contracts.len(), 3);
    assert_eq!(
        init_init_tally_comp_def(&mut reg, [1; 32], [2; 32]),
        Err(ErrorCode::ContractAlreadyRegistered)
    );
    assert_eq!(
        init_reveal_tally_comp_def(&mut reg, [5; 32], [2; 32]),
        Err(ErrorCode::ContractAlreadyRegistered)
    );
    assert_eq!(reg.contracts.len(), 3);
}

#[test]
fn phase_signatures() {
    let m = init_tally_meta();
    assert_eq!(m.circuit_len, 1348136);
    assert_eq!(m.signature.parameters.len(), 10);
    assert_eq!(m.signature.parameters[0], Parameter::ArcisX25519Pubkey);
    assert_eq!(m.signature.outputs[0], Output::PlaintextU128);
    let r = reveal_tally_meta();
    assert_eq!(r.circuit_len, 477444);
    assert_eq!(r.signature.outputs, vec![Output::PlaintextU64; 8]);
}

#[test]
fn args_encoding_of_other_sources() {
    let args = InitComputationDefinitionArgs {
        comp_offset: 1,
        mxe_program: [0; 32],
        computation_definition: ComputationDefinitionMeta {
            circuit_len: 0,
            signature: ComputationSignature { parameters: vec![], outputs: vec![] },
        },
        circuit_source: Some(CircuitSource::OffChain(OffChainCircuitSource {
            source: "ab".to_string(),
            hash: [3; 32],
        })),
        cu_amount: 2,
        finalization_authority: Some([4; 32]),
    };
    let mut out = Vec::new();
    args.serialize(&mut out);
    let mut expected = vec![1, 0, 0, 0];
    expected.extend_from_slice(&[0; 32]);
    expected.extend_from_slice(&[0; 12]);
    expected.extend_from_slice(&[1, 2, 2, 0, 0, 0, b'a', b'b']);
    expected.extend_from_slice(&[3; 32]);
    expected.extend_from_slice(&[2, 0, 0, 0, 0, 0, 0, 0]);
    expected.push(1);
    expected.extend_from_slice(&[4; 32]);
    assert_eq!(out, expected);

    let mut local = Vec::new();
    CircuitSource::Local(LocalCircuitSource::MxeKeyRecoveryFinalize).serialize(&mut local);
    assert_eq!(local, vec![0, 2]);
}
