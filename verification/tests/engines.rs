use capstone::DisasmEvent;
use capstone::Engine;
use capstone::RawInsn;
use capstone::engine::disasm_outcome;
use capstone::engine::option_outcome;
use capstone::engine::supports_result;
use capstone::engine::version_pair;

#[test]
fn successful_open_yields_a_handle() {
    let r = Engine::open_outcome(0, 42, None);
    let engine = r.unwrap_or_else(|_| panic!("open with status zero must succeed"));
    assert_eq!(engine.context(), 42);
}

#[test]
fn failed_open_yields_a_described_error() {
    let r = Engine::open_outcome(2, 0, Some(b"Invalid mode".to_vec()));
    match r {
        Ok(_) => panic!("open with a non-zero status must fail"),
        Err(e) => {
            assert_eq!(e.code, 2);
            let desc = e.desc.unwrap_or_else(|| panic!("a message was given"));
            assert!(!desc.is_empty());
        },
    }
}

#[test]
fn closing_returns_the_owned_context() {
    let engine = Engine::open_outcome(0, 7, None).ok().unwrap();
    assert_eq!(engine.into_close(), 7);
}

#[test]
fn option_set_outcomes_follow_the_status() {
    assert!(option_outcome(0, None).is_ok());
    let e = option_outcome(4, Some(b"Invalid option".to_vec())).err().unwrap();
    assert_eq!(e.code, 4);
    assert_eq!(e.desc, Some("Invalid option".to_string()));
}

#[test]
fn failed_disassembly_is_an_error_not_an_empty_success() {
    let event = DisasmEvent::Failed { errno: 6, message: Some(b"Invalid code size".to_vec()) };
    let e = disasm_outcome(event).err().unwrap();
    assert_eq!(e.code, 6);
    assert_eq!(e.desc, Some("Invalid code size".to_string()));
}

#[test]
fn successful_disassembly_yields_every_record() {
    let mut bytes = vec![0u8; 16];
    bytes[0] = 0x90;
    let record = RawInsn {
        addr: 0x1000,
        size: 1,
        bytes,
        mnemonic: b"nop".to_vec(),
        op_str: Vec::new(),
    };
    let out = disasm_outcome(DisasmEvent::Decoded(vec![record])).ok().unwrap();
    assert_eq!(out.len(), 1);
    assert_eq!(out[0].addr, 0x1000);
    assert_eq!(out[0].bytes, vec![0x90]);
    assert_eq!(out[0].mnemonic, "nop".to_string());
    assert_eq!(out[0].op_str, "".to_string());
}

#[test]
fn instructions_outlive_the_engine() {
    let engine = Engine::open_outcome(0, 42, None).ok().unwrap();
    let mut bytes = vec![0u8; 16];
    bytes[0] = 0x90;
    let record = RawInsn {
        addr: 0x2000,
        size: 1,
        bytes,
        mnemonic: b"nop".to_vec(),
        op_str: Vec::new(),
    };
    let out = disasm_outcome(DisasmEvent::Decoded(vec![record])).ok().unwrap();
    engine.into_close();
    assert_eq!(out[0].addr, 0x2000);
    assert_eq!(out[0].bytes, vec![0x90]);
    assert_eq!(out[0].mnemonic, "nop".to_string());
}

#[test]
fn version_pair_carries_both_integers() {
    assert_eq!(version_pair(4, 2), (4, 2));
    assert_eq!(version_pair(4, 2), version_pair(4, 2));
    assert_eq!(version_pair(0, 0), (0, 0));
}

#[test]
fn support_probe_is_a_function_of_the_answer() {
    assert!(supports_result(0));
    assert!(!supports_result(1));
    assert!(!supports_result(-1));
    assert_eq!(supports_result(0), supports_result(0));
    assert_eq!(supports_result(5), supports_result(5));
}
