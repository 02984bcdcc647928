use capstone::Insn;
use capstone::RawInsn;
use capstone::insn::materialize;

fn nop_record() -> RawInsn {
    let mut bytes = vec![0u8; 16];
    bytes[0] = 0x90;
    RawInsn {
        addr: 0x1000,
        size: 1,
        bytes,
        mnemonic: b"nop".to_vec(),
        op_str: Vec::new(),
    }
}

#[test]
fn one_nop_materializes_faithfully() {
    let out = materialize(&vec![nop_record()]);
    assert_eq!(out.len(), 1);
    assert_eq!(out[0].addr, 0x1000);
    assert_eq!(out[0].bytes, vec![0x90]);
    assert_eq!(out[0].mnemonic, "nop".to_string());
    assert_eq!(out[0].op_str, "".to_string());
}

#[test]
fn only_the_declared_bytes_are_taken() {
    let mut r = nop_record();
    r.size = 2;
    r.bytes[0] = 0x66;
    r.bytes[1] = 0x90;
    r.bytes[2] = 0xcc;
    let i = Insn::from_raw(&r);
    assert_eq!(i.bytes, vec![0x66, 0x90]);
}

#[test]
fn invalid_text_becomes_the_placeholder() {
    let mut r = nop_record();
    r.mnemonic = vec![0xff, 0x90];
    r.op_str = vec![0x80];
    let i = Insn::from_raw(&r);
    assert_eq!(i.mnemonic, "<invalid utf8>".to_string());
    assert_eq!(i.op_str, "<invalid utf8>".to_string());
}

#[test]
fn multi_byte_text_decodes() {
    let mut r = nop_record();
    r.op_str = vec![0xc3, 0xa9];
    let i = Insn::from_raw(&r);
    assert_eq!(i.op_str, "\u{e9}".to_string());
}

#[test]
fn order_is_preserved() {
    let mut second = nop_record();
    second.addr = 0x1001;
    second.mnemonic = b"ret".to_vec();
    second.bytes[0] = 0xc3;
    let out = materialize(&vec![nop_record(), second]);
    assert_eq!(out.len(), 2);
    assert_eq!(out[0].addr, 0x1000);
    assert_eq!(out[1].addr, 0x1001);
    assert_eq!(out[1].mnemonic, "ret".to_string());
}

#[test]
fn materializing_twice_yields_equal_sequences() {
    let raw = vec![nop_record(), nop_record()];
    let first = materialize(&raw);
    let second = materialize(&raw);
    assert_eq!(first, second);
}

#[test]
fn instructions_outlive_their_raw_records() {
    let raw = vec![nop_record()];
    let out = materialize(&raw);
    drop(raw);
    assert_eq!(out[0].addr, 0x1000);
    assert_eq!(out[0].bytes, vec![0x90]);
    assert_eq!(out[0].mnemonic, "nop".to_string());
}
