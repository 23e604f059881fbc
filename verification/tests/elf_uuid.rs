use optee_sdk::cargo_optee::elf_uuid::{
    parse_optee_elf, read_plugin_uuid_from_bytes, read_ta_uuid_from_bytes, tee_uuid, TeeUuid,
    UuidError,
};

const UUID_LE: [u8; 16] = [
    0x78, 0x56, 0x34, 0x12, 0x34, 0x12, 0x78, 0x56, 0x00, 0x01, 0x02, 0x03, 0x04, 0x05, 0x06, 0x07,
];
const UUID_TEXT: &str = "12345678-1234-5678-0001-020304050607";

const STT_OBJECT: u8 = 1;
const STT_FUNC: u8 = 2;
const STB_GLOBAL: u8 = 1;
const STB_LOCAL: u8 = 0;

struct Layout {
    e_type: u16,
    machine: u16,
    name: &'static str,
    info: u8,
    size: u64,
    value: u64,
    extra_memsz: u64,
    payload: Vec<u8>,
}

fn layout(name: &'static str, size: u64, payload: Vec<u8>) -> Layout {
    Layout {
        e_type: 3,
        machine: 183,
        name,
        info: (STB_GLOBAL << 4) | STT_OBJECT,
        size,
        value: 0x170,
        extra_memsz: 0,
        payload,
    }
}

fn put16(b: &mut Vec<u8>, at: usize, v: u16) {
    b[at..at + 2].copy_from_slice(&v.to_le_bytes());
}
fn put32(b: &mut Vec<u8>, at: usize, v: u32) {
    b[at..at + 4].copy_from_slice(&v.to_le_bytes());
}
fn put64(b: &mut Vec<u8>, at: usize, v: u64) {
    b[at..at + 8].copy_from_slice(&v.to_le_bytes());
}

/// A little-endian ELF64 image with one loadable segment mapping the file at
/// address 0, a dynamic section, and one dynamic symbol at 0x170 followed by
/// the payload.
fn build_elf(l: &Layout) -> Vec<u8> {
    let len = 0x170 + l.payload.len();
    let mut b = vec![0u8; len];
    b[0..4].copy_from_slice(&[0x7f, b'E', b'L', b'F']);
    b[4] = 2;
    b[5] = 1;
    b[6] = 1;
    put16(&mut b, 16, l.e_type);
    put16(&mut b, 18, l.machine);
    put32(&mut b, 20, 1);
    put64(&mut b, 32, 64);
    put16(&mut b, 52, 64);
    put16(&mut b, 54, 56);
    put16(&mut b, 56, 2);
    put16(&mut b, 58, 64);
    // PT_LOAD
    let ph = 64;
    put32(&mut b, ph, 1);
    put32(&mut b, ph + 4, 5);
    put64(&mut b, ph + 8, 0);
    put64(&mut b, ph + 16, 0);
    put64(&mut b, ph + 24, 0);
    put64(&mut b, ph + 32, len as u64);
    put64(&mut b, ph + 40, len as u64 + l.extra_memsz);
    put64(&mut b, ph + 48, 0x1000);
    // PT_DYNAMIC
    let ph = 64 + 56;
    put32(&mut b, ph, 2);
    put32(&mut b, ph + 4, 6);
    put64(&mut b, ph + 8, 0xb0);
    put64(&mut b, ph + 16, 0xb0);
    put64(&mut b, ph + 24, 0xb0);
    put64(&mut b, ph + 32, 6 * 16);
    put64(&mut b, ph + 40, 6 * 16);
    put64(&mut b, ph + 48, 8);
    // dynamic entries: DT_HASH, DT_STRTAB, DT_SYMTAB, DT_STRSZ, DT_SYMENT, DT_NULL
    let name_len = l.name.len() as u64 + 2;
    let dyns: [(u64, u64); 6] = [(4, 0x110), (5, 0x158), (6, 0x128), (10, name_len), (11, 24), (0, 0)];
    for (i, (tag, val)) in dyns.iter().enumerate() {
        put64(&mut b, 0xb0 + i * 16, *tag);
        put64(&mut b, 0xb0 + i * 16 + 8, *val);
    }
    // hash table: nbucket, nchain, bucket, chain[2]
    put32(&mut b, 0x110, 1);
    put32(&mut b, 0x114, 2);
    put32(&mut b, 0x118, 1);
    // symbol 1
    let s = 0x128 + 24;
    put32(&mut b, s, 1);
    b[s + 4] = l.info;
    put16(&mut b, s + 6, 1);
    put64(&mut b, s + 8, l.value);
    put64(&mut b, s + 16, l.size);
    // dynamic string table
    b[0x159..0x159 + l.name.len()].copy_from_slice(l.name.as_bytes());
    b[0x170..].copy_from_slice(&l.payload);
    b
}

fn ta_elf() -> Layout {
    layout("ta_head", 16, UUID_LE.to_vec())
}

#[test]
fn ta_uuid_is_read_from_ta_head() {
    let data = build_elf(&ta_elf());
    assert!(parse_optee_elf(&data).is_ok());
    let uuid = read_ta_uuid_from_bytes(&data).unwrap();
    assert_eq!(uuid.to_text(), UUID_TEXT);
}

#[test]
fn plugin_uuid_follows_the_name_pointer() {
    let mut payload = vec![0xaa; 8];
    payload.extend_from_slice(&UUID_LE);
    let data = build_elf(&layout("plugin_method", 24, payload));
    let uuid = read_plugin_uuid_from_bytes(&data).unwrap();
    assert_eq!(uuid.to_text(), UUID_TEXT);
    // The TA symbol is absent from a plugin.
    assert!(matches!(read_ta_uuid_from_bytes(&data), Err(UuidError::SymbolNotFound(_))));
}

#[test]
fn missing_symbol_is_reported() {
    let data = build_elf(&layout("other", 16, UUID_LE.to_vec()));
    match read_ta_uuid_from_bytes(&data) {
        Err(UuidError::SymbolNotFound(name)) => assert_eq!(name, "ta_head"),
        other => panic!("unexpected {:?}", other),
    }
}

#[test]
fn local_symbol_is_not_exported() {
    let mut l = ta_elf();
    l.info = (STB_LOCAL << 4) | STT_OBJECT;
    assert!(matches!(read_ta_uuid_from_bytes(&build_elf(&l)), Err(UuidError::SymbolNotFound(_))));
}

#[test]
fn function_symbol_is_rejected() {
    let mut l = ta_elf();
    l.info = (STB_GLOBAL << 4) | STT_FUNC;
    assert!(matches!(
        read_ta_uuid_from_bytes(&build_elf(&l)),
        Err(UuidError::NotAnObject { symbol_type: 2, .. })
    ));
}

#[test]
fn undersized_symbol_is_rejected() {
    let data = build_elf(&layout("ta_head", 8, UUID_LE.to_vec()));
    assert!(matches!(
        read_ta_uuid_from_bytes(&data),
        Err(UuidError::TooSmall { size: 8, min_size: 16, .. })
    ));
    let data = build_elf(&layout("plugin_method", 16, vec![0; 24]));
    assert!(matches!(
        read_plugin_uuid_from_bytes(&data),
        Err(UuidError::TooSmall { size: 16, min_size: 24, .. })
    ));
}

#[test]
fn unmapped_and_zero_filled_uuids_are_rejected() {
    let mut l = ta_elf();
    l.value = 0x10000;
    assert!(matches!(read_ta_uuid_from_bytes(&build_elf(&l)), Err(UuidError::NotMapped(0x10000))));
    let mut l = ta_elf();
    l.value = 0x180;
    l.extra_memsz = 0x100;
    assert!(matches!(read_ta_uuid_from_bytes(&build_elf(&l)), Err(UuidError::InBss(0x180))));
}

#[test]
fn header_checks() {
    let mut l = ta_elf();
    l.e_type = 2;
    assert!(matches!(read_ta_uuid_from_bytes(&build_elf(&l)), Err(UuidError::UnsupportedType(2))));
    let mut l = ta_elf();
    l.machine = 62;
    assert!(matches!(
        read_ta_uuid_from_bytes(&build_elf(&l)),
        Err(UuidError::UnsupportedTarget { machine: 62, class: 2, is_64: true })
    ));
    assert!(matches!(read_ta_uuid_from_bytes(b"not an elf"), Err(UuidError::NotElf)));
    assert!(matches!(read_plugin_uuid_from_bytes(&[0x7f, b'E']), Err(UuidError::NotElf)));
    assert!(matches!(read_ta_uuid_from_bytes(&[0x7f, b'E', b'L', b'F', 2, 1]), Err(UuidError::Malformed)));
}

#[test]
fn uuid_byte_order_and_text() {
    let uuid = tee_uuid(&UUID_LE).unwrap();
    assert_eq!(
        uuid.bytes,
        [0x12, 0x34, 0x56, 0x78, 0x12, 0x34, 0x56, 0x78, 0x00, 0x01, 0x02, 0x03, 0x04, 0x05, 0x06, 0x07]
    );
    assert_eq!(uuid.to_text(), UUID_TEXT);
    assert!(matches!(tee_uuid(&UUID_LE[..15]), Err(UuidError::BadUuidLength(15))));
    let u = TeeUuid { bytes: [0xab; 16] };
    assert_eq!(u.to_text(), "abababab-abab-abab-abab-abababababab");
}
