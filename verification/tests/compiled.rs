//! Decoding of compiled entries, over buffers assembled in memory.

use terminfo::capability as cap;
use terminfo::{Capability, Database, Value};

fn push_i16(out: &mut Vec<u8>, v: i16) {
    out.extend_from_slice(&v.to_le_bytes());
}

fn push_i32(out: &mut Vec<u8>, v: i32) {
    out.extend_from_slice(&v.to_le_bytes());
}

/// A legacy-format entry shaped like the st-256color terminal's: two
/// boolean slots, one number slot, two string slots, no extended section.
fn st256_buffer() -> Vec<u8> {
    let names = b"st-256color|stterm-256color|simpleterm with 256 colors";
    let table = b"\x1b[Z\x00";
    let mut out = Vec::new();
    out.push(0x1a);
    out.push(0x01);
    let name_size = (names.len() + 1) as i16;
    push_i16(&mut out, name_size);
    push_i16(&mut out, 2); // boolean count
    push_i16(&mut out, 1); // number count
    push_i16(&mut out, 2); // string count
    push_i16(&mut out, table.len() as i16);
    out.extend_from_slice(names);
    out.push(0);
    out.push(0); // auto_left_margin absent
    out.push(1); // auto_right_margin set
    if (name_size as usize + 2) % 2 == 1 {
        out.push(0);
    }
    push_i16(&mut out, 80); // columns
    push_i16(&mut out, 0); // back_tab at offset 0
    push_i16(&mut out, -1); // bell absent
    out.extend_from_slice(table);
    out
}

/// A legacy-format entry with an extended section carrying `Ts`, `AX` and
/// `Se`.
fn cancer256_buffer() -> Vec<u8> {
    let names = b"cancer-256color|terminal cancer with 256 colors";
    let mut out = Vec::new();
    out.push(0x1a);
    out.push(0x01);
    let name_size = (names.len() + 1) as i16;
    push_i16(&mut out, name_size);
    push_i16(&mut out, 0); // boolean count
    push_i16(&mut out, 0); // number count
    push_i16(&mut out, 0); // string count
    push_i16(&mut out, 0); // table size
    out.extend_from_slice(names);
    out.push(0);
    if (name_size as usize) % 2 == 1 {
        out.push(0);
    }
    // Extended section: two flags, one string, and their names.
    let ext_table = b"\x1b[2 q\x00Ts\x00AX\x00Se\x00";
    push_i16(&mut out, 2); // extended boolean count
    push_i16(&mut out, 0); // extended number count
    push_i16(&mut out, 1); // extended string count
    push_i16(&mut out, 3); // extended offset count
    push_i16(&mut out, ext_table.len() as i16);
    out.push(1); // Ts
    out.push(1); // AX
    push_i16(&mut out, 0); // Se value at offset 0
    push_i16(&mut out, 6); // name offsets (read, not used by order)
    push_i16(&mut out, 9);
    push_i16(&mut out, 12);
    out.extend_from_slice(ext_table);
    out
}

/// A 32-bit-format entry shaped like the xterm-256color terminal's.
fn xterm256_buffer() -> Vec<u8> {
    let names = b"xterm-256color|xterm with 256 colors";
    let mut out = Vec::new();
    out.push(0x1e);
    out.push(0x02);
    let name_size = (names.len() + 1) as i16;
    push_i16(&mut out, name_size);
    push_i16(&mut out, 1); // boolean count
    push_i16(&mut out, 2); // number count
    push_i16(&mut out, 0); // string count
    push_i16(&mut out, 0); // table size
    out.extend_from_slice(names);
    out.push(0);
    out.push(0); // auto_left_margin absent
    if (name_size as usize + 1) % 2 == 1 {
        out.push(0);
    }
    push_i32(&mut out, 80); // columns
    push_i32(&mut out, 65536); // init_tabs, a value needing 32 bits
    out
}

#[test]
fn name() {
    let db = Database::from_buffer(&cancer256_buffer()).unwrap();
    assert_eq!("cancer-256color", db.name());
}

#[test]
fn aliases() {
    let db = Database::from_buffer(&st256_buffer()).unwrap();
    assert_eq!(vec!["stterm-256color"], db.aliases());
}

#[test]
fn description() {
    let db = Database::from_buffer(&cancer256_buffer()).unwrap();
    assert_eq!("terminal cancer with 256 colors", db.description());
}

#[test]
fn standard() {
    let db = Database::from_buffer(&st256_buffer()).unwrap();
    assert_eq!(Some(cap::Columns(80)), db.get::<cap::Columns>());
    assert_eq!(
        Some(cap::AutoRightMargin(true)),
        db.get::<cap::AutoRightMargin>()
    );
    assert_eq!(
        Some(cap::AutoLeftMargin(false)),
        db.get::<cap::AutoLeftMargin>()
    );
}

#[test]
fn extended() {
    let db = Database::from_buffer(&cancer256_buffer()).unwrap();
    assert_eq!(Some(&Value::True), db.raw("Ts"));
    assert_eq!(Some(&Value::True), db.raw("AX"));
    assert_eq!(Some(&Value::String(b"\x1b[2 q".to_vec())), db.raw("Se"));
}

#[test]
fn bigger_numbers() {
    let db = Database::from_buffer(&xterm256_buffer()).unwrap();
    assert_eq!("xterm-256color", db.name());
    assert_eq!(Some(cap::Columns(80)), db.get::<cap::Columns>());
    assert_eq!(Some(&Value::Number(65536)), db.raw("init_tabs"));
}

#[test]
fn standard_string_value() {
    let db = Database::from_buffer(&st256_buffer()).unwrap();
    // back_tab points at the table's start; its bytes end before the NUL.
    assert_eq!(Some(&Value::String(b"\x1b[Z".to_vec())), db.raw("back_tab"));
    assert_eq!(Some(&Value::String(b"\x1b[Z".to_vec())), db.raw("cbt"));
    // bell's slot is absent.
    assert_eq!(None, db.raw("bell"));
}

#[test]
fn short_names_resolve() {
    let db = Database::from_buffer(&st256_buffer()).unwrap();
    assert_eq!(Some(&Value::Number(80)), db.raw("cols"));
    assert_eq!(Some(&Value::Number(80)), db.raw("columns"));
    assert_eq!(Some(&Value::True), db.raw("am"));
    assert_eq!(None, db.raw("bw"));
}

#[test]
fn absent_number_slots_never_appear() {
    // A number slot holding -1 (absent) or -2 (canceled) leaves no entry.
    let names = b"t|t";
    let mut buf = Vec::new();
    buf.push(0x1a);
    buf.push(0x01);
    push_i16(&mut buf, (names.len() + 1) as i16);
    push_i16(&mut buf, 0);
    push_i16(&mut buf, 3);
    push_i16(&mut buf, 0);
    push_i16(&mut buf, 0);
    buf.extend_from_slice(names);
    buf.push(0);
    if (names.len() + 1) % 2 == 1 {
        buf.push(0);
    }
    push_i16(&mut buf, -1); // columns canceled out
    push_i16(&mut buf, -2); // init_tabs canceled
    push_i16(&mut buf, 24); // lines present
    let db = Database::from_buffer(&buf).unwrap();
    assert_eq!(None, db.raw("columns"));
    assert_eq!(None, db.raw("init_tabs"));
    assert_eq!(Some(&Value::Number(24)), db.raw("lines"));
}

#[test]
fn bad_magic_is_rejected() {
    assert!(Database::from_buffer(&[0x42, 0x01, 0, 0, 0, 0, 0, 0, 0, 0, 0, 0]).is_err());
    assert!(Database::from_buffer(&[]).is_err());
}

#[test]
fn short_reads_are_rejected() {
    let mut buf = st256_buffer();
    buf.truncate(buf.len() - 1);
    assert!(Database::from_buffer(&buf).is_err());
}

#[test]
fn out_of_range_offset_is_rejected() {
    let names = b"t|t";
    let mut buf = Vec::new();
    buf.push(0x1a);
    buf.push(0x01);
    push_i16(&mut buf, (names.len() + 1) as i16);
    push_i16(&mut buf, 0);
    push_i16(&mut buf, 0);
    push_i16(&mut buf, 1);
    push_i16(&mut buf, 2);
    buf.extend_from_slice(names);
    buf.push(0);
    if (names.len() + 1) % 2 == 1 {
        buf.push(0);
    }
    push_i16(&mut buf, 9); // back_tab offset beyond the 2-byte table
    buf.push(0);
    buf.push(0);
    assert!(Database::from_buffer(&buf).is_err());
}

#[test]
fn counts_below_minus_one_are_rejected() {
    let mut buf = Vec::new();
    buf.push(0x1a);
    buf.push(0x01);
    push_i16(&mut buf, -2); // a count below the absent marker
    push_i16(&mut buf, 0);
    push_i16(&mut buf, 0);
    push_i16(&mut buf, 0);
    push_i16(&mut buf, 0);
    assert!(Database::from_buffer(&buf).is_err());
}

#[test]
fn number_size_reads_magic() {
    assert_eq!(16, terminfo::parser::compiled::number_size(&[0x1a, 0x01]));
    assert_eq!(32, terminfo::parser::compiled::number_size(&[0x1e, 0x02]));
}

#[test]
fn parse_yields_raw_sections() {
    let raw = terminfo::parser::compiled::parse(&st256_buffer()).unwrap();
    let db = raw.into_database().unwrap();
    assert_eq!("st-256color", db.name());
}

#[test]
fn number_reads_decimal() {
    assert_eq!(123, terminfo::parser::util::number(b"123"));
    assert_eq!(0, terminfo::parser::util::number(b""));
    assert_eq!(i32::MAX, terminfo::parser::util::number(b"99999999999"));
}
