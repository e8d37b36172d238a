//! The database builder and the search-path helpers.

use terminfo::capability as cap;
use terminfo::database::{entry_paths, search_dirs, NotFound};
use terminfo::{Database, Value};

#[test]
fn builder_round_trip() {
    let mut builder = Database::new();
    builder.name("foo");
    builder.description("foo terminal");
    builder.aliases(vec!["bar".to_string()]);
    builder.set(cap::MaxColors(16));
    builder.raw("cols", Value::Number(80));
    let db = builder.build().unwrap();
    assert_eq!("foo", db.name());
    assert_eq!("foo terminal", db.description());
    assert_eq!(vec!["bar"], db.aliases());
    assert_eq!(Some(cap::MaxColors(16)), db.get::<cap::MaxColors>());
    assert_eq!(Some(&Value::Number(80)), db.raw("columns"));
    assert_eq!(Some(&Value::Number(80)), db.raw("cols"));
}

#[test]
fn builder_without_name_fails() {
    let builder = Database::new();
    assert!(builder.build().is_err());
}

#[test]
fn first_write_wins() {
    let mut builder = Database::new();
    builder.name("t");
    builder.raw("cols", Value::Number(80));
    builder.raw("columns", Value::Number(132));
    let db = builder.build().unwrap();
    assert_eq!(Some(&Value::Number(80)), db.raw("columns"));
}

#[test]
fn unset_flag_capability_reads_false() {
    let mut builder = Database::new();
    builder.name("t");
    let db = builder.build().unwrap();
    assert_eq!(
        Some(cap::AutoLeftMargin(false)),
        db.get::<cap::AutoLeftMargin>()
    );
    assert_eq!(None, db.get::<cap::MaxColors>());
}

#[test]
fn string_capability_reads_bytes() {
    let mut builder = Database::new();
    builder.name("t");
    builder.set(cap::ClearScreen(b"\x1b[H\x1b[2J".to_vec()));
    let db = builder.build().unwrap();
    let clear = db.get::<cap::ClearScreen>().unwrap();
    assert_eq!(b"\x1b[H\x1b[2J", clear.as_bytes());
}

#[test]
fn search_dirs_with_terminfo_override() {
    let dirs = search_dirs(Some("/custom"), Some("/home/u"), None, None);
    assert_eq!("/custom", dirs[0]);
    assert!(dirs.contains(&"/usr/share/terminfo".to_string()));
    assert!(!dirs.contains(&"/home/u/.terminfo".to_string()));
}

#[test]
fn search_dirs_home_fallback_and_dirs_list() {
    let dirs = search_dirs(None, Some("/home/u"), Some("/a:/b"), Some("/pfx"));
    assert_eq!("/home/u/.terminfo", dirs[0]);
    assert_eq!("/a", dirs[1]);
    assert_eq!("/b", dirs[2]);
    assert_eq!("/pfx/etc/terminfo", dirs[3]);
    assert_eq!("/pfx/lib/terminfo", dirs[4]);
    assert_eq!("/pfx/share/terminfo", dirs[5]);
    assert_eq!("/etc/terminfo", dirs[6]);
    assert_eq!("/boot/system/data/terminfo", dirs[dirs.len() - 1]);
}

#[test]
fn entry_paths_standard_and_hex() {
    let (standard, hexed) = entry_paths("/usr/share/terminfo", "xterm");
    assert_eq!("/usr/share/terminfo/x/xterm", standard);
    assert_eq!("/usr/share/terminfo/78/xterm", hexed);
}

#[test]
fn not_found_keeps_name() {
    let e = NotFound::new("vt999".to_string());
    assert_eq!("vt999", e.name());
}
