use picotroller::fmtbuf::{FmtBuf, CAPACITY};

#[test]
fn new_buffer_is_empty() {
    let buf = FmtBuf::new();
    assert_eq!(buf.bytes(), b"");
    assert_eq!(buf.str(), "");
    assert_eq!(buf.checked_str(), Some(""));
}

#[test]
fn write_str_appends() {
    let mut buf = FmtBuf::new();
    assert!(buf.write_str("lx=").is_ok());
    assert!(buf.write_str("-1").is_ok());
    assert_eq!(buf.str(), "lx=-1");
    assert_eq!(buf.bytes(), b"lx=-1");
}

#[test]
fn write_str_cuts_at_capacity() {
    assert_eq!(CAPACITY, 80);
    let mut buf = FmtBuf::new();
    let long = "0123456789".repeat(9);
    assert!(buf.write_str(&long).is_ok());
    assert_eq!(buf.bytes().len(), 80);
    assert_eq!(buf.bytes(), &long.as_bytes()[..80]);
    assert!(buf.write_str("more").is_ok());
    assert_eq!(buf.bytes(), &long.as_bytes()[..80]);
}

#[test]
fn write_str_fills_the_rest_exactly() {
    let mut buf = FmtBuf::new();
    let head = "a".repeat(78);
    assert!(buf.write_str(&head).is_ok());
    assert!(buf.write_str("xyz").is_ok());
    let mut expected = head.clone();
    expected.push_str("xy");
    assert_eq!(buf.str(), expected);
}

#[test]
fn a_cut_inside_a_character_is_no_text() {
    let mut buf = FmtBuf::new();
    let head = "a".repeat(79);
    assert!(buf.write_str(&head).is_ok());
    assert!(buf.write_str("\u{e9}").is_ok());
    assert_eq!(buf.bytes().len(), 80);
    assert_eq!(buf.bytes()[79], 0xC3);
    assert_eq!(buf.checked_str(), None);
}

#[test]
fn whole_characters_stay_text() {
    let mut buf = FmtBuf::new();
    assert!(buf.write_str("h\u{e9}llo \u{2713}").is_ok());
    assert_eq!(buf.checked_str(), Some("h\u{e9}llo \u{2713}"));
    assert_eq!(buf.str(), "h\u{e9}llo \u{2713}");
    assert_eq!(buf.bytes(), "h\u{e9}llo \u{2713}".as_bytes());
}

#[test]
fn reset_forgets_but_keeps_storage() {
    let mut buf = FmtBuf::new();
    assert!(buf.write_str("status").is_ok());
    buf.reset();
    assert_eq!(buf.bytes(), b"");
    assert_eq!(buf.str(), "");
    assert_eq!(&buf.buffer()[..6], b"status");
    assert!(buf.write_str("ok").is_ok());
    assert_eq!(buf.str(), "ok");
    assert_eq!(&buf.buffer()[..6], b"okatus");
}

#[test]
fn buffer_is_the_whole_storage() {
    let mut buf = FmtBuf::new();
    assert_eq!(buf.buffer().len(), 80);
    assert!(buf.buffer().iter().all(|byte| *byte == 0));
    buf.buffer()[0] = b'Z';
    assert_eq!(buf.bytes(), b"");
    assert!(buf.write_str("a").is_ok());
    assert_eq!(buf.bytes(), b"a");
    buf.buffer()[0] = b'Q';
    assert_eq!(buf.bytes(), b"Q");
    assert_eq!(buf.str(), "Q");
}

#[test]
fn empty_text_writes_nothing() {
    let mut buf = FmtBuf::new();
    assert!(buf.write_str("").is_ok());
    assert_eq!(buf.bytes(), b"");
    assert!(buf.write_str("x").is_ok());
    assert!(buf.write_str("").is_ok());
    assert_eq!(buf.bytes(), b"x");
}
