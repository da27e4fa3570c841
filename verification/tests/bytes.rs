use healthz::bytes::{all_ascii, append, bytes_of, equal, find};
use healthz::limits::{CR, SP};

#[test]
fn find_gives_the_first_stop_or_the_length() {
    assert_eq!(find(b"", SP), 0);
    assert_eq!(find(b"GET", SP), 3);
    assert_eq!(find(b"GET /x HTTP/1.1", SP), 3);
    assert_eq!(find(b" GET", SP), 0);
    assert_eq!(find(b"a  b", SP), 1);
    assert_eq!(find(b"line\r\nnext\r\n", CR), 4);
    assert_eq!(find(b"line\n", CR), 5);
}

#[test]
fn equal_compares_bytes() {
    assert!(equal(b"", b""));
    assert!(equal(b"GET", b"GET"));
    assert!(!equal(b"GET", b"GEt"));
    assert!(!equal(b"GET", b"GETS"));
    assert!(!equal(b"GETS", b"GET"));
    assert!(!equal(b"", b"G"));
}

#[test]
fn all_ascii_accepts_bytes_below_0x80() {
    assert!(all_ascii(b""));
    assert!(all_ascii(b"GET /healthz HTTP/1.1\r\n\x00\x7f"));
    assert!(!all_ascii(b"\x80"));
    assert!(!all_ascii(b"GET /\xff"));
    assert!(!all_ascii(b"\xc3\xa9 GET"));
}

#[test]
fn bytes_of_gives_the_bytes_of_the_text() {
    assert_eq!(bytes_of("HTTP/1.1"), b"HTTP/1.1");
    assert_eq!(bytes_of(""), b"");
    assert_eq!(bytes_of("Connection: close"), b"Connection: close");
}

#[test]
fn append_puts_bytes_at_the_end() {
    let mut out: Vec<u8> = b"ab".to_vec();
    append(&mut out, b"cd");
    assert_eq!(out, b"abcd");
    append(&mut out, b"");
    assert_eq!(out, b"abcd");
}
