//! Wide-character text conversion and path/name derivation.

use winproc::wide::{decode_wide_prefix, encode_wide_name, wide_buffer_to_string, wide_prefix_len};
use winproc::pathname::{file_name_of, str_eq};
use winproc::Error;

#[test]
fn decodes_buffer_with_terminator() {
    // "Hi" then a terminator, then trailing garbage the conversion must ignore.
    let buf: Vec<u16> = vec![72, 105, 0, 120, 121];
    assert_eq!(wide_prefix_len(&buf), 2);
    assert_eq!(wide_buffer_to_string(&buf), "Hi");
}

#[test]
fn decodes_buffer_without_terminator_whole() {
    let buf: Vec<u16> = vec![65, 66, 67];
    assert_eq!(wide_prefix_len(&buf), 3);
    assert_eq!(wide_buffer_to_string(&buf), "ABC");
}

#[test]
fn decodes_immediate_terminator_as_empty() {
    let buf: Vec<u16> = vec![0, 65, 66];
    assert_eq!(wide_prefix_len(&buf), 0);
    assert_eq!(wide_buffer_to_string(&buf), "");
}

#[test]
fn decodes_empty_buffer_as_empty() {
    let buf: Vec<u16> = vec![];
    assert_eq!(wide_prefix_len(&buf), 0);
    assert_eq!(wide_buffer_to_string(&buf), "");
}

#[test]
fn decodes_unpaired_surrogate_lossily() {
    // 0xD800 is an unpaired high surrogate: replaced, never a failure.
    let buf: Vec<u16> = vec![65, 0xD800, 66];
    let s = wide_buffer_to_string(&buf);
    assert_eq!(s.chars().count(), 3);
    assert_eq!(s.chars().next(), Some('A'));
    assert_eq!(s.chars().last(), Some('B'));
}

#[test]
fn decodes_exact_prefix() {
    let buf: Vec<u16> = vec![97, 98, 99, 100];
    assert_eq!(decode_wide_prefix(&buf, 2), "ab");
    assert_eq!(decode_wide_prefix(&buf, 0), "");
    assert_eq!(decode_wide_prefix(&buf, 4), "abcd");
}

#[test]
fn encodes_plain_name() {
    let units = encode_wide_name("kernel32.dll").unwrap();
    let expected: Vec<u16> = "kernel32.dll".encode_utf16().collect();
    assert_eq!(units, expected);
}

#[test]
fn rejects_embedded_nul_with_position() {
    let err = encode_wide_name("bad\0name").unwrap_err();
    match err {
        Error::NulErrorW { pos, data } => {
            assert_eq!(pos, 3);
            assert_eq!(data[3], 0);
            let expected: Vec<u16> = "bad\0name".encode_utf16().collect();
            assert_eq!(data, expected);
        }
        other => panic!("unexpected error kind: {:?}", other),
    }
}

#[test]
fn derives_file_name_from_backslash_path() {
    let name = file_name_of("C:\\Windows\\System32\\notepad.exe");
    assert_eq!(name.as_deref(), Some("notepad.exe"));
}

#[test]
fn derives_file_name_from_forward_slash_path() {
    let name = file_name_of("C:/tools/app.exe");
    assert_eq!(name.as_deref(), Some("app.exe"));
}

#[test]
fn bare_name_is_its_own_file_name() {
    assert_eq!(file_name_of("app.exe").as_deref(), Some("app.exe"));
}

#[test]
fn path_ending_in_separator_has_no_file_name() {
    assert_eq!(file_name_of("C:\\Windows\\"), None);
    assert_eq!(file_name_of(""), None);
}

#[test]
fn compares_strings_exactly() {
    assert!(str_eq("notepad.exe", "notepad.exe"));
    assert!(!str_eq("notepad.exe", "Notepad.exe"));
    assert!(!str_eq("notepad.exe", "notepad.ex"));
    assert!(!str_eq("", "a"));
    assert!(str_eq("", ""));
}
