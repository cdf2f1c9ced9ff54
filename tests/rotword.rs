use rotword::command::{dispatch, rot_word_command, CliError};
use rotword::hexcode::hex_to_bytes;
use rotword::rotate::rot_word;

fn padded(digits: &str) -> String {
    format!("0x{}{}", digits, "0".repeat(56))
}

fn args(items: &[&str]) -> Vec<String> {
    items.iter().map(|s| s.to_string()).collect()
}

#[test]
fn rot_word_moves_first_byte_to_end() {
    assert_eq!(rot_word(&[0x01, 0x02, 0x03, 0x04]), vec![0x02, 0x03, 0x04, 0x01]);
}

#[test]
fn rot_word_single_byte_gives_zero() {
    assert_eq!(rot_word(&[0xff]), vec![0x00]);
}

#[test]
fn rot_word_empty_stays_empty() {
    assert_eq!(rot_word(&[]), Vec::<u8>::new());
}

#[test]
fn rot_word_two_bytes_swaps() {
    assert_eq!(rot_word(&[0xaa, 0xbb]), vec![0xbb, 0xaa]);
}

#[test]
fn rot_word_four_times_is_identity() {
    let w = vec![0xde, 0xad, 0xbe, 0xef];
    let mut r = w.clone();
    for _ in 0..4 {
        r = rot_word(&r);
    }
    assert_eq!(r, w);
}

#[test]
fn hex_to_bytes_strips_prefix_and_mixes_case() {
    assert_eq!(hex_to_bytes("0x0a0B"), vec![0x0a, 0x0b]);
    assert_eq!(hex_to_bytes("ff10"), vec![0xff, 0x10]);
}

#[test]
fn hex_to_bytes_malformed_is_empty() {
    assert_eq!(hex_to_bytes("0xzz"), Vec::<u8>::new());
    assert_eq!(hex_to_bytes("0x123"), Vec::<u8>::new());
    assert_eq!(hex_to_bytes(""), Vec::<u8>::new());
}

#[test]
fn command_rotates_four_byte_word() {
    assert_eq!(rot_word_command("0x01020304"), padded("02030401"));
}

#[test]
fn command_single_byte_operand() {
    assert_eq!(rot_word_command("0xff"), padded("00"));
}

#[test]
fn command_invalid_hex_gives_bare_padding() {
    assert_eq!(rot_word_command("0xzzzzzzzz"), padded(""));
    assert_eq!(rot_word_command("0x123"), padded(""));
}

#[test]
fn command_reads_only_leading_word() {
    assert_eq!(rot_word_command("0x0102030405060708"), padded("02030401"));
}

#[test]
fn command_encodes_lower_case() {
    assert_eq!(rot_word_command("0xABCDEF01"), padded("cdef01ab"));
}

#[test]
fn command_without_prefix() {
    assert_eq!(rot_word_command("01020304"), padded("02030401"));
}

#[test]
fn output_has_fixed_width_for_a_word() {
    assert_eq!(rot_word_command("0x09c6a1f3").len(), 2 + 64);
}

#[test]
fn dispatch_rot_word() {
    match dispatch(&args(&["prog", "RotWord", "0x01020304"])) {
        Ok(line) => assert_eq!(line, padded("02030401")),
        Err(_) => panic!("expected a line"),
    }
}

#[test]
fn dispatch_missing_operand_is_usage_error() {
    match dispatch(&args(&["prog", "RotWord"])) {
        Err(e) => {
            assert!(matches!(e, CliError::Usage { .. }));
            assert_eq!(e.message(), "Usage: prog <function> <args>");
        }
        Ok(_) => panic!("expected a usage error"),
    }
}

#[test]
fn dispatch_without_arguments_is_usage_error() {
    assert!(matches!(dispatch(&args(&[])), Err(CliError::Usage { .. })));
}

#[test]
fn dispatch_unknown_command() {
    match dispatch(&args(&["prog", "Foo", "x"])) {
        Err(e) => {
            assert!(matches!(e, CliError::UnknownFunction { .. }));
            assert_eq!(e.message(), "Unknown function: Foo");
        }
        Ok(_) => panic!("expected an unknown-function error"),
    }
}
