use vstd::prelude::*;

use crate::hexcode::{encode_hex, hex_encoded, hex_to_bytes, is_hex_text, lenient_decoded, without_hex_prefix};
use crate::rotate::{rot_word, rotated};

verus! {

/// How many characters of the operand are read: "0x" and eight digits.
pub const OPERAND_CHARS: usize = 10;

/// How many zero digits pad the printed word.
pub const PADDING_ZEROS: usize = 56;

/// Why a command line was refused.
pub enum CliError {
    /// Fewer than a command name and one operand; holds the program name.
    Usage { program: String },
    /// A command other than "RotWord"; holds its name.
    UnknownFunction { name: String },
}

/// The first `OPERAND_CHARS` characters of `s`, or all of it where shorter.
pub open spec fn leading_chars(s: Seq<char>) -> Seq<char> {
    if s.len() > OPERAND_CHARS {
        s.subrange(0, OPERAND_CHARS as int)
    } else {
        s
    }
}

/// `PADDING_ZEROS` zero digits.
pub open spec fn zero_padding() -> Seq<char> {
    Seq::new(PADDING_ZEROS as nat, |i: int| '0')
}

/// The line printed for the operand `word`: "0x", the hex of the rotated
/// leading word, then the zero padding.
pub open spec fn rot_word_line(word: Seq<char>) -> Seq<char> {
    seq!['0', 'x'] + hex_encoded(rotated(lenient_decoded(leading_chars(word)))) + zero_padding()
}

/// An operand whose leading word is not well-formed hex (after an optional
/// "0x") decodes to no bytes, and its line is "0x" and the zero padding alone.
pub proof fn lemma_malformed_operand_line(word: Seq<char>)
    requires
        !is_hex_text(without_hex_prefix(leading_chars(word))),
    ensures
        lenient_decoded(leading_chars(word)) == Seq::<u8>::empty(),
        rot_word_line(word) == seq!['0', 'x'] + zero_padding(),
{
    assert(hex_encoded(Seq::<u8>::empty()) == Seq::<char>::empty());
    assert(seq!['0', 'x'] + Seq::<char>::empty() =~= seq!['0', 'x']);
}

/// The text that a refusal reports.
pub open spec fn error_text(e: CliError) -> Seq<char> {
    match e {
        CliError::Usage { program } => "Usage: "@ + program@ + " <function> <args>"@,
        CliError::UnknownFunction { name } => "Unknown function: "@ + name@,
    }
}

impl CliError {
    /// The diagnostic line for this refusal.
    pub fn message(&self) -> (r: String)
        ensures
            r@ == error_text(*self),
    {
        match self {
            CliError::Usage { program } => {
                let mut r = String::from_str("Usage: ");
                r.append(program.as_str());
                r.append(" <function> <args>");
                r
            },
            CliError::UnknownFunction { name } => {
                let mut r = String::from_str("Unknown function: ");
                r.append(name.as_str());
                r
            },
        }
    }
}

/// Runs "RotWord" on its operand: reads the leading word of `word`, rotates
/// it and renders it as the padded hex line.
pub fn rot_word_command(word: &str) -> (r: String)
    ensures
        r@ == rot_word_line(word@),
{
    let n = word.unicode_len();
    let head = if n > OPERAND_CHARS {
        word.substring_char(0, OPERAND_CHARS)
    } else {
        word
    };
    let bytes = hex_to_bytes(head);
    let rotated_bytes = rot_word(bytes.as_slice());
    let digits = encode_hex(rotated_bytes.as_slice());
    let mut r = String::from_str("0x");
    r.append(digits.as_str());
    let zeros = "00000000000000000000000000000000000000000000000000000000";
    proof {
        reveal_strlit("0x");
        reveal_strlit("00000000000000000000000000000000000000000000000000000000");
        assert(zeros@ =~= zero_padding());
        assert(seq!['0', 'x'] =~= "0x"@);
    }
    r.append(zeros);
    r
}

/// Decides what a command line `args` (program name first) asks for: the
/// line to print, or why it is refused.
pub fn dispatch(args: &Vec<String>) -> (r: Result<String, CliError>)
    ensures
        args@.len() < 3 <==> r matches Err(CliError::Usage { .. }),
        r matches Err(CliError::Usage { program }) ==> program@ == (if args@.len() == 0 {
            Seq::<char>::empty()
        } else {
            args@[0]@
        }),
        args@.len() >= 3 && args@[1]@ == "RotWord"@ ==> (r matches Ok(line) && line@
            == rot_word_line(args@[2]@)),
        args@.len() >= 3 && args@[1]@ != "RotWord"@ ==> (r matches Err(
            CliError::UnknownFunction { name },
        ) && name@ == args@[1]@),
{
    if args.len() < 3 {
        let program = if args.len() == 0 {
            String::new()
        } else {
            args[0].clone()
        };
        return Err(CliError::Usage { program });
    }
    let command = String::from_str("RotWord");
    if args[1] == command {
        Ok(rot_word_command(args[2].as_str()))
    } else {
        Err(CliError::UnknownFunction { name: args[1].clone() })
    }
}

} // verus!
