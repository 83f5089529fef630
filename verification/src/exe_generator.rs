//! The part of building an executable from a script that is computation: the
//! form in which the script is embedded in the program that runs it.

use vstd::prelude::*;
use vstd::string::StringExecFns;

verus! {

/// The lowercase hexadecimal digit for a value below sixteen.
pub open spec fn hex_digit(value: int) -> char {
    if value == 0 {
        '0'
    } else if value == 1 {
        '1'
    } else if value == 2 {
        '2'
    } else if value == 3 {
        '3'
    } else if value == 4 {
        '4'
    } else if value == 5 {
        '5'
    } else if value == 6 {
        '6'
    } else if value == 7 {
        '7'
    } else if value == 8 {
        '8'
    } else if value == 9 {
        '9'
    } else if value == 10 {
        'a'
    } else if value == 11 {
        'b'
    } else if value == 12 {
        'c'
    } else if value == 13 {
        'd'
    } else if value == 14 {
        'e'
    } else {
        'f'
    }
}

/// The two digits that stand for one byte, high half first.
pub open spec fn hex_pair(byte: u8) -> Seq<char> {
    seq![hex_digit(byte as int / 16), hex_digit(byte as int % 16)]
}

/// The text that stands for a byte string: the digit pairs of its bytes, in
/// order. The text is pure ASCII whatever the bytes are, so a script can be
/// carried inside program text in this form without regard to its encoding.
pub open spec fn hex_text(bytes: Seq<u8>) -> Seq<char>
    decreases bytes.len(),
{
    if bytes.len() == 0 {
        Seq::empty()
    } else {
        hex_text(bytes.drop_last()) + hex_pair(bytes.last())
    }
}

/// The digit for a value below sixteen, as a text of one character.
fn digit_text(value: u8) -> (text: &'static str)
    requires
        value < 16,
    ensures
        text@ == seq![hex_digit(value as int)],
{
    proof {
        reveal_strlit("0");
        reveal_strlit("1");
        reveal_strlit("2");
        reveal_strlit("3");
        reveal_strlit("4");
        reveal_strlit("5");
        reveal_strlit("6");
        reveal_strlit("7");
        reveal_strlit("8");
        reveal_strlit("9");
        reveal_strlit("a");
        reveal_strlit("b");
        reveal_strlit("c");
        reveal_strlit("d");
        reveal_strlit("e");
        reveal_strlit("f");
    }
    let text = if value == 0 {
        "0"
    } else if value == 1 {
        "1"
    } else if value == 2 {
        "2"
    } else if value == 3 {
        "3"
    } else if value == 4 {
        "4"
    } else if value == 5 {
        "5"
    } else if value == 6 {
        "6"
    } else if value == 7 {
        "7"
    } else if value == 8 {
        "8"
    } else if value == 9 {
        "9"
    } else if value == 10 {
        "a"
    } else if value == 11 {
        "b"
    } else if value == 12 {
        "c"
    } else if value == 13 {
        "d"
    } else if value == 14 {
        "e"
    } else {
        "f"
    };
    assert(text@ =~= seq![hex_digit(value as int)]);
    text
}

/// Builds the program that runs a script. The generator holds no state.
#[derive(Clone, Copy, Debug)]
pub struct ExeGenerator;

impl ExeGenerator {
    /// A generator.
    pub fn new() -> (generator: Self) {
        ExeGenerator
    }

    /// Writes the content of a script as hexadecimal text, two lowercase
    /// digits to the byte.
    pub fn hex_content(&self, raw_content: &[u8]) -> (text: String)
        ensures
            text@ == hex_text(raw_content@),
    {
        let mut text = String::new();
        let mut i: usize = 0;
        while i < raw_content.len()
            invariant
                i <= raw_content.len(),
                text@ == hex_text(raw_content@.subrange(0, i as int)),
            decreases raw_content.len() - i,
        {
            let byte = raw_content[i];
            text.append(digit_text(byte / 16));
            text.append(digit_text(byte % 16));
            proof {
                let done = raw_content@.subrange(0, i + 1);
                assert(done.drop_last() == raw_content@.subrange(0, i as int));
                assert(done.last() == byte);
                assert(text@ == hex_text(done.drop_last()) + hex_pair(byte));
            }
            i += 1;
        }
        assert(raw_content@.subrange(0, i as int) == raw_content@);
        text
    }
}

} // verus!
