//! Building the text of diagnostic lines: hexadecimal digits and padding.

use vstd::prelude::*;
use vstd::string::StringExecFns;

verus! {

/// The hexadecimal digit for `n`, which is less than 16; the letters are
/// capitals if `upper` is set.
pub open spec fn hex_digit(n: u8, upper: bool) -> char {
    if n == 0 {
        '0'
    } else if n == 1 {
        '1'
    } else if n == 2 {
        '2'
    } else if n == 3 {
        '3'
    } else if n == 4 {
        '4'
    } else if n == 5 {
        '5'
    } else if n == 6 {
        '6'
    } else if n == 7 {
        '7'
    } else if n == 8 {
        '8'
    } else if n == 9 {
        '9'
    } else if n == 10 {
        if upper {
            'A'
        } else {
            'a'
        }
    } else if n == 11 {
        if upper {
            'B'
        } else {
            'b'
        }
    } else if n == 12 {
        if upper {
            'C'
        } else {
            'c'
        }
    } else if n == 13 {
        if upper {
            'D'
        } else {
            'd'
        }
    } else if n == 14 {
        if upper {
            'E'
        } else {
            'e'
        }
    } else {
        if upper {
            'F'
        } else {
            'f'
        }
    }
}

/// The two hexadecimal digits of a byte, the high one first.
pub open spec fn hex_byte(b: u8, upper: bool) -> Seq<char> {
    seq![hex_digit(b / 16, upper), hex_digit(b % 16, upper)]
}

/// `n` spaces.
pub open spec fn spaces(n: int) -> Seq<char> {
    Seq::new(
        if n > 0 {
            n as nat
        } else {
            0
        },
        |i: int| ' ',
    )
}

/// `text` with spaces before it, so that it has at least `width` characters.
pub open spec fn padded_left(text: Seq<char>, width: int) -> Seq<char> {
    spaces(width - text.len()) + text
}

/// `text` with spaces after it, so that it has at least `width` characters.
pub open spec fn padded_right(text: Seq<char>, width: int) -> Seq<char> {
    text + spaces(width - text.len())
}

/// The hexadecimal digit for `n` as a string.
fn hex_str(n: u8, upper: bool) -> (digit: &'static str)
    requires
        n < 16,
    ensures
        digit@ == seq![hex_digit(n, upper)],
{
    proof {
        reveal_strlit("0");
        reveal_strlit("1");
        reveal_strlit("2");
        reveal_strlit("3");
        reveal_strlit("4");
        reveal_strlit("5");
        reveal_strlit("6");
        reveal_strlit("7");
        reveal_strlit("8");
        reveal_strlit("9");
        reveal_strlit("A");
        reveal_strlit("B");
        reveal_strlit("C");
        reveal_strlit("D");
        reveal_strlit("E");
        reveal_strlit("F");
        reveal_strlit("a");
        reveal_strlit("b");
        reveal_strlit("c");
        reveal_strlit("d");
        reveal_strlit("e");
        reveal_strlit("f");
    }
    match n {
        0 => "0",
        1 => "1",
        2 => "2",
        3 => "3",
        4 => "4",
        5 => "5",
        6 => "6",
        7 => "7",
        8 => "8",
        9 => "9",
        10 => if upper {
            "A"
        } else {
            "a"
        },
        11 => if upper {
            "B"
        } else {
            "b"
        },
        12 => if upper {
            "C"
        } else {
            "c"
        },
        13 => if upper {
            "D"
        } else {
            "d"
        },
        14 => if upper {
            "E"
        } else {
            "e"
        },
        _ => if upper {
            "F"
        } else {
            "f"
        },
    }
}

/// Appends the two hexadecimal digits of `b` to `text`.
pub fn push_hex(text: &mut String, b: u8, upper: bool)
    ensures
        final(text)@ == old(text)@ + hex_byte(b, upper),
{
    text.append(hex_str(b / 16, upper));
    text.append(hex_str(b % 16, upper));
}

/// Appends `n` spaces to `text`.
pub fn push_spaces(text: &mut String, n: usize)
    ensures
        final(text)@ == old(text)@ + spaces(n as int),
{
    proof {
        reveal_strlit(" ");
    }
    let mut i: usize = 0;
    while i < n
        invariant
            i <= n,
            " "@ == seq![' '],
            text@ == old(text)@ + spaces(i as int),
        decreases n - i,
    {
        text.append(" ");
        i += 1;
    }
}

} // verus!
