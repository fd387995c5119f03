//! The operands of an instruction, as a disassembly shows them.

use crate::text::{hex_byte, push_hex};
use vstd::prelude::*;
use vstd::string::StringExecFns;

verus! {

/// An operand of an instruction.
#[derive(Clone, Copy, Debug, PartialEq, Eq, Structural)]
pub enum Argument {
    /// An address, given as its low and its high byte.
    Addr(u8, u8),
    /// An 8-bit immediate.
    D8(u8),
    /// A 16-bit immediate, given as its low and its high byte.
    D16(u8, u8),
    // Registers
    PSW,
    M,
    A,
    B,
    C,
    D,
    E,
    H,
    L,
    SP,
}

/// How an operand is written: an address as `$` and four hexadecimal
/// digits, an 8-bit immediate as `#__` and two digits, a 16-bit immediate
/// as `#` and four digits, and a register by its name.
pub open spec fn argument_text(arg: Argument) -> Seq<char> {
    match arg {
        Argument::Addr(lo, hi) => "$"@ + hex_byte(hi, true) + hex_byte(lo, true),
        Argument::D8(d8) => "#__"@ + hex_byte(d8, true),
        Argument::D16(lo, hi) => "#"@ + hex_byte(hi, true) + hex_byte(lo, true),
        Argument::PSW => "PSW"@,
        Argument::M => "M"@,
        Argument::A => "A"@,
        Argument::B => "B"@,
        Argument::C => "C"@,
        Argument::D => "D"@,
        Argument::E => "E"@,
        Argument::H => "H"@,
        Argument::L => "L"@,
        Argument::SP => "SP"@,
    }
}

/// How a list of operands is written: one after the other, with a comma
/// and a space between two of them.
pub open spec fn arguments_text(args: Seq<Argument>) -> Seq<char>
    decreases args.len(),
{
    if args.len() == 0 {
        Seq::empty()
    } else if args.len() == 1 {
        argument_text(args[0])
    } else {
        arguments_text(args.drop_last()) + ", "@ + argument_text(args.last())
    }
}

impl Argument {
    /// The operand as it is written in a disassembly.
    pub fn to_string(&self) -> (text: String)
        ensures
            text@ == argument_text(*self),
    {
        match *self {
            Argument::Addr(lo, hi) => {
                let mut text = String::from_str("$");
                push_hex(&mut text, hi, true);
                push_hex(&mut text, lo, true);
                text
            },
            Argument::D8(d8) => {
                let mut text = String::from_str("#__");
                push_hex(&mut text, d8, true);
                text
            },
            Argument::D16(lo, hi) => {
                let mut text = String::from_str("#");
                push_hex(&mut text, hi, true);
                push_hex(&mut text, lo, true);
                text
            },
            Argument::PSW => String::from_str("PSW"),
            Argument::M => String::from_str("M"),
            Argument::A => String::from_str("A"),
            Argument::B => String::from_str("B"),
            Argument::C => String::from_str("C"),
            Argument::D => String::from_str("D"),
            Argument::E => String::from_str("E"),
            Argument::H => String::from_str("H"),
            Argument::L => String::from_str("L"),
            Argument::SP => String::from_str("SP"),
        }
    }
}

/// Text for values that cannot have a method of their own.
pub trait MyToString {
    /// The text that `to_string` returns.
    spec fn text(&self) -> Seq<char>;

    fn to_string(&self) -> (text: String)
        ensures
            text@ == self.text(),
    ;
}

impl MyToString for Vec<Argument> {
    open spec fn text(&self) -> Seq<char> {
        arguments_text(self@)
    }

    fn to_string(&self) -> (text: String) {
        let mut text = String::new();
        let mut i: usize = 0;
        while i < self.len()
            invariant
                i <= self@.len(),
                text@ == arguments_text(self@.take(i as int)),
            decreases self@.len() - i,
        {
            if i > 0 {
                text.append(", ");
            }
            text.append(self[i].to_string().as_str());
            proof {
                assert(self@.take(i + 1).drop_last() == self@.take(i as int));
            }
            i += 1;
        }
        proof {
            assert(self@.take(i as int) == self@);
        }
        text
    }
}

} // verus!
