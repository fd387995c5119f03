//! A disassembled instruction, and a walk over the instructions of a
//! program.

use crate::argument::{arguments_text, Argument, MyToString};
use crate::disassembler::{cmd_name, describes, disassemble, holds_instruction, Cmd};
use crate::text::{hex_byte, padded_left, padded_right, push_hex, push_spaces, spaces};
use vstd::prelude::*;
use vstd::string::{StrSliceExecFns, StringExecFns};

verus! {

/// A disassembled instruction.
pub struct Command {
    /// The mnemonic.
    pub cmd: Cmd,
    /// The operands, in the order in which they are written.
    pub args: Vec<Argument>,
    /// The number of bytes that the instruction takes.
    pub size: u8,
    /// The bytes of the instruction, where it was read from memory.
    pub bytes: Option<Vec<u8>>,
}

/// A walk over a program, instruction by instruction.
pub struct Iter<'a> {
    bytes: &'a [u8],
}

/// How a list of bytes is written: two hexadecimal digits each, with a
/// comma and a space between two of them.
pub open spec fn bytes_list(bytes: Seq<u8>) -> Seq<char>
    decreases bytes.len(),
{
    if bytes.len() == 0 {
        Seq::empty()
    } else if bytes.len() == 1 {
        hex_byte(bytes[0], true)
    } else {
        bytes_list(bytes.drop_last()) + ", "@ + hex_byte(bytes.last(), true)
    }
}

/// The line that shows a command: its bytes in square brackets, moved to
/// the right to 12 characters, then the mnemonic, filled up to 4
/// characters, then the operands, if there are any.
pub open spec fn command_text(bytes: Seq<u8>, cmd: Cmd, args: Seq<Argument>) -> Seq<char> {
    padded_left("["@ + bytes_list(bytes) + "]"@, 12) + " "@ + padded_right(cmd_name(cmd), 4) + (
    if args.len() > 0 {
        " "@ + arguments_text(args)
    } else {
        Seq::empty()
    })
}

impl<'a> Iter<'a> {
    /// The bytes that have not been disassembled yet.
    pub closed spec fn remaining(&self) -> Seq<u8> {
        self.bytes@
    }

    /// Disassembles the next instruction and moves past it; `None` at the
    /// end of the program. The bytes that remain have to hold the whole
    /// instruction.
    pub fn next(&mut self) -> (item: Option<Command>)
        requires
            old(self).remaining().len() > 0 ==> holds_instruction(old(self).remaining()),
        ensures
            old(self).remaining().len() == 0 ==> item is None && final(self).remaining() == old(
                self,
            ).remaining(),
            old(self).remaining().len() > 0 ==> ({
                &&& item matches Some(command)
                &&& describes(command, old(self).remaining())
                &&& final(self).remaining() == old(self).remaining().skip(command.size as int)
            }),
    {
        if self.bytes.len() == 0 {
            return None;
        }
        let cmd = disassemble(self.bytes);
        self.bytes = self.bytes.split_at(cmd.size as usize).1;
        Some(cmd)
    }
}

impl Command {
    /// A command that has not been read from memory: it has no bytes.
    pub fn new(cmd: Cmd, args: Vec<Argument>, size: u8) -> (command: Command)
        ensures
            command.cmd == cmd,
            command.args == args,
            command.size == size,
            command.bytes is None,
    {
        Command { cmd, args, size, bytes: None }
    }

    /// A command without operands.
    pub fn bare(cmd: Cmd, size: u8) -> (command: Command)
        ensures
            command.cmd == cmd,
            command.args@ == Seq::<Argument>::empty(),
            command.size == size,
            command.bytes is None,
    {
        Command::new(cmd, Vec::new(), size)
    }

    /// A command with one operand.
    pub fn with_arg(cmd: Cmd, arg: Argument, size: u8) -> (command: Command)
        ensures
            command.cmd == cmd,
            command.args@ == seq![arg],
            command.size == size,
            command.bytes is None,
    {
        let mut args = Vec::new();
        args.push(arg);
        Command::new(cmd, args, size)
    }

    /// A command with two operands.
    pub fn with_args(cmd: Cmd, first: Argument, second: Argument, size: u8) -> (command: Command)
        ensures
            command.cmd == cmd,
            command.args@ == seq![first, second],
            command.size == size,
            command.bytes is None,
    {
        let mut args = Vec::new();
        args.push(first);
        args.push(second);
        Command::new(cmd, args, size)
    }

    /// A walk over the instructions that `bytes` hold.
    pub fn iterator(bytes: &[u8]) -> (iter: Iter<'_>)
        ensures
            iter.remaining() == bytes@,
    {
        Iter { bytes }
    }

    /// The bytes of the instruction. The command has to hold them: one that
    /// `disassemble` returned does.
    pub fn get_bytes(&self) -> (bytes: &[u8])
        requires
            self.bytes is Some,
        ensures
            bytes@ == self.bytes->0@,
    {
        self.bytes.as_ref().unwrap().as_slice()
    }

    /// The line that shows the command in a listing. The command has to
    /// hold its bytes.
    pub fn to_string(&self) -> (text: String)
        requires
            self.bytes is Some,
        ensures
            text@ == command_text(self.bytes->0@, self.cmd, self.args@),
    {
        let bytes = self.get_bytes();
        let mut list = String::from_str("[");
        let mut i: usize = 0;
        while i < bytes.len()
            invariant
                i <= bytes@.len(),
                list@ == "["@ + bytes_list(bytes@.take(i as int)),
            decreases bytes@.len() - i,
        {
            if i > 0 {
                list.append(", ");
            }
            push_hex(&mut list, bytes[i], true);
            proof {
                assert(bytes@.take(i + 1).drop_last() == bytes@.take(i as int));
            }
            i += 1;
        }
        proof {
            assert(bytes@.take(i as int) == bytes@);
        }
        list.append("]");
        let mut text = String::new();
        let width = list.as_str().unicode_len();
        if width < 12 {
            push_spaces(&mut text, 12 - width);
        }
        text.append(list.as_str());
        text.append(" ");
        let name = self.cmd.as_ref();
        text.append(name);
        let length = name.unicode_len();
        if length < 4 {
            push_spaces(&mut text, 4 - length);
        }
        if self.args.len() > 0 {
            text.append(" ");
            text.append(self.args.to_string().as_str());
        }
        text
    }
}

} // verus!
