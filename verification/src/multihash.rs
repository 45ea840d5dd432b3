//! The multihash tool.

use vstd::prelude::*;
use vstd::string::StringExecFns;
use vstd::utf8::encode_utf8;

use crate::cid::{multihash_of_bytes, Multihash, MultihashView};
use crate::cli::Command;
use crate::encoding::{decimal_text, format_decimal, hex_encode, hex_text, text_bytes};
use crate::error::Error;

verus! {

/// A multihash tool.
#[derive(Clone, Copy, Debug, PartialEq, Eq, Structural)]
pub enum Operation {
    MultihashInspect,
}

impl Operation {
    /// The multihash tool that a command asks for, if it asks for one.
    pub open spec fn of_command(command: Command) -> Option<Operation> {
        match command {
            Command::MultihashInspect => Some(Operation::MultihashInspect),
            _ => None,
        }
    }

    /// The multihash tool that a command asks for; a command for another
    /// tool comes back unchanged.
    pub fn try_from(value: Command) -> (r: Result<Operation, Command>)
        ensures
            match r {
                Ok(op) => Operation::of_command(value) == Some(op),
                Err(back) => Operation::of_command(value) is None && back == value,
            },
    {
        match value {
            Command::MultihashInspect => Ok(Operation::MultihashInspect),
            _ => Err(value),
        }
    }
}

/// The three lines that describe a multihash: the code of its hash
/// function and the number of digest bytes in decimal, and the digest in
/// hexadecimal.
pub open spec fn report_text(hash: MultihashView) -> Seq<char> {
    "Code: "@ + decimal_text(hash.code as nat) + "\nSize: "@ + decimal_text(hash.digest.len())
        + "\nDigest(hex): "@ + hex_text(hash.digest) + "\n"@
}

/// Describes a multihash in three lines.
pub fn report(hash: &Multihash) -> (text: String)
    ensures
        text@ == report_text(hash@),
{
    let mut text = String::from_str("Code: ");
    text.append(format_decimal(hash.code()).as_str());
    text.append("\nSize: ");
    text.append(format_decimal(hash.size() as u64).as_str());
    text.append("\nDigest(hex): ");
    text.append(hex_encode(hash.digest().as_slice()).as_str());
    text.append("\n");
    text
}

/// What the multihash tool writes for an input.
pub open spec fn output_of(op: Operation, input: Seq<u8>) -> Result<Seq<u8>, Error> {
    match multihash_of_bytes(input) {
        None => Err(Error::InvalidMultihash),
        Some(hash) => Ok(encode_utf8(report_text(hash))),
    }
}

/// Runs a multihash tool on what was read from standard input, and gives
/// what is to be written to standard output.
pub fn run(op: Operation, input: Vec<u8>) -> (r: Result<Vec<u8>, Error>)
    ensures
        match r {
            Ok(out) => output_of(op, input@) == Ok::<Seq<u8>, Error>(out@),
            Err(e) => output_of(op, input@) == Err::<Seq<u8>, Error>(e),
        },
{
    match Multihash::from_bytes(input.as_slice()) {
        None => Err(Error::InvalidMultihash),
        Some(hash) => {
            let text = report(&hash);
            Ok(text_bytes(text.as_str()))
        },
    }
}

} // verus!
