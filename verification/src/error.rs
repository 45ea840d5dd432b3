//! The ways in which a tool can fail.

use vstd::prelude::*;

verus! {

/// Why the multibase decoder rejected a text.
#[derive(Clone, Copy, Debug, PartialEq, Eq, Structural)]
pub enum MultibaseError {
    /// The first character names no known base.
    UnknownBase(char),
    /// The text is empty, or is not well formed in the base it names.
    InvalidBaseString,
}

/// Why a tool gave up.
#[derive(Clone, Copy, Debug, PartialEq, Eq, Structural)]
pub enum Error {
    /// Input that has to be text is not well-formed UTF-8.
    InvalidUtf8,
    /// Input is not a multibase text.
    Multibase(MultibaseError),
    /// Input is not a multihash of at most 32 digest bytes.
    InvalidMultihash,
    /// Input is not a content identifier.
    InvalidCid,
    /// Input is not well formed in the codec it should be in.
    Decode,
    /// A value cannot be written in the codec asked for.
    Encode,
    /// A path segment was applied to a value that is neither list nor map,
    /// or a list was given a segment that is no number.
    Index,
    /// The path leads to nothing.
    NothingAtIndex,
    /// Input is not a CAR archive.
    InvalidCar,
    /// A block's identifier names a hash function that is not supported.
    UnsupportedHash,
    /// A block's identifier does not hold the hash of the block's data.
    HashMismatch,
    /// A block of a new archive has no file data to go with it.
    MissingFile,
    /// A block argument lacks the colon between identifier and path.
    CarBlockFormat,
    /// The command belongs to no tool.
    NoMatch,
}

impl Error {
    /// The message text of the errors that this library words itself; the
    /// empty text for the others.
    pub open spec fn spec_message(self) -> Seq<char> {
        match self {
            Error::NothingAtIndex => "no IPLD data exists at index"@,
            Error::CarBlockFormat => "car block must be in the form cid:path/to/block"@,
            Error::NoMatch => "failed to match command"@,
            _ => Seq::empty(),
        }
    }

    /// The message of an error that this library words itself.
    pub fn message(&self) -> (text: &'static str)
        ensures
            text@ == self.spec_message(),
    {
        match self {
            Error::NothingAtIndex => "no IPLD data exists at index",
            Error::CarBlockFormat => "car block must be in the form cid:path/to/block",
            Error::NoMatch => "failed to match command",
            _ => {
                proof {
                    reveal_strlit("");
                    assert(""@ =~= Seq::<char>::empty());
                }
                ""
            },
        }
    }
}

/// A tool that gave up, with what it had written by then.
#[derive(Clone, Debug)]
pub struct Failure {
    pub written: Vec<u8>,
    pub error: Error,
}

impl View for Failure {
    type V = (Seq<u8>, Error);

    open spec fn view(&self) -> (Seq<u8>, Error) {
        (self.written@, self.error)
    }
}

impl Failure {
    /// A tool that gave up before it wrote anything.
    pub fn early(error: Error) -> (failure: Failure)
        ensures
            failure@ == (Seq::<u8>::empty(), error),
    {
        Failure { written: Vec::new(), error }
    }
}

/// What a tool wrote, or how it gave up, for a tool that writes only when
/// it succeeds.
pub open spec fn all_or_nothing(r: Result<Seq<u8>, Error>) -> Result<Seq<u8>, (Seq<u8>, Error)> {
    match r {
        Ok(out) => Ok(out),
        Err(e) => Err((Seq::empty(), e)),
    }
}

/// What a tool wrote, or how it gave up, for a tool that writes only when
/// it succeeds.
pub fn written_or_failed(r: Result<Vec<u8>, Error>) -> (w: Result<Vec<u8>, Failure>)
    ensures
        match w {
            Ok(out) => r matches Ok(all) && all@ == out@,
            Err(failure) => r matches Err(e) && failure@ == (Seq::<u8>::empty(), e),
        },
{
    match r {
        Ok(out) => Ok(out),
        Err(e) => Err(Failure::early(e)),
    }
}

} // verus!
