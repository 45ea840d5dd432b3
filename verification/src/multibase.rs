//! Multibase: texts that name, in their first character, the base that the
//! rest is written in.

use vstd::prelude::*;
use vstd::string::StringExecFns;
use vstd::utf8::{decode_utf8, encode_utf8, valid_utf8};

use crate::cli::Command;
use crate::encoding::{bool_text, string_from_utf8, text_bytes, trim_end, trimmed_end};
use crate::error::{Error, MultibaseError};

verus! {

/// A base that a multibase text can be written in.
#[derive(Clone, Copy, Debug, PartialEq, Eq, Structural)]
pub enum Base {
    Identity,
    Base2,
    Base8,
    Base10,
    Base16Lower,
    Base16Upper,
    Base32Lower,
    Base32Upper,
    Base32PadLower,
    Base32PadUpper,
    Base32HexLower,
    Base32HexUpper,
    Base32HexPadLower,
    Base32HexPadUpper,
    Base32Z,
    Base36Lower,
    Base36Upper,
    Base45,
    Base58Flickr,
    Base58Btc,
    Base64,
    Base64Pad,
    Base64Url,
    Base64UrlPad,
    Base256Emoji,
}

impl Base {
    /// The character that stands for the base at the head of a text.
    pub open spec fn spec_code(self) -> char {
        match self {
            Base::Identity => '\0',
            Base::Base2 => '0',
            Base::Base8 => '7',
            Base::Base10 => '9',
            Base::Base16Lower => 'f',
            Base::Base16Upper => 'F',
            Base::Base32Lower => 'b',
            Base::Base32Upper => 'B',
            Base::Base32PadLower => 'c',
            Base::Base32PadUpper => 'C',
            Base::Base32HexLower => 'v',
            Base::Base32HexUpper => 'V',
            Base::Base32HexPadLower => 't',
            Base::Base32HexPadUpper => 'T',
            Base::Base32Z => 'h',
            Base::Base36Lower => 'k',
            Base::Base36Upper => 'K',
            Base::Base45 => 'R',
            Base::Base58Flickr => 'Z',
            Base::Base58Btc => 'z',
            Base::Base64 => 'm',
            Base::Base64Pad => 'M',
            Base::Base64Url => 'u',
            Base::Base64UrlPad => 'U',
            Base::Base256Emoji => '\u{1F680}',
        }
    }

    /// The base that a character stands for.
    pub open spec fn spec_from_code(code: char) -> Option<Base> {
        if code == '\0' { Some(Base::Identity) }
        else if code == '0' { Some(Base::Base2) }
        else if code == '7' { Some(Base::Base8) }
        else if code == '9' { Some(Base::Base10) }
        else if code == 'f' { Some(Base::Base16Lower) }
        else if code == 'F' { Some(Base::Base16Upper) }
        else if code == 'b' { Some(Base::Base32Lower) }
        else if code == 'B' { Some(Base::Base32Upper) }
        else if code == 'c' { Some(Base::Base32PadLower) }
        else if code == 'C' { Some(Base::Base32PadUpper) }
        else if code == 'v' { Some(Base::Base32HexLower) }
        else if code == 'V' { Some(Base::Base32HexUpper) }
        else if code == 't' { Some(Base::Base32HexPadLower) }
        else if code == 'T' { Some(Base::Base32HexPadUpper) }
        else if code == 'h' { Some(Base::Base32Z) }
        else if code == 'k' { Some(Base::Base36Lower) }
        else if code == 'K' { Some(Base::Base36Upper) }
        else if code == 'R' { Some(Base::Base45) }
        else if code == 'Z' { Some(Base::Base58Flickr) }
        else if code == 'z' { Some(Base::Base58Btc) }
        else if code == 'm' { Some(Base::Base64) }
        else if code == 'M' { Some(Base::Base64Pad) }
        else if code == 'u' { Some(Base::Base64Url) }
        else if code == 'U' { Some(Base::Base64UrlPad) }
        else if code == '\u{1F680}' { Some(Base::Base256Emoji) }
        else { None }
    }

    /// The name of the base, as the tools print it.
    pub open spec fn spec_name(self) -> Seq<char> {
        match self {
            Base::Identity => "Identity"@,
            Base::Base2 => "Base2"@,
            Base::Base8 => "Base8"@,
            Base::Base10 => "Base10"@,
            Base::Base16Lower => "Base16Lower"@,
            Base::Base16Upper => "Base16Upper"@,
            Base::Base32Lower => "Base32Lower"@,
            Base::Base32Upper => "Base32Upper"@,
            Base::Base32PadLower => "Base32PadLower"@,
            Base::Base32PadUpper => "Base32PadUpper"@,
            Base::Base32HexLower => "Base32HexLower"@,
            Base::Base32HexUpper => "Base32HexUpper"@,
            Base::Base32HexPadLower => "Base32HexPadLower"@,
            Base::Base32HexPadUpper => "Base32HexPadUpper"@,
            Base::Base32Z => "Base32Z"@,
            Base::Base36Lower => "Base36Lower"@,
            Base::Base36Upper => "Base36Upper"@,
            Base::Base45 => "Base45"@,
            Base::Base58Flickr => "Base58Flickr"@,
            Base::Base58Btc => "Base58Btc"@,
            Base::Base64 => "Base64"@,
            Base::Base64Pad => "Base64Pad"@,
            Base::Base64Url => "Base64Url"@,
            Base::Base64UrlPad => "Base64UrlPad"@,
            Base::Base256Emoji => "Base256Emoji"@,
        }
    }

    /// The character that stands for the base at the head of a text.
    #[verifier::when_used_as_spec(spec_code)]
    pub fn code(self) -> (c: char)
        ensures
            c == self.spec_code(),
    {
        match self {
            Base::Identity => '\0',
            Base::Base2 => '0',
            Base::Base8 => '7',
            Base::Base10 => '9',
            Base::Base16Lower => 'f',
            Base::Base16Upper => 'F',
            Base::Base32Lower => 'b',
            Base::Base32Upper => 'B',
            Base::Base32PadLower => 'c',
            Base::Base32PadUpper => 'C',
            Base::Base32HexLower => 'v',
            Base::Base32HexUpper => 'V',
            Base::Base32HexPadLower => 't',
            Base::Base32HexPadUpper => 'T',
            Base::Base32Z => 'h',
            Base::Base36Lower => 'k',
            Base::Base36Upper => 'K',
            Base::Base45 => 'R',
            Base::Base58Flickr => 'Z',
            Base::Base58Btc => 'z',
            Base::Base64 => 'm',
            Base::Base64Pad => 'M',
            Base::Base64Url => 'u',
            Base::Base64UrlPad => 'U',
            Base::Base256Emoji => '\u{1F680}',
        }
    }

    /// The base that a character stands for, if it stands for one.
    pub fn from_code(code: char) -> (r: Option<Base>)
        ensures
            r == Base::spec_from_code(code),
    {
        if code == '\0' { Some(Base::Identity) }
        else if code == '0' { Some(Base::Base2) }
        else if code == '7' { Some(Base::Base8) }
        else if code == '9' { Some(Base::Base10) }
        else if code == 'f' { Some(Base::Base16Lower) }
        else if code == 'F' { Some(Base::Base16Upper) }
        else if code == 'b' { Some(Base::Base32Lower) }
        else if code == 'B' { Some(Base::Base32Upper) }
        else if code == 'c' { Some(Base::Base32PadLower) }
        else if code == 'C' { Some(Base::Base32PadUpper) }
        else if code == 'v' { Some(Base::Base32HexLower) }
        else if code == 'V' { Some(Base::Base32HexUpper) }
        else if code == 't' { Some(Base::Base32HexPadLower) }
        else if code == 'T' { Some(Base::Base32HexPadUpper) }
        else if code == 'h' { Some(Base::Base32Z) }
        else if code == 'k' { Some(Base::Base36Lower) }
        else if code == 'K' { Some(Base::Base36Upper) }
        else if code == 'R' { Some(Base::Base45) }
        else if code == 'Z' { Some(Base::Base58Flickr) }
        else if code == 'z' { Some(Base::Base58Btc) }
        else if code == 'm' { Some(Base::Base64) }
        else if code == 'M' { Some(Base::Base64Pad) }
        else if code == 'u' { Some(Base::Base64Url) }
        else if code == 'U' { Some(Base::Base64UrlPad) }
        else if code == '\u{1F680}' { Some(Base::Base256Emoji) }
        else { None }
    }

    /// The name of the base, as the tools print it.
    pub fn name(self) -> (text: &'static str)
        ensures
            text@ == self.spec_name(),
    {
        match self {
            Base::Identity => "Identity",
            Base::Base2 => "Base2",
            Base::Base8 => "Base8",
            Base::Base10 => "Base10",
            Base::Base16Lower => "Base16Lower",
            Base::Base16Upper => "Base16Upper",
            Base::Base32Lower => "Base32Lower",
            Base::Base32Upper => "Base32Upper",
            Base::Base32PadLower => "Base32PadLower",
            Base::Base32PadUpper => "Base32PadUpper",
            Base::Base32HexLower => "Base32HexLower",
            Base::Base32HexUpper => "Base32HexUpper",
            Base::Base32HexPadLower => "Base32HexPadLower",
            Base::Base32HexPadUpper => "Base32HexPadUpper",
            Base::Base32Z => "Base32Z",
            Base::Base36Lower => "Base36Lower",
            Base::Base36Upper => "Base36Upper",
            Base::Base45 => "Base45",
            Base::Base58Flickr => "Base58Flickr",
            Base::Base58Btc => "Base58Btc",
            Base::Base64 => "Base64",
            Base::Base64Pad => "Base64Pad",
            Base::Base64Url => "Base64Url",
            Base::Base64UrlPad => "Base64UrlPad",
            Base::Base256Emoji => "Base256Emoji",
        }
    }
}

/// Every base is found again from its character, and a character stands
/// for at most one base.
pub proof fn lemma_code_round_trip(base: Base, code: char)
    ensures
        Base::spec_from_code(base.spec_code()) == Some(base),
        Base::spec_from_code(code) matches Some(b) ==> b.spec_code() == code,
{
}

/// What `multibase::Base::decode` makes of `text` in the base that `code`
/// stands for: the bytes, or nothing where the text is not well formed in
/// that base.
pub uninterp spec fn base_decoded(code: char, text: Seq<char>) -> Option<Seq<u8>>;

/// What `multibase::Base::encode` makes of `bytes` in the base that `code`
/// stands for.
pub uninterp spec fn base_encoded(code: char, bytes: Seq<u8>) -> Seq<char>;

/// The base and bytes of a multibase text: the first character names the
/// base, in which the rest is read.
pub open spec fn multibase_decoded(text: Seq<char>) -> Result<(Base, Seq<u8>), MultibaseError> {
    if text.len() == 0 {
        Err(MultibaseError::InvalidBaseString)
    } else {
        match Base::spec_from_code(text[0]) {
            None => Err(MultibaseError::UnknownBase(text[0])),
            Some(base) => match base_decoded(text[0], text.drop_first()) {
                None => Err(MultibaseError::InvalidBaseString),
                Some(bytes) => Ok((base, bytes)),
            },
        }
    }
}

/// The multibase text of `bytes` in `base`: the base's character, then the
/// bytes in that base.
pub open spec fn multibase_encoded(base: Base, bytes: Seq<u8>) -> Seq<char> {
    seq![base.spec_code()] + base_encoded(base.spec_code(), bytes)
}

/// Calls `multibase::Base::decode` for the base that `code` stands for.
/// The contract names the result; it claims nothing of what a base accepts.
#[verifier::external_body]
fn decode_in(code: char, text: &str) -> (r: Option<Vec<u8>>)
    requires
        Base::spec_from_code(code) is Some,
    ensures
        r is Some <==> base_decoded(code, text@) is Some,
        r matches Some(bytes) ==> base_decoded(code, text@) == Some(bytes@),
{
    multibase::Base::from_code(code).unwrap().decode(text).ok()
}

/// Calls `multibase::decode`. By its source it fails with
/// `InvalidBaseString` on the empty text, with `UnknownBase` on a first
/// character that stands for no base, and else hands the rest of the text
/// to that base's decoder, whose failure is `InvalidBaseString` again.
#[verifier::external_body]
fn decode_any(text: &str) -> (r: Result<(char, Vec<u8>), MultibaseError>)
    ensures
        match r {
            Ok((code, bytes)) => multibase_decoded(text@) matches Ok((base, decoded))
                && base.spec_code() == code && decoded == bytes@,
            Err(e) => multibase_decoded(text@) == Err::<(Base, Seq<u8>), MultibaseError>(e),
        },
{
    match multibase::decode(text) {
        Ok((base, bytes)) => Ok((base.code(), bytes)),
        Err(multibase::Error::UnknownBase(c)) => Err(MultibaseError::UnknownBase(c)),
        Err(multibase::Error::InvalidBaseString) => Err(MultibaseError::InvalidBaseString),
    }
}

/// Calls `multibase::encode`, which puts the base's character before what
/// the base's encoder makes of the bytes. The encoder of the identity base
/// panics on bytes that are not UTF-8, so they are left out.
#[verifier::external_body]
fn encode_in(code: char, bytes: &[u8]) -> (text: String)
    requires
        Base::spec_from_code(code) is Some,
        code == '\0' ==> valid_utf8(bytes@),
    ensures
        text@ == seq![code] + base_encoded(code, bytes@),
{
    multibase::encode(multibase::Base::from_code(code).unwrap(), bytes)
}

/// Reads a multibase text.
pub fn decode(text: &str) -> (r: Result<(Base, Vec<u8>), MultibaseError>)
    ensures
        match r {
            Ok((base, bytes)) => multibase_decoded(text@) == Ok::<
                (Base, Seq<u8>),
                MultibaseError,
            >((base, bytes@)),
            Err(e) => multibase_decoded(text@) == Err::<(Base, Seq<u8>), MultibaseError>(e),
        },
{
    match decode_any(text) {
        Ok((code, bytes)) => {
            proof {
                lemma_code_round_trip(multibase_decoded(text@)->Ok_0.0, code);
            }
            match Base::from_code(code) {
                Some(base) => Ok((base, bytes)),
                None => Err(MultibaseError::UnknownBase(code)),
            }
        },
        Err(e) => Err(e),
    }
}

/// Writes `bytes` as a multibase text in `base`. The identity base takes
/// only bytes that are UTF-8.
pub fn encode(base: Base, bytes: &[u8]) -> (text: String)
    requires
        base == Base::Identity ==> valid_utf8(bytes@),
    ensures
        text@ == multibase_encoded(base, bytes@),
{
    proof {
        lemma_code_round_trip(base, base.spec_code());
    }
    encode_in(base.code(), bytes)
}

/// Reads `text` in `base`, where the text carries no character for the
/// base.
pub fn decode_plain(base: Base, text: &str) -> (r: Option<Vec<u8>>)
    ensures
        r is Some <==> base_decoded(base.spec_code(), text@) is Some,
        r matches Some(bytes) ==> base_decoded(base.spec_code(), text@) == Some(bytes@),
{
    proof {
        lemma_code_round_trip(base, base.spec_code());
    }
    decode_in(base.code(), text)
}

/// The bases that a text without a base character is tried in, in order.
pub open spec fn candidates() -> Seq<Base> {
    seq![
        Base::Base2,
        Base::Base8,
        Base::Base10,
        Base::Base16Lower,
        Base::Base16Upper,
        Base::Base32HexLower,
        Base::Base32HexUpper,
        Base::Base32Lower,
        Base::Base32Upper,
        Base::Base32Z,
        Base::Base58Flickr,
        Base::Base58Btc,
        Base::Base64,
        Base::Base64Url,
    ]
}

/// The bases that a text without a base character is tried in, in order.
pub fn candidate_bases() -> (bases: Vec<Base>)
    ensures
        bases@ == candidates(),
{
    let bases = vec![
        Base::Base2,
        Base::Base8,
        Base::Base10,
        Base::Base16Lower,
        Base::Base16Upper,
        Base::Base32HexLower,
        Base::Base32HexUpper,
        Base::Base32Lower,
        Base::Base32Upper,
        Base::Base32Z,
        Base::Base58Flickr,
        Base::Base58Btc,
        Base::Base64,
        Base::Base64Url,
    ];
    assert(bases@ =~= candidates());
    bases
}

/// The first position at or after `from` at which `accepts` holds, or the
/// length of `accepts` if there is none.
pub open spec fn first_accepting(accepts: Seq<bool>, from: int) -> int
    decreases accepts.len() - from,
{
    if from < 0 || from >= accepts.len() {
        accepts.len() as int
    } else if accepts[from] {
        from
    } else {
        first_accepting(accepts, from + 1)
    }
}

/// The guess for a text, given what the decoders made of it: the base that
/// the text names if it reads as multibase, else the first candidate that
/// accepts it, else nothing. `accepts[i]` says whether candidate `i` reads
/// the text.
pub open spec fn guess_of(named: Option<Base>, accepts: Seq<bool>) -> Option<(Base, bool)> {
    match named {
        Some(base) => Some((base, true)),
        None => {
            let i = first_accepting(accepts, 0);
            if i < accepts.len() && i < candidates().len() {
                Some((candidates()[i], false))
            } else {
                None
            }
        },
    }
}

/// Which of the candidates read `text`.
pub open spec fn acceptance(text: Seq<char>) -> Seq<bool> {
    Seq::new(
        candidates().len(),
        |i: int| base_decoded(candidates()[i].spec_code(), text) is Some,
    )
}

/// The base that `text` names, if it reads as multibase.
pub open spec fn named_base(text: Seq<char>) -> Option<Base> {
    match multibase_decoded(text) {
        Ok((base, _)) => Some(base),
        Err(_) => None,
    }
}

/// Picks the guess from what the decoders made of a text: `named` is the
/// base that the text names if it reads as multibase, and `accepts[i]` says
/// whether candidate `i` reads it.
pub fn pick_guess(named: Option<Base>, accepts: &Vec<bool>) -> (r: Option<(Base, bool)>)
    ensures
        r == guess_of(named, accepts@),
{
    if let Some(base) = named {
        return Some((base, true));
    }
    let bases = candidate_bases();
    let mut i: usize = 0;
    while i < accepts.len() && i < bases.len()
        invariant
            named is None,
            bases@ == candidates(),
            i <= accepts.len(),
            i <= bases.len(),
            first_accepting(accepts@, 0) == first_accepting(accepts@, i as int),
        decreases accepts.len() - i,
    {
        if accepts[i] {
            assert(first_accepting(accepts@, i as int) == i);
            assert(bases@[i as int] == candidates()[i as int]);
            return Some((bases[i], false));
        }
        i += 1;
    }
    proof {
        lemma_first_accepting_bounds(accepts@, i as int);
    }
    None
}

/// Where the first accepting position lies.
pub proof fn lemma_first_accepting_bounds(accepts: Seq<bool>, from: int)
    requires
        0 <= from <= accepts.len(),
    ensures
        from <= first_accepting(accepts, from) <= accepts.len(),
        first_accepting(accepts, from) < accepts.len() ==> accepts[first_accepting(accepts, from)],
        forall|j: int| from <= j < first_accepting(accepts, from) ==> !accepts[j],
    decreases accepts.len() - from,
{
    if from < accepts.len() && !accepts[from] {
        lemma_first_accepting_bounds(accepts, from + 1);
    }
}

/// Guesses the base of a text. A text that reads as multibase is in the
/// base it names; any other is tried in each candidate base in turn.
pub fn guess(data: &str) -> (r: Option<(Base, bool)>)
    ensures
        r == guess_of(named_base(data@), acceptance(data@)),
{
    let named = match decode(data) {
        Ok((base, _)) => Some(base),
        Err(_) => None,
    };
    let bases = candidate_bases();
    let mut accepts: Vec<bool> = Vec::new();
    let mut i: usize = 0;
    while i < bases.len()
        invariant
            bases@ == candidates(),
            i <= bases.len(),
            accepts@.len() == i,
            forall|j: int|
                0 <= j < i ==> accepts@[j] == (base_decoded(
                    candidates()[j].spec_code(),
                    data@,
                ) is Some),
        decreases bases.len() - i,
    {
        let found = decode_plain(bases[i], data);
        accepts.push(found.is_some());
        i += 1;
    }
    assert(accepts@ =~= acceptance(data@));
    pick_guess(named, &accepts)
}

/// The line that reports a guess.
pub open spec fn guess_report_text(base: Base, is_multibase: bool) -> Seq<char> {
    base.spec_name() + " is_multibase: "@ + bool_text(is_multibase)
}

/// The line that reports a guess: the base's name and whether the text
/// named the base itself.
pub fn guess_report(base: Base, is_multibase: bool) -> (text: String)
    ensures
        text@ == guess_report_text(base, is_multibase),
{
    let mut text = String::from_str(base.name());
    text.append(" is_multibase: ");
    proof {
        reveal_strlit("true");
        reveal_strlit("false");
        assert("true"@ =~= bool_text(true));
        assert("false"@ =~= bool_text(false));
    }
    if is_multibase {
        text.append("true");
    } else {
        text.append("false");
    }
    text
}

/// A multibase tool.
#[derive(Clone, Copy, Debug, PartialEq, Eq, Structural)]
pub enum Operation {
    Guess,
    Decode,
    Base2,
    Base8,
    Base10,
    Base16,
    Base16Upper,
    Base32Hex,
    Base32HexUpper,
    Base32,
    Base32Upper,
    Base32Z,
    Base36,
    Base36Upper,
    Base58Flickr,
    Base58Btc,
    Base64,
    Base64Url,
}

impl Operation {
    /// The multibase tool that a command asks for, if it asks for one.
    pub open spec fn of_command(command: Command) -> Option<Operation> {
        match command {
            Command::BaseGuess => Some(Operation::Guess),
            Command::BaseDecode => Some(Operation::Decode),
            Command::Base2 => Some(Operation::Base2),
            Command::Base8 => Some(Operation::Base8),
            Command::Base10 => Some(Operation::Base10),
            Command::Base16 => Some(Operation::Base16),
            Command::Base16Upper => Some(Operation::Base16Upper),
            Command::Base32Hex => Some(Operation::Base32Hex),
            Command::Base32HexUpper => Some(Operation::Base32HexUpper),
            Command::Base32 => Some(Operation::Base32),
            Command::Base32Upper => Some(Operation::Base32Upper),
            Command::Base32Z => Some(Operation::Base32Z),
            Command::Base36 => Some(Operation::Base36),
            Command::Base36Upper => Some(Operation::Base36Upper),
            Command::Base58Flickr => Some(Operation::Base58Flickr),
            Command::Base58Btc => Some(Operation::Base58Btc),
            Command::Base64 => Some(Operation::Base64),
            Command::Base64Url => Some(Operation::Base64Url),
            _ => None,
        }
    }

    /// The multibase tool that a command asks for; a command for another
    /// tool comes back unchanged.
    pub fn try_from(value: Command) -> (r: Result<Operation, Command>)
        ensures
            match r {
                Ok(op) => Operation::of_command(value) == Some(op),
                Err(back) => Operation::of_command(value) is None && back == value,
            },
    {
        match value {
            Command::BaseGuess => Ok(Operation::Guess),
            Command::BaseDecode => Ok(Operation::Decode),
            Command::Base2 => Ok(Operation::Base2),
            Command::Base8 => Ok(Operation::Base8),
            Command::Base10 => Ok(Operation::Base10),
            Command::Base16 => Ok(Operation::Base16),
            Command::Base16Upper => Ok(Operation::Base16Upper),
            Command::Base32Hex => Ok(Operation::Base32Hex),
            Command::Base32HexUpper => Ok(Operation::Base32HexUpper),
            Command::Base32 => Ok(Operation::Base32),
            Command::Base32Upper => Ok(Operation::Base32Upper),
            Command::Base32Z => Ok(Operation::Base32Z),
            Command::Base36 => Ok(Operation::Base36),
            Command::Base36Upper => Ok(Operation::Base36Upper),
            Command::Base58Flickr => Ok(Operation::Base58Flickr),
            Command::Base58Btc => Ok(Operation::Base58Btc),
            Command::Base64 => Ok(Operation::Base64),
            Command::Base64Url => Ok(Operation::Base64Url),
            _ => Err(value),
        }
    }

    /// The base that an encoding tool writes in; nothing for the two tools
    /// that read.
    pub open spec fn spec_base(self) -> Option<Base> {
        match self {
            Operation::Guess => None,
            Operation::Decode => None,
            Operation::Base2 => Some(Base::Base2),
            Operation::Base8 => Some(Base::Base8),
            Operation::Base10 => Some(Base::Base10),
            Operation::Base16 => Some(Base::Base16Lower),
            Operation::Base16Upper => Some(Base::Base16Upper),
            Operation::Base32Hex => Some(Base::Base32HexLower),
            Operation::Base32HexUpper => Some(Base::Base32HexUpper),
            Operation::Base32 => Some(Base::Base32Lower),
            Operation::Base32Upper => Some(Base::Base32Upper),
            Operation::Base32Z => Some(Base::Base32Z),
            Operation::Base36 => Some(Base::Base36Lower),
            Operation::Base36Upper => Some(Base::Base36Upper),
            Operation::Base58Flickr => Some(Base::Base58Flickr),
            Operation::Base58Btc => Some(Base::Base58Btc),
            Operation::Base64 => Some(Base::Base64),
            Operation::Base64Url => Some(Base::Base64Url),
        }
    }

    /// The base that an encoding tool writes in.
    #[verifier::when_used_as_spec(spec_base)]
    pub fn base(self) -> (r: Option<Base>)
        ensures
            r == self.spec_base(),
            r matches Some(b) ==> b != Base::Identity,
    {
        match self {
            Operation::Guess => None,
            Operation::Decode => None,
            Operation::Base2 => Some(Base::Base2),
            Operation::Base8 => Some(Base::Base8),
            Operation::Base10 => Some(Base::Base10),
            Operation::Base16 => Some(Base::Base16Lower),
            Operation::Base16Upper => Some(Base::Base16Upper),
            Operation::Base32Hex => Some(Base::Base32HexLower),
            Operation::Base32HexUpper => Some(Base::Base32HexUpper),
            Operation::Base32 => Some(Base::Base32Lower),
            Operation::Base32Upper => Some(Base::Base32Upper),
            Operation::Base32Z => Some(Base::Base32Z),
            Operation::Base36 => Some(Base::Base36Lower),
            Operation::Base36Upper => Some(Base::Base36Upper),
            Operation::Base58Flickr => Some(Base::Base58Flickr),
            Operation::Base58Btc => Some(Base::Base58Btc),
            Operation::Base64 => Some(Base::Base64),
            Operation::Base64Url => Some(Base::Base64Url),
        }
    }
}

/// What a multibase tool writes for an input.
pub open spec fn output_of(op: Operation, input: Seq<u8>) -> Result<Seq<u8>, Error> {
    match op.spec_base() {
        Some(base) => Ok(encode_utf8(multibase_encoded(base, input))),
        None => if !valid_utf8(input) {
            Err(Error::InvalidUtf8)
        } else {
            let text = trimmed_end(decode_utf8(input));
            if op == Operation::Guess {
                match guess_of(named_base(text), acceptance(text)) {
                    Some((base, is_multibase)) => Ok(
                        encode_utf8(guess_report_text(base, is_multibase)),
                    ),
                    None => Ok(Seq::empty()),
                }
            } else {
                match multibase_decoded(text) {
                    Ok((_, bytes)) => Ok(bytes),
                    Err(e) => Err(Error::Multibase(e)),
                }
            }
        },
    }
}

/// Runs a multibase tool on what was read from standard input, and gives
/// what is to be written to standard output. The reading tools take their
/// input as text and ignore whitespace at its end.
pub fn run(op: Operation, input: Vec<u8>) -> (r: Result<Vec<u8>, Error>)
    ensures
        match r {
            Ok(out) => output_of(op, input@) == Ok::<Seq<u8>, Error>(out@),
            Err(e) => output_of(op, input@) == Err::<Seq<u8>, Error>(e),
        },
{
    match op.base() {
        Some(base) => {
            let text = encode(base, input.as_slice());
            Ok(text_bytes(text.as_str()))
        },
        None => {
            let text = match string_from_utf8(input) {
                Some(text) => text,
                None => { return Err(Error::InvalidUtf8); },
            };
            let text = trim_end(text.as_str());
            match op {
                Operation::Guess => match guess(text.as_str()) {
                    Some((base, is_multibase)) => {
                        let report = guess_report(base, is_multibase);
                        Ok(text_bytes(report.as_str()))
                    },
                    None => Ok(Vec::new()),
                },
                _ => match decode(text.as_str()) {
                    Ok((_, bytes)) => Ok(bytes),
                    Err(e) => Err(Error::Multibase(e)),
                },
            }
        },
    }
}

} // verus!
