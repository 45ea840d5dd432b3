//! IPLD data in its three codecs, and paths into it.

use vstd::prelude::*;
use vstd::slice::slice_subrange;
use vstd::utf8::encode_utf8;

use crate::encoding::{
    bool_text, chars_string, format_signed, signed_decimal_text, str_chars, text_bytes,
};
use crate::error::Error;

verus! {

/// The multicodec code of DAG-CBOR.
pub const DAG_CBOR: u64 = 0x71;

/// The multicodec code of DAG-JSON.
pub const DAG_JSON: u64 = 0x0129;

/// The multicodec code of DAG-JOSE.
pub const DAG_JOSE: u64 = 0x85;

/// `ipld_core::ipld::Ipld`, a value of the IPLD data model.
#[verifier::external_type_specification]
#[verifier::external_body]
pub struct ExIpld(ipld_core::ipld::Ipld);

/// What an IPLD value is at its top: a scalar with its content, or a list
/// or map, kept whole.
pub enum Value {
    Null,
    Bool(bool),
    Integer(i128),
    /// A float, as the text it is displayed with.
    Float(String),
    Text(String),
    Bytes(Vec<u8>),
    /// A list or a map.
    Composite(ipld_core::ipld::Ipld),
    /// A link, as the bytes of its content identifier.
    Link(Vec<u8>),
}

/// The value that `serde_ipld_dagcbor::from_slice` reads, or nothing where
/// it gives an error.
pub uninterp spec fn ipld_of_dag_cbor(bytes: Seq<u8>) -> Option<ipld_core::ipld::Ipld>;

/// The value that `serde_ipld_dagjson::from_slice` reads, or nothing where
/// it gives an error.
pub uninterp spec fn ipld_of_dag_json(bytes: Seq<u8>) -> Option<ipld_core::ipld::Ipld>;

/// The value that `dag_jose::DagJoseCodec` decodes from a slice, or nothing
/// where it gives an error.
pub uninterp spec fn ipld_of_dag_jose(bytes: Seq<u8>) -> Option<ipld_core::ipld::Ipld>;

/// The bytes that `serde_ipld_dagcbor::to_vec` writes for a value, or
/// nothing where it gives an error.
pub uninterp spec fn dag_cbor_of(node: ipld_core::ipld::Ipld) -> Option<Seq<u8>>;

/// The bytes that `serde_ipld_dagjson::to_vec` writes for a value, or
/// nothing where it gives an error.
pub uninterp spec fn dag_json_of(node: ipld_core::ipld::Ipld) -> Option<Seq<u8>>;

/// The text of a value in the pretty form of its `Debug`.
pub uninterp spec fn debug_text_of(node: ipld_core::ipld::Ipld) -> Seq<char>;

/// What `Ipld::take` gives for a value and a key: nothing where it gives an
/// error, else the entry or its absence.
pub uninterp spec fn taken(node: ipld_core::ipld::Ipld, key: Seq<char>) -> Option<
    Option<ipld_core::ipld::Ipld>,
>;

/// What a value is at its top.
pub uninterp spec fn top_of(node: ipld_core::ipld::Ipld) -> Value;

/// Calls `serde_ipld_dagcbor::from_slice` for an `Ipld`.
#[verifier::external_body]
fn dag_cbor_read(bytes: &[u8]) -> (r: Option<ipld_core::ipld::Ipld>)
    ensures
        r == ipld_of_dag_cbor(bytes@),
{
    serde_ipld_dagcbor::from_slice(bytes).ok()
}

/// Calls `serde_ipld_dagjson::from_slice` for an `Ipld`.
#[verifier::external_body]
fn dag_json_read(bytes: &[u8]) -> (r: Option<ipld_core::ipld::Ipld>)
    ensures
        r == ipld_of_dag_json(bytes@),
{
    serde_ipld_dagjson::from_slice(bytes).ok()
}

/// Calls `decode_from_slice` of `dag_jose::DagJoseCodec` for an `Ipld`.
#[verifier::external_body]
fn dag_jose_read(bytes: &[u8]) -> (r: Option<ipld_core::ipld::Ipld>)
    ensures
        r == ipld_of_dag_jose(bytes@),
{
    <dag_jose::DagJoseCodec as ipld_core::codec::Codec<ipld_core::ipld::Ipld>>::decode_from_slice(
        bytes,
    ).ok()
}

/// Calls `serde_ipld_dagcbor::to_vec`.
#[verifier::external_body]
pub(crate) fn dag_cbor_write(node: &ipld_core::ipld::Ipld) -> (r: Option<Vec<u8>>)
    ensures
        r is Some <==> dag_cbor_of(*node) is Some,
        r matches Some(bytes) ==> dag_cbor_of(*node) == Some(bytes@),
{
    serde_ipld_dagcbor::to_vec(node).ok()
}

/// Calls `serde_ipld_dagjson::to_vec`.
#[verifier::external_body]
fn dag_json_write(node: &ipld_core::ipld::Ipld) -> (r: Option<Vec<u8>>)
    ensures
        r is Some <==> dag_json_of(*node) is Some,
        r matches Some(bytes) ==> dag_json_of(*node) == Some(bytes@),
{
    serde_ipld_dagjson::to_vec(node).ok()
}

/// Formats a value with the pretty form of its `Debug`.
#[verifier::external_body]
fn debug_write(node: &ipld_core::ipld::Ipld) -> (text: String)
    ensures
        text@ == debug_text_of(*node),
{
    format!("{:#?}", node)
}

/// Calls `Ipld::take` with a text key. By its source a list takes the key
/// as a number and a map as a name, and any other value gives an error.
#[verifier::external_body]
fn take(node: ipld_core::ipld::Ipld, key: &str) -> (r: Option<Option<ipld_core::ipld::Ipld>>)
    ensures
        r == taken(node, key@),
{
    node.take(key).ok()
}

/// Tells the variants of `Ipld` apart. A float comes as the text of its
/// `Display`, a link as the bytes of its identifier, a list or map whole.
#[verifier::external_body]
fn top(node: ipld_core::ipld::Ipld) -> (value: Value)
    ensures
        value == top_of(node),
{
    match node {
        ipld_core::ipld::Ipld::Null => Value::Null,
        ipld_core::ipld::Ipld::Bool(b) => Value::Bool(b),
        ipld_core::ipld::Ipld::Integer(i) => Value::Integer(i),
        ipld_core::ipld::Ipld::Float(f) => Value::Float(f.to_string()),
        ipld_core::ipld::Ipld::String(s) => Value::Text(s),
        ipld_core::ipld::Ipld::Bytes(b) => Value::Bytes(b),
        ipld_core::ipld::Ipld::Link(c) => Value::Link(c.to_bytes()),
        other => Value::Composite(other),
    }
}

/// The value that is the given text.
pub uninterp spec fn text_node(text: Seq<char>) -> ipld_core::ipld::Ipld;

/// The value that is the given bytes.
pub uninterp spec fn bytes_node(bytes: Seq<u8>) -> ipld_core::ipld::Ipld;

/// The value that links to the given content.
pub uninterp spec fn link_node(cid: crate::cid::CidView) -> ipld_core::ipld::Ipld;

/// The map with the given entries; of two entries with one key the later
/// stays.
pub uninterp spec fn map_node(entries: Seq<(Seq<char>, ipld_core::ipld::Ipld)>)
    -> ipld_core::ipld::Ipld;

/// The list of the given values.
pub uninterp spec fn list_node(items: Seq<ipld_core::ipld::Ipld>) -> ipld_core::ipld::Ipld;

/// The keys and values of a vector of entries.
pub open spec fn entry_views(entries: Seq<(String, ipld_core::ipld::Ipld)>) -> Seq<
    (Seq<char>, ipld_core::ipld::Ipld),
> {
    Seq::new(entries.len(), |i: int| (entries[i].0@, entries[i].1))
}

/// The variant `Ipld::String` of a text.
#[verifier::external_body]
pub(crate) fn make_text(text: &str) -> (node: ipld_core::ipld::Ipld)
    ensures
        node == text_node(text@),
{
    ipld_core::ipld::Ipld::String(text.to_owned())
}

/// The variant `Ipld::Bytes` of a byte string.
#[verifier::external_body]
pub(crate) fn make_bytes(bytes: &[u8]) -> (node: ipld_core::ipld::Ipld)
    ensures
        node == bytes_node(bytes@),
{
    ipld_core::ipld::Ipld::Bytes(bytes.to_vec())
}

/// The variant `Ipld::Link` of an identifier.
#[verifier::external_body]
pub(crate) fn make_link(cid: ::cid::Cid) -> (node: ipld_core::ipld::Ipld)
    ensures
        node == link_node(crate::cid::outside_view(cid)),
{
    ipld_core::ipld::Ipld::Link(cid)
}

/// The variant `Ipld::List` of values.
#[verifier::external_body]
pub(crate) fn make_list(items: Vec<ipld_core::ipld::Ipld>) -> (node: ipld_core::ipld::Ipld)
    ensures
        node == list_node(items@),
{
    ipld_core::ipld::Ipld::List(items)
}

/// The variant `Ipld::Map` of entries, collected into its `BTreeMap`.
#[verifier::external_body]
pub(crate) fn make_map(entries: Vec<(String, ipld_core::ipld::Ipld)>) -> (node:
    ipld_core::ipld::Ipld)
    ensures
        node == map_node(entry_views(entries@)),
{
    ipld_core::ipld::Ipld::Map(entries.into_iter().collect())
}

/// The position of the first slash in `text`, or its length if it holds
/// none.
pub open spec fn slash_position(text: Seq<char>) -> nat
    decreases text.len(),
{
    if text.len() > 0 && text[0] != '/' {
        1 + slash_position(text.drop_first())
    } else {
        0
    }
}

/// The segments of a path: the texts between its slashes. A path without a
/// slash is one segment, and so is the empty path.
pub open spec fn segments(path: Seq<char>) -> Seq<Seq<char>>
    decreases path.len(),
{
    let slash = slash_position(path) as int;
    if slash < path.len() {
        seq![path.take(slash)] + segments(path.skip(slash + 1))
    } else {
        seq![path]
    }
}

proof fn lemma_slash_position(text: Seq<char>, k: int)
    requires
        0 <= k <= text.len(),
        forall|i: int| 0 <= i < k ==> text[i] != '/',
        k < text.len() ==> text[k] == '/',
    ensures
        slash_position(text) == k,
    decreases k,
{
    if k > 0 {
        let tail = text.drop_first();
        assert forall|i: int| 0 <= i < k - 1 implies tail[i] != '/' by {
            assert(tail[i] == text[i + 1]);
        }
        if k < text.len() {
            assert(tail[k - 1] == text[k]);
        }
        lemma_slash_position(tail, k - 1);
    }
}

/// The texts of a vector of strings.
pub open spec fn texts(strings: Seq<String>) -> Seq<Seq<char>> {
    Seq::new(strings.len(), |i: int| strings[i]@)
}

/// Splits a path at its slashes.
pub fn split_path(path: &str) -> (parts: Vec<String>)
    ensures
        texts(parts@) == segments(path@),
{
    let chars = str_chars(path);
    let mut parts: Vec<String> = Vec::new();
    let mut start: usize = 0;
    let mut at: usize = 0;
    proof {
        assert(chars@.skip(0) =~= chars@);
        assert(texts(parts@) + segments(chars@) =~= segments(chars@));
    }
    loop
        invariant_except_break
            start <= at <= chars.len(),
            forall|i: int| start <= i < at ==> chars@[i] != '/',
            segments(chars@) == texts(parts@) + segments(chars@.skip(start as int)),
        ensures
            texts(parts@) == segments(chars@),
        decreases chars.len() - at,
    {
        if at == chars.len() || chars[at] == '/' {
            let part = chars_string(slice_subrange(chars.as_slice(), start, at));
            proof {
                let rest = chars@.skip(start as int);
                assert forall|i: int| 0 <= i < at - start implies rest[i] != '/' by {
                    assert(rest[i] == chars@[start + i]);
                }
                lemma_slash_position(rest, at - start);
                assert(rest.take(at - start) =~= chars@.subrange(start as int, at as int));
                let before = texts(parts@);
                let after = texts(parts@.push(part));
                assert(after =~= before + seq![part@]);
                if at < chars.len() {
                    assert(rest.skip(at - start + 1) =~= chars@.skip(at + 1));
                    assert(segments(rest) == seq![part@] + segments(chars@.skip(at + 1)));
                    assert(before + (seq![part@] + segments(chars@.skip(at + 1))) =~= after
                        + segments(chars@.skip(at + 1)));
                } else {
                    assert(rest =~= part@);
                    assert(segments(rest) == seq![part@]);
                }
            }
            parts.push(part);
            if at == chars.len() {
                break ;
            }
            at += 1;
            start = at;
        } else {
            at += 1;
        }
    }
    parts
}

/// The value that a path leads to from `node`: each segment in turn is
/// taken from what the one before led to.
pub open spec fn walked(node: ipld_core::ipld::Ipld, path: Seq<Seq<char>>) -> Result<
    ipld_core::ipld::Ipld,
    Error,
>
    decreases path.len(),
{
    if path.len() == 0 {
        Ok(node)
    } else {
        match taken(node, path[0]) {
            None => Err(Error::Index),
            Some(None) => Err(Error::NothingAtIndex),
            Some(Some(child)) => walked(child, path.drop_first()),
        }
    }
}

/// Follows a path of segments from `node`. A segment that the value cannot
/// be asked for is an error, and so is one that leads to nothing.
pub fn walk(node: ipld_core::ipld::Ipld, path: &Vec<String>) -> (r: Result<
    ipld_core::ipld::Ipld,
    Error,
>)
    ensures
        r == walked(node, texts(path@)),
{
    let mut current = node;
    let mut i: usize = 0;
    proof {
        assert(texts(path@).skip(0) =~= texts(path@));
    }
    while i < path.len()
        invariant
            i <= path.len(),
            walked(node, texts(path@)) == walked(current, texts(path@).skip(i as int)),
        decreases path.len() - i,
    {
        let ghost rest = texts(path@).skip(i as int);
        proof {
            assert(rest[0] == path@[i as int]@);
            assert(rest.drop_first() =~= texts(path@).skip(i + 1));
        }
        match take(current, path[i].as_str()) {
            None => { return Err(Error::Index); },
            Some(None) => { return Err(Error::NothingAtIndex); },
            Some(Some(child)) => { current = child; },
        }
        i += 1;
    }
    Ok(current)
}

/// The bytes of a text followed by a line feed.
pub open spec fn line_bytes(text: Seq<char>) -> Seq<u8> {
    encode_utf8(text.push('\n'))
}

/// What is written for a value that a path led to: nothing for null, the
/// bytes themselves for bytes and for a link's identifier, DAG-CBOR for a
/// list or map, and a line of text for any other scalar.
pub open spec fn rendered(value: Value) -> Result<Seq<u8>, Error> {
    match value {
        Value::Null => Ok(Seq::empty()),
        Value::Bytes(bytes) => Ok(bytes@),
        Value::Composite(node) => match dag_cbor_of(node) {
            Some(bytes) => Ok(bytes),
            None => Err(Error::Encode),
        },
        Value::Bool(b) => Ok(line_bytes(bool_text(b))),
        Value::Integer(i) => Ok(line_bytes(signed_decimal_text(i as int))),
        Value::Float(text) => Ok(line_bytes(text@)),
        Value::Text(text) => Ok(line_bytes(text@)),
        Value::Link(bytes) => Ok(bytes@),
    }
}

/// The bytes of `text` followed by a line feed.
pub fn text_line(text: String) -> (bytes: Vec<u8>)
    ensures
        bytes@ == line_bytes(text@),
{
    let text = crate::encoding::with_line_feed(text);
    text_bytes(text.as_str())
}

/// Writes out a value that a path led to.
pub fn render(value: Value) -> (r: Result<Vec<u8>, Error>)
    ensures
        match r {
            Ok(bytes) => rendered(value) == Ok::<Seq<u8>, Error>(bytes@),
            Err(e) => rendered(value) == Err::<Seq<u8>, Error>(e),
        },
{
    match value {
        Value::Null => Ok(Vec::new()),
        Value::Bytes(bytes) => Ok(bytes),
        Value::Composite(node) => match dag_cbor_write(&node) {
            Some(bytes) => Ok(bytes),
            None => Err(Error::Encode),
        },
        Value::Bool(b) => {
            proof {
                reveal_strlit("true");
                reveal_strlit("false");
                assert("true"@ =~= bool_text(true));
                assert("false"@ =~= bool_text(false));
            }
            let text = if b { "true" } else { "false" };
            Ok(text_line(text.to_owned()))
        },
        Value::Integer(i) => Ok(text_line(format_signed(i))),
        Value::Float(text) => Ok(text_line(text)),
        Value::Text(text) => Ok(text_line(text)),
        Value::Link(bytes) => Ok(bytes),
    }
}

/// What indexing DAG-CBOR input with a path writes.
pub open spec fn indexed(input: Seq<u8>, path: Seq<char>) -> Result<Seq<u8>, Error> {
    match ipld_of_dag_cbor(input) {
        None => Err(Error::Decode),
        Some(node) => match walked(node, segments(path)) {
            Err(e) => Err(e),
            Ok(found) => rendered(top_of(found)),
        },
    }
}

/// Reads DAG-CBOR input, follows `path` into it and writes out what the
/// path leads to.
pub fn dag_cbor_index(input: &[u8], path: &str) -> (r: Result<Vec<u8>, Error>)
    ensures
        match r {
            Ok(bytes) => indexed(input@, path@) == Ok::<Seq<u8>, Error>(bytes@),
            Err(e) => indexed(input@, path@) == Err::<Seq<u8>, Error>(e),
        },
{
    let node = match dag_cbor_read(input) {
        Some(node) => node,
        None => { return Err(Error::Decode); },
    };
    let parts = split_path(path);
    match walk(node, &parts) {
        Err(e) => Err(e),
        Ok(found) => render(top(found)),
    }
}

/// A codec that the tools read IPLD data in.
#[derive(Clone, Copy, Debug, PartialEq, Eq, Structural)]
pub enum Codec {
    DagCbor,
    DagJson,
    DagJose,
}

impl Codec {
    /// The codec of a multicodec code, if the tools read it.
    pub open spec fn spec_of_code(code: u64) -> Option<Codec> {
        if code == DAG_CBOR {
            Some(Codec::DagCbor)
        } else if code == DAG_JSON {
            Some(Codec::DagJson)
        } else if code == DAG_JOSE {
            Some(Codec::DagJose)
        } else {
            None
        }
    }

    /// The codec of a multicodec code, if the tools read it.
    pub fn of_code(code: u64) -> (r: Option<Codec>)
        ensures
            r == Codec::spec_of_code(code),
    {
        if code == DAG_CBOR {
            Some(Codec::DagCbor)
        } else if code == DAG_JSON {
            Some(Codec::DagJson)
        } else if code == DAG_JOSE {
            Some(Codec::DagJose)
        } else {
            None
        }
    }
}

/// The value that input holds in a codec.
pub open spec fn decoded(codec: Codec, input: Seq<u8>) -> Option<ipld_core::ipld::Ipld> {
    match codec {
        Codec::DagCbor => ipld_of_dag_cbor(input),
        Codec::DagJson => ipld_of_dag_json(input),
        Codec::DagJose => ipld_of_dag_jose(input),
    }
}

/// Reads input in a codec.
pub fn decode(codec: Codec, input: &[u8]) -> (r: Result<ipld_core::ipld::Ipld, Error>)
    ensures
        match r {
            Ok(node) => decoded(codec, input@) == Some(node),
            Err(e) => decoded(codec, input@) is None && e == Error::Decode,
        },
{
    let read = match codec {
        Codec::DagCbor => dag_cbor_read(input),
        Codec::DagJson => dag_json_read(input),
        Codec::DagJose => dag_jose_read(input),
    };
    match read {
        Some(node) => Ok(node),
        None => Err(Error::Decode),
    }
}

/// The DAG-JSON line of what input holds in a codec.
pub open spec fn json_line_of(codec: Codec, input: Seq<u8>) -> Result<Seq<u8>, Error> {
    match decoded(codec, input) {
        None => Err(Error::Decode),
        Some(node) => match dag_json_of(node) {
            None => Err(Error::Encode),
            Some(json) => Ok(json.push(0x0au8)),
        },
    }
}

/// Reads input in a codec and writes it as DAG-JSON, followed by a line
/// feed.
pub fn json_line(codec: Codec, input: &[u8]) -> (r: Result<Vec<u8>, Error>)
    ensures
        match r {
            Ok(bytes) => json_line_of(codec, input@) == Ok::<Seq<u8>, Error>(bytes@),
            Err(e) => json_line_of(codec, input@) == Err::<Seq<u8>, Error>(e),
        },
{
    let node = decode(codec, input)?;
    match dag_json_write(&node) {
        None => Err(Error::Encode),
        Some(json) => {
            let mut out = json;
            out.push(0x0a);
            Ok(out)
        },
    }
}

/// The hexadecimal line of the DAG-CBOR form of DAG-JSON input.
pub open spec fn cbor_hex_line_of(input: Seq<u8>) -> Result<Seq<u8>, Error> {
    match ipld_of_dag_json(input) {
        None => Err(Error::Decode),
        Some(node) => match dag_cbor_of(node) {
            None => Err(Error::Encode),
            Some(cbor) => Ok(line_bytes(crate::encoding::hex_text(cbor))),
        },
    }
}

/// Reads DAG-JSON input and writes its DAG-CBOR form in hexadecimal,
/// followed by a line feed.
pub fn cbor_hex_line(input: &[u8]) -> (r: Result<Vec<u8>, Error>)
    ensures
        match r {
            Ok(bytes) => cbor_hex_line_of(input@) == Ok::<Seq<u8>, Error>(bytes@),
            Err(e) => cbor_hex_line_of(input@) == Err::<Seq<u8>, Error>(e),
        },
{
    let node = decode(Codec::DagJson, input)?;
    match dag_cbor_write(&node) {
        None => Err(Error::Encode),
        Some(cbor) => Ok(text_line(crate::encoding::hex_encode(cbor.as_slice()))),
    }
}

/// The line that shows what DAG-CBOR input holds.
pub open spec fn debug_line_of(input: Seq<u8>) -> Result<Seq<u8>, Error> {
    match ipld_of_dag_cbor(input) {
        None => Err(Error::Decode),
        Some(node) => Ok(line_bytes(debug_text_of(node))),
    }
}

/// Reads DAG-CBOR input and writes the value it holds in the pretty form
/// of its `Debug`, followed by a line feed.
pub fn debug_line(input: &[u8]) -> (r: Result<Vec<u8>, Error>)
    ensures
        match r {
            Ok(bytes) => debug_line_of(input@) == Ok::<Seq<u8>, Error>(bytes@),
            Err(e) => debug_line_of(input@) == Err::<Seq<u8>, Error>(e),
        },
{
    let node = decode(Codec::DagCbor, input)?;
    Ok(text_line(debug_write(&node)))
}

} // verus!
