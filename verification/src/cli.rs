//! The commands of the tool and their arguments.

use vstd::prelude::*;
use vstd::slice::slice_subrange;

use crate::cid::{cid_of_text, Cid};
use crate::encoding::{chars_string, str_chars};
use crate::error::Error;

verus! {

/// The command line: one command.
#[derive(Debug)]
pub struct Cli {
    pub command: Command,
}

/// A tool, with its arguments.
#[derive(Clone, Debug)]
pub enum Command {
    /// Generate shell completion scripts.
    Completion(CompletionArgs),
    /// Guess the base of input that carries no multibase prefix.
    BaseGuess,
    /// Decode multibase input.
    BaseDecode,
    /// Encode input in base 2.
    Base2,
    /// Encode input in base 8.
    Base8,
    /// Encode input in base 10.
    Base10,
    /// Encode input in lower-case base 16.
    Base16,
    /// Encode input in upper-case base 16.
    Base16Upper,
    /// Encode input in lower-case base 32 with the extended hex alphabet.
    Base32Hex,
    /// Encode input in upper-case base 32 with the extended hex alphabet.
    Base32HexUpper,
    /// Encode input in lower-case base 32.
    Base32,
    /// Encode input in upper-case base 32.
    Base32Upper,
    /// Encode input in z-base-32.
    Base32Z,
    /// Encode input in lower-case base 36.
    Base36,
    /// Encode input in upper-case base 36.
    Base36Upper,
    /// Encode input in base 58 with the Flickr alphabet.
    Base58Flickr,
    /// Encode input in base 58 with the Bitcoin alphabet.
    Base58Btc,
    /// Encode input in base 64.
    Base64,
    /// Encode input in base 64 with the URL-safe alphabet.
    Base64Url,
    /// Inspect a multihash.
    MultihashInspect,
    /// Create a stream identifier.
    StreamIdCreate(StreamIdCreateArgs),
    /// Inspect a stream identifier.
    StreamIdInspect(StreamIdInspectArgs),
    /// Generate a random stream identifier.
    StreamIdGenerate(StreamIdGenerateArgs),
    /// Construct a stream identifier from raw bytes.
    StreamIdFromBytes,
    /// Generate a random event identifier.
    EventIdGenerate(EventIdGenerateArgs),
    /// Inspect a multibase encoded event identifier.
    EventIdInspect(EventIdInspectArgs),
    /// Inspect an event archive.
    EventInspect,
    /// Inspect a multibase encoded interest.
    InterestInspect(InterestInspectArgs),
    /// Generate a random `did:key` identifier.
    DidKeyGenerate,
    /// Generate a random peer identifier.
    PeerIdGenerate,
    /// Generate a random content identifier.
    CidGenerate,
    /// Output a content identifier as raw bytes.
    CidAsBytes(CidInspectArgs),
    /// Inspect a content identifier.
    CidInspect(CidInspectArgs),
    /// Construct a content identifier from its bytes.
    CidFromBytes,
    /// Hash bytes to compute a content identifier.
    CidFromData(CidFromDataArgs),
    /// Convert DAG-JSON data to DAG-CBOR.
    DagJsonToCbor,
    /// Convert DAG-CBOR data to DAG-JSON.
    DagCborToJson,
    /// Convert DAG-JOSE data to DAG-JSON.
    DagJoseToJson,
    /// Inspect DAG-CBOR data.
    DagCborInspect,
    /// Index into DAG-CBOR data.
    DagCborIndex(DagCborIndexArgs),
    /// List the contents of a CAR archive.
    CarInspect(CarInspectArgs),
    /// Extract one block from a CAR archive.
    CarExtract(CarExtractArgs),
    /// Construct a CAR archive from a list of blocks.
    CarFromBlocks(CarFromBlocksArgs),
    /// Deconstruct a CAR archive into its blocks.
    CarToBlocks(CarToBlocksArgs),
    /// Ping a peer.
    P2pPing(PingArgs),
    /// Contact a peer and exchange identities.
    P2pIdentify(IdentifyArgs),
    /// Dump the content of parquet files.
    ParquetDump(ParquetDump),
    /// Inspect the metadata of a parquet file.
    ParquetInspect(ParquetInspect),
    /// Send one anchor request.
    CasAnchorRequest(CasAnchorRequestArgs),
    /// Send anchor requests at a steady rate.
    CasLoadGen(CasLoadGenArgs),
}

/// A shell that completions can be generated for.
#[derive(Clone, Copy, Debug, PartialEq, Eq, Structural)]
pub enum Shell {
    Bash,
    Elvish,
    Fish,
    Nu,
    PowerShell,
    Zsh,
}

/// The arguments of the completion tool.
#[derive(Clone, Copy, Debug)]
pub struct CompletionArgs {
    /// Shell type.
    pub shell: Shell,
}

/// The arguments of the tool that creates a stream identifier.
#[derive(Clone, Debug)]
pub struct StreamIdCreateArgs {
    /// Stream type.
    pub stream_type: StreamType,
    /// Init CID of the stream.
    pub cid: String,
}

/// The arguments of the tool that inspects a stream identifier.
#[derive(Clone, Debug)]
pub struct StreamIdInspectArgs {
    /// Stream ID.
    pub id: String,
}

/// The arguments of the tool that generates a stream identifier.
#[derive(Clone, Copy, Debug)]
pub struct StreamIdGenerateArgs {
    /// Stream type.
    pub stream_type: StreamType,
}

/// The arguments of the tool that generates an event identifier.
#[derive(Clone, Debug)]
pub struct EventIdGenerateArgs {
    /// Network.
    pub network: Network,
    /// Local network ID, only used when the network is local. A random ID
    /// is used when it is not set.
    pub local_network_id: Option<u32>,
    /// Sort key; a random value when not set.
    pub sort_key: Option<String>,
    /// Multibase encoded sort value; a random value when not set.
    pub sort_value: Option<String>,
    /// Controller; a random value when not set.
    pub controller: Option<String>,
    /// Stream ID of the init event; a random value when not set.
    pub init_id: Option<String>,
}

/// The arguments of the tool that inspects an event identifier.
#[derive(Clone, Debug)]
pub struct EventIdInspectArgs {
    /// Multibase encoded event ID to decode.
    pub event_id: String,
}

/// The arguments of the tool that inspects an interest.
#[derive(Clone, Debug)]
pub struct InterestInspectArgs {
    /// Multibase encoded interest to decode.
    pub interest: String,
}

/// The name of a Ceramic network.
#[derive(Clone, Copy, Debug, PartialEq, Eq, Structural)]
pub enum Network {
    Mainnet,
    TestnetClay,
    DevUnstable,
    Local,
    InMemory,
}

/// The type of a stream.
#[derive(Clone, Copy, Debug, PartialEq, Eq, Structural)]
pub enum StreamType {
    Model,
    Document,
}

/// The arguments of the tools that take a content identifier.
#[derive(Clone, Debug)]
pub struct CidInspectArgs {
    /// CID; `-` to read the CID from standard input as text.
    pub cid: String,
}

/// The arguments of the tool that hashes data into a content identifier.
#[derive(Clone, Copy, Debug)]
pub struct CidFromDataArgs {
    /// Codec.
    pub codec: u64,
}

/// The arguments of the tool that lists an archive.
#[derive(Clone, Copy, Debug)]
pub struct CarInspectArgs {
    /// When true, only metadata about the archive is decoded.
    pub metadata_only: bool,
}

/// The arguments of the tool that extracts a block from an archive.
#[derive(Clone, Debug)]
pub struct CarExtractArgs {
    /// CID.
    pub cid: String,
}

/// The arguments of the tool that builds an archive.
#[derive(Clone, Debug)]
pub struct CarFromBlocksArgs {
    /// The files to add to the archive, in order: `@cid:path/to/file` for a
    /// block that is one of the roots, `cid:path/to/file` for any other.
    pub blocks: Vec<CarBlockValue>,
}

/// The arguments of the tool that takes an archive apart.
#[derive(Clone, Debug)]
pub struct CarToBlocksArgs {
    /// Path to save the extracted blocks.
    pub blocks_dir: String,
}

/// A block for a new archive: where its data is, what it is called, and
/// whether it is a root.
#[derive(Clone, Debug)]
pub struct CarBlockValue {
    pub root: bool,
    pub cid: Cid,
    pub path: String,
}

/// The arguments of the tool that indexes into DAG-CBOR data.
#[derive(Clone, Debug)]
pub struct DagCborIndexArgs {
    /// Index path into the IPLD value.
    pub index: String,
}

/// The arguments of the ping probe.
#[derive(Clone, Debug)]
pub struct PingArgs {
    /// Multiaddr of the peer.
    pub peer_addr: String,
    /// Number of pings to send before exiting.
    pub count: usize,
    /// Interval in seconds between pings.
    pub interval: u32,
    /// Timeout in seconds to wait for a pong.
    pub timeout: u32,
}

/// The arguments of the exchange of identities.
#[derive(Clone, Debug)]
pub struct IdentifyArgs {
    /// Multiaddr of the peer.
    pub peer_addr: String,
}

/// The arguments of the tool that dumps parquet files.
#[derive(Clone, Debug)]
pub struct ParquetDump {
    /// Paths of the parquet files to format. All files are taken to have
    /// the same schema.
    pub files: Vec<String>,
    pub format: PrintFormat,
}

/// The format of a dump.
#[derive(Clone, Copy, Debug, PartialEq, Eq, Structural)]
pub enum PrintFormat {
    Csv,
    Json,
    Pretty,
}

/// The arguments of the tool that inspects a parquet file.
#[derive(Clone, Debug)]
pub struct ParquetInspect {
    /// Path of the parquet file to inspect.
    pub file: String,
}

/// The arguments of the tool that sends one anchor request.
#[derive(Clone, Debug)]
pub struct CasAnchorRequestArgs {
    /// Base URL of the anchor service.
    pub url: String,
    /// Controller of the node that signs the request.
    pub node_controller: String,
    /// Stream type.
    pub stream_type: StreamType,
    /// Controller of the stream.
    pub stream_controller: String,
    /// Whether the stream is made unique.
    pub unique: bool,
}

/// The arguments of the tool that sends anchor requests at a steady rate.
#[derive(Clone, Debug)]
pub struct CasLoadGenArgs {
    /// Base URL of the anchor service.
    pub url: String,
    /// Controller of the node that signs the requests.
    pub node_controller: String,
    /// Stream type.
    pub stream_type: StreamType,
    /// Controller of the streams.
    pub stream_controller: String,
    /// Number of requests to send.
    pub count: u64,
    /// Requests per second; as fast as possible when not set.
    pub rate: Option<u64>,
}

/// The character that marks a block argument as a root.
pub const ROOT_PATTERN: char = '@';

/// The number of `ROOT_PATTERN` characters at the head of `text`.
pub open spec fn root_marks(text: Seq<char>) -> nat
    decreases text.len(),
{
    if text.len() > 0 && text[0] == ROOT_PATTERN {
        1 + root_marks(text.drop_first())
    } else {
        0
    }
}

/// The position of the first colon in `text`, or its length if it holds
/// none.
pub open spec fn colon_position(text: Seq<char>) -> nat
    decreases text.len(),
{
    if text.len() > 0 && text[0] != ':' {
        1 + colon_position(text.drop_first())
    } else {
        0
    }
}

/// The parts of a block argument: whether it starts with the root mark,
/// the text between the root marks and the first colon after them, and the
/// text after that colon. Nothing where no colon follows the root marks.
pub open spec fn block_parts(text: Seq<char>) -> Option<(bool, Seq<char>, Seq<char>)> {
    let marks = root_marks(text) as int;
    let rest = text.skip(marks);
    let colon = colon_position(rest) as int;
    if colon < rest.len() {
        Some((marks > 0, rest.take(colon), rest.skip(colon + 1)))
    } else {
        None
    }
}

proof fn lemma_root_marks(text: Seq<char>, k: int)
    requires
        0 <= k <= text.len(),
        forall|i: int| 0 <= i < k ==> text[i] == ROOT_PATTERN,
        k < text.len() ==> text[k] != ROOT_PATTERN,
    ensures
        root_marks(text) == k,
    decreases k,
{
    if k > 0 {
        let tail = text.drop_first();
        assert forall|i: int| 0 <= i < k - 1 implies tail[i] == ROOT_PATTERN by {
            assert(tail[i] == text[i + 1]);
        }
        if k < text.len() {
            assert(tail[k - 1] == text[k]);
        }
        lemma_root_marks(tail, k - 1);
    }
}

proof fn lemma_colon_position(text: Seq<char>, k: int)
    requires
        0 <= k <= text.len(),
        forall|i: int| 0 <= i < k ==> text[i] != ':',
        k < text.len() ==> text[k] == ':',
    ensures
        colon_position(text) == k,
    decreases k,
{
    if k > 0 {
        let tail = text.drop_first();
        assert forall|i: int| 0 <= i < k - 1 implies tail[i] != ':' by {
            assert(tail[i] == text[i + 1]);
        }
        if k < text.len() {
            assert(tail[k - 1] == text[k]);
        }
        lemma_colon_position(tail, k - 1);
    }
}

impl CarBlockValue {
    /// Reads a block argument of the form `cid:path` or `@cid:path`. Every
    /// root mark at the head is dropped, the identifier ends at the first
    /// colon, and the path is all that follows it.
    pub fn from_str(s: &str) -> (r: Result<CarBlockValue, Error>)
        ensures
            match r {
                Ok(block) => block_parts(s@) matches Some((root, id, path)) && block.root == root
                    && cid_of_text(id) == Some(block.cid@) && block.path@ == path,
                Err(e) => match block_parts(s@) {
                    None => e == Error::CarBlockFormat,
                    Some((_, id, _)) => e == Error::InvalidCid && cid_of_text(id) is None,
                },
            },
    {
        let chars = str_chars(s);
        let mut marks: usize = 0;
        while marks < chars.len() && chars[marks] == ROOT_PATTERN
            invariant
                marks <= chars.len(),
                forall|i: int| 0 <= i < marks ==> chars@[i] == ROOT_PATTERN,
            decreases chars.len() - marks,
        {
            marks += 1;
        }
        let mut colon: usize = marks;
        while colon < chars.len() && chars[colon] != ':'
            invariant
                marks <= colon <= chars.len(),
                forall|i: int| marks <= i < colon ==> chars@[i] != ':',
            decreases chars.len() - colon,
        {
            colon += 1;
        }
        proof {
            lemma_root_marks(chars@, marks as int);
            let rest = chars@.skip(marks as int);
            assert forall|i: int| 0 <= i < colon - marks implies rest[i] != ':' by {
                assert(rest[i] == chars@[marks + i]);
            }
            lemma_colon_position(rest, colon - marks);
        }
        if colon >= chars.len() {
            return Err(Error::CarBlockFormat);
        }
        let id = chars_string(slice_subrange(chars.as_slice(), marks, colon));
        let path = chars_string(slice_subrange(chars.as_slice(), colon + 1, chars.len()));
        proof {
            let rest = chars@.skip(marks as int);
            assert(rest.take(colon - marks) =~= chars@.subrange(marks as int, colon as int));
            assert(rest.skip(colon - marks + 1) =~= chars@.subrange(
                colon + 1,
                chars@.len() as int,
            ));
        }
        match Cid::from_text(id.as_str()) {
            Some(cid) => Ok(CarBlockValue { root: marks > 0, cid, path }),
            None => Err(Error::InvalidCid),
        }
    }
}

} // verus!
