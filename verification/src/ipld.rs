//! The tools for content identifiers, IPLD data and CAR archives.

use vstd::prelude::*;
use vstd::string::StringExecFns;
use vstd::utf8::{decode_utf8, encode_utf8, valid_utf8};

use crate::car::{
    archive_bytes, archive_of_bytes, cid_views, read_archive, write_archive, Archive, ArchiveView,
    Block,
};
use crate::cid::{
    cid_bytes, cid_of_bytes, cid_of_text, cid_text, digest_of, sha2_256, Cid, CidView, Multihash,
    MultihashView, Version, DAG_PB, SHA2_256,
};
use crate::cli::{
    CarBlockValue, CarExtractArgs, CarFromBlocksArgs, CarInspectArgs, CidFromDataArgs,
    CidInspectArgs, Command, DagCborIndexArgs,
};
use crate::dag::{
    cbor_hex_line, cbor_hex_line_of, dag_cbor_index, debug_line, debug_line_of, indexed, json_line,
    json_line_of, line_bytes, text_line, Codec,
};
use crate::encoding::{
    bool_text, decimal_text, format_decimal, format_lower_hex, hex_encode, hex_text,
    lower_hex_text, string_from_utf8, text_bytes, trim, trimmed,
};
use crate::error::{all_or_nothing, written_or_failed, Error, Failure};
use crate::multibase::{encode, multibase_encoded, Base};
use crate::random::random_bytes;

verus! {

/// A tool for content identifiers, IPLD data or CAR archives.
#[derive(Clone, Debug)]
pub enum Operation {
    CidGenerate,
    CidInspect(CidInspectArgs),
    CidFromBytes,
    CidFromData(CidFromDataArgs),
    DagJsonToCbor,
    DagCborToJson,
    DagJoseToJson,
    DagCborInspect,
    DagCborIndex(DagCborIndexArgs),
    CarInspect(CarInspectArgs),
    CarExtract(CarExtractArgs),
    CarFromBlocks(CarFromBlocksArgs),
}

impl Operation {
    /// The tool of this group that a command asks for, if it asks for one.
    pub open spec fn of_command(command: Command) -> Option<Operation> {
        match command {
            Command::CidGenerate => Some(Operation::CidGenerate),
            Command::CidInspect(args) => Some(Operation::CidInspect(args)),
            Command::CidFromBytes => Some(Operation::CidFromBytes),
            Command::CidFromData(args) => Some(Operation::CidFromData(args)),
            Command::DagJsonToCbor => Some(Operation::DagJsonToCbor),
            Command::DagCborToJson => Some(Operation::DagCborToJson),
            Command::DagJoseToJson => Some(Operation::DagJoseToJson),
            Command::DagCborInspect => Some(Operation::DagCborInspect),
            Command::DagCborIndex(args) => Some(Operation::DagCborIndex(args)),
            Command::CarInspect(args) => Some(Operation::CarInspect(args)),
            Command::CarExtract(args) => Some(Operation::CarExtract(args)),
            Command::CarFromBlocks(args) => Some(Operation::CarFromBlocks(args)),
            _ => None,
        }
    }

    /// The tool of this group that a command asks for; a command for
    /// another tool comes back unchanged.
    pub fn try_from(value: Command) -> (r: Result<Operation, Command>)
        ensures
            match r {
                Ok(op) => Operation::of_command(value) == Some(op),
                Err(back) => Operation::of_command(value) is None && back == value,
            },
    {
        match value {
            Command::CidGenerate => Ok(Operation::CidGenerate),
            Command::CidInspect(args) => Ok(Operation::CidInspect(args)),
            Command::CidFromBytes => Ok(Operation::CidFromBytes),
            Command::CidFromData(args) => Ok(Operation::CidFromData(args)),
            Command::DagJsonToCbor => Ok(Operation::DagJsonToCbor),
            Command::DagCborToJson => Ok(Operation::DagCborToJson),
            Command::DagJoseToJson => Ok(Operation::DagJoseToJson),
            Command::DagCborInspect => Ok(Operation::DagCborInspect),
            Command::DagCborIndex(args) => Ok(Operation::DagCborIndex(args)),
            Command::CarInspect(args) => Ok(Operation::CarInspect(args)),
            Command::CarExtract(args) => Ok(Operation::CarExtract(args)),
            Command::CarFromBlocks(args) => Ok(Operation::CarFromBlocks(args)),
            other => Err(other),
        }
    }
}

impl Operation {
    /// Whether the tool reads standard input: all do but the two that
    /// generate or build from files, and the inspection of an identifier
    /// reads it only when its argument is a dash.
    pub open spec fn spec_reads_input(self) -> bool {
        match self {
            Operation::CidGenerate => false,
            Operation::CidInspect(args) => args.cid@ == "-"@,
            Operation::CarFromBlocks(_) => false,
            _ => true,
        }
    }

    /// Whether the tool reads standard input.
    pub fn reads_input(&self) -> (b: bool)
        ensures
            b == self.spec_reads_input(),
    {
        match self {
            Operation::CidGenerate => false,
            Operation::CidInspect(args) => {
                let dash = String::from_str("-");
                args.cid == dash
            },
            Operation::CarFromBlocks(_) => false,
            _ => true,
        }
    }
}

/// The name of a version.
pub open spec fn version_name(version: Version) -> Seq<char> {
    match version {
        Version::V0 => "V0"@,
        Version::V1 => "V1"@,
    }
}

/// The seven lines that describe a content identifier: its text under
/// version 1; its text under version 0, which is empty unless the hash is a
/// SHA2-256 digest of 32 bytes; the upper-case base 32 multibase text of
/// its version 0 bytes; its version; codec and hash code in hexadecimal;
/// and the digest in hexadecimal.
pub open spec fn cid_report(cid: CidView) -> Seq<char> {
    let as_v1 = CidView { version: Version::V1, codec: cid.codec, hash: cid.hash };
    let as_v0 = CidView { version: Version::V0, codec: DAG_PB, hash: cid.hash };
    let has_v0 = cid.hash.code == SHA2_256 && cid.hash.digest.len() == 32;
    let v0_text = if has_v0 { cid_text(as_v0) } else { Seq::empty() };
    let v0_bytes = if has_v0 { cid_bytes(as_v0) } else { Seq::empty() };
    "CID V1: "@ + cid_text(as_v1) + "\nCID V0: "@ + v0_text + "\nBase32: "@ + multibase_encoded(
        Base::Base32Upper,
        v0_bytes,
    ) + "\nVersion: "@ + version_name(cid.version) + "\nCodec: 0x"@ + lower_hex_text(
        cid.codec as nat,
    ) + "\nHash Code: 0x"@ + lower_hex_text(cid.hash.code as nat) + "\nHash: 0x"@ + hex_text(
        cid.hash.digest,
    ) + "\n"@
}

/// Describes a content identifier in seven lines.
pub fn fmt_cid(cid: &Cid) -> (r: Result<String, Error>)
    ensures
        r matches Ok(text) && text@ == cid_report(cid@),
{
    let hash = cid.hash().clone();
    let mut v0_text = String::new();
    let mut v0_bytes: Vec<u8> = Vec::new();
    match Cid::new_v0(hash) {
        Some(v0) => {
            v0_text = v0.to_text();
            v0_bytes = v0.to_bytes();
        },
        None => {},
    }
    let v1 = cid.clone().into_v1();
    let version = match cid.version() {
        Version::V0 => "V0",
        Version::V1 => "V1",
    };
    let mut text = String::from_str("CID V1: ");
    text.append(v1.to_text().as_str());
    text.append("\nCID V0: ");
    text.append(v0_text.as_str());
    text.append("\nBase32: ");
    text.append(encode(Base::Base32Upper, v0_bytes.as_slice()).as_str());
    text.append("\nVersion: ");
    text.append(version);
    text.append("\nCodec: 0x");
    text.append(format_lower_hex(cid.codec()).as_str());
    text.append("\nHash Code: 0x");
    text.append(format_lower_hex(cid.hash().code()).as_str());
    text.append("\nHash: 0x");
    text.append(hex_encode(cid.hash().digest().as_slice()).as_str());
    text.append("\n");
    Ok(text)
}

/// The version 1 identifier with codec 0 of the SHA2-256 hash of a seed.
pub open spec fn seeded_cid(seed: Seq<u8>) -> CidView {
    CidView {
        version: Version::V1,
        codec: 0,
        hash: MultihashView { code: SHA2_256, digest: sha2_256(seed) },
    }
}

/// The version 1 identifier with codec 0 of the SHA2-256 hash of a seed.
pub fn cid_of_seed(seed: &[u8]) -> (cid: Cid)
    ensures
        cid@ == seeded_cid(seed@),
{
    Cid::new_v1(0x00, Multihash::sha2_256(seed))
}

/// A random content identifier: that of eight random bytes.
pub fn random_cid() -> (cid: Cid)
    ensures
        exists|seed: Seq<u8>| seed.len() == 8 && cid@ == seeded_cid(seed),
{
    let seed = random_bytes(8);
    cid_of_seed(seed.as_slice())
}

/// The line that holds the text of a content identifier.
pub open spec fn cid_line(cid: CidView) -> Seq<u8> {
    line_bytes(cid_text(cid))
}

/// Whether `cid` is among `roots`.
pub fn is_root(roots: &Vec<Cid>, cid: &Cid) -> (b: bool)
    ensures
        b == cid_views(roots@).contains(cid@),
{
    let mut i: usize = 0;
    while i < roots.len()
        invariant
            i <= roots.len(),
            forall|j: int| 0 <= j < i ==> cid_views(roots@)[j] != cid@,
        decreases roots.len() - i,
    {
        if roots[i].same(cid) {
            assert(cid_views(roots@)[i as int] == cid@);
            return true;
        }
        i += 1;
    }
    false
}

/// The two lines that say whether a block is a root and how many bytes it
/// holds.
pub open spec fn root_and_length(is_root: bool, length: nat) -> Seq<char> {
    "Root: "@ + bool_text(is_root) + "\nLength: "@ + decimal_text(length) + "\n"@
}

/// What is listed for a block of an archive: the description of its
/// identifier, whether it is a root, its length, and, unless only metadata
/// is asked for, its data as a line of DAG-JSON where its codec is DAG-CBOR,
/// DAG-JSON or DAG-JOSE. Data that cannot be read in its codec is an error
/// after all that comes before it is written.
pub open spec fn block_report(
    roots: Seq<CidView>,
    cid: CidView,
    data: Seq<u8>,
    metadata_only: bool,
) -> Result<Seq<u8>, (Seq<u8>, Error)> {
    let head = encode_utf8(cid_report(cid)) + encode_utf8(
        root_and_length(roots.contains(cid), data.len()),
    );
    if metadata_only {
        Ok(head)
    } else {
        match Codec::spec_of_code(cid.codec) {
            None => Ok(head),
            Some(codec) => match json_line_of(codec, data) {
                Err(e) => Err((head, e)),
                Ok(json) => Ok(head + json),
            },
        }
    }
}

/// Lists one block of an archive.
pub fn inspect_block(roots: &Vec<Cid>, block: &Block, metadata_only: bool) -> (r: Result<
    Vec<u8>,
    Failure,
>)
    ensures
        match r {
            Ok(out) => block_report(cid_views(roots@), block.cid@, block.data@, metadata_only)
                == Ok::<Seq<u8>, (Seq<u8>, Error)>(out@),
            Err(failure) => block_report(
                cid_views(roots@),
                block.cid@,
                block.data@,
                metadata_only,
            ) == Err::<Seq<u8>, (Seq<u8>, Error)>(failure@),
        },
{
    let report = match fmt_cid(&block.cid) {
        Ok(report) => report,
        Err(e) => { return Err(Failure::early(e)); },
    };
    let mut out = text_bytes(report.as_str());
    let root = is_root(roots, &block.cid);
    proof {
        reveal_strlit("true");
        reveal_strlit("false");
        assert("true"@ =~= bool_text(true));
        assert("false"@ =~= bool_text(false));
    }
    let mut lines = String::from_str("Root: ");
    lines.append(if root { "true" } else { "false" });
    lines.append("\nLength: ");
    lines.append(format_decimal(block.data.len() as u64).as_str());
    lines.append("\n");
    let mut tail = text_bytes(lines.as_str());
    out.append(&mut tail);
    if !metadata_only {
        match Codec::of_code(block.cid.codec()) {
            None => {},
            Some(codec) => match json_line(codec, block.data.as_slice()) {
                Err(error) => { return Err(Failure { written: out, error }); },
                Ok(json) => {
                    let mut json = json;
                    out.append(&mut json);
                },
            },
        }
    }
    Ok(out)
}

/// What is listed for the blocks of an archive from position `from` on,
/// after `done`. A block that cannot be listed ends the listing with its
/// error, after all that was written by then; an archive that could not be
/// read to its end is an error after the blocks that could.
pub open spec fn inspected(
    archive: ArchiveView,
    complete: bool,
    metadata_only: bool,
    from: int,
    done: Seq<u8>,
) -> Result<Seq<u8>, (Seq<u8>, Error)>
    decreases archive.blocks.len() - from,
{
    if from < 0 || from >= archive.blocks.len() {
        if complete {
            Ok(done)
        } else {
            Err((done, Error::InvalidCar))
        }
    } else {
        match block_report(
            archive.roots,
            archive.blocks[from].0,
            archive.blocks[from].1,
            metadata_only,
        ) {
            Err((head, e)) => Err((done + head, e)),
            Ok(report) => inspected(archive, complete, metadata_only, from + 1, done + report),
        }
    }
}

/// Lists the blocks of an archive in order. `complete` says whether the
/// archive could be read to its end.
pub fn inspect_archive(archive: &Archive, complete: bool, metadata_only: bool) -> (r: Result<
    Vec<u8>,
    Failure,
>)
    ensures
        match r {
            Ok(out) => inspected(archive@, complete, metadata_only, 0, Seq::empty()) == Ok::<
                Seq<u8>,
                (Seq<u8>, Error),
            >(out@),
            Err(failure) => inspected(archive@, complete, metadata_only, 0, Seq::empty())
                == Err::<Seq<u8>, (Seq<u8>, Error)>(failure@),
        },
{
    let mut out: Vec<u8> = Vec::new();
    let mut i: usize = 0;
    while i < archive.blocks.len()
        invariant
            i <= archive.blocks@.len(),
            archive@.blocks.len() == archive.blocks@.len(),
            inspected(archive@, complete, metadata_only, 0, Seq::empty()) == inspected(
                archive@,
                complete,
                metadata_only,
                i as int,
                out@,
            ),
        decreases archive.blocks.len() - i,
    {
        let block = &archive.blocks[i];
        assert(archive@.blocks[i as int] == (block.cid@, block.data@));
        match inspect_block(&archive.roots, block, metadata_only) {
            Err(failure) => {
                let mut head = failure.written;
                out.append(&mut head);
                return Err(Failure { written: out, error: failure.error });
            },
            Ok(report) => {
                let mut report = report;
                out.append(&mut report);
            },
        }
        i += 1;
    }
    if complete {
        Ok(out)
    } else {
        Err(Failure { written: out, error: Error::InvalidCar })
    }
}

/// The data of the blocks from position `from` on that carry the wanted
/// identifier, after `done`.
pub open spec fn extracted(
    blocks: Seq<(CidView, Seq<u8>)>,
    wanted: CidView,
    from: int,
    done: Seq<u8>,
) -> Seq<u8>
    decreases blocks.len() - from,
{
    if from < 0 || from >= blocks.len() {
        done
    } else if blocks[from].0 == wanted {
        extracted(blocks, wanted, from + 1, done + blocks[from].1)
    } else {
        extracted(blocks, wanted, from + 1, done)
    }
}

/// The data of every block of an archive that carries the wanted
/// identifier, in order.
pub fn extract_blocks(archive: &Archive, wanted: &Cid) -> (out: Vec<u8>)
    ensures
        out@ == extracted(archive@.blocks, wanted@, 0, Seq::empty()),
{
    let mut out: Vec<u8> = Vec::new();
    let mut i: usize = 0;
    while i < archive.blocks.len()
        invariant
            i <= archive.blocks@.len(),
            archive@.blocks.len() == archive.blocks@.len(),
            extracted(archive@.blocks, wanted@, 0, Seq::empty()) == extracted(
                archive@.blocks,
                wanted@,
                i as int,
                out@,
            ),
        decreases archive.blocks.len() - i,
    {
        let block = &archive.blocks[i];
        assert(archive@.blocks[i as int] == (block.cid@, block.data@));
        if block.cid.same(wanted) {
            let mut data = block.data.clone();
            out.append(&mut data);
        }
        i += 1;
    }
    out
}

/// Whether data is what an identifier names: the hash function of the
/// identifier has to be supported, and the digest of the data under it has
/// to be the identifier's.
pub open spec fn checked(cid: CidView, data: Seq<u8>) -> Result<(), Error> {
    match digest_of(cid.hash.code, data) {
        None => Err(Error::UnsupportedHash),
        Some(digest) => if digest == cid.hash.digest {
            Ok(())
        } else {
            Err(Error::HashMismatch)
        },
    }
}

/// Checks that data is what an identifier names.
pub fn check_block(cid: &Cid, data: &[u8]) -> (r: Result<(), Error>)
    ensures
        r == checked(cid@, data@),
{
    match Multihash::of_data(cid.hash().code(), data) {
        None => Err(Error::UnsupportedHash),
        Some(hash) => if hash.same(cid.hash()) {
            Ok(())
        } else {
            Err(Error::HashMismatch)
        },
    }
}

/// The identifiers of the blocks that are marked as roots, in order.
pub open spec fn marked_roots(blocks: Seq<CarBlockValue>, upto: int) -> Seq<CidView>
    decreases upto,
{
    if upto <= 0 || upto > blocks.len() {
        Seq::empty()
    } else if blocks[upto - 1].root {
        marked_roots(blocks, upto - 1).push(blocks[upto - 1].cid@)
    } else {
        marked_roots(blocks, upto - 1)
    }
}

/// The first error that checking the blocks from position `from` on gives.
pub open spec fn first_failure(
    blocks: Seq<CarBlockValue>,
    files: Seq<Vec<u8>>,
    from: int,
) -> Option<Error>
    decreases blocks.len() - from,
{
    if from < 0 || from >= blocks.len() {
        None
    } else if from >= files.len() {
        Some(Error::MissingFile)
    } else {
        match checked(blocks[from].cid@, files[from]@) {
            Err(e) => Some(e),
            Ok(_) => first_failure(blocks, files, from + 1),
        }
    }
}

/// The blocks of the new archive: each identifier with its file's data.
pub open spec fn paired(blocks: Seq<CarBlockValue>, files: Seq<Vec<u8>>) -> Seq<
    (CidView, Seq<u8>),
> {
    Seq::new(blocks.len(), |i: int| (blocks[i].cid@, files[i]@))
}

/// The archive that is built from blocks and the data of their files: the
/// first block that fails its check is the error; else the roots are the
/// blocks that are marked so, and every block is written. A block without
/// file data fails its check.
pub open spec fn built(blocks: Seq<CarBlockValue>, files: Seq<Vec<u8>>) -> Result<
    Seq<u8>,
    Error,
> {
    match first_failure(blocks, files, 0) {
        Some(e) => Err(e),
        None => Ok(
            archive_bytes(
                ArchiveView {
                    roots: marked_roots(blocks, blocks.len() as int),
                    blocks: paired(blocks, files),
                },
            ),
        ),
    }
}

/// Builds an archive from blocks and the data of the files they name,
/// `files[i]` for `blocks[i]`.
pub fn car_from_blocks(blocks: &Vec<CarBlockValue>, files: &Vec<Vec<u8>>) -> (r: Result<
    Vec<u8>,
    Error,
>)
    ensures
        match r {
            Ok(out) => built(blocks@, files@) == Ok::<Seq<u8>, Error>(out@),
            Err(e) => built(blocks@, files@) == Err::<Seq<u8>, Error>(e),
        },
{
    let mut roots: Vec<Cid> = Vec::new();
    let mut i: usize = 0;
    while i < blocks.len()
        invariant
            i <= blocks.len(),
            cid_views(roots@) == marked_roots(blocks@, i as int),
        decreases blocks.len() - i,
    {
        if blocks[i].root {
            let ghost before = cid_views(roots@);
            roots.push(blocks[i].cid.clone());
            assert(cid_views(roots@) =~= before.push(blocks@[i as int].cid@));
        }
        i += 1;
    }
    let mut held: Vec<Block> = Vec::new();
    let mut k: usize = 0;
    while k < blocks.len()
        invariant
            k <= blocks.len(),
            held@.len() == k,
            k <= files.len(),
            first_failure(blocks@, files@, 0) == first_failure(blocks@, files@, k as int),
            forall|j: int|
                0 <= j < k ==> (#[trigger] held@[j]).cid@ == blocks@[j].cid@ && held@[j].data@
                    == files@[j]@,
        decreases blocks.len() - k,
    {
        if k >= files.len() {
            return Err(Error::MissingFile);
        }
        match check_block(&blocks[k].cid, files[k].as_slice()) {
            Err(e) => { return Err(e); },
            Ok(_) => {},
        }
        let cid = blocks[k].cid.clone();
        let data = files[k].clone();
        assert(data@ =~= files@[k as int]@);
        assert(cid@ == blocks@[k as int].cid@);
        held.push(Block { cid, data });
        k += 1;
    }
    let archive = Archive { roots, blocks: held };
    proof {
        assert(archive@.blocks =~= paired(blocks@, files@));
    }
    Ok(write_archive(&archive))
}

/// What a tool of this group writes for an input, for every tool but the
/// one that generates at random, or how it gives up and what it has written
/// by then. `files` holds the data of the files that the blocks of a new
/// archive name. Only the two tools that read an archive write before they
/// give up.
pub open spec fn output_of(op: Operation, input: Seq<u8>, files: Seq<Vec<u8>>) -> Result<
    Seq<u8>,
    (Seq<u8>, Error),
> {
    match op {
        Operation::CarInspect(args) => match archive_of_bytes(input) {
            None => Err((Seq::empty(), Error::InvalidCar)),
            Some((archive, complete)) => inspected(
                archive,
                complete,
                args.metadata_only,
                0,
                Seq::empty(),
            ),
        },
        Operation::CarExtract(args) => match cid_of_text(args.cid@) {
            None => Err((Seq::empty(), Error::InvalidCid)),
            Some(wanted) => match archive_of_bytes(input) {
                None => Err((Seq::empty(), Error::InvalidCar)),
                Some((archive, complete)) => {
                    let found = extracted(archive.blocks, wanted, 0, Seq::empty());
                    if complete {
                        Ok(found)
                    } else {
                        Err((found, Error::InvalidCar))
                    }
                },
            },
        },
        _ => all_or_nothing(plain_output_of(op, input, files)),
    }
}

/// What a tool of this group writes for an input, for the tools that write
/// only when they succeed.
pub open spec fn plain_output_of(op: Operation, input: Seq<u8>, files: Seq<Vec<u8>>) -> Result<
    Seq<u8>,
    Error,
> {
    match op {
        Operation::CidInspect(args) => {
            if args.cid@ == "-"@ && !valid_utf8(input) {
                Err(Error::InvalidUtf8)
            } else {
                let text = if args.cid@ == "-"@ {
                    trimmed(decode_utf8(input))
                } else {
                    args.cid@
                };
                match cid_of_text(text) {
                    None => Err(Error::InvalidCid),
                    Some(cid) => Ok(encode_utf8(cid_report(cid))),
                }
            }
        },
        Operation::CidFromBytes => match cid_of_bytes(input) {
            None => Err(Error::InvalidCid),
            Some(cid) => Ok(cid_line(cid)),
        },
        Operation::CidFromData(args) => Ok(
            cid_line(
                CidView {
                    version: Version::V1,
                    codec: args.codec,
                    hash: MultihashView { code: SHA2_256, digest: sha2_256(input) },
                },
            ),
        ),
        Operation::DagJsonToCbor => cbor_hex_line_of(input),
        Operation::DagCborToJson => json_line_of(Codec::DagCbor, input),
        Operation::DagJoseToJson => json_line_of(Codec::DagJose, input),
        Operation::DagCborInspect => debug_line_of(input),
        Operation::DagCborIndex(args) => indexed(input, args.index@),
        Operation::CarFromBlocks(args) => built(args.blocks@, files),
        _ => Ok(Seq::empty()),
    }
}

/// The line that holds the text of a content identifier.
pub fn write_cid_line(cid: &Cid) -> (out: Vec<u8>)
    ensures
        out@ == cid_line(cid@),
{
    text_line(cid.to_text())
}

/// Runs a tool of this group on what was read from standard input, and
/// gives what is to be written to standard output; a tool that gives up
/// says what it has written by then. `files` holds, for the tool that
/// builds an archive, the data of the files that its blocks name, in their
/// order; the other tools ignore it. The generating tool writes the line of
/// a random identifier.
pub fn run(op: Operation, input: Vec<u8>, files: Vec<Vec<u8>>) -> (r: Result<Vec<u8>, Failure>)
    ensures
        op is CidGenerate ==> (r matches Ok(out) && exists|seed: Seq<u8>|
            seed.len() == 8 && out@ == cid_line(seeded_cid(seed))),
        !(op is CidGenerate) ==> match r {
            Ok(out) => output_of(op, input@, files@) == Ok::<Seq<u8>, (Seq<u8>, Error)>(out@),
            Err(failure) => output_of(op, input@, files@) == Err::<Seq<u8>, (Seq<u8>, Error)>(
                failure@,
            ),
        },
{
    match op {
        Operation::CidGenerate => {
            let cid = random_cid();
            Ok(write_cid_line(&cid))
        },
        Operation::CarInspect(args) => match read_archive(input.as_slice()) {
            None => Err(Failure::early(Error::InvalidCar)),
            Some((archive, complete)) => inspect_archive(&archive, complete, args.metadata_only),
        },
        Operation::CarExtract(args) => match Cid::from_text(args.cid.as_str()) {
            None => Err(Failure::early(Error::InvalidCid)),
            Some(wanted) => match read_archive(input.as_slice()) {
                None => Err(Failure::early(Error::InvalidCar)),
                Some((archive, complete)) => {
                    let found = extract_blocks(&archive, &wanted);
                    if complete {
                        Ok(found)
                    } else {
                        Err(Failure { written: found, error: Error::InvalidCar })
                    }
                },
            },
        },
        other => written_or_failed(run_plain(other, input, files)),
    }
}

/// Runs a tool of this group that writes only when it succeeds.
fn run_plain(op: Operation, input: Vec<u8>, files: Vec<Vec<u8>>) -> (r: Result<Vec<u8>, Error>)
    requires
        !(op is CidGenerate),
        !(op is CarInspect),
        !(op is CarExtract),
    ensures
        match r {
            Ok(out) => plain_output_of(op, input@, files@) == Ok::<Seq<u8>, Error>(out@),
            Err(e) => plain_output_of(op, input@, files@) == Err::<Seq<u8>, Error>(e),
        },
{
    match op {
        Operation::CidInspect(args) => {
            let dash = String::from_str("-");
            let cid = if args.cid == dash {
                let text = match string_from_utf8(input) {
                    Some(text) => text,
                    None => { return Err(Error::InvalidUtf8); },
                };
                Cid::from_text(trim(text.as_str()).as_str())
            } else {
                Cid::from_text(args.cid.as_str())
            };
            match cid {
                None => Err(Error::InvalidCid),
                Some(cid) => {
                    let report = fmt_cid(&cid)?;
                    Ok(text_bytes(report.as_str()))
                },
            }
        },
        Operation::CidFromBytes => match Cid::from_bytes(input.as_slice()) {
            None => Err(Error::InvalidCid),
            Some(cid) => Ok(write_cid_line(&cid)),
        },
        Operation::CidFromData(args) => {
            let cid = Cid::new_v1(args.codec, Multihash::sha2_256(input.as_slice()));
            Ok(write_cid_line(&cid))
        },
        Operation::DagJsonToCbor => cbor_hex_line(input.as_slice()),
        Operation::DagCborToJson => json_line(Codec::DagCbor, input.as_slice()),
        Operation::DagJoseToJson => json_line(Codec::DagJose, input.as_slice()),
        Operation::DagCborInspect => debug_line(input.as_slice()),
        Operation::DagCborIndex(args) => dag_cbor_index(input.as_slice(), args.index.as_str()),
        Operation::CarFromBlocks(args) => car_from_blocks(&args.blocks, &files),
        _ => Ok(Vec::new()),
    }
}

} // verus!
