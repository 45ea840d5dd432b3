//! CAR archives: a header that names root blocks, then blocks, each with its
//! content identifier.

use vstd::prelude::*;

use crate::cid::{model_of, outside_of, outside_view, Cid, CidView};

verus! {

/// `iroh_car::CarWriter`, which writes an archive block by block.
#[verifier::external_type_specification]
#[verifier::external_body]
#[verifier::reject_recursive_types(W)]
pub struct ExCarWriter<W>(iroh_car::CarWriter<W>);

/// A block of an archive.
pub struct Block {
    pub cid: Cid,
    pub data: Vec<u8>,
}

/// What an archive holds.
pub struct Archive {
    pub roots: Vec<Cid>,
    pub blocks: Vec<Block>,
}

/// What an archive says: the identifiers of its roots, and its blocks in
/// order, each with identifier and data.
pub struct ArchiveView {
    pub roots: Seq<CidView>,
    pub blocks: Seq<(CidView, Seq<u8>)>,
}

/// What a vector of identifiers says.
pub open spec fn cid_views(cids: Seq<Cid>) -> Seq<CidView> {
    Seq::new(cids.len(), |i: int| cids[i]@)
}

/// What a vector of blocks says.
pub open spec fn block_views(blocks: Seq<Block>) -> Seq<(CidView, Seq<u8>)> {
    Seq::new(blocks.len(), |i: int| (blocks[i].cid@, blocks[i].data@))
}

impl View for Archive {
    type V = ArchiveView;

    open spec fn view(&self) -> ArchiveView {
        ArchiveView { roots: cid_views(self.roots@), blocks: block_views(self.blocks@) }
    }
}

/// What `iroh_car::CarReader` reads from a byte string: nothing where the
/// header gives an error, else the roots of the header and the blocks up to
/// the first that gives an error, with whether none did.
pub uninterp spec fn archive_of_bytes(bytes: Seq<u8>) -> Option<(ArchiveView, bool)>;

/// The identifiers that a writer was made with.
pub uninterp spec fn writer_roots(writer: iroh_car::CarWriter<Vec<u8>>) -> Seq<CidView>;

/// Whether a writer has written its header.
pub uninterp spec fn writer_started(writer: iroh_car::CarWriter<Vec<u8>>) -> bool;

/// The bytes that a writer has written so far.
pub uninterp spec fn writer_bytes(writer: iroh_car::CarWriter<Vec<u8>>) -> Seq<u8>;

/// The bytes of the header that names the given roots.
pub uninterp spec fn header_bytes(roots: Seq<CidView>) -> Seq<u8>;

/// The bytes of the section that holds a block.
pub uninterp spec fn section_bytes(cid: CidView, data: Seq<u8>) -> Seq<u8>;

/// What was read of an archive, as the outside crates give it.
pub struct RawArchive {
    pub roots: Vec<::cid::Cid>,
    pub cids: Vec<::cid::Cid>,
    pub data: Vec<Vec<u8>>,
    pub complete: bool,
}

impl RawArchive {
    /// What the raw archive says.
    pub open spec fn spec_contents(self) -> ArchiveView {
        ArchiveView {
            roots: Seq::new(self.roots@.len(), |i: int| outside_view(self.roots@[i])),
            blocks: Seq::new(
                self.cids@.len(),
                |i: int| (outside_view(self.cids@[i]), self.data@[i]@),
            ),
        }
    }
}

/// Reads an archive with `iroh_car::CarReader`: `new` for the header,
/// `header().roots()` for the roots, and `stream()` for the blocks. By its
/// source the stream ends after the first block that gives an error; the
/// blocks before it are kept.
#[verifier::external_body]
fn read_raw(bytes: &[u8]) -> (r: Option<RawArchive>)
    ensures
        match r {
            Some(raw) => raw.cids@.len() == raw.data@.len() && archive_of_bytes(bytes@) == Some(
                (raw.spec_contents(), raw.complete),
            ),
            None => archive_of_bytes(bytes@) is None,
        },
{
    let reader = futures::executor::block_on(iroh_car::CarReader::new(bytes)).ok()?;
    let roots = reader.header().roots().to_vec();
    let items: Vec<Result<(::cid::Cid, Vec<u8>), iroh_car::Error>> = futures::executor::block_on(
        futures::StreamExt::collect(reader.stream()),
    );
    let complete = items.iter().all(Result::is_ok);
    let (cids, data) = items.into_iter().filter_map(Result::ok).unzip();
    Some(RawArchive { roots, cids, data, complete })
}

/// Calls `iroh_car::CarWriter::new` with a version 1 header of the given
/// roots and an empty buffer. By its source nothing is written yet, the
/// header neither.
#[verifier::external_body]
fn writer_new(roots: Vec<::cid::Cid>) -> (writer: iroh_car::CarWriter<Vec<u8>>)
    ensures
        writer_roots(writer) == Seq::new(roots@.len(), |i: int| outside_view(roots@[i])),
        writer_bytes(writer) == Seq::<u8>::empty(),
        !writer_started(writer),
{
    iroh_car::CarWriter::new(iroh_car::CarHeader::new_v1(roots), Vec::new())
}

/// Calls `iroh_car::CarWriter::write`. By its source the first call writes
/// the header before the block's section, and every later call the section
/// alone; the roots stay. Writing into a `Vec<u8>` cannot fail: tokio's
/// `AsyncWrite` for it only appends, and the header's encoding is unwrapped
/// inside the writer.
#[verifier::external_body]
fn writer_write(writer: &mut iroh_car::CarWriter<Vec<u8>>, cid: ::cid::Cid, data: &[u8])
    ensures
        writer_roots(*final(writer)) == writer_roots(*old(writer)),
        writer_started(*final(writer)),
        writer_bytes(*final(writer)) == if writer_started(*old(writer)) {
            writer_bytes(*old(writer)) + section_bytes(outside_view(cid), data@)
        } else {
            writer_bytes(*old(writer)) + header_bytes(writer_roots(*old(writer))) + section_bytes(
                outside_view(cid),
                data@,
            )
        },
{
    futures::executor::block_on(writer.write(cid, data)).unwrap();
}

/// Calls `iroh_car::CarWriter::finish`, which flushes and hands back the
/// buffer with all that was written. Flushing a `Vec<u8>` cannot fail.
#[verifier::external_body]
fn writer_finish(writer: iroh_car::CarWriter<Vec<u8>>) -> (bytes: Vec<u8>)
    ensures
        bytes@ == writer_bytes(writer),
{
    futures::executor::block_on(writer.finish()).unwrap()
}

/// Reads an archive: its roots and its blocks up to the first that cannot
/// be read, with whether all could. Nothing comes of an archive whose
/// header cannot be read.
pub fn read_archive(bytes: &[u8]) -> (r: Option<(Archive, bool)>)
    ensures
        match r {
            Some((archive, complete)) => archive_of_bytes(bytes@) == Some((archive@, complete)),
            None => archive_of_bytes(bytes@) is None,
        },
{
    let raw = match read_raw(bytes) {
        Some(raw) => raw,
        None => { return None; },
    };
    let mut roots: Vec<Cid> = Vec::new();
    let mut i: usize = 0;
    while i < raw.roots.len()
        invariant
            i <= raw.roots@.len(),
            roots@.len() == i,
            forall|j: int| 0 <= j < i ==> roots@[j]@ == outside_view(raw.roots@[j]),
        decreases raw.roots.len() - i,
    {
        roots.push(model_of(&raw.roots[i]));
        i += 1;
    }
    let mut blocks: Vec<Block> = Vec::new();
    let mut k: usize = 0;
    while k < raw.cids.len()
        invariant
            raw.cids@.len() == raw.data@.len(),
            k <= raw.cids@.len(),
            blocks@.len() == k,
            forall|j: int|
                0 <= j < k ==> blocks@[j].cid@ == outside_view(raw.cids@[j]) && blocks@[j].data@
                    == raw.data@[j]@,
        decreases raw.cids.len() - k,
    {
        let cid = model_of(&raw.cids[k]);
        let data = raw.data[k].clone();
        blocks.push(Block { cid, data });
        k += 1;
    }
    let archive = Archive { roots, blocks };
    proof {
        assert(archive@.roots =~= raw.spec_contents().roots);
        assert(archive@.blocks =~= raw.spec_contents().blocks);
    }
    Some((archive, raw.complete))
}

/// The sections of the first `upto` blocks, one after the other.
pub open spec fn sections(blocks: Seq<(CidView, Seq<u8>)>, upto: int) -> Seq<u8>
    decreases upto,
{
    if upto <= 0 || upto > blocks.len() {
        Seq::empty()
    } else {
        sections(blocks, upto - 1) + section_bytes(blocks[upto - 1].0, blocks[upto - 1].1)
    }
}

/// The bytes of an archive: nothing at all for an archive without blocks,
/// else the header and then each block's section.
pub open spec fn archive_bytes(archive: ArchiveView) -> Seq<u8> {
    if archive.blocks.len() == 0 {
        Seq::empty()
    } else {
        header_bytes(archive.roots) + sections(archive.blocks, archive.blocks.len() as int)
    }
}

/// Writes an archive with the given roots and blocks. An archive without
/// blocks is empty: the header is written with the first block.
pub fn write_archive(archive: &Archive) -> (bytes: Vec<u8>)
    ensures
        bytes@ == archive_bytes(archive@),
{
    let mut roots: Vec<::cid::Cid> = Vec::new();
    let mut i: usize = 0;
    while i < archive.roots.len()
        invariant
            i <= archive.roots@.len(),
            roots@.len() == i,
            forall|j: int| 0 <= j < i ==> outside_view(roots@[j]) == archive.roots@[j]@,
        decreases archive.roots.len() - i,
    {
        roots.push(outside_of(&archive.roots[i]));
        i += 1;
    }
    let mut writer = writer_new(roots);
    proof {
        assert(writer_roots(writer) =~= archive@.roots);
    }
    let ghost blocks = archive@.blocks;
    let mut k: usize = 0;
    while k < archive.blocks.len()
        invariant
            k <= archive.blocks@.len(),
            blocks == archive@.blocks,
            blocks.len() == archive.blocks@.len(),
            writer_roots(writer) == archive@.roots,
            writer_bytes(writer) == if k == 0 {
                Seq::<u8>::empty()
            } else {
                header_bytes(archive@.roots) + sections(blocks, k as int)
            },
            writer_started(writer) == (k > 0),
        decreases archive.blocks.len() - k,
    {
        let block = &archive.blocks[k];
        let cid = outside_of(&block.cid);
        let ghost before = writer_bytes(writer);
        writer_write(&mut writer, cid, block.data.as_slice());
        proof {
            let one = section_bytes(blocks[k as int].0, blocks[k as int].1);
            assert(blocks[k as int] == (block.cid@, block.data@));
            assert(sections(blocks, k + 1) == sections(blocks, k as int) + one);
            if k == 0 {
                assert(sections(blocks, 0) =~= Seq::<u8>::empty());
                assert(Seq::<u8>::empty() + one =~= one);
                assert(Seq::<u8>::empty() + header_bytes(archive@.roots) =~= header_bytes(
                    archive@.roots,
                ));
            } else {
                assert((header_bytes(archive@.roots) + sections(blocks, k as int)) + one
                    =~= header_bytes(archive@.roots) + (sections(blocks, k as int) + one));
            }
        }
        k += 1;
    }
    writer_finish(writer)
}

} // verus!
