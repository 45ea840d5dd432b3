//! Anchor requests: the archive that carries a stream's tip, the header
//! that authorises the request, and the pace of a load run.

use vstd::prelude::*;
use vstd::string::StringExecFns;

use crate::car::{archive_bytes, write_archive, Archive, ArchiveView, Block};
use crate::cid::{
    cid_text, outside_of, sha2_256, Cid, CidView, Multihash, MultihashView, Version, SHA2_256,
};
use crate::ceramic::{convert_type, converted_type, StreamId};
use crate::cli::{CasAnchorRequestArgs, CasLoadGenArgs, Command, StreamType};
use crate::dag::{
    bytes_node, dag_cbor_of, dag_cbor_write, link_node, list_node, make_bytes, make_link,
    make_list, make_map, make_text, map_node, text_node, DAG_CBOR,
};
use crate::encoding::{hex_encode, hex_text};
use crate::error::Error;
use crate::random::{random_bytes, random_uuid_text};

verus! {

/// A tool for anchor requests.
#[derive(Clone, Debug)]
pub enum Operation {
    AnchorRequest(CasAnchorRequestArgs),
    LoadGen(CasLoadGenArgs),
}

impl Operation {
    /// The tool of this group that a command asks for, if it asks for one.
    pub open spec fn of_command(command: Command) -> Option<Operation> {
        match command {
            Command::CasAnchorRequest(args) => Some(Operation::AnchorRequest(args)),
            Command::CasLoadGen(args) => Some(Operation::LoadGen(args)),
            _ => None,
        }
    }

    /// The tool of this group that a command asks for; a command for
    /// another tool comes back unchanged.
    pub fn try_from(value: Command) -> (r: Result<Operation, Command>)
        ensures
            match r {
                Ok(op) => Operation::of_command(value) == Some(op),
                Err(back) => Operation::of_command(value) is None && back == value,
            },
    {
        match value {
            Command::CasAnchorRequest(args) => Ok(Operation::AnchorRequest(args)),
            Command::CasLoadGen(args) => Ok(Operation::LoadGen(args)),
            other => Err(other),
        }
    }
}

/// The number of random bytes that make a stream unique.
pub const UNIQUE_BYTES: usize = 12;

/// The first event of a stream: a map with a header that names the
/// controller and, for a unique stream, carries the bytes that make it so.
pub open spec fn genesis_node(controller: Seq<char>, unique: Option<Seq<u8>>)
    -> ipld_core::ipld::Ipld {
    let controllers = ("controllers"@, list_node(seq![text_node(controller)]));
    let header = match unique {
        Some(bytes) => map_node(seq![controllers, ("unique"@, bytes_node(bytes))]),
        None => map_node(seq![controllers]),
    };
    map_node(seq![("header"@, header)])
}

/// Writes the first event of a stream as DAG-CBOR and gives its identifier
/// with it.
pub fn genesis_commit(controller: &str, unique: Option<Vec<u8>>) -> (r: Result<
    (Cid, Vec<u8>),
    Error,
>)
    ensures
        match dag_cbor_of(
            genesis_node(
                controller@,
                match unique {
                    Some(bytes) => Some(bytes@),
                    None => None,
                },
            ),
        ) {
            None => r == Err::<(Cid, Vec<u8>), Error>(Error::Encode),
            Some(block) => r matches Ok((cid, bytes)) && cid@ == dag_cbor_cid(block) && bytes@
                == block,
        },
{
    let mut controllers: Vec<ipld_core::ipld::Ipld> = Vec::new();
    controllers.push(make_text(controller));
    proof {
        assert(controllers@ =~= seq![text_node(controller@)]);
    }
    let mut header: Vec<(String, ipld_core::ipld::Ipld)> = Vec::new();
    header.push((String::from_str("controllers"), make_list(controllers)));
    match unique {
        Some(bytes) => {
            header.push((String::from_str("unique"), make_bytes(bytes.as_slice())));
            proof {
                assert(crate::dag::entry_views(header@) =~= seq![
                    ("controllers"@, list_node(seq![text_node(controller@)])),
                    ("unique"@, bytes_node(bytes@)),
                ]);
            }
        },
        None => {
            proof {
                assert(crate::dag::entry_views(header@) =~= seq![
                    ("controllers"@, list_node(seq![text_node(controller@)])),
                ]);
            }
        },
    }
    let mut commit: Vec<(String, ipld_core::ipld::Ipld)> = Vec::new();
    commit.push((String::from_str("header"), make_map(header)));
    proof {
        assert(crate::dag::entry_views(commit@).len() == 1);
        assert(crate::dag::entry_views(commit@) =~= seq![
            ("header"@, crate::dag::entry_views(commit@)[0].1),
        ]);
    }
    let node = make_map(commit);
    match dag_cbor_write(&node) {
        None => Err(Error::Encode),
        Some(block) => {
            let cid = Cid::new_v1(DAG_CBOR, Multihash::sha2_256(block.as_slice()));
            Ok((cid, block))
        },
    }
}

/// Creates a stream: its identifier, and the identifier and bytes of its
/// first event. A unique stream carries twelve random bytes.
pub fn create_stream(stream_type: StreamType, controller: &str, unique: bool) -> (r: Result<
    (StreamId, Cid, Vec<u8>),
    Error,
>)
    ensures
        r matches Ok((stream, cid, block)) ==> {
            &&& stream.stream_type == converted_type(stream_type)
            &&& stream.cid@ == cid@
            &&& cid@ == dag_cbor_cid(block@)
            &&& exists|drawn: Option<Seq<u8>>|
                {
                    &&& drawn is Some == unique
                    &&& drawn matches Some(bytes) ==> bytes.len() == UNIQUE_BYTES
                    &&& #[trigger] dag_cbor_of(genesis_node(controller@, drawn)) == Some(block@)
                }
        },
        r matches Err(e) ==> e == Error::Encode && exists|drawn: Option<Seq<u8>>|
            {
                &&& drawn is Some == unique
                &&& drawn matches Some(bytes) ==> bytes.len() == UNIQUE_BYTES
                &&& #[trigger] dag_cbor_of(genesis_node(controller@, drawn)) is None
            },
{
    let drawn = if unique {
        Some(random_bytes(UNIQUE_BYTES))
    } else {
        None
    };
    let ghost seen: Option<Seq<u8>> = if drawn is Some {
        Some(drawn->Some_0@)
    } else {
        None
    };
    match genesis_commit(controller, drawn) {
        Err(e) => {
            assert(dag_cbor_of(genesis_node(controller@, seen)) is None);
            Err(e)
        },
        Ok((cid, block)) => {
            assert(dag_cbor_of(genesis_node(controller@, seen)) == Some(block@));
            let stream = StreamId { stream_type: convert_type(stream_type), cid: cid.clone() };
            Ok((stream, cid, block))
        },
    }
}

/// The path of the anchor service that takes requests.
pub open spec fn requests_url_text(base: Seq<char>) -> Seq<char> {
    base + "/api/v0/requests"@
}

/// The address that anchor requests are sent to.
pub fn requests_url(base: &str) -> (url: String)
    ensures
        url@ == requests_url_text(base@),
{
    String::from_str(base).concat("/api/v0/requests")
}

/// The content type of an anchor request.
pub const CONTENT_TYPE: &'static str = "application/vnd.ipld.car";

/// The root block of a stream tip archive: a map of the time of the
/// request, the stream's identifier and the link to the tip.
pub open spec fn tip_root(timestamp: Seq<char>, stream_id: Seq<u8>, tip: CidView)
    -> ipld_core::ipld::Ipld {
    map_node(
        seq![
            ("timestamp"@, text_node(timestamp)),
            ("streamId"@, bytes_node(stream_id)),
            ("tip"@, link_node(tip)),
        ],
    )
}

/// The identifier of DAG-CBOR bytes: version 1, with their SHA2-256 hash.
pub open spec fn dag_cbor_cid(bytes: Seq<u8>) -> CidView {
    CidView {
        version: Version::V1,
        codec: DAG_CBOR,
        hash: MultihashView { code: SHA2_256, digest: sha2_256(bytes) },
    }
}

/// The archive that carries a stream's tip: its one root is the root
/// block, which links to the genesis event, and its blocks are the root
/// block, the genesis event and the tip event.
pub open spec fn tip_archive(
    root: Seq<u8>,
    genesis_cid: CidView,
    genesis_block: Seq<u8>,
    tip_cid: CidView,
    tip_block: Seq<u8>,
) -> ArchiveView {
    ArchiveView {
        roots: seq![dag_cbor_cid(root)],
        blocks: seq![
            (dag_cbor_cid(root), root),
            (genesis_cid, genesis_block),
            (tip_cid, tip_block),
        ],
    }
}

/// Builds the archive that carries a stream's tip for an anchor request,
/// and gives the identifier of its root block with it. `stream_id` holds
/// the bytes of the stream's identifier, `timestamp` the time of the
/// request.
pub fn stream_tip_car(
    stream_id: Vec<u8>,
    genesis_cid: Cid,
    genesis_block: Vec<u8>,
    tip_cid: Cid,
    tip_block: Vec<u8>,
    timestamp: String,
) -> (r: Result<(Cid, Vec<u8>), Error>)
    ensures
        match dag_cbor_of(tip_root(timestamp@, stream_id@, genesis_cid@)) {
            None => r == Err::<(Cid, Vec<u8>), Error>(Error::Encode),
            Some(root) => r matches Ok((cid, bytes)) && cid@ == dag_cbor_cid(root) && bytes@
                == archive_bytes(
                tip_archive(root, genesis_cid@, genesis_block@, tip_cid@, tip_block@),
            ),
        },
{
    let mut entries: Vec<(String, ipld_core::ipld::Ipld)> = Vec::new();
    entries.push((String::from_str("timestamp"), make_text(timestamp.as_str())));
    entries.push((String::from_str("streamId"), make_bytes(stream_id.as_slice())));
    entries.push((String::from_str("tip"), make_link(outside_of(&genesis_cid))));
    proof {
        assert(crate::dag::entry_views(entries@) =~= seq![
            ("timestamp"@, text_node(timestamp@)),
            ("streamId"@, bytes_node(stream_id@)),
            ("tip"@, link_node(genesis_cid@)),
        ]);
    }
    let root_block = make_map(entries);
    let root = match dag_cbor_write(&root_block) {
        Some(bytes) => bytes,
        None => { return Err(Error::Encode); },
    };
    let root_cid = Cid::new_v1(DAG_CBOR, Multihash::sha2_256(root.as_slice()));
    let mut roots: Vec<Cid> = Vec::new();
    roots.push(root_cid.clone());
    let mut blocks: Vec<Block> = Vec::new();
    blocks.push(Block { cid: root_cid.clone(), data: root });
    blocks.push(Block { cid: genesis_cid, data: genesis_block });
    blocks.push(Block { cid: tip_cid, data: tip_block });
    let archive = Archive { roots, blocks };
    proof {
        let wanted = tip_archive(
            dag_cbor_of(root_block)->Some_0,
            genesis_cid@,
            genesis_block@,
            tip_cid@,
            tip_block@,
        );
        assert(archive@.roots =~= wanted.roots);
        assert(archive@.blocks =~= wanted.blocks);
    }
    Ok((root_cid, write_archive(&archive)))
}

/// What is signed to authorise a request: where it goes, a value used once,
/// and what it carries.
#[derive(Clone, Debug)]
pub struct CasAuthPayload {
    pub url: String,
    pub nonce: String,
    pub digest: String,
}

/// The payload that authorises a request to `url` that carries `digest`,
/// with a fresh random nonce.
pub fn auth_payload(url: String, digest: &Cid) -> (payload: CasAuthPayload)
    ensures
        payload.url@ == url@,
        payload.digest@ == cid_text(digest@),
{
    CasAuthPayload { url, nonce: random_uuid_text(), digest: digest.to_text() }
}

/// The header value that carries a signed payload.
pub open spec fn bearer_text(protected: Seq<char>, payload: Seq<char>, signature: Seq<char>)
    -> Seq<char> {
    "Bearer "@ + protected + "."@ + payload + "."@ + signature
}

/// The value of the authorization header: the protected header, the
/// payload and the signature of the signed payload, joined by dots.
pub fn auth_header(protected: &str, payload: &str, signature: &str) -> (header: String)
    ensures
        header@ == bearer_text(protected@, payload@, signature@),
{
    let mut header = String::from_str("Bearer ");
    header.append(protected);
    header.append(".");
    header.append(payload);
    header.append(".");
    header.append(signature);
    header
}

/// A random secret of `len` bytes in hexadecimal.
pub fn random_secret(len: usize) -> (secret: String)
    ensures
        exists|bytes: Seq<u8>| bytes.len() == len && secret@ == hex_text(bytes),
{
    let bytes = random_bytes(len);
    hex_encode(bytes.as_slice())
}

/// The private key of the node: the configured one, or else a random
/// secret of 32 bytes.
pub fn node_private_key(configured: Option<String>) -> (key: String)
    ensures
        match configured {
            Some(given) => key@ == given@,
            None => exists|bytes: Seq<u8>| bytes.len() == 32 && key@ == hex_text(bytes),
        },
{
    match configured {
        Some(given) => given,
        None => random_secret(32),
    }
}

/// An anchor request, ready to be sent.
#[derive(Clone, Debug)]
pub struct Request {
    pub url: String,
    pub authorization: String,
    pub content_type: String,
    pub body: Vec<u8>,
}

/// The request that posts an archive to the anchor service.
pub fn anchor_request(cas_url: String, auth_header: String, car_bytes: Vec<u8>) -> (request:
    Request)
    ensures
        request.url@ == cas_url@,
        request.authorization@ == auth_header@,
        request.content_type@ == CONTENT_TYPE@,
        request.body@ == car_bytes@,
{
    Request {
        url: cas_url,
        authorization: auth_header,
        content_type: String::from_str(CONTENT_TYPE),
        body: car_bytes,
    }
}

/// The nanoseconds in a second.
pub const NANOS_PER_SECOND: u64 = 1_000_000_000;

/// The time between two requests at a rate of requests per second, in whole
/// nanoseconds.
pub open spec fn interval_of(rate: u64) -> int {
    NANOS_PER_SECOND as int / rate as int
}

/// When request `index` is due after the start, in nanoseconds: at once
/// where no rate is set, else after as many intervals as the low 32 bits of
/// its index say.
pub open spec fn delay_of(rate: Option<u64>, index: u64) -> int {
    match rate {
        None => 0,
        Some(rate) => interval_of(rate) * (index as int % 0x1_0000_0000),
    }
}

/// When request `index` of a load run is due after the start, in
/// nanoseconds. A rate that is set is not zero.
pub fn throttled_delay(rate: Option<u64>, index: u64) -> (nanos: u64)
    requires
        rate != Some(0u64),
    ensures
        nanos == delay_of(rate, index),
{
    match rate {
        None => 0,
        Some(rate) => {
            let interval: u64 = NANOS_PER_SECOND / rate;
            let steps: u64 = index % 0x1_0000_0000;
            assert(interval * steps <= 1_000_000_000 * 0xffff_ffff) by (nonlinear_arith)
                requires
                    interval <= 1_000_000_000,
                    steps <= 0xffff_ffff,
            ;
            interval * steps
        },
    }
}

/// A load run: the request that is sent again and again, how often, and at
/// which rate.
#[derive(Clone, Debug)]
pub struct LoadPlan {
    pub request: CasAnchorRequestArgs,
    pub count: u64,
    pub rate: Option<u64>,
}

/// Whether a load run has nothing to send: no request is asked for, or the
/// rate is zero.
pub open spec fn is_idle(count: u64, rate: Option<u64>) -> bool {
    count == 0 || rate == Some(0u64)
}

/// Plans a load run. Every request of the run makes a stream of its own.
pub fn load_gen(args: CasLoadGenArgs) -> (r: Option<LoadPlan>)
    ensures
        match r {
            None => is_idle(args.count, args.rate),
            Some(plan) => !is_idle(args.count, args.rate) && is_load_of(plan, args),
        },
{
    let idle = match args.rate {
        Some(rate) => rate == 0,
        None => false,
    };
    if args.count == 0 || idle {
        return None;
    }
    let request = CasAnchorRequestArgs {
        url: args.url,
        node_controller: args.node_controller,
        stream_type: args.stream_type,
        stream_controller: args.stream_controller,
        unique: true,
    };
    Some(LoadPlan { request, count: args.count, rate: args.rate })
}

/// The line that reports one answer of a load run.
pub open spec fn load_report_text(count: Seq<char>, time: Seq<char>, answer: Seq<char>) -> Seq<
    char,
> {
    "count: "@ + count + ", time: "@ + time + ", "@ + answer
}

/// The line that reports the answer to request number `count` of a load
/// run, received at `time`.
pub fn load_report(count: u64, time: &str, answer: &str) -> (text: String)
    ensures
        text@ == load_report_text(crate::encoding::decimal_text(count as nat), time@, answer@),
{
    let mut text = String::from_str("count: ");
    text.append(crate::encoding::format_decimal(count).as_str());
    text.append(", time: ");
    text.append(time);
    text.append(", ");
    text.append(answer);
    text
}

/// What is left to do for a tool of this group.
#[derive(Clone, Debug)]
pub enum Plan {
    /// Send one anchor request and write the answer.
    Anchor(CasAnchorRequestArgs),
    /// Send the requests of a load run; the first answer has number 1.
    Load(LoadPlan),
    /// Nothing is to be sent.
    Idle,
}

/// Whether a load run is the one that the arguments ask for: as many
/// requests at that rate, each for a stream of its own.
pub open spec fn is_load_of(load: LoadPlan, args: CasLoadGenArgs) -> bool {
    &&& load.count == args.count
    &&& load.rate == args.rate
    &&& load.request.url@ == args.url@
    &&& load.request.node_controller@ == args.node_controller@
    &&& load.request.stream_type == args.stream_type
    &&& load.request.stream_controller@ == args.stream_controller@
    &&& load.request.unique
}

/// Whether a plan is what is left to do for a tool of this group.
pub open spec fn is_plan_of(op: Operation, plan: Plan) -> bool {
    match op {
        Operation::AnchorRequest(args) => plan == Plan::Anchor(args),
        Operation::LoadGen(args) => if is_idle(args.count, args.rate) {
            plan is Idle
        } else {
            plan matches Plan::Load(load) && is_load_of(load, args)
        },
    }
}

/// Says what is left to do for a tool of this group.
pub fn run(op: Operation) -> (plan: Plan)
    ensures
        is_plan_of(op, plan),
{
    match op {
        Operation::AnchorRequest(args) => Plan::Anchor(args),
        Operation::LoadGen(args) => match load_gen(args) {
            None => Plan::Idle,
            Some(load) => Plan::Load(load),
        },
    }
}

} // verus!
