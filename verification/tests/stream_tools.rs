use ceramic_pocket_knife::cas::{create_stream, genesis_commit, UNIQUE_BYTES};
use ceramic_pocket_knife::ceramic::StreamIdType;
use ceramic_pocket_knife::cid::Multihash;
use ceramic_pocket_knife::cli::{CarFromBlocksArgs, CidInspectArgs, Command, StreamType};
use ceramic_pocket_knife::ipld::Operation;
use ceramic_pocket_knife::{find_tool, reads_input};
use ipld_core::ipld::Ipld;

fn header_of(block: &[u8]) -> std::collections::BTreeMap<String, Ipld> {
    let node: Ipld = serde_ipld_dagcbor::from_slice(block).unwrap();
    match node {
        Ipld::Map(mut commit) => match commit.remove("header") {
            Some(Ipld::Map(header)) => {
                assert!(commit.is_empty());
                header
            }
            other => panic!("unexpected header {:?}", other),
        },
        other => panic!("unexpected commit {:?}", other),
    }
}

#[test]
fn genesis_commit_names_the_controller() {
    let (cid, block) = genesis_commit("did:key:abc", None).unwrap();
    assert_eq!(cid.codec(), 0x71);
    assert!(cid.hash().same(&Multihash::sha2_256(&block)));
    let header = header_of(&block);
    assert_eq!(header.len(), 1);
    assert_eq!(
        header.get("controllers"),
        Some(&Ipld::List(vec![Ipld::String("did:key:abc".to_string())]))
    );
}

#[test]
fn genesis_commit_carries_what_makes_it_unique() {
    let (_, block) = genesis_commit("c", Some(vec![1, 2, 3])).unwrap();
    let header = header_of(&block);
    assert_eq!(header.len(), 2);
    assert_eq!(header.get("unique"), Some(&Ipld::Bytes(vec![1, 2, 3])));
    let (again, _) = genesis_commit("c", Some(vec![1, 2, 3])).unwrap();
    let (other, _) = genesis_commit("c", Some(vec![1, 2, 4])).unwrap();
    let (first, _) = genesis_commit("c", Some(vec![1, 2, 3])).unwrap();
    assert!(first.same(&again));
    assert!(!first.same(&other));
}

#[test]
fn create_stream_gives_identifier_and_first_event() {
    let (stream, cid, block) = create_stream(StreamType::Document, "did:key:abc", false).unwrap();
    assert_eq!(stream.stream_type, StreamIdType::ModelInstanceDocument);
    assert!(stream.cid.same(&cid));
    let (plain, plain_block) = genesis_commit("did:key:abc", None).unwrap();
    assert!(cid.same(&plain));
    assert_eq!(block, plain_block);
}

#[test]
fn create_stream_draws_for_a_unique_stream() {
    let (stream, cid, block) = create_stream(StreamType::Model, "did:key:abc", true).unwrap();
    assert_eq!(stream.stream_type, StreamIdType::Model);
    assert!(cid.hash().same(&Multihash::sha2_256(&block)));
    match header_of(&block).get("unique") {
        Some(Ipld::Bytes(bytes)) => assert_eq!(bytes.len(), UNIQUE_BYTES),
        other => panic!("unexpected unique {:?}", other),
    }
    let (_, other, _) = create_stream(StreamType::Model, "did:key:abc", true).unwrap();
    assert!(!cid.same(&other));
}

#[test]
fn tools_read_standard_input_when_they_need_it() {
    assert!(reads_input(&find_tool(Command::Base2).unwrap()));
    assert!(reads_input(&find_tool(Command::BaseGuess).unwrap()));
    assert!(reads_input(&find_tool(Command::MultihashInspect).unwrap()));
    assert!(reads_input(&find_tool(Command::CidFromBytes).unwrap()));
    assert!(reads_input(&find_tool(Command::DagCborInspect).unwrap()));
    assert!(!reads_input(&find_tool(Command::CidGenerate).unwrap()));
    assert!(!reads_input(&find_tool(Command::DidKeyGenerate).unwrap()));
    assert!(!reads_input(&find_tool(Command::PeerIdGenerate).unwrap()));
    let from_blocks = Command::CarFromBlocks(CarFromBlocksArgs { blocks: vec![] });
    assert!(!reads_input(&find_tool(from_blocks).unwrap()));
}

#[test]
fn cid_inspect_reads_standard_input_for_a_dash() {
    assert!(Operation::CidInspect(CidInspectArgs { cid: "-".to_string() }).reads_input());
    assert!(!Operation::CidInspect(CidInspectArgs { cid: "--".to_string() }).reads_input());
    assert!(!Operation::CidInspect(CidInspectArgs { cid: "bafy".to_string() }).reads_input());
    assert!(!Operation::CidGenerate.reads_input());
    assert!(Operation::CarExtract(ceramic_pocket_knife::cli::CarExtractArgs {
        cid: "-".to_string()
    })
    .reads_input());
}
