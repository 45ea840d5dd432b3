use ceramic_pocket_knife::car::{read_archive, write_archive, Archive, Block};
use ceramic_pocket_knife::cid::{Cid, Multihash};
use ceramic_pocket_knife::cli::{
    CarBlockValue, CarExtractArgs, CarFromBlocksArgs, CarInspectArgs, DagCborIndexArgs,
};
use ceramic_pocket_knife::dag::{
    cbor_hex_line, dag_cbor_index, debug_line, decode, json_line, render, split_path, walk,
    Codec, Value, DAG_CBOR, DAG_JOSE, DAG_JSON,
};
use ceramic_pocket_knife::error::Error;
use ceramic_pocket_knife::ipld::{
    car_from_blocks, check_block, extract_blocks, fmt_cid, inspect_archive, inspect_block,
    is_root, run, Operation,
};
use ipld_core::ipld::Ipld;

fn map_a_1() -> Vec<u8> {
    vec![0xa1, 0x61, 0x61, 0x01]
}

fn nested() -> Vec<u8> {
    // {"list": [10, "x", h'0102', true, null], "name": "n"}
    let mut map = std::collections::BTreeMap::new();
    map.insert(
        "list".to_string(),
        Ipld::List(vec![
            Ipld::Integer(10),
            Ipld::String("x".to_string()),
            Ipld::Bytes(vec![1, 2]),
            Ipld::Bool(true),
            Ipld::Null,
            Ipld::Integer(-7),
        ]),
    );
    map.insert("name".to_string(), Ipld::String("n".to_string()));
    serde_ipld_dagcbor::to_vec(&Ipld::Map(map)).unwrap()
}

fn raw_block(data: &[u8]) -> Block {
    Block { cid: Cid::new_v1(0x55, Multihash::sha2_256(data)), data: data.to_vec() }
}

#[test]
fn split_path_splits_at_every_slash() {
    assert_eq!(split_path("a/b/c"), vec!["a", "b", "c"]);
    assert_eq!(split_path("a"), vec!["a"]);
    assert_eq!(split_path(""), vec![""]);
    assert_eq!(split_path("/"), vec!["", ""]);
    assert_eq!(split_path("a//b/"), vec!["a", "", "b", ""]);
}

#[test]
fn split_path_agrees_with_str_split() {
    for path in ["", "/", "a/b", "//", "x/", "/x", "list/0/k"] {
        let theirs: Vec<String> = path.split('/').map(String::from).collect();
        assert_eq!(split_path(path), theirs);
    }
}

#[test]
fn codec_of_code() {
    assert_eq!(Codec::of_code(DAG_CBOR), Some(Codec::DagCbor));
    assert_eq!(Codec::of_code(DAG_JSON), Some(Codec::DagJson));
    assert_eq!(Codec::of_code(DAG_JOSE), Some(Codec::DagJose));
    assert_eq!(Codec::of_code(0x55), None);
    assert_eq!((DAG_CBOR, DAG_JSON, DAG_JOSE), (0x71, 0x0129, 0x85));
}

#[test]
fn dag_cbor_to_json_line() {
    assert_eq!(json_line(Codec::DagCbor, &map_a_1()).unwrap(), b"{\"a\":1}\n".to_vec());
    assert_eq!(json_line(Codec::DagJose, &map_a_1()).unwrap(), b"{\"a\":1}\n".to_vec());
    assert_eq!(json_line(Codec::DagJson, b"{\"a\": 1}").unwrap(), b"{\"a\":1}\n".to_vec());
    assert_eq!(json_line(Codec::DagCbor, &[0xff]).unwrap_err(), Error::Decode);
}

#[test]
fn dag_json_to_cbor_hex_line() {
    assert_eq!(cbor_hex_line(b"{\"a\":1}").unwrap(), b"a1616101\n".to_vec());
    assert_eq!(cbor_hex_line(b"{").unwrap_err(), Error::Decode);
}

#[test]
fn dag_cbor_debug_line() {
    let node: Ipld = serde_ipld_dagcbor::from_slice(&map_a_1()).unwrap();
    assert_eq!(debug_line(&map_a_1()).unwrap(), format!("{:#?}\n", node).into_bytes());
    assert_eq!(debug_line(&[]).unwrap_err(), Error::Decode);
}

#[test]
fn decode_reads_each_codec() {
    assert_eq!(decode(Codec::DagCbor, &map_a_1()).unwrap(), decode(Codec::DagJson, b"{\"a\":1}").unwrap());
    assert_eq!(decode(Codec::DagJson, b"nonsense").unwrap_err(), Error::Decode);
}

#[test]
fn walk_follows_segments() {
    let node: Ipld = serde_ipld_dagcbor::from_slice(&nested()).unwrap();
    let path = vec!["list".to_string(), "1".to_string()];
    assert_eq!(walk(node.clone(), &path).unwrap(), Ipld::String("x".to_string()));
    assert_eq!(walk(node.clone(), &Vec::new()).unwrap(), node);
    let missing = vec!["other".to_string()];
    assert_eq!(walk(node.clone(), &missing).unwrap_err(), Error::NothingAtIndex);
    let beyond = vec!["list".to_string(), "9".to_string()];
    assert_eq!(walk(node.clone(), &beyond).unwrap_err(), Error::NothingAtIndex);
    let no_number = vec!["list".to_string(), "x".to_string()];
    assert_eq!(walk(node.clone(), &no_number).unwrap_err(), Error::Index);
    let into_scalar = vec!["name".to_string(), "0".to_string()];
    assert_eq!(walk(node, &into_scalar).unwrap_err(), Error::Index);
}

#[test]
fn render_writes_each_kind() {
    assert_eq!(render(Value::Null).unwrap(), Vec::<u8>::new());
    assert_eq!(render(Value::Bool(true)).unwrap(), b"true\n".to_vec());
    assert_eq!(render(Value::Bool(false)).unwrap(), b"false\n".to_vec());
    assert_eq!(render(Value::Integer(0)).unwrap(), b"0\n".to_vec());
    assert_eq!(render(Value::Integer(-1234567890123)).unwrap(), b"-1234567890123\n".to_vec());
    assert_eq!(render(Value::Float("1.5".to_string())).unwrap(), b"1.5\n".to_vec());
    assert_eq!(render(Value::Text("h\u{e9}".to_string())).unwrap(), vec![0x68, 0xc3, 0xa9, 0x0a]);
    assert_eq!(render(Value::Bytes(vec![0, 255])).unwrap(), vec![0, 255]);
    assert_eq!(render(Value::Link(vec![1, 2, 3])).unwrap(), vec![1, 2, 3]);
    let list = Ipld::List(vec![Ipld::Integer(10), Ipld::Integer(20)]);
    assert_eq!(render(Value::Composite(list)).unwrap(), vec![0x82, 0x0a, 0x14]);
}

#[test]
fn dag_cbor_index_writes_what_the_path_leads_to() {
    assert_eq!(dag_cbor_index(&map_a_1(), "a").unwrap(), b"1\n".to_vec());
    assert_eq!(dag_cbor_index(&nested(), "list/0").unwrap(), b"10\n".to_vec());
    assert_eq!(dag_cbor_index(&nested(), "list/1").unwrap(), b"x\n".to_vec());
    assert_eq!(dag_cbor_index(&nested(), "list/2").unwrap(), vec![1, 2]);
    assert_eq!(dag_cbor_index(&nested(), "list/3").unwrap(), b"true\n".to_vec());
    assert_eq!(dag_cbor_index(&nested(), "list/4").unwrap(), Vec::<u8>::new());
    assert_eq!(dag_cbor_index(&nested(), "list/5").unwrap(), b"-7\n".to_vec());
    assert_eq!(dag_cbor_index(&nested(), "name").unwrap(), b"n\n".to_vec());
    let list = dag_cbor_index(&nested(), "list").unwrap();
    let read: Ipld = serde_ipld_dagcbor::from_slice(&list).unwrap();
    assert!(matches!(read, Ipld::List(items) if items.len() == 6));
}

#[test]
fn dag_cbor_index_writes_floats_and_links() {
    let cid = cid::Cid::try_from("bafkreibme22gw2h7y2h7tg2fhqotaqjucnbc24deqo72b6mkl2egezxhvy").unwrap();
    let node = Ipld::List(vec![Ipld::Float(2.5), Ipld::Link(cid)]);
    let input = serde_ipld_dagcbor::to_vec(&node).unwrap();
    assert_eq!(dag_cbor_index(&input, "0").unwrap(), b"2.5\n".to_vec());
    assert_eq!(dag_cbor_index(&input, "1").unwrap(), cid.to_bytes());
}

#[test]
fn dag_cbor_index_reports_its_errors() {
    assert_eq!(dag_cbor_index(&[0xff], "a").unwrap_err(), Error::Decode);
    assert_eq!(dag_cbor_index(&map_a_1(), "b").unwrap_err(), Error::NothingAtIndex);
    assert_eq!(dag_cbor_index(&map_a_1(), "").unwrap_err(), Error::NothingAtIndex);
    assert_eq!(dag_cbor_index(&map_a_1(), "a/b").unwrap_err(), Error::Index);
    assert_eq!(dag_cbor_index(&nested(), "list/").unwrap_err(), Error::Index);
}

#[test]
fn run_dag_tools() {
    assert_eq!(run(Operation::DagCborToJson, map_a_1(), vec![]).unwrap(), b"{\"a\":1}\n".to_vec());
    assert_eq!(run(Operation::DagJoseToJson, map_a_1(), vec![]).unwrap(), b"{\"a\":1}\n".to_vec());
    assert_eq!(
        run(Operation::DagJsonToCbor, b"{\"a\":1}".to_vec(), vec![]).unwrap(),
        b"a1616101\n".to_vec()
    );
    assert_eq!(
        run(Operation::DagCborInspect, map_a_1(), vec![]).unwrap(),
        debug_line(&map_a_1()).unwrap()
    );
    let index = Operation::DagCborIndex(DagCborIndexArgs { index: "a".to_string() });
    assert_eq!(run(index, map_a_1(), vec![]).unwrap(), b"1\n".to_vec());
}

#[test]
fn archive_round_trip() {
    let first = raw_block(b"first");
    let second = raw_block(b"second");
    let archive = Archive {
        roots: vec![second.cid.clone()],
        blocks: vec![first, second],
    };
    let bytes = write_archive(&archive);
    let (read, complete) = read_archive(&bytes).unwrap();
    assert!(complete);
    assert_eq!(read.roots.len(), 1);
    assert!(read.roots[0].same(&archive.roots[0]));
    assert_eq!(read.blocks.len(), 2);
    assert!(read.blocks[0].cid.same(&archive.blocks[0].cid));
    assert_eq!(read.blocks[0].data, b"first".to_vec());
    assert_eq!(read.blocks[1].data, b"second".to_vec());
}

#[test]
fn archive_without_blocks_is_empty() {
    let archive = Archive { roots: vec![raw_block(b"x").cid], blocks: vec![] };
    assert_eq!(write_archive(&archive), Vec::<u8>::new());
    assert!(read_archive(&[]).is_none());
    assert!(read_archive(b"not an archive").is_none());
}

#[test]
fn archive_sections_follow_the_header() {
    let block = raw_block(b"data");
    let archive = Archive { roots: vec![block.cid.clone()], blocks: vec![raw_block(b"data")] };
    let bytes = write_archive(&archive);
    let mut section = vec![(block.cid.to_bytes().len() + 4) as u8];
    section.extend_from_slice(&block.cid.to_bytes());
    section.extend_from_slice(b"data");
    assert!(bytes.ends_with(&section));
    let header_len = bytes.len() - section.len();
    assert_eq!(bytes[0] as usize, header_len - 1);
}

#[test]
fn is_root_finds_an_identifier_among_roots() {
    let a = raw_block(b"a").cid;
    let b = raw_block(b"b").cid;
    assert!(is_root(&vec![a.clone(), b.clone()], &b));
    assert!(!is_root(&vec![a.clone()], &b));
    assert!(!is_root(&vec![], &a));
}

#[test]
fn inspect_block_lists_identifier_root_and_length() {
    let block = raw_block(b"hello");
    let roots = vec![block.cid.clone()];
    let expected = format!("{}Root: true\nLength: 5\n", fmt_cid(&block.cid).unwrap());
    assert_eq!(inspect_block(&roots, &block, false).unwrap(), expected.into_bytes());
    let expected = format!("{}Root: false\nLength: 5\n", fmt_cid(&block.cid).unwrap());
    assert_eq!(inspect_block(&vec![], &block, true).unwrap(), expected.into_bytes());
}

#[test]
fn inspect_block_shows_data_of_known_codecs() {
    let data = map_a_1();
    let block = Block { cid: Cid::new_v1(DAG_CBOR, Multihash::sha2_256(&data)), data };
    let head = format!("{}Root: false\nLength: 4\n", fmt_cid(&block.cid).unwrap());
    assert_eq!(
        inspect_block(&vec![], &block, false).unwrap(),
        format!("{}{{\"a\":1}}\n", head).into_bytes()
    );
    assert_eq!(inspect_block(&vec![], &block, true).unwrap(), head.into_bytes());
    let broken = Block { cid: block.cid.clone(), data: vec![0xff] };
    let failure = inspect_block(&vec![], &broken, false).unwrap_err();
    assert_eq!(failure.error, Error::Decode);
    assert_eq!(failure.written, inspect_block(&vec![], &broken, true).unwrap());
    assert!(inspect_block(&vec![], &broken, true).is_ok());
}

#[test]
fn inspect_archive_lists_blocks_in_order() {
    let first = raw_block(b"first");
    let second = raw_block(b"second");
    let roots = vec![first.cid.clone()];
    let mut expected = inspect_block(&roots, &first, false).unwrap();
    expected.extend(inspect_block(&roots, &second, false).unwrap());
    let archive = Archive { roots, blocks: vec![first, second] };
    assert_eq!(inspect_archive(&archive, true, false).unwrap(), expected);
    let input = write_archive(&archive);
    let op = Operation::CarInspect(CarInspectArgs { metadata_only: false });
    assert_eq!(run(op, input, vec![]).unwrap(), expected);
    let op = Operation::CarInspect(CarInspectArgs { metadata_only: true });
    assert_eq!(run(op, b"junk".to_vec(), vec![]).unwrap_err().error, Error::InvalidCar);
}

#[test]
fn extract_blocks_gives_the_data_of_the_wanted_blocks() {
    let first = raw_block(b"first");
    let second = raw_block(b"second");
    let wanted = first.cid.clone();
    let archive = Archive {
        roots: vec![wanted.clone()],
        blocks: vec![first, second, raw_block(b"first")],
    };
    assert_eq!(extract_blocks(&archive, &wanted), b"firstfirst".to_vec());
    assert_eq!(extract_blocks(&archive, &raw_block(b"other").cid), Vec::<u8>::new());
    let input = write_archive(&archive);
    let op = Operation::CarExtract(CarExtractArgs { cid: wanted.to_text() });
    assert_eq!(run(op, input.clone(), vec![]).unwrap(), b"firstfirst".to_vec());
    let op = Operation::CarExtract(CarExtractArgs { cid: "bad".to_string() });
    assert_eq!(run(op, input, vec![]).unwrap_err().error, Error::InvalidCid);
    let op = Operation::CarExtract(CarExtractArgs { cid: wanted.to_text() });
    assert_eq!(run(op, vec![1, 2, 3], vec![]).unwrap_err().error, Error::InvalidCar);
}

#[test]
fn check_block_compares_the_hash() {
    let block = raw_block(b"data");
    assert_eq!(check_block(&block.cid, b"data"), Ok(()));
    assert_eq!(check_block(&block.cid, b"other"), Err(Error::HashMismatch));
    let odd = Cid::new_v1(0x55, Multihash::wrap(0x9999, vec![1]).unwrap());
    assert_eq!(check_block(&odd, b"data"), Err(Error::UnsupportedHash));
    let short = Cid::new_v1(0x55, Multihash::wrap(0x12, vec![1; 31]).unwrap());
    assert_eq!(check_block(&short, b"data"), Err(Error::HashMismatch));
}

#[test]
fn car_from_blocks_builds_an_archive() {
    let a = raw_block(b"a");
    let b = raw_block(b"b");
    let blocks = vec![
        CarBlockValue { root: false, cid: a.cid.clone(), path: "a".to_string() },
        CarBlockValue { root: true, cid: b.cid.clone(), path: "b".to_string() },
    ];
    let files = vec![b"a".to_vec(), b"b".to_vec()];
    let bytes = car_from_blocks(&blocks, &files).unwrap();
    let (read, complete) = read_archive(&bytes).unwrap();
    assert!(complete);
    assert_eq!(read.roots.len(), 1);
    assert!(read.roots[0].same(&b.cid));
    assert_eq!(read.blocks.len(), 2);
    assert!(read.blocks[0].cid.same(&a.cid));
    assert_eq!(read.blocks[1].data, b"b".to_vec());
    let op = Operation::CarFromBlocks(CarFromBlocksArgs { blocks: blocks.clone() });
    assert_eq!(run(op, vec![], files).unwrap(), bytes);
    assert_eq!(bytes, write_archive(&Archive { roots: vec![b.cid.clone()], blocks: vec![a, b] }));
}

#[test]
fn car_from_blocks_reports_the_first_failure() {
    let a = raw_block(b"a");
    let odd = Cid::new_v1(0x55, Multihash::wrap(0x9999, vec![1]).unwrap());
    let blocks = vec![
        CarBlockValue { root: true, cid: a.cid.clone(), path: "a".to_string() },
        CarBlockValue { root: false, cid: a.cid.clone(), path: "b".to_string() },
        CarBlockValue { root: false, cid: odd, path: "c".to_string() },
    ];
    let files = vec![b"a".to_vec(), b"x".to_vec(), b"c".to_vec()];
    assert_eq!(car_from_blocks(&blocks, &files).unwrap_err(), Error::HashMismatch);
    let files = vec![b"a".to_vec(), b"a".to_vec(), b"c".to_vec()];
    assert_eq!(car_from_blocks(&blocks, &files).unwrap_err(), Error::UnsupportedHash);
    let files = vec![b"a".to_vec()];
    assert_eq!(car_from_blocks(&blocks, &files).unwrap_err(), Error::MissingFile);
    assert_eq!(car_from_blocks(&vec![], &vec![]).unwrap(), Vec::<u8>::new());
}

#[test]
fn a_truncated_archive_keeps_its_first_blocks() {
    let first = raw_block(b"first");
    let second = raw_block(b"second");
    let roots = vec![first.cid.clone()];
    let report = inspect_block(&roots, &first, false).unwrap();
    let archive = Archive { roots, blocks: vec![first, second] };
    let mut input = write_archive(&archive);
    input.truncate(input.len() - 3);
    let (read, complete) = read_archive(&input).unwrap();
    assert!(!complete);
    assert_eq!(read.blocks.len(), 1);
    assert_eq!(read.blocks[0].data, b"first".to_vec());

    let op = Operation::CarInspect(CarInspectArgs { metadata_only: false });
    let failure = run(op, input.clone(), vec![]).unwrap_err();
    assert_eq!(failure.error, Error::InvalidCar);
    assert_eq!(failure.written, report);

    let op = Operation::CarExtract(CarExtractArgs { cid: archive.blocks[0].cid.to_text() });
    let failure = run(op, input.clone(), vec![]).unwrap_err();
    assert_eq!(failure.error, Error::InvalidCar);
    assert_eq!(failure.written, b"first".to_vec());

    let op = Operation::CarExtract(CarExtractArgs { cid: archive.blocks[1].cid.to_text() });
    let failure = run(op, input, vec![]).unwrap_err();
    assert_eq!(failure.error, Error::InvalidCar);
    assert_eq!(failure.written, Vec::<u8>::new());
}

#[test]
fn a_block_that_cannot_be_shown_ends_the_listing() {
    let first = raw_block(b"first");
    let broken = Block { cid: Cid::new_v1(DAG_CBOR, Multihash::sha2_256(&[0xff])), data: vec![0xff] };
    let later = raw_block(b"later");
    let mut expected = inspect_block(&vec![], &first, true).unwrap();
    expected.extend(inspect_block(&vec![], &broken, true).unwrap());
    let archive = Archive { roots: vec![], blocks: vec![first, broken, later] };
    let failure = inspect_archive(&archive, true, false).unwrap_err();
    assert_eq!(failure.error, Error::Decode);
    assert_eq!(failure.written, expected);
    assert!(inspect_archive(&archive, true, true).is_ok());
    let failure = inspect_archive(&archive, false, true).unwrap_err();
    assert_eq!(failure.error, Error::InvalidCar);
    assert_eq!(failure.written, inspect_archive(&archive, true, true).unwrap());
}

#[test]
fn tools_that_write_at_the_end_write_nothing_when_they_fail() {
    let failure = run(Operation::DagCborToJson, vec![0xff], vec![]).unwrap_err();
    assert_eq!(failure.error, Error::Decode);
    assert!(failure.written.is_empty());
}
