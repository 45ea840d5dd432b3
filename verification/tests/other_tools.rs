use ceramic_pocket_knife::car::read_archive;
use ceramic_pocket_knife::cas;
use ceramic_pocket_knife::ceramic;
use ceramic_pocket_knife::ceramic::{
    convert_network, convert_type, plan_event_id, random_event_id, Action, Chance, InitId,
    NetworkId, SortValue, StreamIdType,
};
use ceramic_pocket_knife::cid::{Cid, Multihash};
use ceramic_pocket_knife::cli::{
    CarToBlocksArgs, CasAnchorRequestArgs, CasLoadGenArgs, CidInspectArgs, Cli, Command,
    CompletionArgs, EventIdGenerateArgs, EventIdInspectArgs, IdentifyArgs, InterestInspectArgs,
    Network, ParquetDump, ParquetInspect, PingArgs, PrintFormat, Shell, StreamIdCreateArgs,
    StreamIdGenerateArgs, StreamIdInspectArgs, StreamType,
};
use ceramic_pocket_knife::error::{Error, Failure, MultibaseError};
use ceramic_pocket_knife::p2p;
use ceramic_pocket_knife::p2p::{
    connection_error, identify_step, identity_report, join, IdentifyEvent, PeerInfo, PingEvent,
    Pings, Probe,
};
use ceramic_pocket_knife::parquet;
use ceramic_pocket_knife::parquet::{batch_style, BatchStyle};
use ceramic_pocket_knife::{find_tool, run, Outcome, Tool};

const FOO_RAW_CID: &str = "bafkreibme22gw2h7y2h7tg2fhqotaqjucnbc24deqo72b6mkl2egezxhvy";

fn chance() -> Chance {
    Chance {
        sort_key: "drawnsortkey".to_string(),
        sort_value_cid: Cid::new_v1(0, Multihash::sha2_256(b"sort")),
        controller: "drawncontroller".to_string(),
        init_cid: Cid::new_v1(0, Multihash::sha2_256(b"init")),
        event_height: 42,
        event_cid: Cid::new_v1(0, Multihash::sha2_256(b"event")),
    }
}

#[test]
fn stream_types_convert() {
    assert_eq!(convert_type(StreamType::Model), StreamIdType::Model);
    assert_eq!(convert_type(StreamType::Document), StreamIdType::ModelInstanceDocument);
}

#[test]
fn networks_convert() {
    assert_eq!(convert_network(Network::Mainnet, None), NetworkId::Mainnet);
    assert_eq!(convert_network(Network::TestnetClay, Some(3)), NetworkId::TestnetClay);
    assert_eq!(convert_network(Network::DevUnstable, None), NetworkId::DevUnstable);
    assert_eq!(convert_network(Network::Local, Some(7)), NetworkId::Local(7));
    assert_eq!(convert_network(Network::InMemory, None), NetworkId::InMemory);
}

#[test]
fn plan_event_id_keeps_what_is_given() {
    let plan = plan_event_id(
        &NetworkId::Local(5),
        Some("key".to_string()),
        Some("value".to_string()),
        Some("controller".to_string()),
        Some("init".to_string()),
        chance(),
    );
    assert_eq!(plan.network, NetworkId::Local(5));
    assert_eq!(plan.sort_key, "key");
    assert!(matches!(plan.sort_value, SortValue::Given(ref text) if text == "value"));
    assert_eq!(plan.controller, "controller");
    assert!(matches!(plan.init_id, InitId::Given(ref text) if text == "init"));
    assert_eq!(plan.event_height, 42);
    assert!(plan.event_cid.same(&chance().event_cid));
}

#[test]
fn plan_event_id_draws_what_is_missing() {
    let plan = plan_event_id(&NetworkId::Mainnet, None, None, None, None, chance());
    assert_eq!(plan.sort_key, "drawnsortkey");
    assert_eq!(plan.controller, "drawncontroller");
    match plan.sort_value {
        SortValue::OfStream(stream) => {
            assert_eq!(stream.stream_type, StreamIdType::Model);
            assert!(stream.cid.same(&chance().sort_value_cid));
        }
        SortValue::Given(_) => panic!("a sort value was drawn"),
    }
    match plan.init_id {
        InitId::Fresh(stream) => {
            assert_eq!(stream.stream_type, StreamIdType::Model);
            assert!(stream.cid.same(&chance().init_cid));
        }
        InitId::Given(_) => panic!("an init id was drawn"),
    }
}

#[test]
fn random_event_id_draws_keys_of_the_right_shape() {
    let plan = random_event_id(&NetworkId::InMemory, None, Some("v".to_string()), None, None);
    assert_eq!(plan.network, NetworkId::InMemory);
    assert_eq!(plan.sort_key.len(), 12);
    assert_eq!(plan.controller.len(), 32);
    assert!(plan.sort_key.chars().all(|c| c.is_ascii_alphanumeric()));
    assert!(matches!(plan.sort_value, SortValue::Given(ref text) if text == "v"));
    assert_eq!(plan.event_cid.codec(), 0);
}

#[test]
fn ceramic_run_creates_a_stream_id() {
    let op = ceramic::Operation::StreamIdCreate(StreamIdCreateArgs {
        stream_type: StreamType::Document,
        cid: FOO_RAW_CID.to_string(),
    });
    match ceramic::run(op).unwrap() {
        Action::ShowStreamId(stream) => {
            assert_eq!(stream.stream_type, StreamIdType::ModelInstanceDocument);
            assert_eq!(stream.cid.to_text(), FOO_RAW_CID);
        }
        other => panic!("unexpected action {:?}", other),
    }
    let op = ceramic::Operation::StreamIdCreate(StreamIdCreateArgs {
        stream_type: StreamType::Model,
        cid: "bad".to_string(),
    });
    assert!(matches!(ceramic::run(op), Err(Error::InvalidCid)));
}

#[test]
fn ceramic_run_hands_inspections_on() {
    let op = ceramic::Operation::StreamIdInspect(StreamIdInspectArgs { id: "kjz".to_string() });
    assert!(matches!(ceramic::run(op), Ok(Action::InspectStreamId(ref id)) if id == "kjz"));
    let op = ceramic::Operation::EventIdInspect(EventIdInspectArgs {
        event_id: "f0102".to_string(),
    });
    assert!(matches!(ceramic::run(op), Ok(Action::InspectEventId(ref b)) if b == &vec![1, 2]));
    let op = ceramic::Operation::InterestInspect(InterestInspectArgs {
        interest: "zCn8eVZg".to_string(),
    });
    assert!(matches!(ceramic::run(op), Ok(Action::InspectInterest(ref b)) if b == b"hello"));
    let op = ceramic::Operation::EventIdInspect(EventIdInspectArgs { event_id: "".to_string() });
    assert!(matches!(
        ceramic::run(op),
        Err(Error::Multibase(MultibaseError::InvalidBaseString))
    ));
    let op = ceramic::Operation::InterestInspect(InterestInspectArgs {
        interest: "!".to_string(),
    });
    assert!(matches!(ceramic::run(op), Err(Error::Multibase(MultibaseError::UnknownBase('!')))));
}

#[test]
fn ceramic_run_generates() {
    let op = ceramic::Operation::StreamIdGenerate(StreamIdGenerateArgs {
        stream_type: StreamType::Model,
    });
    assert!(matches!(
        ceramic::run(op),
        Ok(Action::ShowStreamId(ref s)) if s.stream_type == StreamIdType::Model && s.cid.codec() == 0
    ));
    let op = ceramic::Operation::EventIdGenerate(EventIdGenerateArgs {
        network: Network::Local,
        local_network_id: Some(9),
        sort_key: Some("model".to_string()),
        sort_value: None,
        controller: None,
        init_id: None,
    });
    match ceramic::run(op).unwrap() {
        Action::MakeEventId(plan) => {
            assert_eq!(plan.network, NetworkId::Local(9));
            assert_eq!(plan.sort_key, "model");
            assert_eq!(plan.controller.len(), 32);
        }
        other => panic!("unexpected action {:?}", other),
    }
    let op = ceramic::Operation::EventIdGenerate(EventIdGenerateArgs {
        network: Network::Local,
        local_network_id: None,
        sort_key: None,
        sort_value: None,
        controller: None,
        init_id: None,
    });
    assert!(matches!(
        ceramic::run(op),
        Ok(Action::MakeEventId(ref plan)) if matches!(plan.network, NetworkId::Local(_))
    ));
}

#[test]
fn did_key_line_is_base58btc() {
    let out = ceramic::write_did_key(b"hello");
    assert_eq!(out, b"did:key:zCn8eVZg\n".to_vec());
    match ceramic::run(ceramic::Operation::DidKeyGenerate).unwrap() {
        Action::Write(out) => {
            let text = String::from_utf8(out).unwrap();
            assert!(text.starts_with("did:key:z"));
            assert!(text.ends_with('\n'));
            let key = multibase::decode(&text["did:key:".len()..text.len() - 1]).unwrap().1;
            assert_eq!(key.len(), 32);
        }
        other => panic!("unexpected action {:?}", other),
    }
}

#[test]
fn peer_id_line_ends_with_a_line_feed() {
    match ceramic::run(ceramic::Operation::PeerIdGenerate).unwrap() {
        Action::Write(out) => {
            assert_eq!(out.last(), Some(&b'\n'));
            assert!(out.len() > 10);
        }
        other => panic!("unexpected action {:?}", other),
    }
}

#[test]
fn throttled_delay_counts_intervals() {
    assert_eq!(cas::throttled_delay(None, 5), 0);
    assert_eq!(cas::throttled_delay(Some(2), 0), 0);
    assert_eq!(cas::throttled_delay(Some(2), 3), 1_500_000_000);
    assert_eq!(cas::throttled_delay(Some(3), 1), 333_333_333);
    assert_eq!(cas::throttled_delay(Some(1), 7), 7_000_000_000);
    assert_eq!(cas::throttled_delay(Some(2_000_000_000), 9), 0);
}

#[test]
fn throttled_delay_wraps_the_index_at_32_bits() {
    assert_eq!(cas::throttled_delay(Some(1), 1 << 32), 0);
    assert_eq!(cas::throttled_delay(Some(1), (1 << 32) + 2), 2_000_000_000);
    assert_eq!(cas::throttled_delay(Some(1), u32::MAX as u64), 4_294_967_295_000_000_000);
}

fn load_args(count: u64, rate: Option<u64>) -> CasLoadGenArgs {
    CasLoadGenArgs {
        url: "http://cas".to_string(),
        node_controller: "did:key:node".to_string(),
        stream_type: StreamType::Model,
        stream_controller: "did:key:stream".to_string(),
        count,
        rate,
    }
}

#[test]
fn load_gen_is_idle_without_requests_or_rate() {
    assert!(cas::load_gen(load_args(0, None)).is_none());
    assert!(cas::load_gen(load_args(0, Some(5))).is_none());
    assert!(cas::load_gen(load_args(5, Some(0))).is_none());
    assert!(matches!(cas::run(cas::Operation::LoadGen(load_args(5, Some(0)))), cas::Plan::Idle));
}

#[test]
fn load_gen_plans_unique_requests() {
    let plan = cas::load_gen(load_args(3, Some(10))).unwrap();
    assert_eq!(plan.count, 3);
    assert_eq!(plan.rate, Some(10));
    assert!(plan.request.unique);
    assert_eq!(plan.request.url, "http://cas");
    assert_eq!(plan.request.node_controller, "did:key:node");
    assert_eq!(plan.request.stream_controller, "did:key:stream");
    assert!(matches!(
        cas::run(cas::Operation::LoadGen(load_args(3, None))),
        cas::Plan::Load(ref load) if load.count == 3 && load.rate.is_none()
    ));
}

#[test]
fn cas_texts() {
    assert_eq!(cas::requests_url("http://cas"), "http://cas/api/v0/requests");
    assert_eq!(cas::auth_header("p", "q", "s"), "Bearer p.q.s");
    assert_eq!(cas::load_report(12, "1.5s", "ok"), "count: 12, time: 1.5s, ok");
    assert_eq!(cas::CONTENT_TYPE, "application/vnd.ipld.car");
    let request = cas::anchor_request("u".to_string(), "a".to_string(), vec![1]);
    assert_eq!(request.url, "u");
    assert_eq!(request.authorization, "a");
    assert_eq!(request.content_type, "application/vnd.ipld.car");
    assert_eq!(request.body, vec![1]);
}

#[test]
fn cas_secrets_and_payload() {
    let secret = cas::random_secret(32);
    assert_eq!(secret.len(), 64);
    assert!(secret.chars().all(|c| c.is_ascii_hexdigit() && !c.is_ascii_uppercase()));
    assert_eq!(cas::random_secret(0), "");
    assert_eq!(cas::node_private_key(Some("given".to_string())), "given");
    assert_eq!(cas::node_private_key(None).len(), 64);
    let digest = Cid::from_text(FOO_RAW_CID).unwrap();
    let payload = cas::auth_payload("http://cas".to_string(), &digest);
    assert_eq!(payload.url, "http://cas");
    assert_eq!(payload.digest, FOO_RAW_CID);
    assert_eq!(payload.nonce.len(), 36);
    assert_ne!(payload.nonce, cas::auth_payload("x".to_string(), &digest).nonce);
}

#[test]
fn stream_tip_car_holds_root_genesis_and_tip() {
    let genesis = Cid::new_v1(0x71, Multihash::sha2_256(b"genesis"));
    let tip = Cid::new_v1(0x71, Multihash::sha2_256(b"tip"));
    let (root, bytes) = cas::stream_tip_car(
        vec![0xce, 0x01, 0x02],
        genesis.clone(),
        b"genesis".to_vec(),
        tip.clone(),
        b"tip".to_vec(),
        "2024-01-01T00:00:00+00:00".to_string(),
    )
    .unwrap();
    let (archive, complete) = read_archive(&bytes).unwrap();
    assert!(complete);
    assert_eq!(archive.roots.len(), 1);
    assert!(archive.roots[0].same(&root));
    assert_eq!(archive.blocks.len(), 3);
    assert!(archive.blocks[0].cid.same(&root));
    assert!(archive.blocks[1].cid.same(&genesis));
    assert_eq!(archive.blocks[1].data, b"genesis".to_vec());
    assert!(archive.blocks[2].cid.same(&tip));
    assert_eq!(archive.blocks[2].data, b"tip".to_vec());
    assert_eq!(root.codec(), 0x71);
    assert!(root.hash().same(&Multihash::sha2_256(&archive.blocks[0].data)));
    let block: ipld_core::ipld::Ipld =
        serde_ipld_dagcbor::from_slice(&archive.blocks[0].data).unwrap();
    let mut expected = std::collections::BTreeMap::new();
    expected.insert(
        "timestamp".to_string(),
        ipld_core::ipld::Ipld::String("2024-01-01T00:00:00+00:00".to_string()),
    );
    expected.insert("streamId".to_string(), ipld_core::ipld::Ipld::Bytes(vec![0xce, 0x01, 0x02]));
    expected.insert(
        "tip".to_string(),
        ipld_core::ipld::Ipld::Link(cid::Cid::try_from(genesis.to_bytes()).unwrap()),
    );
    assert_eq!(block, ipld_core::ipld::Ipld::Map(expected));
}

#[test]
fn ping_counts_answers() {
    let mut pings = Pings::new(2);
    let step = pings.step(PingEvent::Other);
    assert!(!step.done && step.output.is_none());
    let step = pings.step(PingEvent::Answer { peer: "p".to_string(), elapsed: "1ms".to_string() });
    assert_eq!(step.output.as_deref(), Some("response from p in 1ms\n"));
    assert!(!step.done);
    assert_eq!(pings.answered(), 1);
    let step = pings.step(PingEvent::Answer { peer: "p".to_string(), elapsed: "2ms".to_string() });
    assert_eq!(step.output.as_deref(), Some("response from p in 2ms\n"));
    assert!(step.done);
    assert_eq!(pings.answered(), 2);
}

#[test]
fn ping_ends_on_the_first_answer_when_none_is_wanted() {
    let mut pings = Pings::new(0);
    let step = pings.step(PingEvent::Answer { peer: "p".to_string(), elapsed: "1ms".to_string() });
    assert!(step.done);
    assert_eq!(pings.answered(), 1);
}

#[test]
fn ping_ends_on_failures() {
    let mut pings = Pings::new(5);
    let step = pings.step(PingEvent::Failure { error: "timeout".to_string() });
    assert_eq!(step.output.as_deref(), Some("ping failed timeout\n"));
    assert!(step.done);
    assert_eq!(pings.answered(), 0);
    let step = pings.step(PingEvent::ConnectionError {
        peer: "None".to_string(),
        error: "refused".to_string(),
    });
    assert_eq!(step.output.as_deref(), Some("failed to connect to None: refused\n"));
    assert!(step.done);
    assert_eq!(connection_error("Some(x)", "e"), "failed to connect to Some(x): e\n");
}

fn info() -> PeerInfo {
    PeerInfo {
        peer: "12D3".to_string(),
        public_key_type: "Ed25519".to_string(),
        protocol_version: "/ipfs/id/1.0.0".to_string(),
        agent_version: "agent/1".to_string(),
        observed_address: "/ip4/1.2.3.4/tcp/5".to_string(),
        listen_addrs: vec!["/ip4/9.9.9.9/tcp/1".to_string(), "/ip4/1.1.1.1/tcp/2".to_string()],
        protocols: vec!["/b".to_string(), "/a/2".to_string(), "/a".to_string()],
    }
}

#[test]
fn identity_report_sorts_the_protocols() {
    let expected = "Peer: 12D3\nPublic Key Type: Ed25519\nProtocol Version: /ipfs/id/1.0.0\n\
Agent Version: agent/1\nObserved Address: /ip4/1.2.3.4/tcp/5\nListen Addresses:\n\
\t/ip4/9.9.9.9/tcp/1\n\t/ip4/1.1.1.1/tcp/2\nProtocols:\n\t/a\n\t/a/2\n\t/b\n";
    assert_eq!(identity_report(info()), expected);
}

#[test]
fn identity_report_of_a_peer_without_addresses() {
    let mut bare = info();
    bare.listen_addrs = vec![];
    bare.protocols = vec![];
    let text = identity_report(bare);
    assert!(text.ends_with("Listen Addresses:\n\t\nProtocols:\n\t\n"));
}

#[test]
fn join_puts_the_separator_between() {
    assert_eq!(join(&vec![], ", "), "");
    assert_eq!(join(&vec!["a".to_string()], ", "), "a");
    assert_eq!(join(&vec!["a".to_string(), "".to_string(), "c".to_string()], ", "), "a, , c");
}

#[test]
fn identify_steps() {
    let step = identify_step(IdentifyEvent::Other);
    assert!(!step.done && step.output.is_none());
    let step = identify_step(IdentifyEvent::Error { error: "boom".to_string() });
    assert!(!step.done);
    assert_eq!(step.output.as_deref(), Some("Error getting peer identity: boom\n"));
    let step = identify_step(IdentifyEvent::ConnectionError {
        peer: "None".to_string(),
        error: "refused".to_string(),
    });
    assert!(step.done);
    assert_eq!(step.output.as_deref(), Some("failed to connect to None: refused\n"));
    let step = identify_step(IdentifyEvent::Received(info()));
    assert!(step.done);
    assert_eq!(step.output, Some(identity_report(info())));
}

#[test]
fn probes_are_set_up_from_their_arguments() {
    let op = p2p::Operation::Ping(PingArgs {
        peer_addr: "/ip4/1.2.3.4/tcp/5".to_string(),
        count: 3,
        interval: 1,
        timeout: 20,
    });
    match p2p::run(op) {
        Probe::Ping { peer_addr, interval, timeout, pings } => {
            assert_eq!(peer_addr, "/ip4/1.2.3.4/tcp/5");
            assert_eq!((interval, timeout), (1, 20));
            assert_eq!(pings.answered(), 0);
        }
        other => panic!("unexpected probe {:?}", other),
    }
    let op = p2p::Operation::Identify(IdentifyArgs { peer_addr: "/dns/x".to_string() });
    assert!(matches!(
        p2p::run(op),
        Probe::Identify { ref peer_addr, ref protocol_version }
            if peer_addr == "/dns/x" && protocol_version == "/ipfs/id/1.0.0"
    ));
    assert_eq!(p2p::IDLE_CONNECTION_SECONDS, 30);
    assert_eq!(p2p::LISTEN_ADDRESS, "/ip4/0.0.0.0/tcp/0");
}

#[test]
fn only_the_first_csv_batch_has_a_header() {
    assert_eq!(batch_style(PrintFormat::Csv, 0), BatchStyle::Csv { header: true });
    assert_eq!(batch_style(PrintFormat::Csv, 1), BatchStyle::Csv { header: false });
    assert_eq!(batch_style(PrintFormat::Csv, usize::MAX), BatchStyle::Csv { header: false });
    assert_eq!(batch_style(PrintFormat::Json, 0), BatchStyle::JsonLines);
    assert_eq!(batch_style(PrintFormat::Pretty, 0), BatchStyle::Table);
}

#[test]
fn parquet_plans() {
    let op = parquet::Operation::Dump(ParquetDump {
        files: vec!["a.parquet".to_string(), "b.parquet".to_string()],
        format: PrintFormat::Json,
    });
    assert!(matches!(
        parquet::run(op),
        parquet::Plan::Dump { ref files, format: PrintFormat::Json } if files.len() == 2
    ));
    let op = parquet::Operation::Inspect(ParquetInspect { file: "a.parquet".to_string() });
    assert!(matches!(parquet::run(op), parquet::Plan::Inspect { ref file } if file == "a.parquet"));
}

#[test]
fn find_tool_sorts_the_commands() {
    assert!(matches!(
        find_tool(Command::Completion(CompletionArgs { shell: Shell::Zsh })),
        Ok(Tool::Completion(CompletionArgs { shell: Shell::Zsh }))
    ));
    assert!(matches!(find_tool(Command::Base2), Ok(Tool::Multibase(_))));
    assert!(matches!(find_tool(Command::CidGenerate), Ok(Tool::Ipld(_))));
    assert!(matches!(find_tool(Command::DidKeyGenerate), Ok(Tool::Ceramic(_))));
    assert!(matches!(find_tool(Command::MultihashInspect), Ok(Tool::Multihash(_))));
    assert!(matches!(
        find_tool(Command::P2pIdentify(IdentifyArgs { peer_addr: "x".to_string() })),
        Ok(Tool::P2p(_))
    ));
    assert!(matches!(
        find_tool(Command::ParquetInspect(ParquetInspect { file: "f".to_string() })),
        Ok(Tool::Parquet(_))
    ));
    assert!(matches!(
        find_tool(Command::CasLoadGen(load_args(1, None))),
        Ok(Tool::Cas(cas::Operation::LoadGen(_)))
    ));
    assert!(matches!(
        find_tool(Command::CasAnchorRequest(CasAnchorRequestArgs {
            url: "u".to_string(),
            node_controller: "n".to_string(),
            stream_type: StreamType::Model,
            stream_controller: "s".to_string(),
            unique: false,
        })),
        Ok(Tool::Cas(cas::Operation::AnchorRequest(_)))
    ));
}

#[test]
fn four_commands_belong_to_no_tool() {
    assert!(matches!(find_tool(Command::StreamIdFromBytes), Err(Error::NoMatch)));
    assert!(matches!(find_tool(Command::EventInspect), Err(Error::NoMatch)));
    assert!(matches!(
        find_tool(Command::CidAsBytes(CidInspectArgs { cid: FOO_RAW_CID.to_string() })),
        Err(Error::NoMatch)
    ));
    assert!(matches!(
        find_tool(Command::CarToBlocks(CarToBlocksArgs { blocks_dir: ".".to_string() })),
        Err(Error::NoMatch)
    ));
    let args = Cli { command: Command::EventInspect };
    assert!(matches!(
        run(args, vec![], vec![]),
        Err(Failure { error: Error::NoMatch, ref written }) if written.is_empty()
    ));
}

#[test]
fn run_gives_output_or_what_is_left_to_do() {
    let args = Cli { command: Command::Base58Btc };
    assert!(matches!(
        run(args, b"hello".to_vec(), vec![]),
        Ok(Outcome::Output(ref out)) if out == b"zCn8eVZg"
    ));
    let args = Cli { command: Command::BaseDecode };
    assert!(matches!(
        run(args, vec![], vec![]),
        Err(Failure { error: Error::Multibase(MultibaseError::InvalidBaseString), .. })
    ));
    let args = Cli { command: Command::MultihashInspect };
    assert!(matches!(
        run(args, vec![0, 0], vec![]),
        Ok(Outcome::Output(ref out)) if out == b"Code: 0\nSize: 0\nDigest(hex): \n"
    ));
    let args = Cli { command: Command::CidFromBytes };
    assert!(matches!(run(args, vec![], vec![]), Err(Failure { error: Error::InvalidCid, .. })));
    let args = Cli { command: Command::Completion(CompletionArgs { shell: Shell::Bash }) };
    assert!(matches!(
        run(args, vec![], vec![]),
        Ok(Outcome::Completion(CompletionArgs { shell: Shell::Bash }))
    ));
    let args = Cli { command: Command::PeerIdGenerate };
    assert!(matches!(run(args, vec![], vec![]), Ok(Outcome::Ceramic(Action::Write(_)))));
    let args = Cli { command: Command::P2pIdentify(IdentifyArgs { peer_addr: "x".to_string() }) };
    assert!(matches!(run(args, vec![], vec![]), Ok(Outcome::P2p(Probe::Identify { .. }))));
    let args = Cli { command: Command::ParquetInspect(ParquetInspect { file: "f".to_string() }) };
    assert!(matches!(run(args, vec![], vec![]), Ok(Outcome::Parquet(_))));
    let args = Cli { command: Command::CasLoadGen(load_args(0, None)) };
    assert!(matches!(run(args, vec![], vec![]), Ok(Outcome::Cas(cas::Plan::Idle))));
}
