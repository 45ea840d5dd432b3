//! The tools for stream, event and peer identifiers. What only the Ceramic
//! libraries can render or read is handed back as an action to perform.

use vstd::prelude::*;
use vstd::string::StringExecFns;

use crate::cid::{cid_of_text, Cid};
use crate::cli::{
    Command, EventIdGenerateArgs, EventIdInspectArgs, InterestInspectArgs, Network,
    StreamIdCreateArgs, StreamIdGenerateArgs, StreamIdInspectArgs, StreamType,
};
use crate::dag::{line_bytes, text_line};
use crate::error::Error;
use crate::ipld::{random_cid, seeded_cid};
use crate::multibase::{decode, encode, multibase_decoded, multibase_encoded, Base};
use crate::random::{
    is_alphanumeric, random_alphanumeric, random_bytes, random_peer_text, thread_random_u32,
    thread_random_u64,
};

verus! {

/// A tool for stream, event and peer identifiers.
#[derive(Clone, Debug)]
pub enum Operation {
    StreamIdCreate(StreamIdCreateArgs),
    StreamIdInspect(StreamIdInspectArgs),
    StreamIdGenerate(StreamIdGenerateArgs),
    EventIdGenerate(EventIdGenerateArgs),
    EventIdInspect(EventIdInspectArgs),
    InterestInspect(InterestInspectArgs),
    DidKeyGenerate,
    PeerIdGenerate,
}

impl Operation {
    /// The tool of this group that a command asks for, if it asks for one.
    pub open spec fn of_command(command: Command) -> Option<Operation> {
        match command {
            Command::StreamIdCreate(args) => Some(Operation::StreamIdCreate(args)),
            Command::StreamIdInspect(args) => Some(Operation::StreamIdInspect(args)),
            Command::StreamIdGenerate(args) => Some(Operation::StreamIdGenerate(args)),
            Command::EventIdGenerate(args) => Some(Operation::EventIdGenerate(args)),
            Command::EventIdInspect(args) => Some(Operation::EventIdInspect(args)),
            Command::InterestInspect(args) => Some(Operation::InterestInspect(args)),
            Command::DidKeyGenerate => Some(Operation::DidKeyGenerate),
            Command::PeerIdGenerate => Some(Operation::PeerIdGenerate),
            _ => None,
        }
    }

    /// The tool of this group that a command asks for; a command for
    /// another tool comes back unchanged.
    pub fn try_from(value: Command) -> (r: Result<Operation, Command>)
        ensures
            match r {
                Ok(op) => Operation::of_command(value) == Some(op),
                Err(back) => Operation::of_command(value) is None && back == value,
            },
    {
        match value {
            Command::StreamIdCreate(args) => Ok(Operation::StreamIdCreate(args)),
            Command::StreamIdInspect(args) => Ok(Operation::StreamIdInspect(args)),
            Command::StreamIdGenerate(args) => Ok(Operation::StreamIdGenerate(args)),
            Command::EventIdGenerate(args) => Ok(Operation::EventIdGenerate(args)),
            Command::EventIdInspect(args) => Ok(Operation::EventIdInspect(args)),
            Command::InterestInspect(args) => Ok(Operation::InterestInspect(args)),
            Command::DidKeyGenerate => Ok(Operation::DidKeyGenerate),
            Command::PeerIdGenerate => Ok(Operation::PeerIdGenerate),
            other => Err(other),
        }
    }
}

/// The kind of a stream, as a stream identifier carries it.
#[derive(Clone, Copy, Debug, PartialEq, Eq, Structural)]
pub enum StreamIdType {
    Model,
    ModelInstanceDocument,
}

/// A Ceramic network, with the identifier of a local one.
#[derive(Clone, Copy, Debug, PartialEq, Eq, Structural)]
pub enum NetworkId {
    Mainnet,
    TestnetClay,
    DevUnstable,
    Local(u32),
    InMemory,
}

/// A stream identifier: the kind of the stream and the identifier of its
/// first event.
#[derive(Clone, Debug)]
pub struct StreamId {
    pub stream_type: StreamIdType,
    pub cid: Cid,
}

/// The kind that a stream identifier carries for a stream type.
pub open spec fn converted_type(value: StreamType) -> StreamIdType {
    match value {
        StreamType::Model => StreamIdType::Model,
        StreamType::Document => StreamIdType::ModelInstanceDocument,
    }
}

/// The kind that a stream identifier carries for a stream type.
pub fn convert_type(value: StreamType) -> (r: StreamIdType)
    ensures
        r == converted_type(value),
{
    match value {
        StreamType::Model => StreamIdType::Model,
        StreamType::Document => StreamIdType::ModelInstanceDocument,
    }
}

/// The network of the given name; a local network takes the identifier.
pub open spec fn converted_network(value: Network, local_id: u32) -> NetworkId {
    match value {
        Network::Mainnet => NetworkId::Mainnet,
        Network::TestnetClay => NetworkId::TestnetClay,
        Network::DevUnstable => NetworkId::DevUnstable,
        Network::Local => NetworkId::Local(local_id),
        Network::InMemory => NetworkId::InMemory,
    }
}

/// The network of the given name. A local network needs its identifier.
pub fn convert_network(value: Network, local_id: Option<u32>) -> (r: NetworkId)
    requires
        value == Network::Local ==> local_id is Some,
    ensures
        r == converted_network(
            value,
            match local_id {
                Some(id) => id,
                None => 0,
            },
        ),
{
    match value {
        Network::Mainnet => NetworkId::Mainnet,
        Network::TestnetClay => NetworkId::TestnetClay,
        Network::DevUnstable => NetworkId::DevUnstable,
        Network::Local => match local_id {
            Some(id) => NetworkId::Local(id),
            None => NetworkId::Local(0),
        },
        Network::InMemory => NetworkId::InMemory,
    }
}

/// The sort value of a new event identifier: a text that was given, or the
/// text, still to be rendered, of a stream identifier.
#[derive(Clone, Debug)]
pub enum SortValue {
    Given(String),
    OfStream(StreamId),
}

/// The first event of the stream of a new event identifier: the text, still
/// to be read, of a stream identifier that was given, or a stream
/// identifier.
#[derive(Clone, Debug)]
pub enum InitId {
    Given(String),
    Fresh(StreamId),
}

/// All that a new event identifier is made of.
#[derive(Clone, Debug)]
pub struct EventIdPlan {
    pub network: NetworkId,
    pub sort_key: String,
    pub sort_value: SortValue,
    pub controller: String,
    pub init_id: InitId,
    pub event_height: u64,
    pub event_cid: Cid,
}

/// The random draws that a new event identifier may need.
#[derive(Clone, Debug)]
pub struct Chance {
    pub sort_key: String,
    pub sort_value_cid: Cid,
    pub controller: String,
    pub init_cid: Cid,
    pub event_height: u64,
    pub event_cid: Cid,
}

/// Whether a plan is the one for the given arguments and draws: what was
/// given is kept, and what was not given is drawn. A drawn sort value and a
/// drawn first event are model streams.
pub open spec fn is_plan_of(
    plan: EventIdPlan,
    network: NetworkId,
    sort_key: Option<String>,
    sort_value: Option<String>,
    controller: Option<String>,
    init_id: Option<String>,
    chance: Chance,
) -> bool {
    &&& plan.network == network
    &&& plan.sort_key@ == match sort_key {
        Some(text) => text@,
        None => chance.sort_key@,
    }
    &&& match sort_value {
        Some(text) => plan.sort_value matches SortValue::Given(kept) && kept@ == text@,
        None => plan.sort_value matches SortValue::OfStream(stream) && stream.stream_type
            == StreamIdType::Model && stream.cid@ == chance.sort_value_cid@,
    }
    &&& plan.controller@ == match controller {
        Some(text) => text@,
        None => chance.controller@,
    }
    &&& match init_id {
        Some(text) => plan.init_id matches InitId::Given(kept) && kept@ == text@,
        None => plan.init_id matches InitId::Fresh(stream) && stream.stream_type
            == StreamIdType::Model && stream.cid@ == chance.init_cid@,
    }
    &&& plan.event_height == chance.event_height
    &&& plan.event_cid@ == chance.event_cid@
}

/// Plans a new event identifier from what was given and what was drawn.
pub fn plan_event_id(
    network: &NetworkId,
    sort_key: Option<String>,
    sort_value: Option<String>,
    controller: Option<String>,
    init_id: Option<String>,
    chance: Chance,
) -> (plan: EventIdPlan)
    ensures
        is_plan_of(plan, *network, sort_key, sort_value, controller, init_id, chance),
{
    let key = match sort_key {
        Some(text) => text,
        None => chance.sort_key,
    };
    let value = match sort_value {
        Some(text) => SortValue::Given(text),
        None => SortValue::OfStream(
            StreamId { stream_type: StreamIdType::Model, cid: chance.sort_value_cid },
        ),
    };
    let controller = match controller {
        Some(text) => text,
        None => chance.controller,
    };
    let init = match init_id {
        Some(text) => InitId::Given(text),
        None => InitId::Fresh(StreamId { stream_type: StreamIdType::Model, cid: chance.init_cid }),
    };
    EventIdPlan {
        network: *network,
        sort_key: key,
        sort_value: value,
        controller,
        init_id: init,
        event_height: chance.event_height,
        event_cid: chance.event_cid,
    }
}

/// Whether draws are of the shape that the tools draw: a sort key of 12 and
/// a controller of 32 ASCII letters and digits, and identifiers of eight
/// random bytes each.
pub open spec fn is_drawn(chance: Chance) -> bool {
    &&& chance.sort_key@.len() == 12
    &&& forall|i: int| 0 <= i < 12 ==> is_alphanumeric(#[trigger] chance.sort_key@[i])
    &&& chance.controller@.len() == 32
    &&& forall|i: int| 0 <= i < 32 ==> is_alphanumeric(#[trigger] chance.controller@[i])
    &&& exists|seed: Seq<u8>| seed.len() == 8 && chance.sort_value_cid@ == seeded_cid(seed)
    &&& exists|seed: Seq<u8>| seed.len() == 8 && chance.init_cid@ == seeded_cid(seed)
    &&& exists|seed: Seq<u8>| seed.len() == 8 && chance.event_cid@ == seeded_cid(seed)
}

/// Draws what a new event identifier may need.
pub fn draw() -> (chance: Chance)
    ensures
        is_drawn(chance),
{
    Chance {
        sort_key: random_alphanumeric(12),
        sort_value_cid: random_cid(),
        controller: random_alphanumeric(32),
        init_cid: random_cid(),
        event_height: thread_random_u64(),
        event_cid: random_cid(),
    }
}

/// Plans a random event identifier: what is given is kept, the rest is
/// drawn.
pub fn random_event_id(
    network: &NetworkId,
    sort_key: Option<String>,
    sort_value: Option<String>,
    controller: Option<String>,
    init_id: Option<String>,
) -> (plan: EventIdPlan)
    ensures
        exists|chance: Chance|
            is_drawn(chance) && is_plan_of(
                plan,
                *network,
                sort_key,
                sort_value,
                controller,
                init_id,
                chance,
            ),
{
    let chance = draw();
    let ghost drawn = chance;
    let plan = plan_event_id(network, sort_key, sort_value, controller, init_id, chance);
    assert(is_drawn(drawn) && is_plan_of(
        plan,
        *network,
        sort_key,
        sort_value,
        controller,
        init_id,
        drawn,
    ));
    plan
}

/// What is left to do for a tool of this group.
#[derive(Clone, Debug)]
pub enum Action {
    /// Show a stream identifier.
    ShowStreamId(StreamId),
    /// Read a stream identifier from its text and show it.
    InspectStreamId(String),
    /// Make an event identifier and write it in hexadecimal.
    MakeEventId(EventIdPlan),
    /// Read an event identifier from its bytes and show it.
    InspectEventId(Vec<u8>),
    /// Read an interest from its bytes and show it.
    InspectInterest(Vec<u8>),
    /// Write these bytes.
    Write(Vec<u8>),
}

/// The `did:key` line of a key.
pub open spec fn did_key_line(key: Seq<u8>) -> Seq<u8> {
    line_bytes("did:key:"@ + multibase_encoded(Base::Base58Btc, key))
}

/// The `did:key` line of a key: the key in base 58 with the Bitcoin
/// alphabet, as multibase.
pub fn write_did_key(key: &[u8]) -> (out: Vec<u8>)
    ensures
        out@ == did_key_line(key@),
{
    let mut text = String::from_str("did:key:");
    text.append(encode(Base::Base58Btc, key).as_str());
    text_line(text)
}

/// Whether an action is the one that a tool of this group asks for, for
/// the tools that draw nothing.
pub open spec fn is_action_of(op: Operation, r: Result<Action, Error>) -> bool {
    match op {
        Operation::StreamIdCreate(args) => match cid_of_text(args.cid@) {
            None => r == Err::<Action, Error>(Error::InvalidCid),
            Some(cid) => r matches Ok(Action::ShowStreamId(stream)) && stream.stream_type
                == converted_type(args.stream_type) && stream.cid@ == cid,
        },
        Operation::StreamIdInspect(args) => r matches Ok(Action::InspectStreamId(text)) && text@
            == args.id@,
        Operation::EventIdInspect(args) => match multibase_decoded(args.event_id@) {
            Err(e) => r == Err::<Action, Error>(Error::Multibase(e)),
            Ok((_, bytes)) => r matches Ok(Action::InspectEventId(out)) && out@ == bytes,
        },
        Operation::InterestInspect(args) => match multibase_decoded(args.interest@) {
            Err(e) => r == Err::<Action, Error>(Error::Multibase(e)),
            Ok((_, bytes)) => r matches Ok(Action::InspectInterest(out)) && out@ == bytes,
        },
        _ => true,
    }
}

/// Whether a network is the one of the given name: a local network carries
/// the identifier that was given, or any identifier where none was given.
pub open spec fn is_network_of(network: NetworkId, name: Network, local_id: Option<u32>) -> bool {
    match local_id {
        Some(id) => network == converted_network(name, id),
        None => match name {
            Network::Local => network is Local,
            _ => network == converted_network(name, 0),
        },
    }
}

/// Whether an action is one that a drawing tool of this group may ask for.
pub open spec fn is_drawn_action_of(op: Operation, r: Result<Action, Error>) -> bool {
    match op {
        Operation::StreamIdGenerate(args) => r matches Ok(Action::ShowStreamId(stream))
            && stream.stream_type == converted_type(args.stream_type) && exists|seed: Seq<u8>|
            seed.len() == 8 && stream.cid@ == seeded_cid(seed),
        Operation::EventIdGenerate(args) => r matches Ok(Action::MakeEventId(plan))
            && is_network_of(plan.network, args.network, args.local_network_id)
            && exists|chance: Chance|
            is_drawn(chance) && is_plan_of(
                plan,
                plan.network,
                args.sort_key,
                args.sort_value,
                args.controller,
                args.init_id,
                chance,
            ),
        Operation::DidKeyGenerate => r matches Ok(Action::Write(out)) && exists|key: Seq<u8>|
            key.len() == 32 && out@ == did_key_line(key),
        Operation::PeerIdGenerate => r matches Ok(Action::Write(out)) && exists|text: Seq<char>|
            out@ == line_bytes(text),
        _ => true,
    }
}

/// Runs a tool of this group as far as this library goes, and says what is
/// left to do.
pub fn run(op: Operation) -> (r: Result<Action, Error>)
    ensures
        is_action_of(op, r),
        is_drawn_action_of(op, r),
{
    match op {
        Operation::StreamIdCreate(args) => match Cid::from_text(args.cid.as_str()) {
            None => Err(Error::InvalidCid),
            Some(cid) => Ok(
                Action::ShowStreamId(
                    StreamId { stream_type: convert_type(args.stream_type), cid },
                ),
            ),
        },
        Operation::StreamIdInspect(args) => Ok(Action::InspectStreamId(args.id)),
        Operation::StreamIdGenerate(args) => Ok(
            Action::ShowStreamId(
                StreamId { stream_type: convert_type(args.stream_type), cid: random_cid() },
            ),
        ),
        Operation::EventIdGenerate(args) => {
            let local_id = match args.local_network_id {
                Some(id) => id,
                None => thread_random_u32(),
            };
            let network = convert_network(args.network, Some(local_id));
            let chance = draw();
            let ghost drawn = chance;
            let plan = plan_event_id(
                &network,
                args.sort_key,
                args.sort_value,
                args.controller,
                args.init_id,
                chance,
            );
            assert(is_drawn(drawn) && is_plan_of(
                plan,
                plan.network,
                args.sort_key,
                args.sort_value,
                args.controller,
                args.init_id,
                drawn,
            ));
            Ok(Action::MakeEventId(plan))
        },
        Operation::EventIdInspect(args) => match decode(args.event_id.as_str()) {
            Err(e) => Err(Error::Multibase(e)),
            Ok((_, bytes)) => Ok(Action::InspectEventId(bytes)),
        },
        Operation::InterestInspect(args) => match decode(args.interest.as_str()) {
            Err(e) => Err(Error::Multibase(e)),
            Ok((_, bytes)) => Ok(Action::InspectInterest(bytes)),
        },
        Operation::DidKeyGenerate => {
            let key = random_bytes(32);
            Ok(Action::Write(write_did_key(key.as_slice())))
        },
        Operation::PeerIdGenerate => {
            let text = random_peer_text();
            let ghost shown = text@;
            let out = text_line(text);
            assert(out@ == line_bytes(shown));
            Ok(Action::Write(out))
        },
    }
}

} // verus!
