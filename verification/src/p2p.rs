//! Probes of a peer: pings, and the exchange of identities. The network is
//! driven from outside; here is what is made of each event.

use vstd::prelude::*;
use vstd::string::StringExecFns;

use crate::cli::{Command, IdentifyArgs, PingArgs};
use crate::dag::texts;

verus! {

/// A probe of a peer.
#[derive(Clone, Debug)]
pub enum Operation {
    Ping(PingArgs),
    Identify(IdentifyArgs),
}

impl Operation {
    /// The probe that a command asks for, if it asks for one.
    pub open spec fn of_command(command: Command) -> Option<Operation> {
        match command {
            Command::P2pPing(args) => Some(Operation::Ping(args)),
            Command::P2pIdentify(args) => Some(Operation::Identify(args)),
            _ => None,
        }
    }

    /// The probe that a command asks for; a command for another tool comes
    /// back unchanged.
    pub fn try_from(value: Command) -> (r: Result<Operation, Command>)
        ensures
            match r {
                Ok(op) => Operation::of_command(value) == Some(op),
                Err(back) => Operation::of_command(value) is None && back == value,
            },
    {
        match value {
            Command::P2pPing(args) => Ok(Operation::Ping(args)),
            Command::P2pIdentify(args) => Ok(Operation::Identify(args)),
            other => Err(other),
        }
    }
}

/// The protocol version that is announced in an exchange of identities.
pub const IDENTIFY_PROTOCOL: &'static str = "/ipfs/id/1.0.0";

/// The seconds after which an idle connection is closed.
pub const IDLE_CONNECTION_SECONDS: u64 = 30;

/// The address that the probe listens on: every interface, and a port that
/// the system picks.
pub const LISTEN_ADDRESS: &'static str = "/ip4/0.0.0.0/tcp/0";

/// How a probe is set up.
#[derive(Clone, Debug)]
pub enum Probe {
    /// Ping the peer at the address every `interval` seconds, and wait
    /// `timeout` seconds for each answer.
    Ping { peer_addr: String, interval: u64, timeout: u64, pings: Pings },
    /// Exchange identities with the peer at the address, announcing the
    /// protocol version.
    Identify { peer_addr: String, protocol_version: String },
}

/// Whether a probe is set up as its arguments ask: a ping probe with their
/// address, interval and timeout and no ping answered yet, an exchange of
/// identities with their address and the protocol version.
pub open spec fn is_probe_of(op: Operation, probe: Probe) -> bool {
    match op {
        Operation::Ping(args) => probe matches Probe::Ping { peer_addr, interval, timeout, pings }
            && peer_addr@ == args.peer_addr@ && interval == args.interval && timeout
            == args.timeout && pings.spec_answered() == 0 && pings.spec_wanted() == args.count,
        Operation::Identify(args) => probe matches Probe::Identify { peer_addr, protocol_version }
            && peer_addr@ == args.peer_addr@ && protocol_version@ == IDENTIFY_PROTOCOL@,
    }
}

/// Sets a probe up.
pub fn run(op: Operation) -> (probe: Probe)
    ensures
        is_probe_of(op, probe),
{
    match op {
        Operation::Ping(args) => Probe::Ping {
            peer_addr: args.peer_addr,
            interval: args.interval as u64,
            timeout: args.timeout as u64,
            pings: Pings::new(args.count),
        },
        Operation::Identify(args) => Probe::Identify {
            peer_addr: args.peer_addr,
            protocol_version: String::from_str(IDENTIFY_PROTOCOL),
        },
    }
}

/// The pings answered so far, and how many are wanted.
#[derive(Clone, Copy, Debug)]
pub struct Pings {
    answered: usize,
    wanted: usize,
}

/// What happened while pinging, with the texts that are shown of it.
#[derive(Clone, Debug)]
pub enum PingEvent {
    /// The connection could not be opened.
    ConnectionError { peer: String, error: String },
    /// The peer answered after the given time.
    Answer { peer: String, elapsed: String },
    /// A ping failed.
    Failure { error: String },
    /// Anything else.
    Other,
}

/// What is made of an event: what to write, if anything, and whether the
/// probe ends.
#[derive(Clone, Debug)]
pub struct Step {
    pub output: Option<String>,
    pub done: bool,
}

/// The line for a connection that could not be opened.
pub open spec fn connection_error_text(peer: Seq<char>, error: Seq<char>) -> Seq<char> {
    "failed to connect to "@ + peer + ": "@ + error + "\n"@
}

/// The line for a connection that could not be opened.
pub fn connection_error(peer: &str, error: &str) -> (text: String)
    ensures
        text@ == connection_error_text(peer@, error@),
{
    let mut text = String::from_str("failed to connect to ");
    text.append(peer);
    text.append(": ");
    text.append(error);
    text.append("\n");
    text
}

/// The line for an answered ping.
pub open spec fn answer_text(peer: Seq<char>, elapsed: Seq<char>) -> Seq<char> {
    "response from "@ + peer + " in "@ + elapsed + "\n"@
}

/// The line for a failed ping.
pub open spec fn failure_text(error: Seq<char>) -> Seq<char> {
    "ping failed "@ + error + "\n"@
}

impl Pings {
    /// The number of pings answered so far.
    pub closed spec fn spec_answered(self) -> nat {
        self.answered as nat
    }

    /// The number of pings wanted.
    pub closed spec fn spec_wanted(self) -> nat {
        self.wanted as nat
    }

    /// No ping answered yet, `wanted` wanted.
    pub fn new(wanted: usize) -> (pings: Pings)
        ensures
            pings.spec_answered() == 0,
            pings.spec_wanted() == wanted,
    {
        Pings { answered: 0, wanted }
    }

    /// The number of pings answered so far.
    pub fn answered(&self) -> (n: usize)
        ensures
            n == self.spec_answered(),
    {
        self.answered
    }

    /// Takes an event in. A connection error and a failed ping are written
    /// and end the probe. An answer is written and counted, and ends the
    /// probe once as many are answered as wanted; the first answer ends a
    /// probe that wants none. Nothing is made of any other event. The
    /// count of answers has to fit the machine's word.
    pub fn step(&mut self, event: PingEvent) -> (step: Step)
        requires
            old(self).spec_answered() < usize::MAX,
        ensures
            final(self).spec_wanted() == old(self).spec_wanted(),
            match event {
                PingEvent::ConnectionError { peer, error } => {
                    &&& step.done
                    &&& step.output matches Some(text) && text@ == connection_error_text(
                        peer@,
                        error@,
                    )
                    &&& final(self).spec_answered() == old(self).spec_answered()
                },
                PingEvent::Answer { peer, elapsed } => {
                    &&& step.output matches Some(text) && text@ == answer_text(peer@, elapsed@)
                    &&& final(self).spec_answered() == old(self).spec_answered() + 1
                    &&& step.done == (final(self).spec_answered() >= old(self).spec_wanted())
                },
                PingEvent::Failure { error } => {
                    &&& step.done
                    &&& step.output matches Some(text) && text@ == failure_text(error@)
                    &&& final(self).spec_answered() == old(self).spec_answered()
                },
                PingEvent::Other => {
                    &&& !step.done
                    &&& step.output is None
                    &&& final(self).spec_answered() == old(self).spec_answered()
                },
            },
    {
        match event {
            PingEvent::ConnectionError { peer, error } => Step {
                output: Some(connection_error(peer.as_str(), error.as_str())),
                done: true,
            },
            PingEvent::Answer { peer, elapsed } => {
                let mut text = String::from_str("response from ");
                text.append(peer.as_str());
                text.append(" in ");
                text.append(elapsed.as_str());
                text.append("\n");
                self.answered = self.answered + 1;
                Step { output: Some(text), done: self.answered >= self.wanted }
            },
            PingEvent::Failure { error } => {
                let mut text = String::from_str("ping failed ");
                text.append(error.as_str());
                text.append("\n");
                Step { output: Some(text), done: true }
            },
            PingEvent::Other => Step { output: None, done: false },
        }
    }
}

/// What a peer says of itself in an exchange of identities, as texts.
#[derive(Clone, Debug)]
pub struct PeerInfo {
    pub peer: String,
    pub public_key_type: String,
    pub protocol_version: String,
    pub agent_version: String,
    pub observed_address: String,
    pub listen_addrs: Vec<String>,
    pub protocols: Vec<String>,
}

/// What happened while exchanging identities.
#[derive(Clone, Debug)]
pub enum IdentifyEvent {
    /// The connection could not be opened.
    ConnectionError { peer: String, error: String },
    /// The peer said who it is.
    Received(PeerInfo),
    /// The exchange failed.
    Error { error: String },
    /// Anything else.
    Other,
}

/// Whether the first text is not after the second in the order of strings:
/// character by character, a prefix before what it is a prefix of.
pub open spec fn text_le(a: Seq<char>, b: Seq<char>) -> bool
    decreases a.len(),
{
    if a.len() == 0 {
        true
    } else if b.len() == 0 {
        false
    } else if a[0] != b[0] {
        (a[0] as u32) < (b[0] as u32)
    } else {
        text_le(a.drop_first(), b.drop_first())
    }
}

/// Whether texts are in ascending order.
pub open spec fn ascending(items: Seq<Seq<char>>) -> bool {
    forall|i: int, j: int| 0 <= i <= j < items.len() ==> text_le(items[i], items[j])
}

/// Calls `sort` on a slice of strings, which puts them in ascending order
/// of their bytes. For UTF-8 that is the order of their characters.
#[verifier::external_body]
fn sort_strings(items: &mut Vec<String>)
    ensures
        ascending(texts(final(items)@)),
        texts(final(items)@).to_multiset() == texts(old(items)@).to_multiset(),
{
    items.sort();
}

/// The first `upto` items, with the separator between each two.
pub open spec fn joined(items: Seq<Seq<char>>, separator: Seq<char>, upto: int) -> Seq<char>
    decreases upto,
{
    if upto <= 0 || upto > items.len() {
        Seq::empty()
    } else if upto == 1 {
        items[0]
    } else {
        joined(items, separator, upto - 1) + separator + items[upto - 1]
    }
}

/// Joins texts with a separator between each two.
pub fn join(items: &Vec<String>, separator: &str) -> (text: String)
    ensures
        text@ == joined(texts(items@), separator@, items@.len() as int),
{
    let mut text = String::new();
    let mut i: usize = 0;
    while i < items.len()
        invariant
            i <= items.len(),
            text@ == joined(texts(items@), separator@, i as int),
        decreases items.len() - i,
    {
        if i > 0 {
            text.append(separator);
        }
        text.append(items[i].as_str());
        proof {
            assert(texts(items@)[i as int] == items@[i as int]@);
            if i == 0 {
                assert(Seq::<char>::empty() + items@[0]@ =~= items@[0]@);
            }
        }
        i += 1;
    }
    text
}

/// The report of a peer's identity: five lines of its own, then its listen
/// addresses and its protocols, each on a line that starts with a tab.
pub open spec fn identity_text(
    peer: Seq<char>,
    public_key_type: Seq<char>,
    protocol_version: Seq<char>,
    agent_version: Seq<char>,
    observed_address: Seq<char>,
    listen_addrs: Seq<char>,
    protocols: Seq<char>,
) -> Seq<char> {
    "Peer: "@ + peer + "\nPublic Key Type: "@ + public_key_type + "\nProtocol Version: "@
        + protocol_version + "\nAgent Version: "@ + agent_version + "\nObserved Address: "@
        + observed_address + "\nListen Addresses:\n\t"@ + listen_addrs + "\nProtocols:\n\t"@
        + protocols + "\n"@
}

/// Whether a text is the report of what a peer said of itself: the listen
/// addresses come in the order given, the protocols in ascending order.
pub open spec fn is_identity_report(text: Seq<char>, info: PeerInfo) -> bool {
    exists|sorted: Seq<Seq<char>>|
        {
            &&& ascending(sorted)
            &&& sorted.to_multiset() == texts(info.protocols@).to_multiset()
            &&& text == identity_text(
                info.peer@,
                info.public_key_type@,
                info.protocol_version@,
                info.agent_version@,
                info.observed_address@,
                joined(texts(info.listen_addrs@), "\n\t"@, info.listen_addrs@.len() as int),
                #[trigger] joined(sorted, "\n\t"@, sorted.len() as int),
            )
        }
}

/// Reports what a peer said of itself.
pub fn identity_report(info: PeerInfo) -> (text: String)
    ensures
        is_identity_report(text@, info),
{
    let listen_addrs = join(&info.listen_addrs, "\n\t");
    let mut protocols = info.protocols;
    sort_strings(&mut protocols);
    let protocols_text = join(&protocols, "\n\t");
    let mut text = String::from_str("Peer: ");
    text.append(info.peer.as_str());
    text.append("\nPublic Key Type: ");
    text.append(info.public_key_type.as_str());
    text.append("\nProtocol Version: ");
    text.append(info.protocol_version.as_str());
    text.append("\nAgent Version: ");
    text.append(info.agent_version.as_str());
    text.append("\nObserved Address: ");
    text.append(info.observed_address.as_str());
    text.append("\nListen Addresses:\n\t");
    text.append(listen_addrs.as_str());
    text.append("\nProtocols:\n\t");
    text.append(protocols_text.as_str());
    text.append("\n");
    proof {
        let sorted = texts(protocols@);
        assert(sorted.len() == protocols@.len());
        assert(text@ == identity_text(
            info.peer@,
            info.public_key_type@,
            info.protocol_version@,
            info.agent_version@,
            info.observed_address@,
            joined(texts(info.listen_addrs@), "\n\t"@, info.listen_addrs@.len() as int),
            joined(sorted, "\n\t"@, sorted.len() as int),
        ));
    }
    text
}

/// The line for an exchange that failed.
pub open spec fn identify_error_text(error: Seq<char>) -> Seq<char> {
    "Error getting peer identity: "@ + error + "\n"@
}

/// What is made of an event of an exchange of identities. A connection
/// error is written and ends the probe, and so does the peer's identity. A
/// failed exchange is written and the probe goes on. Nothing is made of any
/// other event.
pub fn identify_step(event: IdentifyEvent) -> (step: Step)
    ensures
        match event {
            IdentifyEvent::ConnectionError { peer, error } => step.done && (step.output matches Some(
                text,
            ) && text@ == connection_error_text(peer@, error@)),
            IdentifyEvent::Received(info) => step.done && (step.output matches Some(text)
                && is_identity_report(text@, info)),
            IdentifyEvent::Error { error } => !step.done && (step.output matches Some(text)
                && text@ == identify_error_text(error@)),
            IdentifyEvent::Other => !step.done && step.output is None,
        },
{
    match event {
        IdentifyEvent::ConnectionError { peer, error } => Step {
            output: Some(connection_error(peer.as_str(), error.as_str())),
            done: true,
        },
        IdentifyEvent::Received(info) => Step { output: Some(identity_report(info)), done: true },
        IdentifyEvent::Error { error } => {
            let mut text = String::from_str("Error getting peer identity: ");
            text.append(error.as_str());
            text.append("\n");
            Step { output: Some(text), done: false }
        },
        IdentifyEvent::Other => Step { output: None, done: false },
    }
}

} // verus!
