//! Tools for content-addressed data: multibase and multihash encodings,
//! content identifiers, IPLD codecs and CAR archives, Ceramic identifiers,
//! probes of peers, anchor requests and parquet files.

use vstd::prelude::*;

pub mod car;
pub mod cas;
pub mod ceramic;
pub mod cid;
pub mod cli;
pub mod dag;
pub mod encoding;
pub mod error;
pub mod ipld;
pub mod multibase;
pub mod multihash;
pub mod p2p;
pub mod parquet;
pub mod random;

use crate::cli::{Cli, Command, CompletionArgs};
use crate::error::{Error, Failure};

verus! {

/// The tool that a command belongs to.
#[derive(Clone, Debug)]
pub enum Tool {
    Completion(CompletionArgs),
    Multibase(multibase::Operation),
    Ipld(ipld::Operation),
    Ceramic(ceramic::Operation),
    Multihash(multihash::Operation),
    P2p(p2p::Operation),
    Parquet(parquet::Operation),
    Cas(cas::Operation),
}

/// The tool that a command belongs to, if any does.
pub open spec fn tool_of(command: Command) -> Option<Tool> {
    if let Command::Completion(args) = command {
        Some(Tool::Completion(args))
    } else if let Some(op) = multibase::Operation::of_command(command) {
        Some(Tool::Multibase(op))
    } else if let Some(op) = ipld::Operation::of_command(command) {
        Some(Tool::Ipld(op))
    } else if let Some(op) = ceramic::Operation::of_command(command) {
        Some(Tool::Ceramic(op))
    } else if let Some(op) = multihash::Operation::of_command(command) {
        Some(Tool::Multihash(op))
    } else if let Some(op) = p2p::Operation::of_command(command) {
        Some(Tool::P2p(op))
    } else if let Some(op) = parquet::Operation::of_command(command) {
        Some(Tool::Parquet(op))
    } else if let Some(op) = cas::Operation::of_command(command) {
        Some(Tool::Cas(op))
    } else {
        None
    }
}

/// Finds the tool that a command belongs to: completion first, then each
/// group of tools in turn. Four commands belong to no tool.
pub fn find_tool(command: Command) -> (r: Result<Tool, Error>)
    ensures
        match r {
            Ok(tool) => tool_of(command) == Some(tool),
            Err(e) => tool_of(command) is None && e == Error::NoMatch,
        },
        r is Err <==> (command is StreamIdFromBytes || command is EventInspect
            || command is CidAsBytes || command is CarToBlocks),
{
    if let Command::Completion(args) = command {
        return Ok(Tool::Completion(args));
    }
    let command = match multibase::Operation::try_from(command) {
        Ok(op) => { return Ok(Tool::Multibase(op)); },
        Err(command) => command,
    };
    let command = match ipld::Operation::try_from(command) {
        Ok(op) => { return Ok(Tool::Ipld(op)); },
        Err(command) => command,
    };
    let command = match ceramic::Operation::try_from(command) {
        Ok(op) => { return Ok(Tool::Ceramic(op)); },
        Err(command) => command,
    };
    let command = match multihash::Operation::try_from(command) {
        Ok(op) => { return Ok(Tool::Multihash(op)); },
        Err(command) => command,
    };
    let command = match p2p::Operation::try_from(command) {
        Ok(op) => { return Ok(Tool::P2p(op)); },
        Err(command) => command,
    };
    let command = match parquet::Operation::try_from(command) {
        Ok(op) => { return Ok(Tool::Parquet(op)); },
        Err(command) => command,
    };
    match cas::Operation::try_from(command) {
        Ok(op) => Ok(Tool::Cas(op)),
        Err(_) => Err(Error::NoMatch),
    }
}

/// Whether a tool reads standard input: the multibase and multihash tools
/// do, and most tools for identifiers, data and archives.
pub open spec fn tool_reads_input(tool: Tool) -> bool {
    match tool {
        Tool::Multibase(_) => true,
        Tool::Multihash(_) => true,
        Tool::Ipld(op) => op.spec_reads_input(),
        _ => false,
    }
}

/// Whether a tool reads standard input.
pub fn reads_input(tool: &Tool) -> (b: bool)
    ensures
        b == tool_reads_input(*tool),
{
    match tool {
        Tool::Multibase(_) => true,
        Tool::Multihash(_) => true,
        Tool::Ipld(op) => op.reads_input(),
        _ => false,
    }
}

/// How far a command got.
#[derive(Clone, Debug)]
pub enum Outcome {
    /// These bytes are to be written to standard output.
    Output(Vec<u8>),
    /// Completions for the shell are to be generated.
    Completion(CompletionArgs),
    /// A tool for Ceramic identifiers has this left to do.
    Ceramic(ceramic::Action),
    /// A probe is set up and to be driven.
    P2p(p2p::Probe),
    /// A parquet tool has this left to do.
    Parquet(parquet::Plan),
    /// A tool for anchor requests has this left to do.
    Cas(cas::Plan),
}

/// Whether a result carries the outcome that writes what a tool wrote, or
/// the way in which the tool gave up.
pub open spec fn is_output_of(
    r: Result<Outcome, Failure>,
    wrote: Result<Seq<u8>, (Seq<u8>, Error)>,
) -> bool {
    match wrote {
        Ok(out) => r matches Ok(Outcome::Output(bytes)) && bytes@ == out,
        Err(failed) => r matches Err(failure) && failure@ == failed,
    }
}

/// Runs a command on what was read from standard input, as far as this
/// library goes. `files` holds, for the tool that builds an archive, the
/// data of the files that its blocks name. A tool that gives up says what
/// it has written by then.
pub fn run(args: Cli, input: Vec<u8>, files: Vec<Vec<u8>>) -> (r: Result<Outcome, Failure>)
    ensures
        match tool_of(args.command) {
            None => r matches Err(failure) && failure@ == (Seq::<u8>::empty(), Error::NoMatch),
            Some(Tool::Completion(shell)) => r matches Ok(Outcome::Completion(given)) && given
                == shell,
            Some(Tool::Multibase(op)) => is_output_of(
                r,
                error::all_or_nothing(multibase::output_of(op, input@)),
            ),
            Some(Tool::Multihash(op)) => is_output_of(
                r,
                error::all_or_nothing(multihash::output_of(op, input@)),
            ),
            Some(Tool::Ipld(op)) => if op is CidGenerate {
                r matches Ok(Outcome::Output(bytes)) && exists|seed: Seq<u8>|
                    seed.len() == 8 && bytes@ == ipld::cid_line(ipld::seeded_cid(seed))
            } else {
                is_output_of(r, ipld::output_of(op, input@, files@))
            },
            Some(Tool::Ceramic(op)) => match r {
                Ok(Outcome::Ceramic(action)) => ceramic::is_action_of(
                    op,
                    Ok::<ceramic::Action, Error>(action),
                ) && ceramic::is_drawn_action_of(op, Ok::<ceramic::Action, Error>(action)),
                Ok(_) => false,
                Err(failure) => failure.written@.len() == 0 && ceramic::is_action_of(
                    op,
                    Err::<ceramic::Action, Error>(failure.error),
                ),
            },
            Some(Tool::P2p(op)) => r matches Ok(Outcome::P2p(probe)) && p2p::is_probe_of(
                op,
                probe,
            ),
            Some(Tool::Parquet(op)) => r matches Ok(Outcome::Parquet(plan)) && plan
                == parquet::plan_of(op),
            Some(Tool::Cas(op)) => r matches Ok(Outcome::Cas(plan)) && cas::is_plan_of(op, plan),
        },
{
    let tool = match find_tool(args.command) {
        Ok(tool) => tool,
        Err(e) => { return Err(Failure::early(e)); },
    };
    match tool {
        Tool::Completion(shell) => Ok(Outcome::Completion(shell)),
        Tool::Multibase(op) => match multibase::run(op, input) {
            Ok(out) => Ok(Outcome::Output(out)),
            Err(e) => Err(Failure::early(e)),
        },
        Tool::Ipld(op) => match ipld::run(op, input, files) {
            Ok(out) => Ok(Outcome::Output(out)),
            Err(failure) => Err(failure),
        },
        Tool::Ceramic(op) => match ceramic::run(op) {
            Ok(action) => Ok(Outcome::Ceramic(action)),
            Err(e) => Err(Failure::early(e)),
        },
        Tool::Multihash(op) => match multihash::run(op, input) {
            Ok(out) => Ok(Outcome::Output(out)),
            Err(e) => Err(Failure::early(e)),
        },
        Tool::P2p(op) => Ok(Outcome::P2p(p2p::run(op))),
        Tool::Parquet(op) => Ok(Outcome::Parquet(parquet::run(op))),
        Tool::Cas(op) => Ok(Outcome::Cas(cas::run(op))),
    }
}

} // verus!
