//! The parquet tools. Files are read and rendered outside; here is what is
//! asked for.

use vstd::prelude::*;

use crate::cli::{Command, ParquetDump, ParquetInspect, PrintFormat};

verus! {

/// A parquet tool.
#[derive(Clone, Debug)]
pub enum Operation {
    Dump(ParquetDump),
    Inspect(ParquetInspect),
}

impl Operation {
    /// The parquet tool that a command asks for, if it asks for one.
    pub open spec fn of_command(command: Command) -> Option<Operation> {
        match command {
            Command::ParquetDump(args) => Some(Operation::Dump(args)),
            Command::ParquetInspect(args) => Some(Operation::Inspect(args)),
            _ => None,
        }
    }

    /// The parquet tool that a command asks for; a command for another tool
    /// comes back unchanged.
    pub fn try_from(value: Command) -> (r: Result<Operation, Command>)
        ensures
            match r {
                Ok(op) => Operation::of_command(value) == Some(op),
                Err(back) => Operation::of_command(value) is None && back == value,
            },
    {
        match value {
            Command::ParquetDump(args) => Ok(Operation::Dump(args)),
            Command::ParquetInspect(args) => Ok(Operation::Inspect(args)),
            other => Err(other),
        }
    }
}

/// How the batch at position `index` of a dump is written.
#[derive(Clone, Copy, Debug, PartialEq, Eq, Structural)]
pub enum BatchStyle {
    /// As CSV, with the header line or without.
    Csv { header: bool },
    /// As JSON, one record per line.
    JsonLines,
    /// Not by itself: all batches are written as one table.
    Table,
}

/// How the batch at position `index` of a dump is written. Of the batches
/// written as CSV only the first carries the header.
pub open spec fn style_of(format: PrintFormat, index: nat) -> BatchStyle {
    match format {
        PrintFormat::Csv => BatchStyle::Csv { header: index == 0 },
        PrintFormat::Json => BatchStyle::JsonLines,
        PrintFormat::Pretty => BatchStyle::Table,
    }
}

/// How the batch at position `index` of a dump is written.
pub fn batch_style(format: PrintFormat, index: usize) -> (style: BatchStyle)
    ensures
        style == style_of(format, index as nat),
{
    match format {
        PrintFormat::Csv => BatchStyle::Csv { header: index == 0 },
        PrintFormat::Json => BatchStyle::JsonLines,
        PrintFormat::Pretty => BatchStyle::Table,
    }
}

/// What is left to do for a parquet tool.
#[derive(Clone, Debug)]
pub enum Plan {
    /// Read every batch of the files in order, then write them in the
    /// format.
    Dump { files: Vec<String>, format: PrintFormat },
    /// Show the metadata of the file.
    Inspect { file: String },
}

/// What is left to do for a parquet tool.
pub open spec fn plan_of(op: Operation) -> Plan {
    match op {
        Operation::Dump(args) => Plan::Dump { files: args.files, format: args.format },
        Operation::Inspect(args) => Plan::Inspect { file: args.file },
    }
}

/// Says what is left to do for a parquet tool.
pub fn run(op: Operation) -> (plan: Plan)
    ensures
        plan == plan_of(op),
{
    match op {
        Operation::Dump(args) => Plan::Dump { files: args.files, format: args.format },
        Operation::Inspect(args) => Plan::Inspect { file: args.file },
    }
}

} // verus!
