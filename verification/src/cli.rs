//! The command surface of the client, and the dispatch decision of the
//! entry point.
//!
//! Argument parsing itself happens outside the crate; the parsed command is
//! handed in as plain data, and `plan_command` decides which pipeline to
//! run with which parameters.

use vstd::prelude::*;

verus! {

/// The default page size of an ingest command.
pub const DEFAULT_LIMIT: i32 = 200;

/// The default starting offset of an ingest command.
pub const DEFAULT_OFFSET: i32 = 0;

/// The parsed command line.
#[derive(Debug)]
pub struct Cli {
    pub command: Commands,
}

/// The two commands the client offers: fetch one record by identifier, or
/// ingest the collection into a file.
#[derive(Debug)]
pub enum Commands {
    /// Fetch a single record and print it.
    Fetch { pokemon_id: String },
    /// Ingest the collection into a file; with `all` set, bypass pagination
    /// and ask for the whole set in one window.
    Ingest { all: bool, limit: i32, offset: i32, file_path: String },
}

/// What the entry point decides to run.
#[derive(Debug)]
pub enum RunPlan {
    /// Look one record up and print it.
    FetchOne { pokemon_id: String },
    /// Ingest the whole collection in one nominal window.
    IngestAll { file_path: String },
    /// Ingest the collection window by window.
    IngestWindowed { limit: i32, offset: i32, file_path: String },
}

/// Decide which pipeline a command runs.  An ingest with `all` set ignores
/// the pagination parameters and degenerates to the single-window plan.
pub fn plan_command(cmd: Commands) -> (r: RunPlan)
    ensures
        match cmd {
            Commands::Fetch { pokemon_id } => r == (RunPlan::FetchOne { pokemon_id }),
            Commands::Ingest { all, limit, offset, file_path } => if all {
                r == (RunPlan::IngestAll { file_path })
            } else {
                r == (RunPlan::IngestWindowed { limit, offset, file_path })
            },
        },
{
    match cmd {
        Commands::Fetch { pokemon_id } => RunPlan::FetchOne { pokemon_id },
        Commands::Ingest { all, limit: _, offset: _, file_path } if all => RunPlan::IngestAll {
            file_path,
        },
        Commands::Ingest { all: _, limit, offset, file_path } => RunPlan::IngestWindowed {
            limit,
            offset,
            file_path,
        },
    }
}

} // verus!
