use vstd::prelude::*;

use crate::error::{DeliveryError, Kind};

verus! {

/// The commands of the client.
#[derive(Debug, Clone, Copy, PartialEq, Eq, Structural)]
pub enum Command {
    Review,
    Setup,
    Init,
    Checkout,
    Diff,
    Pipeline,
    Api,
    Clone,
    Job,
    Token,
    Version,
}

/// Which commands and the `--version` flag a parsed command line sets.
#[derive(Debug, Clone, Copy)]
pub struct CommandFlags {
    pub review: bool,
    pub setup: bool,
    pub init: bool,
    pub checkout: bool,
    pub diff: bool,
    pub pipeline: bool,
    pub api: bool,
    pub clone: bool,
    pub job: bool,
    pub token: bool,
    pub version: bool,
}

/// The command a command line selects: the first that it sets, in the order
/// review, setup, init, checkout, diff, pipeline, api, clone, job, token,
/// version; none when it sets none.
pub open spec fn selected(f: CommandFlags) -> Option<Command> {
    if f.review {
        Some(Command::Review)
    } else if f.setup {
        Some(Command::Setup)
    } else if f.init {
        Some(Command::Init)
    } else if f.checkout {
        Some(Command::Checkout)
    } else if f.diff {
        Some(Command::Diff)
    } else if f.pipeline {
        Some(Command::Pipeline)
    } else if f.api {
        Some(Command::Api)
    } else if f.clone {
        Some(Command::Clone)
    } else if f.job {
        Some(Command::Job)
    } else if f.token {
        Some(Command::Token)
    } else if f.version {
        Some(Command::Version)
    } else {
        None
    }
}

/// The command to run for a parsed command line (see `selected`); a command
/// line that sets none is refused with `NoMatchingCommand`.
pub fn select_command(flags: &CommandFlags) -> (res: Result<Command, DeliveryError>)
    ensures
        match selected(*flags) {
            Some(c) => res == Ok::<Command, DeliveryError>(c),
            None => res matches Err(e) && e.kind == Kind::NoMatchingCommand && e.detail is None,
        },
{
    if flags.review {
        Ok(Command::Review)
    } else if flags.setup {
        Ok(Command::Setup)
    } else if flags.init {
        Ok(Command::Init)
    } else if flags.checkout {
        Ok(Command::Checkout)
    } else if flags.diff {
        Ok(Command::Diff)
    } else if flags.pipeline {
        Ok(Command::Pipeline)
    } else if flags.api {
        Ok(Command::Api)
    } else if flags.clone {
        Ok(Command::Clone)
    } else if flags.job {
        Ok(Command::Job)
    } else if flags.token {
        Ok(Command::Token)
    } else if flags.version {
        Ok(Command::Version)
    } else {
        Err(crate::error::no_matching_command())
    }
}

/// The command line that sets `c` alone.
pub open spec fn only(c: Command) -> CommandFlags {
    CommandFlags {
        review: c == Command::Review,
        setup: c == Command::Setup,
        init: c == Command::Init,
        checkout: c == Command::Checkout,
        diff: c == Command::Diff,
        pipeline: c == Command::Pipeline,
        api: c == Command::Api,
        clone: c == Command::Clone,
        job: c == Command::Job,
        token: c == Command::Token,
        version: c == Command::Version,
    }
}

/// A command line that sets exactly one command runs that command.
pub proof fn lemma_single_command_runs(c: Command)
    ensures
        selected(only(c)) == Some(c),
{
}

/// A command line that sets no command matches none.
pub proof fn lemma_no_command_matches_none(f: CommandFlags)
    requires
        !f.review && !f.setup && !f.init && !f.checkout && !f.diff && !f.pipeline && !f.api
            && !f.clone && !f.job && !f.token && !f.version,
    ensures
        selected(f) is None,
{
}

} // verus!
