use vstd::prelude::*;

verus! {

/// The kinds of failure that the client's own decisions can produce.
#[derive(Debug, Clone, Copy, PartialEq, Eq, Structural)]
pub enum Kind {
    /// The command line names no command that the client knows.
    NoMatchingCommand,
    /// A review was requested from the branch that it targets.
    CannotReviewSameBranch,
    /// The home directory is unknown, so no job root can be chosen.
    NoHomedir,
    /// The `api` command was given a method other than get, post, put or delete.
    UnsupportedHttpMethod,
}

/// An error of the client: its kind and an optional detail message.
#[derive(Debug, Clone)]
pub struct DeliveryError {
    pub kind: Kind,
    pub detail: Option<String>,
}

impl DeliveryError {
    /// An error of the given kind without a detail message.
    pub fn new(kind: Kind) -> (e: DeliveryError)
        ensures
            e.kind == kind,
            e.detail is None,
    {
        DeliveryError { kind, detail: None }
    }
}

/// The error reported when no command matches the command line.
pub fn no_matching_command() -> (e: DeliveryError)
    ensures
        e.kind == Kind::NoMatchingCommand,
        e.detail is None,
{
    DeliveryError::new(Kind::NoMatchingCommand)
}

} // verus!
