use vstd::prelude::*;
use vstd::string::*;
use crate::query::{AccessError, QuerySpec};

verus! {

/// The desktop environments whose file manager can be asked to show a
/// directory.
#[derive(Clone, Copy, Debug, PartialEq, Eq, Structural)]
pub enum Platform {
    Windows,
    MacOs,
    Linux,
}

pub open spec fn reveal_program_text(p: Platform) -> Seq<char> {
    match p {
        Platform::Windows => "explorer.exe"@,
        Platform::MacOs => "open"@,
        Platform::Linux => "xdg-open"@,
    }
}

/// The program that opens a directory in the platform's file manager; it
/// takes the directory as its one argument.
pub fn reveal_program(p: Platform) -> (r: &'static str)
    ensures
        r@ == reveal_program_text(p),
{
    match p {
        Platform::Windows => "explorer.exe",
        Platform::MacOs => "open",
        Platform::Linux => "xdg-open",
    }
}

/// A greeting for `name`.
pub fn greet(name: String) -> (r: String)
    ensures
        r@ == "Hello, "@ + name@ + "!"@,
{
    let mut s = String::from_str("Hello, ");
    s.append(name.as_str());
    s.append("!");
    s
}

pub open spec fn probe_statement_text() -> Seq<char> {
    "SELECT 1"@
}

/// The trivial statement that shows a session to be usable.
pub fn probe_query() -> (r: QuerySpec)
    ensures
        r.statement@ == probe_statement_text(),
        r.params@.len() == 0,
{
    QuerySpec { statement: String::from_str("SELECT 1"), params: Vec::new() }
}

/// How far a connectivity probe got.
#[derive(Clone, Debug)]
pub enum ProbeStep {
    /// No session could be opened.
    ConnectFailed(String),
    /// A session was opened but the trivial statement failed.
    QueryFailed(String),
    /// The trivial statement ran.
    QuerySucceeded,
}

/// The answer of a connectivity probe: `true` once the statement ran, and
/// otherwise an error that tells a connection failure from a query failure.
pub fn probe_outcome(step: ProbeStep) -> (r: Result<bool, AccessError>)
    ensures
        step is QuerySucceeded <==> r == Ok::<bool, AccessError>(true),
        step matches ProbeStep::ConnectFailed(m) ==> r matches Err(AccessError::Connection(n))
            && n == m,
        step matches ProbeStep::QueryFailed(m) ==> r matches Err(AccessError::Query(n)) && n == m,
{
    match step {
        ProbeStep::ConnectFailed(m) => Err(AccessError::Connection(m)),
        ProbeStep::QueryFailed(m) => Err(AccessError::Query(m)),
        ProbeStep::QuerySucceeded => Ok(true),
    }
}

} // verus!
