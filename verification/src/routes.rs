//! The endpoints at the root of the service.

use vstd::prelude::*;
use vstd::string::StringExecFns;

verus! {

/// The greeting at the root path.
pub fn hello_world() -> (text: &'static str)
    ensures
        text@ == "Hello World!"@,
{
    "Hello World!"
}

/// The answer to a ping.
pub fn ping() -> (text: &'static str)
    ensures
        text@ == "PONG"@,
{
    "PONG"
}

/// What the version endpoint answers, given what the database said when it
/// was asked for its version: that version, or `Error: ` and the failure.
pub open spec fn version_answer(db_version: Result<Seq<char>, Seq<char>>) -> Seq<char> {
    match db_version {
        Ok(version) => version,
        Err(failure) => "Error: "@ + failure,
    }
}

/// Answers a request for the version of the database. `db_version` is what
/// the database returned, or a description of why it did not.
pub fn version(db_version: Result<String, String>) -> (text: String)
    ensures
        text@ == version_answer(
            match db_version {
                Ok(version) => Ok(version@),
                Err(failure) => Err(failure@),
            },
        ),
{
    match db_version {
        Ok(version) => version,
        Err(failure) => {
            let mut text = String::from_str("Error: ");
            text.append(failure.as_str());
            text
        },
    }
}

} // verus!
