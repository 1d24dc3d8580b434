//! Names and defaults that the program around the library is set up with.

use vstd::prelude::*;
use vstd::string::StringExecFns;

verus! {

/// The name of the client; the session lives in a directory of this name
/// under the platform's data directory.
pub open spec fn client_name_text() -> Seq<char> {
    "oxybot"@
}

/// The name of the client.
pub fn client_name() -> (name: &'static str)
    ensures
        name@ == client_name_text(),
{
    "oxybot"
}

/// The name of the session file inside the client's directory.
pub fn session_file_name() -> (name: &'static str)
    ensures
        name@ == "session"@,
{
    "session"
}

/// The log filter that is used where the environment sets none: the
/// level `info` for the given target.
pub open spec fn default_log_filter_text(target: Seq<char>) -> Seq<char> {
    target + "=info"@
}

/// The log filter that is used where the environment sets none.
pub fn default_log_filter(target: &str) -> (filter: String)
    ensures
        filter@ == default_log_filter_text(target@),
{
    String::from_str(target).concat("=info")
}

} // verus!
