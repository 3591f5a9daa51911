//! Applying a resolved registry URL: the argument list for the external
//! npm tool and the console message reporting how the invocation went.
//!
//! The subprocess itself is spawned outside the library; its captured
//! exit status and output come back in as plain values.

use vstd::prelude::*;
use vstd::string::StringExecFns;

use crate::profile::{spec_profile_name, Profile};

verus! {

/// The arguments handed to the npm executable to set the registry:
/// `config set registry <url>`.
pub open spec fn spec_npm_config_args(url: Seq<char>) -> Seq<Seq<char>> {
    seq!["config"@, "set"@, "registry"@, url]
}

/// Build the npm argument list that sets the active registry to `url`.
pub fn npm_config_args(url: &str) -> (r: Vec<String>)
    ensures
        r.deep_view() == spec_npm_config_args(url@),
{
    let mut args: Vec<String> = Vec::new();
    args.push(String::from_str("config"));
    args.push(String::from_str("set"));
    args.push(String::from_str("registry"));
    args.push(url.to_owned());
    proof {
        assert(args.deep_view() =~= spec_npm_config_args(url@));
    }
    args
}

/// The message reporting a successful switch: it names the profile and
/// carries the tool's captured standard output.
pub open spec fn spec_success_message(p: Profile, stdout: Seq<char>) -> Seq<char> {
    "Switching registry to "@ + spec_profile_name(p) + " successfully.\n"@ + stdout
}

/// The message reporting a failed invocation: it carries the tool's
/// captured standard error.
pub open spec fn spec_error_message(stderr: Seq<char>) -> Seq<char> {
    "Error: "@ + stderr
}

/// The message for a finished invocation: exit status zero reports
/// success with the captured standard output; any other status, or a
/// missing one (the tool was killed by a signal), reports the captured
/// standard error.
pub open spec fn spec_report(p: Profile, code: Option<i32>, stdout: Seq<char>, stderr: Seq<char>) -> Seq<char> {
    if code == Some(0i32) {
        spec_success_message(p, stdout)
    } else {
        spec_error_message(stderr)
    }
}

/// Build the console message for a finished npm invocation from its exit
/// code and captured, UTF-8 decoded output streams.
pub fn report_outcome(p: Profile, code: Option<i32>, stdout: &str, stderr: &str) -> (r: String)
    ensures
        r@ == spec_report(p, code, stdout@, stderr@),
{
    match code {
        Some(0i32) => String::from_str("Switching registry to ").concat(
            p.name().as_str(),
        ).concat(" successfully.\n").concat(stdout),
        _ => String::from_str("Error: ").concat(stderr),
    }
}

} // verus!
