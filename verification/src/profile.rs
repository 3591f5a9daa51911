//! The profile a user can select: the public home registry or the
//! private work registry.

use vstd::prelude::*;
use vstd::string::StringExecFns;

use crate::text::{spec_trim, trim_chars};

verus! {

/// Which registry the user wants npm to use.
#[derive(Clone, Copy, PartialEq, Eq, Structural, Debug)]
pub enum Profile {
    Home,
    Work,
}

/// The profile accepted for a given piece of (already trimmed) input
/// text: exactly the literals `home` and `work`, case-sensitively.
pub open spec fn spec_parse_profile(t: Seq<char>) -> Option<Profile> {
    if t == "home"@ {
        Some(Profile::Home)
    } else if t == "work"@ {
        Some(Profile::Work)
    } else {
        None
    }
}

/// The textual name of a profile, as it appears in console messages.
pub open spec fn spec_profile_name(p: Profile) -> Seq<char> {
    match p {
        Profile::Home => "home"@,
        Profile::Work => "work"@,
    }
}

impl Profile {
    /// Parse a trimmed profile name. Only the exact strings `home` and
    /// `work` are accepted; everything else is rejected.
    pub fn from_str(t: &str) -> (r: Option<Profile>)
        ensures
            r == spec_parse_profile(t@),
    {
        let owned: String = t.to_owned();
        if owned == String::from_str("home") {
            Some(Profile::Home)
        } else if owned == String::from_str("work") {
            Some(Profile::Work)
        } else {
            None
        }
    }

    /// The profile's name as display text.
    pub fn name(&self) -> (r: String)
        ensures
            r@ == spec_profile_name(*self),
    {
        match self {
            Profile::Home => String::from_str("home"),
            Profile::Work => String::from_str("work"),
        }
    }
}

/// The message shown when the input names no known profile; it echoes
/// the offending value back to the user.
pub open spec fn spec_rejection_message(v: Seq<char>) -> Seq<char> {
    "type `npm-registry work` or `npm-registry home` to switch npm registry. Got: "@ + v
}

/// Build the rejection message for an unrecognized profile name.
pub fn rejection_message(v: &str) -> (r: String)
    ensures
        r@ == spec_rejection_message(v@),
{
    String::from_str(
        "type `npm-registry work` or `npm-registry home` to switch npm registry. Got: ",
    ).concat(v)
}

/// The outcome of profile selection on raw user input: the profile the
/// trimmed input names, or the rejection message echoing the input as
/// received, untrimmed.
pub open spec fn spec_select_profile(raw: Seq<char>) -> Result<Profile, Seq<char>> {
    match spec_parse_profile(spec_trim(raw)) {
        Some(p) => Ok(p),
        None => Err(spec_rejection_message(raw)),
    }
}

/// Select a profile from raw user input (a command-line argument or a
/// line read from the console): trim surrounding whitespace, then accept
/// exactly `home` or `work`. Anything else is rejected with a message
/// that echoes the input as received.
pub fn select_profile(raw: &str) -> (r: Result<Profile, String>)
    ensures
        r is Ok <==> spec_select_profile(raw@) is Ok,
        r is Ok ==> r->Ok_0 == spec_select_profile(raw@)->Ok_0,
        r is Err ==> r->Err_0@ == spec_select_profile(raw@)->Err_0,
{
    let trimmed = trim_chars(raw);
    match Profile::from_str(trimmed) {
        Some(p) => Ok(p),
        None => Err(rejection_message(raw)),
    }
}

} // verus!
