//! Resolving the registry URL for a chosen profile.
//!
//! The home registry is a compiled-in constant. The work registry is
//! cached in a config file under the user's home directory: an existing
//! file is read back verbatim, and on the first run the user is prompted
//! and the entered URL is persisted verbatim. The file and console work
//! itself happens outside the library; resolution is modelled as a small
//! step machine whose transitions take the outside results as plain
//! values, so every decision is verified.

use vstd::prelude::*;
use vstd::string::StringExecFns;

use crate::profile::Profile;

verus! {

/// The fixed public registry URL used for the home profile.
pub open spec fn spec_home_registry() -> Seq<char> {
    "https://registry.npmjs.org/"@
}

/// Build the home registry URL.
pub fn home_registry() -> (r: String)
    ensures
        r@ == spec_home_registry(),
{
    String::from_str("https://registry.npmjs.org/")
}

/// The registry switcher; `origin` holds the home registry URL.
pub struct NpmRegistry {
    pub origin: String,
}

impl Default for NpmRegistry {
    /// A switcher whose home registry is the fixed public endpoint.
    fn default() -> (r: Self)
        ensures
            r.origin@ == spec_home_registry(),
    {
        NpmRegistry { origin: home_registry() }
    }
}

/// The config file path caching the work registry URL, relative to the
/// user's home directory.
pub open spec fn spec_config_path(home: Seq<char>) -> Seq<char> {
    home + "/.config/npm-registry.txt"@
}

/// Build the config file path under the given home directory.
pub fn config_path(home: &str) -> (r: String)
    ensures
        r@ == spec_config_path(home@),
{
    home.to_owned().concat("/.config/npm-registry.txt")
}

/// One step of registry resolution. The caller performs the file or
/// console work a step asks for and feeds the outcome back in.
pub enum ResolveStep {
    /// Read the config file at `path` if it exists.
    CheckConfig { path: String },
    /// Prompt the user for the registry URL; persist the entered URL at
    /// `persist` afterwards (no persistence when `persist` is `None`).
    PromptUrl { persist: Option<String> },
    /// Resolution is done: `url` is the registry URL, to be written
    /// verbatim to `persist` first if that is `Some`.
    Resolved { url: String, persist: Option<String> },
}

/// The mathematical value of a resolution step.
pub enum StepView {
    CheckConfig { path: Seq<char> },
    PromptUrl { persist: Option<Seq<char>> },
    Resolved { url: Seq<char>, persist: Option<Seq<char>> },
}

impl View for ResolveStep {
    type V = StepView;

    open spec fn view(&self) -> StepView {
        match self {
            ResolveStep::CheckConfig { path } => StepView::CheckConfig { path: path@ },
            ResolveStep::PromptUrl { persist } => StepView::PromptUrl {
                persist: persist.deep_view(),
            },
            ResolveStep::Resolved { url, persist } => StepView::Resolved {
                url: url@,
                persist: persist.deep_view(),
            },
        }
    }
}

/// The first step of work-registry resolution, given the platform's
/// answer for the user's home directory: with a home directory, check
/// the config file there; without one, prompt and skip persistence.
pub open spec fn spec_begin_work(home: Option<Seq<char>>) -> StepView {
    match home {
        Some(h) => StepView::CheckConfig { path: spec_config_path(h) },
        None => StepView::PromptUrl { persist: None },
    }
}

/// The step after the config file at `path` was checked: an existing
/// file's content is the registry URL, read back verbatim; a missing
/// file means the user is prompted and the answer persisted at `path`.
pub open spec fn spec_after_check(path: Seq<char>, content: Option<Seq<char>>) -> StepView {
    match content {
        Some(url) => StepView::Resolved { url, persist: None },
        None => StepView::PromptUrl { persist: Some(path) },
    }
}

/// The step after the user entered a registry URL at the prompt: the
/// entered text is the registry URL, verbatim, persisted at `persist`
/// when that is `Some`.
pub open spec fn spec_after_prompt(persist: Option<Seq<char>>, input: Seq<char>) -> StepView {
    StepView::Resolved { url: input, persist }
}

/// The first resolution step for a profile: the home profile resolves
/// at once to the switcher's own origin URL and never looks at the
/// config file; the work profile starts from the platform's answer for
/// the home directory.
pub open spec fn spec_resolve_start(origin: Seq<char>, p: Profile, home: Option<Seq<char>>) -> StepView {
    match p {
        Profile::Home => StepView::Resolved { url: origin, persist: None },
        Profile::Work => spec_begin_work(home),
    }
}

/// Relies on dirs::home_dir: the platform's standard notion of the
/// current user's home directory, or None when there is none. The answer
/// depends on the environment, so nothing is stated of it; the path is
/// handed on as text (None also when it is not valid UTF-8).
#[verifier::external_body]
fn platform_home_dir() -> (r: Option<String>) {
    dirs::home_dir().and_then(|p| p.to_str().map(|s| s.to_owned()))
}

/// Begin work-registry resolution with a given home directory answer.
pub fn begin_work_resolution_with(home: Option<String>) -> (s: ResolveStep)
    ensures
        s@ == spec_begin_work(home.deep_view()),
{
    match home {
        Some(h) => ResolveStep::CheckConfig { path: config_path(h.as_str()) },
        None => ResolveStep::PromptUrl { persist: None },
    }
}

/// Begin work-registry resolution, asking the platform for the home
/// directory. Whatever the platform answers, the step is the one the
/// resolution rules give for that answer.
pub fn begin_work_resolution() -> (s: ResolveStep)
    ensures
        exists|home: Option<Seq<char>>| s@ == spec_begin_work(home),
{
    let home = platform_home_dir();
    let ghost answer = home.deep_view();
    let s = begin_work_resolution_with(home);
    proof {
        assert(s@ == spec_begin_work(answer));
    }
    s
}

/// Continue after the config file at `path` was checked: `content` is
/// the file's full text if it existed, `None` if it did not.
pub fn on_config_checked(path: String, content: Option<String>) -> (s: ResolveStep)
    ensures
        s@ == spec_after_check(path@, content.deep_view()),
{
    match content {
        Some(url) => ResolveStep::Resolved { url, persist: None },
        None => ResolveStep::PromptUrl { persist: Some(path) },
    }
}

/// Continue after the user entered a registry URL at the prompt; the
/// entered text is taken verbatim, untrimmed.
pub fn on_registry_prompted(persist: Option<String>, input: String) -> (s: ResolveStep)
    ensures
        s@ == spec_after_prompt(persist.deep_view(), input@),
{
    ResolveStep::Resolved { url: input, persist }
}

impl NpmRegistry {
    /// The first resolution step for a profile: home resolves at once to
    /// this switcher's origin URL, touching no config file; work asks
    /// the platform for the home directory and starts from its answer.
    pub fn resolve_start(&self, p: Profile) -> (s: ResolveStep)
        ensures
            p == Profile::Home ==> s@ == (StepView::Resolved {
                url: self.origin@,
                persist: None,
            }),
            exists|home: Option<Seq<char>>| s@ == spec_resolve_start(self.origin@, p, home),
    {
        match p {
            Profile::Home => {
                let s = ResolveStep::Resolved { url: self.origin.clone(), persist: None };
                proof {
                    assert(s@ == spec_resolve_start(self.origin@, p, None::<Seq<char>>));
                }
                s
            },
            Profile::Work => {
                let s = begin_work_resolution();
                proof {
                    let home = choose|home: Option<Seq<char>>| s@ == spec_begin_work(home);
                    assert(s@ == spec_resolve_start(self.origin@, p, home));
                }
                s
            },
        }
    }
}

} // verus!
