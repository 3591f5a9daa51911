//! The library's laws: how profile selection and registry resolution
//! behave across runs, proved over the spec functions that the
//! executable functions' contracts are stated with.

use vstd::prelude::*;

use crate::profile::{spec_rejection_message, spec_select_profile, Profile};
use crate::resolver::{
    spec_after_check, spec_after_prompt, spec_begin_work, spec_config_path, spec_home_registry,
    spec_resolve_start, StepView,
};
use crate::text::spec_trim;

verus! {

/// Any input whose trimmed form is exactly `home` selects the home
/// profile, and resolution for the home profile is at once the fixed
/// public registry URL: its first step is already `Resolved`, whatever
/// the platform answers for the home directory, so no config file is
/// ever consulted and no file content can influence the URL.
pub proof fn law_home_registry_constant(raw: Seq<char>, home: Option<Seq<char>>)
    requires
        spec_trim(raw) == "home"@,
    ensures
        spec_select_profile(raw) == Ok::<Profile, Seq<char>>(Profile::Home),
        spec_resolve_start(spec_home_registry(), Profile::Home, home) == (StepView::Resolved {
            url: spec_home_registry(),
            persist: None,
        }),
{
}

/// With a home directory present and the config file already holding
/// `url`, work resolution checks exactly the fixed config path and
/// resolves to `url` byte for byte, persisting nothing anew; no prompt
/// step occurs.
pub proof fn law_work_uses_stored_url(home: Seq<char>, url: Seq<char>)
    ensures
        spec_begin_work(Some(home)) == (StepView::CheckConfig { path: spec_config_path(home) }),
        spec_after_check(spec_config_path(home), Some(url)) == (StepView::Resolved {
            url: url,
            persist: None,
        }),
        !(spec_after_check(spec_config_path(home), Some(url)) is PromptUrl),
{
}

/// Persistence is idempotent. On a first work run with no config file,
/// resolution prompts and asks for the entered `url` to be persisted
/// verbatim at the config path; once the file holds `url`, a later work
/// run resolves to the same `url` without any prompt step.
pub proof fn law_persisted_url_is_reused(home: Seq<char>, url: Seq<char>)
    ensures
        spec_after_check(spec_config_path(home), None) == (StepView::PromptUrl {
            persist: Some(spec_config_path(home)),
        }),
        spec_after_prompt(Some(spec_config_path(home)), url) == (StepView::Resolved {
            url: url,
            persist: Some(spec_config_path(home)),
        }),
        spec_after_check(spec_config_path(home), Some(url)) == (StepView::Resolved {
            url: url,
            persist: None,
        }),
        !(spec_after_check(spec_config_path(home), Some(url)) is PromptUrl),
{
}

/// Any input whose trimmed form is neither `home` nor `work` is
/// rejected: selection yields no profile, only the message echoing the
/// input as received. A rejection is terminal — no resolution step and
/// no tool invocation is derived from an `Err` selection — so neither a
/// file write nor a subprocess happens for such input.
pub proof fn law_rejection_is_inert(raw: Seq<char>)
    requires
        spec_trim(raw) != "home"@,
        spec_trim(raw) != "work"@,
    ensures
        spec_select_profile(raw) is Err,
        spec_select_profile(raw)->Err_0 == spec_rejection_message(raw),
{
}

} // verus!
