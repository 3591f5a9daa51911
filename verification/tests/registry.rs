use npm_registry::applier::{npm_config_args, report_outcome};
use npm_registry::profile::{rejection_message, select_profile, Profile};
use npm_registry::resolver::{
    begin_work_resolution, begin_work_resolution_with, config_path, home_registry,
    on_config_checked, on_registry_prompted, NpmRegistry, ResolveStep,
};
use npm_registry::text::trim_chars;

const HOME_URL: &str = "https://registry.npmjs.org/";

#[test]
fn parses_exact_profile_names() {
    assert_eq!(Profile::from_str("home"), Some(Profile::Home));
    assert_eq!(Profile::from_str("work"), Some(Profile::Work));
    assert_eq!(Profile::from_str("HOME"), None);
    assert_eq!(Profile::from_str("office"), None);
    assert_eq!(Profile::from_str(""), None);
    assert_eq!(Profile::from_str(" home"), None);
}

#[test]
fn profile_names_for_messages() {
    assert_eq!(Profile::Home.name(), "home");
    assert_eq!(Profile::Work.name(), "work");
}

#[test]
fn trims_surrounding_whitespace() {
    assert_eq!(trim_chars("  home\n"), "home");
    assert_eq!(trim_chars("work"), "work");
    assert_eq!(trim_chars(""), "");
    assert_eq!(trim_chars(" \t\r\n "), "");
    assert_eq!(trim_chars("a b"), "a b");
    assert_eq!(trim_chars("\u{3000}home\u{2028}"), "home");
    assert_eq!(trim_chars("\u{A0}\u{2009}work\u{85}"), "work");
}

#[test]
fn selection_accepts_trimmed_home_and_work() {
    assert_eq!(select_profile("home"), Ok(Profile::Home));
    assert_eq!(select_profile(" home\n"), Ok(Profile::Home));
    assert_eq!(select_profile("work"), Ok(Profile::Work));
    assert_eq!(select_profile("\twork \r\n"), Ok(Profile::Work));
}

#[test]
fn selection_rejects_other_input_echoing_it() {
    let err = select_profile("office").unwrap_err();
    assert_eq!(
        err,
        "type `npm-registry work` or `npm-registry home` to switch npm registry. Got: office"
    );
    let err = select_profile("").unwrap_err();
    assert_eq!(
        err,
        "type `npm-registry work` or `npm-registry home` to switch npm registry. Got: "
    );
    let err = select_profile("HOME").unwrap_err();
    assert_eq!(
        err,
        "type `npm-registry work` or `npm-registry home` to switch npm registry. Got: HOME"
    );
    // the echoed value is the input as received, untrimmed
    let err = select_profile("  npm \n").unwrap_err();
    assert_eq!(err, rejection_message("  npm \n"));
    assert!(err.ends_with("Got:   npm \n"));
}

#[test]
fn home_profile_resolves_to_constant_url() {
    assert_eq!(home_registry(), HOME_URL);
    let registry = NpmRegistry::default();
    assert_eq!(registry.origin, HOME_URL);
    match registry.resolve_start(Profile::Home) {
        ResolveStep::Resolved { url, persist } => {
            assert_eq!(url, HOME_URL);
            assert!(persist.is_none());
        }
        _ => panic!("home resolution must finish at once"),
    }
}

#[test]
fn config_path_is_fixed_under_home() {
    assert_eq!(
        config_path("/home/user"),
        "/home/user/.config/npm-registry.txt"
    );
}

#[test]
fn work_reads_existing_config_verbatim() {
    let step = begin_work_resolution_with(Some(String::from("/home/user")));
    let path = match step {
        ResolveStep::CheckConfig { path } => path,
        _ => panic!("work resolution must start at the config file"),
    };
    assert_eq!(path, "/home/user/.config/npm-registry.txt");
    // the stored bytes come back exactly, untrimmed
    let stored = String::from("https://work.example.com/\n");
    match on_config_checked(path, Some(stored.clone())) {
        ResolveStep::Resolved { url, persist } => {
            assert_eq!(url, stored);
            assert!(persist.is_none());
        }
        _ => panic!("an existing config file must resolve without a prompt"),
    }
}

#[test]
fn work_persists_once_then_reuses() {
    let entered = String::from("https://private.example.com/");
    // the config file, simulated: absent at first
    let mut file: Option<String> = None;

    // first run: no file, so the user is prompted and the answer persisted
    let step = begin_work_resolution_with(Some(String::from("/home/user")));
    let path = match step {
        ResolveStep::CheckConfig { path } => path,
        _ => panic!("work resolution must start at the config file"),
    };
    let step = on_config_checked(path.clone(), file.clone());
    let persist = match step {
        ResolveStep::PromptUrl { persist } => persist,
        _ => panic!("a missing config file must lead to a prompt"),
    };
    assert_eq!(persist.as_deref(), Some(path.as_str()));
    let first = match on_registry_prompted(persist, entered.clone()) {
        ResolveStep::Resolved { url, persist } => {
            if let Some(p) = persist {
                assert_eq!(p, path);
                file = Some(url.clone());
            }
            url
        }
        _ => panic!("a prompt answer must finish resolution"),
    };
    assert_eq!(first, entered);
    assert_eq!(file.as_deref(), Some(entered.as_str()));

    // second run: the file exists, so no prompt occurs
    match on_config_checked(path, file.clone()) {
        ResolveStep::Resolved { url, persist } => {
            assert_eq!(url, entered);
            assert!(persist.is_none());
        }
        _ => panic!("the persisted url must be reused without a prompt"),
    }
}

#[test]
fn work_without_home_directory_skips_persistence() {
    let step = begin_work_resolution_with(None);
    let persist = match step {
        ResolveStep::PromptUrl { persist } => persist,
        _ => panic!("without a home directory the user is prompted directly"),
    };
    assert!(persist.is_none());
    match on_registry_prompted(persist, String::from("https://work.example.com/")) {
        ResolveStep::Resolved { url, persist } => {
            assert_eq!(url, "https://work.example.com/");
            assert!(persist.is_none());
        }
        _ => panic!("a prompt answer must finish resolution"),
    }
}

#[test]
fn platform_home_step_uses_fixed_config_location() {
    // whatever the platform answers, the step follows the resolution rules
    match begin_work_resolution() {
        ResolveStep::CheckConfig { path } => {
            assert!(path.ends_with("/.config/npm-registry.txt"));
        }
        ResolveStep::PromptUrl { persist } => assert!(persist.is_none()),
        ResolveStep::Resolved { .. } => {
            panic!("work resolution never finishes before the config file is checked")
        }
    }
}

#[test]
fn npm_arguments_set_the_registry() {
    let args = npm_config_args("https://registry.npmjs.org/");
    assert_eq!(args, vec!["config", "set", "registry", "https://registry.npmjs.org/"]);
}

#[test]
fn zero_exit_reports_success_with_stdout() {
    let msg = report_outcome(Profile::Home, Some(0), "ok", "");
    assert_eq!(msg, "Switching registry to home successfully.\nok");
    let msg = report_outcome(Profile::Work, Some(0), "done\n", "ignored");
    assert_eq!(msg, "Switching registry to work successfully.\ndone\n");
}

#[test]
fn nonzero_or_missing_exit_reports_stderr() {
    let msg = report_outcome(Profile::Work, Some(1), "ignored", "ENOTFOUND");
    assert_eq!(msg, "Error: ENOTFOUND");
    let msg = report_outcome(Profile::Home, None, "ignored", "killed by signal");
    assert_eq!(msg, "Error: killed by signal");
    let msg = report_outcome(Profile::Home, Some(-1), "", "bad");
    assert_eq!(msg, "Error: bad");
}

#[test]
fn scenario_home_with_mocked_tool() {
    // argument `home`, no config file anywhere in play
    let profile = select_profile("home").unwrap();
    let registry = NpmRegistry::default();
    let url = match registry.resolve_start(profile) {
        ResolveStep::Resolved { url, .. } => url,
        _ => panic!("home resolution must finish at once"),
    };
    let args = npm_config_args(&url);
    assert_eq!(args[3], "https://registry.npmjs.org/");
    // the mocked tool exits 0 with stdout "ok"
    let msg = report_outcome(profile, Some(0), "ok", "");
    assert!(msg.contains("Switching registry to home successfully."));
    assert!(msg.ends_with("ok"));
}

#[test]
fn scenario_work_first_run_persists_and_applies() {
    let profile = select_profile("work").unwrap();
    assert_eq!(profile, Profile::Work);
    let mut file: Option<String> = None;
    let step = begin_work_resolution_with(Some(String::from("/home/user")));
    let path = match step {
        ResolveStep::CheckConfig { path } => path,
        _ => panic!("work resolution must start at the config file"),
    };
    let persist = match on_config_checked(path.clone(), file.clone()) {
        ResolveStep::PromptUrl { persist } => persist,
        _ => panic!("a missing config file must lead to a prompt"),
    };
    // interactive input
    let entered = String::from("https://private.example.com/");
    let url = match on_registry_prompted(persist, entered.clone()) {
        ResolveStep::Resolved { url, persist } => {
            if let Some(p) = persist {
                assert_eq!(p, "/home/user/.config/npm-registry.txt");
                file = Some(url.clone());
            }
            url
        }
        _ => panic!("a prompt answer must finish resolution"),
    };
    // the file now holds exactly the entered url, and the tool gets it too
    assert_eq!(file.as_deref(), Some("https://private.example.com/"));
    let args = npm_config_args(&url);
    assert_eq!(args[3], "https://private.example.com/");
}

#[test]
fn scenario_failing_tool_is_reported_not_fatal() {
    let profile = select_profile("work").unwrap();
    let url = match on_registry_prompted(None, String::from("https://down.example.com/")) {
        ResolveStep::Resolved { url, .. } => url,
        _ => panic!("a prompt answer must finish resolution"),
    };
    let _args = npm_config_args(&url);
    // the mocked tool exits 1 with stderr "ENOTFOUND": reported as output
    let msg = report_outcome(profile, Some(1), "", "ENOTFOUND");
    assert_eq!(msg, "Error: ENOTFOUND");
}
