use gir::general::declare_default_from_new;
use gir::model::{Config, Env, FunctionInfo};
use gir::sink::Sink;
use gir::version::Version;

fn env(baseline_major: u16, baseline_minor: u16) -> Env {
    Env {
        config: Config {
            girs_version: "1.2".to_string(),
            min_cfg_version: Version::new(baseline_major, baseline_minor, 0),
        },
        glib_is_main: false,
    }
}

fn func(name: &str, parameter_count: usize, hidden: bool, version: Option<Version>) -> FunctionInfo {
    FunctionInfo {
        name: name.to_string(),
        parameter_count,
        hidden,
        version,
    }
}

#[test]
fn hidden_entry_does_not_qualify() {
    // The first zero-argument "new" is hidden, so it is no candidate;
    // the scan selects the visible one after it and gates on its
    // version.
    let e = env(2, 0);
    let fns = vec![
        func("new", 0, true, None),
        func("new", 0, false, Some(Version::new(3, 0, 0))),
    ];
    let mut w = Sink::new();
    declare_default_from_new(&mut w, &e, "Widget", &fns);
    let lines = w.into_lines();
    assert_eq!(lines.len(), 7);
    assert_eq!(lines[1], "#[cfg(any(feature = \"v3_0\", feature = \"dox\"))]");
    assert_eq!(lines[2], "impl Default for Widget {");
}

#[test]
fn visible_first_match_wins_and_carries_its_gate() {
    let e = env(2, 0);
    let fns = vec![
        func("new", 0, false, Some(Version::new(3, 0, 0))),
        func("new", 0, true, None),
    ];
    let mut w = Sink::new();
    declare_default_from_new(&mut w, &e, "Widget", &fns);
    assert_eq!(
        w.into_lines(),
        vec![
            "".to_string(),
            "#[cfg(any(feature = \"v3_0\", feature = \"dox\"))]".to_string(),
            "impl Default for Widget {".to_string(),
            "    fn default() -> Self {".to_string(),
            "        Self::new()".to_string(),
            "    }".to_string(),
            "}".to_string(),
        ]
    );
}

#[test]
fn no_qualifying_entry_emits_nothing() {
    let e = env(2, 0);
    let fns = vec![
        func("create", 0, false, None),
        func("new", 2, false, None),
        func("new", 0, true, None),
    ];
    let mut w = Sink::new();
    declare_default_from_new(&mut w, &e, "Widget", &fns);
    assert_eq!(w.into_lines(), Vec::<String>::new());
}

#[test]
fn empty_function_list_emits_nothing() {
    let e = env(2, 0);
    let mut w = Sink::new();
    declare_default_from_new(&mut w, &e, "Widget", &Vec::new());
    assert_eq!(w.into_lines(), Vec::<String>::new());
}

#[test]
fn single_match_below_baseline_is_ungated() {
    let e = env(2, 0);
    let fns = vec![func("new", 0, false, Some(Version::new(1, 0, 0)))];
    let mut w = Sink::new();
    declare_default_from_new(&mut w, &e, "Widget", &fns);
    assert_eq!(
        w.into_lines(),
        vec![
            "".to_string(),
            "impl Default for Widget {".to_string(),
            "    fn default() -> Self {".to_string(),
            "        Self::new()".to_string(),
            "    }".to_string(),
            "}".to_string(),
        ]
    );
}

#[test]
fn later_entries_skipped_once_first_matches() {
    // Two visible zero-argument constructors: the first in list order
    // decides which gate is written; the second's version stays out.
    let e = env(2, 0);
    let fns = vec![
        func("new", 0, false, Some(Version::new(3, 0, 0))),
        func("new", 0, false, Some(Version::new(4, 0, 0))),
    ];
    let mut w = Sink::new();
    declare_default_from_new(&mut w, &e, "Widget", &fns);
    let lines = w.into_lines();
    assert!(lines
        .iter()
        .any(|l| l.contains("feature = \"v3_0\"")));
    assert!(lines.iter().all(|l| !l.contains("feature = \"v4_0\"")));
}
