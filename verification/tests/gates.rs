use gir::general::{
    cfg_condition, cfg_condition_string, doc_hidden, not_version_condition, version_condition,
    version_condition_string,
};
use gir::model::{Config, Env};
use gir::sink::Sink;
use gir::version::Version;

fn env_with_baseline(major: u16, minor: u16) -> Env {
    Env {
        config: Config {
            girs_version: "1.2".to_string(),
            min_cfg_version: Version::new(major, minor, 0),
        },
        glib_is_main: false,
    }
}

#[test]
fn positive_gate_above_baseline() {
    let env = env_with_baseline(2, 0);
    let line = version_condition_string(&env, Some(Version::new(3, 0, 0)), false, 0);
    assert_eq!(
        line,
        Some("#[cfg(any(feature = \"v3_0\", feature = \"dox\"))]".to_string())
    );
}

#[test]
fn positive_gate_at_baseline_absent() {
    let env = env_with_baseline(3, 0);
    let line = version_condition_string(&env, Some(Version::new(3, 0, 0)), false, 0);
    assert_eq!(line, None);
}

#[test]
fn positive_gate_below_baseline_absent() {
    let env = env_with_baseline(3, 0);
    let line = version_condition_string(&env, Some(Version::new(2, 8, 0)), false, 0);
    assert_eq!(line, None);
}

#[test]
fn positive_gate_without_version_absent() {
    let env = env_with_baseline(2, 0);
    assert_eq!(version_condition_string(&env, None, false, 0), None);
}

#[test]
fn positive_gate_commented_and_indented() {
    let env = env_with_baseline(2, 0);
    let line = version_condition_string(&env, Some(Version::new(3, 16, 0)), true, 2);
    assert_eq!(
        line,
        Some("\t\t//#[cfg(any(feature = \"v3_16\", feature = \"dox\"))]".to_string())
    );
}

#[test]
fn patch_level_decides_order() {
    let env = env_with_baseline(3, 0);
    // 3.0.1 is strictly above the 3.0.0 baseline, so a gate is owed.
    let line = version_condition_string(&env, Some(Version::new(3, 0, 1)), false, 0);
    assert_eq!(
        line,
        Some("#[cfg(any(feature = \"v3_0\", feature = \"dox\"))]".to_string())
    );
}

#[test]
fn version_condition_writes_single_line() {
    let env = env_with_baseline(2, 0);
    let mut w = Sink::new();
    version_condition(&mut w, &env, Some(Version::new(3, 0, 0)), false, 1);
    version_condition(&mut w, &env, Some(Version::new(1, 0, 0)), false, 1);
    assert_eq!(
        w.into_lines(),
        vec!["\t#[cfg(any(feature = \"v3_0\", feature = \"dox\"))]".to_string()]
    );
}

#[test]
fn negative_gate_ignores_baseline() {
    // 1.0 is far below the 2.0 baseline, yet the negated gate is owed.
    let mut w = Sink::new();
    not_version_condition(&mut w, Some(Version::new(1, 0, 0)), false, 0);
    assert_eq!(
        w.into_lines(),
        vec!["#[cfg(any(not(feature = \"v1_0\"), feature = \"dox\"))]".to_string()]
    );
}

#[test]
fn negative_gate_without_version_absent() {
    let mut w = Sink::new();
    not_version_condition(&mut w, None, false, 0);
    assert_eq!(w.into_lines(), Vec::<String>::new());
}

#[test]
fn negative_gate_commented() {
    let mut w = Sink::new();
    not_version_condition(&mut w, Some(Version::new(3, 4, 0)), true, 1);
    assert_eq!(
        w.into_lines(),
        vec!["\t//#[cfg(any(not(feature = \"v3_4\"), feature = \"dox\"))]".to_string()]
    );
}

#[test]
fn cfg_gate_with_condition() {
    let line = cfg_condition_string(&Some("windows".to_string()), false, 0);
    assert_eq!(
        line,
        Some("#[cfg(any(windows, feature = \"dox\"))]".to_string())
    );
}

#[test]
fn cfg_gate_without_condition() {
    assert_eq!(cfg_condition_string(&None, false, 0), None);
    let mut w = Sink::new();
    cfg_condition(&mut w, &None, false, 0);
    assert_eq!(w.into_lines(), Vec::<String>::new());
}

#[test]
fn cfg_gate_commented_and_indented() {
    let mut w = Sink::new();
    cfg_condition(&mut w, &Some("unix".to_string()), true, 2);
    assert_eq!(
        w.into_lines(),
        vec!["\t\t//#[cfg(any(unix, feature = \"dox\"))]".to_string()]
    );
}

#[test]
fn doc_hidden_set_writes_marker() {
    let mut w = Sink::new();
    doc_hidden(&mut w, true, "//", 1);
    assert_eq!(w.into_lines(), vec!["\t//#[doc(hidden)]".to_string()]);
}

#[test]
fn doc_hidden_unset_writes_nothing() {
    let mut w = Sink::new();
    doc_hidden(&mut w, false, "", 0);
    assert_eq!(w.into_lines(), Vec::<String>::new());
}
