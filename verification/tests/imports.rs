use gir::general::{start_comments, uses, write_vec};
use gir::model::{Config, Env, Imports};
use gir::sink::Sink;
use gir::version::Version;

fn env(baseline_major: u16, baseline_minor: u16, glib_is_main: bool) -> Env {
    Env {
        config: Config {
            girs_version: "1.2".to_string(),
            min_cfg_version: Version::new(baseline_major, baseline_minor, 0),
        },
        glib_is_main,
    }
}

#[test]
fn gated_and_ungated_imports() {
    // baseline 2.0; [("alpha", none), ("beta", 3.0)]: an ungated alpha
    // import, then a beta import carrying its gate.
    let e = env(2, 0, false);
    let mut imports = Imports::new();
    imports.add("alpha".to_string(), None);
    imports.add("beta".to_string(), Some(Version::new(3, 0, 0)));
    let mut w = Sink::new();
    uses(&mut w, &e, &imports);
    assert_eq!(
        w.into_lines(),
        vec![
            "".to_string(),
            "use alpha;".to_string(),
            "#[cfg(any(feature = \"v3_0\", feature = \"dox\"))]".to_string(),
            "use beta;".to_string(),
        ]
    );
}

#[test]
fn import_order_is_insertion_order() {
    let e = env(2, 0, false);
    let mut imports = Imports::new();
    imports.add("zeta".to_string(), None);
    imports.add("alpha".to_string(), None);
    imports.add("mu".to_string(), None);
    let mut w = Sink::new();
    uses(&mut w, &e, &imports);
    let lines = w.into_lines();
    let import_lines: Vec<&String> = lines.iter().filter(|l| l.starts_with("use ")).collect();
    assert_eq!(import_lines.len(), 3);
    assert_eq!(import_lines[0], "use zeta;");
    assert_eq!(import_lines[1], "use alpha;");
    assert_eq!(import_lines[2], "use mu;");
}

#[test]
fn empty_import_set_emits_only_blank_line() {
    let e = env(2, 0, false);
    let imports = Imports::new();
    let mut w = Sink::new();
    uses(&mut w, &e, &imports);
    assert_eq!(w.into_lines(), vec!["".to_string()]);
}

#[test]
fn glib_ffi_substituted_in_main_namespace() {
    let e = env(2, 0, true);
    let mut imports = Imports::new();
    imports.add("glib_ffi".to_string(), None);
    let mut w = Sink::new();
    uses(&mut w, &e, &imports);
    assert_eq!(
        w.into_lines(),
        vec!["".to_string(), "use ffi as glib_ffi;".to_string()]
    );
}

#[test]
fn glib_ffi_not_substituted_outside_main_namespace() {
    let e = env(2, 0, false);
    let mut imports = Imports::new();
    imports.add("glib_ffi".to_string(), None);
    let mut w = Sink::new();
    uses(&mut w, &e, &imports);
    assert_eq!(
        w.into_lines(),
        vec!["".to_string(), "use glib_ffi;".to_string()]
    );
}

#[test]
fn other_names_not_substituted_in_main_namespace() {
    let e = env(2, 0, true);
    let mut imports = Imports::new();
    imports.add("gdk_ffi".to_string(), None);
    let mut w = Sink::new();
    uses(&mut w, &e, &imports);
    assert_eq!(
        w.into_lines(),
        vec!["".to_string(), "use gdk_ffi;".to_string()]
    );
}

#[test]
fn header_names_both_versions() {
    let conf = Config {
        girs_version: "1.48".to_string(),
        min_cfg_version: Version::new(2, 0, 0),
    };
    let mut w = Sink::new();
    start_comments(&mut w, &conf);
    assert_eq!(
        w.into_lines(),
        vec![
            "// This file was generated by gir (0.6.0) from gir-files (1.48)".to_string(),
            "// DO NOT EDIT".to_string(),
        ]
    );
}

#[test]
fn write_vec_writes_each_line() {
    let mut w = Sink::new();
    let v = vec!["one".to_string(), "two".to_string(), "".to_string()];
    write_vec(&mut w, &v);
    assert_eq!(w.into_lines(), v);
}
