//! Dependency entries, version texts, registry-key normalisation and
//! adapter display names.
use conc_map_bench::args::HasherKind;
use conc_map_bench::deps::{display_name, display_name_with_label, normalize_dep_name,
    trim_eq_prefix, DependencyValue};
use conc_map_bench::epoch::quiesce_reclamation;

#[test]
fn plain_entry_displays_its_version_string() {
    let v = DependencyValue::Plain(String::from("5.5.3"));
    assert_eq!(v.version(), Some(String::from("5.5.3")));
}

#[test]
fn object_entry_displays_its_version_field() {
    let v = DependencyValue::Object {
        package: None,
        version: String::from("=0.5.1"),
        features: Some(vec![String::from("derive")]),
        optional: Some(false),
    };
    assert_eq!(v.version(), Some(String::from("=0.5.1")));
    let renamed = DependencyValue::Object {
        package: Some(String::from("other")),
        version: String::from("2"),
        features: None,
        optional: None,
    };
    assert_eq!(renamed.version(), Some(String::from("2")));
}

#[test]
fn git_entry_displays_url_branch_and_rev() {
    let v = DependencyValue::Git {
        package: None,
        git: String::from("https://example.invalid/map.git"),
        branch: Some(String::from("main")),
        rev: Some(String::from("abc123")),
        version: None,
        features: None,
        optional: None,
    };
    assert_eq!(
        v.version(),
        Some(String::from("https://example.invalid/map.git?branch=main#abc123"))
    );
    let bare = DependencyValue::Git {
        package: None,
        git: String::from("https://example.invalid/map.git"),
        branch: None,
        rev: None,
        version: None,
        features: None,
        optional: None,
    };
    assert_eq!(bare.version(), Some(String::from("https://example.invalid/map.git")));
}

#[test]
fn registry_keys_use_underscores() {
    assert_eq!(normalize_dep_name("crossbeam-skiplist"), "crossbeam_skiplist");
    assert_eq!(normalize_dep_name("dashmap"), "dashmap");
    assert_eq!(normalize_dep_name("a-b-c"), "a_b_c");
    assert_eq!(normalize_dep_name(""), "");
}

#[test]
fn display_names_trim_version_requirement_markers() {
    assert_eq!(trim_eq_prefix("=5.5.3"), "5.5.3");
    assert_eq!(trim_eq_prefix("5.5.3"), "5.5.3");
    assert_eq!(trim_eq_prefix("==1"), "1");
    assert_eq!(trim_eq_prefix(""), "");
    assert_eq!(display_name("dashmap", "=5.5.3"), "dashmap@5.5.3");
    assert_eq!(
        display_name_with_label("scc", "=2.0.0", "HashMap"),
        "scc@2.0.0 - HashMap"
    );
}

#[test]
fn hasher_names_parse_exactly() {
    assert_eq!(HasherKind::from_str("std"), Ok(HasherKind::Std));
    assert_eq!(HasherKind::from_str("ahash"), Ok(HasherKind::AHash));
    assert!(HasherKind::from_str("Std").is_err());
    assert!(HasherKind::from_str("fnv").is_err());
}

#[test]
fn quiescence_cycle_runs_to_completion() {
    // the bounded number of reclamation-epoch advances the orchestrator
    // forces between runs
    quiesce_reclamation(32);
}
