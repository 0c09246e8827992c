//! Tests of the constant environment, the color profile, and the config
//! path helpers.

use clic::cli::Cli;
use clic::colors::Colors;
use clic::context::Context;
use clic::store::{get_config_path, join_path};
use std::collections::HashMap;

#[test]
fn context_build_none_is_empty() {
    let ctx = Context::build(None);
    assert_eq!(ctx.get_constants().len(), 0);
}

#[test]
fn colors_build_none_gives_defaults() {
    let colors = Colors::build(None);
    assert_eq!(colors.primary, "cyan");
    assert_eq!(colors.secondary, "yellow");
    assert_eq!(colors.failure, "red");
}

#[test]
fn colors_build_some_keeps_loaded_profile() {
    let loaded = Colors {
        primary: "green".to_string(),
        secondary: "blue".to_string(),
        failure: "magenta".to_string(),
    };
    let colors = Colors::build(Some(loaded));
    assert_eq!(colors.primary, "green");
    assert_eq!(colors.secondary, "blue");
    assert_eq!(colors.failure, "magenta");
}

#[test]
fn cli_new_has_defaults() {
    let cli = Cli::new();
    assert_eq!(cli.context.get_constants().len(), 0);
    assert_eq!(cli.colors.primary, "cyan");
}

#[test]
fn set_constant_inserts_pair() {
    let mut ctx = Context::build(None);
    ctx.set_constant("x".to_string(), 2.0f64.to_bits());
    assert_eq!(ctx.get_constants().len(), 1);
    assert_eq!(ctx.get_constants()[0].0, "x");
    assert_eq!(ctx.get_constants()[0].1, 2.0f64.to_bits());
}

#[test]
fn set_constant_overwrites_existing_name() {
    let mut ctx = Context::build(None);
    ctx.set_constant("x".to_string(), 2.0f64.to_bits());
    ctx.set_constant("x".to_string(), 3.5f64.to_bits());
    assert_eq!(ctx.get_constants().len(), 1);
    assert_eq!(ctx.get_constants()[0].1, 3.5f64.to_bits());
}

#[test]
fn build_keeps_unique_entries_exactly() {
    let entries = vec![
        ("x".to_string(), 2.0f64.to_bits()),
        ("tau".to_string(), 6.28f64.to_bits()),
    ];
    let ctx = Context::build(Some(entries.clone()));
    assert_eq!(ctx.get_constants(), &entries);
}

#[test]
fn build_dedups_with_last_entry_winning() {
    let entries = vec![
        ("x".to_string(), 1.0f64.to_bits()),
        ("x".to_string(), 2.0f64.to_bits()),
    ];
    let ctx = Context::build(Some(entries));
    assert_eq!(ctx.get_constants().len(), 1);
    assert_eq!(ctx.get_constants()[0].1, 2.0f64.to_bits());
}

#[test]
fn json_round_trip_reproduces_mapping() {
    let mut ctx = Context::build(None);
    ctx.set_constant("x".to_string(), 2.0f64.to_bits());
    ctx.set_constant("tau".to_string(), 6.283185307179586f64.to_bits());

    // persist as the binary does: a JSON object of name -> float
    let variables: HashMap<String, f64> = ctx
        .get_constants()
        .iter()
        .map(|(name, bits)| (name.clone(), f64::from_bits(*bits)))
        .collect();
    let text = serde_json::to_string(&variables).unwrap();

    // rebuild from the same storage
    let reloaded: HashMap<String, f64> = serde_json::from_str(&text).unwrap();
    let entries: Vec<(String, u64)> = reloaded
        .into_iter()
        .map(|(name, value)| (name, value.to_bits()))
        .collect();
    let rebuilt = Context::build(Some(entries));

    assert_eq!(rebuilt.get_constants().len(), ctx.get_constants().len());
    for (name, bits) in ctx.get_constants() {
        assert!(rebuilt
            .get_constants()
            .iter()
            .any(|(n, b)| n == name && b == bits));
    }
}

#[test]
fn colors_set_unknown_slot_changes_nothing() {
    let mut colors = Colors::build(None);
    let updated = colors.set("bogus", "blue".to_string());
    assert!(!updated);
    assert_eq!(colors.primary, "cyan");
    assert_eq!(colors.secondary, "yellow");
    assert_eq!(colors.failure, "red");
}

#[test]
fn colors_set_each_valid_slot() {
    let mut colors = Colors::build(None);
    assert!(colors.set("primary", "green".to_string()));
    assert!(colors.set("secondary", "magenta".to_string()));
    assert!(colors.set("failure", "white".to_string()));
    assert_eq!(colors.primary, "green");
    assert_eq!(colors.secondary, "magenta");
    assert_eq!(colors.failure, "white");
}

#[test]
fn join_path_appends_filename() {
    assert_eq!(join_path("base", "file.json"), "base/file.json");
    assert_eq!(join_path("/a/b", "history.txt"), "/a/b/history.txt");
}

#[test]
fn config_path_ends_with_filename() {
    // environment-dependent: absent only when no home directory exists
    if let Some(path) = get_config_path("history.txt") {
        assert!(path.ends_with("/history.txt"));
    }
}
