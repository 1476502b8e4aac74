use sloop::Builder;
use sloop::DependencyBuilder;

#[test]
fn default_invocation() {
    let cmd = Builder::new().command();
    let expected: Vec<String> = vec![
        "rustc".to_string(),
        "--color".to_string(),
        "always".to_string(),
        "--edition".to_string(),
        "2018".to_string(),
        "-L".to_string(),
        ".sloop".to_string(),
        "src/main.rs".to_string(),
    ];
    assert_eq!(cmd, expected);
}

#[test]
fn binary_kind_and_name_add_their_flags() {
    let cmd = Builder::new().binary().name("app").entrypoint("tools/main.rs").command();
    let expected: Vec<String> = vec![
        "rustc".to_string(),
        "--color".to_string(),
        "always".to_string(),
        "--crate-type".to_string(),
        "bin".to_string(),
        "--crate-name".to_string(),
        "app".to_string(),
        "--edition".to_string(),
        "2018".to_string(),
        "-L".to_string(),
        ".sloop".to_string(),
        "tools/main.rs".to_string(),
    ];
    assert_eq!(cmd, expected);
}

#[test]
fn one_linkage_pair_per_dependency_in_order() {
    let a = DependencyBuilder::new("libs/alpha").artifact();
    let b = DependencyBuilder::new("libs/beta-core").proc_macro(true).artifact();
    let c = DependencyBuilder::new("libs/gamma").artifact();
    let cmd = Builder::new().with_dependency(&a).with_dependency(&b).with_dependency(&c).command();
    let pairs: Vec<(String, String)> = cmd
        .iter()
        .enumerate()
        .filter(|(_, arg)| *arg == "--extern")
        .map(|(i, _)| ("--extern".to_string(), cmd[i + 1].clone()))
        .collect();
    assert_eq!(pairs.len(), 3);
    assert_eq!(pairs[0].1, "alpha=.sloop/libalpha.rlib");
    assert_eq!(pairs[1].1, "beta_core=.sloop/libbeta_core.so");
    assert_eq!(pairs[2].1, "gamma=.sloop/libgamma.rlib");
}

#[test]
fn executable_dialect_baseline_is_2018() {
    // Deliberately older than the library plan's "2021" baseline; the
    // discrepancy is inherited and kept rather than silently unified.
    let cmd = Builder::new().command();
    let at = cmd.iter().position(|a| a == "--edition").expect("dialect flag present");
    assert_eq!(cmd[at + 1], "2018");
}

#[test]
fn success_and_failure_signals() {
    let plan = Builder::new().binary();
    assert_eq!(plan.conclude(true), Ok(()));
    assert_eq!(plan.conclude(false), Err(()));
}

#[test]
fn library_kind_is_flagged_unsupported() {
    assert!(!Builder::new().is_library());
    assert!(!Builder::new().binary().is_library());
    assert!(Builder::new().library().is_library());
}

#[test]
fn display_values_for_notices() {
    let unnamed = Builder::new();
    assert_eq!(unnamed.display_name(), "");
    assert_eq!(unnamed.entry_path(), "src/main.rs");
    let named = Builder::new().name("app");
    assert_eq!(named.display_name(), "app");
}

#[test]
fn building_notice_names_the_entrypoint() {
    let plan = Builder::new().name("app");
    assert_eq!(
        plan.building_notice(),
        "Building \u{1b}[38;2;155;155;255mapp\u{1b}[0m src/main.rs"
    );
    let unnamed = Builder::new();
    assert_eq!(
        unnamed.building_notice(),
        "Building \u{1b}[38;2;155;155;255m\u{1b}[0m src/main.rs"
    );
}
