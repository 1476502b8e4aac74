use sloop::BuildAction;
use sloop::DependencyBuilder;

fn expect_invoke(action: BuildAction) -> Vec<String> {
    match action {
        BuildAction::Invoke(cmd) => cmd,
        BuildAction::UpToDate(_) => panic!("expected an invocation"),
    }
}

fn expect_up_to_date(action: BuildAction) -> sloop::Dependency {
    match action {
        BuildAction::UpToDate(d) => d,
        BuildAction::Invoke(_) => panic!("expected a cache hit"),
    }
}

#[test]
fn artifact_path_embeds_normalized_name() {
    let plan = DependencyBuilder::new("foo-bar");
    assert_eq!(plan.symbolic_name(), "foo_bar");
    assert_eq!(plan.artifact_path(), ".sloop/libfoo_bar.rlib");
}

#[test]
fn existing_artifact_short_circuits_twice() {
    let plan = DependencyBuilder::new("foo-bar");
    let first = expect_up_to_date(plan.build_action(true));
    let second = expect_up_to_date(plan.build_action(true));
    assert_eq!(first.crate_name(), "foo_bar");
    assert_eq!(first.rlib_path(), ".sloop/libfoo_bar.rlib");
    assert_eq!(first.crate_name(), second.crate_name());
    assert_eq!(first.rlib_path(), second.rlib_path());
}

#[test]
fn rebuild_after_success_is_cache_hit() {
    let plan = DependencyBuilder::new("foo-bar");
    // The artifact does not exist yet: the toolchain must run.
    expect_invoke(plan.build_action(false));
    // The toolchain succeeded and wrote the artifact.
    let built = plan.conclude(true).expect("a successful build returns the reference");
    // The artifact now exists: an equal plan's rebuild is a cache hit.
    let again = expect_up_to_date(plan.build_action(true));
    assert_eq!(built.crate_name(), again.crate_name());
    assert_eq!(built.rlib_path(), again.rlib_path());
}

#[test]
fn failed_invocation_yields_no_artifact() {
    let plan = DependencyBuilder::new("foo-bar");
    assert!(plan.conclude(false).is_err());
}

#[test]
fn failure_relays_captured_streams_verbatim() {
    let captured_out = vec![1u8, 2, 3, 255];
    let captured_err = b"error: expected one of".to_vec();
    let relayed = sloop::relayed_streams(captured_out.clone(), captured_err.clone(), false)
        .expect("a failed exit relays the streams");
    assert_eq!(relayed.0, captured_out);
    assert_eq!(relayed.1, captured_err);
    assert!(sloop::relayed_streams(captured_out, captured_err, true).is_none());
}

#[test]
fn full_library_invocation() {
    let dep_plan = DependencyBuilder::new("deps/base-util");
    let base = dep_plan.artifact();
    let plan = DependencyBuilder::new("foo-bar")
        .with_dependency(&base)
        .with_feature("fast")
        .edition("2018")
        .optimization(2);
    let cmd = expect_invoke(plan.build_action(false));
    let expected: Vec<String> = vec![
        "rustc".to_string(),
        "--color".to_string(),
        "always".to_string(),
        "--crate-type".to_string(),
        "lib".to_string(),
        "--crate-name".to_string(),
        "foo_bar".to_string(),
        "--edition".to_string(),
        "2018".to_string(),
        "--out-dir".to_string(),
        ".sloop".to_string(),
        "foo-bar/src/lib.rs".to_string(),
        "--extern".to_string(),
        "base_util=.sloop/libbase_util.rlib".to_string(),
        "--cfg".to_string(),
        "feature=\"fast\"".to_string(),
        "-L".to_string(),
        ".sloop".to_string(),
        "-C".to_string(),
        "opt-level=2".to_string(),
    ];
    assert_eq!(cmd, expected);
}

#[test]
fn library_dialect_baseline_is_2021() {
    // The library plan defaults to the "2021" dialect while the executable
    // plan defaults to "2018": an inherited inconsistency, kept deliberately.
    let plan = DependencyBuilder::new("foo-bar");
    let cmd = expect_invoke(plan.build_action(false));
    let at = cmd.iter().position(|a| a == "--edition").expect("dialect flag present");
    assert_eq!(cmd[at + 1], "2021");
}

#[test]
fn plugin_and_plain_diverge() {
    let plain = DependencyBuilder::new("foo-bar");
    let plugin = DependencyBuilder::new("foo-bar").proc_macro(true);
    assert_eq!(plain.artifact_path(), ".sloop/libfoo_bar.rlib");
    assert_eq!(plugin.artifact_path(), ".sloop/libfoo_bar.so");
    assert_ne!(plain.artifact_path(), plugin.artifact_path());

    let plain_cmd = expect_invoke(plain.build_action(false));
    let plugin_cmd = expect_invoke(plugin.build_action(false));
    assert_eq!(plugin_cmd[3..7], ["--crate-type", "proc-macro", "--extern", "proc_macro"]);
    assert_eq!(plain_cmd[3..5], ["--crate-type", "lib"]);
    assert!(!plain_cmd.iter().any(|a| a == "proc-macro"));
    assert!(!plain_cmd.iter().any(|a| a == "proc_macro"));
    assert_eq!(plain_cmd.last().map(String::as_str), Some("opt-level=0"));
}

#[test]
fn notices_embed_the_colored_name() {
    let plan = DependencyBuilder::new("foo-bar");
    assert_eq!(
        plan.up_to_date_notice(),
        "\u{1b}[38;2;155;255;155mfoo_bar\u{1b}[0m is up to date"
    );
    assert_eq!(plan.building_notice(), "Building \u{1b}[38;2;155;255;155mfoo_bar\u{1b}[0m");
}

#[test]
fn name_and_cache_overrides() {
    let plan = DependencyBuilder::new("foo-bar")
        .crate_name("renamed")
        .cache_dir("target/cache")
        .toolchain("rustc-nightly");
    assert_eq!(plan.symbolic_name(), "renamed");
    assert_eq!(plan.artifact_path(), "target/cache/librenamed.rlib");
    let cmd = expect_invoke(plan.build_action(false));
    assert_eq!(cmd[0], "rustc-nightly");
    let at = cmd.iter().position(|a| a == "--out-dir").expect("output flag present");
    assert_eq!(cmd[at + 1], "target/cache");
}
