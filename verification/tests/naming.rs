use sloop::crate_name_ok;
use sloop::derive_crate_name;

#[test]
fn separator_is_normalized() {
    assert_eq!(derive_crate_name("foo-bar"), "foo_bar");
}

#[test]
fn last_segment_is_taken() {
    assert_eq!(derive_crate_name("examples/foo-bar"), "foo_bar");
    assert_eq!(derive_crate_name("a/b/c-d-e"), "c_d_e");
}

#[test]
fn trailing_separators_are_ignored() {
    assert_eq!(derive_crate_name("pkgs/foo-bar/"), "foo_bar");
    assert_eq!(derive_crate_name("pkgs/foo-bar//"), "foo_bar");
}

#[test]
fn plain_name_is_kept() {
    assert_eq!(derive_crate_name("x_1"), "x_1");
}

#[test]
fn legal_names_are_accepted() {
    assert!(crate_name_ok("foo-bar"));
    assert!(crate_name_ok("a/b/under_score"));
    assert!(crate_name_ok("Caps123"));
}

#[test]
fn illegal_names_are_rejected() {
    assert!(!crate_name_ok(""));
    assert!(!crate_name_ok("/"));
    assert!(!crate_name_ok("src/my.lib"));
    assert!(!crate_name_ok("a/.."));
    assert!(!crate_name_ok("spa ce"));
}
