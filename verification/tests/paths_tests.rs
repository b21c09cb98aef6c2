use rtest::paths::{base_name_of, join_under, str_ci_equal, strip_extension, to_lower};
use rtest::template::substitute;

#[test]
fn base_name_takes_suffix_after_last_slash() {
    assert_eq!(base_name_of("/abs/dir/c.pas"), "c.pas");
    assert_eq!(base_name_of("c.pas"), "c.pas");
    assert_eq!(base_name_of("a/b/"), "");
    assert_eq!(base_name_of(""), "");
}

#[test]
fn strip_extension_drops_from_last_dot() {
    assert_eq!(strip_extension("solution.pas"), "solution");
    assert_eq!(strip_extension("a.b.c"), "a.b");
    assert_eq!(strip_extension("noext"), "noext");
    assert_eq!(strip_extension(".profile"), ".profile");
    assert_eq!(strip_extension("a."), "a");
}

#[test]
fn join_under_inserts_one_separator() {
    assert_eq!(join_under("/w", "b"), "/w/b");
    assert_eq!(join_under("/w/", "b"), "/w/b");
    assert_eq!(join_under("", "b"), "b");
}

#[test]
fn case_insensitive_name_comparison() {
    assert!(str_ci_equal("2.IN", "2.in"));
    assert!(str_ci_equal("A.OuT", "a.out"));
    assert!(!str_ci_equal("1.in", "2.in"));
    assert!(!str_ci_equal("1.in", "1.inn"));
    assert_eq!(to_lower('Q'), 'q');
    assert_eq!(to_lower('q'), 'q');
    assert_eq!(to_lower('7'), '7');
}

#[test]
fn substitute_replaces_every_placeholder() {
    assert_eq!(substitute("$test.out", "12"), "12.out");
    assert_eq!(substitute("a$testb$test", "x"), "axbx");
    assert_eq!(substitute("no-placeholder", "x"), "no-placeholder");
    assert_eq!(substitute("$tes", "x"), "$tes");
    assert_eq!(substitute("$test", ""), "");
}
