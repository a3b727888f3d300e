use cinstall::installer::fresh_temp_path;
use cinstall::text::{basename, header_destination, is_sentinel, join_path};

#[test]
fn sentinel_is_exactly_stop() {
    assert!(is_sentinel("stop"));
    assert!(!is_sentinel("Stop"));
    assert!(!is_sentinel("stop "));
    assert!(!is_sentinel(""));
}

#[test]
fn relative_names_join_under_the_root() {
    assert_eq!(join_path("/proj", "foo.h"), "/proj/foo.h");
    assert_eq!(join_path("/proj", "sub/foo.h"), "/proj/sub/foo.h");
    assert_eq!(join_path("/proj", ""), "/proj/");
}

#[test]
fn absolute_names_are_kept_as_they_are() {
    assert_eq!(join_path("/proj", "/usr/foo.h"), "/usr/foo.h");
}

#[test]
fn basename_takes_everything_after_the_last_separator() {
    assert_eq!(basename("a/b/c.h"), "c.h");
    assert_eq!(basename("c.h"), "c.h");
    assert_eq!(basename("a/b/"), "");
    assert_eq!(basename(""), "");
}

#[test]
fn header_destination_is_the_include_root_plus_base_name() {
    assert_eq!(header_destination("/proj/sub/foo.h"), "/usr/local/include/foo.h");
    assert_eq!(header_destination("bar.h"), "/usr/local/include/bar.h");
}

#[test]
fn fresh_temp_paths_carry_a_ten_character_alphanumeric_tag() {
    let p = fresh_temp_path();
    assert!(p.starts_with("/tmp/cinstall-"));
    let tag = &p["/tmp/cinstall-".len()..];
    assert_eq!(tag.len(), 10);
    assert!(tag.chars().all(|c| c.is_ascii_alphanumeric()));
    // Two draws agreeing on all ten characters would be vanishingly likely;
    // what is checked here is only shape, which every draw must have.
    let q = fresh_temp_path();
    assert!(q.starts_with("/tmp/cinstall-"));
}
