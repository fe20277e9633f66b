use grumpy::paths::{join_path, with_source_extension};

#[test]
fn join_inserts_separator() {
    assert_eq!(join_path("/home/u", "proj"), "/home/u/proj");
}

#[test]
fn join_keeps_existing_separator() {
    assert_eq!(join_path("/home/u/", "proj"), "/home/u/proj");
}

#[test]
fn join_onto_empty_base() {
    assert_eq!(join_path("", "proj"), "proj");
}

#[test]
fn join_absolute_name_replaces_base() {
    assert_eq!(join_path("/home/u", "/tmp/x"), "/tmp/x");
}

#[test]
fn extension_added_to_bare_name() {
    assert_eq!(with_source_extension("/p/src/bin/tool"), "/p/src/bin/tool.rs");
}

#[test]
fn extension_kept_when_already_source() {
    assert_eq!(with_source_extension("/p/src/main.rs"), "/p/src/main.rs");
}

#[test]
fn extension_replaces_last_one() {
    assert_eq!(with_source_extension("/p/src/bin/a.b.txt"), "/p/src/bin/a.b.rs");
}

#[test]
fn extension_of_hidden_name_is_appended() {
    assert_eq!(with_source_extension("/p/src/bin/.hidden"), "/p/src/bin/.hidden.rs");
}

#[test]
fn extension_ignores_dots_in_directories() {
    assert_eq!(with_source_extension("/p.q/src/bin/tool"), "/p.q/src/bin/tool.rs");
}

#[test]
fn extension_after_trailing_dot() {
    assert_eq!(with_source_extension("/p/src/bin/tool."), "/p/src/bin/tool.rs");
}
