use boiler::names::extract_project_name;
use boiler::text::{owned_all, same_text};

#[test]
fn name_without_separator_is_its_own_segment() {
    assert_eq!(extract_project_name("my-app"), "my-app");
}

#[test]
fn last_segment_of_a_path() {
    assert_eq!(extract_project_name("org/team/my-app"), "my-app");
    assert_eq!(extract_project_name("a/b"), "b");
}

#[test]
fn trailing_separator_gives_empty_segment() {
    assert_eq!(extract_project_name("my-app/"), "");
    assert_eq!(extract_project_name("/"), "");
}

#[test]
fn empty_name_gives_empty_segment() {
    assert_eq!(extract_project_name(""), "");
}

#[test]
fn leading_separator_is_skipped() {
    assert_eq!(extract_project_name("/x"), "x");
}

#[test]
fn segment_of_a_name_beyond_ascii() {
    assert_eq!(extract_project_name("büro/größe"), "größe");
    assert_eq!(extract_project_name("日本/語"), "語");
}

#[test]
fn segment_holds_no_separator_and_ends_the_name() {
    for name in ["a/b/c", "abc", "/", "a//b", "x/y/", ""] {
        let segment = extract_project_name(name);
        assert!(!segment.contains('/'));
        assert!(name.ends_with(segment));
        let before = &name[..name.len() - segment.len()];
        assert!(before.is_empty() || before.ends_with('/'));
    }
}

#[test]
fn same_text_compares_character_by_character() {
    assert!(same_text("express", "express"));
    assert!(same_text("", ""));
    assert!(!same_text("express", "expresS"));
    assert!(!same_text("react", "react-ts"));
    assert!(!same_text(".", "./"));
    assert!(same_text("größe", "größe"));
    assert!(!same_text("größe", "grösse"));
}

#[test]
fn owned_all_keeps_every_text_in_order() {
    assert_eq!(owned_all(&["i", "-g", "nodemon"]), vec!["i", "-g", "nodemon"]);
    assert_eq!(owned_all(&[]), Vec::<String>::new());
}
