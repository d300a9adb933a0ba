use provola::{Language, TestRunnerType};

#[test]
fn extension_names_language() {
    assert_eq!(Language::from_extension("c"), Some(Language::C));
    assert_eq!(Language::from_extension("cpp"), Some(Language::Cpp));
    assert_eq!(Language::from_extension("cc"), Some(Language::Cpp));
    assert_eq!(Language::from_extension("cxx"), Some(Language::Cpp));
    assert_eq!(Language::from_extension("rs"), Some(Language::Rust));
    assert_eq!(Language::from_extension("py"), None);
    assert_eq!(Language::from_extension(""), None);
    assert_eq!(Language::from_extension("RS"), None);
}

#[test]
fn source_path_guesses_language() {
    assert_eq!(Language::from_source("main.rs"), Some(Language::Rust));
    assert_eq!(Language::from_source("src/dir/main.cpp"), Some(Language::Cpp));
    assert_eq!(Language::from_source("/tmp/a.b.c"), Some(Language::C));
    assert_eq!(Language::from_source("hello.c"), Some(Language::C));
}

#[test]
fn source_without_extension_guesses_nothing() {
    assert_eq!(Language::from_source("Makefile"), None);
    assert_eq!(Language::from_source(".rs"), None);
    assert_eq!(Language::from_source("rs"), None);
    assert_eq!(Language::from_source(""), None);
    assert_eq!(Language::from_source("dir.rs/"), Some(Language::Rust));
    assert_eq!(Language::from_source("archive.rs.txt"), None);
}

#[test]
fn runner_types_are_distinct() {
    assert_ne!(TestRunnerType::GoogleTest, TestRunnerType::Catch2);
}

#[test]
fn directories_do_not_change_guess() {
    assert_eq!(Language::from_source("src/main.rs"), Some(Language::Rust));
    assert_eq!(Language::from_source("/abs/path/to/x.cc"), Some(Language::Cpp));
    assert_eq!(Language::from_source("a.rs/Makefile"), None);
    assert_eq!(Language::from_source("dir/.rs"), None);
}
