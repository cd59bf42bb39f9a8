use provola::actions::resolve;
use provola::{Error, Language, Source};
use std::path::PathBuf;

#[test]
fn given_language_stands() {
    let source = Source {
        path: Some(PathBuf::from("main.rs")),
        language: Some(Language::Go),
    };
    assert_eq!(source.language(), Ok(Language::Go));
    assert_eq!(
        Source::from_language(Language::Python).language(),
        Ok(Language::Python)
    );
}

#[test]
fn language_is_derived_from_the_path() {
    assert_eq!(
        Source::from_path(PathBuf::from("src/main.rs")).language(),
        Ok(Language::Rust)
    );
    assert_eq!(
        Source::from_path(PathBuf::from("run.sh")).language(),
        Ok(Language::Bash)
    );
}

#[test]
fn no_language_is_made_up() {
    assert_eq!(
        Source::from_path(PathBuf::from("Makefile")).language(),
        Err(Error::Identification)
    );
    assert_eq!(
        Source::from_path(PathBuf::from("notes.txt")).language(),
        Err(Error::Identification)
    );
    let nothing = Source {
        path: None,
        language: None,
    };
    assert_eq!(nothing.language(), Err(Error::Identification));
}

#[test]
fn resolve_prefers_the_given_language() {
    assert_eq!(
        resolve(Some(Language::C), Some(Language::Rust)),
        Ok(Language::C)
    );
    assert_eq!(resolve(Some(Language::C), None), Ok(Language::C));
    assert_eq!(resolve(None, Some(Language::Rust)), Ok(Language::Rust));
    assert_eq!(resolve(None, None), Err(Error::Identification));
}
