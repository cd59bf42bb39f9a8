use crate::errors::Error;
use crate::lang::Language;
use std::path::{Path, PathBuf};
use vstd::prelude::*;

verus! {

/// `std::path::PathBuf`, carried through without a look inside.
#[verifier::external_type_specification]
#[verifier::external_body]
pub struct ExPathBuf(PathBuf);

/// The path that a `PathBuf` holds.
pub uninterp spec fn path_of(buffer: &PathBuf) -> &Path;

/// `PathBuf::as_path`: the path that the buffer holds, borrowed. The result
/// depends on the buffer alone and is the one that `path_of` names.
pub assume_specification[ PathBuf::as_path ](buffer: &PathBuf) -> (path: &Path)
    ensures
        path == path_of(buffer),
;

/// A unit under test: where it lies, the language it is written in, or both.
#[derive(Debug, PartialEq, Eq)]
pub struct Source {
    pub path: Option<PathBuf>,
    pub language: Option<Language>,
}

/// What is fed to the unit under test.
#[derive(Debug, Clone, PartialEq, Eq)]
pub struct TestDataIn(pub Vec<u8>);

/// What the unit under test gave back.
#[derive(Debug, Clone, PartialEq, Eq)]
pub struct TestDataOut(pub Vec<u8>);

/// Something that can be run on a source, with or without input, and that
/// gives its output or fails as a whole. Running tests is one such action;
/// building or executing a source is another.
pub trait Action {
    fn run(&self, source: &Source, input: Option<&TestDataIn>) -> Result<TestDataOut, Error>;
}

/// The language of a source, from the language that was given for it and the
/// one that its path identifies: a given language stands, the path is asked
/// only where none was given, and where neither names a language there is
/// none.
pub open spec fn resolved(explicit: Option<Language>, derived: Option<Language>) -> Result<
    Language,
    Error,
> {
    match explicit {
        Some(lang) => Ok(lang),
        None => match derived {
            Some(lang) => Ok(lang),
            None => Err(Error::Identification),
        },
    }
}

/// Settles the language of a source.
pub fn resolve(explicit: Option<Language>, derived: Option<Language>) -> (lang: Result<
    Language,
    Error,
>)
    ensures
        lang == resolved(explicit, derived),
{
    match explicit {
        Some(lang) => Ok(lang),
        None => match derived {
            Some(lang) => Ok(lang),
            None => Err(Error::Identification),
        },
    }
}

impl Source {
    /// The source at `path`, its language left to be derived.
    pub fn from_path(path: PathBuf) -> (source: Source)
        ensures
            source.path == Some(path),
            source.language is None,
    {
        Source { path: Some(path), language: None }
    }

    /// A source of which only the language is known.
    pub fn from_language(language: Language) -> (source: Source)
        ensures
            source.path is None,
            source.language == Some(language),
    {
        Source { path: None, language: Some(language) }
    }

    /// The language that the source's path identifies, where it has a path.
    pub open spec fn derived(&self) -> Option<Language> {
        match self.path {
            Some(path) => Language::identified(path_of(&path)),
            None => None,
        }
    }

    /// The language of the source. A language that was given stands.
    /// Otherwise the extension of the path decides, and a source without a
    /// path, or with a path that identifies no language, has none: no
    /// language is made up.
    pub fn language(&self) -> (lang: Result<Language, Error>)
        ensures
            lang == resolved(self.language, self.derived()),
    {
        match self.language {
            Some(lang) => Ok(lang),
            None => {
                let derived = match &self.path {
                    Some(path) => Language::from_source(path.as_path()),
                    None => None,
                };
                resolve(None, derived)
            },
        }
    }
}

} // verus!
