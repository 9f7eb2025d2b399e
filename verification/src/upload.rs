//! A local file as one part of a multipart form.
use vstd::prelude::*;
use std::path::PathBuf;

verus! {

#[verifier::external_type_specification]
#[verifier::external_body]
pub struct ExPathBuf(std::path::PathBuf);

/// What `Path::file_name` gives for a path: its last component, or nothing
/// where the path has none to name a file by.
pub uninterp spec fn last_component(path: PathBuf) -> Option<PathBuf>;

/// What `Path::to_str` gives for a path: the path as text, or nothing where
/// it is not valid Unicode.
pub uninterp spec fn path_text(path: PathBuf) -> Option<Seq<char>>;

/// Calls `Path::file_name` and hands the component back as a path of its own.
#[verifier::external_body]
fn file_name(path: &PathBuf) -> (name: Option<PathBuf>)
    ensures
        name == last_component(*path),
{
    path.file_name().map(PathBuf::from)
}

/// Calls `Path::to_str` and hands the text back as a `String`.
#[verifier::external_body]
fn to_text(path: &PathBuf) -> (text: Option<String>)
    ensures
        match text {
            Some(text) => path_text(*path) == Some(text@),
            None => path_text(*path) is None,
        },
{
    path.to_str().map(str::to_owned)
}

/// Why a path cannot name a part.
#[derive(Debug, Clone, Copy, PartialEq, Eq, Structural)]
pub enum PartError {
    /// The path has no last component to name the file by.
    NoFileName,
    /// The last component is not valid Unicode.
    NotText,
}

/// The kind of input/output error that a `PartError` is reported as.
#[derive(Debug, Clone, Copy, PartialEq, Eq, Structural)]
pub enum PartErrorKind {
    /// What was asked for cannot be done: the path names no file.
    InvalidInput,
    /// What was found cannot be used: the name is not text.
    InvalidData,
}

impl PartError {
    /// The kind that this error is reported as.
    pub open spec fn kind_of(self) -> PartErrorKind {
        match self {
            PartError::NoFileName => PartErrorKind::InvalidInput,
            PartError::NotText => PartErrorKind::InvalidData,
        }
    }

    /// The kind that this error is reported as.
    pub fn kind(&self) -> (kind: PartErrorKind)
        ensures
            kind == self.kind_of(),
    {
        match self {
            PartError::NoFileName => PartErrorKind::InvalidInput,
            PartError::NotText => PartErrorKind::InvalidData,
        }
    }

    /// The message of this error.
    pub open spec fn text(self) -> Seq<char> {
        match self {
            PartError::NoFileName => "filename is not full"@,
            PartError::NotText => "non unicode filename"@,
        }
    }

    /// The message of this error.
    pub fn message(&self) -> (text: &'static str)
        ensures
            text@ == self.text(),
    {
        match self {
            PartError::NoFileName => "filename is not full",
            PartError::NotText => "non unicode filename",
        }
    }
}

/// The name of a part, from what was found of the path: its last component,
/// where it has one, as text, where it is text.
pub open spec fn name_of(found: Option<Option<Seq<char>>>) -> Result<Seq<char>, PartError> {
    match found {
        None => Err(PartError::NoFileName),
        Some(None) => Err(PartError::NotText),
        Some(Some(name)) => Ok(name),
    }
}

/// What is found of `path`: its last component, where it has one, as text,
/// where it is text.
pub open spec fn found_in(path: PathBuf) -> Option<Option<Seq<char>>> {
    match last_component(path) {
        None => None,
        Some(last) => Some(path_text(last)),
    }
}

/// The `Result` with its name as text.
pub open spec fn as_model(name: Result<String, PartError>) -> Result<Seq<char>, PartError> {
    match name {
        Ok(name) => Ok(name@),
        Err(error) => Err(error),
    }
}

/// Names a part from what was found of a path. The outer `None` says that
/// the path has no last component, the inner one that the component is not
/// text.
pub fn name_from(found: Option<Option<String>>) -> (name: Result<String, PartError>)
    ensures
        as_model(name) == name_of(
            match found {
                None => None,
                Some(None) => Some(None),
                Some(Some(text)) => Some(Some(text@)),
            },
        ),
{
    match found {
        None => Err(PartError::NoFileName),
        Some(None) => Err(PartError::NotText),
        Some(Some(text)) => Ok(text),
    }
}

/// The name under which the file at `path` goes into a form: the last
/// component of the path. Fails where the path has none, or where it is not
/// text. The file itself is not looked at.
pub fn file_name_of(path: &PathBuf) -> (name: Result<String, PartError>)
    ensures
        as_model(name) == name_of(found_in(*path)),
{
    let found = match file_name(path) {
        None => None,
        Some(last) => Some(to_text(&last)),
    };
    name_from(found)
}

/// One file as a part of a form: the name it goes under, and the number of
/// bytes that its content is announced with.
#[derive(Debug, Clone, PartialEq, Eq)]
pub struct FilePart {
    pub file_name: String,
    pub length: u64,
}

impl View for FilePart {
    type V = (Seq<char>, u64);

    open spec fn view(&self) -> (Seq<char>, u64) {
        (self.file_name@, self.length)
    }
}

impl FilePart {
    /// The part for a file of `length` bytes that goes under `file_name`.
    pub fn new(file_name: String, length: u64) -> (part: FilePart)
        ensures
            part@ == (file_name@, length),
    {
        FilePart { file_name, length }
    }
}

} // verus!
