//! The rules that a path given on the command line must meet.

use crate::utils::text::{debug_str, quoted, same_text};
use vstd::prelude::*;
use vstd::string::*;

verus! {

/// Why a path is not taken as an input file.
#[derive(Debug, Clone, PartialEq, Eq)]
pub enum InputError {
    /// Nothing is at the path.
    Missing,
    /// A directory is at the path.
    IsDirectory,
    /// The file does not carry the extension that is asked for, which is
    /// given here.
    WrongExtension(String),
}

/// `InputError` with its text as a sequence of characters.
pub ghost enum InputErrorView {
    Missing,
    IsDirectory,
    WrongExtension(Seq<char>),
}

impl View for InputError {
    type V = InputErrorView;

    open spec fn view(&self) -> InputErrorView {
        match self {
            InputError::Missing => InputErrorView::Missing,
            InputError::IsDirectory => InputErrorView::IsDirectory,
            InputError::WrongExtension(expected) => InputErrorView::WrongExtension(expected@),
        }
    }
}

/// What `InputError::message` says of a failure.
pub open spec fn input_message(error: InputErrorView) -> Seq<char> {
    match error {
        InputErrorView::Missing => "path doesn't exist"@,
        InputErrorView::IsDirectory => "path is a directory"@,
        InputErrorView::WrongExtension(expected) => "file extension should be "@ + quoted(expected),
    }
}

impl InputError {
    /// A sentence for the user. The extension is shown as `{:?}` prints it.
    pub fn message(&self) -> (r: String)
        ensures
            r@ == input_message(self@),
    {
        match self {
            InputError::Missing => String::from_str("path doesn't exist"),
            InputError::IsDirectory => String::from_str("path is a directory"),
            InputError::WrongExtension(expected) => {
                let shown = debug_str(expected.as_str());
                String::from_str("file extension should be ").concat(shown.as_str())
            },
        }
    }
}

/// Accepts the paths of files, and of files with one extension where one is
/// asked for.
#[derive(Debug, Clone, PartialEq, Eq)]
pub struct FilePathParser {
    extension: Option<String>,
}

/// What the parser says of a path: `exists` and `is_dir` tell what is at the
/// path, and `found` is the extension of its last component.
pub open spec fn spec_validate(
    expected: Option<Seq<char>>,
    exists: bool,
    is_dir: bool,
    found: Option<Seq<char>>,
) -> Result<(), InputErrorView> {
    if !exists {
        Err(InputErrorView::Missing)
    } else if is_dir {
        Err(InputErrorView::IsDirectory)
    } else {
        match expected {
            Some(extension) if found != Some(extension) => Err(
                InputErrorView::WrongExtension(extension),
            ),
            _ => Ok(()),
        }
    }
}

impl FilePathParser {
    /// The extension that is asked for, if any.
    pub closed spec fn expected(&self) -> Option<Seq<char>> {
        match self.extension {
            Some(extension) => Some(extension@),
            None => None,
        }
    }

    /// A parser that accepts every file.
    pub fn new() -> (r: FilePathParser)
        ensures
            r.expected() is None,
    {
        FilePathParser { extension: None }
    }

    /// Asks for the extension `ext`, in place of the one asked for before.
    pub fn extension(self, ext: &str) -> (r: FilePathParser)
        ensures
            r.expected() == Some(ext@),
    {
        FilePathParser { extension: Some(ext.to_owned()) }
    }

    /// Judges a path by what is at it and by the extension `found` of its
    /// last component.
    pub fn validate(&self, exists: bool, is_dir: bool, found: Option<&str>) -> (r: Result<
        (),
        InputError,
    >)
        ensures
            match r {
                Ok(_) => spec_validate(
                    self.expected(),
                    exists,
                    is_dir,
                    match found {
                        Some(text) => Some(text@),
                        None => None,
                    },
                ) is Ok,
                Err(error) => spec_validate(
                    self.expected(),
                    exists,
                    is_dir,
                    match found {
                        Some(text) => Some(text@),
                        None => None,
                    },
                ) == Err::<(), InputErrorView>(error@),
            },
    {
        if !exists {
            return Err(InputError::Missing);
        }
        if is_dir {
            return Err(InputError::IsDirectory);
        }
        match &self.extension {
            None => Ok(()),
            Some(extension) => {
                let same = match found {
                    Some(text) => same_text(text, extension.as_str()),
                    None => false,
                };
                if same {
                    Ok(())
                } else {
                    Err(InputError::WrongExtension(extension.as_str().to_owned()))
                }
            },
        }
    }
}

impl Default for FilePathParser {
    fn default() -> (r: FilePathParser)
        ensures
            r.expected() is None,
    {
        FilePathParser::new()
    }
}

} // verus!
