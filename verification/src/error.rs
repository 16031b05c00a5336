//! The errors of the library.

use crate::format::FileFormat;
use vstd::prelude::*;
use vstd::string::*;

verus! {

/// All errors the library's public interface can return.
#[derive(Debug, PartialEq, Eq)]
pub enum UsageTrackerError {
    /// The loading (most likely parsing) of a RON file failed. Contains the
    /// root cause.
    FileLoadErrorRon(String),
    /// Tried to add a new object to keep track of, but object with same name
    /// is already tracked.
    ObjectAlreadyTracked { name: String },
    /// Tried to predict the need of a never used object.
    ObjectNeverUsed { name: String },
    /// Tried to access an object that is not kept track of.
    ObjectNotTracked { name: String },
    /// A data file was looked for and something else than a file was found
    /// in its place.
    PathIsNotFile { path: String },
    /// A data file could not be decoded. Contains the root cause.
    ParseError { path: String, format: FileFormat, cause: String },
    /// A step on the file system failed. `context` says which, `cause` is
    /// what the file system reported.
    IoError { context: String, cause: String },
    /// The extension of a data file names a format that cannot be read or
    /// written.
    UnsupportedFormat { extension: String },
    /// A data file has no extension to tell its format by.
    FormatNotSpecified,
}

impl UsageTrackerError {
    /// Whether this error says that the object `name` is already tracked.
    pub open spec fn is_already_tracked(self, name: Seq<char>) -> bool {
        self matches UsageTrackerError::ObjectAlreadyTracked { name: n } && n@ == name
    }

    /// Whether this error says that the object `name` has never been used.
    pub open spec fn is_never_used(self, name: Seq<char>) -> bool {
        self matches UsageTrackerError::ObjectNeverUsed { name: n } && n@ == name
    }

    /// Whether this error says that the object `name` is not tracked.
    pub open spec fn is_not_tracked(self, name: Seq<char>) -> bool {
        self matches UsageTrackerError::ObjectNotTracked { name: n } && n@ == name
    }

    /// The text that describes this error.
    pub open spec fn message_text(self) -> Seq<char> {
        match self {
            UsageTrackerError::FileLoadErrorRon(cause) => "RON file could not be loaded"@,
            UsageTrackerError::ObjectAlreadyTracked { name } => "object \""@ + name@
                + "\" is already tracked"@,
            UsageTrackerError::ObjectNeverUsed { name } => "object \""@ + name@
                + "\" has never been used"@,
            UsageTrackerError::ObjectNotTracked { name } => "object \""@ + name@
                + "\" doesn't exist"@,
            UsageTrackerError::PathIsNotFile { path } => "found directory instead of file: "@
                + path@,
            UsageTrackerError::ParseError { path, format, cause } => match format {
                FileFormat::Json => "could not parse JSON file: "@ + path@,
                FileFormat::Ron => "could not load data from RON file: "@ + path@,
            },
            UsageTrackerError::IoError { context, cause } => context@,
            UsageTrackerError::UnsupportedFormat { extension } => "\""@ + extension@
                + "\" is not a supported file format"@,
            UsageTrackerError::FormatNotSpecified => "file format not specified"@,
        }
    }

    /// The text of the underlying failure, where there is one.
    pub open spec fn cause_text(self) -> Option<Seq<char>> {
        match self {
            UsageTrackerError::FileLoadErrorRon(cause) => Some(cause@),
            UsageTrackerError::ParseError { path, format, cause } => Some(cause@),
            UsageTrackerError::IoError { context, cause } => Some(cause@),
            _ => None,
        }
    }

    /// The text that describes this error.
    pub fn message(&self) -> (r: String)
        ensures
            r@ == self.message_text(),
    {
        match self {
            UsageTrackerError::FileLoadErrorRon(cause) => String::from_str(
                "RON file could not be loaded",
            ),
            UsageTrackerError::ObjectAlreadyTracked { name } => quoted(
                "object \"",
                name,
                "\" is already tracked",
            ),
            UsageTrackerError::ObjectNeverUsed { name } => quoted(
                "object \"",
                name,
                "\" has never been used",
            ),
            UsageTrackerError::ObjectNotTracked { name } => quoted(
                "object \"",
                name,
                "\" doesn't exist",
            ),
            UsageTrackerError::PathIsNotFile { path } => prefixed(
                "found directory instead of file: ",
                path,
            ),
            UsageTrackerError::ParseError { path, format, cause } => match format {
                FileFormat::Json => prefixed("could not parse JSON file: ", path),
                FileFormat::Ron => prefixed("could not load data from RON file: ", path),
            },
            UsageTrackerError::IoError { context, cause } => context.clone(),
            UsageTrackerError::UnsupportedFormat { extension } => quoted(
                "\"",
                extension,
                "\" is not a supported file format",
            ),
            UsageTrackerError::FormatNotSpecified => String::from_str("file format not specified"),
        }
    }

    /// The text of the underlying failure, where there is one.
    pub fn cause(&self) -> (r: Option<String>)
        ensures
            r is Some <==> self.cause_text() is Some,
            r matches Some(text) ==> Some(text@) == self.cause_text(),
    {
        match self {
            UsageTrackerError::FileLoadErrorRon(cause) => Some(cause.clone()),
            UsageTrackerError::ParseError { path, format, cause } => Some(cause.clone()),
            UsageTrackerError::IoError { context, cause } => Some(cause.clone()),
            _ => None,
        }
    }
}

impl Clone for UsageTrackerError {
    fn clone(&self) -> (r: Self)
        ensures
            r == *self,
    {
        match self {
            UsageTrackerError::FileLoadErrorRon(cause) => UsageTrackerError::FileLoadErrorRon(
                cause.clone(),
            ),
            UsageTrackerError::ObjectAlreadyTracked {
                name,
            } => UsageTrackerError::ObjectAlreadyTracked { name: name.clone() },
            UsageTrackerError::ObjectNeverUsed { name } => UsageTrackerError::ObjectNeverUsed {
                name: name.clone(),
            },
            UsageTrackerError::ObjectNotTracked { name } => UsageTrackerError::ObjectNotTracked {
                name: name.clone(),
            },
            UsageTrackerError::PathIsNotFile { path } => UsageTrackerError::PathIsNotFile {
                path: path.clone(),
            },
            UsageTrackerError::ParseError { path, format, cause } => UsageTrackerError::ParseError {
                path: path.clone(),
                format: *format,
                cause: cause.clone(),
            },
            UsageTrackerError::IoError { context, cause } => UsageTrackerError::IoError {
                context: context.clone(),
                cause: cause.clone(),
            },
            UsageTrackerError::UnsupportedFormat {
                extension,
            } => UsageTrackerError::UnsupportedFormat { extension: extension.clone() },
            UsageTrackerError::FormatNotSpecified => UsageTrackerError::FormatNotSpecified,
        }
    }
}

/// `text` after `before`.
pub(crate) fn prefixed(before: &str, text: &String) -> (r: String)
    ensures
        r@ == before@ + text@,
{
    let mut all = String::from_str(before);
    all.append(text.as_str());
    all
}

/// `middle` between `before` and `after`.
pub(crate) fn quoted(before: &str, middle: &String, after: &str) -> (r: String)
    ensures
        r@ == before@ + middle@ + after@,
{
    let mut text = String::from_str(before);
    text.append(middle.as_str());
    text.append(after);
    text
}

} // verus!
