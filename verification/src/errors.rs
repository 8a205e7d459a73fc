//! What can go wrong in a command, and what is said of it.

use vstd::prelude::*;
use crate::text::{decimal, numeral};

verus! {

/// The ways in which a command ends without its effect.
#[derive(Debug)]
pub enum Error {
    /// No bookmark has this id.
    IDNotFound(usize),
    /// The bookmark with this id has no URL.
    NoUrl(usize),
    /// The platform names no directory for the data.
    NoProjectDirs,
    /// The listing has no page of this number.
    PageNotFound(usize),
    /// An edit that names no field to change.
    NoEditSpecified,
    /// No clipboard could be reached.
    ClipboardNotFound(String),
    /// The clipboard refused the text.
    ClipboardCopyError(String),
    /// The text names no category.
    CategoryParseError(String),
    /// The stored collection could not be read back.
    ParseError(String),
    /// The stored configuration could not be read back.
    TomlParseError(String),
    /// The configuration could not be written down.
    TomlSerializeError(String),
    /// Reading, writing or moving a file failed.
    Io(String),
    /// A configuration change that names nothing to change.
    NoConfigArgs,
    /// A page size of zero.
    ZeroPagination,
    /// No title matches the text that was searched for.
    QueryNotFound(String),
}

/// An [`Error`] with its texts as sequences of characters.
pub enum ErrorModel {
    IDNotFound(usize),
    NoUrl(usize),
    NoProjectDirs,
    PageNotFound(usize),
    NoEditSpecified,
    ClipboardNotFound(Seq<char>),
    ClipboardCopyError(Seq<char>),
    CategoryParseError(Seq<char>),
    ParseError(Seq<char>),
    TomlParseError(Seq<char>),
    TomlSerializeError(Seq<char>),
    Io(Seq<char>),
    NoConfigArgs,
    ZeroPagination,
    QueryNotFound(Seq<char>),
}

impl View for Error {
    type V = ErrorModel;

    open spec fn view(&self) -> ErrorModel {
        match *self {
            Error::IDNotFound(id) => ErrorModel::IDNotFound(id),
            Error::NoUrl(id) => ErrorModel::NoUrl(id),
            Error::NoProjectDirs => ErrorModel::NoProjectDirs,
            Error::PageNotFound(page) => ErrorModel::PageNotFound(page),
            Error::NoEditSpecified => ErrorModel::NoEditSpecified,
            Error::ClipboardNotFound(why) => ErrorModel::ClipboardNotFound(why@),
            Error::ClipboardCopyError(why) => ErrorModel::ClipboardCopyError(why@),
            Error::CategoryParseError(text) => ErrorModel::CategoryParseError(text@),
            Error::ParseError(why) => ErrorModel::ParseError(why@),
            Error::TomlParseError(why) => ErrorModel::TomlParseError(why@),
            Error::TomlSerializeError(why) => ErrorModel::TomlSerializeError(why@),
            Error::Io(why) => ErrorModel::Io(why@),
            Error::NoConfigArgs => ErrorModel::NoConfigArgs,
            Error::ZeroPagination => ErrorModel::ZeroPagination,
            Error::QueryNotFound(text) => ErrorModel::QueryNotFound(text@),
        }
    }
}

/// Whether `outcome` is the failure `error`.
pub open spec fn fails_with<T>(outcome: Result<T, Error>, error: ErrorModel) -> bool {
    outcome matches Err(e) && e@ == error
}

impl ErrorModel {
    /// The sentence that reports the error.
    pub open spec fn message(self) -> Seq<char> {
        match self {
            ErrorModel::IDNotFound(id) => "Bookmark with ID "@ + numeral(id as nat) + " not found"@,
            ErrorModel::NoUrl(id) => "Bookmark with ID "@ + numeral(id as nat) + " has no URL"@,
            ErrorModel::NoProjectDirs => "Project directories not found"@,
            ErrorModel::PageNotFound(page) => "Page "@ + numeral(page as nat) + " not found"@,
            ErrorModel::NoEditSpecified => "Edit command requires at least one argument"@,
            ErrorModel::ClipboardNotFound(why) => "Clipboard not found: "@ + why,
            ErrorModel::ClipboardCopyError(why) => "Could not copy to clipboard: "@ + why,
            ErrorModel::CategoryParseError(text) => "Invalid category: "@ + text,
            ErrorModel::ParseError(why) => "JSON parse error: "@ + why,
            ErrorModel::TomlParseError(why) => "Toml parse error: "@ + why,
            ErrorModel::TomlSerializeError(why) => "Internal error when serializing metadata: "@
                + why,
            ErrorModel::Io(why) => "I/O error: "@ + why,
            ErrorModel::NoConfigArgs => "No config args provided"@,
            ErrorModel::ZeroPagination => "Can't paginate by 0"@,
            ErrorModel::QueryNotFound(text) => "No bookmark matches: "@ + text,
        }
    }
}

fn labelled(label: &str, rest: &str) -> (whole: String)
    ensures
        whole@ == label@ + rest@,
{
    let mut whole = label.to_owned();
    whole.append(rest);
    whole
}

fn sentence(before: &str, middle: &str, after: &str) -> (whole: String)
    ensures
        whole@ == before@ + middle@ + after@,
{
    let mut whole = before.to_owned();
    whole.append(middle);
    whole.append(after);
    whole
}

impl Error {
    /// The sentence that reports this error to the user.
    pub fn message(&self) -> (text: String)
        ensures
            text@ == self@.message(),
    {
        match self {
            Error::IDNotFound(id) => sentence(
                "Bookmark with ID ",
                decimal(*id).as_str(),
                " not found",
            ),
            Error::NoUrl(id) => sentence("Bookmark with ID ", decimal(*id).as_str(), " has no URL"),
            Error::NoProjectDirs => "Project directories not found".to_owned(),
            Error::PageNotFound(page) => sentence("Page ", decimal(*page).as_str(), " not found"),
            Error::NoEditSpecified => "Edit command requires at least one argument".to_owned(),
            Error::ClipboardNotFound(why) => labelled("Clipboard not found: ", why.as_str()),
            Error::ClipboardCopyError(why) => labelled(
                "Could not copy to clipboard: ",
                why.as_str(),
            ),
            Error::CategoryParseError(text) => labelled("Invalid category: ", text.as_str()),
            Error::ParseError(why) => labelled("JSON parse error: ", why.as_str()),
            Error::TomlParseError(why) => labelled("Toml parse error: ", why.as_str()),
            Error::TomlSerializeError(why) => labelled(
                "Internal error when serializing metadata: ",
                why.as_str(),
            ),
            Error::Io(why) => labelled("I/O error: ", why.as_str()),
            Error::NoConfigArgs => "No config args provided".to_owned(),
            Error::ZeroPagination => "Can't paginate by 0".to_owned(),
            Error::QueryNotFound(text) => labelled("No bookmark matches: ", text.as_str()),
        }
    }
}

} // verus!
