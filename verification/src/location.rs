//! Turns the file location that the host reports for a module, a `file:` URL
//! in text form, into a UTF-8 filesystem path.
//!
//! The URL grammar and the path rules are those of the `url` and `camino`
//! crates. What they compute is named here by uninterpreted functions; the
//! order of the checks and the error that each failure becomes are verified.

use crate::path::{path_text, utf8_path_buf_from_path_buf, utf8_path_of};
use std::path::PathBuf;
use url::ParseError;
use url::Url;
use vstd::prelude::*;

verus! {

#[verifier::external_type_specification]
#[verifier::external_body]
pub struct ExUrl(Url);

#[verifier::external_type_specification]
#[verifier::external_body]
pub struct ExParseError(ParseError);

/// What `Url::parse` returns for a text.
pub uninterp spec fn url_parse(input: Seq<char>) -> Result<Url, ParseError>;

/// The scheme that `Url::scheme` reports for a parsed URL.
pub uninterp spec fn url_scheme(url: Url) -> Seq<char>;

/// What `Url::to_file_path` returns for a parsed URL.
pub uninterp spec fn url_to_file_path(url: Url) -> Result<PathBuf, ()>;

/// The text that `ParseError`'s `Display` writes.
pub uninterp spec fn parse_error_display(error: ParseError) -> Seq<char>;

/// Why a file location could not be turned into a UTF-8 path.
#[derive(Debug, Clone, Copy, PartialEq, Eq)]
#[non_exhaustive]
pub enum FileUrlStringToUtf8PathBufError {
    /// The text is not a URL at all.
    UrlParseError(ParseError),
    /// The text is a URL of another scheme than `file`.
    SchemeNotFile,
    /// The URL names no local file path.
    ToFilePathFailed,
    /// The file path is not valid UTF-8.
    PathNotUtf8,
}

impl FileUrlStringToUtf8PathBufError {
    /// The description of the error.
    pub open spec fn message(self) -> Seq<char> {
        match self {
            FileUrlStringToUtf8PathBufError::UrlParseError(error) => "parse error: "@
                + parse_error_display(error),
            FileUrlStringToUtf8PathBufError::SchemeNotFile => "scheme is not 'file'"@,
            FileUrlStringToUtf8PathBufError::ToFilePathFailed => "to_file_path failed"@,
            FileUrlStringToUtf8PathBufError::PathNotUtf8 => "path is not valid UTF-8"@,
        }
    }

    /// Describes the error in words.
    pub fn to_string(&self) -> (text: String)
        ensures
            text@ == self.message(),
    {
        match self {
            FileUrlStringToUtf8PathBufError::UrlParseError(error) => {
                let cause = parse_error_text(error);
                "parse error: ".to_owned().concat(cause.as_str())
            },
            FileUrlStringToUtf8PathBufError::SchemeNotFile => "scheme is not 'file'".to_owned(),
            FileUrlStringToUtf8PathBufError::ToFilePathFailed => "to_file_path failed".to_owned(),
            FileUrlStringToUtf8PathBufError::PathNotUtf8 => "path is not valid UTF-8".to_owned(),
        }
    }
}

/// The path that a file location stands for, or the reason why it stands for
/// none. The checks come in this order: the text parses as a URL, the scheme
/// is `file`, the URL converts to a file path, the path is UTF-8.
pub open spec fn normalized(file_url_string: Seq<char>) -> Result<
    Seq<char>,
    FileUrlStringToUtf8PathBufError,
> {
    match url_parse(file_url_string) {
        Err(error) => Err(FileUrlStringToUtf8PathBufError::UrlParseError(error)),
        Ok(url) => if url_scheme(url) != "file"@ {
            Err(FileUrlStringToUtf8PathBufError::SchemeNotFile)
        } else {
            match url_to_file_path(url) {
                Err(_) => Err(FileUrlStringToUtf8PathBufError::ToFilePathFailed),
                Ok(path) => match utf8_path_buf_from_path_buf(path) {
                    Err(_) => Err(FileUrlStringToUtf8PathBufError::PathNotUtf8),
                    Ok(text) => Ok(text),
                },
            }
        },
    }
}

/// Calls `Url::parse`, which is a function of the text alone.
#[verifier::external_body]
fn parse_url(input: &str) -> (parsed: Result<Url, ParseError>)
    ensures
        parsed == url_parse(input@),
{
    Url::parse(input)
}

/// Calls `Url::scheme`, which returns the scheme part of the URL.
#[verifier::external_body]
fn scheme_of<'a>(url: &'a Url) -> (scheme: &'a str)
    ensures
        scheme@ == url_scheme(*url),
{
    url.scheme()
}

/// Calls `Url::to_file_path`, which depends on the URL alone and fails where
/// the URL names a host or no path.
#[verifier::external_body]
fn file_path_of(url: &Url) -> (path: Result<PathBuf, ()>)
    ensures
        path == url_to_file_path(*url),
{
    url.to_file_path()
}

/// Formats a `ParseError` with its `Display`, which writes a fixed text for
/// each variant.
#[verifier::external_body]
fn parse_error_text(error: &ParseError) -> (text: String)
    ensures
        text@ == parse_error_display(*error),
{
    error.to_string()
}

/// Accepts the scheme `file` and no other.
pub fn require_file_scheme(scheme: &str) -> (checked: Result<(), FileUrlStringToUtf8PathBufError>)
    ensures
        checked == if scheme@ == "file"@ {
            Ok::<(), FileUrlStringToUtf8PathBufError>(())
        } else {
            Err(FileUrlStringToUtf8PathBufError::SchemeNotFile)
        },
{
    let given = scheme.to_owned();
    let file = "file".to_owned();
    if given == file {
        Ok(())
    } else {
        Err(FileUrlStringToUtf8PathBufError::SchemeNotFile)
    }
}

/// Turns a file location into the UTF-8 path that it stands for.
///
/// Fails with `UrlParseError` where the text is no URL, with `SchemeNotFile`
/// where its scheme is not `file`, with `ToFilePathFailed` where the URL does
/// not convert to a file path, and with `PathNotUtf8` where that path is not
/// UTF-8: each error exactly on those inputs, the earlier check first.
pub fn file_url_string_to_utf8_path_buf(file_url_string: &str) -> (result: Result<
    String,
    FileUrlStringToUtf8PathBufError,
>)
    ensures
        path_text(result) == normalized(file_url_string@),
{
    let url = match parse_url(file_url_string) {
        Ok(url) => url,
        Err(error) => {
            return Err(FileUrlStringToUtf8PathBufError::UrlParseError(error));
        },
    };
    match require_file_scheme(scheme_of(&url)) {
        Ok(()) => {},
        Err(error) => {
            return Err(error);
        },
    }
    let path = match file_path_of(&url) {
        Ok(path) => path,
        Err(_) => {
            return Err(FileUrlStringToUtf8PathBufError::ToFilePathFailed);
        },
    };
    match utf8_path_of(path) {
        Ok(utf8_path) => Ok(utf8_path),
        Err(_) => Err(FileUrlStringToUtf8PathBufError::PathNotUtf8),
    }
}

/// Normalization is a function of the text: whatever two runs on the same
/// text return, they return the same.
pub proof fn lemma_normalization_is_deterministic(
    file_url_string: Seq<char>,
    first: Result<String, FileUrlStringToUtf8PathBufError>,
    second: Result<String, FileUrlStringToUtf8PathBufError>,
)
    ensures
        path_text(first) == normalized(file_url_string) && path_text(second) == normalized(
            file_url_string,
        ) ==> path_text(first) == path_text(second),
{
}

/// A text that parses as a URL of another scheme than `file` is refused for
/// its scheme, never as unparsable.
pub proof fn lemma_other_scheme_is_scheme_not_file(file_url_string: Seq<char>)
    ensures
        (url_parse(file_url_string) matches Ok(url) && url_scheme(url) != "file"@) ==> normalized(
            file_url_string,
        ) == Err::<Seq<char>, FileUrlStringToUtf8PathBufError>(
            FileUrlStringToUtf8PathBufError::SchemeNotFile,
        ),
{
}

} // verus!
