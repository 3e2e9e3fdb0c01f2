//! Errors of loading, merging and saving the preferences document.

use vstd::prelude::*;
use vstd::string::StringExecFns;

verus! {

/// What can go wrong while applying a configuration.
#[derive(Clone, Debug, PartialEq, Eq)]
pub enum Error {
    /// The default preferences file could not be resolved.
    DefaultPreferencesNotFound,
    /// Reading or writing the preferences file failed; the text of the
    /// underlying error is kept.
    IoError(String),
    /// A value in the document is not the JSON object it must be; the
    /// name of the offending part is kept.
    NotAJsonObject(String),
    /// The document could not be decoded or encoded; the text of the
    /// underlying error is kept.
    SerdeError(String),
    /// An external command did not report success.
    SubprocessFailed,
}

impl Error {
    /// A short description of the error; a shape fault names the
    /// offending part of the document.
    pub fn describe(&self) -> (r: String)
        ensures
            self matches Error::NotAJsonObject(key) ==> r@ == "not a JSON object: "@ + key@,
    {
        match self {
            Error::DefaultPreferencesNotFound => "Default preferences not found".to_owned(),
            Error::IoError(text) => text.clone(),
            Error::NotAJsonObject(key) => "not a JSON object: ".to_owned().concat(key.as_str()),
            Error::SerdeError(text) => text.clone(),
            Error::SubprocessFailed => "Subprocess failed".to_owned(),
        }
    }
}

} // verus!
