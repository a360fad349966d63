use vstd::prelude::*;

verus! {

/// What can go wrong while reading, changing or writing a manifest.
#[derive(Debug)]
#[allow(inconsistent_fields)]
pub enum Error {
    ConfigurationFileNotFound { path: String },
    FileOpenError { inner: std::io::Error, path: String },
    FileReadError { inner: std::io::Error, path: String },
    FileParseError { inner: serde_json::Error },
    UnexpectedContentsError,
    FileSerializeError { inner: serde_json::Error },
    FileWriteError { inner: std::io::Error, path: String },
}

/// The message that describes an error, as a spec value.
pub open spec fn error_message(e: Error) -> Seq<char> {
    match e {
        Error::ConfigurationFileNotFound { path } =>
            "Expected semantic-release configuration to exist at "@ + path@,
        Error::FileOpenError { path, .. } => "Unable to open file "@ + path@,
        Error::FileReadError { path, .. } => "Unable to read file "@ + path@,
        Error::FileParseError { .. } => "Unable to parse semantic-release configuration file"@,
        Error::UnexpectedContentsError => "Unexpected contents in semantic-release configuration file"@,
        Error::FileSerializeError { .. } => "Unable to serialize file"@,
        Error::FileWriteError { path, .. } => "Unable to write changes to file "@ + path@,
    }
}

/// `prefix` followed by `rest`.
fn joined(prefix: &str, rest: &String) -> (text: String)
    ensures
        text@ == prefix@ + rest@,
{
    let mut text = prefix.to_string();
    text.append(rest.as_str());
    text
}

impl Error {
    /// The manifest was expected at `path` but is not there.
    pub fn configuration_file_not_found_error(path: &str) -> (e: Error)
        ensures
            e matches Error::ConfigurationFileNotFound { path: p } && p@ == path@,
    {
        Error::ConfigurationFileNotFound { path: path.to_string() }
    }

    /// The file at `path` could not be opened.
    pub fn file_open_error(inner: std::io::Error, path: &str) -> (e: Error)
        ensures
            e matches Error::FileOpenError { inner: i, path: p } && i == inner && p@ == path@,
    {
        Error::FileOpenError { inner, path: path.to_string() }
    }

    /// The file at `path` could not be read.
    pub fn file_read_error(inner: std::io::Error, path: &str) -> (e: Error)
        ensures
            e matches Error::FileReadError { inner: i, path: p } && i == inner && p@ == path@,
    {
        Error::FileReadError { inner, path: path.to_string() }
    }

    /// The manifest's text is not a manifest.
    pub fn file_parse_error(inner: serde_json::Error) -> (e: Error)
        ensures
            e matches Error::FileParseError { inner: i } && i == inner,
    {
        Error::FileParseError { inner }
    }

    /// The manifest could not be turned into text.
    pub fn file_serialize_error(inner: serde_json::Error) -> (e: Error)
        ensures
            e matches Error::FileSerializeError { inner: i } && i == inner,
    {
        Error::FileSerializeError { inner }
    }

    /// The file at `path` could not be written.
    pub fn file_write_error(inner: std::io::Error, path: &str) -> (e: Error)
        ensures
            e matches Error::FileWriteError { inner: i, path: p } && i == inner && p@ == path@,
    {
        Error::FileWriteError { inner, path: path.to_string() }
    }

    /// The message that describes this error.
    pub fn message(&self) -> (text: String)
        ensures
            text@ == error_message(*self),
    {
        match self {
            Error::ConfigurationFileNotFound { path } =>
                joined("Expected semantic-release configuration to exist at ", path),
            Error::FileOpenError { path, .. } => joined("Unable to open file ", path),
            Error::FileReadError { path, .. } => joined("Unable to read file ", path),
            Error::FileParseError { .. } =>
                "Unable to parse semantic-release configuration file".to_string(),
            Error::UnexpectedContentsError =>
                "Unexpected contents in semantic-release configuration file".to_string(),
            Error::FileSerializeError { .. } => "Unable to serialize file".to_string(),
            Error::FileWriteError { path, .. } => joined("Unable to write changes to file ", path),
        }
    }
}

} // verus!
