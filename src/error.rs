use vstd::prelude::*;

verus! {

/// Every way a fetch can fail; callers tell them apart without reading text.
#[derive(Debug)]
pub enum FetchFeedError {
    /// Transport failure or a non-success HTTP status.
    Fetch(String),
    /// The body grew past the configured ceiling.
    ResponseLimitExceed,
    /// The parser recognized the content but rejected its structure.
    InvalidFeed(String),
    /// Reading the bytes failed while parsing.
    Io(String),
    /// Malformed JSON Feed document.
    JsonFormat(String),
    /// The JSON Feed declares a version that is not supported; holds it.
    JsonUnsupportedVersion(String),
    /// Malformed XML (Atom or RSS) document.
    XmlFormat(String),
    /// Anything else.
    Other(String),
}

impl Clone for FetchFeedError {
    fn clone(&self) -> (r: Self)
        ensures
            r == *self,
    {
        match self {
            FetchFeedError::Fetch(s) => FetchFeedError::Fetch(s.clone()),
            FetchFeedError::ResponseLimitExceed => FetchFeedError::ResponseLimitExceed,
            FetchFeedError::InvalidFeed(s) => FetchFeedError::InvalidFeed(s.clone()),
            FetchFeedError::Io(s) => FetchFeedError::Io(s.clone()),
            FetchFeedError::JsonFormat(s) => FetchFeedError::JsonFormat(s.clone()),
            FetchFeedError::JsonUnsupportedVersion(s) => FetchFeedError::JsonUnsupportedVersion(
                s.clone(),
            ),
            FetchFeedError::XmlFormat(s) => FetchFeedError::XmlFormat(s.clone()),
            FetchFeedError::Other(s) => FetchFeedError::Other(s.clone()),
        }
    }
}

/// How the feed parser rejected a document, each with its detail text.
#[derive(Debug)]
pub enum ParseFailure {
    /// The feed-structure validator rejected the content.
    Structure(String),
    /// The byte source failed.
    Io(String),
    /// The JSON layer rejected the document.
    Json(String),
    /// A JSON Feed with an unsupported version, which it holds.
    UnsupportedVersion(String),
    /// The XML reader rejected the document.
    Xml(String),
    /// The parser stopped abnormally; holds what it reported.
    Aborted(String),
}

/// The error a parse failure is reported as.
pub open spec fn parse_failure_error(f: ParseFailure) -> FetchFeedError {
    match f {
        ParseFailure::Structure(s) => FetchFeedError::InvalidFeed(s),
        ParseFailure::Io(s) => FetchFeedError::Io(s),
        ParseFailure::Json(s) => FetchFeedError::JsonFormat(s),
        ParseFailure::UnsupportedVersion(v) => FetchFeedError::JsonUnsupportedVersion(v),
        ParseFailure::Xml(s) => FetchFeedError::XmlFormat(s),
        ParseFailure::Aborted(s) => FetchFeedError::Other(s),
    }
}

impl FetchFeedError {
    /// Classifies a parse failure into the fetch error taxonomy.
    pub fn from_parse_failure(f: ParseFailure) -> (r: FetchFeedError)
        ensures
            r == parse_failure_error(f),
    {
        match f {
            ParseFailure::Structure(s) => FetchFeedError::InvalidFeed(s),
            ParseFailure::Io(s) => FetchFeedError::Io(s),
            ParseFailure::Json(s) => FetchFeedError::JsonFormat(s),
            ParseFailure::UnsupportedVersion(v) => FetchFeedError::JsonUnsupportedVersion(v),
            ParseFailure::Xml(s) => FetchFeedError::XmlFormat(s),
            ParseFailure::Aborted(s) => FetchFeedError::Other(s),
        }
    }
}

} // verus!
