use vstd::prelude::*;
use crate::body::BodyBuffer;
use crate::error::{parse_failure_error, FetchFeedError, ParseFailure};
use crate::types::{EntryMeta, Feed, FeedType, FeedUrl, Link, Time};

verus! {

/// What a feed parser read from a document, as plain values: the syntax, the
/// feed-level text, times as seconds since the Unix epoch, and links already
/// resolved against the document's URL.
#[derive(Debug)]
pub struct ParsedDocument {
    pub kind: FeedType,
    pub title: Option<String>,
    pub updated: Option<Time>,
    pub links: Vec<Link>,
    pub description: Option<String>,
    pub generator: Option<String>,
    pub entries: Vec<EntryMeta>,
    pub authors: Vec<String>,
}

/// The site of a feed: the target of its first link, if it has one.
pub open spec fn website_of(links: Seq<Link>) -> Option<String> {
    if links.len() > 0 {
        Some(links[0].href)
    } else {
        None
    }
}

/// `f` is the feed read from `url` whose parsed document is `d`.
pub open spec fn built_from(f: Feed, url: Seq<char>, d: ParsedDocument) -> bool {
    &&& f.kind == Some(d.kind)
    &&& f.title == d.title
    &&& f.url@ == url
    &&& f.updated == d.updated
    &&& f.links@ == d.links@
    &&& f.website_url == website_of(d.links@)
    &&& f.description == d.description
    &&& f.generator == d.generator
    &&& f.entries@ == d.entries@
    &&& f.authors@ == d.authors@
}

/// Turns a document the parser accepted into a [`Feed`] read from `url`.
fn build_feed(url: FeedUrl, d: ParsedDocument) -> (r: Feed)
    ensures
        built_from(r, url@, d),
{
    let website_url = if d.links.len() > 0 {
        Some(d.links[0].href.clone())
    } else {
        None
    };
    Feed {
        kind: Some(d.kind),
        title: d.title,
        url: url.into_inner(),
        updated: d.updated,
        links: d.links,
        website_url,
        description: d.description,
        generator: d.generator,
        entries: d.entries,
        authors: d.authors,
    }
}

/// Seconds allowed to open a connection for a fetch.
pub const CONNECT_TIMEOUT_SECS: u64 = 10;

/// Seconds allowed for a whole request, body included.
pub const REQUEST_TIMEOUT_SECS: u64 = 10;

/// Fetches feeds over HTTP: the user agent that requests are sent with and
/// the ceiling on a response body.
#[derive(Debug, Clone)]
pub struct FeedService {
    pub user_agent: String,
    pub buff_limit: usize,
}

impl FeedService {
    pub fn new(user_agent: &str, buff_limit: usize) -> (r: FeedService)
        ensures
            r.user_agent@ == user_agent@,
            r.buff_limit == buff_limit,
    {
        FeedService { user_agent: user_agent.to_string(), buff_limit }
    }

    /// An empty body buffer under this service's ceiling.
    pub fn body_buffer(&self) -> (r: BodyBuffer)
        ensures
            r.wf(),
            r.limit_spec() == self.buff_limit,
            r.bytes_spec() == Seq::<u8>::empty(),
    {
        BodyBuffer::new(self.buff_limit)
    }

    /// The outcome of parsing the body fetched from `url`: the feed built from
    /// the parsed document, or the parser's objection reported through the
    /// error taxonomy.
    pub fn parse(&self, url: FeedUrl, parsed: Result<ParsedDocument, ParseFailure>) -> (r: Result<
        Feed,
        FetchFeedError,
    >)
        ensures
            r is Ok == parsed is Ok,
            parsed matches Ok(d) ==> r matches Ok(f) && built_from(f, url@, d),
            parsed matches Err(p) ==> r == Err::<Feed, FetchFeedError>(parse_failure_error(p)),
    {
        match parsed {
            Ok(d) => Ok(build_feed(url, d)),
            Err(p) => Err(FetchFeedError::from_parse_failure(p)),
        }
    }
}

} // verus!
