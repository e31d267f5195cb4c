use vstd::prelude::*;
use crate::mutation::subscribe_feed;

verus! {

/// A point in time, as whole seconds since the Unix epoch (UTC).
pub type Time = i64;

/// A validated absolute URL in its normalized text form; the identity of a
/// feed and the key under which it is cached.
#[derive(Debug, Hash)]
pub struct FeedUrl {
    url: String,
}

impl View for FeedUrl {
    type V = Seq<char>;

    closed spec fn view(&self) -> Seq<char> {
        self.url@
    }
}

impl PartialEq for FeedUrl {
    fn eq(&self, other: &FeedUrl) -> (r: bool) {
        self.url == other.url
    }
}

impl vstd::std_specs::cmp::PartialEqSpecImpl for FeedUrl {
    open spec fn obeys_eq_spec() -> bool {
        true
    }

    open spec fn eq_spec(&self, other: &FeedUrl) -> bool {
        self@ == other@
    }
}

impl Eq for FeedUrl {}

impl Clone for FeedUrl {
    fn clone(&self) -> (r: Self)
        ensures
            r@ == self@,
    {
        FeedUrl { url: self.url.clone() }
    }
}

/// The normalized serialization of `s` read as an absolute URL, if it is one.
pub uninterp spec fn url_normal_form(s: Seq<char>) -> Option<Seq<char>>;

/// Relies on `url::Url::parse`, which accepts absolute URLs only, and on
/// `Url::as_str`, its normalized serialization.
#[verifier::external_body]
fn normalize_url(s: &str) -> (r: Option<String>)
    ensures
        match r {
            Some(u) => url_normal_form(s@) == Some(u@),
            None => url_normal_form(s@).is_none(),
        },
{
    url::Url::parse(s).ok().map(String::from)
}

/// Text that is not an absolute URL.
#[derive(Debug)]
pub struct InvalidFeedUrl {
    pub input: String,
}

impl FeedUrl {
    /// Reads `s` as an absolute URL and keeps its normalized form.
    pub fn parse(s: &str) -> (r: Result<FeedUrl, InvalidFeedUrl>)
        ensures
            r is Ok == url_normal_form(s@).is_some(),
            r matches Ok(u) ==> Some(u@) == url_normal_form(s@),
            r matches Err(e) ==> e.input@ == s@,
    {
        match normalize_url(s) {
            Some(u) => Ok(FeedUrl { url: u }),
            None => Err(InvalidFeedUrl { input: s.to_string() }),
        }
    }

    pub fn as_str(&self) -> (r: &str)
        ensures
            r@ == self@,
    {
        self.url.as_str()
    }

    pub fn into_inner(self) -> (r: String)
        ensures
            r@ == self@,
    {
        self.url
    }

    /// Whether two URLs are the same key.
    pub fn same_as(&self, other: &FeedUrl) -> (r: bool)
        ensures
            r == (self@ == other@),
    {
        self.url == other.url
    }
}

/// The syntax a feed was published in.
#[derive(Debug, Clone, Copy, PartialEq, Eq, Structural)]
pub enum FeedType {
    Atom,
    JSON,
    RSS0,
    RSS1,
    RSS2,
}

/// Copies an optional string exactly.
pub fn clone_opt_string(o: &Option<String>) -> (r: Option<String>)
    ensures
        r == *o,
{
    match o {
        Some(s) => Some(s.clone()),
        None => None,
    }
}

/// A hyperlink attached to a feed.
#[derive(Debug)]
pub struct Link {
    pub href: String,
    pub rel: Option<String>,
    pub media_type: Option<String>,
    pub title: Option<String>,
}

impl Clone for Link {
    fn clone(&self) -> (r: Self)
        ensures
            r == *self,
    {
        Link {
            href: self.href.clone(),
            rel: clone_opt_string(&self.rel),
            media_type: clone_opt_string(&self.media_type),
            title: clone_opt_string(&self.title),
        }
    }
}

/// Summary of one item of a feed.
#[derive(Debug)]
pub struct EntryMeta {
    pub title: Option<String>,
    pub published: Option<Time>,
    pub updated: Option<Time>,
    pub summary: Option<String>,
}

impl Clone for EntryMeta {
    fn clone(&self) -> (r: Self)
        ensures
            r == *self,
    {
        EntryMeta {
            title: clone_opt_string(&self.title),
            published: self.published,
            updated: self.updated,
            summary: clone_opt_string(&self.summary),
        }
    }
}

/// Seconds since the Unix epoch of an RFC 3339 timestamp, if `s` is one.
pub uninterp spec fn rfc3339_seconds(s: Seq<char>) -> Option<Time>;

/// Relies on chrono's `DateTime::parse_from_rfc3339` and `timestamp`.
#[verifier::external_body]
fn parse_rfc3339(s: &str) -> (r: Option<Time>)
    ensures
        r == rfc3339_seconds(s@),
{
    chrono::DateTime::parse_from_rfc3339(s).ok().map(|t| t.timestamp())
}

/// The time an RFC 3339 text stands for; text that is not one gives `None`.
pub fn parse_time(t: &Option<String>) -> (r: Option<Time>)
    ensures
        r == opt_seconds(*t),
{
    match t {
        Some(s) => parse_rfc3339(s.as_str()),
        None => None,
    }
}

pub open spec fn opt_seconds(t: Option<String>) -> Option<Time> {
    match t {
        Some(s) => rfc3339_seconds(s@),
        None => None,
    }
}

/// A link as the subscription API returned it.
pub open spec fn link_of(v: subscribe_feed::Link) -> Link {
    Link { href: v.href, rel: v.rel, media_type: v.media_type, title: v.title }
}

/// An entry summary as the subscription API returned it.
pub open spec fn entry_meta_of(e: subscribe_feed::EntryMeta) -> EntryMeta {
    EntryMeta { title: e.title, published: opt_seconds(e.published), updated: None, summary: e.summary }
}

fn link_from_ref(v: &subscribe_feed::Link) -> (r: Link)
    ensures
        r == link_of(*v),
{
    Link {
        href: v.href.clone(),
        rel: clone_opt_string(&v.rel),
        media_type: clone_opt_string(&v.media_type),
        title: clone_opt_string(&v.title),
    }
}

fn entry_meta_from_ref(e: &subscribe_feed::EntryMeta) -> (r: EntryMeta)
    ensures
        r == entry_meta_of(*e),
{
    EntryMeta {
        title: clone_opt_string(&e.title),
        published: parse_time(&e.published),
        updated: None,
        summary: clone_opt_string(&e.summary),
    }
}

/// `r` is the feed the subscription API described as `f`.
pub open spec fn subscribed_from(r: Feed, f: subscribe_feed::Feed) -> bool {
    &&& r.kind.is_none()
    &&& r.title == f.title
    &&& r.url == f.url
    &&& r.updated == opt_seconds(f.updated)
    &&& r.website_url == f.website_url
    &&& r.description == f.description
    &&& r.generator.is_none()
    &&& r.authors@.len() == 0
    &&& r.links@.len() == f.links.nodes@.len()
    &&& forall|i: int| 0 <= i < r.links@.len() ==> r.links@[i] == link_of(f.links.nodes@[i])
    &&& r.entries@.len() == f.entries.nodes@.len()
    &&& forall|i: int|
        0 <= i < r.entries@.len() ==> r.entries@[i] == entry_meta_of(f.entries.nodes@[i])
}

impl Feed {
    /// The feed the subscription API answered a subscription with; its times
    /// are read as RFC 3339.
    pub fn from_subscribed(f: subscribe_feed::Feed) -> (r: Feed)
        ensures
            subscribed_from(r, f),
    {
        let mut links: Vec<Link> = Vec::new();
        let mut i: usize = 0;
        while i < f.links.nodes.len()
            invariant
                i <= f.links.nodes@.len(),
                links@.len() == i,
                forall|j: int| 0 <= j < i ==> links@[j] == link_of(f.links.nodes@[j]),
            decreases f.links.nodes@.len() - i,
        {
            links.push(link_from_ref(&f.links.nodes[i]));
            i = i + 1;
        }
        let mut entries: Vec<EntryMeta> = Vec::new();
        let mut i: usize = 0;
        while i < f.entries.nodes.len()
            invariant
                i <= f.entries.nodes@.len(),
                entries@.len() == i,
                forall|j: int| 0 <= j < i ==> entries@[j] == entry_meta_of(f.entries.nodes@[j]),
            decreases f.entries.nodes@.len() - i,
        {
            entries.push(entry_meta_from_ref(&f.entries.nodes[i]));
            i = i + 1;
        }
        let updated = parse_time(&f.updated);
        Feed {
            kind: None,
            title: f.title,
            url: f.url,
            updated,
            links,
            website_url: f.website_url,
            description: f.description,
            generator: None,
            entries,
            authors: Vec::new(),
        }
    }
}

impl From<subscribe_feed::Link> for Link {
    fn from(v: subscribe_feed::Link) -> Self {
        Link { href: v.href, rel: v.rel, media_type: v.media_type, title: v.title }
    }
}

impl vstd::std_specs::convert::FromSpecImpl<subscribe_feed::Link> for Link {
    open spec fn obeys_from_spec() -> bool {
        true
    }

    open spec fn from_spec(v: subscribe_feed::Link) -> Self {
        link_of(v)
    }
}

impl From<subscribe_feed::EntryMeta> for EntryMeta {
    fn from(e: subscribe_feed::EntryMeta) -> Self {
        let published = parse_time(&e.published);
        EntryMeta { title: e.title, published, updated: None, summary: e.summary }
    }
}

impl vstd::std_specs::convert::FromSpecImpl<subscribe_feed::EntryMeta> for EntryMeta {
    open spec fn obeys_from_spec() -> bool {
        true
    }

    open spec fn from_spec(e: subscribe_feed::EntryMeta) -> Self {
        entry_meta_of(e)
    }
}

/// One item of a feed, with the title and URL of the feed it belongs to.
#[derive(Debug, Clone)]
pub struct Entry {
    pub title: Option<String>,
    pub published: Option<Time>,
    pub updated: Option<Time>,
    pub website_url: Option<String>,
    pub summary: Option<String>,
    pub feed_title: Option<String>,
    pub feed_url: String,
}

/// A subscribed feed as written out by an export.
#[derive(Debug, Clone)]
pub struct ExportedFeed {
    pub title: Option<String>,
    pub url: String,
}

/// The mathematical content of a [`Feed`]: its vectors as sequences.
pub ghost struct FeedView {
    pub kind: Option<FeedType>,
    pub title: Option<String>,
    pub url: String,
    pub updated: Option<Time>,
    pub links: Seq<Link>,
    pub website_url: Option<String>,
    pub description: Option<String>,
    pub generator: Option<String>,
    pub entries: Seq<EntryMeta>,
    pub authors: Seq<String>,
}

/// A feed as parsed from a remote document.
#[derive(Debug)]
pub struct Feed {
    pub kind: Option<FeedType>,
    pub title: Option<String>,
    pub url: String,
    pub updated: Option<Time>,
    pub links: Vec<Link>,
    pub website_url: Option<String>,
    pub description: Option<String>,
    pub generator: Option<String>,
    pub entries: Vec<EntryMeta>,
    pub authors: Vec<String>,
}

impl View for Feed {
    type V = FeedView;

    open spec fn view(&self) -> FeedView {
        FeedView {
            kind: self.kind,
            title: self.title,
            url: self.url,
            updated: self.updated,
            links: self.links@,
            website_url: self.website_url,
            description: self.description,
            generator: self.generator,
            entries: self.entries@,
            authors: self.authors@,
        }
    }
}

impl Clone for Feed {
    fn clone(&self) -> (r: Self)
        ensures
            r@ == self@,
    {
        let links = self.links.clone();
        let entries = self.entries.clone();
        let authors = self.authors.clone();
        assert(links@ =~= self.links@);
        assert(entries@ =~= self.entries@);
        assert(authors@ =~= self.authors@);
        Feed {
            kind: self.kind,
            title: clone_opt_string(&self.title),
            url: self.url.clone(),
            updated: self.updated,
            links,
            website_url: clone_opt_string(&self.website_url),
            description: clone_opt_string(&self.description),
            generator: clone_opt_string(&self.generator),
            entries,
            authors,
        }
    }
}


/// Fixed bookkeeping cost counted for a feed.
pub const FEED_OVERHEAD: usize = 256;

/// Fixed bookkeeping cost counted for each link.
pub const LINK_OVERHEAD: usize = 96;

/// Fixed bookkeeping cost counted for each entry.
pub const ENTRY_OVERHEAD: usize = 96;

/// Fixed bookkeeping cost counted for each author name.
pub const AUTHOR_OVERHEAD: usize = 24;

/// Bytes of the UTF-8 form of a string.
pub open spec fn text_len(s: String) -> nat {
    vstd::utf8::encode_utf8(s@).len()
}

pub open spec fn opt_text_len(o: Option<String>) -> nat {
    match o {
        Some(s) => text_len(s),
        None => 0,
    }
}

pub open spec fn link_size(l: Link) -> nat {
    (LINK_OVERHEAD + text_len(l.href) + opt_text_len(l.rel) + opt_text_len(l.media_type)
        + opt_text_len(l.title)) as nat
}

pub open spec fn entry_size(e: EntryMeta) -> nat {
    (ENTRY_OVERHEAD + opt_text_len(e.title) + opt_text_len(e.summary)) as nat
}

pub open spec fn author_size(a: String) -> nat {
    (AUTHOR_OVERHEAD + text_len(a)) as nat
}

pub open spec fn links_size(s: Seq<Link>) -> nat
    decreases s.len(),
{
    if s.len() == 0 {
        0
    } else {
        (links_size(s.drop_last()) + link_size(s.last())) as nat
    }
}

pub open spec fn entries_size(s: Seq<EntryMeta>) -> nat
    decreases s.len(),
{
    if s.len() == 0 {
        0
    } else {
        (entries_size(s.drop_last()) + entry_size(s.last())) as nat
    }
}

pub open spec fn authors_size(s: Seq<String>) -> nat
    decreases s.len(),
{
    if s.len() == 0 {
        0
    } else {
        (authors_size(s.drop_last()) + author_size(s.last())) as nat
    }
}

/// Structural size of a feed: the bytes of its text plus a fixed cost per
/// part; the figure its cache entry is accounted at.
pub open spec fn feed_size(f: FeedView) -> nat {
    (FEED_OVERHEAD + text_len(f.url) + opt_text_len(f.title) + opt_text_len(f.website_url)
        + opt_text_len(f.description) + opt_text_len(f.generator) + links_size(f.links)
        + entries_size(f.entries) + authors_size(f.authors)) as nat
}

/// `n`, or `usize::MAX` where `n` does not fit.
pub open spec fn capped(n: nat) -> usize {
    if n > usize::MAX {
        usize::MAX
    } else {
        n as usize
    }
}

fn text_bytes(s: &String) -> (r: usize)
    ensures
        r == text_len(*s),
{
    s.as_str().as_bytes().len()
}

fn opt_text_bytes(o: &Option<String>) -> (r: usize)
    ensures
        r == opt_text_len(*o),
{
    match o {
        Some(s) => text_bytes(s),
        None => 0,
    }
}

fn add_capped(acc: usize, n: usize) -> (r: usize)
    ensures
        r == capped((acc + n) as nat),
{
    acc.saturating_add(n)
}

impl Feed {
    /// The structural size of the feed, saturated at `usize::MAX`.
    pub fn approx_size(&self) -> (r: usize)
        ensures
            r == capped(feed_size(self@)),
    {
        let mut acc: usize = FEED_OVERHEAD;
        acc = add_capped(acc, text_bytes(&self.url));
        acc = add_capped(acc, opt_text_bytes(&self.title));
        acc = add_capped(acc, opt_text_bytes(&self.website_url));
        acc = add_capped(acc, opt_text_bytes(&self.description));
        acc = add_capped(acc, opt_text_bytes(&self.generator));
        let ghost base: nat = (FEED_OVERHEAD + text_len(self.url) + opt_text_len(self.title)
            + opt_text_len(self.website_url) + opt_text_len(self.description) + opt_text_len(
            self.generator,
        )) as nat;
        assert(acc == capped(base));
        let mut i: usize = 0;
        while i < self.links.len()
            invariant
                i <= self.links@.len(),
                acc == capped((base + links_size(self.links@.take(i as int))) as nat),
            decreases self.links@.len() - i,
        {
            let l = &self.links[i];
            let mut n: usize = LINK_OVERHEAD;
            n = add_capped(n, text_bytes(&l.href));
            n = add_capped(n, opt_text_bytes(&l.rel));
            n = add_capped(n, opt_text_bytes(&l.media_type));
            n = add_capped(n, opt_text_bytes(&l.title));
            assert(self.links@.take(i + 1).drop_last() =~= self.links@.take(i as int));
            acc = add_capped(acc, n);
            i = i + 1;
        }
        assert(self.links@.take(i as int) =~= self.links@);
        let ghost base2: nat = (base + links_size(self.links@)) as nat;
        let mut i: usize = 0;
        while i < self.entries.len()
            invariant
                i <= self.entries@.len(),
                acc == capped((base2 + entries_size(self.entries@.take(i as int))) as nat),
            decreases self.entries@.len() - i,
        {
            let e = &self.entries[i];
            let mut n: usize = ENTRY_OVERHEAD;
            n = add_capped(n, opt_text_bytes(&e.title));
            n = add_capped(n, opt_text_bytes(&e.summary));
            assert(self.entries@.take(i + 1).drop_last() =~= self.entries@.take(i as int));
            acc = add_capped(acc, n);
            i = i + 1;
        }
        assert(self.entries@.take(i as int) =~= self.entries@);
        let ghost base3: nat = (base2 + entries_size(self.entries@)) as nat;
        let mut i: usize = 0;
        while i < self.authors.len()
            invariant
                i <= self.authors@.len(),
                acc == capped((base3 + authors_size(self.authors@.take(i as int))) as nat),
            decreases self.authors@.len() - i,
        {
            let n = add_capped(AUTHOR_OVERHEAD, text_bytes(&self.authors[i]));
            assert(self.authors@.take(i + 1).drop_last() =~= self.authors@.take(i as int));
            acc = add_capped(acc, n);
            i = i + 1;
        }
        assert(self.authors@.take(i as int) =~= self.authors@);
        acc
    }
}

} // verus!
