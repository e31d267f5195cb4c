use feed_rs::parser::ParseFeedError;
use synd_feed::batch::collect_in_order;
use synd_feed::body::BodyBuffer;
use synd_feed::cache::{CacheConfig, FeedCache, Lookup};
use synd_feed::error::{FetchFeedError, ParseFailure};
use synd_feed::parser::{FeedService, ParsedDocument};
use synd_feed::types::{EntryMeta, Feed, FeedType, FeedUrl, Link};

fn url(s: &str) -> FeedUrl {
    FeedUrl::parse(s).unwrap()
}

fn feed(u: &str, title: &str) -> Feed {
    Feed {
        kind: None,
        title: Some(title.to_string()),
        url: u.to_string(),
        updated: None,
        links: vec![],
        website_url: None,
        description: None,
        generator: None,
        entries: vec![],
        authors: vec![],
    }
}

/// Runs feed_rs on `body` and hands its outcome to the service, as the
/// application does.
fn parse_body(svc: &FeedService, u: FeedUrl, body: &[u8]) -> Result<Feed, FetchFeedError> {
    let parser = feed_rs::parser::Builder::new().base_uri(Some(u.as_str())).build();
    let parsed = match parser.parse(body) {
        Ok(m) => {
            let text = |t: Option<feed_rs::model::Text>| t.map(|t| t.content);
            Ok(ParsedDocument {
                kind: match m.feed_type {
                    feed_rs::model::FeedType::Atom => FeedType::Atom,
                    feed_rs::model::FeedType::JSON => FeedType::JSON,
                    feed_rs::model::FeedType::RSS0 => FeedType::RSS0,
                    feed_rs::model::FeedType::RSS1 => FeedType::RSS1,
                    feed_rs::model::FeedType::RSS2 => FeedType::RSS2,
                },
                title: text(m.title),
                updated: None,
                links: m
                    .links
                    .into_iter()
                    .map(|l| Link { href: l.href, rel: l.rel, media_type: l.media_type, title: l.title })
                    .collect(),
                description: text(m.description),
                generator: None,
                entries: m
                    .entries
                    .into_iter()
                    .map(|e| EntryMeta {
                        title: text(e.title),
                        published: None,
                        updated: None,
                        summary: text(e.summary),
                    })
                    .collect(),
                authors: vec![],
            })
        }
        Err(ParseFeedError::ParseError(k)) => Err(ParseFailure::Structure(k.to_string())),
        Err(ParseFeedError::IoError(e)) => Err(ParseFailure::Io(e.to_string())),
        Err(ParseFeedError::JsonSerde(e)) => Err(ParseFailure::Json(e.to_string())),
        Err(ParseFeedError::JsonUnsupportedVersion(v)) => Err(ParseFailure::UnsupportedVersion(v)),
        Err(ParseFeedError::XmlReader(e)) => Err(ParseFailure::Xml(e.to_string())),
    };
    svc.parse(u, parsed)
}

fn config(max: usize, ttl: u64) -> CacheConfig {
    CacheConfig::default().with_max_cache_size(max).with_time_to_live(ttl)
}

const HOUR: u64 = 3_600_000;

#[test]
fn batch_keeps_input_order() {
    let results = vec![
        Ok(feed("https://a.example/", "a")),
        Ok(feed("https://b.example/", "b")),
        Ok(feed("https://c.example/", "c")),
    ];
    let feeds = collect_in_order(&results).unwrap();
    assert_eq!(feeds.len(), 3);
    assert_eq!(feeds[0].title.as_deref(), Some("a"));
    assert_eq!(feeds[1].title.as_deref(), Some("b"));
    assert_eq!(feeds[2].title.as_deref(), Some("c"));
}

#[test]
fn batch_returns_first_error_by_position() {
    let results = vec![
        Ok(feed("https://a.example/", "a")),
        Err(FetchFeedError::Fetch("unreachable".to_string())),
        Err(FetchFeedError::ResponseLimitExceed),
    ];
    match collect_in_order(&results) {
        Err(FetchFeedError::Fetch(m)) => assert_eq!(m, "unreachable"),
        other => panic!("unexpected {other:?}"),
    }
}

#[test]
fn batch_of_nothing_is_empty() {
    let results: Vec<Result<Feed, FetchFeedError>> = vec![];
    assert_eq!(collect_in_order(&results).unwrap().len(), 0);
}

#[test]
fn body_over_ceiling_is_refused() {
    let mut buf = BodyBuffer::new(1024);
    let chunk = vec![b'x'; 500];
    let mut outcome = Ok(());
    let mut sent = 0;
    while sent < 2000 {
        outcome = buf.push_chunk(&chunk);
        if outcome.is_err() {
            break;
        }
        sent += chunk.len();
    }
    assert!(matches!(outcome, Err(FetchFeedError::ResponseLimitExceed)));
    assert_eq!(buf.len(), 1000);
    assert!(buf.len() <= 1024);
}

#[test]
fn body_at_ceiling_is_kept() {
    let mut buf = BodyBuffer::new(4);
    assert!(buf.push_chunk(b"ab").is_ok());
    assert!(buf.push_chunk(b"cd").is_ok());
    assert!(matches!(buf.push_chunk(b"e"), Err(FetchFeedError::ResponseLimitExceed)));
    assert_eq!(buf.into_bytes(), b"abcd".to_vec());
}

#[test]
fn second_fetch_within_ttl_is_a_hit() {
    let mut cache = FeedCache::new(config(1 << 20, HOUR));
    let u = url("https://blog.example/feed.xml");
    assert!(matches!(cache.begin_fetch(&u, 0), Lookup::Fetch));
    let first = cache.complete_fetch(&u, Ok(feed(u.as_str(), "blog")), 0).unwrap();
    match cache.begin_fetch(&u, HOUR - 1) {
        Lookup::Hit(f) => {
            assert_eq!(f.title, first.title);
            assert_eq!(f.url, first.url);
        }
        other => panic!("expected a hit, got {other:?}"),
    }
}

#[test]
fn fetch_after_ttl_goes_to_network_and_refreshes() {
    let mut cache = FeedCache::new(config(1 << 20, HOUR));
    let u = url("https://blog.example/feed.xml");
    assert!(matches!(cache.begin_fetch(&u, 0), Lookup::Fetch));
    cache.complete_fetch(&u, Ok(feed(u.as_str(), "old")), 0).unwrap();
    assert!(matches!(cache.begin_fetch(&u, HOUR), Lookup::Fetch));
    cache.complete_fetch(&u, Ok(feed(u.as_str(), "new")), HOUR).unwrap();
    assert_eq!(cache.len(), 1);
    match cache.lookup(&u, 2 * HOUR - 1) {
        Some(f) => assert_eq!(f.title.as_deref(), Some("new")),
        None => panic!("refreshed entry should be live"),
    }
    assert!(cache.lookup(&u, 2 * HOUR).is_none());
}

#[test]
fn insertion_evicts_to_stay_within_budget() {
    let mut cache = FeedCache::new(config(100, HOUR));
    let a = url("https://a.example/");
    let b = url("https://b.example/");
    cache.insert_with_size(a.clone(), feed(a.as_str(), "a"), 60, 0);
    assert_eq!(cache.cached_bytes(), 60);
    cache.insert_with_size(b.clone(), feed(b.as_str(), "b"), 60, 1);
    assert_eq!(cache.cached_bytes(), 60);
    assert!(cache.lookup(&a, 1).is_none());
    assert!(cache.lookup(&b, 1).is_some());
}

#[test]
fn expired_row_stays_while_there_is_room() {
    let mut cache = FeedCache::new(config(100, 10));
    let a = url("https://a.example/");
    let b = url("https://b.example/");
    cache.insert_with_size(a.clone(), feed(a.as_str(), "a"), 30, 0);
    cache.insert_with_size(b.clone(), feed(b.as_str(), "b"), 30, 20);
    assert_eq!(cache.len(), 2);
    assert!(cache.position(&a).is_some());
    assert!(cache.lookup(&a, 20).is_none());
    assert_eq!(cache.cached_bytes(), 60);
}

#[test]
fn eviction_takes_expired_then_oldest() {
    let mut cache = FeedCache::new(config(100, 10));
    let a = url("https://a.example/");
    let b = url("https://b.example/");
    let c = url("https://c.example/");
    let d = url("https://d.example/");
    cache.insert_with_size(a.clone(), feed(a.as_str(), "a"), 30, 0);
    cache.insert_with_size(b.clone(), feed(b.as_str(), "b"), 30, 5);
    cache.insert_with_size(c.clone(), feed(c.as_str(), "c"), 30, 6);
    // at 12, `a` has expired; dropping it frees enough room
    cache.insert_with_size(d.clone(), feed(d.as_str(), "d"), 40, 12);
    assert_eq!(cache.len(), 3);
    assert!(cache.position(&a).is_none());
    assert!(cache.lookup(&b, 12).is_some());
    assert!(cache.lookup(&c, 12).is_some());
    assert_eq!(cache.cached_bytes(), 100);
    // now `b` is the oldest live row and goes first
    let e = url("https://e.example/");
    cache.insert_with_size(e.clone(), feed(e.as_str(), "e"), 20, 13);
    assert!(cache.position(&b).is_none());
    assert!(cache.position(&c).is_some());
    assert_eq!(cache.cached_bytes(), 90);
}

#[test]
fn oversized_feed_is_not_stored() {
    let mut cache = FeedCache::new(config(100, HOUR));
    let a = url("https://a.example/");
    let b = url("https://b.example/");
    cache.insert_with_size(a.clone(), feed(a.as_str(), "a"), 50, 0);
    cache.insert_with_size(b.clone(), feed(b.as_str(), "b"), 101, 1);
    assert!(cache.position(&b).is_none());
    assert!(cache.lookup(&a, 1).is_some());
    assert_eq!(cache.cached_bytes(), 50);
}

#[test]
fn concurrent_requests_share_one_fetch() {
    let mut cache = FeedCache::new(config(1 << 20, HOUR));
    let u = url("https://blog.example/feed.xml");
    let mut fetches = 0;
    let mut waits = 0;
    for _ in 0..5 {
        match cache.begin_fetch(&u, 0) {
            Lookup::Fetch => fetches += 1,
            Lookup::Wait => waits += 1,
            Lookup::Hit(_) => panic!("nothing cached yet"),
        }
    }
    assert_eq!(fetches, 1);
    assert_eq!(waits, 4);
    assert!(cache.is_pending(&u));
    cache.complete_fetch(&u, Ok(feed(u.as_str(), "blog")), 1).unwrap();
    assert!(!cache.is_pending(&u));
    assert!(matches!(cache.begin_fetch(&u, 2), Lookup::Hit(_)));
}

#[test]
fn failed_fetch_is_not_cached() {
    let mut cache = FeedCache::new(config(1 << 20, HOUR));
    let u = url("https://down.example/feed.xml");
    assert!(matches!(cache.begin_fetch(&u, 0), Lookup::Fetch));
    let r = cache.complete_fetch(&u, Err(FetchFeedError::Fetch("503".to_string())), 0);
    assert!(matches!(r, Err(FetchFeedError::Fetch(_))));
    assert_eq!(cache.len(), 0);
    assert!(cache.position(&u).is_none());
    assert!(matches!(cache.begin_fetch(&u, 1), Lookup::Fetch));
}

#[test]
fn approx_size_counts_text_and_parts() {
    let mut f = feed("https://a.example/", "abc");
    f.links.push(Link {
        href: "https://a.example/x".to_string(),
        rel: Some("alternate".to_string()),
        media_type: None,
        title: None,
    });
    f.entries.push(EntryMeta {
        title: Some("héllo".to_string()),
        published: Some(1),
        updated: None,
        summary: None,
    });
    f.authors.push("ann".to_string());
    // 256 + 18 + 3 + (96 + 19 + 9) + (96 + 6) + (24 + 3)
    assert_eq!(f.approx_size(), 530);
}

#[test]
fn insert_accounts_structural_size() {
    let mut cache = FeedCache::new(config(1 << 20, HOUR));
    let u = url("https://a.example/");
    let f = feed(u.as_str(), "abc");
    let size = f.approx_size();
    cache.insert(u.clone(), f, 0);
    assert_eq!(cache.cached_bytes(), size);
    assert_eq!(size, 256 + 18 + 3);
}

#[test]
fn malformed_json_is_json_format() {
    let svc = FeedService::new("test-agent", 1024);
    let r = parse_body(&svc, url("https://j.example/feed.json"), b"{ \"version\": ");
    assert!(matches!(r, Err(FetchFeedError::JsonFormat(_))), "{r:?}");
}

#[test]
fn unsupported_json_version_is_reported() {
    let svc = FeedService::new("test-agent", 1024);
    let doc = br#"{"version": "https://jsonfeed.org/version/9", "title": "t", "items": []}"#;
    match parse_body(&svc, url("https://j.example/feed.json"), doc) {
        Err(FetchFeedError::JsonUnsupportedVersion(v)) => {
            assert_eq!(v, "https://jsonfeed.org/version/9")
        }
        other => panic!("unexpected {other:?}"),
    }
}

#[test]
fn malformed_xml_is_rejected() {
    let svc = FeedService::new("test-agent", 1024);
    let r = parse_body(&svc, url("https://x.example/rss"), b"<rss version=\"2.0\"><channel><title>a</tit");
    assert!(
        matches!(r, Err(FetchFeedError::XmlFormat(_)) | Err(FetchFeedError::InvalidFeed(_))),
        "{r:?}"
    );
}

#[test]
fn unknown_document_is_invalid_feed() {
    let svc = FeedService::new("test-agent", 1024);
    let r = parse_body(&svc, url("https://x.example/rss"), b"plain text");
    assert!(matches!(r, Err(FetchFeedError::InvalidFeed(_))), "{r:?}");
}

#[test]
fn rss_document_is_parsed() {
    let svc = FeedService::new("test-agent", 1 << 20);
    let doc = br#"<?xml version="1.0"?>
<rss version="2.0"><channel>
<title>Example</title>
<link>https://www.example.com/</link>
<description>About things</description>
<item><title>First</title><link>/posts/1</link><description>Hi</description></item>
</channel></rss>"#;
    let f = parse_body(&svc, url("https://www.example.com/rss.xml"), doc).unwrap();
    assert_eq!(f.kind, Some(synd_feed::types::FeedType::RSS2));
    assert_eq!(f.title.as_deref(), Some("Example"));
    assert_eq!(f.url, "https://www.example.com/rss.xml");
    assert_eq!(f.website_url.as_deref(), Some("https://www.example.com/"));
    assert_eq!(f.description.as_deref(), Some("About things"));
    assert_eq!(f.entries.len(), 1);
    assert_eq!(f.entries[0].title.as_deref(), Some("First"));
    assert_eq!(f.entries[0].summary.as_deref(), Some("Hi"));
}

#[test]
fn parsed_document_becomes_feed() {
    let svc = FeedService::new("test-agent", 1024);
    let doc = ParsedDocument {
        kind: FeedType::Atom,
        title: Some("T".to_string()),
        updated: Some(42),
        links: vec![Link { href: "https://s.example/".to_string(), rel: None, media_type: None, title: None }],
        description: Some("D".to_string()),
        generator: Some("G".to_string()),
        entries: vec![],
        authors: vec!["ann".to_string()],
    };
    let f = svc.parse(url("https://s.example/atom"), Ok(doc)).unwrap();
    assert_eq!(f.kind, Some(FeedType::Atom));
    assert_eq!(f.title.as_deref(), Some("T"));
    assert_eq!(f.url, "https://s.example/atom");
    assert_eq!(f.updated, Some(42));
    assert_eq!(f.website_url.as_deref(), Some("https://s.example/"));
    assert_eq!(f.generator.as_deref(), Some("G"));
    assert_eq!(f.authors, vec!["ann".to_string()]);
    let e = svc.parse(url("https://s.example/atom"), Err(ParseFailure::UnsupportedVersion("v2".into())));
    assert!(matches!(e, Err(FetchFeedError::JsonUnsupportedVersion(v)) if v == "v2"));
}

#[test]
fn parse_failures_map_to_taxonomy() {
    assert!(matches!(
        FetchFeedError::from_parse_failure(ParseFailure::Structure("x".into())),
        FetchFeedError::InvalidFeed(_)
    ));
    assert!(matches!(
        FetchFeedError::from_parse_failure(ParseFailure::Io("x".into())),
        FetchFeedError::Io(_)
    ));
    assert!(matches!(
        FetchFeedError::from_parse_failure(ParseFailure::Json("x".into())),
        FetchFeedError::JsonFormat(_)
    ));
    match FetchFeedError::from_parse_failure(ParseFailure::UnsupportedVersion("v9".into())) {
        FetchFeedError::JsonUnsupportedVersion(v) => assert_eq!(v, "v9"),
        other => panic!("unexpected {other:?}"),
    }
    assert!(matches!(
        FetchFeedError::from_parse_failure(ParseFailure::Xml("x".into())),
        FetchFeedError::XmlFormat(_)
    ));
    assert!(matches!(
        FetchFeedError::from_parse_failure(ParseFailure::Aborted("x".into())),
        FetchFeedError::Other(_)
    ));
}

#[test]
fn feed_url_is_normalized() {
    let u = FeedUrl::parse("HTTPS://Example.COM").unwrap();
    assert_eq!(u.as_str(), "https://example.com/");
    assert!(u.same_as(&FeedUrl::parse("https://example.com/").unwrap()));
}

#[test]
fn relative_url_is_rejected() {
    let e = FeedUrl::parse("/feed.xml").unwrap_err();
    assert_eq!(e.input, "/feed.xml");
}

#[test]
fn default_cache_config() {
    let c = CacheConfig::default();
    assert_eq!(c.max_cache_size, 100 * 1024 * 1024);
    assert_eq!(c.time_to_live, 3 * HOUR);
}

#[test]
fn feed_clone_is_equal() {
    let mut f = feed("https://a.example/", "a");
    f.authors.push("x".to_string());
    let g = f.clone();
    assert_eq!(g.title, f.title);
    assert_eq!(g.authors, f.authors);
}
