use synd_feed::mutation::subscribe_feed;
use synd_feed::types::{parse_time, EntryMeta, Feed, Link};

#[test]
fn rfc3339_time_is_read() {
    assert_eq!(parse_time(&Some("1970-01-01T00:01:00Z".to_string())), Some(60));
    assert_eq!(parse_time(&Some("2024-03-01T09:00:00+09:00".to_string())), Some(1709251200));
    assert_eq!(parse_time(&Some("yesterday".to_string())), None);
    assert_eq!(parse_time(&None), None);
}

fn subscribed_feed() -> subscribe_feed::Feed {
    subscribe_feed::Feed {
        id: "1".to_string(),
        title: Some("Blog".to_string()),
        url: "https://blog.example/feed".to_string(),
        updated: Some("1970-01-01T00:00:10Z".to_string()),
        website_url: Some("https://blog.example/".to_string()),
        description: None,
        entries: subscribe_feed::FeedEntries {
            nodes: vec![subscribe_feed::EntryMeta {
                title: Some("post".to_string()),
                published: Some("1970-01-01T00:00:20Z".to_string()),
                summary: Some("s".to_string()),
            }],
        },
        links: subscribe_feed::FeedLinks {
            nodes: vec![subscribe_feed::Link {
                href: "https://blog.example/".to_string(),
                rel: Some("alternate".to_string()),
                media_type: None,
                title: None,
            }],
        },
    }
}

#[test]
fn subscribed_feed_is_converted() {
    let f = Feed::from_subscribed(subscribed_feed());
    assert_eq!(f.title.as_deref(), Some("Blog"));
    assert_eq!(f.url, "https://blog.example/feed");
    assert_eq!(f.updated, Some(10));
    assert_eq!(f.links.len(), 1);
    assert_eq!(f.links[0].rel.as_deref(), Some("alternate"));
    assert_eq!(f.entries.len(), 1);
    assert_eq!(f.entries[0].published, Some(20));
    assert_eq!(f.entries[0].summary.as_deref(), Some("s"));
}

#[test]
fn link_and_entry_from_api_shapes() {
    let l = Link::from(subscribe_feed::Link {
        href: "h".to_string(),
        rel: None,
        media_type: Some("text/html".to_string()),
        title: Some("t".to_string()),
    });
    assert_eq!(l.href, "h");
    assert_eq!(l.media_type.as_deref(), Some("text/html"));
    let e = EntryMeta::from(subscribe_feed::EntryMeta {
        title: None,
        published: Some("1970-01-01T00:00:05Z".to_string()),
        summary: None,
    });
    assert_eq!(e.published, Some(5));
    assert_eq!(e.updated, None);
}
