use synd_feed::credential::Cache;
use synd_feed::dependency::Dependency;
use synd_feed::mutation::subscribe_feed;
use synd_feed::mutation::unsubscribe_feed;
use synd_feed::ui::{default_category, Category};

#[test]
fn response_code_round_trip() {
    for text in ["OK", "UNAUTHORIZED", "INTERNAL_ERROR", "TEAPOT"] {
        let code = subscribe_feed::ResponseCode::from_code(text.to_string());
        assert_eq!(code.as_code(), text);
        let code = unsubscribe_feed::ResponseCode::from_code(text.to_string());
        assert_eq!(code.as_code(), text);
    }
    assert!(matches!(
        subscribe_feed::ResponseCode::from_code("OK".to_string()),
        subscribe_feed::ResponseCode::OK
    ));
    assert!(matches!(
        unsubscribe_feed::ResponseCode::from_code("nope".to_string()),
        unsubscribe_feed::ResponseCode::Other(_)
    ));
}

#[test]
fn credential_file_is_inside_cache_dir() {
    assert_eq!(Cache::new("/tmp/synd".to_string()).credential_file(), "/tmp/synd/credential.json");
    assert_eq!(Cache::new("/tmp/synd/".to_string()).credential_file(), "/tmp/synd/credential.json");
    assert_eq!(Cache::new(String::new()).credential_file(), "credential.json");
}

#[test]
fn default_category_is_named_default() {
    assert_eq!(default_category().as_str(), "default");
    assert!(Category::new("").is_none());
    assert_eq!(Category::new("rust").unwrap().as_str(), "rust");
}

#[test]
fn dependency_uses_server_budgets() {
    let d = Dependency::new("synd");
    assert_eq!(d.feed_service.buff_limit, 10 * 1024 * 1024);
    assert_eq!(d.feed_cache.config().max_cache_size, 100 * 1024 * 1024);
    assert_eq!(d.feed_cache.config().time_to_live, 3 * 60 * 60 * 1000);
    assert_eq!(d.feed_cache.len(), 0);
}

use synd_feed::client::{response_outcome, subscribed_feed, unsubscribed, ApiFailure};

#[test]
fn api_errors_win_over_data() {
    assert_eq!(response_outcome(Some(1), 2), Err(ApiFailure::Errors));
    assert_eq!(response_outcome::<i32>(None, 0), Err(ApiFailure::Unexpected));
    assert_eq!(response_outcome(Some(7), 0), Ok(7));
}

#[test]
fn subscription_answers_are_decided() {
    let refused = subscribe_feed::ResponseData {
        subscribe_feed: subscribe_feed::SubscribeFeedSubscribeFeed::SubscribeFeedError(
            subscribe_feed::SubscribeFeedSubscribeFeedOnSubscribeFeedError {
                status: subscribe_feed::SubscribeFeedSubscribeFeedOnSubscribeFeedErrorStatus {
                    code: subscribe_feed::ResponseCode::UNAUTHORIZED,
                },
            },
        ),
    };
    assert!(matches!(subscribed_feed(refused), Err(subscribe_feed::ResponseCode::UNAUTHORIZED)));
    let accepted = subscribe_feed::ResponseData {
        subscribe_feed: subscribe_feed::SubscribeFeedSubscribeFeed::SubscribeFeedSuccess(
            subscribe_feed::SubscribeFeedSubscribeFeedOnSubscribeFeedSuccess {
                feed: subscribe_feed::Feed {
                    id: "1".to_string(),
                    title: Some("t".to_string()),
                    url: "https://a.example/".to_string(),
                    updated: None,
                    website_url: None,
                    description: None,
                    entries: subscribe_feed::FeedEntries { nodes: vec![] },
                    links: subscribe_feed::FeedLinks { nodes: vec![] },
                },
                status: subscribe_feed::SubscribeFeedSubscribeFeedOnSubscribeFeedSuccessStatus {
                    code: subscribe_feed::ResponseCode::OK,
                },
            },
        ),
    };
    let f = subscribed_feed(accepted).unwrap();
    assert_eq!(f.url, "https://a.example/");
    let gone = unsubscribe_feed::ResponseData {
        unsubscribe_feed: unsubscribe_feed::UnsubscribeFeedUnsubscribeFeed::UnsubscribeFeedSuccess(
            unsubscribe_feed::UnsubscribeFeedUnsubscribeFeedOnUnsubscribeFeedSuccess {
                status: unsubscribe_feed::UnsubscribeFeedUnsubscribeFeedOnUnsubscribeFeedSuccessStatus {
                    code: unsubscribe_feed::ResponseCode::OK,
                },
            },
        ),
    };
    assert!(unsubscribed(gone).is_ok());
}
