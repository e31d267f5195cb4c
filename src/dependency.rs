use vstd::prelude::*;
use crate::cache::{CacheConfig, FeedCache, Millis};
use crate::parser::FeedService;

verus! {

/// Ceiling on a fetched response body: 10 MiB.
pub const RESPONSE_LIMIT: usize = 10485760;

/// Memory budget of the feed cache: 100 MiB.
pub const FEED_CACHE_SIZE: usize = 104857600;

/// Time to live of a cached feed: three hours.
pub const FEED_CACHE_TTL: Millis = 10800000;

/// What the server composes once at start: the fetcher and its cache.
#[derive(Debug)]
pub struct Dependency {
    pub feed_service: FeedService,
    pub feed_cache: FeedCache,
}

impl Dependency {
    pub fn new(user_agent: &str) -> (r: Dependency)
        ensures
            r.feed_service.user_agent@ == user_agent@,
            r.feed_service.buff_limit == RESPONSE_LIMIT,
            r.feed_cache.wf(),
            r.feed_cache.config_spec().max_cache_size == FEED_CACHE_SIZE,
            r.feed_cache.config_spec().time_to_live == FEED_CACHE_TTL,
            r.feed_cache.slots().len() == 0,
            r.feed_cache.pending().len() == 0,
    {
        let feed_service = FeedService::new(user_agent, RESPONSE_LIMIT);
        let config = CacheConfig::default().with_max_cache_size(FEED_CACHE_SIZE).with_time_to_live(
            FEED_CACHE_TTL,
        );
        Dependency { feed_service, feed_cache: FeedCache::new(config) }
    }
}

} // verus!
