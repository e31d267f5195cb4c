//! Requests and responses of the subscription API's mutations.
use vstd::prelude::*;

pub mod subscribe_feed;
pub mod unsubscribe_feed;

verus! {

/// The mutation that subscribes the caller to a feed.
#[derive(Debug)]
pub struct SubscribeFeed;

/// The mutation that cancels a subscription.
#[derive(Debug)]
pub struct UnsubscribeFeed;

} // verus!
