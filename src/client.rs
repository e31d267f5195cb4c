//! Decisions on the subscription API's answers; the requests themselves are
//! sent by the application.
use vstd::prelude::*;
use crate::mutation::{subscribe_feed, unsubscribe_feed};
use crate::types::{subscribed_from, Feed};

verus! {

/// Why an API answer carried no data.
#[derive(Debug, Clone, Copy, PartialEq, Eq, Structural)]
pub enum ApiFailure {
    /// The answer listed errors.
    Errors,
    /// The answer had neither data nor errors.
    Unexpected,
}

/// The data of an API answer: listed errors win over data; an answer with
/// neither is unexpected.
pub fn response_outcome<T>(data: Option<T>, error_count: usize) -> (r: Result<T, ApiFailure>)
    ensures
        error_count > 0 ==> r == Err::<T, ApiFailure>(ApiFailure::Errors),
        error_count == 0 && data is None ==> r == Err::<T, ApiFailure>(ApiFailure::Unexpected),
        error_count == 0 && data is Some ==> r == Ok::<T, ApiFailure>(data->Some_0),
{
    if error_count > 0 {
        Err(ApiFailure::Errors)
    } else {
        match data {
            Some(d) => Ok(d),
            None => Err(ApiFailure::Unexpected),
        }
    }
}

/// The feed a subscription answer returned, or the status code it was
/// refused with.
pub fn subscribed_feed(answer: subscribe_feed::ResponseData) -> (r: Result<
    Feed,
    subscribe_feed::ResponseCode,
>)
    ensures
        match answer.subscribe_feed {
            subscribe_feed::SubscribeFeedSubscribeFeed::SubscribeFeedSuccess(s) => r matches Ok(
                f,
            ) && subscribed_from(f, s.feed),
            subscribe_feed::SubscribeFeedSubscribeFeed::SubscribeFeedError(e) => r
                == Err::<Feed, subscribe_feed::ResponseCode>(e.status.code),
        },
{
    match answer.subscribe_feed {
        subscribe_feed::SubscribeFeedSubscribeFeed::SubscribeFeedSuccess(s) => Ok(
            Feed::from_subscribed(s.feed),
        ),
        subscribe_feed::SubscribeFeedSubscribeFeed::SubscribeFeedError(e) => Err(e.status.code),
    }
}

/// Whether an unsubscription answer reports success, else its status code.
pub fn unsubscribed(answer: unsubscribe_feed::ResponseData) -> (r: Result<
    (),
    unsubscribe_feed::ResponseCode,
>)
    ensures
        match answer.unsubscribe_feed {
            unsubscribe_feed::UnsubscribeFeedUnsubscribeFeed::UnsubscribeFeedSuccess(_) => r is Ok,
            unsubscribe_feed::UnsubscribeFeedUnsubscribeFeed::UnsubscribeFeedError(e) => r == Err::<
                (),
                unsubscribe_feed::ResponseCode,
            >(e.status.code),
        },
{
    match answer.unsubscribe_feed {
        unsubscribe_feed::UnsubscribeFeedUnsubscribeFeed::UnsubscribeFeedSuccess(_) => Ok(()),
        unsubscribe_feed::UnsubscribeFeedUnsubscribeFeed::UnsubscribeFeedError(e) => Err(
            e.status.code,
        ),
    }
}

} // verus!
