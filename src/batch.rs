use vstd::prelude::*;
use crate::error::FetchFeedError;
use crate::types::Feed;

verus! {

/// The outcome of a batch whose per-URL outcomes are `results`, in input
/// order: every feed when all succeeded, else the first error by position.
pub open spec fn batch_ok(results: Seq<Result<Feed, FetchFeedError>>) -> bool {
    forall|i: int| 0 <= i < results.len() ==> (#[trigger] results[i]) is Ok
}

/// Fans the per-URL outcomes of a batch back in. The result is all-or-nothing:
/// `Ok` with the feeds in input order when every fetch succeeded, else the
/// error of the first failed fetch by input position.
pub fn collect_in_order(results: &Vec<Result<Feed, FetchFeedError>>) -> (r: Result<
    Vec<Feed>,
    FetchFeedError,
>)
    ensures
        r is Ok == batch_ok(results@),
        r matches Ok(feeds) ==> {
            &&& feeds@.len() == results@.len()
            &&& forall|i: int|
                0 <= i < results@.len() ==> (#[trigger] feeds@[i])@ == results@[i]->Ok_0@
        },
        r matches Err(e) ==> exists|i: int|
            0 <= i < results@.len() && results@[i] == Err::<Feed, FetchFeedError>(e) && forall|
                j: int,
            |
                0 <= j < i ==> (#[trigger] results@[j]) is Ok,
{
    let mut feeds: Vec<Feed> = Vec::new();
    let mut i: usize = 0;
    while i < results.len()
        invariant
            i <= results@.len(),
            feeds@.len() == i,
            forall|j: int| 0 <= j < i ==> (#[trigger] results@[j]) is Ok,
            forall|j: int| 0 <= j < i ==> (#[trigger] feeds@[j])@ == results@[j]->Ok_0@,
        decreases results@.len() - i,
    {
        match &results[i] {
            Ok(f) => {
                feeds.push(f.clone());
            },
            Err(e) => {
                let e2 = e.clone();
                return Err(e2);
            },
        }
        i = i + 1;
    }
    Ok(feeds)
}

} // verus!
