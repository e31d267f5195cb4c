use vstd::prelude::*;
use crate::error::FetchFeedError;

verus! {

/// One step of gathering: `chunk` appended to `body`, or `None` when that
/// would pass `limit`.
pub open spec fn push_step(limit: usize, body: Seq<u8>, chunk: Seq<u8>) -> Option<Seq<u8>> {
    if body.len() + chunk.len() > limit {
        None
    } else {
        Some(body + chunk)
    }
}

/// Gathering `chunks` in order from an empty body, stopping at the first
/// refusal: the body gathered, or `None` if a chunk was refused.
pub open spec fn gathered(limit: usize, chunks: Seq<Seq<u8>>) -> Option<Seq<u8>>
    decreases chunks.len(),
{
    if chunks.len() == 0 {
        Some(Seq::empty())
    } else {
        match gathered(limit, chunks.drop_last()) {
            Some(body) => push_step(limit, body, chunks.last()),
            None => None,
        }
    }
}

/// The chunks laid end to end.
pub open spec fn joined(chunks: Seq<Seq<u8>>) -> Seq<u8>
    decreases chunks.len(),
{
    if chunks.len() == 0 {
        Seq::empty()
    } else {
        joined(chunks.drop_last()) + chunks.last()
    }
}

/// Size ceiling: whatever the chunking, gathering a body refuses it exactly
/// when the whole body is longer than the ceiling, and otherwise keeps all of
/// it; a kept body never exceeds the ceiling.
pub proof fn lemma_ceiling(limit: usize, chunks: Seq<Seq<u8>>)
    ensures
        gathered(limit, chunks) is None == (joined(chunks).len() > limit),
        gathered(limit, chunks) matches Some(b) ==> b == joined(chunks) && b.len() <= limit,
    decreases chunks.len(),
{
    if chunks.len() > 0 {
        lemma_ceiling(limit, chunks.drop_last());
    }
}

/// A response body gathered chunk by chunk under a byte ceiling: a chunk that
/// would take the body past the ceiling is refused and nothing more is kept.
#[derive(Debug)]
pub struct BodyBuffer {
    limit: usize,
    bytes: Vec<u8>,
}

impl BodyBuffer {
    pub closed spec fn limit_spec(&self) -> usize {
        self.limit
    }

    /// The bytes gathered so far.
    pub closed spec fn bytes_spec(&self) -> Seq<u8> {
        self.bytes@
    }

    /// The body never exceeds the ceiling.
    pub open spec fn wf(&self) -> bool {
        self.bytes_spec().len() <= self.limit_spec()
    }

    pub fn new(limit: usize) -> (r: BodyBuffer)
        ensures
            r.wf(),
            r.limit_spec() == limit,
            r.bytes_spec() == Seq::<u8>::empty(),
    {
        BodyBuffer { limit, bytes: Vec::new() }
    }

    pub fn limit(&self) -> (r: usize)
        ensures
            r == self.limit_spec(),
    {
        self.limit
    }

    /// Number of bytes gathered so far.
    pub fn len(&self) -> (r: usize)
        ensures
            r == self.bytes_spec().len(),
    {
        self.bytes.len()
    }

    /// Appends `chunk` if the body stays within the ceiling; otherwise fails
    /// with `ResponseLimitExceed` and keeps the body as it was.
    pub fn push_chunk(&mut self, chunk: &[u8]) -> (r: Result<(), FetchFeedError>)
        requires
            old(self).wf(),
        ensures
            final(self).wf(),
            final(self).limit_spec() == old(self).limit_spec(),
            r is Ok == push_step(old(self).limit_spec(), old(self).bytes_spec(), chunk@) is Some,
            r is Ok ==> Some(final(self).bytes_spec()) == push_step(
                old(self).limit_spec(),
                old(self).bytes_spec(),
                chunk@,
            ),
            old(self).bytes_spec().len() + chunk@.len() > old(self).limit_spec() ==> {
                &&& r == Err::<(), FetchFeedError>(FetchFeedError::ResponseLimitExceed)
                &&& final(self).bytes_spec() == old(self).bytes_spec()
            },
            old(self).bytes_spec().len() + chunk@.len() <= old(self).limit_spec() ==> {
                &&& r is Ok
                &&& final(self).bytes_spec() == old(self).bytes_spec() + chunk@
            },
    {
        if chunk.len() > self.limit - self.bytes.len() {
            return Err(FetchFeedError::ResponseLimitExceed);
        }
        let ghost before = self.bytes@;
        let mut i: usize = 0;
        while i < chunk.len()
            invariant
                i <= chunk@.len(),
                self.limit == old(self).limit,
                before.len() + chunk@.len() <= self.limit,
                self.bytes@ == before + chunk@.take(i as int),
            decreases chunk@.len() - i,
        {
            self.bytes.push(chunk[i]);
            assert(chunk@.take(i + 1) =~= chunk@.take(i as int).push(chunk@[i as int]));
            i = i + 1;
        }
        assert(chunk@.take(i as int) =~= chunk@);
        Ok(())
    }

    /// The gathered body.
    pub fn into_bytes(self) -> (r: Vec<u8>)
        ensures
            r@ == self.bytes_spec(),
    {
        self.bytes
    }
}

} // verus!
