//! The streaming bridge: the state machine that turns the chunks of a
//! server-sent-events connection into an ordered sequence of typed
//! outcomes, ending in exactly one end-of-stream sentinel.
//!
//! The producer side classifies each inbound chunk and pushes its
//! outcome into an unbounded queue; the consumer side drains the queue
//! at its own pace.  The queue itself is `deadqueue`'s unlimited queue,
//! trusted to deliver pushed items in order; every decision — when a
//! chunk ends the stream, what is pushed, when the sentinel follows —
//! is verified against the ghost log of pushed items.

use std::sync::Arc;

use vstd::prelude::*;

use crate::error::{Error, ErrorView};
use crate::json::parsed_json;
use crate::types::generate_content::{
    spec_response_from, GenerateContentResponse, GenerateContentResponseResult,
    GenerateContentResponseResultView, GenerateContentResponseView,
};

verus! {

/// One item of the stream queue: an outcome, or the sentinel (`None`)
/// that marks the end of the stream.
pub type StreamItem = Option<Result<GenerateContentResponseResult, Error>>;

/// Mathematical image of [`StreamItem`].
pub type StreamItemView = Option<Result<GenerateContentResponseResultView, ErrorView>>;

/// The unlimited queue of `deadqueue`, opaque to this library; items go
/// in through [`queue_push`] and come out through [`queue_try_pop`].
#[verifier::external_type_specification]
#[verifier::external_body]
#[verifier::reject_recursive_types(T)]
pub struct ExQueue<T>(deadqueue::unlimited::Queue<T>);

/// Relies on `deadqueue::unlimited::Queue::new`: a fresh, empty queue.
#[verifier::external_body]
fn queue_new() -> deadqueue::unlimited::Queue<StreamItem> {
    deadqueue::unlimited::Queue::new()
}

/// Relies on `deadqueue::unlimited::Queue::push`: appends one item; the
/// queue is unbounded, so a push never blocks and never fails.  Items
/// are handed to the consumer in push order.
#[verifier::external_body]
fn queue_push(q: &Arc<deadqueue::unlimited::Queue<StreamItem>>, item: StreamItem) {
    q.push(item);
}

/// Relies on `deadqueue::unlimited::Queue::try_pop`: takes the oldest
/// item when one is ready.  What comes back depends on what the
/// producer has pushed so far, so nothing more is promised of it.
#[verifier::external_body]
fn queue_try_pop(q: &Arc<deadqueue::unlimited::Queue<StreamItem>>) -> Option<StreamItem> {
    q.try_pop()
}

/// Relies on `Arc::clone`: a second handle to the same queue.
#[verifier::external_body]
fn queue_share(
    q: &Arc<deadqueue::unlimited::Queue<StreamItem>>,
) -> Arc<deadqueue::unlimited::Queue<StreamItem>> {
    Arc::clone(q)
}

/// What one chunk's text classifies to: the decoded success payload, the
/// service error it carried, or a decode failure holding the raw text.
pub open spec fn spec_chunk_outcome(s: Seq<char>) -> Result<
    GenerateContentResponseResultView,
    ErrorView,
> {
    match parsed_json(s) {
        Some(j) => match spec_response_from(j) {
            Some(GenerateContentResponseView::Success(res)) => Ok(res),
            Some(GenerateContentResponseView::Failure(err)) => Err(
                ErrorView::VertexError(err.error),
            ),
            None => Err(ErrorView::Serde(s)),
        },
        None => Err(ErrorView::Serde(s)),
    }
}

/// Whether an outcome ends the stream: every error does, and a success
/// does exactly when its first candidate carries a finish reason.
pub open spec fn spec_chunk_terminal(
    r: Result<GenerateContentResponseResultView, ErrorView>,
) -> bool {
    match r {
        Ok(res) => res.candidates.len() > 0 && res.candidates[0].finish_reason is Some,
        Err(_) => true,
    }
}

/// Classifies one chunk: parse, discriminate, and flatten the envelope
/// into a single outcome.
pub fn classify_chunk(data: &str) -> (r: Result<GenerateContentResponseResult, Error>)
    ensures
        match r {
            Ok(res) => spec_chunk_outcome(data@) == Ok::<
                GenerateContentResponseResultView,
                ErrorView,
            >(res.deep_view()),
            Err(e) => spec_chunk_outcome(data@) == Err::<
                GenerateContentResponseResultView,
                ErrorView,
            >(e.deep_view()),
        },
{
    match GenerateContentResponse::from_text(data) {
        Ok(resp) => resp.into_result(),
        Err(e) => Err(e),
    }
}

/// Where a streaming call stands.
#[derive(Clone, Copy, Debug, PartialEq, Eq, Structural)]
pub enum StreamState {
    /// Chunks are still being accepted.
    Streaming,
    /// A terminal outcome was pushed, or the source ended; only the
    /// sentinel is still owed.
    Finished,
    /// The sentinel was pushed; nothing more will ever be.
    Closed,
}

/// The producer side of one streaming call: it owns the decisions about
/// what is pushed and when the stream ends.  The ghost log records every
/// pushed item in order.
pub struct StreamProducer {
    queue: Arc<deadqueue::unlimited::Queue<StreamItem>>,
    state: StreamState,
    log: Ghost<Seq<StreamItemView>>,
}

/// The consumer side of one streaming call.
pub struct StreamHandle {
    queue: Arc<deadqueue::unlimited::Queue<StreamItem>>,
    ended: bool,
}

/// What one call of `pop_next_ready` yields.
#[derive(Debug, PartialEq)]
pub enum PopNext {
    /// One outcome: a success chunk or a classified error.
    Item(Result<GenerateContentResponseResult, Error>),
    /// The stream is over; every later call answers the same.
    EndOfStream,
    /// Nothing is ready yet; the producer may still push.
    Pending,
}

impl StreamProducer {
    /// Where this call stands.
    pub closed spec fn state(&self) -> StreamState {
        self.state
    }

    /// Everything pushed so far, in order.
    pub closed spec fn log(&self) -> Seq<StreamItemView> {
        self.log@
    }

    /// The termination law of one streaming call: while the stream is
    /// open every pushed item is an outcome and only the latest may be
    /// terminal; once closed, the log is outcomes of which only the
    /// latest may be terminal, then exactly one sentinel at the end.
    #[verifier::type_invariant]
    pub closed spec fn wf(self) -> bool {
        match self.state {
            StreamState::Streaming => forall|i: int|
                0 <= i < self.log@.len() ==> (#[trigger] self.log@[i] matches Some(r)
                    && !spec_chunk_terminal(r)),
            StreamState::Finished => (forall|i: int|
                0 <= i < self.log@.len() ==> (#[trigger] self.log@[i]) is Some) && (forall|i: int|
                0 <= i < self.log@.len() - 1 ==> (#[trigger] self.log@[i] matches Some(r)
                    && !spec_chunk_terminal(r))),
            StreamState::Closed => self.log@.len() > 0 && self.log@.last() is None && (forall|
                i: int,
            |
                0 <= i < self.log@.len() - 1 ==> (#[trigger] self.log@[i]) is Some) && (forall|
                i: int,
            |
                0 <= i < self.log@.len() - 2 ==> (#[trigger] self.log@[i] matches Some(r)
                    && !spec_chunk_terminal(r))),
        }
    }

    /// States the termination law for this producer, so that callers can
    /// rely on it without seeing the private state.
    pub fn termination_law(&self)
        ensures
            self.state() == StreamState::Closed ==> self.log().len() > 0 && self.log().last()
                is None,
            self.state() != StreamState::Closed ==> forall|i: int|
                0 <= i < self.log().len() ==> (#[trigger] self.log()[i]) is Some,
            forall|i: int|
                0 <= i < self.log().len() - 1 ==> (#[trigger] self.log()[i]) is Some,
    {
        proof {
            use_type_invariant(self);
        }
    }

    /// Classifies one inbound chunk, pushes its outcome, and reports
    /// whether the stream is over: every error ends it, and a success
    /// ends it exactly when its first candidate carries a finish reason.
    pub fn on_message(&mut self, data: &str) -> (done: bool)
        requires
            old(self).state() == StreamState::Streaming,
        ensures
            final(self).log() == old(self).log().push(Some(spec_chunk_outcome(data@))),
            done == spec_chunk_terminal(spec_chunk_outcome(data@)),
            final(self).state() == if done {
                StreamState::Finished
            } else {
                StreamState::Streaming
            },
    {
        proof {
            use_type_invariant(&*self);
        }
        let outcome = classify_chunk(data);
        let done = match &outcome {
            Ok(res) => res.candidates.len() > 0 && {
                let c0 = &res.candidates[0];
                c0.finish_reason.is_some()
            },
            Err(_) => true,
        };
        if done {
            self.state = StreamState::Finished;
        }
        proof {
            self.log@ = self.log@.push(Some(spec_chunk_outcome(data@)));
        }
        queue_push(&self.queue, Some(outcome));
        done
    }

    /// Pushes one error outcome — a failed token acquisition, a failed
    /// connection, a transport fault — and ends the stream.
    pub fn fail(&mut self, e: Error)
        requires
            old(self).state() == StreamState::Streaming,
        ensures
            final(self).log() == old(self).log().push(
                Some(Err(e.deep_view())),
            ),
            final(self).state() == StreamState::Finished,
    {
        proof {
            use_type_invariant(&*self);
        }
        self.state = StreamState::Finished;
        proof {
            self.log@ = self.log@.push(Some(Err(e.deep_view())));
        }
        queue_push(&self.queue, Some(Err(e)));
    }

    /// Notes that the connection ended without a terminal chunk; nothing
    /// is pushed, and only the sentinel is still owed.
    pub fn on_source_end(&mut self)
        requires
            old(self).state() == StreamState::Streaming,
        ensures
            final(self).log() == old(self).log(),
            final(self).state() == StreamState::Finished,
    {
        proof {
            use_type_invariant(&*self);
        }
        self.state = StreamState::Finished;
    }

    /// Pushes the single end-of-stream sentinel and closes the call.
    pub fn finish(&mut self)
        requires
            old(self).state() != StreamState::Closed,
        ensures
            final(self).log() == old(self).log().push(None),
            final(self).state() == StreamState::Closed,
    {
        proof {
            use_type_invariant(&*self);
        }
        let q = queue_share(&self.queue);
        queue_push(&q, None);
        let ghost newlog: Seq<StreamItemView> = self.log@.push(None);
        *self = StreamProducer { queue: q, state: StreamState::Closed, log: Ghost(newlog) };
    }
}

/// Mathematical image of one chunk's outcome.
pub type ChunkOutcomeView = Result<GenerateContentResponseResultView, ErrorView>;

/// Everything a stream delivers when its chunks classify to `rs`, in
/// order: each outcome up to and including the first terminal one, then
/// exactly one sentinel.  A stream whose chunks run out without a
/// terminal outcome still ends in the one sentinel.
pub open spec fn spec_stream_log(rs: Seq<ChunkOutcomeView>) -> Seq<StreamItemView>
    decreases rs.len(),
{
    if rs.len() == 0 {
        seq![None]
    } else if spec_chunk_terminal(rs[0]) {
        seq![Some(rs[0]), None]
    } else {
        seq![Some(rs[0])] + spec_stream_log(rs.drop_first())
    }
}

/// Law: a streaming sequence of `n` chunks, all successes, of which only
/// the last carries a finish reason, delivers exactly `n` success
/// outcomes — one per chunk, in order — followed by one end-of-stream
/// sentinel; never `n + 1` outcomes.
pub proof fn lemma_stream_delivers_all(rs: Seq<ChunkOutcomeView>)
    requires
        rs.len() > 0,
        forall|i: int| 0 <= i < rs.len() - 1 ==> !spec_chunk_terminal(#[trigger] rs[i]),
        rs.last() is Ok,
        spec_chunk_terminal(rs.last()),
    ensures
        spec_stream_log(rs).len() == rs.len() + 1,
        forall|i: int| 0 <= i < rs.len() ==> spec_stream_log(rs)[i] == Some(rs[i]),
        forall|i: int| 0 <= i < rs.len() ==> (#[trigger] rs[i]) is Ok,
        spec_stream_log(rs).last() is None,
    decreases rs.len(),
{
    if rs.len() == 1 {
        assert(spec_stream_log(rs) =~= seq![Some(rs[0]), None]);
    } else {
        let rest = rs.drop_first();
        assert(rest.last() == rs.last());
        assert(forall|i: int|
            0 <= i < rest.len() - 1 ==> !spec_chunk_terminal(#[trigger] rest[i]));
        lemma_stream_delivers_all(rest);
        assert(!spec_chunk_terminal(rs[0]));
        assert(rs[0] is Ok);
        assert(spec_stream_log(rs) =~= seq![Some(rs[0])] + spec_stream_log(rest));
        assert forall|i: int| 0 <= i < rs.len() implies spec_stream_log(rs)[i] == Some(
            rs[i],
        ) by {
            if i > 0 {
                assert(spec_stream_log(rest)[i - 1] == Some(rest[i - 1]));
            }
        }
    }
}

/// Law: when a stream's chunk at position `k` is the first erroneous
/// one — malformed, or a structural error envelope — the delivery is the
/// `k` earlier outcomes in order, that one error outcome, then the
/// sentinel; chunks after position `k` are never delivered.
pub proof fn lemma_stream_stops_at_error(rs: Seq<ChunkOutcomeView>, k: int)
    requires
        0 <= k < rs.len(),
        forall|i: int| 0 <= i < k ==> !spec_chunk_terminal(#[trigger] rs[i]),
        rs[k] is Err,
    ensures
        spec_stream_log(rs).len() == k + 2,
        forall|i: int| 0 <= i <= k ==> spec_stream_log(rs)[i] == Some(rs[i]),
        spec_stream_log(rs)[k + 1] is None,
    decreases k,
{
    if k == 0 {
        assert(spec_chunk_terminal(rs[0]));
        assert(spec_stream_log(rs) =~= seq![Some(rs[0]), None]);
    } else {
        let rest = rs.drop_first();
        assert(forall|i: int| 0 <= i < k - 1 ==> !spec_chunk_terminal(#[trigger] rest[i]));
        assert(rest[k - 1] == rs[k]);
        lemma_stream_stops_at_error(rest, k - 1);
        assert(!spec_chunk_terminal(rs[0]));
        assert(spec_stream_log(rs) =~= seq![Some(rs[0])] + spec_stream_log(rest));
        assert forall|i: int| 0 <= i <= k implies spec_stream_log(rs)[i] == Some(rs[i]) by {
            if i > 0 {
                assert(spec_stream_log(rest)[i - 1] == Some(rest[i - 1]));
            }
        }
    }
}

impl StreamProducer {
    /// Feeds every chunk from `i` on, stopping at the first terminal
    /// outcome, then pushes the sentinel.
    fn feed_from(&mut self, chunks: &Vec<String>, i: usize)
        requires
            old(self).state() == StreamState::Streaming,
            i <= chunks@.len(),
        ensures
            final(self).state() == StreamState::Closed,
            final(self).log() == old(self).log() + spec_stream_log(
                chunks@.map_values(|c: String| spec_chunk_outcome(c@)).skip(i as int),
            ),
        decreases chunks@.len() - i,
    {
        let ghost rs = chunks@.map_values(|c: String| spec_chunk_outcome(c@));
        let ghost tail = rs.skip(i as int);
        if i == chunks.len() {
            self.finish();
            assert(tail =~= Seq::<ChunkOutcomeView>::empty());
            assert(final(self).log() =~= old(self).log() + spec_stream_log(tail));
            return ;
        }
        assert(tail[0] == rs[i as int]);
        let done = self.on_message(chunks[i].as_str());
        if done {
            self.finish();
            assert(spec_stream_log(tail) =~= seq![Some(tail[0]), None]);
            assert(final(self).log() =~= old(self).log() + spec_stream_log(tail));
        } else {
            self.feed_from(chunks, i + 1);
            assert(tail.drop_first() =~= rs.skip(i as int + 1));
            assert(spec_stream_log(tail) =~= seq![Some(tail[0])] + spec_stream_log(
                tail.drop_first(),
            ));
            assert(final(self).log() =~= old(self).log() + spec_stream_log(tail));
        }
    }

    /// Drives one whole stream synchronously: classifies and pushes each
    /// chunk outcome in order until one is terminal or the chunks run
    /// out, then pushes the single sentinel.  This is the loop that the
    /// background task runs, one call of [`Self::on_message`] per inbound
    /// event.
    pub fn feed_all(&mut self, chunks: &Vec<String>)
        requires
            old(self).state() == StreamState::Streaming,
        ensures
            final(self).state() == StreamState::Closed,
            final(self).log() == old(self).log() + spec_stream_log(
                chunks@.map_values(|c: String| spec_chunk_outcome(c@)),
            ),
    {
        let ghost rs = chunks@.map_values(|c: String| spec_chunk_outcome(c@));
        self.feed_from(chunks, 0);
        assert(rs.skip(0) =~= rs);
    }
}

/// Opens one streaming call: a producer for the background task and a
/// handle for the caller, joined by a fresh queue.
pub fn start_stream() -> (r: (StreamProducer, StreamHandle))
    ensures
        r.0.state() == StreamState::Streaming,
        r.0.log() == Seq::<StreamItemView>::empty(),
        !r.1.ended(),
{
    let q = Arc::new(queue_new());
    let q2 = queue_share(&q);
    let producer = StreamProducer {
        queue: q,
        state: StreamState::Streaming,
        log: Ghost(Seq::empty()),
    };
    let handle = StreamHandle { queue: q2, ended: false };
    (producer, handle)
}

impl StreamHandle {
    /// Whether the end-of-stream sentinel has been seen.
    pub closed spec fn ended(&self) -> bool {
        self.ended
    }

    /// Takes the next outcome if one is ready.  After the sentinel has
    /// been seen this answers end-of-stream again, at once, unchanged:
    /// popping past the end of the stream is idempotent, never blocks
    /// and never errors.
    pub fn pop_next_ready(&mut self) -> (r: PopNext)
        ensures
            old(self).ended() ==> r is EndOfStream && *final(self) == *old(self),
            final(self).ended() == (old(self).ended() || r is EndOfStream),
    {
        if self.ended {
            return PopNext::EndOfStream;
        }
        match queue_try_pop(&self.queue) {
            None => PopNext::Pending,
            Some(None) => {
                self.ended = true;
                PopNext::EndOfStream
            },
            Some(Some(outcome)) => PopNext::Item(outcome),
        }
    }

    /// Folds an item that was taken from the queue by a blocking wait —
    /// which only the caller's own machinery can perform — into the
    /// handle's state, with the same sentinel rule as `pop_next_ready`.
    pub fn accept(&mut self, item: StreamItem) -> (r: PopNext)
        requires
            !old(self).ended(),
        ensures
            match item {
                None => r is EndOfStream && final(self).ended(),
                Some(outcome) => r == PopNext::Item(outcome) && !final(self).ended(),
            },
    {
        match item {
            None => {
                self.ended = true;
                PopNext::EndOfStream
            },
            Some(outcome) => PopNext::Item(outcome),
        }
    }

    /// The shared queue, for a caller that wants to await an item
    /// instead of polling.
    pub fn queue(&self) -> &Arc<deadqueue::unlimited::Queue<StreamItem>> {
        &self.queue
    }
}

} // verus!
