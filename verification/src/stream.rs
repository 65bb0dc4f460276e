//! The tracing span of a streamed download.
//!
//! The span covers the download, not just the request: it stays open until the
//! stream ends, fails or is dropped.

use vstd::prelude::*;

verus! {

/// What a poll of a stream came to.
#[derive(Clone, Copy, Debug, PartialEq, Eq, Structural)]
pub enum StreamPoll {
    /// Nothing yet.
    Pending,
    /// A chunk of the body.
    Chunk,
    /// A failure.
    Failed,
    /// The end of the body.
    Ended,
}

impl StreamPoll {
    /// Whether the download is over.
    pub open spec fn spec_is_final(&self) -> bool {
        self is Failed || self is Ended
    }

    /// Whether the download is over.
    pub fn is_final(&self) -> (over: bool)
        ensures
            over == self.spec_is_final(),
            over <==> *self == StreamPoll::Failed || *self == StreamPoll::Ended,
    {
        matches!(self, StreamPoll::Failed | StreamPoll::Ended)
    }
}

/// The span after a poll: gone once the download is over, and else as it was.
pub open spec fn span_after<S>(span: Option<S>, poll: StreamPoll) -> Option<S> {
    if poll.spec_is_final() {
        None
    } else {
        span
    }
}

/// The span after a series of polls.
pub open spec fn span_after_all<S>(span: Option<S>, polls: Seq<StreamPoll>) -> Option<S>
    decreases polls.len(),
{
    if polls.len() == 0 {
        span
    } else {
        span_after(span_after_all(span, polls.drop_last()), polls.last())
    }
}

/// A span lives through every poll of its stream until one ends the download,
/// and no later poll brings it back.
pub proof fn span_lives_until_the_download_is_over<S>(span: S, polls: Seq<StreamPoll>)
    ensures
        (forall|i: int| 0 <= i < polls.len() ==> !(#[trigger] polls[i]).spec_is_final())
            ==> span_after_all(Some(span), polls) == Some(span),
        (exists|i: int| 0 <= i < polls.len() && (#[trigger] polls[i]).spec_is_final())
            ==> span_after_all(Some(span), polls) is None,
    decreases polls.len(),
{
    if polls.len() > 0 {
        let before = polls.drop_last();
        span_lives_until_the_download_is_over(span, before);
        assert(forall|i: int| 0 <= i < before.len() ==> before[i] == polls[i]);
        if exists|i: int| 0 <= i < polls.len() && (#[trigger] polls[i]).spec_is_final() {
            let i = choose|i: int| 0 <= i < polls.len() && (#[trigger] polls[i]).spec_is_final();
            if i < before.len() {
                assert(before[i].spec_is_final());
            }
        } else {
            assert(forall|i: int| 0 <= i < before.len() ==> !(#[trigger] before[i]).spec_is_final());
        }
    }
}

/// Holds the span of a download. `S` is the type of a span; letting go of the
/// value closes it.
pub struct StreamSpan<S> {
    span: Option<S>,
}

impl<S> View for StreamSpan<S> {
    type V = Option<S>;

    closed spec fn view(&self) -> Option<S> {
        self.span
    }
}

impl<S> StreamSpan<S> {
    /// Holds the span of a download that begins.
    pub fn new(span: S) -> (holder: Self)
        ensures
            holder@ == Some(span),
    {
        StreamSpan { span: Some(span) }
    }

    /// The span to enter while the stream is polled.
    pub fn current(&self) -> (span: Option<&S>)
        ensures
            match self@ {
                Some(s) => span == Some(&s),
                None => span is None,
            },
    {
        match &self.span {
            Some(span) => Some(span),
            None => None,
        }
    }

    /// Takes note of a poll, and lets go of the span once the download is over.
    pub fn after_poll(&mut self, poll: StreamPoll)
        ensures
            final(self)@ == span_after(old(self)@, poll),
            poll == StreamPoll::Failed || poll == StreamPoll::Ended ==> final(self)@ is None,
            poll == StreamPoll::Pending || poll == StreamPoll::Chunk ==> final(self)@ == old(
                self,
            )@,
    {
        if poll.is_final() {
            self.span = None;
        }
    }
}

/// The download is over exactly when the stream failed or ended.
pub proof fn failure_and_end_alone_are_final(poll: StreamPoll, over: bool)
    requires
        call_ensures(StreamPoll::is_final, (&poll,), over),
    ensures
        over <==> poll == StreamPoll::Failed || poll == StreamPoll::Ended,
        poll.spec_is_final() <==> poll == StreamPoll::Failed || poll == StreamPoll::Ended,
{
}

/// A poll that brings nothing or a chunk leaves the span as it was; one that
/// fails or ends the stream leaves none.
pub proof fn span_outlives_all_but_failure_and_end<S>(span: Option<S>)
    ensures
        span_after(span, StreamPoll::Pending) == span,
        span_after(span, StreamPoll::Chunk) == span,
        span_after(span, StreamPoll::Failed) is None,
        span_after(span, StreamPoll::Ended) is None,
{
}

} // verus!
