//! The tracer handle: an optional, write-once-in-intent tracer instance that
//! span creation consults. Before a tracer is installed every span operation
//! is a no-op returning an absent span; after installation every span
//! operation yields a present, recording span.

use vstd::prelude::*;

use crate::ext::all_sampling_tracer;
use crate::ext::ctx_state;
use crate::ext::new_span_channel;
use crate::ext::rx_cap;
use crate::ext::rx_sender;
use crate::ext::span_is_recording;
use crate::ext::span_name;
use crate::ext::span_parent;
use crate::ext::span_set_tag;
use crate::ext::span_tags;
use crate::ext::start_child_span;
use crate::ext::start_root_span;
use crate::ext::tracer_sender;
use crate::tags::SpanTag;
use crate::tags::attach_all;
use crate::tags::attach_seq;

verus! {

/// Capacity of the span channel a registration creates.
pub const SPAN_CHANNEL_SIZE: usize = 1024 * 1024;

/// The tracer handle. A caller that shares one across threads puts it behind
/// a reader/writer lock: registration is the rare exclusive access, span
/// creation the frequent shared one.
pub struct MutaTracer {
    inner: Option<
        rustracing::Tracer<rustracing::sampler::AllSampler, rustracing_jaeger::span::SpanContextState>,
    >,
}

impl MutaTracer {
    /// Whether a tracer instance has been installed.
    pub closed spec fn is_registered(&self) -> bool {
        self.inner is Some
    }

    /// The sending half the installed tracer owns: where the finished
    /// records of every span it starts are handed.
    pub closed spec fn installed_sender(&self) -> crossbeam_channel::Sender<
        rustracing::span::FinishedSpan<rustracing_jaeger::span::SpanContextState>,
    >
        recommends
            self.is_registered(),
    {
        tracer_sender(self.inner->0)
    }

    /// A handle with no tracer installed: every span operation on it returns
    /// an absent span.
    pub fn new() -> (r: Self)
        ensures
            !r.is_registered(),
    {
        MutaTracer { inner: None }
    }

    /// Creates a bounded span channel of capacity `SPAN_CHANNEL_SIZE`,
    /// installs a fresh always-sampling tracer wired to its sending half —
    /// replacing any previous instance — and returns the receiving half for
    /// the reporter loop to drain: the installed tracer sends exactly where
    /// the returned receiver drains. When the replaced instance and its
    /// outstanding spans are gone, the old receiving half reports its
    /// channel closed, which retires the old reporter loop.
    pub fn register(&mut self) -> (rx: crossbeam_channel::Receiver<
        rustracing::span::FinishedSpan<rustracing_jaeger::span::SpanContextState>,
    >)
        ensures
            final(self).is_registered(),
            final(self).installed_sender() == rx_sender(rx),
            rx_cap(rx) == SPAN_CHANNEL_SIZE,
    {
        let (tx, rx) = new_span_channel(SPAN_CHANNEL_SIZE);
        self.inner = Some(all_sampling_tracer(tx));
        rx
    }

    /// Starts a root span named `name` and attaches `tags` in order, if a
    /// tracer is installed; returns an absent span otherwise. The present
    /// span records exactly the attached tags — attachment order kept, a
    /// repeated key superseded by its last attachment — and no parent.
    pub fn span(&self, name: &str, tags: Vec<SpanTag>) -> (r: Option<
        rustracing::span::Span<rustracing_jaeger::span::SpanContextState>,
    >)
        ensures
            r is Some <==> self.is_registered(),
            r matches Some(s) ==> span_is_recording(s) && span_name(s) == name@ && span_tags(s)
                == attach_all(tags@) && span_parent(s) is None,
    {
        match &self.inner {
            Some(tracer) => {
                let mut s = start_root_span(tracer, name);
                attach_tags(&mut s, &tags);
                Some(s)
            },
            None => None,
        }
    }

    /// Starts a span named `name` as a child of `parent_ctx` and attaches
    /// `tags` in order, if a tracer is installed; returns an absent span
    /// otherwise, whatever the context. The present span records the tags as
    /// `span` does, and its parent linkage holds `parent_ctx`'s state.
    pub fn child_of_span(
        &self,
        name: &str,
        parent_ctx: rustracing::span::SpanContext<rustracing_jaeger::span::SpanContextState>,
        tags: Vec<SpanTag>,
    ) -> (r: Option<rustracing::span::Span<rustracing_jaeger::span::SpanContextState>>)
        ensures
            r is Some <==> self.is_registered(),
            r matches Some(s) ==> span_is_recording(s) && span_name(s) == name@ && span_tags(s)
                == attach_all(tags@) && span_parent(s) == Some(ctx_state(parent_ctx)),
    {
        match &self.inner {
            Some(tracer) => {
                let mut s = start_child_span(tracer, name, &parent_ctx);
                attach_tags(&mut s, &tags);
                Some(s)
            },
            None => None,
        }
    }
}

impl Default for MutaTracer {
    fn default() -> (r: Self)
        ensures
            !r.is_registered(),
    {
        MutaTracer::new()
    }
}

/// Attaches each tag of `tags`, in order, to a recording span.
fn attach_tags(
    s: &mut rustracing::span::Span<rustracing_jaeger::span::SpanContextState>,
    tags: &Vec<SpanTag>,
)
    requires
        span_is_recording(*old(s)),
    ensures
        span_is_recording(*final(s)),
        span_name(*final(s)) == span_name(*old(s)),
        span_parent(*final(s)) == span_parent(*old(s)),
        span_tags(*final(s)) == attach_seq(span_tags(*old(s)), tags@),
{
    let ghost base = span_tags(*s);
    let ghost name0 = span_name(*s);
    let ghost parent0 = span_parent(*s);
    let mut i: usize = 0;
    while i < tags.len()
        invariant
            i <= tags@.len(),
            span_is_recording(*s),
            span_name(*s) == name0,
            span_parent(*s) == parent0,
            span_tags(*s) == attach_seq(base, tags@.subrange(0, i as int)),
        decreases tags@.len() - i,
    {
        span_set_tag(s, &tags[i]);
        proof {
            assert(tags@.subrange(0, i as int + 1).drop_last() =~= tags@.subrange(0, i as int));
            assert(tags@.subrange(0, i as int + 1).last() == tags@[i as int]);
        }
        i += 1;
    }
    proof {
        assert(tags@.subrange(0, tags@.len() as int) =~= tags@);
    }
}

} // verus!
