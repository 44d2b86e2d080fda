//! The trusted boundary around the tracing collaborators: the `rustracing`
//! tracer and span machinery, the Jaeger span-context state, and the
//! `crossbeam_channel` hand-off channel for finished spans.
//!
//! Everything here is believed, not proved: each wrapper's contract states
//! only what the collaborator's source shows, and the uninterpreted spec
//! functions name what a span or context holds without restating it.

use vstd::prelude::*;

use crate::reporter::ReporterEvent;
use crate::tags::SpanTag;
use crate::tags::TagValue;
use crate::tags::attach;

verus! {

#[verifier::external_type_specification]
#[verifier::external_body]
#[verifier::reject_recursive_types(S)]
#[verifier::reject_recursive_types(T)]
pub struct ExTracer<S, T>(rustracing::Tracer<S, T>);

#[verifier::external_type_specification]
#[verifier::external_body]
pub struct ExAllSampler(rustracing::sampler::AllSampler);

#[verifier::external_type_specification]
#[verifier::external_body]
#[verifier::reject_recursive_types(T)]
pub struct ExSpan<T>(rustracing::span::Span<T>);

#[verifier::external_type_specification]
#[verifier::external_body]
#[verifier::reject_recursive_types(T)]
pub struct ExSpanContext<T>(rustracing::span::SpanContext<T>);

#[verifier::external_type_specification]
#[verifier::external_body]
#[verifier::reject_recursive_types(T)]
pub struct ExFinishedSpan<T>(rustracing::span::FinishedSpan<T>);

#[verifier::external_type_specification]
#[verifier::external_body]
pub struct ExSpanContextState(rustracing_jaeger::span::SpanContextState);

#[verifier::external_type_specification]
#[verifier::external_body]
#[verifier::reject_recursive_types(T)]
pub struct ExSender<T>(crossbeam_channel::Sender<T>);

#[verifier::external_type_specification]
#[verifier::external_body]
#[verifier::reject_recursive_types(T)]
pub struct ExReceiver<T>(crossbeam_channel::Receiver<T>);

/// The operation name a started span records.
pub uninterp spec fn span_name(
    s: rustracing::span::Span<rustracing_jaeger::span::SpanContextState>,
) -> Seq<char>;

/// The tag list a started span records, in recorded order.
pub uninterp spec fn span_tags(
    s: rustracing::span::Span<rustracing_jaeger::span::SpanContextState>,
) -> Seq<SpanTag>;

/// The parent state a started span records in its `ChildOf` reference, if any.
pub uninterp spec fn span_parent(
    s: rustracing::span::Span<rustracing_jaeger::span::SpanContextState>,
) -> Option<rustracing_jaeger::span::SpanContextState>;

/// Whether a span is recording: a sampled span that will be handed to the
/// span channel when it completes. An inactive span records nothing.
pub uninterp spec fn span_is_recording(
    s: rustracing::span::Span<rustracing_jaeger::span::SpanContextState>,
) -> bool;

/// The state a span context carries: what `SpanContext::state` returns.
pub uninterp spec fn ctx_state(
    c: rustracing::span::SpanContext<rustracing_jaeger::span::SpanContextState>,
) -> rustracing_jaeger::span::SpanContextState;

/// The sending half that was created together with `rx`: the one whose
/// channel `rx` drains.
pub uninterp spec fn rx_sender(
    rx: crossbeam_channel::Receiver<
        rustracing::span::FinishedSpan<rustracing_jaeger::span::SpanContextState>,
    >,
) -> crossbeam_channel::Sender<
    rustracing::span::FinishedSpan<rustracing_jaeger::span::SpanContextState>,
>;

/// The capacity of the channel `rx` drains.
pub uninterp spec fn rx_cap(
    rx: crossbeam_channel::Receiver<
        rustracing::span::FinishedSpan<rustracing_jaeger::span::SpanContextState>,
    >,
) -> usize;

/// The sending half a tracer owns: the one to which every span it starts
/// hands its finished record on completion.
pub uninterp spec fn tracer_sender(
    t: rustracing::Tracer<rustracing::sampler::AllSampler, rustracing_jaeger::span::SpanContextState>,
) -> crossbeam_channel::Sender<
    rustracing::span::FinishedSpan<rustracing_jaeger::span::SpanContextState>,
>;

/// Relies on `crossbeam_channel::bounded`: a FIFO channel with capacity
/// `cap`, whose sending half never blocks (a send on a full channel fails).
/// The two halves belong to the one channel this call creates. Nothing is
/// promised of the channel's contents: spans travel through it concurrently,
/// so they depend on every thread that holds a sender.
#[verifier::external_body]
pub(crate) fn new_span_channel(cap: usize) -> (r: (
    crossbeam_channel::Sender<
        rustracing::span::FinishedSpan<rustracing_jaeger::span::SpanContextState>,
    >,
    crossbeam_channel::Receiver<
        rustracing::span::FinishedSpan<rustracing_jaeger::span::SpanContextState>,
    >,
))
    ensures
        rx_sender(r.1) == r.0,
        rx_cap(r.1) == cap,
{
    crossbeam_channel::bounded(cap)
}

/// Relies on `rustracing::Tracer::with_sender`, constructed with
/// `AllSampler`: every span this tracer starts is sampled, and each finished
/// span is offered to the given sending half — which the tracer takes
/// ownership of — with a non-blocking send when it completes.
#[verifier::external_body]
pub(crate) fn all_sampling_tracer(
    tx: crossbeam_channel::Sender<
        rustracing::span::FinishedSpan<rustracing_jaeger::span::SpanContextState>,
    >,
) -> (t: rustracing::Tracer<rustracing::sampler::AllSampler, rustracing_jaeger::span::SpanContextState>)
    ensures
        tracer_sender(t) == tx,
{
    rustracing::Tracer::with_sender(rustracing::sampler::AllSampler, tx)
}

/// Relies on `Tracer::span` and `StartSpanOptions::start`: with `AllSampler`
/// and no tags set before the start, the started span is sampled, records the
/// given operation name, no tags and no references, and stamps its start
/// time.
#[verifier::external_body]
pub(crate) fn start_root_span(
    t: &rustracing::Tracer<rustracing::sampler::AllSampler, rustracing_jaeger::span::SpanContextState>,
    name: &str,
) -> (s: rustracing::span::Span<rustracing_jaeger::span::SpanContextState>)
    ensures
        span_is_recording(s),
        span_name(s) == name@,
        span_tags(s) == Seq::<SpanTag>::empty(),
        span_parent(s) is None,
{
    t.span(name.to_string()).start()
}

/// Relies on `Tracer::span`, `StartSpanOptions::child_of` and
/// `StartSpanOptions::start`: as for a root span, except that a `ChildOf`
/// reference holding a clone of `parent`'s state is recorded before the
/// start.
#[verifier::external_body]
pub(crate) fn start_child_span(
    t: &rustracing::Tracer<rustracing::sampler::AllSampler, rustracing_jaeger::span::SpanContextState>,
    name: &str,
    parent: &rustracing::span::SpanContext<rustracing_jaeger::span::SpanContextState>,
) -> (s: rustracing::span::Span<rustracing_jaeger::span::SpanContextState>)
    ensures
        span_is_recording(s),
        span_name(s) == name@,
        span_tags(s) == Seq::<SpanTag>::empty(),
        span_parent(s) == Some(ctx_state(*parent)),
{
    t.span(name.to_string()).child_of(parent).start()
}

/// Relies on `Span::set_tag`: on a recording span it drops any recorded tag
/// under the same key and appends the new tag at the end; name, references
/// and sampling are untouched.
#[verifier::external_body]
pub(crate) fn span_set_tag(
    s: &mut rustracing::span::Span<rustracing_jaeger::span::SpanContextState>,
    t: &SpanTag,
)
    requires
        span_is_recording(*old(s)),
    ensures
        span_is_recording(*final(s)),
        span_name(*final(s)) == span_name(*old(s)),
        span_parent(*final(s)) == span_parent(*old(s)),
        span_tags(*final(s)) == attach(span_tags(*old(s)), *t),
{
    let value = match &t.value {
        TagValue::Text(x) => rustracing::tag::TagValue::from(x.clone()),
        TagValue::Boolean(x) => rustracing::tag::TagValue::from(*x),
        TagValue::Integer(x) => rustracing::tag::TagValue::from(*x),
    };
    s.set_tag(|| rustracing::tag::Tag::new(t.key.clone(), value));
}

/// Relies on `crossbeam_channel::Receiver::try_recv`. Which outcome comes
/// back depends on every thread that holds a sender, so only the shape of
/// the result is stated: a received span, an empty channel, or a channel
/// whose senders are all gone.
#[verifier::external_body]
pub fn poll_span_channel(
    rx: &crossbeam_channel::Receiver<
        rustracing::span::FinishedSpan<rustracing_jaeger::span::SpanContextState>,
    >,
) -> (ev: ReporterEvent)
    ensures
        !(ev is EmitFailed),
{
    match rx.try_recv() {
        Ok(finished) => ReporterEvent::SpanReady(finished),
        Err(crossbeam_channel::TryRecvError::Empty) => ReporterEvent::ChannelEmpty,
        Err(crossbeam_channel::TryRecvError::Disconnected) => ReporterEvent::ChannelClosed,
    }
}

} // verus!
