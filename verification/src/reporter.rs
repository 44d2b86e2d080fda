//! The reporter loop's decision logic: what the single consumer of the span
//! channel does with each poll outcome. The loop itself lives with the
//! transport, outside this crate; it performs the returned action and hands
//! the next event back.

use vstd::prelude::*;

verus! {

/// What the reporter loop just observed: the outcome of polling the span
/// channel, or the failure of its own last send to the collector.
pub enum ReporterEvent {
    /// A finished span was dequeued.
    SpanReady(rustracing::span::FinishedSpan<rustracing_jaeger::span::SpanContextState>),
    /// The channel is empty; producers may still hold the sending half.
    ChannelEmpty,
    /// Every sender is gone: no span can ever arrive again.
    ChannelClosed,
    /// Forwarding a span to the collector failed.
    EmitFailed,
}

/// What the reporter loop must do next.
pub enum ReporterAction {
    /// Forward this one span to the collector.
    Emit(rustracing::span::FinishedSpan<rustracing_jaeger::span::SpanContextState>),
    /// Nothing to do; poll again.
    Idle,
    /// Leave the loop for good: the channel it drains has been retired.
    Retire,
    /// Drop the span whose send failed and keep the loop alive: a collector
    /// outage must not kill the reporting pipeline.
    Skip,
}

/// One decision step of the reporter loop. Each dequeued span is emitted
/// exactly once and in dequeue order; an empty poll idles; a closed channel
/// retires the loop; a failed send is dropped and the loop goes on.
pub fn reporter_step(event: ReporterEvent) -> (action: ReporterAction)
    ensures
        action == (match event {
            ReporterEvent::SpanReady(finished) => ReporterAction::Emit(finished),
            ReporterEvent::ChannelEmpty => ReporterAction::Idle,
            ReporterEvent::ChannelClosed => ReporterAction::Retire,
            ReporterEvent::EmitFailed => ReporterAction::Skip,
        }),
{
    match event {
        ReporterEvent::SpanReady(finished) => ReporterAction::Emit(finished),
        ReporterEvent::ChannelEmpty => ReporterAction::Idle,
        ReporterEvent::ChannelClosed => ReporterAction::Retire,
        ReporterEvent::EmitFailed => ReporterAction::Skip,
    }
}

} // verus!
