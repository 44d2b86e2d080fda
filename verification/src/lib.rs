//! A process-wide tracing facade: spans are created against a lazily
//! installed tracer, completed spans travel over a bounded channel, and a
//! single reporter loop forwards them to a remote collector.

pub mod ext;
pub mod reporter;
pub mod tags;
pub mod tracer;

pub use ext::poll_span_channel;
pub use reporter::ReporterAction;
pub use reporter::ReporterEvent;
pub use reporter::reporter_step;
pub use tags::SpanTag;
pub use tags::TagValue;
pub use tracer::MutaTracer;
pub use tracer::SPAN_CHANNEL_SIZE;
