use muta_apm::MutaTracer;
use muta_apm::ReporterAction;
use muta_apm::SPAN_CHANNEL_SIZE;
use muta_apm::ReporterEvent;
use muta_apm::SpanTag;
use muta_apm::TagValue;
use muta_apm::poll_span_channel;
use muta_apm::reporter_step;
use rustracing::span::SpanContext;
use rustracing_jaeger::span::SpanContextState;
use rustracing_jaeger::span::SpanContextStateBuilder;
use rustracing_jaeger::span::TraceId;

fn text_tag(key: &str, value: &str) -> SpanTag {
    SpanTag { key: key.to_string(), value: TagValue::Text(value.to_string()) }
}

fn remote_context() -> SpanContext<SpanContextState> {
    let state = SpanContextStateBuilder::new()
        .trace_id(TraceId { high: 11, low: 22 })
        .span_id(33)
        .finish();
    SpanContext::new(state, Vec::new())
}

#[test]
fn unregistered_span_is_absent() {
    let tracer = MutaTracer::new();
    assert!(tracer.span("op", Vec::new()).is_none());
    assert!(tracer.span("op", vec![text_tag("a", "1")]).is_none());
}

#[test]
fn unregistered_child_of_span_is_absent() {
    let tracer = MutaTracer::new();
    let ctx = remote_context();
    assert!(tracer.child_of_span("op", ctx, Vec::new()).is_none());
}

#[test]
fn default_handle_is_unregistered() {
    let tracer = MutaTracer::default();
    assert!(tracer.span("op", Vec::new()).is_none());
}

#[test]
fn registered_span_is_present() {
    let mut tracer = MutaTracer::new();
    let _rx = tracer.register();
    let span = tracer.span("op", Vec::new());
    assert!(span.is_some());
    assert!(span.unwrap().is_sampled());
}

#[test]
fn register_channel_has_stated_capacity() {
    let mut tracer = MutaTracer::new();
    let rx = tracer.register();
    assert_eq!(rx.capacity(), Some(SPAN_CHANNEL_SIZE));
}

#[test]
fn empty_tags_give_untagged_span() {
    let mut tracer = MutaTracer::new();
    let rx = tracer.register();
    drop(tracer.span("op", Vec::new()));
    match poll_span_channel(&rx) {
        ReporterEvent::SpanReady(finished) => {
            assert_eq!(finished.operation_name(), "op");
            assert!(finished.tags().is_empty());
            assert!(finished.references().is_empty());
        }
        _ => panic!("expected a finished span"),
    }
}

#[test]
fn tags_recorded_in_attachment_order() {
    let mut tracer = MutaTracer::new();
    let rx = tracer.register();
    let tags = vec![
        text_tag("t1", "v1"),
        SpanTag { key: "t2".to_string(), value: TagValue::Boolean(true) },
        SpanTag { key: "t3".to_string(), value: TagValue::Integer(-7) },
    ];
    drop(tracer.span("op", tags));
    match poll_span_channel(&rx) {
        ReporterEvent::SpanReady(finished) => {
            let recorded = finished.tags();
            assert_eq!(recorded.len(), 3);
            assert_eq!(recorded[0].name(), "t1");
            assert_eq!(recorded[0].value(), &rustracing::tag::TagValue::from("v1".to_string()));
            assert_eq!(recorded[1].name(), "t2");
            assert_eq!(recorded[1].value(), &rustracing::tag::TagValue::from(true));
            assert_eq!(recorded[2].name(), "t3");
            assert_eq!(recorded[2].value(), &rustracing::tag::TagValue::from(-7i64));
        }
        _ => panic!("expected a finished span"),
    }
}

#[test]
fn duplicate_tag_keys_keep_last_attachment() {
    let mut tracer = MutaTracer::new();
    let rx = tracer.register();
    let tags = vec![text_tag("a", "first"), text_tag("b", "kept"), text_tag("a", "last")];
    drop(tracer.span("op", tags));
    match poll_span_channel(&rx) {
        ReporterEvent::SpanReady(finished) => {
            let recorded = finished.tags();
            assert_eq!(recorded.len(), 2);
            assert_eq!(recorded[0].name(), "b");
            assert_eq!(recorded[1].name(), "a");
            assert_eq!(recorded[1].value(), &rustracing::tag::TagValue::from("last".to_string()));
        }
        _ => panic!("expected a finished span"),
    }
}

#[test]
fn child_span_parent_resolves_to_context() {
    let mut tracer = MutaTracer::new();
    let rx = tracer.register();
    let parent = tracer.span("parent", Vec::new()).unwrap();
    let ctx = parent.context().unwrap().clone();
    drop(tracer.child_of_span("child", ctx.clone(), Vec::new()));
    match poll_span_channel(&rx) {
        ReporterEvent::SpanReady(finished) => {
            assert_eq!(finished.operation_name(), "child");
            assert_eq!(finished.references().len(), 1);
            let reference = &finished.references()[0];
            assert!(reference.is_child_of());
            assert_eq!(reference.span().trace_id(), ctx.state().trace_id());
            assert_eq!(reference.span().span_id(), ctx.state().span_id());
        }
        _ => panic!("expected a finished span"),
    }
    drop(parent);
}

#[test]
fn remote_context_parent_resolves_to_context() {
    let mut tracer = MutaTracer::new();
    let rx = tracer.register();
    let ctx = remote_context();
    drop(tracer.child_of_span("child", ctx, Vec::new()));
    match poll_span_channel(&rx) {
        ReporterEvent::SpanReady(finished) => {
            let reference = &finished.references()[0];
            assert!(reference.is_child_of());
            assert_eq!(reference.span().trace_id(), TraceId { high: 11, low: 22 });
            assert_eq!(reference.span().span_id(), 33);
        }
        _ => panic!("expected a finished span"),
    }
}

#[test]
fn reporter_observes_enqueued_spans_in_order() {
    let mut tracer = MutaTracer::new();
    let rx = tracer.register();
    for name in ["s1", "s2", "s3"] {
        drop(tracer.span(name, Vec::new()));
    }
    for name in ["s1", "s2", "s3"] {
        match poll_span_channel(&rx) {
            ReporterEvent::SpanReady(finished) => assert_eq!(finished.operation_name(), name),
            _ => panic!("expected a finished span"),
        }
    }
    assert!(matches!(poll_span_channel(&rx), ReporterEvent::ChannelEmpty));
}

#[test]
fn re_register_replaces_tracer() {
    let mut tracer = MutaTracer::new();
    let old_rx = tracer.register();
    drop(tracer.span("old", Vec::new()));
    let new_rx = tracer.register();
    drop(tracer.span("new", Vec::new()));
    match poll_span_channel(&old_rx) {
        ReporterEvent::SpanReady(finished) => assert_eq!(finished.operation_name(), "old"),
        _ => panic!("expected the in-flight span of the old channel"),
    }
    assert!(matches!(poll_span_channel(&old_rx), ReporterEvent::ChannelClosed));
    match poll_span_channel(&new_rx) {
        ReporterEvent::SpanReady(finished) => assert_eq!(finished.operation_name(), "new"),
        _ => panic!("expected a finished span on the new channel"),
    }
}

#[test]
fn reporter_step_emits_dequeued_span() {
    let mut tracer = MutaTracer::new();
    let rx = tracer.register();
    drop(tracer.span("op", Vec::new()));
    let event = poll_span_channel(&rx);
    assert!(matches!(event, ReporterEvent::SpanReady(_)));
    match reporter_step(event) {
        ReporterAction::Emit(finished) => assert_eq!(finished.operation_name(), "op"),
        _ => panic!("a dequeued span must be emitted"),
    }
}

#[test]
fn reporter_step_idles_on_empty_channel() {
    assert!(matches!(reporter_step(ReporterEvent::ChannelEmpty), ReporterAction::Idle));
}

#[test]
fn reporter_step_retires_on_closed_channel() {
    assert!(matches!(reporter_step(ReporterEvent::ChannelClosed), ReporterAction::Retire));
}

#[test]
fn reporter_step_skips_failed_emit() {
    assert!(matches!(reporter_step(ReporterEvent::EmitFailed), ReporterAction::Skip));
}
