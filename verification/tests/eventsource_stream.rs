use std::io;
use std::pin::Pin;
use std::task::{Context, Poll};

use eventsource_stream::{Event, EventStreamError, Eventsource};
use futures_core::Stream;
use futures_util::stream;
use futures_util::task::noop_waker;
use llm_stream_guard::openai::{classify_openai_event, ClassifierLimits, SseEventRef};
use llm_stream_guard::{
    Classify, ExitReason, FailureKind, GuardedStream, Observation, OutputKind, Polled,
    ReplayBoundary, ReplayContract, ReplayVerdict, Termination,
};

type Item = Result<Event, EventStreamError<io::Error>>;

fn classify_event(item: &Item) -> Observation {
    match item {
        Ok(event) => classify_openai_event(
            SseEventRef::named(&event.event, event.data.as_bytes()),
            ClassifierLimits::default(),
        ),
        Err(EventStreamError::Transport(_)) => Observation::Failed(FailureKind::Transient),
        Err(EventStreamError::Utf8(_) | EventStreamError::Parser(_)) => Observation::Uncertain,
    }
}

fn poll_next<S, C>(guarded: &mut GuardedStream<Pin<Box<S>>, C>) -> Poll<Option<S::Item>>
where
    S: Stream,
    C: Classify<S::Item>,
{
    let waker = noop_waker();
    let mut cx = Context::from_waker(&waker);
    let delivered =
        guarded.poll_next(
            |inner: &mut Pin<Box<S>>| match inner.as_mut().poll_next(&mut cx) {
                Poll::Pending => Polled::Pending,
                Poll::Ready(item) => Polled::Ready(item),
            },
        );
    match delivered {
        Polled::Pending => Poll::Pending,
        Polled::Ready(item) => Poll::Ready(item),
    }
}

#[test]
fn parsed_partial_output_then_eof_is_not_clean_completion() {
    let source = stream::iter([Ok::<_, io::Error>(
        "data: {\"choices\":[{\"delta\":{\"content\":\"partial\"}}]}\n\n",
    )]);
    let events = Box::pin(source.eventsource());
    let mut guarded = GuardedStream::new(events, classify_event, ReplayContract::KnownSafe);
    let probe = guarded.probe();

    assert!(matches!(
        poll_next(&mut guarded),
        Poll::Ready(Some(Ok(_)))
    ));
    assert_eq!(
        probe.snapshot().boundary(),
        ReplayBoundary::Crossed(OutputKind::Text)
    );
    assert!(matches!(poll_next(&mut guarded), Poll::Ready(None)));
    assert_eq!(
        probe.snapshot().termination(),
        Termination::Exited(ExitReason::EndOfStream)
    );
    assert_eq!(probe.snapshot().verdict(), ReplayVerdict::Deny);
}

#[test]
fn parsed_done_event_is_explicit_completion() {
    let source = stream::iter([Ok::<_, io::Error>("data: [DONE]\n\n")]);
    let events = Box::pin(source.eventsource());
    let mut guarded = GuardedStream::new(events, classify_event, ReplayContract::KnownSafe);
    let probe = guarded.probe();

    assert!(matches!(
        poll_next(&mut guarded),
        Poll::Ready(Some(Ok(_)))
    ));
    assert_eq!(probe.snapshot().termination(), Termination::Completed);
    assert_eq!(probe.snapshot().verdict(), ReplayVerdict::Deny);
}

#[test]
fn parser_transport_error_is_visible_to_the_application_classifier() {
    let source = stream::iter([Err::<&'static str, _>(io::Error::new(
        io::ErrorKind::ConnectionReset,
        "synthetic reset",
    ))]);
    let events = Box::pin(source.eventsource());
    let mut guarded = GuardedStream::new(events, classify_event, ReplayContract::KnownSafe);
    let probe = guarded.probe();

    assert!(matches!(
        poll_next(&mut guarded),
        Poll::Ready(Some(Err(EventStreamError::Transport(_))))
    ));
    assert_eq!(
        probe.snapshot().termination(),
        Termination::Failed(FailureKind::Transient)
    );
    assert_eq!(probe.snapshot().boundary(), ReplayBoundary::Uncrossed);
    assert_eq!(probe.snapshot().verdict(), ReplayVerdict::Allow);
}
