use nacos_grpc::channel::{CloseableChannel, OUTBOUND_QUEUE_CAPACITY};
use nacos_grpc::dispatcher::{Dispatch, DispatchPhase, InboundDispatcher, InboundRead};
use nacos_grpc::payload::{Payload, PayloadUtils};
use nacos_grpc::request::{PendingRequest, UnaryOutcome};

fn frame(tag: &str) -> Payload {
    PayloadUtils::build_payload(tag, format!("{{\"n\":\"{}\"}}", tag))
}

#[test]
fn outbound_queue_capacity_is_five() {
    assert_eq!(OUTBOUND_QUEUE_CAPACITY, 5);
}

#[test]
fn open_stream_passes_frames_on() {
    let mut ch = CloseableChannel::new();
    assert!(!ch.is_closed());
    assert_eq!(ch.next_frame(Some(Some(frame("a")))), Some(frame("a")));
    assert_eq!(ch.next_frame(Some(Some(frame("b")))), Some(frame("b")));
    assert!(!ch.is_closed());
}

#[test]
fn close_marker_ends_the_stream() {
    let mut ch = CloseableChannel::new();
    assert_eq!(ch.next_frame(Some(Some(frame("a")))), Some(frame("a")));
    assert_eq!(ch.next_frame(Some(None)), None);
    assert!(ch.is_closed());
    assert_eq!(ch.next_frame(Some(Some(frame("late")))), None);
    assert!(ch.is_closed());
}

#[test]
fn exhausted_queue_ends_the_stream() {
    let mut ch = CloseableChannel::new();
    assert_eq!(ch.next_frame(None), None);
    assert!(ch.is_closed());
    assert_eq!(ch.next_frame(Some(Some(frame("late")))), None);
}

#[test]
fn explicit_close_sends_nothing_further() {
    let mut ch = CloseableChannel::new();
    ch.close();
    assert!(ch.is_closed());
    assert_eq!(ch.next_frame(Some(Some(frame("a")))), None);
    assert_eq!(ch.drain(vec![Some(Some(frame("b"))), Some(None), None]), Vec::<Payload>::new());
    assert!(ch.is_closed());
}

#[test]
fn drain_yields_frames_up_to_the_marker() {
    let mut ch = CloseableChannel::new();
    let out = ch.drain(vec![
        Some(Some(frame("a"))),
        Some(Some(frame("b"))),
        Some(None),
        Some(Some(frame("c"))),
    ]);
    assert_eq!(out, vec![frame("a"), frame("b")]);
    assert!(ch.is_closed());

    let mut open = CloseableChannel::new();
    let all = open.drain(vec![Some(Some(frame("a"))), Some(Some(frame("b")))]);
    assert_eq!(all, vec![frame("a"), frame("b")]);
    assert!(!open.is_closed());
    assert_eq!(open.drain(Vec::new()), Vec::<Payload>::new());
    assert!(!open.is_closed());
}

#[test]
fn dispatcher_forwards_frames_then_stops_at_end() {
    let (events, stopped) = InboundDispatcher::receive_bi_stream(vec![
        InboundRead::Frame(frame("A")),
        InboundRead::Frame(frame("B")),
        InboundRead::End,
    ]);
    assert_eq!(events, vec![frame("A"), frame("B")]);
    assert!(stopped);
}

#[test]
fn dispatcher_first_read_error_stops_without_event() {
    let (events, stopped) = InboundDispatcher::receive_bi_stream(vec![InboundRead::StreamError]);
    assert!(events.is_empty());
    assert!(stopped);
    let (events, stopped) = InboundDispatcher::receive_bi_stream(vec![
        InboundRead::StreamError,
        InboundRead::Frame(frame("late")),
    ]);
    assert!(events.is_empty());
    assert!(stopped);
}

#[test]
fn dispatcher_drops_malformed_frames_and_goes_on() {
    let (events, stopped) = InboundDispatcher::receive_bi_stream(vec![
        InboundRead::Malformed,
        InboundRead::Frame(frame("A")),
        InboundRead::Malformed,
        InboundRead::Malformed,
        InboundRead::Frame(frame("B")),
        InboundRead::Frame(frame("A")),
    ]);
    assert_eq!(events, vec![frame("A"), frame("B"), frame("A")]);
    assert!(!stopped);
}

#[test]
fn dispatcher_ignores_what_follows_the_end() {
    let (events, stopped) = InboundDispatcher::receive_bi_stream(vec![
        InboundRead::Frame(frame("A")),
        InboundRead::End,
        InboundRead::Frame(frame("B")),
        InboundRead::Malformed,
    ]);
    assert_eq!(events, vec![frame("A")]);
    assert!(stopped);
    let (events, stopped) = InboundDispatcher::receive_bi_stream(Vec::new());
    assert!(events.is_empty());
    assert!(!stopped);
}

#[test]
fn dispatcher_steps_through_its_phases() {
    let mut d = InboundDispatcher::new();
    assert_eq!(d.current_phase(), DispatchPhase::AwaitingFirst);
    assert_eq!(d.on_read(InboundRead::Malformed), Dispatch::Skip);
    assert_eq!(d.current_phase(), DispatchPhase::Looping);
    assert_eq!(d.on_read(InboundRead::Frame(frame("A"))), Dispatch::Forward(frame("A")));
    assert_eq!(d.current_phase(), DispatchPhase::Looping);
    assert_eq!(d.on_read(InboundRead::StreamError), Dispatch::Stop);
    assert_eq!(d.current_phase(), DispatchPhase::Finished);
    assert_eq!(d.on_read(InboundRead::Frame(frame("B"))), Dispatch::Stop);
    assert_eq!(d.current_phase(), DispatchPhase::Finished);

    let mut first = InboundDispatcher::new();
    assert_eq!(first.on_read(InboundRead::End), Dispatch::Stop);
    assert_eq!(first.current_phase(), DispatchPhase::Finished);
}

#[test]
fn successful_call_fulfils_the_slot_once() {
    let mut slot = PendingRequest::new();
    assert!(!slot.is_fulfilled());
    slot.complete(UnaryOutcome::Response(frame("first")));
    assert!(slot.is_fulfilled());
    slot.complete(UnaryOutcome::Response(frame("second")));
    slot.complete(UnaryOutcome::Failed);
    assert_eq!(slot.into_response(), Some(frame("first")));
}

#[test]
fn failed_call_never_fulfils_the_slot() {
    let mut slot = PendingRequest::new();
    slot.complete(UnaryOutcome::Failed);
    slot.complete(UnaryOutcome::Failed);
    assert!(!slot.is_fulfilled());
    assert_eq!(slot.into_response(), None);
}

#[test]
fn fulfil_hands_a_second_response_back() {
    let mut slot = PendingRequest::new();
    assert_eq!(slot.fulfil(frame("first")), Ok(()));
    assert_eq!(slot.fulfil(frame("second")), Err(frame("second")));
    assert_eq!(slot.into_response(), Some(frame("first")));
}
