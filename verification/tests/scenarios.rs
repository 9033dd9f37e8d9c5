use muxcore::connection::{
    Async, ConnectionConfig, ConnectionContext, ConnectionDriver, ConnectionError,
    DispatchOutcome, OUTBOUND_CAPACITY,
};
use muxcore::flow::FlowControlStrategy;
use muxcore::frames::{CreditUpdate, Data, Frame, StreamRequest};
use muxcore::stream::{IncomingStreams, StreamId, StreamRef, StreamRequester};

fn enabled_ctx() -> ConnectionContext<u32> {
    ConnectionContext::with_config(
        1,
        ConnectionConfig { flow_control_strategy: FlowControlStrategy::Enabled },
    )
}

/// Inbound stream open: a `StreamRequest` yields a `StreamRef` through
/// `IncomingStreams`, with the full window available.
#[test]
fn inbound_stream_open() {
    let mut ctx = enabled_ctx();
    let mut driver = ConnectionDriver::new();
    let (outcome, _wake) = driver.dispatch(
        &mut ctx,
        Frame::StreamRequest(StreamRequest { stream_id: StreamId(7), credit_capacity: 100 }),
    );
    assert_eq!(outcome, DispatchOutcome::Handled);
    let incoming = IncomingStreams::new();
    let stream = match incoming.poll(&mut ctx, 1) {
        Async::Ready(Some(s)) => s,
        other => panic!("expected a stream, got {:?}", other),
    };
    assert_eq!(stream.stream_id(), StreamId(7));
    let c = ctx.get_stream_credits(StreamId(7)).unwrap();
    assert_eq!(c.capacity(), 100);
    assert_eq!(c.available(), 100);
}

/// Data delivery: one inbound `Data` frame reaches the application intact,
/// and with flow control enabled its length is deducted from the window.
#[test]
fn data_delivery() {
    let mut ctx = enabled_ctx();
    let mut driver = ConnectionDriver::new();
    driver.dispatch(
        &mut ctx,
        Frame::StreamRequest(StreamRequest { stream_id: StreamId(7), credit_capacity: 100 }),
    );
    let (outcome, _) = driver.dispatch(
        &mut ctx,
        Frame::Data(Data { stream_id: StreamId(7), payload: vec![0xAA; 10] }),
    );
    assert_eq!(outcome, DispatchOutcome::Handled);
    let stream = StreamRef { stream_id: StreamId(7) };
    match stream.poll(&mut ctx, 1) {
        Ok(Async::Ready(Some(Frame::Data(d)))) => assert_eq!(d.payload, vec![0xAA; 10]),
        other => panic!("expected the data frame, got {:?}", other),
    }
    // Exactly one frame: the next poll parks the caller.
    assert_eq!(stream.poll(&mut ctx, 2), Ok(Async::NotReady));
    let c = ctx.get_stream_credits(StreamId(7)).unwrap();
    assert_eq!(c.available(), 90);
}

/// Credit return threshold (NUM/DEN = 1/2, capacity 100, threshold 50):
/// returning the 10 consumed bytes lifts `available` to 100 >= 50, so one
/// `CreditUpdate` with the unannounced delta is emitted; a later return of
/// 1 while `available` is below the threshold emits nothing.
#[test]
fn credit_return_threshold() {
    let mut ctx = enabled_ctx();
    let mut driver = ConnectionDriver::new();
    driver.dispatch(
        &mut ctx,
        Frame::StreamRequest(StreamRequest { stream_id: StreamId(7), credit_capacity: 100 }),
    );
    driver.dispatch(
        &mut ctx,
        Frame::Data(Data { stream_id: StreamId(7), payload: vec![0xAA; 10] }),
    );
    let stream = StreamRef { stream_id: StreamId(7) };
    stream.poll(&mut ctx, 1).unwrap();
    let (r, _) = stream.return_credit(&mut ctx, 10);
    assert_eq!(r, Ok(()));
    assert_eq!(
        ctx.next_outbound(),
        Some(Frame::CreditUpdate(CreditUpdate { stream_id: StreamId(7), credit: 10 }))
    );
    assert_eq!(ctx.next_outbound(), None);
    // Consume 60 more; available drops to 40, below the threshold of 50.
    driver.dispatch(
        &mut ctx,
        Frame::Data(Data { stream_id: StreamId(7), payload: vec![0x55; 60] }),
    );
    stream.poll(&mut ctx, 1).unwrap();
    let (r, _) = stream.return_credit(&mut ctx, 1);
    assert_eq!(r, Ok(()));
    assert_eq!(ctx.next_outbound(), None);
    let c = ctx.get_stream_credits(StreamId(7)).unwrap();
    assert_eq!(c.available(), 41);
}

/// Returning zero credit is a no-op and emits no frame.
#[test]
fn return_credit_zero_is_noop() {
    let mut ctx = enabled_ctx();
    let mut driver = ConnectionDriver::new();
    driver.dispatch(
        &mut ctx,
        Frame::StreamRequest(StreamRequest { stream_id: StreamId(7), credit_capacity: 100 }),
    );
    let stream = StreamRef { stream_id: StreamId(7) };
    let (r, wake) = stream.return_credit(&mut ctx, 0);
    assert_eq!(r, Ok(()));
    assert_eq!(wake, None);
    assert_eq!(ctx.outbound_len(), 0);
    let c = ctx.get_stream_credits(StreamId(7)).unwrap();
    assert_eq!(c.available(), 100);
}

/// Returning credit on an unknown stream fails.
#[test]
fn return_credit_unknown_stream_fails() {
    let mut ctx = enabled_ctx();
    let stream = StreamRef { stream_id: StreamId(99) };
    let (r, _) = stream.return_credit(&mut ctx, 5);
    assert_eq!(r, Err(()));
}

/// Backpressure and head-of-line blocking: a second `Data` frame for a
/// stream whose single-slot queue is full is parked, not dropped; after the
/// application drains the stream the same frame is re-dispatched.
#[test]
fn backpressure_parks_second_frame() {
    let mut ctx = enabled_ctx();
    let mut driver = ConnectionDriver::new();
    driver.dispatch(
        &mut ctx,
        Frame::StreamRequest(StreamRequest { stream_id: StreamId(7), credit_capacity: 100 }),
    );
    let (outcome, _) = driver.dispatch(
        &mut ctx,
        Frame::Data(Data { stream_id: StreamId(7), payload: vec![1, 1] }),
    );
    assert_eq!(outcome, DispatchOutcome::Handled);
    let (outcome, _) = driver.dispatch(
        &mut ctx,
        Frame::Data(Data { stream_id: StreamId(7), payload: vec![2, 2] }),
    );
    assert_eq!(outcome, DispatchOutcome::Blocked);
    // The frame was not consumed: no credit was reserved for it yet.
    assert_eq!(ctx.get_stream_credits(StreamId(7)).unwrap().available(), 98);
    // One poll consumes the first frame; the parked frame is re-attempted.
    let stream = StreamRef { stream_id: StreamId(7) };
    match stream.poll(&mut ctx, 1) {
        Ok(Async::Ready(Some(Frame::Data(d)))) => assert_eq!(d.payload, vec![1, 1]),
        other => panic!("expected first frame, got {:?}", other),
    }
    let parked = driver.take_head_of_line().expect("a parked frame");
    assert_eq!(
        parked,
        Frame::Data(Data { stream_id: StreamId(7), payload: vec![2, 2] })
    );
    let (outcome, _) = driver.dispatch(&mut ctx, parked);
    assert_eq!(outcome, DispatchOutcome::Handled);
    match stream.poll(&mut ctx, 1) {
        Ok(Async::Ready(Some(Frame::Data(d)))) => assert_eq!(d.payload, vec![2, 2]),
        other => panic!("expected second frame, got {:?}", other),
    }
}

/// Flow-control violation: a payload beyond the remaining credit yields
/// `InsufficientCredit`; the connection survives and nothing reaches the
/// application.
#[test]
fn flow_control_violation() {
    let mut ctx = enabled_ctx();
    let mut driver = ConnectionDriver::new();
    driver.dispatch(
        &mut ctx,
        Frame::StreamRequest(StreamRequest { stream_id: StreamId(7), credit_capacity: 100 }),
    );
    let (outcome, _) = driver.dispatch(
        &mut ctx,
        Frame::Data(Data { stream_id: StreamId(7), payload: vec![0; 101] }),
    );
    assert_eq!(
        outcome,
        DispatchOutcome::Recoverable(ConnectionError::InsufficientCredit)
    );
    assert!(!ctx.has_err());
    let stream = StreamRef { stream_id: StreamId(7) };
    assert_eq!(stream.poll(&mut ctx, 1), Ok(Async::NotReady));
}

/// A zero-capacity stream with flow control enabled rejects any data.
#[test]
fn zero_capacity_stream_rejects_data() {
    let mut ctx = enabled_ctx();
    let mut driver = ConnectionDriver::new();
    driver.dispatch(
        &mut ctx,
        Frame::StreamRequest(StreamRequest { stream_id: StreamId(9), credit_capacity: 0 }),
    );
    let (outcome, _) = driver.dispatch(
        &mut ctx,
        Frame::Data(Data { stream_id: StreamId(9), payload: vec![1] }),
    );
    assert_eq!(
        outcome,
        DispatchOutcome::Recoverable(ConnectionError::InsufficientCredit)
    );
}

/// Data for an unknown stream id is recoverable: logged and the connection
/// survives.
#[test]
fn unknown_stream_data_is_recoverable() {
    let mut ctx = enabled_ctx();
    let mut driver = ConnectionDriver::new();
    let (outcome, _) = driver.dispatch(
        &mut ctx,
        Frame::Data(Data { stream_id: StreamId(12), payload: vec![1] }),
    );
    assert_eq!(
        outcome,
        DispatchOutcome::Recoverable(ConnectionError::InvalidStreamId)
    );
    assert!(!ctx.has_err());
}

/// An `Unknown` frame is fatal: the error latches, `IncomingStreams` ends,
/// and send paths fail.
#[test]
fn unknown_frame_latches_error() {
    let mut ctx = enabled_ctx();
    let mut driver = ConnectionDriver::new();
    let (outcome, _) = driver.dispatch(&mut ctx, Frame::Unknown);
    assert_eq!(outcome, DispatchOutcome::Fatal(ConnectionError::UnknownFrame));
    assert!(ctx.has_err());
    let incoming = IncomingStreams::new();
    assert_eq!(incoming.poll(&mut ctx, 1), Async::Ready(None));
    let (r, _) = ctx.send_frame(Frame::Ping(StreamId(0), 0));
    assert_eq!(r, Err(ConnectionError::General));
    let stream = StreamRef { stream_id: StreamId(7) };
    assert_eq!(stream.poll(&mut ctx, 1), Ok(Async::Ready(None)));
}

/// Outbound open: a `StreamRequester` resolves to a handle, the queue holds
/// the `StreamRequest` in first position, and the local state exists with
/// the full window.
#[test]
fn outbound_open() {
    let mut ctx = enabled_ctx();
    let requester = StreamRequester { stream_id: StreamId(3), credit: 64 };
    let (r, _wake) = requester.poll(&mut ctx);
    let stream = r.expect("requester resolves");
    assert_eq!(stream.stream_id(), StreamId(3));
    assert_eq!(
        ctx.next_outbound(),
        Some(Frame::StreamRequest(StreamRequest { stream_id: StreamId(3), credit_capacity: 64 }))
    );
    let c = ctx.get_stream_credits(StreamId(3)).unwrap();
    assert_eq!(c.available(), 64);
    assert_eq!(c.capacity(), 64);
}

/// Opening an outbound stream with a colliding id fails.
#[test]
fn outbound_open_collision_fails() {
    let mut ctx = enabled_ctx();
    let requester = StreamRequester { stream_id: StreamId(3), credit: 64 };
    requester.poll(&mut ctx).0.expect("first open resolves");
    let again = StreamRequester { stream_id: StreamId(3), credit: 8 };
    let (r, _) = again.poll(&mut ctx);
    assert_eq!(r, Err(ConnectionError::InvalidStreamId));
}

/// Round trip: opening a stream, receiving a `Data` of length 10 and
/// consuming it leaves `available` reduced by 10; returns summing to 10
/// restore it to capacity.
#[test]
fn consume_and_restore_round_trip() {
    let mut ctx = enabled_ctx();
    let mut driver = ConnectionDriver::new();
    driver.dispatch(
        &mut ctx,
        Frame::StreamRequest(StreamRequest { stream_id: StreamId(7), credit_capacity: 100 }),
    );
    driver.dispatch(
        &mut ctx,
        Frame::Data(Data { stream_id: StreamId(7), payload: vec![3; 10] }),
    );
    let stream = StreamRef { stream_id: StreamId(7) };
    stream.poll(&mut ctx, 1).unwrap();
    assert_eq!(ctx.get_stream_credits(StreamId(7)).unwrap().available(), 90);
    stream.return_credit(&mut ctx, 4).0.unwrap();
    stream.return_credit(&mut ctx, 6).0.unwrap();
    assert_eq!(ctx.get_stream_credits(StreamId(7)).unwrap().available(), 100);
}

/// The acceptor task slot holds at most one task: a later poll supersedes
/// the earlier one, and delivery of a request wakes only the latest.
#[test]
fn acceptor_slot_keeps_latest_task() {
    let mut ctx = enabled_ctx();
    let incoming = IncomingStreams::new();
    assert_eq!(incoming.poll(&mut ctx, 1), Async::NotReady);
    assert_eq!(incoming.poll(&mut ctx, 2), Async::NotReady);
    let mut driver = ConnectionDriver::new();
    let (_, wake) = driver.dispatch(
        &mut ctx,
        Frame::StreamRequest(StreamRequest { stream_id: StreamId(5), credit_capacity: 1 }),
    );
    assert_eq!(wake, Some(2));
}

/// A payload exactly matching the remaining credit is accepted and drains
/// the window to zero; one more byte is then refused.
#[test]
fn exact_credit_boundary() {
    let mut ctx = enabled_ctx();
    let mut driver = ConnectionDriver::new();
    driver.dispatch(
        &mut ctx,
        Frame::StreamRequest(StreamRequest { stream_id: StreamId(7), credit_capacity: 100 }),
    );
    let (outcome, _) = driver.dispatch(
        &mut ctx,
        Frame::Data(Data { stream_id: StreamId(7), payload: vec![0; 100] }),
    );
    assert_eq!(outcome, DispatchOutcome::Handled);
    assert_eq!(ctx.get_stream_credits(StreamId(7)).unwrap().available(), 0);
    let stream = StreamRef { stream_id: StreamId(7) };
    stream.poll(&mut ctx, 1).unwrap();
    let (outcome, _) = driver.dispatch(
        &mut ctx,
        Frame::Data(Data { stream_id: StreamId(7), payload: vec![0; 1] }),
    );
    assert_eq!(
        outcome,
        DispatchOutcome::Recoverable(ConnectionError::InsufficientCredit)
    );
}

/// An outbound open with a full outbound queue fails with
/// `InsufficientCredit` and leaves the context untouched; once the queue
/// drains, the same open succeeds.
#[test]
fn outbound_open_with_full_queue_fails() {
    let mut ctx = enabled_ctx();
    for _ in 0..OUTBOUND_CAPACITY {
        ctx.send_frame(Frame::Ping(StreamId(0), 0)).0.unwrap();
    }
    let requester = StreamRequester { stream_id: StreamId(3), credit: 64 };
    let (r, _) = requester.poll(&mut ctx);
    assert_eq!(r, Err(ConnectionError::InsufficientCredit));
    // Nothing was registered: the failed open left both maps unchanged.
    assert!(ctx.get_stream_credits(StreamId(3)).is_none());
    // Drain one frame and retry: the same open now resolves.
    assert!(ctx.next_outbound().is_some());
    let (r, _) = requester.poll(&mut ctx);
    let stream = r.expect("retry resolves");
    assert_eq!(stream.stream_id(), StreamId(3));
    assert_eq!(ctx.get_stream_credits(StreamId(3)).unwrap().available(), 64);
}

/// Sending through a stream handle reserves credit and queues the frame.
#[test]
fn stream_handle_send_frame() {
    let mut ctx = enabled_ctx();
    let requester = StreamRequester { stream_id: StreamId(3), credit: 64 };
    let stream = requester.poll(&mut ctx).0.expect("requester resolves");
    assert!(matches!(ctx.poll_conn_capacity(), Async::Ready(())));
    let (r, _) = stream.send_frame(
        &mut ctx,
        Frame::Data(Data { stream_id: StreamId(3), payload: vec![9; 4] }),
    );
    assert_eq!(r, Ok(()));
    assert_eq!(ctx.get_stream_credits(StreamId(3)).unwrap().available(), 60);
    // The stream request is first in the queue, the data frame second.
    assert!(matches!(ctx.next_outbound(), Some(Frame::StreamRequest(_))));
    assert_eq!(
        ctx.next_outbound(),
        Some(Frame::Data(Data { stream_id: StreamId(3), payload: vec![9; 4] }))
    );
}
