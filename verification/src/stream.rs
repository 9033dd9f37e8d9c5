//! Per-stream state: the stream identifier, the credit counter with its two
//! task slots, and the single-slot inbound handoff queue.

use vstd::prelude::*;

use crate::connection::{Async, ConnectionContext, ConnectionError, OUTBOUND_CAPACITY};
use crate::flow::{apply_op, CreditOp, Credits, FlowControlStrategy, FC_DENOMINATOR, FC_NUMERATOR};
use crate::frames::{CreditUpdate, Data, DataView, Frame, StreamRequest};

verus! {

/// Identifier of a logical stream on a connection. The reserved value `0`
/// denotes "no stream" / connection-level frames.
#[derive(Clone, Copy, Debug, Hash, PartialEq, Eq, Structural, PartialOrd, Ord)]
pub struct StreamId(pub u32);

impl StreamId {
    pub fn new(id: u32) -> (r: Self)
        ensures
            r.0 == id,
    {
        StreamId(id)
    }
}

impl From<u32> for StreamId {
    fn from(it: u32) -> (r: Self) {
        StreamId(it)
    }
}

impl vstd::std_specs::convert::FromSpecImpl<u32> for StreamId {
    open spec fn obeys_from_spec() -> bool {
        true
    }

    open spec fn from_spec(it: u32) -> Self {
        StreamId(it)
    }
}

impl From<StreamId> for u32 {
    fn from(it: StreamId) -> (r: u32) {
        it.0
    }
}

impl vstd::std_specs::convert::FromSpecImpl<StreamId> for u32 {
    open spec fn obeys_from_spec() -> bool {
        true
    }

    open spec fn from_spec(it: StreamId) -> u32 {
        it.0
    }
}

impl From<StreamId> for usize {
    fn from(it: StreamId) -> (r: usize) {
        it.0 as usize
    }
}

impl vstd::std_specs::convert::FromSpecImpl<StreamId> for usize {
    open spec fn obeys_from_spec() -> bool {
        true
    }

    open spec fn from_spec(it: StreamId) -> usize {
        it.0 as usize
    }
}

/// State of one live stream: its credit counter and the at-most-one
/// suspended task per role. `T` is the host runtime's task handle.
#[derive(Debug)]
pub struct StreamState<T> {
    pub credits: Credits,
    /// Task waiting to be able to send data on this stream.
    pub send_task: Option<T>,
    /// Task waiting to receive data from this stream.
    pub recv_task: Option<T>,
}

impl<T> StreamState<T> {
    pub open spec fn wf(self) -> bool {
        self.credits.wf()
    }

    /// A fresh stream starts with its full credit window and no waiters.
    pub fn new(credit_capacity: u32) -> (r: Self)
        ensures
            r.credits == (Credits { capacity: credit_capacity, available: credit_capacity }),
            r.send_task is None,
            r.recv_task is None,
            r.wf(),
    {
        StreamState { credits: Credits::new(credit_capacity), send_task: None, recv_task: None }
    }

    /// Removes and returns the task waiting for inbound data, if any; the
    /// caller performs the actual wake-up.
    pub fn notify_data_rx(&mut self) -> (r: Option<T>)
        ensures
            r == old(self).recv_task,
            final(self).recv_task is None,
            final(self).send_task == old(self).send_task,
            final(self).credits == old(self).credits,
    {
        self.recv_task.take()
    }

    /// Removes and returns the task waiting for sending credit, if any; the
    /// caller performs the actual wake-up.
    pub fn notify_data_tx(&mut self) -> (r: Option<T>)
        ensures
            r == old(self).send_task,
            final(self).send_task is None,
            final(self).recv_task == old(self).recv_task,
            final(self).credits == old(self).credits,
    {
        self.send_task.take()
    }
}

/// The producer side of a stream's inbound handoff: a single-slot queue, so
/// backpressure is immediate. The ghost `delivered` history records, in
/// order, every frame the application has already consumed.
pub struct InboundQueue {
    pub slot: Option<Data>,
    pub delivered: Ghost<Seq<DataView>>,
}

impl InboundQueue {
    /// The frame sitting in the slot, as a (zero- or one-element) sequence.
    pub open spec fn pending(self) -> Seq<DataView> {
        match self.slot {
            Some(d) => seq![d@],
            None => Seq::empty(),
        }
    }

    /// Every frame this queue ever accepted, in arrival order: first the
    /// consumed ones, then whatever still sits in the slot.
    pub open spec fn arrived(self) -> Seq<DataView> {
        self.delivered@ + self.pending()
    }

    pub fn new() -> (r: Self)
        ensures
            r.slot is None,
            r.delivered@ == Seq::<DataView>::empty(),
            r.arrived() == Seq::<DataView>::empty(),
    {
        let r = InboundQueue { slot: None, delivered: Ghost(Seq::empty()) };
        proof {
            assert(r.arrived() =~= Seq::<DataView>::empty());
        }
        r
    }

    /// Whether the slot can accept a frame.
    pub fn is_ready(&self) -> (r: bool)
        ensures
            r == (self.slot is None),
    {
        self.slot.is_none()
    }

    /// Accepts one frame into the empty slot.
    pub fn push(&mut self, d: Data)
        requires
            old(self).slot is None,
        ensures
            final(self).slot == Some(d),
            final(self).delivered@ == old(self).delivered@,
            final(self).arrived() == old(self).arrived().push(d@),
    {
        self.slot = Some(d);
        proof {
            assert(self.arrived() =~= old(self).arrived().push(d@));
        }
    }

    /// Hands the slot's frame to the application, recording it as delivered.
    pub fn take(&mut self) -> (r: Option<Data>)
        ensures
            r == old(self).slot,
            final(self).slot is None,
            final(self).arrived() == old(self).arrived(),
            match old(self).slot {
                Some(d) => final(self).delivered@ == old(self).delivered@.push(d@),
                None => final(self).delivered@ == old(self).delivered@,
            },
    {
        let r = self.slot.take();
        match &r {
            Some(d) => {
                self.delivered = Ghost(self.delivered@.push(d@));
            },
            None => {},
        }
        proof {
            assert(self.arrived() =~= old(self).arrived());
        }
        r
    }
}

/// The credit-return watermark for a given capacity:
/// `capacity * FC_NUMERATOR / FC_DENOMINATOR`, rounded down.
pub open spec fn spec_threshold(capacity: u32) -> u32 {
    (((capacity as int) * (FC_NUMERATOR as int) / (FC_DENOMINATOR as int)) as u32)
}

/// Computes the credit-return watermark.
pub fn threshold(capacity: u32) -> (r: u32)
    ensures
        r == spec_threshold(capacity),
        r <= capacity,
{
    (capacity as u64 * FC_NUMERATOR / FC_DENOMINATOR) as u32
}

/// A lazy sequence of inbound streams: each poll either yields a handle for
/// the oldest not-yet-accepted `StreamRequest`, ends the sequence once the
/// connection has a latched error, or parks the calling task in the
/// acceptor slot.
pub struct IncomingStreams {}

impl IncomingStreams {
    pub fn new() -> (r: Self) {
        IncomingStreams {}
    }

    /// One poll of the incoming-stream sequence. `task` is the caller's own
    /// handle; it is stored (superseding any earlier one) when there is
    /// nothing to yield yet.
    pub fn poll<T>(&self, ctx: &mut ConnectionContext<T>, task: T) -> (r: Async<Option<StreamRef>>)
        requires
            old(ctx).wf(),
        ensures
            final(ctx).wf(),
            ConnectionContext::<T>::eq_streams(*old(ctx), *final(ctx)),
            ConnectionContext::<T>::eq_io(*old(ctx), *final(ctx)),
            ConnectionContext::<T>::eq_admin(*old(ctx), *final(ctx)),
            final(ctx).conn_task == old(ctx).conn_task,
            (if old(ctx).err is Some {
                &&& r == Async::Ready(Option::<StreamRef>::None)
                &&& final(ctx).new_streams@ == old(ctx).new_streams@
                &&& final(ctx).new_stream_task == old(ctx).new_stream_task
            } else if old(ctx).new_streams@.len() > 0 {
                &&& r == Async::Ready(
                    Some((StreamRef { stream_id: old(ctx).new_streams@[0].stream_id })),
                )
                &&& final(ctx).new_streams@ == old(ctx).new_streams@.drop_first()
                &&& final(ctx).new_stream_task == old(ctx).new_stream_task
            } else {
                &&& r == Async::<Option<StreamRef>>::NotReady
                &&& final(ctx).new_streams@ == old(ctx).new_streams@
                &&& final(ctx).new_stream_task == Some(task)
            }),
    {
        if ctx.has_err() {
            return Async::Ready(None);
        }
        match ctx.next_stream() {
            Some(ev) => Async::Ready(Some(StreamRef { stream_id: ev.stream_id })),
            None => {
                ctx.new_stream_task = Some(task);
                Async::NotReady
            },
        }
    }
}

/// A one-shot request to open an outbound stream with the given id and an
/// initial credit window.
pub struct StreamRequester {
    pub stream_id: StreamId,
    pub credit: u32,
}

impl StreamRequester {
    /// Attempts to open the stream: registers the local stream state and
    /// inbound slot, enqueues a `StreamRequest` frame for the peer, and
    /// resolves to a handle. Fails with the latched error, with
    /// `InvalidStreamId` when the id collides, and with
    /// `InsufficientCredit` when the outbound queue has no room; every
    /// failure leaves the context untouched, so the open may simply be
    /// retried.
    pub fn poll<T>(&self, ctx: &mut ConnectionContext<T>) -> (r: (
        Result<StreamRef, ConnectionError>,
        Option<T>,
    ))
        requires
            old(ctx).wf(),
        ensures
            final(ctx).wf(),
            requester_applied(*old(ctx), *final(ctx), self.stream_id, self.credit, r.0, r.1),
    {
        let id = self.stream_id.0;
        if ctx.has_err() {
            return (Err(ConnectionError::General), None);
        }
        if ctx.stream_states.contains_key(&id) {
            return (Err(ConnectionError::InvalidStreamId), None);
        }
        if ctx.outbound.len() >= OUTBOUND_CAPACITY {
            return (Err(ConnectionError::InsufficientCredit), None);
        }
        let state = StreamState::new(self.credit);
        ctx.stream_states.insert(id, state);
        ctx.stream_senders.insert(id, InboundQueue::new());
        proof {
            assert(ctx.stream_states@.dom() =~= ctx.stream_senders@.dom());
        }
        let sr = StreamRequest::new(self.stream_id, self.credit);
        let (res, wake) = ctx.send_frame(Frame::StreamRequest(sr));
        match res {
            Ok(_) => (Ok(StreamRef { stream_id: self.stream_id }), wake),
            Err(_) => {
                proof {
                    assert(false);
                }
                vstd::pervasive::unreached()
            },
        }
    }
}

/// How `StreamRequester::poll` relates the context before and after: every
/// failure leaves the context exactly as it was; success registers the
/// fresh stream state and inbound slot in both maps, enqueues the
/// `StreamRequest` frame, and hands back the driver's task for waking.
pub open spec fn requester_applied<T>(
    pre: ConnectionContext<T>,
    post: ConnectionContext<T>,
    sid: StreamId,
    credit: u32,
    r: Result<StreamRef, ConnectionError>,
    wake: Option<T>,
) -> bool {
    let id = sid.0;
    if pre.err is Some {
        &&& r == Err::<StreamRef, ConnectionError>(ConnectionError::General)
        &&& post == pre
        &&& wake is None
    } else if pre.stream_states@.contains_key(id) {
        &&& r == Err::<StreamRef, ConnectionError>(ConnectionError::InvalidStreamId)
        &&& post == pre
        &&& wake is None
    } else if pre.outbound@.len() >= OUTBOUND_CAPACITY {
        &&& r == Err::<StreamRef, ConnectionError>(ConnectionError::InsufficientCredit)
        &&& post == pre
        &&& wake is None
    } else {
        &&& r == Ok::<StreamRef, ConnectionError>((StreamRef { stream_id: sid }))
        &&& post.stream_states@ == pre.stream_states@.insert(
            id,
            (StreamState {
                credits: (Credits { capacity: credit, available: credit }),
                send_task: None,
                recv_task: None,
            }),
        )
        &&& ConnectionContext::<T>::senders_changed_at(pre, post, id)
        &&& post.stream_senders@[id].slot is None
        &&& post.stream_senders@[id].delivered@ == Seq::<DataView>::empty()
        &&& ConnectionContext::<T>::eq_acceptor(pre, post)
        &&& ConnectionContext::<T>::eq_admin(pre, post)
        &&& post.written == pre.written
        &&& post.outbound@ == pre.outbound@.push(
            Frame::StreamRequest((StreamRequest { stream_id: sid, credit_capacity: credit })),
        )
        &&& wake == pre.conn_task
        &&& post.conn_task is None
    }
}

/// Handle for an established stream: send frames, consume inbound frames,
/// return credit.
#[derive(Clone, Debug, PartialEq, Eq, Structural)]
pub struct StreamRef {
    pub stream_id: StreamId,
}

/// How `StreamRef::return_credit` relates the context before and after:
/// the returned credit is granted to the stream's counter (saturating at
/// capacity), and a `CreditUpdate` carrying the effective delta is
/// enqueued only when flow control is enabled, the delta is positive, and
/// `available` has reached the watermark — so small returns are batched
/// and a zero return is a no-op.
pub open spec fn return_credit_applied<T>(
    pre: ConnectionContext<T>,
    post: ConnectionContext<T>,
    sid: StreamId,
    credit: u32,
    r: Result<(), ()>,
    wake: Option<T>,
) -> bool {
    let id = sid.0;
    if !pre.stream_states@.contains_key(id) {
        &&& r == Err::<(), ()>(())
        &&& post == pre
        &&& wake is None
    } else {
        let st = pre.stream_states@[id];
        let granted = apply_op(st.credits, CreditOp::Grant(credit));
        let delta = granted.available - st.credits.available;
        let emits = pre.fc_enabled() && delta > 0 && granted.available >= spec_threshold(
            st.credits.capacity,
        );
        &&& r == Ok::<(), ()>(())
        &&& post.stream_states@ == pre.stream_states@.insert(
            id,
            (StreamState { credits: granted, send_task: st.send_task, recv_task: st.recv_task }),
        )
        &&& post.stream_senders@ == pre.stream_senders@
        &&& ConnectionContext::<T>::eq_acceptor(pre, post)
        &&& ConnectionContext::<T>::eq_admin(pre, post)
        &&& post.written == pre.written
        &&& (if emits && pre.err is None && pre.outbound@.len() < OUTBOUND_CAPACITY {
            &&& post.outbound@ == pre.outbound@.push(
                Frame::CreditUpdate((CreditUpdate { stream_id: sid, credit: delta as u32 })),
            )
            &&& wake == pre.conn_task
            &&& post.conn_task is None
        } else {
            &&& post.outbound@ == pre.outbound@
            &&& post.conn_task == pre.conn_task
            &&& wake is None
        })
    }
}

/// How `StreamRef::poll` relates the context before and after.
pub open spec fn stream_poll_applied<T>(
    pre: ConnectionContext<T>,
    post: ConnectionContext<T>,
    sid: StreamId,
    task: T,
    r: Result<Async<Option<Frame>>, ()>,
) -> bool {
    let id = sid.0;
    if pre.err is Some {
        &&& r == Ok::<Async<Option<Frame>>, ()>(Async::Ready(None))
        &&& post == pre
    } else if !pre.stream_states@.contains_key(id) {
        &&& r == Err::<Async<Option<Frame>>, ()>(())
        &&& post == pre
    } else {
        let q = pre.stream_senders@[id];
        match q.slot {
            Some(d) => {
                &&& r == Ok::<Async<Option<Frame>>, ()>(Async::Ready(Some(Frame::Data(d))))
                &&& post.stream_states@ == pre.stream_states@
                &&& ConnectionContext::<T>::senders_changed_at(pre, post, id)
                &&& post.stream_senders@[id].slot is None
                &&& post.stream_senders@[id].delivered@ == q.delivered@.push(d@)
                &&& post.stream_senders@[id].arrived() == q.arrived()
                &&& post.conn_task == pre.conn_task
                &&& ConnectionContext::<T>::eq_io(pre, post)
                &&& ConnectionContext::<T>::eq_acceptor(pre, post)
                &&& ConnectionContext::<T>::eq_admin(pre, post)
            },
            None => {
                &&& r == Ok::<Async<Option<Frame>>, ()>(Async::NotReady)
                &&& post.stream_states@ == pre.stream_states@.insert(
                    id,
                    (StreamState {
                        credits: pre.stream_states@[id].credits,
                        send_task: pre.stream_states@[id].send_task,
                        recv_task: Some(task),
                    }),
                )
                &&& ConnectionContext::<T>::senders_changed_at(pre, post, id)
                &&& post.stream_senders@[id].slot is None
                &&& post.stream_senders@[id].delivered@ == q.delivered@
                &&& post.conn_task == pre.conn_task
                &&& ConnectionContext::<T>::eq_io(pre, post)
                &&& ConnectionContext::<T>::eq_acceptor(pre, post)
                &&& ConnectionContext::<T>::eq_admin(pre, post)
            },
        }
    }
}

impl StreamRef {
    pub fn stream_id(&self) -> (r: StreamId)
        ensures
            r == self.stream_id,
    {
        self.stream_id
    }

    /// Sends a frame on the connection; delegates to the context, which
    /// validates flow control for `Data` frames.
    pub fn send_frame<T>(&self, ctx: &mut ConnectionContext<T>, frame: Frame) -> (r: (
        Result<(), ConnectionError>,
        Option<T>,
    ))
        requires
            old(ctx).wf(),
            frame matches Frame::Data(d) ==> d.payload@.len() <= u32::MAX,
        ensures
            final(ctx).wf(),
            ConnectionContext::<T>::send_frame_applied(*old(ctx), *final(ctx), frame, r.0, r.1),
    {
        ctx.send_frame(frame)
    }

    /// Returns `credit` consumed bytes to the stream's receive window and,
    /// once `available` has climbed back to the watermark, emits one
    /// batched `CreditUpdate` carrying everything returned since the last
    /// emission. Returning zero is a no-op and emits nothing.
    pub fn return_credit<T>(&self, ctx: &mut ConnectionContext<T>, credit: u32) -> (r: (
        Result<(), ()>,
        Option<T>,
    ))
        requires
            old(ctx).wf(),
        ensures
            final(ctx).wf(),
            return_credit_applied(*old(ctx), *final(ctx), self.stream_id, credit, r.0, r.1),
    {
        let id = self.stream_id.0;
        if !ctx.stream_states.contains_key(&id) {
            return (Err(()), None);
        }
        let mut st = match ctx.stream_states.remove(&id) {
            Some(st) => st,
            None => {
                proof {
                    assert(false);
                }
                vstd::pervasive::unreached()
            },
        };
        let delta = st.credits.grant(credit);
        let available = st.credits.available();
        let capacity = st.credits.capacity();
        ctx.stream_states.insert(id, st);
        proof {
            assert(ctx.stream_states@ =~= old(ctx).stream_states@.insert(id, st));
            assert(ctx.stream_states@.dom() =~= ctx.stream_senders@.dom());
        }
        let thr = threshold(capacity);
        let enabled = match ctx.cfg.flow_control_strategy {
            FlowControlStrategy::Disabled => false,
            FlowControlStrategy::Enabled => true,
        };
        if enabled && delta > 0 && available >= thr {
            let cu = CreditUpdate { stream_id: self.stream_id, credit: delta };
            let (_res, wake) = ctx.send_frame(Frame::CreditUpdate(cu));
            (Ok(()), wake)
        } else {
            (Ok(()), None)
        }
    }

    /// One poll of the stream's inbound sequence: yields the frame waiting
    /// in the handoff slot, ends the sequence once the connection has a
    /// latched error, fails for an unknown stream, and otherwise parks the
    /// calling task in the stream's `recv_task` slot.
    pub fn poll<T>(&self, ctx: &mut ConnectionContext<T>, task: T) -> (r: Result<
        Async<Option<Frame>>,
        (),
    >)
        requires
            old(ctx).wf(),
        ensures
            final(ctx).wf(),
            stream_poll_applied(*old(ctx), *final(ctx), self.stream_id, task, r),
    {
        let id = self.stream_id.0;
        if ctx.has_err() {
            return Ok(Async::Ready(None));
        }
        if !ctx.stream_states.contains_key(&id) {
            return Err(());
        }
        proof {
            assert(ctx.stream_senders@.contains_key(id));
        }
        let mut q = match ctx.stream_senders.remove(&id) {
            Some(q) => q,
            None => {
                proof {
                    assert(false);
                }
                vstd::pervasive::unreached()
            },
        };
        let got = q.take();
        ctx.stream_senders.insert(id, q);
        proof {
            assert(ctx.stream_senders@.dom() =~= old(ctx).stream_senders@.dom().insert(id));
            assert(ctx.stream_states@.dom() =~= ctx.stream_senders@.dom());
        }
        match got {
            Some(d) => Ok(Async::Ready(Some(Frame::Data(d)))),
            None => {
                let mut st = match ctx.stream_states.remove(&id) {
                    Some(st) => st,
                    None => {
                        proof {
                            assert(false);
                        }
                        vstd::pervasive::unreached()
                    },
                };
                st.recv_task = Some(task);
                ctx.stream_states.insert(id, st);
                proof {
                    assert(ctx.stream_states@ =~= old(ctx).stream_states@.insert(id, st));
                    assert(ctx.stream_states@.dom() =~= ctx.stream_senders@.dom());
                }
                Ok(Async::NotReady)
            },
        }
    }
}

/// Inbound frames reach the application in the exact order they arrived:
/// what has been delivered is always a prefix of what arrived, and nothing
/// is ever delivered out of order or dropped from the middle.
pub proof fn lemma_inbound_delivery_order(q: InboundQueue)
    ensures
        q.delivered@ == q.arrived().take(q.delivered@.len() as int),
        q.delivered@.len() <= q.arrived().len(),
{
    assert(q.delivered@ =~= q.arrived().take(q.delivered@.len() as int));
}

/// Returning credit performs at most one send: every `return_credit`
/// transition is an outbound step.
pub proof fn lemma_return_credit_is_outbound_step<T>(
    pre: ConnectionContext<T>,
    post: ConnectionContext<T>,
    sid: StreamId,
    credit: u32,
    r: Result<(), ()>,
    wake: Option<T>,
)
    requires
        return_credit_applied(pre, post, sid, credit, r, wake),
    ensures
        crate::connection::outbound_step(pre, post),
{
    let id = sid.0;
    if pre.stream_states@.contains_key(id) {
        let st = pre.stream_states@[id];
        let granted = apply_op(st.credits, CreditOp::Grant(credit));
        let delta = granted.available - st.credits.available;
        let fr = Frame::CreditUpdate((CreditUpdate { stream_id: sid, credit: delta as u32 }));
        if post.outbound@ != pre.outbound@ {
            assert(post.outbound@ == pre.outbound@.push(fr) && post.written == pre.written);
        }
    }
}

/// Opening an outbound stream performs at most one send: every
/// `StreamRequester::poll` transition is an outbound step.
pub proof fn lemma_requester_is_outbound_step<T>(
    pre: ConnectionContext<T>,
    post: ConnectionContext<T>,
    sid: StreamId,
    credit: u32,
    r: Result<StreamRef, ConnectionError>,
    wake: Option<T>,
)
    requires
        requester_applied(pre, post, sid, credit, r, wake),
    ensures
        crate::connection::outbound_step(pre, post),
{
    let fr = Frame::StreamRequest((StreamRequest { stream_id: sid, credit_capacity: credit }));
    if post.outbound@ != pre.outbound@ {
        assert(post.outbound@ == pre.outbound@.push(fr) && post.written == pre.written);
    }
}

/// The three moves an inbound handoff slot ever makes: left alone, filled
/// while empty (a frame arrives), or emptied into the delivered history (the
/// application consumes the frame). `push` and `take` allow nothing else.
pub open spec fn inbound_queue_step(pre: InboundQueue, post: InboundQueue) -> bool {
    ||| (post.slot == pre.slot && post.delivered@ == pre.delivered@)
    ||| (pre.slot is None && post.slot is Some && post.delivered@ == pre.delivered@)
    ||| (pre.slot matches Some(d) && post.slot is None && post.delivered@ == pre.delivered@.push(
        d@,
    ))
}

/// Across any step of the handoff slot, both histories only grow at the
/// end: earlier arrivals and earlier deliveries are never reordered or
/// retracted, and the delivered history stays a prefix of the arrivals.
pub proof fn lemma_inbound_order_preserved(pre: InboundQueue, post: InboundQueue)
    requires
        inbound_queue_step(pre, post),
    ensures
        pre.arrived().is_prefix_of(post.arrived()),
        pre.delivered@.is_prefix_of(post.delivered@),
        post.delivered@ == post.arrived().take(post.delivered@.len() as int),
{
    assert(pre.arrived() =~= post.arrived().take(pre.arrived().len() as int));
    assert(pre.delivered@ =~= post.delivered@.take(pre.delivered@.len() as int));
    assert(post.delivered@ =~= post.arrived().take(post.delivered@.len() as int));
}

/// Routing an inbound `Data` frame moves its stream's handoff slot only by
/// a legal step: it is filled while empty, or left alone.
pub proof fn lemma_data_is_inbound_step<T>(
    pre: ConnectionContext<T>,
    post: ConnectionContext<T>,
    d: Data,
    r: Result<crate::connection::AsyncHandle, ConnectionError>,
    wake: Option<T>,
)
    requires
        ConnectionContext::<T>::data_applied(pre, post, d, r, wake),
    ensures
        inbound_queue_step(
            pre.stream_senders@[d.stream_id.0],
            post.stream_senders@[d.stream_id.0],
        ),
{
}

/// Consuming from a stream moves its handoff slot only by a legal step:
/// the slot empties into the delivered history, or is left alone.
pub proof fn lemma_poll_is_inbound_step<T>(
    pre: ConnectionContext<T>,
    post: ConnectionContext<T>,
    sid: StreamId,
    task: T,
    r: Result<Async<Option<Frame>>, ()>,
)
    requires
        stream_poll_applied(pre, post, sid, task, r),
    ensures
        inbound_queue_step(pre.stream_senders@[sid.0], post.stream_senders@[sid.0]),
{
}

} // verus!
