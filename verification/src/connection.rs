//! The shared hub of one connection: every stream's state, inbound frame
//! dispatch, the outbound queue, credit enforcement, the task registry, and
//! the head-of-line slot of the connection driver.
//!
//! The context is a pure state machine. The host runtime feeds decoded
//! frames in (`handle_frame`, or `ConnectionDriver::dispatch` for the
//! head-of-line discipline), drains queued frames out (`next_outbound`), and
//! passes its own task handles — the type parameter `T` — wherever a caller
//! may need to be woken later. Every operation that may wake a task returns
//! the displaced handle; the caller performs the actual wake-up.

use std::collections::HashMap;

use vstd::prelude::*;

use crate::flow::{apply_op, CreditOp, Credits, FlowControlStrategy};
use crate::frames::{CreditUpdate, Data, DataView, Frame, FrameView, StreamRequest};
use crate::stream::{InboundQueue, StreamId, StreamState};

verus! {

/// Why a connection-level operation failed.
#[derive(Clone, Copy, Debug, PartialEq, Eq, Structural)]
pub enum ConnectionError {
    /// The operation referenced an unknown or colliding stream.
    InvalidStreamId,
    /// A decoded frame was outside the vocabulary (fatal).
    UnknownFrame,
    /// A lower-level failure, or the connection's latched terminal error.
    General,
    /// Flow control would be violated, or the outbound queue has no room.
    InsufficientCredit,
}

/// Connection-wide configuration.
#[derive(Clone, Copy, Debug)]
pub struct ConnectionConfig {
    pub flow_control_strategy: FlowControlStrategy,
}

impl Default for ConnectionConfig {
    /// Flow control is off unless asked for.
    fn default() -> (r: Self)
        ensures
            r.flow_control_strategy == FlowControlStrategy::Disabled,
    {
        ConnectionConfig { flow_control_strategy: FlowControlStrategy::Disabled }
    }
}

/// Readiness of a cooperative operation, mirroring the host runtime's
/// poll result.
#[derive(Clone, Copy, Debug, PartialEq, Eq)]
pub enum Async<A> {
    Ready(A),
    NotReady,
}

/// Outcome of dispatching one inbound frame: done, or hand the frame back
/// so the caller can retry it later without consuming further input.
#[derive(Debug, PartialEq)]
pub enum AsyncHandle {
    Ready,
    NotReady(Frame),
}

/// Capacity of the outbound frame queue.
pub const OUTBOUND_CAPACITY: usize = 1024;

/// Tracks connection-related state needed for driving I/O progress.
pub struct ConnectionContext<T> {
    pub cfg: ConnectionConfig,
    /// ID of this connection (informational).
    pub id: u32,
    /// The latched terminal error, if there is one.
    pub err: Option<ConnectionError>,
    /// Stream management store.
    pub stream_states: HashMap<u32, StreamState<T>>,
    /// Producer side of each stream's inbound handoff slot, for forwarding
    /// decoded frames to the application.
    pub stream_senders: HashMap<u32, InboundQueue>,
    /// Frames awaiting the single writer, oldest first.
    pub outbound: Vec<Frame>,
    /// History of the frames already handed to the transport, oldest first.
    pub written: Ghost<Seq<FrameView>>,
    /// Inbound stream requests not yet accepted by the application.
    pub new_streams: Vec<StreamRequest>,
    /// Task which drives the connection's I/O progress.
    pub conn_task: Option<T>,
    /// Task which awaits new streams.
    pub new_stream_task: Option<T>,
}

impl<T> ConnectionContext<T> {
    /// The frames still queued for the writer, as views, oldest first.
    pub open spec fn outbound_views(self) -> Seq<FrameView> {
        self.outbound@.map_values(|f: Frame| f@)
    }

    /// Every frame ever enqueued by a successful send, in order: first the
    /// ones already written to the transport, then the ones still queued.
    pub open spec fn sent_frames(self) -> Seq<FrameView> {
        self.written@ + self.outbound_views()
    }

    /// Whether flow control is enforced on the data paths.
    pub open spec fn fc_enabled(self) -> bool {
        self.cfg.flow_control_strategy == FlowControlStrategy::Enabled
    }

    /// Well-formedness: the two stream maps have the same keys, every
    /// stream's credit counter is within its capacity, and the outbound
    /// queue is within its bound.
    pub open spec fn wf(self) -> bool {
        &&& self.stream_states@.dom() == self.stream_senders@.dom()
        &&& forall|k: u32|
            self.stream_states@.contains_key(k) ==> (#[trigger] self.stream_states@[k]).wf()
        &&& self.outbound@.len() <= OUTBOUND_CAPACITY
    }

    /// Both stream maps are unchanged.
    pub open spec fn eq_streams(pre: Self, post: Self) -> bool {
        &&& post.stream_states@ == pre.stream_states@
        &&& post.stream_senders@ == pre.stream_senders@
    }

    /// The outbound queue and the written history are unchanged.
    pub open spec fn eq_io(pre: Self, post: Self) -> bool {
        &&& post.outbound@ == pre.outbound@
        &&& post.written == pre.written
    }

    /// The pending stream requests and the acceptor slot are unchanged.
    pub open spec fn eq_acceptor(pre: Self, post: Self) -> bool {
        &&& post.new_streams@ == pre.new_streams@
        &&& post.new_stream_task == pre.new_stream_task
    }

    /// Error latch, configuration and id are unchanged.
    pub open spec fn eq_admin(pre: Self, post: Self) -> bool {
        &&& post.err == pre.err
        &&& post.cfg == pre.cfg
        &&& post.id == pre.id
    }

    /// In `stream_senders`, only the entry at `id` changed, and the key set
    /// is unchanged but for (possibly) adding `id`.
    pub open spec fn senders_changed_at(pre: Self, post: Self, id: u32) -> bool {
        &&& post.stream_senders@.dom() == pre.stream_senders@.dom().insert(id)
        &&& forall|k: u32|
            k != id && pre.stream_senders@.contains_key(k) ==> post.stream_senders@[k]
                == #[trigger] pre.stream_senders@[k]
    }

    /// How `on_stream_request` relates the states before and after: a
    /// colliding id is rejected untouched; otherwise a fresh stream state
    /// and an empty inbound slot are registered, the raw request is queued
    /// for the acceptor, and the acceptor's task is handed back for waking.
    pub open spec fn stream_request_applied(
        pre: Self,
        post: Self,
        req: StreamRequest,
        r: Result<AsyncHandle, ConnectionError>,
        wake: Option<T>,
    ) -> bool {
        let id = req.stream_id.0;
        if pre.stream_states@.contains_key(id) {
            &&& r == Err::<AsyncHandle, ConnectionError>(ConnectionError::InvalidStreamId)
            &&& post == pre
            &&& wake is None
        } else {
            &&& r == Ok::<AsyncHandle, ConnectionError>(AsyncHandle::Ready)
            &&& post.stream_states@ == pre.stream_states@.insert(
                id,
                (StreamState {
                    credits: (Credits {
                        capacity: req.credit_capacity,
                        available: req.credit_capacity,
                    }),
                    send_task: None,
                    recv_task: None,
                }),
            )
            &&& Self::senders_changed_at(pre, post, id)
            &&& post.stream_senders@[id].slot is None
            &&& post.stream_senders@[id].delivered@ == Seq::<DataView>::empty()
            &&& post.new_streams@ == pre.new_streams@.push(req)
            &&& wake == pre.new_stream_task
            &&& post.new_stream_task is None
            &&& post.conn_task == pre.conn_task
            &&& Self::eq_io(pre, post)
            &&& Self::eq_admin(pre, post)
        }
    }

    /// How `on_credit_update` relates the states before and after: the
    /// grant is applied to the stream's credits (saturating at capacity)
    /// and the task waiting for credit is handed back for waking.
    pub open spec fn credit_update_applied(
        pre: Self,
        post: Self,
        cu: CreditUpdate,
        r: Result<AsyncHandle, ConnectionError>,
        wake: Option<T>,
    ) -> bool {
        let id = cu.stream_id.0;
        if !pre.stream_states@.contains_key(id) {
            &&& r == Err::<AsyncHandle, ConnectionError>(ConnectionError::InvalidStreamId)
            &&& post == pre
            &&& wake is None
        } else {
            let st = pre.stream_states@[id];
            &&& r == Ok::<AsyncHandle, ConnectionError>(AsyncHandle::Ready)
            &&& post.stream_states@ == pre.stream_states@.insert(
                id,
                (StreamState {
                    credits: apply_op(st.credits, CreditOp::Grant(cu.credit)),
                    send_task: None,
                    recv_task: st.recv_task,
                }),
            )
            &&& post.stream_senders@ == pre.stream_senders@
            &&& wake == st.send_task
            &&& post.conn_task == pre.conn_task
            &&& Self::eq_io(pre, post)
            &&& Self::eq_acceptor(pre, post)
            &&& Self::eq_admin(pre, post)
        }
    }

    /// How `on_data` relates the states before and after. An unknown id is
    /// rejected; a full inbound slot hands the frame back untouched (the
    /// caller must retry it later); with flow control enabled a payload
    /// beyond the remaining credit is rejected; otherwise the credit is
    /// reserved, the frame enters the slot, and the task waiting for data
    /// is handed back for waking.
    pub open spec fn data_applied(
        pre: Self,
        post: Self,
        d: Data,
        r: Result<AsyncHandle, ConnectionError>,
        wake: Option<T>,
    ) -> bool {
        let id = d.stream_id.0;
        if !pre.stream_states@.contains_key(id) {
            &&& r == Err::<AsyncHandle, ConnectionError>(ConnectionError::InvalidStreamId)
            &&& post == pre
            &&& wake is None
        } else if pre.stream_senders@[id].slot is Some {
            &&& r == Ok::<AsyncHandle, ConnectionError>(AsyncHandle::NotReady(Frame::Data(d)))
            &&& post == pre
            &&& wake is None
        } else if pre.fc_enabled() && pre.stream_states@[id].credits.available < d.payload@.len() {
            &&& r == Err::<AsyncHandle, ConnectionError>(ConnectionError::InsufficientCredit)
            &&& post == pre
            &&& wake is None
        } else {
            let st = pre.stream_states@[id];
            let new_credits = if pre.fc_enabled() {
                apply_op(st.credits, CreditOp::Reserve(d.payload@.len() as u32))
            } else {
                st.credits
            };
            &&& r == Ok::<AsyncHandle, ConnectionError>(AsyncHandle::Ready)
            &&& post.stream_states@ == pre.stream_states@.insert(
                id,
                (StreamState { credits: new_credits, send_task: st.send_task, recv_task: None }),
            )
            &&& wake == st.recv_task
            &&& Self::senders_changed_at(pre, post, id)
            &&& post.stream_senders@[id].slot == Some(d)
            &&& post.stream_senders@[id].delivered@ == pre.stream_senders@[id].delivered@
            &&& post.stream_senders@[id].arrived() == pre.stream_senders@[id].arrived().push(d@)
            &&& post.conn_task == pre.conn_task
            &&& Self::eq_io(pre, post)
            &&& Self::eq_acceptor(pre, post)
            &&& Self::eq_admin(pre, post)
        }
    }

    /// How `handle_frame` relates the states before and after, per frame
    /// variant. `Ping` and `Pong` are consumed with no effect (liveness is
    /// an external collaborator's concern); `Unknown` is an error the
    /// driver treats as fatal.
    pub open spec fn frame_applied(
        pre: Self,
        post: Self,
        f: Frame,
        r: Result<AsyncHandle, ConnectionError>,
        wake: Option<T>,
    ) -> bool {
        match f {
            Frame::StreamRequest(req) => Self::stream_request_applied(pre, post, req, r, wake),
            Frame::CreditUpdate(cu) => Self::credit_update_applied(pre, post, cu, r, wake),
            Frame::Data(d) => Self::data_applied(pre, post, d, r, wake),
            Frame::Ping(_, _) => r == Ok::<AsyncHandle, ConnectionError>(AsyncHandle::Ready)
                && post == pre && wake is None,
            Frame::Pong(_, _) => r == Ok::<AsyncHandle, ConnectionError>(AsyncHandle::Ready)
                && post == pre && wake is None,
            Frame::Unknown => r == Err::<AsyncHandle, ConnectionError>(
                ConnectionError::UnknownFrame,
            ) && post == pre && wake is None,
        }
    }

    /// The frame dispatcher consumes this frame in this state: the inbound
    /// dispatch succeeds with no error and nothing handed back.
    pub open spec fn frame_accepted(pre: Self, f: Frame) -> bool {
        match f {
            Frame::StreamRequest(req) => !pre.stream_states@.contains_key(req.stream_id.0),
            Frame::CreditUpdate(cu) => pre.stream_states@.contains_key(cu.stream_id.0),
            Frame::Data(d) => {
                &&& pre.stream_states@.contains_key(d.stream_id.0)
                &&& pre.stream_senders@[d.stream_id.0].slot is None
                &&& (pre.fc_enabled() ==> d.payload@.len()
                    <= pre.stream_states@[d.stream_id.0].credits.available)
            },
            Frame::Ping(_, _) => true,
            Frame::Pong(_, _) => true,
            Frame::Unknown => false,
        }
    }

    /// The inbound dispatch must hand this frame back in this state: its
    /// stream's single inbound slot is still full.
    pub open spec fn frame_blocked(pre: Self, f: Frame) -> bool {
        f matches Frame::Data(d) && pre.stream_states@.contains_key(d.stream_id.0)
            && pre.stream_senders@[d.stream_id.0].slot is Some
    }

    /// How `send_frame` relates the states before and after. Once an error
    /// is latched every send fails. A `Data` frame must name a known stream
    /// and, with flow control enabled, fit in the remaining credit, which it
    /// consumes. A full outbound queue refuses the frame. On success the
    /// frame is appended to the outbound queue and the driver's task is
    /// handed back for waking.
    pub open spec fn send_frame_applied(
        pre: Self,
        post: Self,
        f: Frame,
        r: Result<(), ConnectionError>,
        wake: Option<T>,
    ) -> bool {
        if pre.err is Some {
            &&& r == Err::<(), ConnectionError>(ConnectionError::General)
            &&& post == pre
            &&& wake is None
        } else if (f matches Frame::Data(d) && !pre.stream_states@.contains_key(d.stream_id.0)) {
            &&& r == Err::<(), ConnectionError>(ConnectionError::InvalidStreamId)
            &&& post == pre
            &&& wake is None
        } else if (f matches Frame::Data(d) && pre.fc_enabled()
            && pre.stream_states@[d.stream_id.0].credits.available < d.payload@.len()) {
            &&& r == Err::<(), ConnectionError>(ConnectionError::InsufficientCredit)
            &&& post == pre
            &&& wake is None
        } else if pre.outbound@.len() >= OUTBOUND_CAPACITY {
            &&& r == Err::<(), ConnectionError>(ConnectionError::InsufficientCredit)
            &&& post == pre
            &&& wake is None
        } else {
            &&& r == Ok::<(), ConnectionError>(())
            &&& post.outbound@ == pre.outbound@.push(f)
            &&& post.written == pre.written
            &&& (match f {
                Frame::Data(d) => {
                    let st = pre.stream_states@[d.stream_id.0];
                    let new_credits = if pre.fc_enabled() {
                        apply_op(st.credits, CreditOp::Reserve(d.payload@.len() as u32))
                    } else {
                        st.credits
                    };
                    post.stream_states@ == pre.stream_states@.insert(
                        d.stream_id.0,
                        (StreamState {
                            credits: new_credits,
                            send_task: st.send_task,
                            recv_task: st.recv_task,
                        }),
                    )
                },
                _ => post.stream_states@ == pre.stream_states@,
            })
            &&& post.stream_senders@ == pre.stream_senders@
            &&& wake == pre.conn_task
            &&& post.conn_task is None
            &&& Self::eq_acceptor(pre, post)
            &&& Self::eq_admin(pre, post)
        }
    }

    /// A fresh context: no streams, no queued frames, no waiters, no error.
    pub fn with_config(id: u32, cfg: ConnectionConfig) -> (r: Self)
        ensures
            r.cfg == cfg,
            r.id == id,
            r.err is None,
            r.stream_states@ == Map::<u32, StreamState<T>>::empty(),
            r.stream_senders@ == Map::<u32, InboundQueue>::empty(),
            r.outbound@ == Seq::<Frame>::empty(),
            r.written@ == Seq::<FrameView>::empty(),
            r.sent_frames() == Seq::<FrameView>::empty(),
            r.new_streams@ == Seq::<StreamRequest>::empty(),
            r.conn_task is None,
            r.new_stream_task is None,
            r.wf(),
    {
        let r = ConnectionContext {
            cfg,
            id,
            err: None,
            stream_states: HashMap::new(),
            stream_senders: HashMap::new(),
            outbound: Vec::new(),
            written: Ghost(Seq::empty()),
            new_streams: Vec::new(),
            conn_task: None,
            new_stream_task: None,
        };
        proof {
            assert(r.stream_states@.dom() =~= r.stream_senders@.dom());
            assert(r.sent_frames() =~= Seq::<FrameView>::empty());
        }
        r
    }

    /// A fresh context with the default configuration.
    pub fn new(id: u32) -> (r: Self)
        ensures
            r.cfg.flow_control_strategy == FlowControlStrategy::Disabled,
            r.id == id,
            r.err is None,
            r.stream_states@ == Map::<u32, StreamState<T>>::empty(),
            r.stream_senders@ == Map::<u32, InboundQueue>::empty(),
            r.outbound@ == Seq::<Frame>::empty(),
            r.written@ == Seq::<FrameView>::empty(),
            r.new_streams@ == Seq::<StreamRequest>::empty(),
            r.conn_task is None,
            r.new_stream_task is None,
            r.wf(),
    {
        Self::with_config(id, ConnectionConfig::default())
    }

    /// Registers an inbound stream request: creates the stream's state and
    /// inbound slot, queues the request for the acceptor, and returns the
    /// acceptor's task for waking.
    pub fn on_stream_request(&mut self, request: StreamRequest) -> (r: (
        Result<AsyncHandle, ConnectionError>,
        Option<T>,
    ))
        requires
            old(self).wf(),
        ensures
            Self::stream_request_applied(*old(self), *final(self), request, r.0, r.1),
            final(self).wf(),
    {
        let id = request.stream_id.0;
        if self.stream_states.contains_key(&id) {
            return (Err(ConnectionError::InvalidStreamId), None);
        }
        let state = StreamState::new(request.credit_capacity);
        self.stream_states.insert(id, state);
        self.stream_senders.insert(id, InboundQueue::new());
        self.new_streams.push(request);
        let wake = self.new_stream_task.take();
        proof {
            assert(self.stream_states@.dom() =~= self.stream_senders@.dom());
        }
        (Ok(AsyncHandle::Ready), wake)
    }

    /// Applies an inbound credit grant to the stream's send window and
    /// returns the task waiting for credit, for waking.
    pub fn on_credit_update(&mut self, request: CreditUpdate) -> (r: (
        Result<AsyncHandle, ConnectionError>,
        Option<T>,
    ))
        requires
            old(self).wf(),
        ensures
            Self::credit_update_applied(*old(self), *final(self), request, r.0, r.1),
            final(self).wf(),
    {
        let id = request.stream_id.0;
        if !self.stream_states.contains_key(&id) {
            return (Err(ConnectionError::InvalidStreamId), None);
        }
        let mut st = match self.stream_states.remove(&id) {
            Some(st) => st,
            None => {
                proof {
                    assert(false);
                }
                vstd::pervasive::unreached()
            },
        };
        let _delta = st.credits.grant(request.credit);
        let wake = st.notify_data_tx();
        self.stream_states.insert(id, st);
        proof {
            assert(self.stream_states@ =~= old(self).stream_states@.insert(id, st));
            assert(self.stream_states@.dom() =~= self.stream_senders@.dom());
        }
        (Ok(AsyncHandle::Ready), wake)
    }

    /// Routes an inbound `Data` frame into its stream's handoff slot,
    /// reserving credit first when flow control is enabled. A full slot
    /// hands the frame back (`AsyncHandle::NotReady`) so the caller can
    /// retry it without dropping it.
    pub fn on_data(&mut self, data: Data) -> (r: (
        Result<AsyncHandle, ConnectionError>,
        Option<T>,
    ))
        requires
            old(self).wf(),
            data.payload@.len() <= u32::MAX,
        ensures
            Self::data_applied(*old(self), *final(self), data, r.0, r.1),
            final(self).wf(),
    {
        let id = data.stream_id.0;
        if !self.stream_states.contains_key(&id) {
            return (Err(ConnectionError::InvalidStreamId), None);
        }
        proof {
            assert(self.stream_senders@.contains_key(id));
        }
        let ready = match self.stream_senders.get(&id) {
            Some(q) => q.is_ready(),
            None => false,
        };
        if !ready {
            return (Ok(AsyncHandle::NotReady(Frame::Data(data))), None);
        }
        let size = data.payload.len() as u32;
        let enabled = match self.cfg.flow_control_strategy {
            FlowControlStrategy::Disabled => false,
            FlowControlStrategy::Enabled => true,
        };
        if enabled {
            let ok = match self.stream_states.get(&id) {
                Some(st) => st.credits.has_capacity(size),
                None => false,
            };
            if !ok {
                return (Err(ConnectionError::InsufficientCredit), None);
            }
        }
        let mut st = match self.stream_states.remove(&id) {
            Some(st) => st,
            None => {
                proof {
                    assert(false);
                }
                vstd::pervasive::unreached()
            },
        };
        if enabled {
            st.credits.reserve(size);
        }
        let wake = st.notify_data_rx();
        self.stream_states.insert(id, st);
        let mut q = match self.stream_senders.remove(&id) {
            Some(q) => q,
            None => {
                proof {
                    assert(false);
                }
                vstd::pervasive::unreached()
            },
        };
        q.push(data);
        self.stream_senders.insert(id, q);
        proof {
            assert(self.stream_states@ =~= old(self).stream_states@.insert(id, st));
            assert(self.stream_senders@.dom() =~= old(self).stream_senders@.dom().insert(id));
            assert(self.stream_states@.dom() =~= self.stream_senders@.dom());
        }
        (Ok(AsyncHandle::Ready), wake)
    }

    /// Delegates work according to frame type.
    pub fn handle_frame(&mut self, f: Frame) -> (r: (
        Result<AsyncHandle, ConnectionError>,
        Option<T>,
    ))
        requires
            old(self).wf(),
            f matches Frame::Data(d) ==> d.payload@.len() <= u32::MAX,
        ensures
            Self::frame_applied(*old(self), *final(self), f, r.0, r.1),
            final(self).wf(),
    {
        match f {
            Frame::StreamRequest(frame) => self.on_stream_request(frame),
            Frame::CreditUpdate(frame) => self.on_credit_update(frame),
            Frame::Data(frame) => self.on_data(frame),
            Frame::Ping(_, _) => (Ok(AsyncHandle::Ready), None),
            Frame::Pong(_, _) => (Ok(AsyncHandle::Ready), None),
            Frame::Unknown => (Err(ConnectionError::UnknownFrame), None),
        }
    }

    /// Returns true if the connection has an error.
    pub fn has_err(&self) -> (r: bool)
        ensures
            r == (self.err is Some),
    {
        self.err.is_some()
    }

    /// Latches an error for this connection.
    pub fn set_err(&mut self, err: ConnectionError)
        ensures
            final(self).err == Some(err),
            Self::eq_streams(*old(self), *final(self)),
            Self::eq_io(*old(self), *final(self)),
            Self::eq_acceptor(*old(self), *final(self)),
            final(self).conn_task == old(self).conn_task,
            final(self).cfg == old(self).cfg,
            final(self).id == old(self).id,
    {
        self.err = Some(err);
    }

    /// Pops the oldest pending inbound stream request, if any.
    pub fn next_stream(&mut self) -> (r: Option<StreamRequest>)
        ensures
            final(self).stream_states@ == old(self).stream_states@,
            final(self).stream_senders@ == old(self).stream_senders@,
            Self::eq_io(*old(self), *final(self)),
            Self::eq_admin(*old(self), *final(self)),
            final(self).conn_task == old(self).conn_task,
            final(self).new_stream_task == old(self).new_stream_task,
            old(self).new_streams@.len() == 0 ==> r is None && final(self).new_streams@
                == old(self).new_streams@,
            old(self).new_streams@.len() > 0 ==> r == Some(old(self).new_streams@[0]) && final(self).new_streams@ == old(self).new_streams@.drop_first(),
    {
        if self.new_streams.is_empty() {
            None
        } else {
            let r = self.new_streams.remove(0);
            proof {
                assert(self.new_streams@ =~= old(self).new_streams@.drop_first());
            }
            Some(r)
        }
    }

    /// Pops the oldest frame awaiting the writer, recording it as written.
    /// The caller hands it to the transport.
    pub fn next_outbound(&mut self) -> (r: Option<Frame>)
        ensures
            final(self).stream_states@ == old(self).stream_states@,
            final(self).stream_senders@ == old(self).stream_senders@,
            Self::eq_acceptor(*old(self), *final(self)),
            Self::eq_admin(*old(self), *final(self)),
            final(self).conn_task == old(self).conn_task,
            final(self).sent_frames() == old(self).sent_frames(),
            old(self).outbound@.len() == 0 ==> r is None && final(self).outbound@ == old(self).outbound@ && final(self).written == old(self).written,
            old(self).outbound@.len() > 0 ==> r == Some(old(self).outbound@[0]) && final(self).outbound@ == old(self).outbound@.drop_first() && final(self).written@ == old(self).written@.push(old(self).outbound@[0]@),
    {
        if self.outbound.is_empty() {
            return None;
        }
        let f = self.outbound.remove(0);
        proof {
            self.written@ = self.written@.push(f@);
            assert(self.outbound@ =~= old(self).outbound@.drop_first());
            assert(self.outbound_views() =~= old(self).outbound_views().drop_first());
            assert(self.sent_frames() =~= old(self).sent_frames());
        }
        Some(f)
    }

    /// Reports whether the outbound queue can accept at least one more
    /// frame. On `NotReady` the caller must arrange its own wake-up.
    pub fn poll_conn_capacity(&self) -> (r: Async<()>)
        ensures
            r == Async::<()>::Ready(()) <==> self.outbound@.len() < OUTBOUND_CAPACITY,
    {
        if self.outbound.len() < OUTBOUND_CAPACITY {
            Async::Ready(())
        } else {
            Async::NotReady
        }
    }

    /// The number of credits available for the stream, or `NotReady` if
    /// there are none — the calling task is then stored in the stream's
    /// `send_task` slot and will be woken once credit is granted. Fails
    /// with the latched error, with `InsufficientCredit` when the outbound
    /// queue is unready for connection-level reasons, and with
    /// `InvalidStreamId` for an unknown stream.
    pub fn poll_stream_capacity(&mut self, stream_id: StreamId, task: T) -> (r: Result<
        Async<u32>,
        ConnectionError,
    >)
        requires
            old(self).wf(),
        ensures
            final(self).wf(),
            final(self).stream_senders@ == old(self).stream_senders@,
            Self::eq_io(*old(self), *final(self)),
            Self::eq_acceptor(*old(self), *final(self)),
            Self::eq_admin(*old(self), *final(self)),
            final(self).conn_task == old(self).conn_task,
            (if old(self).err is Some {
                r == Err::<Async<u32>, ConnectionError>(ConnectionError::General) && *final(self)
                    == *old(self)
            } else if old(self).outbound@.len() >= OUTBOUND_CAPACITY {
                r == Err::<Async<u32>, ConnectionError>(ConnectionError::InsufficientCredit)
                    && *final(self) == *old(self)
            } else if !old(self).stream_states@.contains_key(stream_id.0) {
                r == Err::<Async<u32>, ConnectionError>(ConnectionError::InvalidStreamId) && *final(self) == *old(self)
            } else if old(self).stream_states@[stream_id.0].credits.available == 0 {
                r == Ok::<Async<u32>, ConnectionError>(Async::NotReady) && final(self).stream_states@
                    == old(self).stream_states@.insert(
                    stream_id.0,
                    (StreamState {
                        credits: old(self).stream_states@[stream_id.0].credits,
                        send_task: Some(task),
                        recv_task: old(self).stream_states@[stream_id.0].recv_task,
                    }),
                )
            } else {
                r == Ok::<Async<u32>, ConnectionError>(
                    Async::Ready(old(self).stream_states@[stream_id.0].credits.available),
                ) && final(self).stream_states@ == old(self).stream_states@
            }),
    {
        if self.has_err() {
            return Err(ConnectionError::General);
        }
        if self.outbound.len() >= OUTBOUND_CAPACITY {
            return Err(ConnectionError::InsufficientCredit);
        }
        if !self.stream_states.contains_key(&stream_id.0) {
            return Err(ConnectionError::InvalidStreamId);
        }
        let remaining = match self.stream_states.get(&stream_id.0) {
            Some(st) => st.credits.available(),
            None => {
                proof {
                    assert(false);
                }
                vstd::pervasive::unreached()
            },
        };
        if remaining == 0 {
            let mut st = match self.stream_states.remove(&stream_id.0) {
                Some(st) => st,
                None => {
                    proof {
                        assert(false);
                    }
                    vstd::pervasive::unreached()
                },
            };
            st.send_task = Some(task);
            self.stream_states.insert(stream_id.0, st);
            proof {
                assert(self.stream_states@ =~= old(self).stream_states@.insert(stream_id.0, st));
                assert(self.stream_states@.dom() =~= self.stream_senders@.dom());
            }
            return Ok(Async::NotReady);
        }
        Ok(Async::Ready(remaining))
    }

    /// Validates flow control for `Data` frames, enqueues the frame onto
    /// the outbound queue, and returns the driver's task for waking.
    /// Non-`Data` frames bypass flow control.
    pub fn send_frame(&mut self, frame: Frame) -> (r: (Result<(), ConnectionError>, Option<T>))
        requires
            old(self).wf(),
            frame matches Frame::Data(d) ==> d.payload@.len() <= u32::MAX,
        ensures
            Self::send_frame_applied(*old(self), *final(self), frame, r.0, r.1),
            final(self).wf(),
    {
        if self.has_err() {
            return (Err(ConnectionError::General), None);
        }
        let is_data = match &frame {
            Frame::Data(_) => true,
            _ => false,
        };
        if is_data {
            let (id, size) = match &frame {
                Frame::Data(d) => (d.stream_id.0, d.payload.len() as u32),
                _ => {
                    proof {
                        assert(false);
                    }
                    vstd::pervasive::unreached()
                },
            };
            if !self.stream_states.contains_key(&id) {
                return (Err(ConnectionError::InvalidStreamId), None);
            }
            let enabled = match self.cfg.flow_control_strategy {
                FlowControlStrategy::Disabled => false,
                FlowControlStrategy::Enabled => true,
            };
            if enabled {
                let ok = match self.stream_states.get(&id) {
                    Some(st) => st.credits.has_capacity(size),
                    None => false,
                };
                if !ok {
                    return (Err(ConnectionError::InsufficientCredit), None);
                }
            }
            if self.outbound.len() >= OUTBOUND_CAPACITY {
                return (Err(ConnectionError::InsufficientCredit), None);
            }
            let mut st = match self.stream_states.remove(&id) {
                Some(st) => st,
                None => {
                    proof {
                        assert(false);
                    }
                    vstd::pervasive::unreached()
                },
            };
            if enabled {
                st.credits.reserve(size);
            }
            self.stream_states.insert(id, st);
            proof {
                assert(self.stream_states@ =~= old(self).stream_states@.insert(id, st));
                assert(self.stream_states@.dom() =~= self.stream_senders@.dom());
            }
        } else {
            if self.outbound.len() >= OUTBOUND_CAPACITY {
                return (Err(ConnectionError::InsufficientCredit), None);
            }
        }
        self.outbound.push(frame);
        let wake = self.conn_task.take();
        (Ok(()), wake)
    }

    /// Stores the driving task; a later registration supersedes an earlier
    /// one, so at most one task ever occupies the slot.
    pub fn register_conn_task(&mut self, task: T)
        ensures
            final(self).conn_task == Some(task),
            Self::eq_streams(*old(self), *final(self)),
            Self::eq_io(*old(self), *final(self)),
            Self::eq_acceptor(*old(self), *final(self)),
            Self::eq_admin(*old(self), *final(self)),
    {
        self.conn_task = Some(task);
    }

    /// Removes and returns the connection-driving task; the caller performs
    /// the wake-up.
    pub fn notify_conn_task(&mut self) -> (r: Option<T>)
        ensures
            r == old(self).conn_task,
            final(self).conn_task is None,
            Self::eq_streams(*old(self), *final(self)),
            Self::eq_io(*old(self), *final(self)),
            Self::eq_acceptor(*old(self), *final(self)),
            Self::eq_admin(*old(self), *final(self)),
    {
        self.conn_task.take()
    }

    /// The credit counter of a stream, if the stream is known.
    pub fn get_stream_credits(&self, stream_id: StreamId) -> (r: Option<Credits>)
        ensures
            match r {
                Some(c) => self.stream_states@.contains_key(stream_id.0) && c
                    == self.stream_states@[stream_id.0].credits,
                None => !self.stream_states@.contains_key(stream_id.0),
            },
    {
        match self.stream_states.get(&stream_id.0) {
            Some(st) => Some(st.credits),
            None => None,
        }
    }

    /// Number of frames currently awaiting the writer.
    pub fn outbound_len(&self) -> (r: usize)
        ensures
            r == self.outbound@.len(),
    {
        self.outbound.len()
    }
}

/// Every stream's credit counter stays within its capacity: in a
/// well-formed context, `0 <= available <= capacity` for every stream.
pub proof fn lemma_stream_credits_bounded<T>(ctx: ConnectionContext<T>)
    requires
        ctx.wf(),
    ensures
        forall|k: u32|
            ctx.stream_states@.contains_key(k) ==> (#[trigger] ctx.stream_states@[k]).credits.available
                <= ctx.stream_states@[k].credits.capacity,
{
}

/// The two stream maps always track each other: a stream id is in
/// `stream_states` exactly when it is in `stream_senders`.
pub proof fn lemma_stream_maps_aligned<T>(ctx: ConnectionContext<T>)
    requires
        ctx.wf(),
    ensures
        forall|k: u32|
            #[trigger] ctx.stream_states@.contains_key(k)
                <==> ctx.stream_senders@.contains_key(k),
{
    assert forall|k: u32|
        #[trigger] ctx.stream_states@.contains_key(k)
            <==> ctx.stream_senders@.contains_key(k) by {
        assert(ctx.stream_states@.dom() == ctx.stream_senders@.dom());
    }
}

/// The frames handed to the transport are exactly the first
/// `written.len()` of the successfully sent frames, in order: the writer
/// emits sends in FIFO order, never reordering, dropping or inventing one.
pub proof fn lemma_outbound_order<T>(ctx: ConnectionContext<T>)
    ensures
        ctx.written@ == ctx.sent_frames().take(ctx.written@.len() as int),
        ctx.written@.len() <= ctx.sent_frames().len(),
{
    assert(ctx.written@ =~= ctx.sent_frames().take(ctx.written@.len() as int));
}

/// The three moves the outbound side ever makes: left alone, a frame
/// appended by a successful send, or the front frame handed to the
/// transport and recorded as written. `send_frame` and `next_outbound`
/// allow nothing else.
pub open spec fn outbound_step<T>(pre: ConnectionContext<T>, post: ConnectionContext<T>) -> bool {
    ||| (post.outbound@ == pre.outbound@ && post.written == pre.written)
    ||| (exists|f: Frame|
        post.outbound@ == pre.outbound@.push(f) && post.written == pre.written)
    ||| (pre.outbound@.len() > 0 && post.outbound@ == pre.outbound@.drop_first()
        && post.written@ == pre.written@.push(pre.outbound@[0]@))
}

/// Across any step of the outbound side, the send order and the written
/// history only grow at the end — so the frame sequence reaching the
/// transport is exactly the order of successful sends, with nothing
/// reordered, dropped or invented.
pub proof fn lemma_transport_order_preserved<T>(
    pre: ConnectionContext<T>,
    post: ConnectionContext<T>,
)
    requires
        outbound_step(pre, post),
    ensures
        pre.written@.is_prefix_of(post.written@),
        pre.sent_frames().is_prefix_of(post.sent_frames()),
        post.written@ == post.sent_frames().take(post.written@.len() as int),
{
    if post.outbound@ == pre.outbound@ && post.written == pre.written {
        assert(post.outbound_views() =~= pre.outbound_views());
    } else if exists|f: Frame|
        post.outbound@ == pre.outbound@.push(f) && post.written == pre.written {
        let f = choose|f: Frame|
            post.outbound@ == pre.outbound@.push(f) && post.written == pre.written;
        assert(post.outbound_views() =~= pre.outbound_views().push(f@));
    } else {
        assert(post.outbound_views() =~= pre.outbound_views().drop_first());
    }
    assert(pre.written@ =~= post.written@.take(pre.written@.len() as int));
    assert(pre.sent_frames() =~= post.sent_frames().take(pre.sent_frames().len() as int));
    assert(post.written@ =~= post.sent_frames().take(post.written@.len() as int));
}

/// Inbound dispatch never touches the outbound side: every `handle_frame`
/// transition is an outbound step that moves nothing.
pub proof fn lemma_handle_frame_is_outbound_step<T>(
    pre: ConnectionContext<T>,
    post: ConnectionContext<T>,
    f: Frame,
    r: Result<AsyncHandle, ConnectionError>,
    wake: Option<T>,
)
    requires
        ConnectionContext::<T>::frame_applied(pre, post, f, r, wake),
    ensures
        outbound_step(pre, post),
{
}

/// Every send, successful or failed, is an outbound step: at most one
/// frame is appended, and the written history is untouched.
pub proof fn lemma_send_frame_is_outbound_step<T>(
    pre: ConnectionContext<T>,
    post: ConnectionContext<T>,
    f: Frame,
    r: Result<(), ConnectionError>,
    wake: Option<T>,
)
    requires
        ConnectionContext::<T>::send_frame_applied(pre, post, f, r, wake),
    ensures
        outbound_step(pre, post),
{
    if r is Ok {
        assert(post.outbound@ == pre.outbound@.push(f) && post.written == pre.written);
    }
}

/// Outcome of one driver dispatch step.
#[derive(Debug, PartialEq)]
pub enum DispatchOutcome {
    /// The frame was consumed; keep reading.
    Handled,
    /// The target stream's inbound slot is full: the frame is parked in the
    /// head-of-line slot and must be re-attempted before reading on.
    Blocked,
    /// A per-frame error; the connection survives.
    Recoverable(ConnectionError),
    /// A fatal error; it is now latched in the context.
    Fatal(ConnectionError),
}

/// The frame-dispatching half of the connection driver: holds the
/// head-of-line slot. The host runtime owns the actual reader and writer
/// and loops: take the parked frame if any, else read a new one; dispatch
/// it; on `Blocked`, stop reading until the application drains the stream.
#[derive(Debug)]
pub struct ConnectionDriver {
    /// The un-dispatched frame held back when a stream's inbound slot was
    /// full; re-delivered before any new frame is read.
    pub head_of_line: Option<Frame>,
}

impl ConnectionDriver {
    pub fn new() -> (r: Self)
        ensures
            r.head_of_line is None,
    {
        ConnectionDriver { head_of_line: None }
    }

    /// Takes the parked frame, if any; it must be dispatched before a new
    /// frame is pulled from the reader.
    pub fn take_head_of_line(&mut self) -> (r: Option<Frame>)
        ensures
            r == old(self).head_of_line,
            final(self).head_of_line is None,
    {
        self.head_of_line.take()
    }

    /// Dispatches one inbound frame into the context. A frame refused by a
    /// full inbound slot is parked in the head-of-line slot, untouched, and
    /// the context is left exactly as it was; recoverable errors leave the
    /// connection alive; an `Unknown` frame latches the error.
    pub fn dispatch<T>(&mut self, ctx: &mut ConnectionContext<T>, frame: Frame) -> (r: (
        DispatchOutcome,
        Option<T>,
    ))
        requires
            old(self).head_of_line is None,
            old(ctx).wf(),
            frame matches Frame::Data(d) ==> d.payload@.len() <= u32::MAX,
        ensures
            final(ctx).wf(),
            r.0 == DispatchOutcome::Handled <==> ConnectionContext::<T>::frame_accepted(
                *old(ctx),
                frame,
            ),
            r.0 == DispatchOutcome::Blocked <==> ConnectionContext::<T>::frame_blocked(
                *old(ctx),
                frame,
            ),
            (r.0 matches DispatchOutcome::Fatal(_)) <==> frame == Frame::Unknown,
            match r.0 {
                DispatchOutcome::Handled => {
                    &&& ConnectionContext::<T>::frame_applied(
                        *old(ctx),
                        *final(ctx),
                        frame,
                        Ok(AsyncHandle::Ready),
                        r.1,
                    )
                    &&& final(self).head_of_line is None
                },
                DispatchOutcome::Blocked => {
                    &&& *final(ctx) == *old(ctx)
                    &&& final(self).head_of_line == Some(frame)
                    &&& r.1 is None
                },
                DispatchOutcome::Recoverable(e) => {
                    &&& ConnectionContext::<T>::frame_applied(
                        *old(ctx),
                        *final(ctx),
                        frame,
                        Err(e),
                        r.1,
                    )
                    &&& (e == ConnectionError::InvalidStreamId || e
                        == ConnectionError::InsufficientCredit)
                    &&& final(ctx).err == old(ctx).err
                    &&& final(self).head_of_line is None
                },
                DispatchOutcome::Fatal(e) => {
                    &&& e == ConnectionError::UnknownFrame
                    &&& frame == Frame::Unknown
                    &&& final(ctx).err == Some(ConnectionError::UnknownFrame)
                    &&& ConnectionContext::<T>::eq_streams(*old(ctx), *final(ctx))
                    &&& ConnectionContext::<T>::eq_io(*old(ctx), *final(ctx))
                    &&& ConnectionContext::<T>::eq_acceptor(*old(ctx), *final(ctx))
                    &&& final(ctx).conn_task == old(ctx).conn_task
                    &&& final(self).head_of_line is None
                    &&& r.1 is None
                },
            },
    {
        let (res, wake) = ctx.handle_frame(frame);
        match res {
            Ok(AsyncHandle::Ready) => (DispatchOutcome::Handled, wake),
            Ok(AsyncHandle::NotReady(f)) => {
                self.head_of_line = Some(f);
                (DispatchOutcome::Blocked, wake)
            },
            Err(e) => match e {
                ConnectionError::UnknownFrame => {
                    ctx.set_err(ConnectionError::UnknownFrame);
                    (DispatchOutcome::Fatal(e), wake)
                },
                _ => (DispatchOutcome::Recoverable(e), wake),
            },
        }
    }
}

} // verus!
