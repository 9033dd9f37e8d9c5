//! The wire vocabulary the core handles. Encoding and decoding are a codec's
//! concern; the core works on these typed frames alone.

use vstd::prelude::*;

use crate::stream::StreamId;

verus! {

/// Opens a new stream with an initial receive window of `credit_capacity`.
#[derive(Clone, Copy, Debug, PartialEq, Eq, Structural)]
pub struct StreamRequest {
    pub stream_id: StreamId,
    pub credit_capacity: u32,
}

impl StreamRequest {
    pub fn new(stream_id: StreamId, credit_capacity: u32) -> (r: Self)
        ensures
            r == (StreamRequest { stream_id, credit_capacity }),
    {
        StreamRequest { stream_id, credit_capacity }
    }
}

/// Grants `credit` additional sending credit on `stream_id`.
#[derive(Clone, Copy, Debug, PartialEq, Eq, Structural)]
pub struct CreditUpdate {
    pub stream_id: StreamId,
    pub credit: u32,
}

/// Carries application payload bytes on `stream_id`.
#[derive(Clone, Debug, PartialEq)]
pub struct Data {
    pub stream_id: StreamId,
    pub payload: Vec<u8>,
}

/// Mathematical image of a `Data` frame: the payload as a byte sequence.
pub struct DataView {
    pub stream_id: StreamId,
    pub payload: Seq<u8>,
}

impl View for Data {
    type V = DataView;

    open spec fn view(&self) -> DataView {
        DataView { stream_id: self.stream_id, payload: self.payload@ }
    }
}

/// A decoded frame. `Unknown` stands for anything outside the vocabulary and
/// is fatal to the connection.
#[derive(Clone, Debug, PartialEq)]
pub enum Frame {
    StreamRequest(StreamRequest),
    CreditUpdate(CreditUpdate),
    Data(Data),
    Ping(StreamId, u32),
    Pong(StreamId, u32),
    Unknown,
}

/// Mathematical image of a `Frame`.
pub enum FrameView {
    StreamRequest(StreamRequest),
    CreditUpdate(CreditUpdate),
    Data(DataView),
    Ping(StreamId, u32),
    Pong(StreamId, u32),
    Unknown,
}

impl View for Frame {
    type V = FrameView;

    open spec fn view(&self) -> FrameView {
        match self {
            Frame::StreamRequest(r) => FrameView::StreamRequest(*r),
            Frame::CreditUpdate(c) => FrameView::CreditUpdate(*c),
            Frame::Data(d) => FrameView::Data(d@),
            Frame::Ping(id, n) => FrameView::Ping(*id, *n),
            Frame::Pong(id, n) => FrameView::Pong(*id, *n),
            Frame::Unknown => FrameView::Unknown,
        }
    }
}

} // verus!
