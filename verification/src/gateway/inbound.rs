//! What comes in from the gateway: payloads, decoded as their op-code
//! and event name call for.

use crate::error::ErrorView;
use crate::model::event::Event;
use crate::model::event::EventKind;
use crate::model::gateway::GatewayPayload;
use crate::model::gateway::Hello;
use crate::model::gateway::OpCode;
use crate::text::opt_text;
use vstd::prelude::*;

verus! {

/// The data of an inbound payload, decoded as its op-code and event name
/// call for.
#[derive(Debug)]
pub enum PayloadData {
    /// The data of HELLO.
    Hello(Hello),
    /// The data of INVALID_SESSION, where it is a boolean: whether the
    /// session can be resumed.
    Flag(bool),
    /// The event of a DISPATCH.
    Dispatch(Event),
    /// Data that could not be decoded, with what the decoder said.
    Malformed(String),
}

/// A `PayloadData` with its texts as sequences of characters.
pub enum DataView {
    Hello(u64),
    Flag(bool),
    Dispatch(Event),
    Malformed(Seq<char>),
}

impl View for PayloadData {
    type V = DataView;

    open spec fn view(&self) -> DataView {
        match self {
            PayloadData::Hello(h) => DataView::Hello(h.heartbeat_interval),
            PayloadData::Flag(b) => DataView::Flag(*b),
            PayloadData::Dispatch(e) => DataView::Dispatch(*e),
            PayloadData::Malformed(m) => DataView::Malformed(m@),
        }
    }
}

/// An inbound payload, as contracts see it.
pub struct PayloadView {
    pub op: OpCode,
    pub d: Option<DataView>,
    pub s: Option<u64>,
    pub t: Option<Seq<char>>,
}

/// The view of an inbound payload.
pub open spec fn payload_view(p: GatewayPayload<PayloadData>) -> PayloadView {
    PayloadView {
        op: p.op,
        d: match p.d {
            Some(d) => Some(d@),
            None => None,
        },
        s: p.s,
        t: opt_text(p.t),
    }
}

impl PayloadView {
    /// The name of the event, or the empty name where there is none.
    pub open spec fn event_name(self) -> Seq<char> {
        match self.t {
            Some(t) => t,
            None => Seq::empty(),
        }
    }

    /// The kind of event that the name announces.
    pub open spec fn event_kind(self) -> EventKind {
        EventKind::of_name(self.event_name())
    }

    /// The error to report for data that is not what the op-code calls for.
    pub open spec fn data_error(self, missing: Seq<char>) -> ErrorView {
        match self.d {
            Some(DataView::Malformed(m)) => ErrorView::Serialization(m),
            _ => ErrorView::Serialization(missing),
        }
    }
}

/// One item of a text that came in: a payload, or what the decoder said of
/// bytes that are none.
pub type Item = Result<GatewayPayload<PayloadData>, String>;

/// The view of one item.
pub open spec fn item_view(item: Item) -> Result<PayloadView, Seq<char>> {
    match item {
        Ok(p) => Ok(payload_view(p)),
        Err(why) => Err(why@),
    }
}

/// The views of the items of a text.
pub open spec fn items_view(items: Seq<Item>) -> Seq<Result<PayloadView, Seq<char>>> {
    items.map_values(|item: Item| item_view(item))
}

} // verus!
