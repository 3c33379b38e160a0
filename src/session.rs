use vstd::prelude::*;
use vstd::string::*;
use crate::dispatch::{Dispatcher, SendOutcome};
use crate::wire::{SubscribeUpdate, SubscribeUpdatePing, UpdateOneof};

verus! {

/// Kind of a terminal status sent on a subscriber's stream.
#[derive(Clone, Copy, Debug, PartialEq, Eq, Structural)]
pub enum Code {
    Internal,
    InvalidArgument,
}

/// A terminal status that ends a subscriber's stream.
pub struct Status {
    pub code: Code,
    pub message: String,
}

pub open spec fn lagged_text() -> Seq<char> {
    seq!['l', 'a', 'g', 'g', 'e', 'd']
}

pub open spec fn add_client_failed_text() -> Seq<char> {
    "failed to add client"@
}

pub open spec fn filter_failed_prefix() -> Seq<char> {
    "failed to create filter: "@
}

/// The status sent to a subscriber evicted for lagging.
pub fn lagged_status() -> (r: Status)
    ensures
        r.code == Code::Internal,
        r.message@ == lagged_text(),
{
    proof {
        reveal_strlit("lagged");
    }
    Status { code: Code::Internal, message: String::from_str("lagged") }
}

/// The status returned when the dispatch loop cannot take a registration.
pub fn add_client_failed_status() -> (r: Status)
    ensures
        r.code == Code::Internal,
        r.message@ == add_client_failed_text(),
{
    Status { code: Code::Internal, message: String::from_str("failed to add client") }
}

/// The status sent when a subscription request cannot become a filter, or
/// the filter cannot reach the dispatch loop.
pub fn filter_failed_status(error: &str) -> (r: Status)
    ensures
        r.code == Code::InvalidArgument,
        r.message@ == filter_failed_prefix() + error@,
{
    let message = String::from_str("failed to create filter: ").concat(error);
    Status { code: Code::InvalidArgument, message }
}

/// A keepalive: no labels and a ping payload.
pub fn ping_update() -> (r: SubscribeUpdate)
    ensures
        r.filters@.len() == 0,
        r.update_oneof matches Some(UpdateOneof::Ping(_)),
{
    SubscribeUpdate { filters: Vec::new(), update_oneof: Some(UpdateOneof::Ping(SubscribeUpdatePing {})) }
}

/// What the keepalive ticker does after offering a ping: it keeps ticking
/// unless the queue is closed. A full queue drops the ping and never evicts.
pub fn keepalive_continues(outcome: SendOutcome) -> (r: bool)
    ensures
        r == (outcome != SendOutcome::Closed),
{
    match outcome {
        SendOutcome::Closed => false,
        _ => true,
    }
}

/// What the request reader got from the client.
pub enum ReaderInput<F> {
    /// A subscription request, turned into a filter or refused with a reason.
    Request(Result<F, String>),
    /// The inbound stream ended or failed.
    End,
}

/// What the request reader does next.
pub enum ReaderAction<F> {
    /// Hand the new filter to the dispatch loop.
    UpdateFilter(F),
    /// Send this terminal status on the subscriber's stream.
    Fail(Status),
    /// Stop reading.
    Exit,
}

/// One step of the request reader.
pub fn reader_step<F>(input: ReaderInput<F>) -> (r: ReaderAction<F>)
    ensures
        match input {
            ReaderInput::Request(Ok(f)) => r == ReaderAction::UpdateFilter(f),
            ReaderInput::Request(Err(e)) => r matches ReaderAction::Fail(s)
                && s.code == Code::InvalidArgument && s.message@ == filter_failed_prefix() + e@,
            ReaderInput::End => r matches ReaderAction::Exit,
        },
{
    match input {
        ReaderInput::Request(Ok(f)) => ReaderAction::UpdateFilter(f),
        ReaderInput::Request(Err(e)) => ReaderAction::Fail(filter_failed_status(e.as_str())),
        ReaderInput::End => ReaderAction::Exit,
    }
}

/// Hands out subscriber ids: each once, in increasing order.
pub struct IdAllocator {
    next: u64,
}

impl IdAllocator {
    pub closed spec fn next_spec(&self) -> nat {
        self.next as nat
    }

    pub fn new() -> (r: IdAllocator)
        ensures
            r.next_spec() == 0,
    {
        IdAllocator { next: 0 }
    }

    /// The next id, or `None` once every id has been handed out.
    pub fn allocate(&mut self) -> (r: Option<u64>)
        ensures
            old(self).next_spec() < u64::MAX ==> r == Some(old(self).next_spec() as u64)
                && final(self).next_spec() == old(self).next_spec() + 1,
            old(self).next_spec() >= u64::MAX ==> r.is_none() && final(self).next_spec() == old(self).next_spec(),
    {
        if self.next < u64::MAX {
            let id = self.next;
            self.next = self.next + 1;
            Some(id)
        } else {
            None
        }
    }
}

/// A message on the dispatch loop's control channel.
pub enum ControlMessage<F, Q> {
    Register { id: u64, outbound: Q },
    UpdateFilter { id: u64, filter: F },
}

/// Whether the dispatch loop can take this control message: a registration
/// needs an id above every one registered so far.
pub open spec fn control_admissible<F, Q>(d: Dispatcher<F, Q>, m: ControlMessage<F, Q>) -> bool {
    match m {
        ControlMessage::Register { id, .. } => d.next_id() <= id < u64::MAX,
        ControlMessage::UpdateFilter { .. } => true,
    }
}

/// Checks `control_admissible` before the message is applied.
pub fn admissible<F, Q>(d: &Dispatcher<F, Q>, m: &ControlMessage<F, Q>) -> (r: bool)
    requires
        d.wf(),
    ensures
        r == control_admissible(*d, *m),
{
    match m {
        ControlMessage::Register { id, .. } => d.next_fresh_id() <= *id && *id < u64::MAX,
        ControlMessage::UpdateFilter { .. } => true,
    }
}

/// Applies one control message to the subscriber table: a registration adds
/// the subscriber with the empty filter; a filter update replaces the filter
/// of a subscriber still in the table and is dropped otherwise.
pub fn apply_control<F, Q>(d: &mut Dispatcher<F, Q>, m: ControlMessage<F, Q>)
    requires
        old(d).wf(),
        control_admissible(*old(d), m),
    ensures
        final(d).wf(),
        final(d).events() == old(d).events(),
        final(d).removed() == old(d).removed(),
        match m {
            ControlMessage::Register { id, outbound } => {
                &&& final(d).table() == old(d).table().push(crate::dispatch::Subscriber { id, filter: None, outbound })
                &&& final(d).gauge() == old(d).gauge() + 1
            },
            ControlMessage::UpdateFilter { id, filter } => {
                &&& final(d).table().len() == old(d).table().len()
                &&& final(d).gauge() == old(d).gauge()
                &&& forall|i: int| 0 <= i < old(d).table().len() ==> {
                    let o = #[trigger] old(d).table()[i];
                    let n = final(d).table()[i];
                    &&& n.id == o.id
                    &&& n.outbound == o.outbound
                    &&& n.filter == if o.id == id { Some(filter) } else { o.filter }
                }
            },
        },
{
    match m {
        ControlMessage::Register { id, outbound } => d.register(id, outbound),
        ControlMessage::UpdateFilter { id, filter } => {
            d.update_filter(id, filter);
        },
    }
}

} // verus!
