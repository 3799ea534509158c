//! What a role hands to the transport, and what the transport hands back.
//!
//! The roles never touch a channel. A role says which messages go to which
//! peer; whoever runs it sends them, receives, and reports what arrived.

use vstd::prelude::*;

use crate::message::MessageView;
use crate::message::ProtocolMessage;

verus! {

/// The two kinds of peer that the coordinator talks to.
#[derive(Clone, Copy, Debug, PartialEq, Eq, Structural)]
pub enum Role {
    Client,
    Participant,
}

/// One end of a channel of the coordinator: a client or a participant, by the
/// identity under which it was registered.
#[derive(Clone, Copy, Debug, PartialEq, Eq, Structural)]
pub struct Peer {
    pub role: Role,
    pub id: u32,
}

/// An addressed message as the contracts see it.
pub ghost struct EnvelopeView {
    pub to: Peer,
    pub msg: MessageView,
}

/// A message together with the peer that it has to be sent to.
#[derive(Debug)]
pub struct Envelope {
    pub to: Peer,
    pub msg: ProtocolMessage,
}

impl View for Envelope {
    type V = EnvelopeView;

    open spec fn view(&self) -> EnvelopeView {
        EnvelopeView { to: self.to, msg: self.msg@ }
    }
}

/// The envelopes of a list, each by its view.
pub open spec fn envelope_views(s: Seq<Envelope>) -> Seq<EnvelopeView> {
    Seq::new(s.len(), |i: int| s[i]@)
}

/// The message `m` addressed to each peer of kind `role` in `ids`, in the
/// order of `ids`.
pub open spec fn to_all(role: Role, ids: Seq<u32>, m: MessageView) -> Seq<EnvelopeView> {
    Seq::new(ids.len(), |i: int| EnvelopeView { to: Peer { role, id: ids[i] }, msg: m })
}

/// Adds to `out` the message `m` for each peer of kind `role` in `ids`.
pub fn address_to_all(role: Role, ids: &Vec<u32>, m: &ProtocolMessage, out: &mut Vec<Envelope>)
    ensures
        envelope_views(final(out)@) == envelope_views(old(out)@) + to_all(role, ids@, m@),
{
    let ghost before = envelope_views(out@);
    let mut i: usize = 0;
    while i < ids.len()
        invariant
            i <= ids.len(),
            envelope_views(out@) == before + to_all(role, ids@, m@).take(i as int),
        decreases ids.len() - i,
    {
        let ghost prev = envelope_views(out@);
        out.push(Envelope { to: Peer { role, id: ids[i] }, msg: m.clone() });
        assert(envelope_views(out@) =~= prev.push(to_all(role, ids@, m@)[i as int]));
        assert(to_all(role, ids@, m@).take(i + 1) =~= to_all(role, ids@, m@).take(i as int).push(
            to_all(role, ids@, m@)[i as int],
        ));
        assert(before + to_all(role, ids@, m@).take(i as int).push(to_all(role, ids@, m@)[i as int])
            =~= (before + to_all(role, ids@, m@).take(i as int)).push(
            to_all(role, ids@, m@)[i as int],
        ));
        i = i + 1;
    }
    assert(to_all(role, ids@, m@).take(ids@.len() as int) =~= to_all(role, ids@, m@));
}

/// What one non-blocking poll of a channel found, as the contracts see it.
pub ghost enum PolledView {
    Message(MessageView),
    Empty,
    Disconnected,
}

/// What one non-blocking poll of a channel found: a message, nothing yet, or
/// that the other end is gone.
#[derive(Debug)]
pub enum Polled {
    Message(ProtocolMessage),
    Empty,
    Disconnected,
}

impl View for Polled {
    type V = PolledView;

    open spec fn view(&self) -> PolledView {
        match self {
            Polled::Message(m) => PolledView::Message(m@),
            Polled::Empty => PolledView::Empty,
            Polled::Disconnected => PolledView::Disconnected,
        }
    }
}

/// What one blocking receive returned, as the contracts see it: a message, or
/// `None` when the other end is gone.
pub open spec fn received_view(r: Option<ProtocolMessage>) -> Option<MessageView> {
    match r {
        Some(m) => Some(m@),
        None => None,
    }
}

/// Whether what a blocking receive returned ends the receiver's run: the
/// shutdown signal, or the news that the other end of the channel is gone.
pub open spec fn stops(received: Option<MessageView>) -> bool {
    received matches Some(m) ==> m.is_exit()
}

/// Whether what a blocking receive returned ends the receiver's run.
pub fn is_stop(received: &Option<ProtocolMessage>) -> (r: bool)
    ensures
        r == stops(received_view(*received)),
{
    match received {
        None => true,
        Some(m) => m.is_exit(),
    }
}

} // verus!
