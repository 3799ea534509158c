//! The wire value that the roles exchange, and the text of transaction ids.

use vstd::prelude::*;
use vstd::std_specs::cmp::PartialEqSpecImpl;
use vstd::string::*;

verus! {

/// The tag of a message: which step of a transaction it stands for.
#[derive(Clone, Copy, Debug, PartialEq, Eq, Structural)]
pub enum MessageType {
    ClientRequest,
    CoordinatorPropose,
    ParticipantVoteCommit,
    ParticipantVoteAbort,
    CoordinatorCommit,
    CoordinatorAbort,
    ClientResultCommit,
    ClientResultAbort,
    CoordinatorExit,
}

/// Whether `t` is the tag of a participant's vote.
pub open spec fn is_vote(t: MessageType) -> bool {
    t == MessageType::ParticipantVoteCommit || t == MessageType::ParticipantVoteAbort
}

/// Whether `t` is the tag of the coordinator's decision.
pub open spec fn is_decision(t: MessageType) -> bool {
    t == MessageType::CoordinatorCommit || t == MessageType::CoordinatorAbort
}

/// Whether `t` is the tag of the result that a client is sent.
pub open spec fn is_result(t: MessageType) -> bool {
    t == MessageType::ClientResultCommit || t == MessageType::ClientResultAbort
}

/// The name of a tag, as the log shows it.
pub open spec fn tag_name(t: MessageType) -> Seq<char> {
    match t {
        MessageType::ClientRequest => "ClientRequest"@,
        MessageType::CoordinatorPropose => "CoordinatorPropose"@,
        MessageType::ParticipantVoteCommit => "ParticipantVoteCommit"@,
        MessageType::ParticipantVoteAbort => "ParticipantVoteAbort"@,
        MessageType::CoordinatorCommit => "CoordinatorCommit"@,
        MessageType::CoordinatorAbort => "CoordinatorAbort"@,
        MessageType::ClientResultCommit => "ClientResultCommit"@,
        MessageType::ClientResultAbort => "ClientResultAbort"@,
        MessageType::CoordinatorExit => "CoordinatorExit"@,
    }
}

impl MessageType {
    /// The name of this tag, as the log shows it.
    pub fn name(&self) -> (s: &'static str)
        ensures
            s@ == tag_name(*self),
    {
        match self {
            MessageType::ClientRequest => "ClientRequest",
            MessageType::CoordinatorPropose => "CoordinatorPropose",
            MessageType::ParticipantVoteCommit => "ParticipantVoteCommit",
            MessageType::ParticipantVoteAbort => "ParticipantVoteAbort",
            MessageType::CoordinatorCommit => "CoordinatorCommit",
            MessageType::CoordinatorAbort => "CoordinatorAbort",
            MessageType::ClientResultCommit => "ClientResultCommit",
            MessageType::ClientResultAbort => "ClientResultAbort",
            MessageType::CoordinatorExit => "CoordinatorExit",
        }
    }
}

/// What a role knows of a transaction's outcome.
#[derive(Clone, Copy, Debug, PartialEq, Eq, Structural)]
pub enum RequestStatus {
    Committed,
    Aborted,
    Unknown,
}

/// A message as the contracts see it: the strings as sequences of characters.
pub ghost struct MessageView {
    pub mtype: MessageType,
    pub txid: Seq<char>,
    pub senderid: Seq<char>,
    pub opid: u32,
    pub cl_id: u32,
}

/// The only unit of communication between the roles.
#[derive(Debug)]
pub struct ProtocolMessage {
    pub mtype: MessageType,
    pub txid: String,
    pub senderid: String,
    pub opid: u32,
    pub cl_id: u32,
}

impl View for ProtocolMessage {
    type V = MessageView;

    open spec fn view(&self) -> MessageView {
        MessageView {
            mtype: self.mtype,
            txid: self.txid@,
            senderid: self.senderid@,
            opid: self.opid,
            cl_id: self.cl_id,
        }
    }
}

/// The messages of a list, each by its view.
pub open spec fn message_views(s: Seq<ProtocolMessage>) -> Seq<MessageView> {
    Seq::new(s.len(), |i: int| s[i]@)
}

/// The transaction id that marks a shutdown signal: the text `done`.
pub open spec fn exit_txid() -> Seq<char> {
    seq!['d', 'o', 'n', 'e']
}

impl MessageView {
    /// The same message under another tag.
    pub open spec fn retag(self, t: MessageType) -> MessageView {
        MessageView { mtype: t, ..self }
    }

    /// Whether this is the shutdown signal: tagged `CoordinatorExit` and
    /// carrying the transaction id `done`.
    pub open spec fn is_exit(self) -> bool {
        self.mtype == MessageType::CoordinatorExit && self.txid == exit_txid()
    }

    /// The shutdown signal.
    pub open spec fn exit() -> MessageView {
        MessageView {
            mtype: MessageType::CoordinatorExit,
            txid: exit_txid(),
            senderid: exit_txid(),
            opid: 0,
            cl_id: 0,
        }
    }
}

impl Clone for ProtocolMessage {
    fn clone(&self) -> (r: Self)
        ensures
            r == *self,
    {
        ProtocolMessage {
            mtype: self.mtype,
            txid: self.txid.clone(),
            senderid: self.senderid.clone(),
            opid: self.opid,
            cl_id: self.cl_id,
        }
    }
}

impl PartialEq for ProtocolMessage {
    fn eq(&self, other: &Self) -> (r: bool) {
        self.mtype == other.mtype && self.txid == other.txid && self.senderid == other.senderid
            && self.opid == other.opid && self.cl_id == other.cl_id
    }
}

impl PartialEqSpecImpl for ProtocolMessage {
    open spec fn obeys_eq_spec() -> bool {
        true
    }

    open spec fn eq_spec(&self, other: &Self) -> bool {
        self@ == other@
    }
}

impl ProtocolMessage {
    /// Builds a message from its five fields.
    pub fn generate(t: MessageType, tid: String, sid: String, oid: u32, cid: u32) -> (r: Self)
        ensures
            r@ == (MessageView { mtype: t, txid: tid@, senderid: sid@, opid: oid, cl_id: cid }),
    {
        ProtocolMessage { mtype: t, txid: tid, senderid: sid, opid: oid, cl_id: cid }
    }

    /// A new message with the fields of this one and the tag `t`.
    pub fn retag(&self, t: MessageType) -> (r: Self)
        ensures
            r@ == self@.retag(t),
    {
        ProtocolMessage {
            mtype: t,
            txid: self.txid.clone(),
            senderid: self.senderid.clone(),
            opid: self.opid,
            cl_id: self.cl_id,
        }
    }

    /// The shutdown signal that the coordinator sends to every peer.
    pub fn exit() -> (r: Self)
        ensures
            r@ == MessageView::exit(),
            r@.is_exit(),
    {
        proof {
            reveal_strlit("done");
        }
        let r = ProtocolMessage {
            mtype: MessageType::CoordinatorExit,
            txid: String::from_str("done"),
            senderid: String::from_str("done"),
            opid: 0,
            cl_id: 0,
        };
        assert(r.txid@ =~= exit_txid());
        r
    }

    /// Whether this message is the shutdown signal.
    pub fn is_exit(&self) -> (r: bool)
        ensures
            r == self@.is_exit(),
    {
        proof {
            reveal_strlit("done");
        }
        let done = String::from_str("done");
        assert(done@ =~= exit_txid());
        self.mtype == MessageType::CoordinatorExit && self.txid == done
    }
}

} // verus!
