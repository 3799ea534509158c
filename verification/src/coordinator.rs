//! The coordinator: it takes the requests in, proposes each to every
//! participant, collects the votes until a deadline, decides, logs the
//! decision and hands it out, one transaction at a time.
//!
//! The coordinator owns no channel and no clock. `protocol` takes one event,
//! changes the state and answers with the messages to send and with what it
//! needs next; whoever runs the coordinator sends, receives, reads the clock
//! and samples the shutdown signal.

use vstd::prelude::*;

use crate::channel::address_to_all;
use crate::channel::envelope_views;
use crate::channel::Envelope;
use crate::channel::EnvelopeView;
use crate::channel::Peer;
use crate::channel::Polled;
use crate::channel::Role;
use crate::coordinator::model::defaulted;
use crate::coordinator::model::first_pending;
use crate::coordinator::model::has_pending;
use crate::coordinator::model::lemma_first_pending;
use crate::coordinator::model::lemma_next_pending;
use crate::coordinator::model::unanimous;
use crate::coordinator::model::vote_of;
use crate::coordinator::model::CoordinatorView;
use crate::coordinator::model::DirectiveView;
use crate::coordinator::model::EventView;
use crate::message::message_views;
use crate::message::MessageType;
use crate::message::MessageView;
use crate::message::ProtocolMessage;
use crate::message::RequestStatus;
use crate::oplog::OpLog;
use crate::status::StatusReport;

pub mod laws;
pub mod model;

verus! {

/// How long the coordinator collects votes after a proposal, in milliseconds.
pub const VOTE_TIMEOUT_MS: u64 = 1000;

/// The states of the coordinator's state machine.
#[derive(Clone, Copy, Debug, PartialEq, Eq, Structural)]
pub enum CoordinatorState {
    Quiescent,
    ReceivedRequest,
    ProposalSent,
    ReceivedVotesAbort,
    ReceivedVotesCommit,
    SentGlobalDecision,
}

/// What the coordinator needs before it can go on.
#[derive(Clone, Copy, Debug, PartialEq, Eq, Structural)]
pub enum Await {
    /// Nothing: hand it `Resume`.
    Resume,
    /// The next request from any client.
    Request,
    /// A reading of the clock.
    Clock,
    /// One non-blocking poll of this participant's channel, with a reading
    /// of the clock taken after it.
    Poll(u32),
    /// The shutdown signal as it stands now.
    Signal,
    /// Nothing ever again: the run is over.
    Halt,
}

/// Why the coordinator turned an event away.
#[derive(Clone, Copy, Debug, PartialEq, Eq, Structural)]
pub enum ProtocolError {
    /// The event is not the one that the coordinator waits for.
    Unexpected,
    /// The request names a client that was never registered.
    UnknownClient,
}

/// What happened outside the coordinator.
#[derive(Debug)]
pub enum CoordinatorEvent {
    /// Nothing: the coordinator asked for no input.
    Resume,
    /// A message arrived from a client.
    Request(ProtocolMessage),
    /// The clock was read: it counts milliseconds.
    Clock { now_ms: u64 },
    /// The channel of the participant `from` was polled, and then the clock
    /// was read.
    Vote { from: u32, polled: Polled, now_ms: u64 },
    /// The shutdown signal was sampled: `running` is false once it is raised.
    Signal { running: bool },
}

impl View for CoordinatorEvent {
    type V = EventView;

    open spec fn view(&self) -> EventView {
        match self {
            CoordinatorEvent::Resume => EventView::Resume,
            CoordinatorEvent::Request(m) => EventView::Request(m@),
            CoordinatorEvent::Clock { now_ms } => EventView::Clock { now_ms: *now_ms },
            CoordinatorEvent::Vote { from, polled, now_ms } => EventView::Vote {
                from: *from,
                polled: polled@,
                now_ms: *now_ms,
            },
            CoordinatorEvent::Signal { running } => EventView::Signal { running: *running },
        }
    }
}

/// The coordinator's answer to an event: the messages to send, in order, what
/// to deliver next, and the final counts in the answer that ends the run.
#[derive(Debug)]
pub struct Directive {
    pub sends: Vec<Envelope>,
    pub wait: Await,
    pub report: Option<StatusReport>,
}

impl View for Directive {
    type V = DirectiveView;

    open spec fn view(&self) -> DirectiveView {
        DirectiveView { sends: envelope_views(self.sends@), wait: self.wait, report: self.report }
    }
}

/// The client's result for a message that carries the outcome of the vote:
/// a commit vote becomes a committed result, an abort vote an aborted one, and
/// any other tag stays. It goes to the client that the message names.
pub open spec fn result_envelope(m: MessageView) -> EnvelopeView {
    EnvelopeView {
        to: Peer { role: Role::Client, id: m.cl_id },
        msg: m.retag(
            match m.mtype {
                MessageType::ParticipantVoteCommit => MessageType::ClientResultCommit,
                MessageType::ParticipantVoteAbort => MessageType::ClientResultAbort,
                t => t,
            },
        ),
    }
}

/// Whether `id` occurs in `ids`.
fn roster_has(ids: &Vec<u32>, id: u32) -> (r: bool)
    ensures
        r == ids@.contains(id),
{
    let mut i: usize = 0;
    while i < ids.len()
        invariant
            i <= ids.len(),
            forall|j: int| 0 <= j < i ==> ids@[j] != id,
        decreases ids.len() - i,
    {
        if ids[i] == id {
            return true;
        }
        i = i + 1;
    }
    false
}

/// Adds `id` to `ids` unless it is there already.
fn roster_join(ids: &mut Vec<u32>, id: u32)
    requires
        old(ids)@.no_duplicates(),
    ensures
        final(ids)@ == CoordinatorView::joined(old(ids)@, id),
        final(ids)@.no_duplicates(),
{
    if !roster_has(ids, id) {
        ids.push(id);
    }
}

/// Whether some vote is missing.
fn any_pending(votes: &Vec<RequestStatus>) -> (r: bool)
    ensures
        r == has_pending(votes@),
{
    let mut i: usize = 0;
    while i < votes.len()
        invariant
            i <= votes.len(),
            forall|j: int| 0 <= j < i ==> votes@[j] != RequestStatus::Unknown,
        decreases votes.len() - i,
    {
        if votes[i] == RequestStatus::Unknown {
            return true;
        }
        i = i + 1;
    }
    false
}

/// Whether every vote is a vote to commit.
fn all_committed(votes: &Vec<RequestStatus>) -> (r: bool)
    ensures
        r == unanimous(votes@),
{
    let mut i: usize = 0;
    while i < votes.len()
        invariant
            i <= votes.len(),
            forall|j: int| 0 <= j < i ==> votes@[j] == RequestStatus::Committed,
        decreases votes.len() - i,
    {
        if votes[i] != RequestStatus::Committed {
            return false;
        }
        i = i + 1;
    }
    true
}

/// The first position at or after `from` without a vote, or the length.
fn scan_pending(votes: &Vec<RequestStatus>, from: usize) -> (r: usize)
    requires
        from <= votes.len(),
    ensures
        r == first_pending(votes@, from as int),
        from <= r <= votes.len(),
{
    let mut i: usize = from;
    while i < votes.len() && votes[i] != RequestStatus::Unknown
        invariant
            from <= i <= votes.len(),
            first_pending(votes@, i as int) == first_pending(votes@, from as int),
        decreases votes.len() - i,
    {
        i = i + 1;
    }
    proof {
        lemma_first_pending(votes@, i as int);
    }
    i
}

/// The vote that one poll of a participant's channel records.
fn recorded_vote(polled: &Polled, txid: &String) -> (r: RequestStatus)
    ensures
        r == vote_of(polled@, txid@),
{
    match polled {
        Polled::Message(m) => {
            if m.mtype == MessageType::ParticipantVoteCommit && m.txid == *txid {
                RequestStatus::Committed
            } else {
                RequestStatus::Aborted
            }
        },
        Polled::Disconnected => RequestStatus::Aborted,
        Polled::Empty => RequestStatus::Unknown,
    }
}

/// The coordinator of a run.
#[derive(Debug)]
pub struct Coordinator {
    state: CoordinatorState,
    finished: bool,
    log: OpLog,
    clients: Vec<u32>,
    participants: Vec<u32>,
    num_requests: u32,
    queue: Vec<ProtocolMessage>,
    votes: Vec<RequestStatus>,
    cursor: usize,
    proposed_at: u64,
    successful_ops: u64,
    failed_ops: u64,
    unknown_ops: u64,
}

impl View for Coordinator {
    type V = CoordinatorView;

    closed spec fn view(&self) -> CoordinatorView {
        CoordinatorView {
            state: self.state,
            finished: self.finished,
            log: self.log@,
            clients: self.clients@,
            participants: self.participants@,
            num_requests: self.num_requests,
            queue: message_views(self.queue@),
            votes: self.votes@,
            cursor: self.cursor as int,
            proposed_at: self.proposed_at,
            successful_ops: self.successful_ops,
            failed_ops: self.failed_ops,
            unknown_ops: self.unknown_ops,
        }
    }
}

impl Coordinator {
    /// What holds of every coordinator that `new` made and that only the
    /// functions of this type changed.
    pub open spec fn well_formed(&self) -> bool {
        self@.inv()
    }

    /// The place that the coordinator was given for the durable copy of its
    /// log.
    pub closed spec fn log_path(&self) -> Seq<char> {
        self.log.spec_path()
    }

    /// A coordinator that will take in `nr` requests in all, with an empty
    /// log for the place `log_path` and nobody registered.
    pub fn new(log_path: String, nr: u32) -> (r: Coordinator)
        ensures
            r.well_formed(),
            r@ == CoordinatorView::initial(nr),
            r.log_path() == log_path@,
    {
        let r = Coordinator {
            state: CoordinatorState::Quiescent,
            finished: false,
            log: OpLog::new(log_path),
            clients: Vec::new(),
            participants: Vec::new(),
            num_requests: nr,
            queue: Vec::new(),
            votes: Vec::new(),
            cursor: 0,
            proposed_at: 0,
            successful_ops: 0,
            failed_ops: 0,
            unknown_ops: 0,
        };
        assert(r@.queue =~= Seq::<MessageView>::empty());
        assert(r@ == CoordinatorView::initial(nr));
        r
    }

    /// Registers a participant. Only a coordinator at rest takes one.
    pub fn participant_join(&mut self, id: u32)
        requires
            old(self).well_formed(),
            old(self)@.state == CoordinatorState::Quiescent,
        ensures
            final(self).well_formed(),
            final(self)@ == (CoordinatorView {
                participants: CoordinatorView::joined(old(self)@.participants, id),
                ..old(self)@
            }),
            final(self).log_path() == old(self).log_path(),
    {
        roster_join(&mut self.participants, id);
    }

    /// Registers a client. Only a coordinator at rest takes one.
    pub fn client_join(&mut self, id: u32)
        requires
            old(self).well_formed(),
            old(self)@.state == CoordinatorState::Quiescent,
        ensures
            final(self).well_formed(),
            final(self)@ == (CoordinatorView {
                clients: CoordinatorView::joined(old(self)@.clients, id),
                ..old(self)@
            }),
            final(self).log_path() == old(self).log_path(),
    {
        roster_join(&mut self.clients, id);
    }

    /// The aggregate counts of committed, aborted and unknown transactions.
    pub fn report_status(&self) -> (r: StatusReport)
        ensures
            r == self@.status(),
    {
        StatusReport {
            committed: self.successful_ops,
            aborted: self.failed_ops,
            unknown: self.unknown_ops,
        }
    }

    /// The result for the client of a message that carries the outcome of
    /// the vote, addressed to that client. The coordinator stays as it is.
    pub fn send_result(&mut self, pm: ProtocolMessage) -> (r: Envelope)
        ensures
            r@ == result_envelope(pm@),
            *final(self) == *old(self),
    {
        let tag = match pm.mtype {
            MessageType::ParticipantVoteCommit => MessageType::ClientResultCommit,
            MessageType::ParticipantVoteAbort => MessageType::ClientResultAbort,
            t => t,
        };
        Envelope { to: Peer { role: Role::Client, id: pm.cl_id }, msg: pm.retag(tag) }
    }

    /// The state of the state machine.
    pub fn state(&self) -> (r: CoordinatorState)
        ensures
            r == self@.state,
    {
        self.state
    }

    /// The log.
    pub fn log(&self) -> (r: &OpLog)
        ensures
            r@ == self@.log,
            r.spec_path() == self.log_path(),
    {
        &self.log
    }

    /// What the coordinator needs next before it can go on.
    pub fn awaited(&self) -> (r: Await)
        requires
            self.well_formed(),
        ensures
            r == self@.awaited(),
    {
        if self.finished {
            Await::Halt
        } else {
            match self.state {
                CoordinatorState::Quiescent => {
                    if self.num_requests == 0 {
                        Await::Resume
                    } else {
                        Await::Request
                    }
                },
                CoordinatorState::ReceivedRequest => {
                    let done: u64 = self.successful_ops + self.failed_ops;
                    let taken: u64 = self.queue.len() as u64 + done;
                    if taken < self.num_requests as u64 {
                        Await::Request
                    } else {
                        Await::Clock
                    }
                },
                CoordinatorState::ProposalSent => Await::Poll(self.participants[self.cursor]),
                CoordinatorState::ReceivedVotesCommit => Await::Resume,
                CoordinatorState::ReceivedVotesAbort => Await::Resume,
                CoordinatorState::SentGlobalDecision => Await::Signal,
            }
        }
    }

    /// Ends the run: hands out the shutdown signal and gives up what is
    /// still queued.
    fn finish(&mut self) -> (out: Vec<Envelope>)
        requires
            old(self).well_formed(),
            !old(self)@.finished,
            old(self)@.taken() == old(self)@.num_requests,
        ensures
            final(self).well_formed(),
            final(self)@ == old(self)@.finish(),
            envelope_views(out@) == old(self)@.exit_sends(),
            final(self).log_path() == old(self).log_path(),
    {
        let exit = ProtocolMessage::exit();
        let mut out: Vec<Envelope> = Vec::new();
        assert(envelope_views(out@) =~= Seq::<EnvelopeView>::empty());
        address_to_all(Role::Participant, &self.participants, &exit, &mut out);
        address_to_all(Role::Client, &self.clients, &exit, &mut out);
        assert(envelope_views(out@) =~= self@.exit_sends());
        self.unknown_ops = self.unknown_ops + self.queue.len() as u64;
        self.queue = Vec::new();
        self.state = CoordinatorState::Quiescent;
        self.finished = true;
        assert(self@.queue =~= Seq::<MessageView>::empty());
        out
    }

    /// Takes one request in.
    fn take_in(&mut self, m: ProtocolMessage)
        requires
            old(self).well_formed(),
            old(self)@.awaited() == Await::Request,
        ensures
            final(self).well_formed(),
            final(self)@ == old(self)@.with_request(m@),
            final(self).log_path() == old(self).log_path(),
    {
        self.queue.push(m);
        self.state = CoordinatorState::ReceivedRequest;
        assert(self@.queue =~= old(self)@.queue.push(m@));
    }

    /// Proposes the transaction at the head of the queue to every
    /// participant and opens the vote.
    fn propose(&mut self, now_ms: u64) -> (out: Vec<Envelope>)
        requires
            old(self).well_formed(),
            old(self)@.awaited() == Await::Clock,
        ensures
            final(self).well_formed(),
            final(self)@ == old(self)@.proposed(now_ms),
            envelope_views(out@) == old(self)@.proposal_sends(),
            final(self).log_path() == old(self).log_path(),
    {
        let proposal = self.queue[0].retag(MessageType::CoordinatorPropose);
        let mut out: Vec<Envelope> = Vec::new();
        assert(envelope_views(out@) =~= Seq::<EnvelopeView>::empty());
        address_to_all(Role::Participant, &self.participants, &proposal, &mut out);
        assert(envelope_views(out@) =~= self@.proposal_sends());
        let mut votes: Vec<RequestStatus> = Vec::new();
        let mut i: usize = 0;
        while i < self.participants.len()
            invariant
                i <= self.participants.len(),
                votes@ =~= Seq::new(i as nat, |j: int| RequestStatus::Unknown),
            decreases self.participants.len() - i,
        {
            votes.push(RequestStatus::Unknown);
            i = i + 1;
        }
        self.votes = votes;
        self.cursor = 0;
        self.proposed_at = now_ms;
        if self.participants.len() == 0 {
            self.state = CoordinatorState::ReceivedVotesCommit;
        } else {
            self.state = CoordinatorState::ProposalSent;
        }
        out
    }

    /// Records what one poll of the participant at the cursor found.
    fn tally(&mut self, polled: Polled, now_ms: u64)
        requires
            old(self).well_formed(),
            old(self)@.state == CoordinatorState::ProposalSent,
            !old(self)@.finished,
        ensures
            final(self).well_formed(),
            final(self)@ == old(self)@.tallied(polled@, now_ms),
            final(self).log_path() == old(self).log_path(),
    {
        if now_ms >= self.proposed_at && now_ms - self.proposed_at >= VOTE_TIMEOUT_MS {
            let mut i: usize = 0;
            while i < self.votes.len()
                invariant
                    i <= self.votes.len(),
                    self.votes@.len() == old(self).votes@.len(),
                    forall|j: int| 0 <= j < i ==> self.votes@[j] == defaulted(old(self).votes@)[j],
                    forall|j: int| i <= j < self.votes@.len() ==> self.votes@[j] == old(
                        self,
                    ).votes@[j],
                    self.state == old(self).state,
                    self.finished == old(self).finished,
                    self.log == old(self).log,
                    self.clients == old(self).clients,
                    self.participants == old(self).participants,
                    self.num_requests == old(self).num_requests,
                    self.queue == old(self).queue,
                    self.cursor == old(self).cursor,
                    self.proposed_at == old(self).proposed_at,
                    self.successful_ops == old(self).successful_ops,
                    self.failed_ops == old(self).failed_ops,
                    self.unknown_ops == old(self).unknown_ops,
                decreases self.votes.len() - i,
            {
                if self.votes[i] == RequestStatus::Unknown {
                    self.votes.set(i, RequestStatus::Aborted);
                }
                i = i + 1;
            }
            assert(self.votes@ =~= defaulted(old(self).votes@));
        } else {
            let vote = recorded_vote(&polled, &self.queue[0].txid);
            self.votes.set(self.cursor, vote);
        }
        assert(self.votes@ == old(self)@.votes_after(polled@, now_ms));
        assert(self.cursor < self.votes.len());
        if any_pending(&self.votes) {
            let after = scan_pending(&self.votes, self.cursor + 1);
            proof {
                lemma_next_pending(self.votes@, self.cursor as int);
            }
            if after < self.votes.len() {
                self.cursor = after;
            } else {
                self.cursor = scan_pending(&self.votes, 0);
            }
        } else if all_committed(&self.votes) {
            self.state = CoordinatorState::ReceivedVotesCommit;
        } else {
            self.state = CoordinatorState::ReceivedVotesAbort;
        }
    }

    /// Logs the decision on the transaction at the head of the queue, then
    /// hands it out and counts it.
    fn settle(&mut self) -> (out: Vec<Envelope>)
        requires
            old(self).well_formed(),
            !old(self)@.finished,
            old(self)@.state == CoordinatorState::ReceivedVotesCommit || old(self)@.state
                == CoordinatorState::ReceivedVotesAbort,
        ensures
            final(self).well_formed(),
            final(self)@ == old(self)@.settled(),
            envelope_views(out@) == old(self)@.decision_sends(),
            final(self).log_path() == old(self).log_path(),
    {
        let commit = self.state == CoordinatorState::ReceivedVotesCommit;
        let head = self.queue.remove(0);
        assert(self@.queue =~= old(self)@.queue.drop_first());
        assert(head@ == old(self)@.queue[0]);
        let decision = head.retag(
            if commit {
                MessageType::CoordinatorCommit
            } else {
                MessageType::CoordinatorAbort
            },
        );
        self.log.append_message(&decision);
        let outcome = head.retag(
            if commit {
                MessageType::ParticipantVoteCommit
            } else {
                MessageType::ParticipantVoteAbort
            },
        );
        let result = self.send_result(outcome);
        let mut out: Vec<Envelope> = Vec::new();
        out.push(result);
        assert(envelope_views(out@) =~= seq![result@]);
        address_to_all(Role::Participant, &self.participants, &decision, &mut out);
        assert(envelope_views(out@) =~= old(self)@.decision_sends());
        if commit {
            self.successful_ops = self.successful_ops + 1;
        } else {
            self.failed_ops = self.failed_ops + 1;
        }
        self.state = CoordinatorState::SentGlobalDecision;
        out
    }

    /// Takes one event and says what follows from it.
    ///
    /// An event that the coordinator does not wait for, and a request of a
    /// client that was never registered, are turned away and change nothing.
    /// Any other event moves the state machine by one step: from rest into
    /// the intake of requests, from a full intake to the proposal, through
    /// the polls of the participants' channels to the votes, from the votes
    /// to the decision, which is logged before it is handed out, and from
    /// there to the next transaction or to the end of the run.
    pub fn protocol(&mut self, event: CoordinatorEvent) -> (r: Result<Directive, ProtocolError>)
        requires
            old(self).well_formed(),
        ensures
            final(self).well_formed(),
            final(self).log_path() == old(self).log_path(),
            match r {
                Ok(d) => {
                    &&& old(self)@.refusal(event@) is None
                    &&& final(self)@ == old(self)@.next(event@)
                    &&& d@ == old(self)@.directive(event@)
                },
                Err(e) => {
                    &&& old(self)@.refusal(event@) == Some(e)
                    &&& final(self)@ == old(self)@
                },
            },
    {
        let wait = self.awaited();
        let mut sends: Vec<Envelope> = Vec::new();
        assert(envelope_views(sends@) =~= Seq::<EnvelopeView>::empty());
        match event {
            CoordinatorEvent::Resume => {
                if wait != Await::Resume {
                    return Err(ProtocolError::Unexpected);
                }
                if self.state == CoordinatorState::Quiescent {
                    sends = self.finish();
                } else {
                    sends = self.settle();
                }
            },
            CoordinatorEvent::Request(m) => {
                if wait != Await::Request {
                    return Err(ProtocolError::Unexpected);
                }
                if !roster_has(&self.clients, m.cl_id) {
                    return Err(ProtocolError::UnknownClient);
                }
                self.take_in(m);
            },
            CoordinatorEvent::Clock { now_ms } => {
                if wait != Await::Clock {
                    return Err(ProtocolError::Unexpected);
                }
                sends = self.propose(now_ms);
            },
            CoordinatorEvent::Vote { from, polled, now_ms } => {
                if wait != Await::Poll(from) {
                    return Err(ProtocolError::Unexpected);
                }
                self.tally(polled, now_ms);
            },
            CoordinatorEvent::Signal { running } => {
                if wait != Await::Signal {
                    return Err(ProtocolError::Unexpected);
                }
                if !running || self.queue.len() == 0 {
                    sends = self.finish();
                } else {
                    self.state = CoordinatorState::ReceivedRequest;
                }
            },
        }
        let report = if self.finished {
            Some(self.report_status())
        } else {
            None
        };
        Ok(Directive { sends, wait: self.awaited(), report })
    }
}

} // verus!
