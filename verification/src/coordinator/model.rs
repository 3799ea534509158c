//! The coordinator as a mathematical state machine: its state, what it waits
//! for, and the state and messages that follow from each event.

use vstd::prelude::*;

use crate::channel::to_all;
use crate::channel::EnvelopeView;
use crate::channel::Peer;
use crate::channel::PolledView;
use crate::channel::Role;
use crate::coordinator::Await;
use crate::coordinator::CoordinatorState;
use crate::coordinator::ProtocolError;
use crate::coordinator::VOTE_TIMEOUT_MS;
use crate::message::MessageType;
use crate::message::MessageView;
use crate::message::RequestStatus;
use crate::oplog::record_of;
use crate::oplog::RecordView;
use crate::status::StatusReport;

verus! {

/// An event as the contracts see it.
pub ghost enum EventView {
    Resume,
    Request(MessageView),
    Clock { now_ms: u64 },
    Vote { from: u32, polled: PolledView, now_ms: u64 },
    Signal { running: bool },
}

/// What the coordinator answers to an event, as the contracts see it.
pub ghost struct DirectiveView {
    pub sends: Seq<EnvelopeView>,
    pub wait: Await,
    pub report: Option<StatusReport>,
}

/// Whether some participant has no recorded vote yet.
pub open spec fn has_pending(votes: Seq<RequestStatus>) -> bool {
    exists|i: int| 0 <= i < votes.len() && votes[i] == RequestStatus::Unknown
}

/// Whether every participant has a recorded vote to commit.
pub open spec fn unanimous(votes: Seq<RequestStatus>) -> bool {
    forall|i: int| 0 <= i < votes.len() ==> votes[i] == RequestStatus::Committed
}

/// The votes after the deadline: whoever has no recorded vote counts as
/// having voted to abort.
pub open spec fn defaulted(votes: Seq<RequestStatus>) -> Seq<RequestStatus> {
    Seq::new(
        votes.len(),
        |i: int|
            if votes[i] == RequestStatus::Unknown {
                RequestStatus::Aborted
            } else {
                votes[i]
            },
    )
}

/// The first position at or after `from` without a recorded vote; the length
/// of `votes` if there is none.
pub open spec fn first_pending(votes: Seq<RequestStatus>, from: int) -> int
    decreases votes.len() - from,
{
    if from < 0 || from >= votes.len() {
        votes.len() as int
    } else if votes[from] == RequestStatus::Unknown {
        from
    } else {
        first_pending(votes, from + 1)
    }
}

/// The participant to poll after the one at `cursor`: the next one without a
/// recorded vote, going round the roster.
pub open spec fn next_pending(votes: Seq<RequestStatus>, cursor: int) -> int {
    let after = first_pending(votes, cursor + 1);
    if after < votes.len() {
        after
    } else {
        first_pending(votes, 0)
    }
}

/// The vote that one poll of a participant's channel records for the
/// transaction `txid`. Only a commit vote for this very transaction counts as
/// one; any other message, and a lost channel, count as a vote to abort.
pub open spec fn vote_of(polled: PolledView, txid: Seq<char>) -> RequestStatus {
    match polled {
        PolledView::Message(m) => if m.mtype == MessageType::ParticipantVoteCommit && m.txid
            == txid {
            RequestStatus::Committed
        } else {
            RequestStatus::Aborted
        },
        PolledView::Disconnected => RequestStatus::Aborted,
        PolledView::Empty => RequestStatus::Unknown,
    }
}

/// The tag under which a decision goes to the participants and into the log.
pub open spec fn decision_tag(commit: bool) -> MessageType {
    if commit {
        MessageType::CoordinatorCommit
    } else {
        MessageType::CoordinatorAbort
    }
}

/// The tag under which a decision goes to the client.
pub open spec fn result_tag(commit: bool) -> MessageType {
    if commit {
        MessageType::ClientResultCommit
    } else {
        MessageType::ClientResultAbort
    }
}

/// Whether the event `e` is what `wait` asked for.
pub open spec fn answers(wait: Await, e: EventView) -> bool {
    match wait {
        Await::Resume => e is Resume,
        Await::Request => e is Request,
        Await::Clock => e is Clock,
        Await::Poll(id) => e matches EventView::Vote { from, .. } && from == id,
        Await::Signal => e is Signal,
        Await::Halt => false,
    }
}

/// The coordinator's state as the contracts see it.
pub ghost struct CoordinatorView {
    pub state: CoordinatorState,
    pub finished: bool,
    pub log: Seq<RecordView>,
    pub clients: Seq<u32>,
    pub participants: Seq<u32>,
    pub num_requests: u32,
    pub queue: Seq<MessageView>,
    pub votes: Seq<RequestStatus>,
    pub cursor: int,
    pub proposed_at: u64,
    pub successful_ops: u64,
    pub failed_ops: u64,
    pub unknown_ops: u64,
}

impl CoordinatorView {
    /// The number of requests taken in so far: those still queued and those
    /// already accounted for.
    pub open spec fn taken(self) -> int {
        self.queue.len() + self.successful_ops + self.failed_ops + self.unknown_ops
    }

    /// What holds of the coordinator between any two events.
    pub open spec fn inv(self) -> bool {
        &&& self.clients.no_duplicates()
        &&& self.participants.no_duplicates()
        &&& self.taken() <= self.num_requests
        &&& self.finished ==> self.state == CoordinatorState::Quiescent && self.queue.len() == 0
            && self.taken() == self.num_requests
        &&& !self.finished ==> self.unknown_ops == 0
        &&& match self.state {
            CoordinatorState::Quiescent => self.finished || self.taken() == 0,
            CoordinatorState::ReceivedRequest => {
                &&& self.queue.len() > 0
                &&& self.taken() == self.num_requests || self.successful_ops + self.failed_ops
                    == 0
            },
            CoordinatorState::ProposalSent => {
                &&& self.queue.len() > 0
                &&& self.taken() == self.num_requests
                &&& self.votes.len() == self.participants.len()
                &&& 0 <= self.cursor < self.votes.len()
                &&& self.votes[self.cursor] == RequestStatus::Unknown
            },
            CoordinatorState::ReceivedVotesCommit => {
                &&& self.queue.len() > 0
                &&& self.taken() == self.num_requests
                &&& self.votes.len() == self.participants.len()
                &&& unanimous(self.votes)
            },
            CoordinatorState::ReceivedVotesAbort => {
                &&& self.queue.len() > 0
                &&& self.taken() == self.num_requests
                &&& self.votes.len() == self.participants.len()
                &&& !has_pending(self.votes)
                &&& !unanimous(self.votes)
            },
            CoordinatorState::SentGlobalDecision => self.taken() == self.num_requests,
        }
    }

    /// The coordinator before anything has happened: nobody registered,
    /// nothing logged, `nr` requests to take in.
    pub open spec fn initial(nr: u32) -> CoordinatorView {
        CoordinatorView {
            state: CoordinatorState::Quiescent,
            finished: false,
            log: Seq::empty(),
            clients: Seq::empty(),
            participants: Seq::empty(),
            num_requests: nr,
            queue: Seq::empty(),
            votes: Seq::empty(),
            cursor: 0,
            proposed_at: 0,
            successful_ops: 0,
            failed_ops: 0,
            unknown_ops: 0,
        }
    }

    /// The aggregate counts.
    pub open spec fn status(self) -> StatusReport {
        StatusReport {
            committed: self.successful_ops,
            aborted: self.failed_ops,
            unknown: self.unknown_ops,
        }
    }

    /// What the coordinator needs next before it can go on.
    pub open spec fn awaited(self) -> Await {
        if self.finished {
            Await::Halt
        } else {
            match self.state {
                CoordinatorState::Quiescent => if self.num_requests == 0 {
                    Await::Resume
                } else {
                    Await::Request
                },
                CoordinatorState::ReceivedRequest => if self.taken() < self.num_requests {
                    Await::Request
                } else {
                    Await::Clock
                },
                CoordinatorState::ProposalSent => Await::Poll(self.participants[self.cursor]),
                CoordinatorState::ReceivedVotesCommit => Await::Resume,
                CoordinatorState::ReceivedVotesAbort => Await::Resume,
                CoordinatorState::SentGlobalDecision => Await::Signal,
            }
        }
    }

    /// Why the event `e` is turned away, if it is: it is not what the
    /// coordinator waits for, or it is a request of a client that was never
    /// registered.
    pub open spec fn refusal(self, e: EventView) -> Option<ProtocolError> {
        if !answers(self.awaited(), e) {
            Some(ProtocolError::Unexpected)
        } else if e matches EventView::Request(m) && !self.clients.contains(m.cl_id) {
            Some(ProtocolError::UnknownClient)
        } else {
            None
        }
    }

    /// The roster with one more identity; one that is registered already is
    /// not registered twice.
    pub open spec fn joined(ids: Seq<u32>, id: u32) -> Seq<u32> {
        if ids.contains(id) {
            ids
        } else {
            ids.push(id)
        }
    }

    /// The shutdown signal for every participant, then for every client.
    pub open spec fn exit_sends(self) -> Seq<EnvelopeView> {
        to_all(Role::Participant, self.participants, MessageView::exit()) + to_all(
            Role::Client,
            self.clients,
            MessageView::exit(),
        )
    }

    /// The end of the run: whatever is still queued is given up and counted
    /// as unknown.
    pub open spec fn finish(self) -> CoordinatorView {
        CoordinatorView {
            state: CoordinatorState::Quiescent,
            finished: true,
            queue: Seq::empty(),
            unknown_ops: (self.unknown_ops + self.queue.len()) as u64,
            ..self
        }
    }

    /// One more request at the end of the queue.
    pub open spec fn with_request(self, m: MessageView) -> CoordinatorView {
        CoordinatorView {
            state: CoordinatorState::ReceivedRequest,
            queue: self.queue.push(m),
            ..self
        }
    }

    /// The proposal of the transaction at the head of the queue, for every
    /// participant.
    pub open spec fn proposal_sends(self) -> Seq<EnvelopeView> {
        to_all(
            Role::Participant,
            self.participants,
            self.queue[0].retag(MessageType::CoordinatorPropose),
        )
    }

    /// The state once the proposal is out: no vote recorded, the clock read.
    /// With nobody to ask, the vote is over at once.
    pub open spec fn proposed(self, now_ms: u64) -> CoordinatorView {
        CoordinatorView {
            state: if self.participants.len() == 0 {
                CoordinatorState::ReceivedVotesCommit
            } else {
                CoordinatorState::ProposalSent
            },
            votes: Seq::new(self.participants.len(), |i: int| RequestStatus::Unknown),
            cursor: 0,
            proposed_at: now_ms,
            ..self
        }
    }

    /// Whether the deadline for votes has passed at the time `now_ms`.
    pub open spec fn timed_out(self, now_ms: u64) -> bool {
        now_ms >= self.proposed_at && now_ms - self.proposed_at >= VOTE_TIMEOUT_MS
    }

    /// The votes after one poll of the participant at the cursor.
    pub open spec fn votes_after(self, polled: PolledView, now_ms: u64) -> Seq<RequestStatus> {
        if self.timed_out(now_ms) {
            defaulted(self.votes)
        } else {
            self.votes.update(self.cursor, vote_of(polled, self.queue[0].txid))
        }
    }

    /// The state after one poll of the participant at the cursor.
    pub open spec fn tallied(self, polled: PolledView, now_ms: u64) -> CoordinatorView {
        let votes = self.votes_after(polled, now_ms);
        if has_pending(votes) {
            CoordinatorView { votes, cursor: next_pending(votes, self.cursor), ..self }
        } else {
            CoordinatorView {
                state: if unanimous(votes) {
                    CoordinatorState::ReceivedVotesCommit
                } else {
                    CoordinatorState::ReceivedVotesAbort
                },
                votes,
                ..self
            }
        }
    }

    /// Whether the transaction at the head of the queue commits: the votes
    /// are in and all of them were to commit.
    pub open spec fn commits(self) -> bool {
        self.state == CoordinatorState::ReceivedVotesCommit
    }

    /// The decision on the transaction at the head of the queue: its result
    /// for the client that asked, then the decision for every participant.
    pub open spec fn decision_sends(self) -> Seq<EnvelopeView> {
        seq![
            EnvelopeView {
                to: Peer { role: Role::Client, id: self.queue[0].cl_id },
                msg: self.queue[0].retag(result_tag(self.commits())),
            },
        ] + to_all(
            Role::Participant,
            self.participants,
            self.queue[0].retag(decision_tag(self.commits())),
        )
    }

    /// The state once the decision is logged and handed out: the transaction
    /// has left the queue and is counted.
    pub open spec fn settled(self) -> CoordinatorView {
        CoordinatorView {
            state: CoordinatorState::SentGlobalDecision,
            log: self.log.push(record_of(self.queue[0].retag(decision_tag(self.commits())))),
            queue: self.queue.drop_first(),
            successful_ops: if self.commits() {
                (self.successful_ops + 1) as u64
            } else {
                self.successful_ops
            },
            failed_ops: if self.commits() {
                self.failed_ops
            } else {
                (self.failed_ops + 1) as u64
            },
            ..self
        }
    }

    /// Whether the run ends after the transaction just decided: the shutdown
    /// signal was raised, or nothing is queued.
    pub open spec fn ends(self, running: bool) -> bool {
        !running || self.queue.len() == 0
    }

    /// The state after the event `e`, where `e` is not turned away.
    pub open spec fn next(self, e: EventView) -> CoordinatorView {
        match e {
            EventView::Resume => if self.state == CoordinatorState::Quiescent {
                self.finish()
            } else {
                self.settled()
            },
            EventView::Request(m) => self.with_request(m),
            EventView::Clock { now_ms } => self.proposed(now_ms),
            EventView::Vote { polled, now_ms, .. } => self.tallied(polled, now_ms),
            EventView::Signal { running } => if self.ends(running) {
                self.finish()
            } else {
                CoordinatorView { state: CoordinatorState::ReceivedRequest, ..self }
            },
        }
    }

    /// The messages that the event `e` sets off, in the order in which they
    /// have to be sent, where `e` is not turned away.
    pub open spec fn sends(self, e: EventView) -> Seq<EnvelopeView> {
        match e {
            EventView::Resume => if self.state == CoordinatorState::Quiescent {
                self.exit_sends()
            } else {
                self.decision_sends()
            },
            EventView::Request(_) => Seq::empty(),
            EventView::Clock { .. } => self.proposal_sends(),
            EventView::Vote { .. } => Seq::empty(),
            EventView::Signal { running } => if self.ends(running) {
                self.exit_sends()
            } else {
                Seq::empty()
            },
        }
    }

    /// The state after the event `e` was handed over: an event that is turned
    /// away changes nothing.
    pub open spec fn step(self, e: EventView) -> CoordinatorView {
        if self.refusal(e) is None {
            self.next(e)
        } else {
            self
        }
    }

    /// The state after the events of `events` were handed over one by one.
    pub open spec fn run(self, events: Seq<EventView>) -> CoordinatorView
        decreases events.len(),
    {
        if events.len() == 0 {
            self
        } else {
            self.run(events.drop_last()).step(events.last())
        }
    }

    /// Whether a transaction is in flight: proposed and not yet decided and
    /// handed out.
    pub open spec fn in_flight(self) -> bool {
        ||| self.state == CoordinatorState::ProposalSent
        ||| self.state == CoordinatorState::ReceivedVotesCommit
        ||| self.state == CoordinatorState::ReceivedVotesAbort
    }

    /// The whole answer to the event `e`, where `e` is not turned away: the
    /// messages, what to deliver next, and the counts when the run has ended.
    pub open spec fn directive(self, e: EventView) -> DirectiveView {
        DirectiveView {
            sends: self.sends(e),
            wait: self.next(e).awaited(),
            report: if self.next(e).finished {
                Some(self.next(e).status())
            } else {
                None
            },
        }
    }
}

/// Every step keeps what holds of the coordinator between events.
pub proof fn lemma_step_keeps_inv(c: CoordinatorView, e: EventView)
    requires
        c.inv(),
    ensures
        c.step(e).inv(),
{
    if c.refusal(e) is None {
        match e {
            EventView::Resume => {},
            EventView::Request(_) => {},
            EventView::Clock { now_ms } => {
                let n = c.proposed(now_ms);
                assert(unanimous(n.votes) || n.participants.len() > 0);
            },
            EventView::Vote { polled, now_ms, .. } => {
                let votes = c.votes_after(polled, now_ms);
                if has_pending(votes) {
                    lemma_next_pending(votes, c.cursor);
                }
            },
            EventView::Signal { .. } => {},
        }
    }
}

/// Every run keeps what holds of the coordinator between events.
pub proof fn lemma_run_keeps_inv(c: CoordinatorView, events: Seq<EventView>)
    requires
        c.inv(),
    ensures
        c.run(events).inv(),
    decreases events.len(),
{
    if events.len() > 0 {
        lemma_run_keeps_inv(c, events.drop_last());
        lemma_step_keeps_inv(c.run(events.drop_last()), events.last());
    }
}

/// `first_pending` finds a position without a vote at or after `from`
/// whenever there is one, and skips none.
pub proof fn lemma_first_pending(votes: Seq<RequestStatus>, from: int)
    requires
        0 <= from <= votes.len(),
    ensures
        from <= first_pending(votes, from) <= votes.len(),
        first_pending(votes, from) < votes.len() ==> votes[first_pending(votes, from)]
            == RequestStatus::Unknown,
        forall|j: int| from <= j < first_pending(votes, from) ==> votes[j] != RequestStatus::Unknown,
    decreases votes.len() - from,
{
    if from < votes.len() && votes[from] != RequestStatus::Unknown {
        lemma_first_pending(votes, from + 1);
    }
}

/// Where a vote is missing, `next_pending` names a participant whose vote is
/// missing.
pub proof fn lemma_next_pending(votes: Seq<RequestStatus>, cursor: int)
    requires
        0 <= cursor < votes.len(),
        has_pending(votes),
    ensures
        0 <= next_pending(votes, cursor) < votes.len(),
        votes[next_pending(votes, cursor)] == RequestStatus::Unknown,
{
    lemma_first_pending(votes, cursor + 1);
    lemma_first_pending(votes, 0);
}

} // verus!
