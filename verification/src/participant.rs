//! A participant: it votes on each proposal by the outcome of its own
//! operation, logs the vote before the vote leaves, and logs the decision
//! that comes back.
//!
//! The participant owns no channel. `protocol` takes what one blocking
//! receive on the coordinator's channel returned and answers with the vote to
//! send, if there is one; whoever runs the participant receives and sends.

use vstd::prelude::*;

use crate::chance::admits;
use crate::chance::draw;
use crate::chance::Probability;
use crate::chance::SAMPLE_SPACE;
use crate::channel::is_stop;
use crate::channel::received_view;
use crate::channel::stops;
use crate::message::MessageType;
use crate::message::MessageView;
use crate::message::ProtocolMessage;
use crate::oplog::record_of;
use crate::oplog::OpLog;
use crate::oplog::RecordView;
use crate::status::StatusReport;

pub mod laws;

verus! {

/// The states of a participant's state machine.
#[derive(Clone, Copy, Debug, PartialEq, Eq, Structural)]
pub enum ParticipantState {
    Quiescent,
    ReceivedP1,
    VotedAbort,
    VotedCommit,
    AwaitingGlobalDecision,
}

/// A participant's answer to what it received, as the contracts see it.
pub ghost struct ReplyView {
    pub vote: Option<MessageView>,
    pub report: Option<StatusReport>,
}

/// A participant's answer to what it received: the vote to send to the
/// coordinator, if one has to be sent, and the final counts in the answer that
/// ends the run.
#[derive(Debug)]
pub struct Reply {
    pub vote: Option<ProtocolMessage>,
    pub report: Option<StatusReport>,
}

impl View for Reply {
    type V = ReplyView;

    open spec fn view(&self) -> ReplyView {
        ReplyView { vote: received_view(self.vote), report: self.report }
    }
}

/// The tag of the vote that follows from the outcome of the operation.
pub open spec fn vote_tag(success: bool) -> MessageType {
    if success {
        MessageType::ParticipantVoteCommit
    } else {
        MessageType::ParticipantVoteAbort
    }
}

/// A participant's state as the contracts see it.
pub ghost struct ParticipantView {
    pub id: u32,
    pub state: ParticipantState,
    pub running: bool,
    pub log: Seq<RecordView>,
    pub send_success: int,
    pub operation_success: int,
    pub successful_ops: u64,
    pub failed_ops: u64,
    pub unknown_ops: u64,
}

impl ParticipantView {
    /// A participant before anything has happened.
    pub open spec fn initial(id: u32, send_success: int, operation_success: int) -> ParticipantView {
        ParticipantView {
            id,
            state: ParticipantState::Quiescent,
            running: true,
            log: Seq::empty(),
            send_success,
            operation_success,
            successful_ops: 0,
            failed_ops: 0,
            unknown_ops: 0,
        }
    }

    /// The aggregate counts.
    pub open spec fn status(self) -> StatusReport {
        StatusReport {
            committed: self.successful_ops,
            aborted: self.failed_ops,
            unknown: self.unknown_ops,
        }
    }

    /// The number of transactions counted so far.
    pub open spec fn observed(self) -> int {
        self.successful_ops + self.failed_ops + self.unknown_ops
    }

    /// Whether the operation succeeds for the sample `sample`.
    pub open spec fn succeeds(self, sample: u64) -> bool {
        admits(self.operation_success, sample)
    }

    /// The state after the operation was performed with the sample `sample`:
    /// voted and counted.
    pub open spec fn operated(self, sample: u64) -> ParticipantView {
        if self.succeeds(sample) {
            ParticipantView {
                state: ParticipantState::VotedCommit,
                successful_ops: (self.successful_ops + 1) as u64,
                ..self
            }
        } else {
            ParticipantView {
                state: ParticipantState::VotedAbort,
                failed_ops: (self.failed_ops + 1) as u64,
                ..self
            }
        }
    }

    /// What leaves for the coordinator when `m` is sent with the sample
    /// `sample`: the message, or nothing where the sending fails.
    pub open spec fn transmitted(self, m: MessageView, sample: u64) -> Option<MessageView> {
        if admits(self.send_success, sample) {
            Some(m)
        } else {
            None
        }
    }

    /// Whether `received` is taken as a proposal to vote on.
    pub open spec fn votes_on(self, received: Option<MessageView>) -> bool {
        &&& self.running
        &&& !stops(received)
        &&& self.state != ParticipantState::AwaitingGlobalDecision
        &&& received->0.mtype == MessageType::CoordinatorPropose
    }

    /// Whether `received` is counted as a transaction: a proposal, or a
    /// message that the participant cannot place.
    pub open spec fn counts(self, received: Option<MessageView>) -> bool {
        &&& self.running
        &&& !stops(received)
        &&& self.state != ParticipantState::AwaitingGlobalDecision
    }

    /// The state after `received`, with the two samples that chance gave.
    pub open spec fn next(
        self,
        received: Option<MessageView>,
        operation_sample: u64,
        send_sample: u64,
    ) -> ParticipantView {
        if !self.running {
            self
        } else if stops(received) {
            ParticipantView { running: false, ..self }
        } else if self.state == ParticipantState::AwaitingGlobalDecision {
            ParticipantView {
                state: ParticipantState::Quiescent,
                log: self.log.push(record_of(received->0)),
                ..self
            }
        } else if received->0.mtype == MessageType::CoordinatorPropose {
            ParticipantView {
                state: ParticipantState::AwaitingGlobalDecision,
                log: self.log.push(
                    record_of(received->0.retag(vote_tag(self.succeeds(operation_sample)))),
                ),
                ..self.operated(operation_sample)
            }
        } else {
            ParticipantView { unknown_ops: (self.unknown_ops + 1) as u64, ..self }
        }
    }

    /// The answer to `received`, with the two samples that chance gave.
    pub open spec fn reply(
        self,
        received: Option<MessageView>,
        operation_sample: u64,
        send_sample: u64,
    ) -> ReplyView {
        ReplyView {
            vote: if self.votes_on(received) {
                self.transmitted(
                    received->0.retag(vote_tag(self.succeeds(operation_sample))),
                    send_sample,
                )
            } else {
                None
            },
            report: if self.running && stops(received) {
                Some(self.status())
            } else {
                None
            },
        }
    }
}

/// A participant of a run.
#[derive(Debug)]
pub struct Participant {
    id: u32,
    state: ParticipantState,
    log: OpLog,
    running: bool,
    send_success_prob: Probability,
    operation_success_prob: Probability,
    successful_ops: u64,
    failed_ops: u64,
    unknown_ops: u64,
}

impl View for Participant {
    type V = ParticipantView;

    closed spec fn view(&self) -> ParticipantView {
        ParticipantView {
            id: self.id,
            state: self.state,
            running: self.running,
            log: self.log@,
            send_success: self.send_success_prob@,
            operation_success: self.operation_success_prob@,
            successful_ops: self.successful_ops,
            failed_ops: self.failed_ops,
            unknown_ops: self.unknown_ops,
        }
    }
}

impl Participant {
    /// The place that the participant was given for the durable copy of its
    /// log.
    pub closed spec fn log_path(&self) -> Seq<char> {
        self.log.spec_path()
    }

    /// A participant at rest, with an empty log for the place `log_path`. Its
    /// votes reach the coordinator with the probability `send_success_prob`
    /// and its operations succeed with the probability
    /// `operation_success_prob`.
    pub fn new(
        id: u32,
        log_path: String,
        send_success_prob: Probability,
        operation_success_prob: Probability,
    ) -> (r: Participant)
        ensures
            r@ == ParticipantView::initial(id, send_success_prob@, operation_success_prob@),
            r.log_path() == log_path@,
    {
        Participant {
            id,
            state: ParticipantState::Quiescent,
            log: OpLog::new(log_path),
            running: true,
            send_success_prob,
            operation_success_prob,
            successful_ops: 0,
            failed_ops: 0,
            unknown_ops: 0,
        }
    }

    /// What leaves for the coordinator when `pm` is sent with the sample
    /// `sample`: `pm` itself, or nothing where the sending fails.
    pub fn send_with(&self, pm: ProtocolMessage, sample: u64) -> (r: Option<ProtocolMessage>)
        ensures
            received_view(r) == self@.transmitted(pm@, sample),
    {
        if self.send_success_prob.admits(sample) {
            Some(pm)
        } else {
            None
        }
    }

    /// Sends `pm` to the coordinator, or loses it: a sample is drawn and
    /// compared to the probability that a sending succeeds. What comes back
    /// is what has to go to the channel. With certainty configured the
    /// message always comes back; with impossibility it never does.
    pub fn send(&mut self, pm: ProtocolMessage) -> (r: Option<ProtocolMessage>)
        ensures
            *final(self) == *old(self),
            exists|sample: u64|
                sample < SAMPLE_SPACE && received_view(r) == old(self)@.transmitted(pm@, sample),
    {
        let sample: u64 = draw();
        self.send_with(pm, sample)
    }

    /// Performs the operation with the sample `sample`: it succeeds where the
    /// configured probability admits the sample. The participant has then
    /// voted, to commit after a success and to abort after a failure, and has
    /// counted the vote. Returns whether the operation succeeded.
    pub fn perform_operation_with(&mut self, sample: u64) -> (success: bool)
        requires
            old(self)@.observed() < u64::MAX,
        ensures
            success == old(self)@.succeeds(sample),
            final(self)@ == old(self)@.operated(sample),
            final(self).log_path() == old(self).log_path(),
    {
        if self.operation_success_prob.admits(sample) {
            self.successful_ops = self.successful_ops + 1;
            self.state = ParticipantState::VotedCommit;
            true
        } else {
            self.failed_ops = self.failed_ops + 1;
            self.state = ParticipantState::VotedAbort;
            false
        }
    }

    /// Performs the operation of a proposal: a sample is drawn and compared
    /// to the probability that an operation succeeds. The outcome does not
    /// depend on the proposal. Returns whether the operation succeeded.
    #[allow(unused_variables)]
    pub fn perform_operation(&mut self, request_option: &Option<ProtocolMessage>) -> (success:
        bool)
        requires
            old(self)@.observed() < u64::MAX,
        ensures
            exists|sample: u64|
                sample < SAMPLE_SPACE && success == old(self)@.succeeds(sample) && final(self)@
                    == old(self)@.operated(sample),
            final(self).log_path() == old(self).log_path(),
    {
        let sample: u64 = draw();
        self.perform_operation_with(sample)
    }

    /// The aggregate counts of commit votes, abort votes and messages that
    /// the participant could not place.
    pub fn report_status(&self) -> (r: StatusReport)
        ensures
            r == self@.status(),
    {
        StatusReport {
            committed: self.successful_ops,
            aborted: self.failed_ops,
            unknown: self.unknown_ops,
        }
    }

    /// The state of the state machine.
    pub fn state(&self) -> (r: ParticipantState)
        ensures
            r == self@.state,
    {
        self.state
    }

    /// Whether the participant still takes part: true until it has seen the
    /// shutdown signal or the end of the channel.
    pub fn is_running(&self) -> (r: bool)
        ensures
            r == self@.running,
    {
        self.running
    }

    /// The log.
    pub fn log(&self) -> (r: &OpLog)
        ensures
            r@ == self@.log,
            r.spec_path() == self.log_path(),
    {
        &self.log
    }

    /// Looks at what was received for the end of the run. The participant
    /// stops for good once it sees the shutdown signal or the end of the
    /// channel. Returns whether it has stopped.
    pub fn wait_for_exit_signal(&mut self, received: &Option<ProtocolMessage>) -> (stopped: bool)
        ensures
            stopped == !final(self)@.running,
            final(self)@ == (ParticipantView {
                running: old(self)@.running && !stops(received_view(*received)),
                ..old(self)@
            }),
            final(self).log_path() == old(self).log_path(),
    {
        if self.running {
            if is_stop(received) {
                self.running = false;
            }
        }
        !self.running
    }

    /// One step of the protocol with the samples that chance gave.
    ///
    /// Once stopped, the participant does nothing. The shutdown signal and
    /// the end of the channel stop it, and the answer carries its counts.
    /// While it awaits a decision, whatever arrives is logged as the
    /// decision. Otherwise a proposal is voted on: the operation is performed
    /// with `operation_sample`, the vote is logged, and then it is sent with
    /// `send_sample`; any other message is counted as unknown.
    pub fn protocol_with(
        &mut self,
        received: Option<ProtocolMessage>,
        operation_sample: u64,
        send_sample: u64,
    ) -> (r: Reply)
        requires
            old(self)@.observed() < u64::MAX,
        ensures
            final(self)@ == old(self)@.next(received_view(received), operation_sample, send_sample),
            r@ == old(self)@.reply(received_view(received), operation_sample, send_sample),
            final(self).log_path() == old(self).log_path(),
    {
        if !self.running {
            return Reply { vote: None, report: None };
        }
        if self.wait_for_exit_signal(&received) {
            return Reply { vote: None, report: Some(self.report_status()) };
        }
        let m = received.unwrap();
        if self.state == ParticipantState::AwaitingGlobalDecision {
            self.log.append_message(&m);
            self.state = ParticipantState::Quiescent;
            Reply { vote: None, report: None }
        } else if m.mtype == MessageType::CoordinatorPropose {
            self.state = ParticipantState::ReceivedP1;
            let success = self.perform_operation_with(operation_sample);
            let vote = m.retag(
                if success {
                    MessageType::ParticipantVoteCommit
                } else {
                    MessageType::ParticipantVoteAbort
                },
            );
            self.log.append_message(&vote);
            let sent = self.send_with(vote, send_sample);
            self.state = ParticipantState::AwaitingGlobalDecision;
            Reply { vote: sent, report: None }
        } else {
            self.unknown_ops = self.unknown_ops + 1;
            Reply { vote: None, report: None }
        }
    }

    /// One step of the protocol: takes what one blocking receive on the
    /// coordinator's channel returned, `None` standing for the end of the
    /// channel, and answers with what has to be sent. Two samples are drawn,
    /// one for the operation and one for the sending; the step is the one
    /// that `protocol_with` makes with them.
    pub fn protocol(&mut self, received: Option<ProtocolMessage>) -> (r: Reply)
        requires
            old(self)@.observed() < u64::MAX,
        ensures
            exists|operation_sample: u64, send_sample: u64|
                operation_sample < SAMPLE_SPACE && send_sample < SAMPLE_SPACE && final(self)@
                    == old(self)@.next(received_view(received), operation_sample, send_sample)
                    && r@ == old(self)@.reply(
                    received_view(received),
                    operation_sample,
                    send_sample,
                ),
            final(self).log_path() == old(self).log_path(),
    {
        let operation_sample: u64 = draw();
        let send_sample: u64 = draw();
        self.protocol_with(received, operation_sample, send_sample)
    }
}

} // verus!
