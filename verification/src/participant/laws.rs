//! What holds of every run of a participant.

use vstd::prelude::*;

use crate::channel::stops;
use crate::message::MessageType;
use crate::message::MessageView;
use crate::oplog::record_of;
use crate::participant::vote_tag;
use crate::participant::ParticipantState;
use crate::participant::ParticipantView;
use crate::participant::ReplyView;

verus! {

/// What one step of a participant takes: what the receive returned, and the
/// two samples that chance gave.
pub ghost struct Input {
    pub received: Option<MessageView>,
    pub operation_sample: u64,
    pub send_sample: u64,
}

impl ParticipantView {
    /// The state after the step on `input`.
    pub open spec fn step(self, input: Input) -> ParticipantView {
        self.next(input.received, input.operation_sample, input.send_sample)
    }

    /// The answer of the step on `input`.
    pub open spec fn answer(self, input: Input) -> ReplyView {
        self.reply(input.received, input.operation_sample, input.send_sample)
    }

    /// The state after the steps on `inputs`, one by one.
    pub open spec fn run(self, inputs: Seq<Input>) -> ParticipantView
        decreases inputs.len(),
    {
        if inputs.len() == 0 {
            self
        } else {
            self.run(inputs.drop_last()).step(inputs.last())
        }
    }

    /// The number of answers, in the course of `inputs`, that carry the
    /// final counts.
    pub open spec fn reports(self, inputs: Seq<Input>) -> nat
        decreases inputs.len(),
    {
        if inputs.len() == 0 {
            0
        } else {
            self.reports(inputs.drop_last()) + if self.run(inputs.drop_last()).answer(
                inputs.last(),
            ).report is Some {
                1nat
            } else {
                0nat
            }
        }
    }

    /// The number of messages, in the course of `inputs`, that the
    /// participant takes as a transaction: the proposals, and the messages
    /// that it cannot place.
    pub open spec fn transactions(self, inputs: Seq<Input>) -> nat
        decreases inputs.len(),
    {
        if inputs.len() == 0 {
            0
        } else {
            self.transactions(inputs.drop_last()) + if self.run(inputs.drop_last()).counts(
                inputs.last().received,
            ) {
                1nat
            } else {
                0nat
            }
        }
    }
}

/// The vote is logged before it leaves. Whenever a step answers with a vote,
/// the record of that very vote is by then the last one in the log; and a
/// vote whose sending fails is logged all the same. The vote carries the
/// transaction id of the proposal, and it is a vote to commit exactly where
/// the participant's own operation succeeded.
pub proof fn law_vote_logged_first(p: ParticipantView, input: Input)
    requires
        p.votes_on(input.received),
    ensures
        ({
            let vote = input.received->0.retag(vote_tag(p.succeeds(input.operation_sample)));
            &&& p.step(input).log == p.log.push(record_of(vote))
            &&& p.answer(input).vote matches Some(v) ==> v == vote
            &&& vote.txid == input.received->0.txid
            &&& vote.mtype == MessageType::ParticipantVoteCommit <==> p.succeeds(
                input.operation_sample,
            )
            &&& vote.mtype == MessageType::ParticipantVoteAbort <==> !p.succeeds(
                input.operation_sample,
            )
            &&& p.step(input).state == ParticipantState::AwaitingGlobalDecision
        }),
{
}

/// Only a proposal is answered with a vote, and nothing else is ever sent.
pub proof fn law_votes_only_on_proposals(p: ParticipantView, input: Input)
    ensures
        p.answer(input).vote is Some ==> p.votes_on(input.received),
        !p.votes_on(input.received) ==> p.step(input).successful_ops == p.successful_ops
            && p.step(input).failed_ops == p.failed_ops,
{
}

/// The log only grows. Whatever a participant has logged stays in its log,
/// in its place: a step adds one record at the end, or none.
pub proof fn law_log_only_grows(p: ParticipantView, inputs: Seq<Input>)
    ensures
        p.run(inputs).log.len() >= p.log.len(),
        p.run(inputs).log.take(p.log.len() as int) == p.log,
        forall|input: Input|
            (#[trigger] p.step(input)).log == p.log || p.step(input).log == p.log.push(
                p.step(input).log.last(),
            ),
    decreases inputs.len(),
{
    if inputs.len() == 0 {
        assert(p.log.take(p.log.len() as int) =~= p.log);
    } else {
        law_log_only_grows(p, inputs.drop_last());
        let before = p.run(inputs.drop_last());
        let after = before.step(inputs.last());
        assert(after.log == before.log || after.log == before.log.push(after.log.last()));
        assert(after.log.take(p.log.len() as int) =~= before.log.take(p.log.len() as int));
    }
}

/// The end is final. A participant that has seen the shutdown signal, or the
/// end of its channel, does nothing more: whatever arrives, it sends no
/// vote, gives no report, and its state, its log and its counts stay as they
/// are.
pub proof fn law_stopped(p: ParticipantView, inputs: Seq<Input>)
    requires
        !p.running,
    ensures
        p.run(inputs) == p,
        p.reports(inputs) == 0,
        forall|input: Input| p.step(input) == p && p.answer(input) == (ReplyView {
            vote: None,
            report: None,
        }),
    decreases inputs.len(),
{
    if inputs.len() > 0 {
        law_stopped(p, inputs.drop_last());
    }
}

/// The counts are reported exactly once. In the course of any run of a
/// participant that starts out running, no answer carries the counts while it
/// runs, and exactly one has carried them once it has stopped: the answer to
/// the shutdown signal or to the end of the channel. That answer holds the
/// counts as they then stand, and holds no vote.
pub proof fn law_reports_once(p: ParticipantView, inputs: Seq<Input>)
    requires
        p.running,
    ensures
        p.reports(inputs) == if p.run(inputs).running {
            0nat
        } else {
            1nat
        },
        forall|input: Input|
            stops(input.received) ==> !(#[trigger] p.step(input)).running && p.answer(input) == (
            ReplyView { vote: None, report: Some(p.status()) }),
    decreases inputs.len(),
{
    if inputs.len() > 0 {
        let init = inputs.drop_last();
        law_reports_once(p, init);
        if !p.run(init).running {
            law_stopped(p.run(init), seq![inputs.last()]);
        }
    }
}

/// Accounting. Every message that the participant takes as a transaction is
/// counted exactly once, as a vote to commit, as a vote to abort or as
/// unknown, and nothing else is counted: the three counts grow by the number
/// of such messages.
pub proof fn law_accounting(p: ParticipantView, inputs: Seq<Input>)
    requires
        p.observed() + inputs.len() <= u64::MAX,
    ensures
        p.run(inputs).observed() == p.observed() + p.transactions(inputs),
        p.transactions(inputs) <= inputs.len(),
    decreases inputs.len(),
{
    if inputs.len() > 0 {
        law_accounting(p, inputs.drop_last());
    }
}

} // verus!
