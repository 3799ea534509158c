//! What holds of every run of the coordinator.

use vstd::prelude::*;

use crate::coordinator::model::decision_tag;
use crate::coordinator::model::lemma_run_keeps_inv;
use crate::coordinator::model::lemma_step_keeps_inv;
use crate::coordinator::model::unanimous;
use crate::coordinator::model::vote_of;
use crate::coordinator::model::CoordinatorView;
use crate::coordinator::model::EventView;
use crate::coordinator::Await;
use crate::coordinator::CoordinatorState;
use crate::coordinator::ProtocolError;
use crate::message::is_decision;
use crate::message::is_result;
use crate::message::MessageType;
use crate::message::MessageView;
use crate::message::RequestStatus;
use crate::oplog::record_of;
use crate::oplog::RecordView;

verus! {

impl CoordinatorView {
    /// Whether the event `e` is a poll that records, before the deadline, a
    /// vote of the participant at position `i` to commit the transaction in
    /// flight: it is that participant's turn, it is the one that was polled,
    /// and what was found is its vote to commit this transaction.
    pub open spec fn records_commit(self, e: EventView, i: int) -> bool {
        match e {
            EventView::Vote { from, polled, now_ms } => {
                &&& !self.finished
                &&& self.state == CoordinatorState::ProposalSent
                &&& self.cursor == i
                &&& from == self.participants[i]
                &&& !self.timed_out(now_ms)
                &&& vote_of(polled, self.queue[0].txid) == RequestStatus::Committed
            },
            _ => false,
        }
    }

    /// Whether, in the course of the polls `polls`, a vote of the
    /// participant at position `i` to commit was recorded before the deadline.
    pub open spec fn commit_in_time(self, polls: Seq<EventView>, i: int) -> bool {
        exists|k: int|
            0 <= k < polls.len() && #[trigger] self.run(polls.take(k)).records_commit(polls[k], i)
    }

    /// Whether the event `e` sets off the proposal of a transaction.
    pub open spec fn proposes(self, e: EventView) -> bool {
        self.refusal(e) is None && e is Clock
    }

    /// Whether the event `e` sets off the logging and handing out of a
    /// decision.
    pub open spec fn decides(self, e: EventView) -> bool {
        self.refusal(e) is None && e is Resume && self.state != CoordinatorState::Quiescent
    }

    /// Whether the event `e` is a request that is taken in.
    pub open spec fn takes_in(self, e: EventView) -> bool {
        self.refusal(e) is None && e is Request
    }

    /// The number of proposals in the course of `events`.
    pub open spec fn proposals(self, events: Seq<EventView>) -> nat
        decreases events.len(),
    {
        if events.len() == 0 {
            0
        } else {
            self.proposals(events.drop_last()) + if self.run(events.drop_last()).proposes(
                events.last(),
            ) {
                1nat
            } else {
                0nat
            }
        }
    }

    /// The number of decisions in the course of `events`.
    pub open spec fn decisions(self, events: Seq<EventView>) -> nat
        decreases events.len(),
    {
        if events.len() == 0 {
            0
        } else {
            self.decisions(events.drop_last()) + if self.run(events.drop_last()).decides(
                events.last(),
            ) {
                1nat
            } else {
                0nat
            }
        }
    }

    /// The number of requests taken in in the course of `events`.
    pub open spec fn intake(self, events: Seq<EventView>) -> nat
        decreases events.len(),
    {
        if events.len() == 0 {
            0
        } else {
            self.intake(events.drop_last()) + if self.run(events.drop_last()).takes_in(
                events.last(),
            ) {
                1nat
            } else {
                0nat
            }
        }
    }

    /// The requests that were taken in in the course of `events`, in the
    /// order of their arrival.
    pub open spec fn arrivals(self, events: Seq<EventView>) -> Seq<MessageView>
        decreases events.len(),
    {
        if events.len() == 0 {
            Seq::empty()
        } else if self.run(events.drop_last()).takes_in(events.last()) {
            self.arrivals(events.drop_last()).push(events.last()->Request_0)
        } else {
            self.arrivals(events.drop_last())
        }
    }

    /// The number of transactions in flight: one or none.
    pub open spec fn flying(self) -> nat {
        if self.in_flight() {
            1
        } else {
            0
        }
    }
}

/// What a round of polls does to the votes: a participant's vote stands as
/// a vote to commit exactly where it stood so before, or one of the polls
/// recorded it so before the deadline.
proof fn lemma_collect(c0: CoordinatorView, polls: Seq<EventView>)
    requires
        c0.inv(),
        c0.in_flight(),
        forall|k: int| 0 <= k < polls.len() ==> polls[k] is Vote,
    ensures
        c0.run(polls).inv(),
        c0.run(polls).in_flight(),
        c0.run(polls).participants == c0.participants,
        c0.run(polls).queue == c0.queue,
        c0.run(polls).log == c0.log,
        c0.run(polls).votes.len() == c0.votes.len(),
        forall|i: int|
            0 <= i < c0.votes.len() ==> (c0.run(polls).votes[i] == RequestStatus::Committed <==> (
            c0.votes[i] == RequestStatus::Committed || c0.commit_in_time(polls, i))),
    decreases polls.len(),
{
    if polls.len() > 0 {
        let init = polls.drop_last();
        let last = polls.last();
        lemma_collect(c0, init);
        let before = c0.run(init);
        let after = before.step(last);
        lemma_step_keeps_inv(before, last);
        assert(polls.take(init.len() as int) =~= init);
        assert forall|i: int| 0 <= i < c0.votes.len() implies (c0.commit_in_time(polls, i) <==> (
        c0.commit_in_time(init, i) || before.records_commit(last, i))) by {
            if c0.commit_in_time(polls, i) {
                let k = choose|k: int|
                    0 <= k < polls.len() && #[trigger] c0.run(polls.take(k)).records_commit(
                        polls[k],
                        i,
                    );
                if k < init.len() {
                    assert(polls.take(k) =~= init.take(k));
                    assert(c0.run(init.take(k)).records_commit(init[k], i));
                }
            }
            if c0.commit_in_time(init, i) {
                let k = choose|k: int|
                    0 <= k < init.len() && #[trigger] c0.run(init.take(k)).records_commit(
                        init[k],
                        i,
                    );
                assert(polls.take(k) =~= init.take(k));
                assert(c0.run(polls.take(k)).records_commit(polls[k], i));
            }
            if before.records_commit(last, i) {
                assert(c0.run(polls.take(init.len() as int)).records_commit(
                    polls[init.len() as int],
                    i,
                ));
            }
        }
    } else {
        assert forall|i: int| 0 <= i < c0.votes.len() implies !c0.commit_in_time(polls, i) by {}
    }
}

/// Unanimity. Once a transaction is proposed, whatever the polls of the
/// participants' channels bring, the coordinator comes to commit if and only
/// if, for every participant of the roster, one of the polls recorded that
/// participant's vote to commit this transaction before the deadline. In
/// every other case in which the vote ends, it ends in an abort. The decision
/// that is then logged and handed out is the one that the vote ended in.
pub proof fn law_unanimity(c: CoordinatorView, now_ms: u64, polls: Seq<EventView>)
    requires
        c.inv(),
        c.awaited() == Await::Clock,
        forall|k: int| 0 <= k < polls.len() ==> polls[k] is Vote,
    ensures
        ({
            let open = c.proposed(now_ms);
            let end = open.run(polls);
            let all_in_time = forall|i: int|
                0 <= i < c.participants.len() ==> open.commit_in_time(polls, i);
            &&& end.state == CoordinatorState::ReceivedVotesCommit <==> all_in_time
            &&& end.state == CoordinatorState::ReceivedVotesAbort ==> !all_in_time
            &&& end.state != CoordinatorState::ProposalSent ==> {
                &&& end.settled().log.last().mtype == MessageType::CoordinatorCommit
                    <==> all_in_time
                &&& end.settled().log.last().mtype == MessageType::CoordinatorAbort
                    <==> !all_in_time
                &&& end.decision_sends()[0].msg.mtype == MessageType::ClientResultCommit
                    <==> all_in_time
                &&& end.decision_sends()[0].msg.mtype == MessageType::ClientResultAbort
                    <==> !all_in_time
            }
        }),
{
    let open = c.proposed(now_ms);
    lemma_step_keeps_inv(c, EventView::Clock { now_ms });
    assert(open == c.step(EventView::Clock { now_ms }));
    lemma_collect(open, polls);
    let end = open.run(polls);
    let all_in_time = forall|i: int|
        0 <= i < c.participants.len() ==> open.commit_in_time(polls, i);
    assert(end.votes.len() == c.participants.len());
    if unanimous(end.votes) {
        assert forall|i: int| 0 <= i < c.participants.len() implies open.commit_in_time(
            polls,
            i,
        ) by {
            assert(end.votes[i] == RequestStatus::Committed);
            assert(open.votes[i] == RequestStatus::Unknown);
        }
    }
    if all_in_time {
        assert forall|i: int| 0 <= i < end.votes.len() implies end.votes[i]
            == RequestStatus::Committed by {
            assert(open.commit_in_time(polls, i));
        }
    }
    assert(unanimous(end.votes) <==> all_in_time);
}

/// At most one transaction is in flight. In the course of any run the
/// proposals and the decisions alternate: counted from a state with nothing
/// in flight, there is never more than one proposal beyond the decisions, and
/// there is exactly one while a transaction is in flight. Every decision
/// leaves exactly one record in the log, and nothing else does.
pub proof fn law_one_in_flight(c: CoordinatorView, events: Seq<EventView>)
    requires
        c.inv(),
    ensures
        c.proposals(events) + c.flying() == c.decisions(events) + c.run(events).flying(),
        c.run(events).log.len() == c.log.len() + c.decisions(events),
        !c.in_flight() ==> c.decisions(events) <= c.proposals(events) <= c.decisions(events) + 1,
    decreases events.len(),
{
    if events.len() > 0 {
        law_one_in_flight(c, events.drop_last());
        lemma_run_keeps_inv(c, events.drop_last());
    }
}

/// Accounting. Every request that was taken in is, at every moment, either
/// still queued or counted once: as committed, as aborted or as unknown. So
/// when the run has ended, the three counts add up to the number of requests
/// taken in, and that is the number that the coordinator was made for.
pub proof fn law_accounting(c: CoordinatorView, events: Seq<EventView>)
    requires
        c.inv(),
    ensures
        c.run(events).taken() == c.taken() + c.intake(events),
        c.run(events).finished ==> c.run(events).status().total() == c.taken() + c.intake(events),
        c.run(events).finished ==> c.run(events).status().total() == c.num_requests,
        c.run(events).num_requests == c.num_requests,
    decreases events.len(),
{
    if events.len() > 0 {
        law_accounting(c, events.drop_last());
        lemma_run_keeps_inv(c, events.drop_last());
    }
    lemma_run_keeps_inv(c, events);
}

/// The transaction id threads through. Every message that the coordinator
/// sends about a transaction, its proposal, its result and its decision, is
/// the request as it was taken in under another tag: the transaction id, the
/// sender, the number of the operation and the client are those of the
/// request at the head of the queue.
pub proof fn law_transaction_id_kept(c: CoordinatorView, e: EventView)
    requires
        c.inv(),
        c.refusal(e) is None,
        c.proposes(e) || c.decides(e),
    ensures
        c.sends(e).len() == c.participants.len() + if c.decides(e) {
            1int
        } else {
            0int
        },
        forall|j: int|
            0 <= j < c.sends(e).len() ==> (#[trigger] c.sends(e)[j]).msg == c.queue[0].retag(
                c.sends(e)[j].msg.mtype,
            ),
        c.decides(e) ==> c.next(e).log.last() == record_of(
            c.queue[0].retag(c.next(e).log.last().mtype),
        ),
{
}

/// First come, first decided. The requests are decided in the order in
/// which they arrived, each once: the records that a run adds to the log are
/// the decisions on the first requests of the queue, in the order of the
/// queue, and what is still queued are the requests after them. When the run
/// has ended, the requests that were never decided are the ones counted as
/// unknown, and none of them is in the log.
pub proof fn law_first_come_first_decided(c: CoordinatorView, events: Seq<EventView>)
    requires
        c.inv(),
        !c.finished,
    ensures
        ({
            let end = c.run(events);
            let all = c.queue + c.arrivals(events);
            let decided = end.log.skip(c.log.len() as int);
            &&& end.log.len() >= c.log.len()
            &&& end.log.take(c.log.len() as int) == c.log
            &&& decided.len() <= all.len()
            &&& forall|j: int|
                0 <= j < decided.len() ==> {
                    &&& is_decision((#[trigger] decided[j]).mtype)
                    &&& decided[j] == record_of(all[j].retag(decided[j].mtype))
                }
            &&& !end.finished ==> end.queue == all.skip(decided.len() as int)
            &&& end.finished ==> end.unknown_ops - c.unknown_ops == all.len() - decided.len()
        }),
    decreases events.len(),
{
    let all = c.queue + c.arrivals(events);
    if events.len() == 0 {
        assert(c.log.skip(c.log.len() as int) =~= Seq::<RecordView>::empty());
        assert(c.log.take(c.log.len() as int) =~= c.log);
        assert(all =~= c.queue);
        assert(all.skip(0) =~= all);
    } else {
        let init = events.drop_last();
        let e = events.last();
        law_first_come_first_decided(c, init);
        lemma_run_keeps_inv(c, init);
        let before = c.run(init);
        let after = before.step(e);
        let all0 = c.queue + c.arrivals(init);
        let d0 = before.log.skip(c.log.len() as int);
        let d1 = after.log.skip(c.log.len() as int);
        assert(after.log.take(c.log.len() as int) =~= before.log.take(c.log.len() as int));
        if before.finished {
            assert(before.refusal(e) is Some);
            assert(all =~= all0);
        } else if before.takes_in(e) {
            assert(all =~= all0.push(e->Request_0));
            assert(d1 =~= d0);
            assert(after.queue =~= all.skip(d1.len() as int));
        } else {
            assert(all =~= all0);
            if before.decides(e) {
                let record = record_of(before.queue[0].retag(decision_tag(before.commits())));
                assert(d1 =~= d0.push(record));
                assert(before.queue[0] == all0[d0.len() as int]);
                assert(after.queue =~= all.skip(d1.len() as int));
                assert forall|j: int| 0 <= j < d1.len() implies {
                    &&& is_decision((#[trigger] d1[j]).mtype)
                    &&& d1[j] == record_of(all[j].retag(d1[j].mtype))
                } by {
                    if j < d0.len() {
                        assert(d1[j] == d0[j]);
                    }
                }
            } else {
                assert(d1 =~= d0);
                if before.refusal(e) is None && after.finished {
                    assert(before.queue.len() == all.len() - d0.len());
                }
            }
        }
    }
}

/// Whether a message with the tag `t` tells the outcome of a transaction.
pub open spec fn tells_outcome(t: MessageType) -> bool {
    is_decision(t) || is_result(t)
}

/// Whether the tag `t` stands for a commit.
pub open spec fn tells_commit(t: MessageType) -> bool {
    t == MessageType::CoordinatorCommit || t == MessageType::ClientResultCommit
}

/// The decision is logged before it is handed out. The log grows by the
/// record of a decision, and by nothing else. A message that tells the outcome
/// of a transaction leaves only with the step that has logged the decision on
/// it: the record is then the last one in the log, it is of the same
/// transaction, and it says commit where the message does.
pub proof fn law_logged_before_sent(c: CoordinatorView, e: EventView)
    requires
        c.inv(),
        c.refusal(e) is None,
    ensures
        c.decides(e) ==> c.next(e).log == c.log.push(
            record_of(c.queue[0].retag(decision_tag(c.commits()))),
        ),
        !c.decides(e) ==> c.next(e).log == c.log,
        forall|j: int|
            0 <= j < c.sends(e).len() && tells_outcome((#[trigger] c.sends(e)[j]).msg.mtype) ==> {
                &&& c.decides(e)
                &&& c.sends(e)[j].msg.txid == c.next(e).log.last().txid
                &&& tells_commit(c.sends(e)[j].msg.mtype) <==> tells_commit(
                    c.next(e).log.last().mtype,
                )
            },
{
}

/// The log only grows. Whatever the coordinator has logged stays in its log,
/// in its place.
pub proof fn law_log_only_grows(c: CoordinatorView, events: Seq<EventView>)
    ensures
        c.run(events).log.len() >= c.log.len(),
        c.run(events).log.take(c.log.len() as int) == c.log,
    decreases events.len(),
{
    if events.len() == 0 {
        assert(c.log.take(c.log.len() as int) =~= c.log);
    } else {
        law_log_only_grows(c, events.drop_last());
        let before = c.run(events.drop_last());
        let after = before.step(events.last());
        assert(after.log == before.log || after.log == before.log.push(after.log.last()));
        assert(after.log.take(c.log.len() as int) =~= before.log.take(c.log.len() as int));
    }
}

/// The end is final. A coordinator that has handed out the shutdown signal
/// turns every event away: it sends nothing more, decides nothing more and
/// its counts stay as they were reported.
pub proof fn law_halt(c: CoordinatorView, events: Seq<EventView>)
    requires
        c.finished,
    ensures
        forall|e: EventView| c.refusal(e) == Some(ProtocolError::Unexpected),
        c.run(events) == c,
        c.proposals(events) == 0,
        c.decisions(events) == 0,
    decreases events.len(),
{
    if events.len() > 0 {
        law_halt(c, events.drop_last());
    }
}

/// The shutdown signal goes out once. The step that ends the run is the
/// only one that sends it: it goes to every participant and every client,
/// nothing else goes with it, and the answer carries the final counts. No
/// other step sends a message tagged as the signal.
pub proof fn law_exit_once(c: CoordinatorView, e: EventView)
    requires
        c.inv(),
        c.refusal(e) is None,
    ensures
        c.next(e).finished ==> c.sends(e) == c.exit_sends() && c.directive(e).report == Some(
            c.next(e).status(),
        ),
        !c.next(e).finished ==> c.directive(e).report is None && forall|j: int|
            0 <= j < c.sends(e).len() ==> (#[trigger] c.sends(e)[j]).msg.mtype
                != MessageType::CoordinatorExit,
{
}

} // verus!
