//! Agreement between the roles: what a participant logs as the decision on a
//! transaction is what the coordinator logged for it.
//!
//! The roles meet only through messages. The laws here follow the messages
//! that a run of the coordinator sends to one participant, let a participant
//! take them in the order in which they were sent, and compare the two logs.

use vstd::prelude::*;

use crate::channel::to_all;
use crate::channel::EnvelopeView;
use crate::channel::Peer;
use crate::channel::PolledView;
use crate::channel::Role;
use crate::coordinator::laws::law_log_only_grows;
use crate::coordinator::model::decision_tag;
use crate::coordinator::model::lemma_step_keeps_inv;
use crate::coordinator::model::result_tag;
use crate::coordinator::model::vote_of;
use crate::coordinator::model::CoordinatorView;
use crate::coordinator::model::EventView;
use crate::coordinator::CoordinatorState;
use crate::message::is_decision;
use crate::message::is_vote;
use crate::message::MessageType;
use crate::message::MessageView;
use crate::message::RequestStatus;
use crate::oplog::record_of;
use crate::oplog::RecordView;
use crate::participant::laws::Input;
use crate::participant::ParticipantState;
use crate::participant::ParticipantView;

verus! {

/// The messages of `sends` that are addressed to `peer`, in their order.
pub open spec fn inbox(sends: Seq<EnvelopeView>, peer: Peer) -> Seq<MessageView>
    decreases sends.len(),
{
    if sends.len() == 0 {
        Seq::empty()
    } else if sends.last().to == peer {
        inbox(sends.drop_last(), peer).push(sends.last().msg)
    } else {
        inbox(sends.drop_last(), peer)
    }
}

impl CoordinatorView {
    /// The messages that the step on `e` sends: none where `e` is turned
    /// away.
    pub open spec fn emits(self, e: EventView) -> Seq<EnvelopeView> {
        if self.refusal(e) is None {
            self.sends(e)
        } else {
            Seq::empty()
        }
    }

    /// All the messages that were sent to `peer` in the course of `events`,
    /// in the order in which they were sent.
    pub open spec fn sent_to(self, events: Seq<EventView>, peer: Peer) -> Seq<MessageView>
        decreases events.len(),
    {
        if events.len() == 0 {
            Seq::empty()
        } else {
            self.sent_to(events.drop_last(), peer) + inbox(
                self.run(events.drop_last()).emits(events.last()),
                peer,
            )
        }
    }
}

/// Whether the messages `stream` are what one participant is sent while the
/// decisions `decisions` are made: for each decision the proposal of its
/// transaction and then the decision itself; after them the proposal of the
/// transaction in flight, if one is; and at the very end the shutdown signal,
/// if the run has ended.
pub open spec fn aligned(
    stream: Seq<MessageView>,
    decisions: Seq<RecordView>,
    flying: bool,
    finished: bool,
) -> bool {
    let n = decisions.len() as int;
    &&& !(flying && finished)
    &&& stream.len() == 2 * n + if flying || finished {
        1int
    } else {
        0int
    }
    &&& forall|k: int|
        0 <= k < n ==> {
            &&& stream[2 * k].mtype == MessageType::CoordinatorPropose
            &&& stream[2 * k].txid == (#[trigger] decisions[k]).txid
            &&& is_decision(stream[2 * k + 1].mtype)
            &&& record_of(stream[2 * k + 1]) == decisions[k]
        }
    &&& flying ==> stream[2 * n].mtype == MessageType::CoordinatorPropose
    &&& finished ==> stream[2 * n] == MessageView::exit()
}

/// The messages for a peer in two lists, one after the other, are those in
/// the first and then those in the second.
pub proof fn lemma_inbox_add(a: Seq<EnvelopeView>, b: Seq<EnvelopeView>, peer: Peer)
    ensures
        inbox(a + b, peer) == inbox(a, peer) + inbox(b, peer),
    decreases b.len(),
{
    if b.len() == 0 {
        assert(a + b =~= a);
        assert(inbox(a, peer) + inbox(b, peer) =~= inbox(a, peer));
    } else {
        assert((a + b).drop_last() =~= a + b.drop_last());
        assert((a + b).last() == b.last());
        lemma_inbox_add(a, b.drop_last(), peer);
        if b.last().to == peer {
            assert(inbox(a + b, peer) =~= inbox(a, peer) + inbox(b, peer));
        }
    }
}

/// Of a message for every peer of a roster, a peer gets one copy if it is
/// on the roster, and none if it is not.
pub proof fn lemma_inbox_to_all(role: Role, ids: Seq<u32>, m: MessageView, peer: Peer)
    requires
        ids.no_duplicates(),
    ensures
        inbox(to_all(role, ids, m), peer) == if peer.role == role && ids.contains(peer.id) {
            seq![m]
        } else {
            Seq::<MessageView>::empty()
        },
    decreases ids.len(),
{
    if ids.len() > 0 {
        let all = to_all(role, ids, m);
        let init = ids.drop_last();
        assert(all.drop_last() =~= to_all(role, init, m));
        assert(all.last() == EnvelopeView { to: Peer { role, id: ids.last() }, msg: m });
        lemma_inbox_to_all(role, init, m, peer);
        assert(ids[ids.len() - 1] == ids.last());
        if peer.role == role && peer.id == ids.last() {
            assert(!init.contains(peer.id)) by {
                if init.contains(peer.id) {
                    let j = choose|j: int| 0 <= j < init.len() && init[j] == peer.id;
                    assert(ids[j] == ids[ids.len() - 1]);
                }
            }
            assert(inbox(all, peer) =~= seq![m]);
        } else {
            if ids.contains(peer.id) {
                let j = choose|j: int| 0 <= j < ids.len() && ids[j] == peer.id;
                if peer.role == role {
                    assert(init[j] == peer.id);
                }
            }
            if init.contains(peer.id) {
                let j = choose|j: int| 0 <= j < init.len() && init[j] == peer.id;
                assert(ids[j] == peer.id);
            }
        }
    }
}

/// What one step sends to the participant at position `i` of the roster:
/// the proposal where the step proposes, the decision where it decides, the
/// shutdown signal where it ends the run, and nothing otherwise.
pub proof fn lemma_step_inbox(c: CoordinatorView, e: EventView, i: int)
    requires
        c.inv(),
        0 <= i < c.participants.len(),
    ensures
        ({
            let peer = Peer { role: Role::Participant, id: c.participants[i] };
            let got = inbox(c.emits(e), peer);
            if c.refusal(e) is Some {
                got == Seq::<MessageView>::empty()
            } else if c.next(e).finished {
                got == seq![MessageView::exit()]
            } else if e is Clock {
                got == seq![c.queue[0].retag(MessageType::CoordinatorPropose)]
            } else if e is Resume {
                got == seq![c.queue[0].retag(decision_tag(c.commits()))]
            } else {
                got == Seq::<MessageView>::empty()
            }
        }),
{
    let peer = Peer { role: Role::Participant, id: c.participants[i] };
    assert(c.participants.contains(peer.id));
    if c.refusal(e) is None {
        if c.next(e).finished {
            lemma_inbox_to_all(Role::Participant, c.participants, MessageView::exit(), peer);
            lemma_inbox_to_all(Role::Client, c.clients, MessageView::exit(), peer);
            lemma_inbox_add(
                to_all(Role::Participant, c.participants, MessageView::exit()),
                to_all(Role::Client, c.clients, MessageView::exit()),
                peer,
            );
            assert(seq![MessageView::exit()] + Seq::<MessageView>::empty() =~= seq![
                MessageView::exit(),
            ]);
        } else if e is Clock {
            lemma_inbox_to_all(
                Role::Participant,
                c.participants,
                c.queue[0].retag(MessageType::CoordinatorPropose),
                peer,
            );
        } else if e is Resume {
            let d = c.queue[0].retag(decision_tag(c.commits()));
            let first = seq![
                EnvelopeView {
                    to: Peer { role: Role::Client, id: c.queue[0].cl_id },
                    msg: c.queue[0].retag(result_tag(c.commits())),
                },
            ];
            lemma_inbox_to_all(Role::Participant, c.participants, d, peer);
            lemma_inbox_add(first, to_all(Role::Participant, c.participants, d), peer);
            assert(first.drop_last() =~= Seq::<EnvelopeView>::empty());
            assert(inbox(first.drop_last(), peer) =~= Seq::<MessageView>::empty());
            assert(first.last().to != peer);
            assert(inbox(first, peer) =~= Seq::<MessageView>::empty());
            assert(Seq::<MessageView>::empty() + seq![d] =~= seq![d]);
        }
    }
}

/// One transaction at a time. What a run of the coordinator sends to a
/// participant is, transaction by transaction and in the order of the
/// decisions in the log, the proposal of a transaction and then the decision
/// on it: no proposal goes out between the proposal of another transaction
/// and its decision. After the decided transactions comes at most the
/// proposal of the one in flight, and the shutdown signal, where it was sent,
/// is the last message of all.
pub proof fn law_proposals_and_decisions_alternate(c: CoordinatorView, events: Seq<EventView>, i: int)
    requires
        c.inv(),
        !c.in_flight(),
        !c.finished,
        0 <= i < c.participants.len(),
    ensures
        c.run(events).inv(),
        c.run(events).participants == c.participants,
        c.run(events).log.len() >= c.log.len(),
        aligned(
            c.sent_to(events, Peer { role: Role::Participant, id: c.participants[i] }),
            c.run(events).log.skip(c.log.len() as int),
            c.run(events).in_flight(),
            c.run(events).finished,
        ),
        c.run(events).in_flight() ==> c.sent_to(
            events,
            Peer { role: Role::Participant, id: c.participants[i] },
        ).last().txid == c.run(events).queue[0].txid,
    decreases events.len(),
{
    let peer = Peer { role: Role::Participant, id: c.participants[i] };
    if events.len() == 0 {
        assert(c.log.skip(c.log.len() as int) =~= Seq::<RecordView>::empty());
    } else {
        let init = events.drop_last();
        let e = events.last();
        law_proposals_and_decisions_alternate(c, init, i);
        let before = c.run(init);
        let after = before.step(e);
        lemma_step_keeps_inv(before, e);
        lemma_step_inbox(before, e, i);
        let s0 = c.sent_to(init, peer);
        let got = inbox(before.emits(e), peer);
        let s1 = c.sent_to(events, peer);
        assert(s1 == s0 + got);
        let d0 = before.log.skip(c.log.len() as int);
        let d1 = after.log.skip(c.log.len() as int);
        let n = d0.len() as int;
        if before.refusal(e) is Some {
            assert(s1 =~= s0);
        } else if after.finished {
            assert(d1 =~= d0);
            assert(s1 =~= s0.push(MessageView::exit()));
        } else if e is Clock {
            assert(d1 =~= d0);
            assert(s1 =~= s0.push(before.queue[0].retag(MessageType::CoordinatorPropose)));
        } else if e is Resume {
            let d = before.queue[0].retag(decision_tag(before.commits()));
            assert(s1 =~= s0.push(d));
            assert(d1 =~= d0.push(record_of(d)));
            assert forall|k: int| 0 <= k < d1.len() implies {
                &&& s1[2 * k].mtype == MessageType::CoordinatorPropose
                &&& s1[2 * k].txid == (#[trigger] d1[k]).txid
                &&& is_decision(s1[2 * k + 1].mtype)
                &&& record_of(s1[2 * k + 1]) == d1[k]
            } by {
                if k < n {
                    assert(d1[k] == d0[k]);
                    assert(s1[2 * k] == s0[2 * k]);
                    assert(s1[2 * k + 1] == s0[2 * k + 1]);
                } else {
                    assert(s1[2 * k] == s0.last());
                }
            }
        } else {
            assert(d1 =~= d0);
            assert(s1 =~= s0);
        }
    }
}

/// A participant that takes, in their order, the messages that a
/// coordinator sent to it logs for each transaction first its vote and then
/// the decision.
proof fn lemma_follow(
    p: ParticipantView,
    stream: Seq<MessageView>,
    decisions: Seq<RecordView>,
    flying: bool,
    finished: bool,
    inputs: Seq<Input>,
    m: int,
)
    requires
        p.running,
        p.state != ParticipantState::AwaitingGlobalDecision,
        aligned(stream, decisions, flying, finished),
        inputs.len() == stream.len(),
        forall|j: int| 0 <= j < inputs.len() ==> (#[trigger] inputs[j]).received == Some(stream[j]),
        0 <= m <= inputs.len(),
    ensures
        ({
            let q = p.run(inputs.take(m));
            let n = decisions.len() as int;
            let l = p.log.len() as int;
            &&& q.running <==> !(finished && m == stream.len())
            &&& q.state == ParticipantState::AwaitingGlobalDecision <==> m % 2 == 1 && q.running
            &&& q.log.len() == l + if finished && m == stream.len() {
                m - 1
            } else {
                m
            }
            &&& q.log.take(l) == p.log
            &&& forall|k: int|
                0 <= k < n && 2 * k < m ==> {
                    &&& is_vote(q.log[l + 2 * k].mtype)
                    &&& q.log[l + 2 * k].txid == (#[trigger] decisions[k]).txid
                }
            &&& forall|k: int|
                0 <= k < n && 2 * k + 1 < m ==> q.log[l + 2 * k + 1] == #[trigger] decisions[k]
        }),
    decreases m,
{
    let n = decisions.len() as int;
    let l = p.log.len() as int;
    if m == 0 {
        assert(inputs.take(0) =~= Seq::<Input>::empty());
        assert(p.log.take(l) =~= p.log);
    } else {
        lemma_follow(p, stream, decisions, flying, finished, inputs, m - 1);
        let q0 = p.run(inputs.take(m - 1));
        let input = inputs[m - 1];
        assert(inputs.take(m).drop_last() =~= inputs.take(m - 1));
        assert(inputs.take(m).last() == input);
        let q = q0.step(input);
        assert(q == p.run(inputs.take(m)));
        let msg = stream[m - 1];
        assert(input.received == Some(msg));
        assert(q0.running);
        if (m - 1) % 2 == 1 {
            // The decision of the transaction number k.
            let k = (m - 2) / 2;
            assert(m - 1 == 2 * k + 1);
            assert(0 <= k < n);
            assert(record_of(stream[2 * k + 1]) == decisions[k]);
            assert(is_decision(msg.mtype));
            assert(q.log == q0.log.push(record_of(msg)));
            assert(q.log.take(l) =~= q0.log.take(l));
            assert forall|k2: int| 0 <= k2 < n && 2 * k2 + 1 < m implies q.log[l + 2 * k2 + 1]
                == #[trigger] decisions[k2] by {
                if k2 < k {
                    assert(q.log[l + 2 * k2 + 1] == q0.log[l + 2 * k2 + 1]);
                }
            }
            assert forall|k2: int| 0 <= k2 < n && 2 * k2 < m implies {
                &&& is_vote(q.log[l + 2 * k2].mtype)
                &&& q.log[l + 2 * k2].txid == (#[trigger] decisions[k2]).txid
            } by {
                assert(q.log[l + 2 * k2] == q0.log[l + 2 * k2]);
            }
        } else {
            let k = (m - 1) / 2;
            assert(m - 1 == 2 * k);
            if k < n {
                // The proposal of the transaction number k.
                assert(stream[2 * k].txid == decisions[k].txid);
                assert(msg.mtype == MessageType::CoordinatorPropose);
            } else if flying {
                assert(msg.mtype == MessageType::CoordinatorPropose);
            } else {
                assert(msg == MessageView::exit());
            }
            if finished && m == stream.len() {
                assert(q.log == q0.log);
            } else {
                assert(q0.votes_on(input.received));
                assert(q.log.take(l) =~= q0.log.take(l));
                assert forall|k2: int| 0 <= k2 < n && 2 * k2 < m implies {
                    &&& is_vote(q.log[l + 2 * k2].mtype)
                    &&& q.log[l + 2 * k2].txid == (#[trigger] decisions[k2]).txid
                } by {
                    if k2 < k {
                        assert(q.log[l + 2 * k2] == q0.log[l + 2 * k2]);
                    }
                }
                assert forall|k2: int| 0 <= k2 < n && 2 * k2 + 1 < m implies q.log[l + 2 * k2
                    + 1] == #[trigger] decisions[k2] by {
                    assert(q.log[l + 2 * k2 + 1] == q0.log[l + 2 * k2 + 1]);
                }
            }
        }
    }
}

/// Agreement. Take any run of a coordinator that starts with nothing in
/// flight, and any participant of its roster that starts at rest and takes,
/// in their order, the messages that the run sent to it, whatever its own
/// operations come to. Then for every decision that the coordinator logged
/// in that run, in the order of its log, the participant has logged two
/// records: its own vote on the transaction of that decision, and after it
/// the very record that the coordinator logged. Beyond these the
/// participant's log holds at most its vote on the transaction in flight.
pub proof fn law_agreement(
    c: CoordinatorView,
    events: Seq<EventView>,
    i: int,
    p: ParticipantView,
    inputs: Seq<Input>,
)
    requires
        c.inv(),
        !c.in_flight(),
        !c.finished,
        0 <= i < c.participants.len(),
        p.running,
        p.state != ParticipantState::AwaitingGlobalDecision,
        inputs.len() == c.sent_to(
            events,
            Peer { role: Role::Participant, id: c.participants[i] },
        ).len(),
        forall|j: int|
            0 <= j < inputs.len() ==> (#[trigger] inputs[j]).received == Some(
                c.sent_to(events, Peer { role: Role::Participant, id: c.participants[i] })[j],
            ),
    ensures
        ({
            let decided = c.run(events).log.skip(c.log.len() as int);
            let logged = p.run(inputs).log.skip(p.log.len() as int);
            &&& c.run(events).log.take(c.log.len() as int) == c.log
            &&& p.run(inputs).log.take(p.log.len() as int) == p.log
            &&& logged.len() == 2 * decided.len() + c.run(events).flying()
            &&& forall|k: int|
                0 <= k < decided.len() ==> {
                    &&& logged[2 * k + 1] == #[trigger] decided[k]
                    &&& is_vote(logged[2 * k].mtype)
                    &&& logged[2 * k].txid == decided[k].txid
                }
        }),
{
    let peer = Peer { role: Role::Participant, id: c.participants[i] };
    let stream = c.sent_to(events, peer);
    let end = c.run(events);
    let decided = end.log.skip(c.log.len() as int);
    law_proposals_and_decisions_alternate(c, events, i);
    law_log_only_grows(c, events);
    lemma_follow(p, stream, decided, end.in_flight(), end.finished, inputs, inputs.len() as int);
    assert(inputs.take(inputs.len() as int) =~= inputs);
    let logged = p.run(inputs).log.skip(p.log.len() as int);
    assert forall|k: int| 0 <= k < decided.len() implies {
        &&& logged[2 * k + 1] == #[trigger] decided[k]
        &&& is_vote(logged[2 * k].mtype)
        &&& logged[2 * k].txid == decided[k].txid
    } by {
        assert(logged[2 * k + 1] == p.run(inputs).log[p.log.len() + 2 * k + 1]);
        assert(logged[2 * k] == p.run(inputs).log[p.log.len() + 2 * k]);
    }
}

/// A vote counts as it was cast. Take a participant at rest that is handed
/// the proposal of the transaction in flight and whose vote leaves, and let
/// the coordinator find that vote when it polls this participant before the
/// deadline. Then the vote is recorded as a vote to commit exactly where the
/// participant's own operation succeeded, which is where the participant has
/// logged a vote to commit; in every other case it is recorded as a vote to
/// abort. The record of the vote was in the participant's log before the vote
/// left.
pub proof fn law_vote_counts_as_cast(
    c: CoordinatorView,
    p: ParticipantView,
    input: Input,
    now_ms: u64,
)
    requires
        c.inv(),
        c.state == CoordinatorState::ProposalSent,
        !c.timed_out(now_ms),
        p.running,
        p.state != ParticipantState::AwaitingGlobalDecision,
        input.received == Some(c.queue[0].retag(MessageType::CoordinatorPropose)),
        p.answer(input).vote is Some,
    ensures
        ({
            let vote = p.answer(input).vote->0;
            let recorded = c.tallied(PolledView::Message(vote), now_ms).votes[c.cursor];
            &&& p.step(input).log == p.log.push(record_of(vote))
            &&& vote.txid == c.queue[0].txid
            &&& is_vote(vote.mtype)
            &&& recorded == RequestStatus::Committed <==> p.succeeds(input.operation_sample)
            &&& recorded == RequestStatus::Committed <==> p.step(input).log.last().mtype
                == MessageType::ParticipantVoteCommit
            &&& recorded == RequestStatus::Aborted <==> !p.succeeds(input.operation_sample)
        }),
{
    let vote = p.answer(input).vote->0;
    let votes = c.votes_after(PolledView::Message(vote), now_ms);
    assert(votes[c.cursor] == vote_of(PolledView::Message(vote), c.queue[0].txid));
}

/// The client is told the decision. The step that logs the decision on a
/// transaction sends, as its first message and to the client that made the
/// request, the result of that same transaction: committed where the logged
/// decision is a commit, aborted where it is an abort. Every participant of
/// the roster is sent the decision as it was logged.
pub proof fn law_decision_handed_out(c: CoordinatorView, i: int)
    requires
        c.inv(),
        c.state == CoordinatorState::ReceivedVotesCommit || c.state
            == CoordinatorState::ReceivedVotesAbort,
        0 <= i < c.participants.len(),
    ensures
        ({
            let logged = c.settled().log.last();
            let result = c.decision_sends()[0];
            let decision = c.decision_sends()[1 + i];
            &&& c.settled().log == c.log.push(logged)
            &&& c.decision_sends().len() == 1 + c.participants.len()
            &&& result.to == Peer { role: Role::Client, id: c.queue[0].cl_id }
            &&& result.msg.txid == logged.txid
            &&& result.msg.mtype == MessageType::ClientResultCommit <==> logged.mtype
                == MessageType::CoordinatorCommit
            &&& result.msg.mtype == MessageType::ClientResultAbort <==> logged.mtype
                == MessageType::CoordinatorAbort
            &&& decision.to == Peer { role: Role::Participant, id: c.participants[i] }
            &&& record_of(decision.msg) == logged
        }),
{
}

} // verus!
