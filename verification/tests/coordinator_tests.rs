use two_phase_commit::channel::Envelope;
use two_phase_commit::channel::Peer;
use two_phase_commit::channel::Polled;
use two_phase_commit::channel::Role;
use two_phase_commit::coordinator::Await;
use two_phase_commit::coordinator::Coordinator;
use two_phase_commit::coordinator::CoordinatorEvent;
use two_phase_commit::coordinator::CoordinatorState;
use two_phase_commit::coordinator::Directive;
use two_phase_commit::coordinator::ProtocolError;
use two_phase_commit::coordinator::VOTE_TIMEOUT_MS;
use two_phase_commit::message::MessageType;
use two_phase_commit::message::ProtocolMessage;
use two_phase_commit::status::StatusReport;

fn request(client: u32, seq: u32) -> ProtocolMessage {
    ProtocolMessage::generate(
        MessageType::ClientRequest,
        format!("client{}_op_{}", client, seq),
        client.to_string(),
        seq,
        client,
    )
}

fn coordinator(nr: u32, clients: &[u32], participants: &[u32]) -> Coordinator {
    let mut c = Coordinator::new("logs/coordinator.log".to_string(), nr);
    for id in clients {
        c.client_join(*id);
    }
    for id in participants {
        c.participant_join(*id);
    }
    c
}

fn step(c: &mut Coordinator, e: CoordinatorEvent) -> Directive {
    c.protocol(e).unwrap()
}

fn refused(c: &mut Coordinator, e: CoordinatorEvent) -> ProtocolError {
    match c.protocol(e) {
        Ok(_) => panic!("the event was taken"),
        Err(e) => e,
    }
}

fn participant(id: u32) -> Peer {
    Peer { role: Role::Participant, id }
}

fn client(id: u32) -> Peer {
    Peer { role: Role::Client, id }
}

/// The participant that the coordinator wants polled.
fn asked(c: &Coordinator) -> u32 {
    match c.awaited() {
        Await::Poll(id) => id,
        other => panic!("no participant is to be polled: {:?}", other),
    }
}

/// Hands over what a poll of the participant asked for found.
fn poll(c: &mut Coordinator, polled: Polled, now_ms: u64) -> Directive {
    let from = asked(c);
    step(c, CoordinatorEvent::Vote { from, polled, now_ms })
}

/// The participant asked for has voted on `m`.
fn cast(c: &mut Coordinator, m: &ProtocolMessage, commit: bool, now_ms: u64) -> Directive {
    let tag = if commit {
        MessageType::ParticipantVoteCommit
    } else {
        MessageType::ParticipantVoteAbort
    };
    poll(c, Polled::Message(m.retag(tag)), now_ms)
}

/// The participant asked for has sent nothing yet.
fn silence(c: &mut Coordinator, now_ms: u64) -> Directive {
    poll(c, Polled::Empty, now_ms)
}

fn empty(from: u32, now_ms: u64) -> CoordinatorEvent {
    CoordinatorEvent::Vote { from, polled: Polled::Empty, now_ms }
}

fn assert_envelope(e: &Envelope, to: Peer, tag: MessageType, txid: &str) {
    assert_eq!(e.to, to);
    assert_eq!(e.msg.mtype, tag);
    assert_eq!(e.msg.txid, txid);
}

/// A coordinator with one client, the given participants and one request
/// taken in and proposed at the time 5000.
fn proposed(participants: &[u32]) -> (Coordinator, ProtocolMessage) {
    let mut c = coordinator(1, &[7], participants);
    let r = request(7, 1);
    step(&mut c, CoordinatorEvent::Request(r.clone()));
    step(&mut c, CoordinatorEvent::Clock { now_ms: 5000 });
    (c, r)
}

#[test]
fn new_coordinator_is_at_rest() {
    let c = Coordinator::new("logs/coordinator.log".to_string(), 4);
    assert_eq!(c.state(), CoordinatorState::Quiescent);
    assert_eq!(c.awaited(), Await::Request);
    assert_eq!(c.report_status(), StatusReport { committed: 0, aborted: 0, unknown: 0 });
    assert_eq!(c.log().len(), 0);
    assert_eq!(c.log().path(), "logs/coordinator.log");
}

#[test]
fn vote_timeout_is_one_second() {
    assert_eq!(VOTE_TIMEOUT_MS, 1000);
}

#[test]
fn run_without_requests_ends_at_once() {
    let mut c = coordinator(0, &[5, 6], &[1, 2, 3]);
    assert_eq!(c.awaited(), Await::Resume);
    let d = step(&mut c, CoordinatorEvent::Resume);
    assert_eq!(d.wait, Await::Halt);
    assert_eq!(d.report, Some(StatusReport { committed: 0, aborted: 0, unknown: 0 }));
    assert_eq!(d.sends.len(), 5);
    assert_envelope(&d.sends[0], participant(1), MessageType::CoordinatorExit, "done");
    assert_envelope(&d.sends[1], participant(2), MessageType::CoordinatorExit, "done");
    assert_envelope(&d.sends[2], participant(3), MessageType::CoordinatorExit, "done");
    assert_envelope(&d.sends[3], client(5), MessageType::CoordinatorExit, "done");
    assert_envelope(&d.sends[4], client(6), MessageType::CoordinatorExit, "done");
    for e in &d.sends {
        assert!(e.msg.is_exit());
    }
    assert_eq!(c.state(), CoordinatorState::Quiescent);
    assert_eq!(c.log().len(), 0);
}

#[test]
fn joining_twice_registers_once() {
    let mut c = coordinator(0, &[5, 5], &[1, 2, 1, 2, 2]);
    let d = step(&mut c, CoordinatorEvent::Resume);
    assert_eq!(d.sends.len(), 3);
    assert_eq!(d.sends[0].to, participant(1));
    assert_eq!(d.sends[1].to, participant(2));
    assert_eq!(d.sends[2].to, client(5));
}

#[test]
fn a_client_and_a_participant_may_share_a_number() {
    let mut c = coordinator(0, &[0], &[0]);
    let d = step(&mut c, CoordinatorEvent::Resume);
    assert_eq!(d.sends.len(), 2);
    assert_eq!(d.sends[0].to, participant(0));
    assert_eq!(d.sends[1].to, client(0));
}

#[test]
fn intake_takes_exactly_the_number_of_requests() {
    let mut c = coordinator(3, &[0, 1], &[0]);
    let d = step(&mut c, CoordinatorEvent::Request(request(0, 1)));
    assert!(d.sends.is_empty());
    assert_eq!(d.wait, Await::Request);
    assert_eq!(d.report, None);
    assert_eq!(c.state(), CoordinatorState::ReceivedRequest);
    let d = step(&mut c, CoordinatorEvent::Request(request(1, 1)));
    assert_eq!(d.wait, Await::Request);
    let d = step(&mut c, CoordinatorEvent::Request(request(0, 2)));
    assert_eq!(d.wait, Await::Clock);
    assert!(d.sends.is_empty());
    assert_eq!(c.awaited(), Await::Clock);
    // A fourth request is one too many.
    assert_eq!(
        refused(&mut c, CoordinatorEvent::Request(request(1, 2))),
        ProtocolError::Unexpected
    );
}

#[test]
fn request_of_an_unregistered_client_is_turned_away() {
    let mut c = coordinator(2, &[0, 1], &[0]);
    assert_eq!(
        refused(&mut c, CoordinatorEvent::Request(request(2, 1))),
        ProtocolError::UnknownClient
    );
    assert_eq!(c.state(), CoordinatorState::Quiescent);
    assert_eq!(c.awaited(), Await::Request);
    // The refusal did not count as a request.
    step(&mut c, CoordinatorEvent::Request(request(0, 1)));
    let d = step(&mut c, CoordinatorEvent::Request(request(1, 1)));
    assert_eq!(d.wait, Await::Clock);
}

#[test]
fn events_that_are_not_awaited_are_turned_away() {
    let mut c = coordinator(1, &[0], &[0]);
    // At rest with a request to come.
    assert_eq!(refused(&mut c, CoordinatorEvent::Resume), ProtocolError::Unexpected);
    assert_eq!(refused(&mut c, CoordinatorEvent::Clock { now_ms: 1 }), ProtocolError::Unexpected);
    assert_eq!(refused(&mut c, empty(0, 1)), ProtocolError::Unexpected);
    assert_eq!(
        refused(&mut c, CoordinatorEvent::Signal { running: true }),
        ProtocolError::Unexpected
    );
    step(&mut c, CoordinatorEvent::Request(request(0, 1)));
    // Intake complete: the clock is awaited.
    assert_eq!(refused(&mut c, CoordinatorEvent::Resume), ProtocolError::Unexpected);
    assert_eq!(refused(&mut c, empty(0, 1)), ProtocolError::Unexpected);
    assert_eq!(
        refused(&mut c, CoordinatorEvent::Request(request(0, 2))),
        ProtocolError::Unexpected
    );
    step(&mut c, CoordinatorEvent::Clock { now_ms: 10 });
    // Voting: only polls are awaited.
    assert_eq!(refused(&mut c, CoordinatorEvent::Resume), ProtocolError::Unexpected);
    assert_eq!(refused(&mut c, CoordinatorEvent::Clock { now_ms: 11 }), ProtocolError::Unexpected);
    assert_eq!(
        refused(&mut c, CoordinatorEvent::Signal { running: false }),
        ProtocolError::Unexpected
    );
    assert_eq!(c.state(), CoordinatorState::ProposalSent);
    cast(&mut c, &request(0, 1), true, 12);
    // Votes are in.
    assert_eq!(refused(&mut c, empty(0, 13)), ProtocolError::Unexpected);
    assert_eq!(
        refused(&mut c, CoordinatorEvent::Signal { running: true }),
        ProtocolError::Unexpected
    );
    assert_eq!(c.state(), CoordinatorState::ReceivedVotesCommit);
    step(&mut c, CoordinatorEvent::Resume);
    // Decision handed out: the signal is awaited.
    assert_eq!(refused(&mut c, CoordinatorEvent::Resume), ProtocolError::Unexpected);
    assert_eq!(refused(&mut c, CoordinatorEvent::Clock { now_ms: 14 }), ProtocolError::Unexpected);
    assert_eq!(c.state(), CoordinatorState::SentGlobalDecision);
    assert_eq!(c.log().len(), 1);
}

#[test]
fn proposal_goes_to_every_participant_in_roster_order() {
    let mut c = coordinator(1, &[7], &[3, 1, 2]);
    step(&mut c, CoordinatorEvent::Request(request(7, 1)));
    let d = step(&mut c, CoordinatorEvent::Clock { now_ms: 5000 });
    assert_eq!(d.sends.len(), 3);
    assert_envelope(&d.sends[0], participant(3), MessageType::CoordinatorPropose, "client7_op_1");
    assert_envelope(&d.sends[1], participant(1), MessageType::CoordinatorPropose, "client7_op_1");
    assert_envelope(&d.sends[2], participant(2), MessageType::CoordinatorPropose, "client7_op_1");
    for e in &d.sends {
        assert_eq!(e.msg.senderid, "7");
        assert_eq!(e.msg.opid, 1);
        assert_eq!(e.msg.cl_id, 7);
    }
    assert_eq!(d.wait, Await::Poll(3));
    assert_eq!(d.report, None);
    assert_eq!(c.state(), CoordinatorState::ProposalSent);
    assert_eq!(c.log().len(), 0);
}

#[test]
fn unanimous_commit_votes_commit() {
    let (mut c, r) = proposed(&[1, 2]);
    let d = cast(&mut c, &r, true, 5100);
    assert_eq!(d.wait, Await::Poll(2));
    assert_eq!(c.state(), CoordinatorState::ProposalSent);
    let d = cast(&mut c, &r, true, 5200);
    assert_eq!(d.wait, Await::Resume);
    assert!(d.sends.is_empty());
    assert_eq!(c.state(), CoordinatorState::ReceivedVotesCommit);
    assert_eq!(c.log().len(), 0);

    let d = step(&mut c, CoordinatorEvent::Resume);
    assert_eq!(c.state(), CoordinatorState::SentGlobalDecision);
    assert_eq!(d.wait, Await::Signal);
    assert_eq!(d.report, None);
    assert_eq!(d.sends.len(), 3);
    assert_envelope(&d.sends[0], client(7), MessageType::ClientResultCommit, "client7_op_1");
    assert_envelope(&d.sends[1], participant(1), MessageType::CoordinatorCommit, "client7_op_1");
    assert_envelope(&d.sends[2], participant(2), MessageType::CoordinatorCommit, "client7_op_1");
    assert_eq!(c.log().len(), 1);
    let logged = c.log().get(0).unwrap();
    assert_eq!(logged.mtype, MessageType::CoordinatorCommit);
    assert_eq!(logged.txid, "client7_op_1");
    assert_eq!(logged.senderid, "7");
    assert_eq!(logged.opid, 1);
    assert_eq!(c.report_status(), StatusReport { committed: 1, aborted: 0, unknown: 0 });
}

#[test]
fn one_abort_vote_aborts() {
    let (mut c, r) = proposed(&[1, 2, 3]);
    cast(&mut c, &r, true, 5001);
    cast(&mut c, &r, false, 5002);
    let d = cast(&mut c, &r, true, 5003);
    assert_eq!(d.wait, Await::Resume);
    assert_eq!(c.state(), CoordinatorState::ReceivedVotesAbort);
    let d = step(&mut c, CoordinatorEvent::Resume);
    assert_eq!(d.sends.len(), 4);
    assert_envelope(&d.sends[0], client(7), MessageType::ClientResultAbort, "client7_op_1");
    assert_envelope(&d.sends[1], participant(1), MessageType::CoordinatorAbort, "client7_op_1");
    assert_envelope(&d.sends[2], participant(2), MessageType::CoordinatorAbort, "client7_op_1");
    assert_envelope(&d.sends[3], participant(3), MessageType::CoordinatorAbort, "client7_op_1");
    assert_eq!(c.log().get(0).unwrap().mtype, MessageType::CoordinatorAbort);
    assert_eq!(c.report_status(), StatusReport { committed: 0, aborted: 1, unknown: 0 });
}

#[test]
fn all_abort_votes_abort() {
    let (mut c, r) = proposed(&[1, 2]);
    cast(&mut c, &r, false, 5001);
    cast(&mut c, &r, false, 5002);
    assert_eq!(c.state(), CoordinatorState::ReceivedVotesAbort);
}

#[test]
fn the_polls_go_round_the_participants_without_a_vote() {
    let (mut c, r) = proposed(&[10, 20, 30]);
    assert_eq!(c.awaited(), Await::Poll(10));
    assert_eq!(silence(&mut c, 5001).wait, Await::Poll(20));
    assert_eq!(silence(&mut c, 5002).wait, Await::Poll(30));
    assert_eq!(silence(&mut c, 5003).wait, Await::Poll(10));
    assert_eq!(silence(&mut c, 5004).wait, Await::Poll(20));
    // 20 votes: it is not polled again.
    assert_eq!(cast(&mut c, &r, true, 5005).wait, Await::Poll(30));
    assert_eq!(silence(&mut c, 5006).wait, Await::Poll(10));
    assert_eq!(silence(&mut c, 5007).wait, Await::Poll(30));
    // 30 votes: only 10 is left.
    assert_eq!(cast(&mut c, &r, true, 5008).wait, Await::Poll(10));
    assert_eq!(silence(&mut c, 5009).wait, Await::Poll(10));
    assert_eq!(cast(&mut c, &r, true, 5010).wait, Await::Resume);
    assert_eq!(c.state(), CoordinatorState::ReceivedVotesCommit);
}

#[test]
fn missing_votes_default_to_abort_at_the_deadline() {
    let (mut c, r) = proposed(&[1, 2]);
    cast(&mut c, &r, true, 5100);
    // One millisecond before the deadline the coordinator still waits.
    let d = silence(&mut c, 5999);
    assert_eq!(d.wait, Await::Poll(2));
    assert_eq!(c.state(), CoordinatorState::ProposalSent);
    // At the deadline it stops waiting.
    let d = silence(&mut c, 6000);
    assert_eq!(d.wait, Await::Resume);
    assert_eq!(c.state(), CoordinatorState::ReceivedVotesAbort);
    let d = step(&mut c, CoordinatorEvent::Resume);
    assert_envelope(&d.sends[0], client(7), MessageType::ClientResultAbort, "client7_op_1");
    // The decision goes to every participant, the silent one too.
    assert_envelope(&d.sends[1], participant(1), MessageType::CoordinatorAbort, "client7_op_1");
    assert_envelope(&d.sends[2], participant(2), MessageType::CoordinatorAbort, "client7_op_1");
}

#[test]
fn a_commit_vote_just_before_the_deadline_counts() {
    let (mut c, r) = proposed(&[1]);
    cast(&mut c, &r, true, 5999);
    assert_eq!(c.state(), CoordinatorState::ReceivedVotesCommit);
}

#[test]
fn a_commit_vote_at_the_deadline_is_too_late() {
    let (mut c, r) = proposed(&[1]);
    cast(&mut c, &r, true, 6000);
    assert_eq!(c.state(), CoordinatorState::ReceivedVotesAbort);
}

#[test]
fn a_commit_vote_after_the_deadline_is_too_late() {
    let (mut c, r) = proposed(&[1, 2]);
    cast(&mut c, &r, true, 5500);
    cast(&mut c, &r, true, 70000);
    assert_eq!(c.state(), CoordinatorState::ReceivedVotesAbort);
}

#[test]
fn recorded_votes_survive_the_deadline() {
    // All votes were recorded in time; the deadline passing later changes
    // nothing, because nobody is polled any more.
    let (mut c, r) = proposed(&[1, 2]);
    cast(&mut c, &r, true, 5001);
    cast(&mut c, &r, true, 5002);
    assert_eq!(refused(&mut c, empty(0, 9000)), ProtocolError::Unexpected);
    assert_eq!(c.state(), CoordinatorState::ReceivedVotesCommit);
}

#[test]
fn a_clock_that_reads_less_than_at_the_proposal_is_no_timeout() {
    let (mut c, r) = proposed(&[1, 2]);
    let d = silence(&mut c, 0);
    assert_eq!(d.wait, Await::Poll(2));
    cast(&mut c, &r, true, 1);
    cast(&mut c, &r, true, 2);
    assert_eq!(c.state(), CoordinatorState::ReceivedVotesCommit);
}

#[test]
fn the_deadline_is_counted_from_the_proposal() {
    let mut c = coordinator(1, &[7], &[1]);
    let r = request(7, 1);
    step(&mut c, CoordinatorEvent::Request(r.clone()));
    step(&mut c, CoordinatorEvent::Clock { now_ms: u64::MAX - 500 });
    cast(&mut c, &r, true, u64::MAX);
    assert_eq!(c.state(), CoordinatorState::ReceivedVotesCommit);
}

#[test]
fn a_poll_of_another_participant_is_turned_away() {
    let (mut c, r) = proposed(&[1, 2]);
    assert_eq!(c.awaited(), Await::Poll(1));
    let vote = r.retag(MessageType::ParticipantVoteCommit);
    let from_the_wrong_one =
        CoordinatorEvent::Vote { from: 2, polled: Polled::Message(vote.clone()), now_ms: 5001 };
    assert_eq!(refused(&mut c, from_the_wrong_one), ProtocolError::Unexpected);
    let from_a_stranger =
        CoordinatorEvent::Vote { from: 9, polled: Polled::Message(vote), now_ms: 5001 };
    assert_eq!(refused(&mut c, from_a_stranger), ProtocolError::Unexpected);
    // Nothing was recorded.
    assert_eq!(c.awaited(), Await::Poll(1));
    assert_eq!(c.state(), CoordinatorState::ProposalSent);
    cast(&mut c, &r, true, 5002);
    assert_eq!(c.awaited(), Await::Poll(2));
}

#[test]
fn a_lost_channel_counts_as_an_abort_vote() {
    let (mut c, r) = proposed(&[1, 2]);
    cast(&mut c, &r, true, 5001);
    let d = poll(&mut c, Polled::Disconnected, 5002);
    assert_eq!(d.wait, Await::Resume);
    assert_eq!(c.state(), CoordinatorState::ReceivedVotesAbort);
}

#[test]
fn an_unexpected_message_counts_as_an_abort_vote() {
    let tags = [
        MessageType::ClientRequest,
        MessageType::CoordinatorPropose,
        MessageType::CoordinatorCommit,
        MessageType::CoordinatorAbort,
        MessageType::ClientResultCommit,
        MessageType::ClientResultAbort,
        MessageType::CoordinatorExit,
        MessageType::ParticipantVoteAbort,
    ];
    for tag in tags {
        let (mut c, r) = proposed(&[1]);
        poll(&mut c, Polled::Message(r.retag(tag)), 5001);
        assert_eq!(c.state(), CoordinatorState::ReceivedVotesAbort);
    }
}

#[test]
fn a_commit_vote_for_another_transaction_counts_as_an_abort_vote() {
    let (mut c, _) = proposed(&[1]);
    cast(&mut c, &request(7, 2), true, 5001);
    assert_eq!(c.state(), CoordinatorState::ReceivedVotesAbort);
}

#[test]
fn with_no_participants_the_vote_is_over_at_once() {
    let mut c = coordinator(1, &[7], &[]);
    step(&mut c, CoordinatorEvent::Request(request(7, 1)));
    let d = step(&mut c, CoordinatorEvent::Clock { now_ms: 1 });
    assert!(d.sends.is_empty());
    assert_eq!(d.wait, Await::Resume);
    assert_eq!(c.state(), CoordinatorState::ReceivedVotesCommit);
    let d = step(&mut c, CoordinatorEvent::Resume);
    assert_eq!(d.sends.len(), 1);
    assert_envelope(&d.sends[0], client(7), MessageType::ClientResultCommit, "client7_op_1");
}

#[test]
fn requests_are_processed_in_the_order_of_arrival() {
    let mut c = coordinator(3, &[0, 1], &[9]);
    let order = [request(1, 1), request(0, 1), request(1, 2)];
    for r in &order {
        step(&mut c, CoordinatorEvent::Request(r.clone()));
    }
    let mut now: u64 = 0;
    for (k, r) in order.iter().enumerate() {
        now += 10;
        let d = step(&mut c, CoordinatorEvent::Clock { now_ms: now });
        assert_eq!(d.sends[0].msg.txid, r.txid);
        cast(&mut c, r, k != 1, now + 1);
        let d = step(&mut c, CoordinatorEvent::Resume);
        assert_eq!(d.sends[0].to, client(r.cl_id));
        assert_eq!(d.sends[0].msg.txid, r.txid);
        let d = step(&mut c, CoordinatorEvent::Signal { running: true });
        if k < 2 {
            assert!(d.sends.is_empty());
            assert_eq!(d.wait, Await::Clock);
            assert_eq!(c.state(), CoordinatorState::ReceivedRequest);
        } else {
            assert_eq!(d.wait, Await::Halt);
        }
    }
    assert_eq!(c.log().len(), 3);
    assert_eq!(c.log().get(0).unwrap().txid, "client1_op_1");
    assert_eq!(c.log().get(0).unwrap().mtype, MessageType::CoordinatorCommit);
    assert_eq!(c.log().get(1).unwrap().txid, "client0_op_1");
    assert_eq!(c.log().get(1).unwrap().mtype, MessageType::CoordinatorAbort);
    assert_eq!(c.log().get(2).unwrap().txid, "client1_op_2");
    assert_eq!(c.log().get(2).unwrap().mtype, MessageType::CoordinatorCommit);
    assert_eq!(c.report_status(), StatusReport { committed: 2, aborted: 1, unknown: 0 });
}

#[test]
fn a_drained_queue_ends_the_run() {
    let (mut c, r) = proposed(&[1]);
    cast(&mut c, &r, true, 5001);
    step(&mut c, CoordinatorEvent::Resume);
    let d = step(&mut c, CoordinatorEvent::Signal { running: true });
    assert_eq!(d.wait, Await::Halt);
    assert_eq!(d.report, Some(StatusReport { committed: 1, aborted: 0, unknown: 0 }));
    assert_eq!(d.sends.len(), 2);
    assert_envelope(&d.sends[0], participant(1), MessageType::CoordinatorExit, "done");
    assert_envelope(&d.sends[1], client(7), MessageType::CoordinatorExit, "done");
    assert_eq!(c.state(), CoordinatorState::Quiescent);
    assert_eq!(c.awaited(), Await::Halt);
}

#[test]
fn a_raised_signal_ends_the_run_and_gives_up_the_queue() {
    let mut c = coordinator(4, &[0], &[1]);
    for seq in 1..=4 {
        step(&mut c, CoordinatorEvent::Request(request(0, seq)));
    }
    step(&mut c, CoordinatorEvent::Clock { now_ms: 0 });
    cast(&mut c, &request(0, 1), true, 1);
    step(&mut c, CoordinatorEvent::Resume);
    let d = step(&mut c, CoordinatorEvent::Signal { running: false });
    assert_eq!(d.wait, Await::Halt);
    assert_eq!(d.report, Some(StatusReport { committed: 1, aborted: 0, unknown: 3 }));
    assert_eq!(d.sends.len(), 2);
    assert!(d.sends[0].msg.is_exit());
    assert!(d.sends[1].msg.is_exit());
    assert_eq!(c.log().len(), 1);
    assert_eq!(c.report_status(), StatusReport { committed: 1, aborted: 0, unknown: 3 });
}

#[test]
fn after_the_end_every_event_is_turned_away() {
    let mut c = coordinator(0, &[0], &[1]);
    step(&mut c, CoordinatorEvent::Resume);
    assert_eq!(refused(&mut c, CoordinatorEvent::Resume), ProtocolError::Unexpected);
    assert_eq!(
        refused(&mut c, CoordinatorEvent::Request(request(0, 1))),
        ProtocolError::Unexpected
    );
    assert_eq!(refused(&mut c, CoordinatorEvent::Clock { now_ms: 1 }), ProtocolError::Unexpected);
    assert_eq!(refused(&mut c, empty(0, 1)), ProtocolError::Unexpected);
    assert_eq!(
        refused(&mut c, CoordinatorEvent::Signal { running: true }),
        ProtocolError::Unexpected
    );
    assert_eq!(c.awaited(), Await::Halt);
    assert_eq!(c.report_status(), StatusReport { committed: 0, aborted: 0, unknown: 0 });
}

#[test]
fn the_decision_is_in_the_log_when_it_is_handed_out() {
    let (mut c, r) = proposed(&[1]);
    cast(&mut c, &r, false, 5001);
    assert_eq!(c.log().len(), 0);
    let d = step(&mut c, CoordinatorEvent::Resume);
    // The messages are handed over by the step that logged the decision.
    assert_eq!(c.log().len(), 1);
    assert_eq!(d.sends.len(), 2);
    let logged = c.log().get(0).unwrap();
    assert_eq!(logged.mtype, d.sends[1].msg.mtype);
    assert_eq!(logged.txid, d.sends[1].msg.txid);
    assert_eq!(logged.senderid, d.sends[1].msg.senderid);
    assert_eq!(logged.opid, d.sends[1].msg.opid);
}

#[test]
fn send_result_turns_a_vote_into_the_result_for_the_client() {
    let mut c = coordinator(1, &[3], &[1]);
    let r = request(3, 9);
    let e = c.send_result(r.retag(MessageType::ParticipantVoteCommit));
    assert_eq!(e.to, client(3));
    assert_eq!(e.msg.mtype, MessageType::ClientResultCommit);
    assert_eq!(e.msg.txid, "client3_op_9");
    assert_eq!(e.msg.senderid, "3");
    assert_eq!(e.msg.opid, 9);
    assert_eq!(e.msg.cl_id, 3);
    let e = c.send_result(r.retag(MessageType::ParticipantVoteAbort));
    assert_eq!(e.to, client(3));
    assert_eq!(e.msg.mtype, MessageType::ClientResultAbort);
    assert_eq!(e.msg.txid, "client3_op_9");
    // The coordinator is as it was.
    assert_eq!(c.state(), CoordinatorState::Quiescent);
    assert_eq!(c.awaited(), Await::Request);
    assert_eq!(c.log().len(), 0);
}

#[test]
fn send_result_leaves_other_tags_as_they_are() {
    let mut c = coordinator(1, &[3], &[1]);
    let tags = [
        MessageType::ClientRequest,
        MessageType::CoordinatorPropose,
        MessageType::CoordinatorCommit,
        MessageType::CoordinatorAbort,
        MessageType::ClientResultCommit,
        MessageType::ClientResultAbort,
        MessageType::CoordinatorExit,
    ];
    for tag in tags {
        let e = c.send_result(request(3, 1).retag(tag));
        assert_eq!(e.msg.mtype, tag);
        assert_eq!(e.to, client(3));
    }
}

#[test]
fn the_next_transaction_starts_with_no_votes() {
    let mut c = coordinator(2, &[0], &[1, 2]);
    step(&mut c, CoordinatorEvent::Request(request(0, 1)));
    step(&mut c, CoordinatorEvent::Request(request(0, 2)));
    step(&mut c, CoordinatorEvent::Clock { now_ms: 0 });
    cast(&mut c, &request(0, 1), true, 1);
    cast(&mut c, &request(0, 1), true, 2);
    step(&mut c, CoordinatorEvent::Resume);
    step(&mut c, CoordinatorEvent::Signal { running: true });
    let d = step(&mut c, CoordinatorEvent::Clock { now_ms: 100 });
    assert_eq!(d.wait, Await::Poll(1));
    // The commit votes of the first transaction do not count for the second.
    let d = silence(&mut c, 1100);
    assert_eq!(d.wait, Await::Resume);
    assert_eq!(c.state(), CoordinatorState::ReceivedVotesAbort);
}
