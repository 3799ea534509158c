use two_phase_commit::message::MessageType;
use two_phase_commit::message::ProtocolMessage;
use two_phase_commit::oplog::OpLog;

#[test]
fn new_log_is_empty_and_keeps_its_path() {
    let log = OpLog::new("logs/coordinator.log".to_string());
    assert_eq!(log.len(), 0);
    assert_eq!(log.path(), "logs/coordinator.log");
    assert!(log.get(0).is_none());
}

#[test]
fn append_adds_at_the_end_and_keeps_the_rest() {
    let mut log = OpLog::new("p".to_string());
    log.append(MessageType::ParticipantVoteCommit, "client0_op_1".to_string(), "0".to_string(), 1);
    log.append(MessageType::CoordinatorCommit, "client0_op_1".to_string(), "0".to_string(), 1);
    log.append(MessageType::ParticipantVoteAbort, "client1_op_1".to_string(), "1".to_string(), 7);
    assert_eq!(log.len(), 3);
    let first = log.get(0).unwrap();
    assert_eq!(first.mtype, MessageType::ParticipantVoteCommit);
    assert_eq!(first.txid, "client0_op_1");
    assert_eq!(first.senderid, "0");
    assert_eq!(first.opid, 1);
    let second = log.get(1).unwrap();
    assert_eq!(second.mtype, MessageType::CoordinatorCommit);
    let third = log.get(2).unwrap();
    assert_eq!(third.mtype, MessageType::ParticipantVoteAbort);
    assert_eq!(third.txid, "client1_op_1");
    assert_eq!(third.senderid, "1");
    assert_eq!(third.opid, 7);
    assert_eq!(log.path(), "p");
}

#[test]
fn append_message_records_the_four_fields() {
    let mut log = OpLog::new("p".to_string());
    let m = ProtocolMessage::generate(
        MessageType::CoordinatorAbort,
        "client4_op_2".to_string(),
        "4".to_string(),
        2,
        4,
    );
    log.append_message(&m);
    assert_eq!(log.len(), 1);
    let r = log.get(0).unwrap();
    assert_eq!(r.mtype, MessageType::CoordinatorAbort);
    assert_eq!(r.txid, "client4_op_2");
    assert_eq!(r.senderid, "4");
    assert_eq!(r.opid, 2);
}

#[test]
fn get_beyond_the_end_is_none() {
    let mut log = OpLog::new("p".to_string());
    log.append(MessageType::CoordinatorCommit, "t".to_string(), "s".to_string(), 1);
    assert!(log.get(0).is_some());
    assert!(log.get(1).is_none());
    assert!(log.get(usize::MAX).is_none());
}
