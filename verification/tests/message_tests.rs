use two_phase_commit::message::MessageType;
use two_phase_commit::message::ProtocolMessage;

fn request() -> ProtocolMessage {
    ProtocolMessage::generate(
        MessageType::ClientRequest,
        "client2_op_5".to_string(),
        "2".to_string(),
        5,
        2,
    )
}

#[test]
fn generate_sets_all_fields() {
    let m = request();
    assert_eq!(m.mtype, MessageType::ClientRequest);
    assert_eq!(m.txid, "client2_op_5");
    assert_eq!(m.senderid, "2");
    assert_eq!(m.opid, 5);
    assert_eq!(m.cl_id, 2);
}

#[test]
fn retag_changes_only_the_tag() {
    let m = request();
    let p = m.retag(MessageType::CoordinatorPropose);
    assert_eq!(p.mtype, MessageType::CoordinatorPropose);
    assert_eq!(p.txid, "client2_op_5");
    assert_eq!(p.senderid, "2");
    assert_eq!(p.opid, 5);
    assert_eq!(p.cl_id, 2);
    // The message that was retagged is still what it was.
    assert_eq!(m.mtype, MessageType::ClientRequest);
}

#[test]
fn exit_message_is_the_sentinel() {
    let e = ProtocolMessage::exit();
    assert_eq!(e.mtype, MessageType::CoordinatorExit);
    assert_eq!(e.txid, "done");
    assert_eq!(e.senderid, "done");
    assert_eq!(e.opid, 0);
    assert_eq!(e.cl_id, 0);
    assert!(e.is_exit());
}

#[test]
fn exit_tag_with_other_txid_is_no_sentinel() {
    let m = ProtocolMessage::generate(
        MessageType::CoordinatorExit,
        "client0_op_1".to_string(),
        "done".to_string(),
        0,
        0,
    );
    assert!(!m.is_exit());
}

#[test]
fn done_txid_with_other_tag_is_no_sentinel() {
    let m = ProtocolMessage::generate(
        MessageType::CoordinatorCommit,
        "done".to_string(),
        "done".to_string(),
        0,
        0,
    );
    assert!(!m.is_exit());
}

#[test]
fn request_is_no_sentinel() {
    assert!(!request().is_exit());
}

#[test]
fn messages_compare_by_their_fields() {
    let m = request();
    assert!(m == request());
    assert!(m != m.retag(MessageType::CoordinatorPropose));
    let other_txid = ProtocolMessage::generate(
        MessageType::ClientRequest,
        "client2_op_6".to_string(),
        "2".to_string(),
        5,
        2,
    );
    assert!(m != other_txid);
    let other_sender = ProtocolMessage::generate(
        MessageType::ClientRequest,
        "client2_op_5".to_string(),
        "3".to_string(),
        5,
        2,
    );
    assert!(m != other_sender);
    let other_opid = ProtocolMessage::generate(
        MessageType::ClientRequest,
        "client2_op_5".to_string(),
        "2".to_string(),
        6,
        2,
    );
    assert!(m != other_opid);
    let other_client = ProtocolMessage::generate(
        MessageType::ClientRequest,
        "client2_op_5".to_string(),
        "2".to_string(),
        5,
        3,
    );
    assert!(m != other_client);
}

#[test]
fn clone_equals_the_message() {
    let m = request();
    let c = m.clone();
    assert!(c == m);
    assert_eq!(c.txid, "client2_op_5");
}
