use rq::correlator::{CorrelationError, Correlator};
use rq::json::Json;
use rq::mirror::{ChangeEvent, Mirror};
use rq::new_queue::NewQueueApp;
use rq::protocol::{
    connection_data, connection_token, decode_inbound, encode_command, queues_from_response,
    token_from_answer, Command, Inbound, NegotiationError, Notification, RequestType,
};
use rq::queue::{queue_from_object, status_from_u64, Queue, QueueStatus, User};
use rq::text::{push_decimal, read_decimal};

fn text(s: &str) -> Json {
    Json::Str(s.to_string())
}

fn object(fields: Vec<(&str, Json)>) -> Json {
    Json::Object(fields.into_iter().map(|(k, v)| (k.to_string(), v)).collect())
}

fn user(name: &str) -> Json {
    object(vec![
        ("UserName", text(name)),
        ("FullName", text("Full Name")),
        ("EmailAddress", text("mail@example.com")),
    ])
}

fn queue(id: u64) -> Json {
    object(vec![
        ("Id", Json::UInt(id)),
        ("Name", text("Standup")),
        ("Status", Json::UInt(0)),
        ("Members", Json::Array(vec![user("amy"), user("bob")])),
        (
            "Messages",
            Json::Array(vec![object(vec![("Content", text("hello")), ("Sender", user("amy"))])]),
        ),
        ("RestrictToGroup", text("devs")),
    ])
}

fn plain_queue(id: u64, name: &str) -> Queue {
    Queue {
        id,
        name: name.to_string(),
        status: QueueStatus::Open,
        members: vec![],
        messages: vec![],
        restrict_to_group: String::new(),
    }
}

#[test]
fn decimal_text_of_integers() {
    let mut s = String::from("n=");
    push_decimal(&mut s, 0);
    assert_eq!(s, "n=0");
    let mut s = String::new();
    push_decimal(&mut s, 1234567890);
    assert_eq!(s, "1234567890");
    let mut s = String::new();
    push_decimal(&mut s, u64::MAX);
    assert_eq!(s, "18446744073709551615");
}

#[test]
fn reading_decimal_text() {
    assert_eq!(read_decimal("0"), Some(0));
    assert_eq!(read_decimal("0042"), Some(42));
    assert_eq!(read_decimal("18446744073709551615"), Some(u64::MAX));
    assert_eq!(read_decimal("18446744073709551616"), None);
    assert_eq!(read_decimal(""), None);
    assert_eq!(read_decimal("12a"), None);
    assert_eq!(read_decimal("-1"), None);
}

#[test]
fn every_command_frame() {
    let cases = vec![
        (Command::ListQueues, "{\"I\":5,\"H\":\"QHub\",\"M\":\"ListQueues\",\"A\":[]}"),
        (Command::JoinQueue { id: 7 }, "{\"I\":5,\"H\":\"QHub\",\"M\":\"JoinQueue\",\"A\":[7]}"),
        (Command::LeaveQueue { id: 7 }, "{\"I\":5,\"H\":\"QHub\",\"M\":\"LeaveQueue\",\"A\":[7]}"),
        (Command::StartQueue { id: 7 }, "{\"I\":5,\"H\":\"QHub\",\"M\":\"ActivateQueue\",\"A\":[7]}"),
        (Command::ResetQueue { id: 7 }, "{\"I\":5,\"H\":\"QHub\",\"M\":\"DeactivateQueue\",\"A\":[7]}"),
        (Command::NagQueue { id: 7 }, "{\"I\":5,\"H\":\"QHub\",\"M\":\"NagQueue\",\"A\":[7]}"),
        (Command::DeleteQueue { id: 7 }, "{\"I\":5,\"H\":\"QHub\",\"M\":\"CloseQueue\",\"A\":[7]}"),
    ];
    for (cmd, frame) in cases {
        assert_eq!(encode_command(5, &cmd), frame);
    }
}

#[test]
fn message_content_is_escaped() {
    let cmd = Command::MessageQueue { id: 3, content: "he said \"hi\"\n".to_string() };
    assert_eq!(
        encode_command(10, &cmd),
        "{\"I\":10,\"H\":\"QHub\",\"M\":\"MessageQueue\",\"A\":[3,\"he said \\\"hi\\\"\\n\"]}"
    );
    assert_eq!(cmd.request_type(), RequestType::MessageQueue);
}

#[test]
fn new_queue_frames() {
    let open = Command::NewQueue { name: "Lunch".to_string(), restrict_to_group: None };
    assert_eq!(encode_command(0, &open), "{\"I\":0,\"H\":\"QHub\",\"M\":\"StartQueue\",\"A\":[\"Lunch\",\"\"]}");
    let closed = Command::NewQueue { name: "Ops".to_string(), restrict_to_group: Some("admins".to_string()) };
    assert_eq!(encode_command(1, &closed), "{\"I\":1,\"H\":\"QHub\",\"M\":\"StartQueue\",\"A\":[\"Ops\",\"admins\"]}");
    assert_eq!(closed.request_type(), RequestType::NewQueue);
}

#[test]
fn queue_object_is_read_whole() {
    let q = queue_from_object(&queue(12)).unwrap();
    assert_eq!(q.id, 12);
    assert_eq!(q.name, "Standup");
    assert_eq!(q.status, QueueStatus::Open);
    assert_eq!(q.members.len(), 2);
    assert_eq!(
        q.members[1],
        User { username: "bob".to_string(), full_name: "Full Name".to_string(), email: "mail@example.com".to_string() }
    );
    assert_eq!(q.messages[0].content, "hello");
    assert_eq!(q.messages[0].sender.username, "amy");
    assert_eq!(q.restrict_to_group, "devs");
}

#[test]
fn queue_object_missing_field_is_rejected() {
    let broken = object(vec![("Id", Json::UInt(1)), ("Name", text("x"))]);
    assert!(queue_from_object(&broken).is_none());
    let bad_member = object(vec![
        ("Id", Json::UInt(1)),
        ("Name", text("x")),
        ("Status", Json::UInt(1)),
        ("Members", Json::Array(vec![object(vec![("UserName", text("a"))])])),
        ("Messages", Json::Array(vec![])),
        ("RestrictToGroup", text("")),
    ]);
    assert!(queue_from_object(&bad_member).is_none());
    let negative_id = object(vec![
        ("Id", Json::OtherNumber),
        ("Name", text("x")),
        ("Status", Json::UInt(1)),
        ("Members", Json::Array(vec![])),
        ("Messages", Json::Array(vec![])),
        ("RestrictToGroup", text("")),
    ]);
    assert!(queue_from_object(&negative_id).is_none());
}

#[test]
fn status_codes() {
    assert_eq!(status_from_u64(0), Some(QueueStatus::Open));
    assert_eq!(status_from_u64(1), Some(QueueStatus::Started));
    assert_eq!(status_from_u64(2), Some(QueueStatus::Closed));
    assert_eq!(status_from_u64(3), None);
}

#[test]
fn inbound_frames_by_kind() {
    let response = object(vec![("I", text("17")), ("R", Json::Null)]);
    assert_eq!(decode_inbound(&response), Ok(Inbound::Response { id: 17 }));
    let note = object(vec![("M", text("NewQueue")), ("A", Json::Array(vec![queue(4)]))]);
    let envelope = object(vec![("C", text("cursor")), ("M", Json::Array(vec![note]))]);
    match decode_inbound(&envelope) {
        Ok(Inbound::Notifications(v)) => match &v[..] {
            [Notification::QueueChanged(q)] => assert_eq!(q.id, 4),
            other => panic!("unexpected notifications {:?}", other),
        },
        other => panic!("unexpected frame {:?}", other),
    }
    assert_eq!(decode_inbound(&object(vec![])), Ok(Inbound::Ignored));
    assert!(decode_inbound(&object(vec![("C", text("c"))])).is_err());
    let no_args = object(vec![("M", text("NewQueue")), ("A", Json::Array(vec![]))]);
    assert!(decode_inbound(&object(vec![("C", text("c")), ("M", Json::Array(vec![no_args]))])).is_err());
}

#[test]
fn list_response_queues() {
    let r = object(vec![("I", text("0")), ("R", Json::Array(vec![queue(2), queue(1)]))]);
    let qs = queues_from_response(&r).unwrap();
    assert_eq!(qs.iter().map(|q| q.id).collect::<Vec<_>>(), vec![2, 1]);
    let not_list = object(vec![("I", text("0")), ("R", Json::Null)]);
    assert!(queues_from_response(&not_list).is_none());
}

#[test]
fn json_member_lookup_takes_first() {
    let j = object(vec![("a", Json::UInt(1)), ("a", Json::UInt(2)), ("b", Json::Bool(true))]);
    assert_eq!(j.get("a").and_then(|v| v.as_uint()), Some(1));
    assert!(j.get("c").is_none());
    assert!(Json::Null.get("a").is_none());
    assert_eq!(text("t").as_text().map(|s| s.as_str()), Some("t"));
    assert!(Json::UInt(3).as_items().is_none());
}

#[test]
fn handshake_token() {
    assert_eq!(token_from_answer("{\"ConnectionToken\":\"abc/+=\",\"Url\":\"/x\"}"), Ok("abc/+=".to_string()));
    assert_eq!(token_from_answer("{\"ConnectionToken\":5}"), Err(NegotiationError::MalformedResponse));
    assert_eq!(token_from_answer("<html>"), Err(NegotiationError::MalformedResponse));
    assert_eq!(connection_token(&object(vec![("ConnectionToken", text("t"))])), Ok("t".to_string()));
    assert_eq!(connection_data(), "[{\"Name\":\"QHub\"}]");
}

#[test]
fn correlator_tracks_pending_requests() {
    let mut c = Correlator::new();
    assert!(c.has_ids_left());
    assert_eq!(c.next_id(), 0);
    assert_eq!(c.next_id(), 1);
    assert_eq!(c.register(1, RequestType::JoinQueue), Ok(()));
    assert_eq!(c.register(1, RequestType::LeaveQueue), Err(CorrelationError::DuplicateId));
    assert!(c.is_pending(1));
    assert_eq!(c.resolve(1), Some(RequestType::JoinQueue));
    assert_eq!(c.resolve(1), None);
    assert_eq!(c.pending_count(), 0);
}

#[test]
fn correlator_drains_in_id_order() {
    let mut c = Correlator::new();
    c.register(8, RequestType::NagQueue).unwrap();
    c.register(3, RequestType::ListQueues).unwrap();
    assert_eq!(c.drain_all(), vec![(3, RequestType::ListQueues), (8, RequestType::NagQueue)]);
    assert_eq!(c.pending_count(), 0);
    assert!(c.drain_all().is_empty());
}

#[test]
fn mirror_upsert_snapshot_and_removal() {
    let mut m = Mirror::new();
    assert_eq!(m.apply_upsert(plain_queue(5, "a")), ChangeEvent::QueueUpdated(5));
    assert_eq!(m.apply_upsert(plain_queue(5, "b")), ChangeEvent::QueueUpdated(5));
    assert_eq!(m.len(), 1);
    assert_eq!(m.get(5).unwrap().name, "b");
    assert_eq!(m.apply_removal(5), Some(ChangeEvent::QueueRemoved(5)));
    assert_eq!(m.apply_removal(5), None);
    let e = m.apply_snapshot(vec![plain_queue(3, "x"), plain_queue(1, "y"), plain_queue(3, "z")]);
    assert_eq!(e, ChangeEvent::QueuesReplaced);
    assert_eq!(m.ids(), vec![1, 3]);
    assert_eq!(m.get(3).unwrap().name, "z");
    m.apply_snapshot(vec![]);
    assert_eq!(m.len(), 0);
}

#[test]
fn new_queue_form_leaves_empty_group_out() {
    let open = NewQueueApp::new("Lunch".to_string(), String::new());
    assert_eq!(open.submit(), Command::NewQueue { name: "Lunch".to_string(), restrict_to_group: None });
    let closed = NewQueueApp::new("Ops".to_string(), "admins".to_string());
    assert_eq!(closed.name, "Ops");
    assert_eq!(
        closed.submit(),
        Command::NewQueue { name: "Ops".to_string(), restrict_to_group: Some("admins".to_string()) }
    );
}
