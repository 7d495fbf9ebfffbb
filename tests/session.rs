use rq::mirror::ChangeEvent;
use rq::protocol::{Command, ProtocolError, RequestType};
use rq::queue::QueueStatus;
use rq::session::{CommandSendFailure, InboundError, InboundFrame, Phase, Session};
use rq::settings::{Settings, SettingsApp, Theme};

fn connected_session() -> Session {
    let mut s = Session::new(10_000, 5_000);
    assert!(s.start());
    assert!(s.connected(1_000));
    s
}

fn queue_json(id: u64, name: &str, status: u64) -> String {
    format!(
        "{{\"Id\":{},\"Name\":\"{}\",\"Status\":{},\"Members\":[],\"Messages\":[],\"RestrictToGroup\":\"\"}}",
        id, name, status
    )
}

fn envelope(kind: &str, queue: &str) -> String {
    format!("{{\"C\":\"x\",\"M\":[{{\"M\":\"{}\",\"A\":[{}]}}]}}", kind, queue)
}

#[test]
fn join_command_is_first_frame_of_session() {
    let mut s = connected_session();
    let frame = s.issue(&Command::JoinQueue { id: 42 }).unwrap();
    assert_eq!(frame, "{\"I\":0,\"H\":\"QHub\",\"M\":\"JoinQueue\",\"A\":[42]}");
    let next = s.issue(&Command::LeaveQueue { id: 42 }).unwrap();
    assert_eq!(next, "{\"I\":1,\"H\":\"QHub\",\"M\":\"LeaveQueue\",\"A\":[42]}");
    assert_eq!(s.pending_count(), 2);
}

#[test]
fn status_change_updates_only_its_queue() {
    let mut s = connected_session();
    let seed = envelope("NewQueue", &queue_json(3, "Other", 0));
    assert_eq!(s.receive_text(&seed, 1_100).unwrap(), vec![ChangeEvent::QueueUpdated(3)]);
    let other_before = s.mirror().get(3).unwrap().clone();

    let text = "{\"C\":\"x\",\"M\":[{\"M\":\"QueueStatusChanged\",\"A\":[{\"Id\":7,\"Name\":\"Q\",\"Status\":1,\"Members\":[],\"Messages\":[],\"RestrictToGroup\":\"\"}]}]}";
    let events = s.receive_text(text, 1_200).unwrap();
    assert_eq!(events, vec![ChangeEvent::QueueUpdated(7)]);
    let q = s.mirror().get(7).unwrap();
    assert_eq!(q.status, QueueStatus::Started);
    assert_eq!(q.name, "Q");
    assert_eq!(s.mirror().get(3).unwrap(), &other_before);
    assert_eq!(s.mirror().len(), 2);
}

#[test]
fn same_snapshot_twice_gives_same_mirror() {
    let mut s = connected_session();
    let body = format!("[{},{}]", queue_json(2, "B", 0), queue_json(1, "A", 2));
    s.issue(&Command::ListQueues).unwrap();
    let first = s.receive_text(&format!("{{\"I\":\"0\",\"R\":{}}}", body), 1_100).unwrap();
    assert_eq!(first, vec![ChangeEvent::QueuesReplaced]);
    let ids_once = s.mirror().ids();
    let a_once = s.mirror().get(1).unwrap().clone();
    s.issue(&Command::ListQueues).unwrap();
    s.receive_text(&format!("{{\"I\":\"1\",\"R\":{}}}", body), 1_200).unwrap();
    assert_eq!(s.mirror().ids(), ids_once);
    assert_eq!(ids_once, vec![1, 2]);
    assert_eq!(s.mirror().get(1).unwrap(), &a_once);
    assert_eq!(a_once.status, QueueStatus::Closed);
}

#[test]
fn snapshot_replaces_earlier_queues() {
    let mut s = connected_session();
    s.receive_text(&envelope("NewQueue", &queue_json(9, "Old", 0)), 1_050).unwrap();
    s.issue(&Command::ListQueues).unwrap();
    let text = format!("{{\"I\":\"0\",\"R\":[{}]}}", queue_json(4, "New", 0));
    s.receive_text(&text, 1_100).unwrap();
    assert_eq!(s.mirror().ids(), vec![4]);
    assert_eq!(s.pending_count(), 0);
}

#[test]
fn last_upsert_wins_across_other_ids() {
    let mut s = connected_session();
    s.receive_text(&envelope("NewQueue", &queue_json(1, "first", 0)), 1_100).unwrap();
    s.receive_text(&envelope("QueueStatusChanged", &queue_json(2, "other", 1)), 1_200).unwrap();
    s.receive_text(&envelope("QueueMembershipChanged", &queue_json(1, "last", 2)), 1_300).unwrap();
    let q = s.mirror().get(1).unwrap();
    assert_eq!(q.name, "last");
    assert_eq!(q.status, QueueStatus::Closed);
    assert_eq!(s.mirror().get(2).unwrap().name, "other");
}

#[test]
fn batch_of_notifications_applies_in_order() {
    let mut s = connected_session();
    let text = format!(
        "{{\"C\":\"c\",\"M\":[{{\"M\":\"NewQueue\",\"A\":[{}]}},{{\"M\":\"NagQueue\",\"A\":[5]}},{{\"M\":\"QueueMessageSent\",\"A\":[]}},{{\"M\":\"Unknown\"}},{{\"M\":\"QueueStatusChanged\",\"A\":[{}]}}]}}",
        queue_json(5, "x", 0),
        queue_json(5, "y", 1)
    );
    let events = s.receive_text(&text, 1_100).unwrap();
    assert_eq!(
        events,
        vec![ChangeEvent::QueueUpdated(5), ChangeEvent::Attention, ChangeEvent::QueueUpdated(5)]
    );
    assert_eq!(s.mirror().get(5).unwrap().name, "y");
}

#[test]
fn malformed_notification_drops_whole_frame() {
    let mut s = connected_session();
    let text = format!(
        "{{\"C\":\"c\",\"M\":[{{\"M\":\"NewQueue\",\"A\":[{}]}},{{\"M\":\"NewQueue\",\"A\":[{{\"Id\":\"eight\"}}]}}]}}",
        queue_json(6, "x", 0)
    );
    assert_eq!(s.receive_text(&text, 1_100), Err(InboundError::Protocol(ProtocolError::Malformed)));
    assert!(s.mirror().get(6).is_none());
}

#[test]
fn unknown_status_is_malformed() {
    let mut s = connected_session();
    let text = envelope("NewQueue", &queue_json(6, "x", 3));
    assert_eq!(s.receive_text(&text, 1_100), Err(InboundError::Protocol(ProtocolError::Malformed)));
}

#[test]
fn text_that_is_not_json_is_rejected() {
    let mut s = connected_session();
    assert_eq!(s.receive_text("{not json", 1_100), Err(InboundError::Protocol(ProtocolError::NotJson)));
}

#[test]
fn response_to_unknown_request_is_a_miss() {
    let mut s = connected_session();
    assert_eq!(s.receive_text("{\"I\":\"12\",\"R\":null}", 1_100), Err(InboundError::CorrelationMiss(12)));
}

#[test]
fn response_resolves_its_request_once() {
    let mut s = connected_session();
    s.issue(&Command::NagQueue { id: 3 }).unwrap();
    assert_eq!(s.receive_text("{\"I\":\"0\",\"R\":null}", 1_100), Ok(vec![]));
    assert_eq!(s.pending_count(), 0);
    assert_eq!(s.receive_text("{\"I\":\"0\",\"R\":null}", 1_200), Err(InboundError::CorrelationMiss(0)));
}

#[test]
fn response_id_must_be_decimal_text() {
    let mut s = connected_session();
    assert_eq!(s.receive_text("{\"I\":0}", 1_100), Err(InboundError::Protocol(ProtocolError::Malformed)));
    assert_eq!(s.receive_text("{\"I\":\"1x\"}", 1_100), Err(InboundError::Protocol(ProtocolError::Malformed)));
}

#[test]
fn keep_alive_frame_is_ignored() {
    let mut s = connected_session();
    assert_eq!(s.receive_text("{}", 1_100), Ok(vec![]));
}

#[test]
fn disconnect_fails_every_pending_request() {
    let mut s = connected_session();
    s.issue(&Command::JoinQueue { id: 1 }).unwrap();
    s.issue(&Command::ListQueues).unwrap();
    s.issue(&Command::DeleteQueue { id: 9 }).unwrap();
    let failed = s.connection_lost(2_000);
    assert_eq!(
        failed,
        vec![(0, RequestType::JoinQueue), (1, RequestType::ListQueues), (2, RequestType::DeleteQueue)]
    );
    assert_eq!(s.pending_count(), 0);
    assert_eq!(s.phase(), Phase::ReconnectPending);
    assert_eq!(s.issue(&Command::ListQueues), Err(CommandSendFailure::NotConnected));
}

#[test]
fn silence_forces_reconnect() {
    let mut s = connected_session();
    s.issue(&Command::ListQueues).unwrap();
    assert!(s.tick(11_000).is_empty());
    assert_eq!(s.phase(), Phase::Connected);
    let failed = s.tick(11_001);
    assert_eq!(failed, vec![(0, RequestType::ListQueues)]);
    assert_eq!(s.phase(), Phase::ReconnectPending);
    assert_eq!(s.pending_count(), 0);
}

#[test]
fn inbound_frame_restarts_keep_alive() {
    let mut s = connected_session();
    assert!(s.inbound_observed(9_000));
    s.tick(15_000);
    assert_eq!(s.phase(), Phase::Connected);
    s.receive_text("{}", 18_000).unwrap();
    s.tick(27_000);
    assert_eq!(s.phase(), Phase::Connected);
    s.tick(28_001);
    assert_eq!(s.phase(), Phase::ReconnectPending);
}

#[test]
fn backoff_then_negotiate_again() {
    let mut s = Session::new(10_000, 5_000);
    s.start();
    assert!(s.connect_failed(100));
    assert_eq!(s.phase(), Phase::ReconnectPending);
    s.tick(5_099);
    assert_eq!(s.phase(), Phase::ReconnectPending);
    s.tick(5_100);
    assert_eq!(s.phase(), Phase::Negotiating);
    assert!(s.connected(6_000));
    assert_eq!(s.phase(), Phase::Connected);
}

#[test]
fn commands_need_a_connection() {
    let mut s = Session::new(10_000, 5_000);
    assert_eq!(s.issue(&Command::JoinQueue { id: 1 }), Err(CommandSendFailure::NotConnected));
    assert!(!s.connected(0));
    assert_eq!(s.phase(), Phase::Disconnected);
}

#[test]
fn shutdown_stops_for_good() {
    let mut s = connected_session();
    s.issue(&Command::StartQueue { id: 2 }).unwrap();
    assert_eq!(s.shutdown(), vec![(0, RequestType::StartQueue)]);
    assert_eq!(s.phase(), Phase::Stopped);
    assert!(!s.start());
    assert!(s.tick(1_000_000).is_empty());
    assert_eq!(s.phase(), Phase::Stopped);
}

#[test]
fn settings_submit_forces_fresh_connection() {
    let mut s = connected_session();
    s.issue(&Command::ResetQueue { id: 4 }).unwrap();
    let settings = Settings {
        email: "ann@example.com".to_string(),
        full_name: "Ann Lee".to_string(),
        username: "annl".to_string(),
        groups: vec!["dev".to_string()],
        theme: Theme::Modern,
    };
    let app = SettingsApp::new(settings.clone());
    assert_eq!(app.settings, settings);
    assert_eq!(app.on_submit(&mut s, 3_000), vec![(0, RequestType::ResetQueue)]);
    assert_eq!(s.phase(), Phase::ReconnectPending);
    s.tick(3_000);
    assert_eq!(s.phase(), Phase::Negotiating);
    assert_eq!(settings.user_header(), "annl;Ann Lee;ann@example.com");
}

#[test]
fn reconnect_request_starts_a_disconnected_session() {
    let mut s = Session::new(10_000, 5_000);
    assert!(s.request_reconnect(0).is_empty());
    assert_eq!(s.phase(), Phase::Negotiating);
}

#[test]
fn frames_by_kind() {
    let mut s = connected_session();
    assert_eq!(s.receive_frame(InboundFrame::PingAck, 10_500), Ok(vec![]));
    s.tick(20_000);
    assert_eq!(s.phase(), Phase::Connected);
    assert_eq!(
        s.receive_frame(InboundFrame::Other, 20_100),
        Err(InboundError::Protocol(ProtocolError::UnexpectedKind))
    );
    let text = envelope("NewQueue", &queue_json(8, "n", 0));
    assert_eq!(s.receive_frame(InboundFrame::Text(text), 20_200), Ok(vec![ChangeEvent::QueueUpdated(8)]));
    s.tick(30_200);
    assert_eq!(s.phase(), Phase::Connected);
}
