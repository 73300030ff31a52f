use radarflow::websocket::{on_event, reply_body, SocketAction, SocketEvent};

#[test]
fn request_info_gets_the_radar_data() {
    assert_eq!(on_event(&SocketEvent::Text("requestInfo".to_string())), SocketAction::SendRadarData);
}

#[test]
fn other_messages_are_ignored() {
    assert_eq!(on_event(&SocketEvent::Text("requestinfo".to_string())), SocketAction::Ignore);
    assert_eq!(on_event(&SocketEvent::Text("requestInfo ".to_string())), SocketAction::Ignore);
    assert_eq!(on_event(&SocketEvent::Text(String::new())), SocketAction::Ignore);
    assert_eq!(on_event(&SocketEvent::Other), SocketAction::Ignore);
}

#[test]
fn a_gone_client_is_dropped() {
    assert_eq!(on_event(&SocketEvent::Gone), SocketAction::Stop);
}

#[test]
fn reply_is_the_json_or_error() {
    assert_eq!(reply_body(Some("{\"ingame\":false}".to_string())), "{\"ingame\":false}");
    assert_eq!(reply_body(None), "error");
}
