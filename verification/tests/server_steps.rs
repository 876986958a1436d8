use minilink::session::{
    after_update, on_connection_lost, UpdateOutcome,
    accepted_note_text, delivered_line, disconnected_note_text, handshake_failed_note_text,
    handshake_note_text, logged_name, on_accept, on_broadcast, on_client_read, on_create,
    on_handshake, on_start, HandshakeStep, ReadEvent, RelayStep, SessionStep, SERVER_CREATED_LOG,
    SERVER_STARTED_LOG,
};
use minilink::protocol::frame_text;

const PEER: &str = "10.0.0.2:41000";

#[test]
fn closed_connection_disconnects() {
    match on_client_read(PEER, true, &ReadEvent::Closed) {
        SessionStep::Disconnect { lookup, note, remove } => {
            assert_eq!(lookup, "SELECT username FROM users WHERE address = '10.0.0.2:41000'");
            assert_eq!(note, Some("Client 10.0.0.2:41000 disconnected".to_string()));
            assert_eq!(remove, "DELETE FROM users WHERE address = '10.0.0.2:41000'");
        }
        other => panic!("unexpected {:?}", other),
    }
    match on_client_read(PEER, false, &ReadEvent::Closed) {
        SessionStep::Disconnect { note, .. } => assert_eq!(note, None),
        other => panic!("unexpected {:?}", other),
    }
}

#[test]
fn failed_read_aborts() {
    match on_client_read(PEER, true, &ReadEvent::Failed) {
        SessionStep::Abort { remove } => {
            assert_eq!(remove, "DELETE FROM users WHERE address = '10.0.0.2:41000'")
        }
        other => panic!("unexpected {:?}", other),
    }
}

#[test]
fn setname_updates_the_table() {
    match on_client_read(PEER, true, &ReadEvent::Data(b"setname  Bravo \n".to_vec())) {
        SessionStep::Update { statement, reply } => {
            assert_eq!(
                statement,
                "UPDATE users SET username = 'Bravo' WHERE address = '10.0.0.2:41000'"
            );
            assert_eq!(reply, "Name set to Bravo\n");
        }
        other => panic!("unexpected {:?}", other),
    }
}

#[test]
fn setradio_updates_the_flag() {
    match on_client_read(PEER, true, &ReadEvent::Data(b"setradio true".to_vec())) {
        SessionStep::Update { statement, reply } => {
            assert_eq!(statement, "UPDATE users SET is_radio = 1 WHERE address = '10.0.0.2:41000'");
            assert_eq!(reply, "is_radio set to true\n");
        }
        other => panic!("unexpected {:?}", other),
    }
    match on_client_read(PEER, true, &ReadEvent::Data(b"setradio false".to_vec())) {
        SessionStep::Update { statement, reply } => {
            assert_eq!(statement, "UPDATE users SET is_radio = 0 WHERE address = '10.0.0.2:41000'");
            assert_eq!(reply, "is_radio set to false\n");
        }
        other => panic!("unexpected {:?}", other),
    }
}

#[test]
fn bad_setradio_is_refused() {
    match on_client_read(PEER, true, &ReadEvent::Data(b"setradio yes".to_vec())) {
        SessionStep::Refuse { reply } => {
            assert_eq!(reply, "Invalid value for setradio. Use 'true' or 'false'.\n")
        }
        other => panic!("unexpected {:?}", other),
    }
}

#[test]
fn chat_is_relayed() {
    match on_client_read(PEER, true, &ReadEvent::Data(b" contact north \n".to_vec())) {
        SessionStep::Relay { lookup, frame, note } => {
            assert_eq!(lookup, "SELECT username FROM users WHERE address = '10.0.0.2:41000'");
            assert_eq!(frame, "10.0.0.2:41000\tcontact north");
            assert_eq!(note, Some("contact north".to_string()));
        }
        other => panic!("unexpected {:?}", other),
    }
    match on_client_read(PEER, false, &ReadEvent::Data(b"quiet".to_vec())) {
        SessionStep::Relay { note, .. } => assert_eq!(note, None),
        other => panic!("unexpected {:?}", other),
    }
}

#[test]
fn own_messages_are_not_echoed() {
    let f = frame_text(PEER, "hello");
    assert!(matches!(on_broadcast(PEER, &f), RelayStep::Skip));
}

#[test]
fn messages_reach_other_clients() {
    let f = frame_text("10.0.0.3:42000", "hello");
    match on_broadcast(PEER, &f) {
        RelayStep::Forward { lookup, sender, payload } => {
            assert_eq!(lookup, "SELECT username FROM users WHERE address = '10.0.0.3:42000'");
            assert_eq!(sender, "10.0.0.3:42000");
            assert_eq!(payload, "hello");
        }
        other => panic!("unexpected {:?}", other),
    }
    assert!(matches!(on_broadcast(PEER, "unframed"), RelayStep::Skip));
}

#[test]
fn delivered_line_uses_last_name_or_address() {
    let rows = vec!["Alpha".to_string(), "Bravo".to_string()];
    assert_eq!(delivered_line(&rows, "10.0.0.3:42000", "hi"), "Bravo: hi\n");
    assert_eq!(delivered_line(&Vec::new(), "10.0.0.3:42000", "hi"), "10.0.0.3:42000: hi\n");
}

#[test]
fn accept_and_handshake_notes() {
    assert_eq!(on_accept(PEER, true), Some("Accepted connection from 10.0.0.2:41000".to_string()));
    assert_eq!(on_accept(PEER, false), None);
    match on_handshake(PEER, false, true) {
        HandshakeStep::Admit { register, note } => {
            assert_eq!(
                register,
                "INSERT OR IGNORE INTO users (username, address) VALUES ('10.0.0.2:41000', '10.0.0.2:41000')"
            );
            assert_eq!(note, None);
        }
        other => panic!("unexpected {:?}", other),
    }
    match on_handshake(PEER, true, true) {
        HandshakeStep::Admit { note, .. } => {
            assert_eq!(note, Some("Mututal TLS Handshake successful with 10.0.0.2:41000".to_string()));
        }
        other => panic!("unexpected {:?}", other),
    }
    match on_handshake(PEER, true, false) {
        HandshakeStep::Reject { failure } => {
            assert_eq!(failure, Some("TLS Accept error from 10.0.0.2:41000".to_string()))
        }
        other => panic!("unexpected {:?}", other),
    }
    match on_handshake(PEER, false, false) {
        HandshakeStep::Reject { failure } => assert_eq!(failure, None),
        other => panic!("unexpected {:?}", other),
    }
}

#[test]
fn note_texts() {
    assert_eq!(accepted_note_text("a"), "Accepted connection from a");
    assert_eq!(handshake_note_text("a"), "Mututal TLS Handshake successful with a");
    assert_eq!(handshake_failed_note_text("a"), "TLS Accept error from a");
    assert_eq!(disconnected_note_text("a"), "Client a disconnected");
    assert_eq!(SERVER_CREATED_LOG, "MinilinkServer created\n");
    assert_eq!(SERVER_STARTED_LOG, "MinilinkServer started\n");
}

#[test]
fn setname_with_quotes_renames_only_the_sender() {
    let line = b"setname x' WHERE address = '127.0.0.1:5002'; --\n".to_vec();
    match on_client_read("127.0.0.1:5001", true, &ReadEvent::Data(line)) {
        SessionStep::Update { statement, reply } => {
            assert_eq!(
                statement,
                "UPDATE users SET username = 'x'' WHERE address = ''127.0.0.1:5002''; --' WHERE address = '127.0.0.1:5001'"
            );
            assert_eq!(reply, "Name set to x' WHERE address = '127.0.0.1:5002'; --\n");
        }
        other => panic!("unexpected {:?}", other),
    }
}

#[test]
fn log_file_lines_follow_the_flag() {
    assert_eq!(on_create(true), Some("MinilinkServer created\n".to_string()));
    assert_eq!(on_create(false), None);
    assert_eq!(on_start(true), Some("MinilinkServer started\n".to_string()));
    assert_eq!(on_start(false), None);
    assert_eq!(SERVER_CREATED_LOG, "MinilinkServer created\n");
}

#[test]
fn logged_name_falls_back_to_nothing() {
    assert_eq!(logged_name(&vec!["A".to_string(), "B".to_string()]), "B");
    assert_eq!(logged_name(&Vec::new()), "");
}

#[test]
fn lost_connections_and_refused_updates_drop_the_client() {
    assert_eq!(on_connection_lost(PEER), "DELETE FROM users WHERE address = '10.0.0.2:41000'");
    match after_update(PEER, true, "ok\n".to_string()) {
        UpdateOutcome::Answer(a) => assert_eq!(a, "ok\n"),
        other => panic!("unexpected {:?}", other),
    }
    match after_update(PEER, false, "ok\n".to_string()) {
        UpdateOutcome::Drop(d) => {
            assert_eq!(d, "DELETE FROM users WHERE address = '10.0.0.2:41000'")
        }
        other => panic!("unexpected {:?}", other),
    }
}
