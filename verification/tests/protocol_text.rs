use minilink::protocol::{
    classify_request, forward_line_text, frame_text, incoming_text, name_reply_text,
    outgoing_text, radio_reply_text, received_text, unframe_text, ClientRequest, BAD_RADIO_REPLY,
};

#[test]
fn received_text_decodes_and_trims() {
    assert_eq!(received_text(b"  hello there \n"), "hello there");
    assert_eq!(received_text("grüße\r\n".as_bytes()), "grüße");
}

#[test]
fn received_text_replaces_invalid_utf8() {
    assert_eq!(received_text(&[b'a', 0xff, b'b']), "a\u{fffd}b");
}

#[test]
fn outgoing_text_trims_and_ends_line() {
    assert_eq!(outgoing_text("  hi all  "), "hi all\n");
    assert_eq!(outgoing_text(""), "\n");
}

#[test]
fn server_reads_what_client_sends() {
    for line in ["  hello ", "setname Alice", "\t", "ünïcode  text"] {
        let sent = outgoing_text(line);
        assert_eq!(received_text(sent.as_bytes()), line.trim());
    }
}

#[test]
fn classify_setname() {
    assert_eq!(
        classify_request("setname   Alice "),
        ClientRequest::SetName("Alice".to_string())
    );
}

#[test]
fn classify_setradio() {
    assert_eq!(classify_request("setradio true"), ClientRequest::SetRadio(true));
    assert_eq!(classify_request("setradio  false"), ClientRequest::SetRadio(false));
    assert_eq!(classify_request("setradio maybe"), ClientRequest::BadRadio);
    assert_eq!(classify_request("setradio TRUE"), ClientRequest::BadRadio);
}

#[test]
fn classify_chat() {
    assert_eq!(classify_request("hello"), ClientRequest::Chat("hello".to_string()));
    assert_eq!(classify_request("setname"), ClientRequest::Chat("setname".to_string()));
    assert_eq!(classify_request("set name x"), ClientRequest::Chat("set name x".to_string()));
}

#[test]
fn replies() {
    assert_eq!(name_reply_text("Alice"), "Name set to Alice\n");
    assert_eq!(radio_reply_text(true), "is_radio set to true\n");
    assert_eq!(radio_reply_text(false), "is_radio set to false\n");
    assert_eq!(BAD_RADIO_REPLY, "Invalid value for setradio. Use 'true' or 'false'.\n");
}

#[test]
fn frames_round_trip() {
    let f = frame_text("127.0.0.1:5000", "hello\tworld");
    assert_eq!(f, "127.0.0.1:5000\thello\tworld");
    assert_eq!(
        unframe_text(&f),
        Some(("127.0.0.1:5000".to_string(), "hello\tworld".to_string()))
    );
    assert_eq!(unframe_text("no tab here"), None);
}

#[test]
fn forward_and_incoming_lines() {
    assert_eq!(forward_line_text("Alice", "hi"), "Alice: hi\n");
    assert_eq!(incoming_text(b"Alice: hi\n"), "Alice: hi\nmsg> ");
    assert_eq!(incoming_text(&[0xc3]), "\u{fffd}msg> ");
}
