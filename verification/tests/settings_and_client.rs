use minilink::client::{
    connecting_text, exit_code, on_server_read, read_failed_text, ClientStep, HANDSHAKE_DONE,
    PROMPT, READY_NOTICE, SEND_FAILED_NOTICE, SERVER_CLOSED_NOTICE,
};
use minilink::config::{launch_paths, settings_from, RawConfig, Role, USAGE};
use minilink::session::ReadEvent;
use minilink::tls::{
    certificate_outcome, identity_outcome, load_certificate, load_identity, CredentialError,
};
use tokio_native_tls::native_tls::{Certificate, Identity};

fn raw() -> RawConfig {
    RawConfig {
        mode: Some("server".to_string()),
        address: "\"127.0.0.1:8000\"".to_string(),
        blocked_addresses: Some(vec!["\"127.0.0.2:8000\"".to_string()]),
        logfile_path: "\"minilink.log\"".to_string(),
        log: None,
        domain: "\"localhost\"".to_string(),
        password: None,
        entry_message: "\"CLIENT_CONNECTED\"".to_string(),
        user_db_path: "\"users.db\"".to_string(),
        is_radio: None,
    }
}

#[test]
fn launch_paths_need_three_arguments() {
    let args: Vec<String> = ["minilink", "c.json", "ca.der", "id.p12"].iter().map(|s| s.to_string()).collect();
    let p = launch_paths(&args).unwrap();
    assert_eq!(p.config, "c.json");
    assert_eq!(p.certificate, "ca.der");
    assert_eq!(p.identity, "id.p12");
    assert!(launch_paths(&args[..3].to_vec()).is_none());
    assert_eq!(USAGE, "Usage: minilink <cfg_path> <der_path> <pkcs12_path>");
}

#[test]
fn settings_strip_quotes_and_default() {
    let s = settings_from(raw());
    assert_eq!(s.role, Role::Server);
    assert_eq!(s.address, "127.0.0.1:8000");
    assert_eq!(s.blocked_addresses, vec!["\"127.0.0.2:8000\"".to_string()]);
    assert_eq!(s.logfile_path, "minilink.log");
    assert!(s.log);
    assert_eq!(s.domain, "localhost");
    assert_eq!(s.password, "");
    assert_eq!(s.entry_message, "\"CLIENT_CONNECTED\"");
    assert_eq!(s.user_db_path, "users.db");
    assert!(!s.is_radio);
    assert!(!s.address.contains('"'));
}

#[test]
fn settings_take_given_values() {
    let mut r = raw();
    r.mode = Some("client".to_string());
    r.log = Some(false);
    r.password = Some("pw".to_string());
    r.is_radio = Some(true);
    r.blocked_addresses = None;
    let s = settings_from(r);
    assert_eq!(s.role, Role::Client);
    assert!(!s.log);
    assert_eq!(s.password, "pw");
    assert!(s.is_radio);
    assert!(s.blocked_addresses.is_empty());
    let mut r = raw();
    r.mode = None;
    assert_eq!(settings_from(r).role, Role::Client);
}

#[test]
fn client_reads() {
    assert_eq!(on_server_read(&ReadEvent::Closed), ClientStep::Closed);
    assert_eq!(on_server_read(&ReadEvent::Failed), ClientStep::Failed);
    assert_eq!(
        on_server_read(&ReadEvent::Data(b"Alice: hi\n".to_vec())),
        ClientStep::Show("Alice: hi\nmsg> ".to_string())
    );
    assert_eq!(exit_code(&ClientStep::Closed), Some(0));
    assert_eq!(exit_code(&ClientStep::Failed), Some(1));
    assert_eq!(exit_code(&ClientStep::Show(String::new())), None);
}

#[test]
fn client_texts() {
    assert_eq!(connecting_text("1.2.3.4:8000"), "Connecting to server at 1.2.3.4:8000...");
    assert_eq!(read_failed_text("boom"), "\nError reading from server: boom");
    assert_eq!(HANDSHAKE_DONE, "Mutual TLS Handshake successful!");
    assert_eq!(READY_NOTICE, "Authenticated successfully. Type messages below to log to the server:");
    assert_eq!(PROMPT, "msg> ");
    assert_eq!(SERVER_CLOSED_NOTICE, "\nServer closed the connection.");
    assert_eq!(SEND_FAILED_NOTICE, "Failed to send data to server. Connection dropped.");
}

#[test]
fn garbage_credentials_are_refused() {
    assert_eq!(load_identity(b"not a pkcs12 archive", "pw").err(), Some(CredentialError::BadIdentity));
    assert_eq!(load_certificate(b"not a certificate").err(), Some(CredentialError::BadCertificate));
}

const SERVER_CONFIG: &str = r#"{
  "mode": "server",
  "address": "127.0.0.1:8000",
  "blocked_addresses": ["127.0.0.2:8000"],
  "logfile_path": "minilink.log",
  "log": true,
  "domain": "localhost",
  "password": "your-password",
  "user_db_path": "users.db"
}"#;

const CLIENT_CONFIG: &str = r#"{
  "mode": "client",
  "address": "127.0.0.1:8000",
  "blocked_addresses": ["127.0.0.2:8000"],
  "logfile_path": "minilink.log",
  "log": true,
  "domain": "localhost",
  "password": "your-password",
  "entry_message": "CLIENT_CONNECTED",
  "is_radio": false
}"#;

#[test]
fn server_config_is_read() {
    let s = minilink::config::load_settings(SERVER_CONFIG).unwrap();
    assert_eq!(s.role, Role::Server);
    assert_eq!(s.address, "127.0.0.1:8000");
    assert_eq!(s.blocked_addresses, vec!["\"127.0.0.2:8000\"".to_string()]);
    assert_eq!(s.logfile_path, "minilink.log");
    assert!(s.log);
    assert_eq!(s.domain, "localhost");
    assert_eq!(s.password, "your-password");
    assert_eq!(s.user_db_path, "users.db");
    assert_eq!(s.entry_message, "null");
    assert!(!s.is_radio);
}

#[test]
fn client_config_is_read() {
    let s = minilink::config::load_settings(CLIENT_CONFIG).unwrap();
    assert_eq!(s.role, Role::Client);
    assert_eq!(s.entry_message, "\"CLIENT_CONNECTED\"");
    assert!(!s.is_radio);
    assert_eq!(s.user_db_path, "null");
}

#[test]
fn minimal_config_takes_defaults() {
    let s = minilink::config::load_settings("{}").unwrap();
    assert_eq!(s.role, Role::Client);
    assert_eq!(s.address, "null");
    assert!(s.blocked_addresses.is_empty());
    assert!(s.log);
    assert_eq!(s.password, "");
    let s = minilink::config::load_settings(r#"{"mode": "server", "log": false, "is_radio": true, "password": 5}"#).unwrap();
    assert_eq!(s.role, Role::Server);
    assert!(!s.log);
    assert!(s.is_radio);
    assert_eq!(s.password, "");
}

#[test]
fn malformed_config_is_refused() {
    assert_eq!(
        minilink::config::load_settings("{ not json").err(),
        Some(minilink::config::ConfigError::InvalidJson)
    );
}

#[test]
fn parse_outcomes_map_to_credential_errors() {
    match Identity::from_pkcs12(b"garbage", "pw") {
        Err(e) => assert_eq!(identity_outcome(Err(e)).err(), Some(CredentialError::BadIdentity)),
        Ok(_) => panic!("garbage parsed as an identity"),
    }
    match Certificate::from_der(b"garbage") {
        Err(e) => {
            assert_eq!(certificate_outcome(Err(e)).err(), Some(CredentialError::BadCertificate))
        }
        Ok(_) => panic!("garbage parsed as a certificate"),
    }
}

#[test]
fn password_with_nul_is_refused() {
    assert_eq!(load_identity(b"anything", "pa\0ss").err(), Some(CredentialError::BadIdentity));
}
