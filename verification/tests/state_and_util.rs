use ssh_session::client::Client;
use ssh_session::config::Config;
use ssh_session::encryption::ChaCha20Poly1305;
use ssh_session::error::SshError;
use ssh_session::global::{unlock, SessionState};
use ssh_session::util;

#[test]
fn client_registry_lifecycle() {
    let mut st = SessionState::new();
    assert_eq!(st.client().err(), Some(SshError::ClientNullError));
    st.update_client(Some(Client::new()));
    let c = st.client().expect("installed client must be acquirable");
    unlock(&mut st.client, c);
    st.update_client(None);
    assert_eq!(st.client().err(), Some(SshError::ClientNullError));
}

#[test]
fn config_registry_lifecycle() {
    let mut st = SessionState::new();
    assert_eq!(st.config().err(), Some(SshError::ConfigNullError));
    st.update_config(Some(Config::new(String::from("SSH-2.0-client"))));
    let c = st.config().expect("installed config must be acquirable");
    assert_eq!(c.version, String::from("SSH-2.0-client"));
    unlock(&mut st.config, c);
    st.update_config(None);
    assert_eq!(st.config().err(), Some(SshError::ConfigNullError));
}

#[test]
fn encryption_registry_lifecycle() {
    let mut st = SessionState::new();
    assert_eq!(st.encryption_key().err(), Some(SshError::EncryptionNullError));
    st.update_encryption_key(Some(ChaCha20Poly1305::new()));
    let k = st.encryption_key().expect("installed key must be acquirable");
    assert_eq!(k.sequence_number, 0);
    unlock(&mut st.encryption_key, k);
    st.update_encryption_key(None);
    assert_eq!(st.encryption_key().err(), Some(SshError::EncryptionNullError));
}

#[test]
fn acquire_while_held_is_a_lock_failure() {
    let mut st = SessionState::new();
    st.update_client(Some(Client::new()));
    let c = st.client().unwrap();
    assert_eq!(st.client().err(), Some(SshError::MutexError));
    unlock(&mut st.client, c);
    let c2 = st.client().expect("released client must be acquirable again");
    unlock(&mut st.client, c2);
}

#[test]
fn guarded_write_appends_whole_payloads_in_order() {
    let mut st = SessionState::new();
    st.update_client(Some(Client::new()));
    util::write(&mut st.client, b"abc").unwrap();
    util::write(&mut st.client, b"defg").unwrap();
    let c = st.client().unwrap();
    assert_eq!(c.stream, b"abcdefg".to_vec());
    unlock(&mut st.client, c);
}

#[test]
fn guarded_write_without_client_fails() {
    let mut st = SessionState::new();
    assert_eq!(util::write(&mut st.client, b"abc"), Err(SshError::ClientNullError));
    st.update_client(Some(Client::new()));
    let c = st.client().unwrap();
    assert_eq!(util::write(&mut st.client, b"abc"), Err(SshError::MutexError));
    unlock(&mut st.client, c);
}

#[test]
fn guarded_read_takes_all_delivered_packets() {
    let mut st = SessionState::new();
    let mut client = Client::new();
    client.feed(vec![1, 2]);
    client.feed(vec![3]);
    st.update_client(Some(client));
    let ps = util::read(&mut st.client).unwrap();
    assert_eq!(ps, vec![vec![1, 2], vec![3]]);
    let again = util::read(&mut st.client).unwrap();
    assert!(again.is_empty());
}

#[test]
fn from_utf8_rejects_invalid_bytes() {
    assert_eq!(util::from_utf8(vec![0xFF]), Err(SshError::FromUtf8Error));
    assert_eq!(util::from_utf8(vec![b'a', 0xFF, b'b']), Err(SshError::FromUtf8Error));
    assert_eq!(util::from_utf8(vec![0xC3]), Err(SshError::FromUtf8Error));
}

#[test]
fn from_utf8_returns_exact_text() {
    let text = "interactive session: ls -l / £ → é";
    let decoded = util::from_utf8(text.as_bytes().to_vec()).unwrap();
    assert_eq!(decoded, text);
    assert_eq!(util::from_utf8(Vec::new()).unwrap(), String::new());
}

#[test]
fn split_preserves_empty_segments_and_order() {
    let parts = util::vec_u8_to_string(b"a,,b".to_vec(), ",").unwrap();
    assert_eq!(parts, vec!["a".to_string(), "".to_string(), "b".to_string()]);
}

#[test]
fn split_various_shapes() {
    assert_eq!(
        util::vec_u8_to_string(b"one two".to_vec(), " ").unwrap(),
        vec!["one".to_string(), "two".to_string()]
    );
    assert_eq!(
        util::vec_u8_to_string(b"nodelimiter".to_vec(), ",").unwrap(),
        vec!["nodelimiter".to_string()]
    );
    assert_eq!(
        util::vec_u8_to_string(Vec::new(), ",").unwrap(),
        vec!["".to_string()]
    );
    assert_eq!(
        util::vec_u8_to_string(b",x,".to_vec(), ",").unwrap(),
        vec!["".to_string(), "x".to_string(), "".to_string()]
    );
    assert_eq!(
        util::vec_u8_to_string(b"a--b---c".to_vec(), "--").unwrap(),
        vec!["a".to_string(), "b".to_string(), "-c".to_string()]
    );
}

#[test]
fn split_matches_standard_splitter() {
    let cases: Vec<(&[u8], &str)> = vec![
        (b"a,,b" as &[u8], ","),
        (b"" as &[u8], ","),
        (b"ab" as &[u8], ""),
        (b"" as &[u8], ""),
        (b"xyxyx" as &[u8], "xy"),
        (b"aaa" as &[u8], "aa"),
    ];
    for (bytes, pat) in cases {
        let got = util::vec_u8_to_string(bytes.to_vec(), pat).unwrap();
        let text = String::from_utf8(bytes.to_vec()).unwrap();
        let expected: Vec<String> = text.split(pat).map(|p| p.to_string()).collect();
        assert_eq!(got, expected, "splitting {:?} on {:?}", text, pat);
    }
}

#[test]
fn split_propagates_decode_failure() {
    assert_eq!(
        util::vec_u8_to_string(vec![b'a', 0xFF], ","),
        Err(SshError::FromUtf8Error)
    );
}

#[test]
fn cookie_is_sixteen_bytes() {
    let c = util::cookie();
    assert_eq!(c.len(), 16);
    let c2 = util::cookie();
    assert_eq!(c2.len(), 16);
}
