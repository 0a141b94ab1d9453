use chat_server::server::Server;
use chat_server::tls::{load_certs, load_key, make_tls_acceptor, SetupError};
use tokio_rustls::rustls::pki_types::PrivateKeyDer;

const CERT: &str = "-----BEGIN CERTIFICATE-----\nMIIBQzCB6qADAgECAhRzYXfhmwmD2P9vCRvRsPxEe4rlDzAKBggqhkjOPQQDAjAU\nMRIwEAYDVQQDDAlsb2NhbGhvc3QwIBcNMDAwMTAxMDAwMDAwWhgPMjk5OTAxMDEw\nMDAwMDBaMBQxEjAQBgNVBAMMCWxvY2FsaG9zdDBZMBMGByqGSM49AgEGCCqGSM49\nAwEHA0IABI6n1HkdzbIZ1SHs//rOj6aVXzjrOjfiu02iIRm/3xWWUQOjyn/WYFFo\nO2KxAcab4iDbtbNmUEZQpSutLO5x1n2jGDAWMBQGA1UdEQQNMAuCCWxvY2FsaG9z\ndDAKBggqhkjOPQQDAgNIADBFAiEAtRSJHlniNbkJIlwA6Jv0nhmWuTJgwWMD97oa\nw/22O7ECIER5Vtg0gsqZxUBY2aUA0xcgppiNvy+OT6a21UVKWR+y\n-----END CERTIFICATE-----\n";

/// Base64 bodies of the test keys; the PEM framing is added by `pem_block`.
const KEY_PKCS8_BODY: &str = "MIGHAgEAMBMGByqGSM49AgEGCCqGSM49AwEHBG0wawIBAQQgUwpdjIqi3Ya/8W6/Rwmf8o5SNFCwT69M0mhd+aRV7iehRANCAASOp9R5Hc2yGdUh7P/6zo+mlV846zo34rtNoiEZv98VllEDo8p/1mBRaDtisQHGm+Ig27WzZlBGUKUrrSzucdZ9";
const KEY_SEC1_BODY: &str = "MHcCAQEEIFMKXYyKot2Gv/Fuv0cJn/KOUjRQsE+vTNJoXfmkVe4noAoGCCqGSM49AwEHoUQDQgAEjqfUeR3NshnVIez/+s6PppVfOOs6N+K7TaIhGb/fFZZRA6PKf9ZgUWg7YrEBxpviINu1s2ZQRlClK60s7nHWfQ==";
const OTHER_KEY_BODY: &str = "MIGHAgEAMBMGByqGSM49AgEGCCqGSM49AwEHBG0wawIBAQQgyHmE4t738tbtkNWflb/yNVUMl0imehX0J51KAzjidfChRANCAATAhcspi5koMcZpe2zLeEj3eUKF1OiKrqxtHtCdDJwmSdUbgD1S55RXBmWMT2iQQC0IDgbSNfnVAvpbYunDWmxA";

const MALFORMED: &str = "-----BEGIN CERTIFICATE-----\nAAAA\n";

/// A PEM block with the given label words and base64 body.
fn pem_block(label: &[&str], body: &str) -> String {
    let label = label.join(" ");
    let mut out = format!("-----BEGIN {}-----\n", label);
    for chunk in body.as_bytes().chunks(64) {
        out.push_str(std::str::from_utf8(chunk).unwrap());
        out.push('\n');
    }
    out.push_str(&format!("-----END {}-----\n", label));
    out
}

fn pkcs8(body: &str) -> String {
    pem_block(&["PRIVATE", "KEY"], body)
}

fn sec1(body: &str) -> String {
    pem_block(&["EC", "PRIVATE", "KEY"], body)
}

fn key_kind(pem: &str) -> &'static str {
    match load_key(pem.as_bytes()) {
        Ok(PrivateKeyDer::Pkcs1(_)) => "pkcs1",
        Ok(PrivateKeyDer::Pkcs8(_)) => "pkcs8",
        Ok(PrivateKeyDer::Sec1(_)) => "sec1",
        Ok(_) => "other key",
        Err(e) => panic!("no key loaded: {:?}", e),
    }
}

#[test]
fn certs_are_counted() {
    assert_eq!(load_certs(CERT.as_bytes()).unwrap().len(), 1);
    let two = format!("{}{}{}", CERT, pkcs8(KEY_PKCS8_BODY), CERT);
    assert_eq!(load_certs(two.as_bytes()).unwrap().len(), 2);
    assert_eq!(load_certs(b"").unwrap().len(), 0);
    assert_eq!(load_certs(pkcs8(KEY_PKCS8_BODY).as_bytes()).unwrap().len(), 0);
}

#[test]
fn certs_keep_their_bytes() {
    let certs = load_certs(CERT.as_bytes()).unwrap();
    assert!(certs[0].as_ref().len() > 100);
    assert_eq!(certs[0].as_ref()[0], 0x30);
}

#[test]
fn malformed_certs_are_refused() {
    assert!(matches!(load_certs(MALFORMED.as_bytes()), Err(SetupError::Pem(_))));
}

#[test]
fn pkcs8_key_is_found() {
    assert_eq!(key_kind(&pkcs8(KEY_PKCS8_BODY)), "pkcs8");
}

#[test]
fn sec1_key_is_found() {
    assert_eq!(key_kind(&sec1(KEY_SEC1_BODY)), "sec1");
}

#[test]
fn key_after_certificate_is_found() {
    assert_eq!(key_kind(&format!("{}{}", CERT, sec1(KEY_SEC1_BODY))), "sec1");
    let both = format!("{}{}{}", CERT, pkcs8(KEY_PKCS8_BODY), sec1(KEY_SEC1_BODY));
    assert_eq!(key_kind(&both), "pkcs8");
}

#[test]
fn missing_key_is_reported() {
    assert!(matches!(load_key(CERT.as_bytes()), Err(SetupError::MissingPrivateKey)));
    assert!(matches!(load_key(b"no pem here"), Err(SetupError::MissingPrivateKey)));
}

#[test]
fn malformed_key_file_is_refused() {
    assert!(matches!(load_key(pkcs8("!!!!").as_bytes()), Err(SetupError::Pem(_))));
}

#[test]
fn acceptor_from_matching_pair() {
    let acceptor = match make_tls_acceptor(CERT.as_bytes(), pkcs8(KEY_PKCS8_BODY).as_bytes()) {
        Ok(a) => a,
        Err(e) => panic!("pkcs8 pair refused: {:?}", e),
    };
    let server = Server::new("127.0.0.1:0".to_string(), Some(acceptor));
    assert_eq!(server.mode(), "TLS");
    assert!(server.tls_acceptor().is_some());
    if let Err(e) = make_tls_acceptor(CERT.as_bytes(), sec1(KEY_SEC1_BODY).as_bytes()) {
        panic!("sec1 pair refused: {:?}", e);
    }
}

#[test]
fn acceptor_refuses_mismatched_key() {
    match make_tls_acceptor(CERT.as_bytes(), pkcs8(OTHER_KEY_BODY).as_bytes()) {
        Err(SetupError::Tls(_)) => {}
        Err(e) => panic!("wrong error: {:?}", e),
        Ok(_) => panic!("a key of another certificate was accepted"),
    }
}

#[test]
fn acceptor_reports_file_problems_first() {
    assert!(matches!(
        make_tls_acceptor(MALFORMED.as_bytes(), pkcs8(KEY_PKCS8_BODY).as_bytes()),
        Err(SetupError::Pem(_))
    ));
    assert!(matches!(
        make_tls_acceptor(CERT.as_bytes(), CERT.as_bytes()),
        Err(SetupError::MissingPrivateKey)
    ));
}
