use vstd::prelude::*;
use std::sync::Arc;
use tokio_rustls::rustls;
use tokio_rustls::rustls::pki_types::{
    CertificateDer, CertificateRevocationListDer, CertificateSigningRequestDer, PrivateKeyDer,
    SubjectPublicKeyInfoDer,
};
use tokio_rustls::rustls::ServerConfig;
use rustls_pemfile::Item;
use tokio_rustls::TlsAcceptor;

verus! {

#[verifier::external_type_specification]
#[verifier::external_body]
pub struct ExCertificateDer<'a>(CertificateDer<'a>);

#[verifier::external_type_specification]
#[verifier::external_body]
pub struct ExPrivateKeyDer<'a>(PrivateKeyDer<'a>);

#[verifier::external_type_specification]
#[verifier::external_body]
pub struct ExSubjectPublicKeyInfoDer<'a>(SubjectPublicKeyInfoDer<'a>);

#[verifier::external_type_specification]
#[verifier::external_body]
pub struct ExCertificateRevocationListDer<'a>(CertificateRevocationListDer<'a>);

#[verifier::external_type_specification]
#[verifier::external_body]
pub struct ExCertificateSigningRequestDer<'a>(CertificateSigningRequestDer<'a>);

#[verifier::external_type_specification]
#[verifier::external_body]
pub struct ExPemError(rustls_pemfile::Error);

#[verifier::external_type_specification]
#[verifier::external_body]
pub struct ExRustlsError(rustls::Error);

#[verifier::external_type_specification]
#[verifier::external_body]
pub struct ExServerConfig(ServerConfig);


/// One recognised PEM section, as `rustls_pemfile::Item` describes it.
#[derive(Debug)]
pub enum PemItem {
    X509Certificate(CertificateDer<'static>),
    SubjectPublicKeyInfo(SubjectPublicKeyInfoDer<'static>),
    /// An RSA key (PKCS#1), as a private key.
    Pkcs1Key(PrivateKeyDer<'static>),
    /// A PKCS#8 key, as a private key.
    Pkcs8Key(PrivateKeyDer<'static>),
    /// An EC key (SEC1), as a private key.
    Sec1Key(PrivateKeyDer<'static>),
    Crl(CertificateRevocationListDer<'static>),
    Csr(CertificateSigningRequestDer<'static>),
    /// A kind of section this library does not know.
    Other,
}

/// The kind of a PEM section.
#[derive(Debug, Clone, Copy, PartialEq, Eq)]
pub enum PemKind {
    Certificate,
    PublicKey,
    Pkcs1Key,
    Pkcs8Key,
    Sec1Key,
    Crl,
    Csr,
    Other,
}

impl PemItem {
    pub open spec fn kind(self) -> PemKind {
        match self {
            PemItem::X509Certificate(_) => PemKind::Certificate,
            PemItem::SubjectPublicKeyInfo(_) => PemKind::PublicKey,
            PemItem::Pkcs1Key(_) => PemKind::Pkcs1Key,
            PemItem::Pkcs8Key(_) => PemKind::Pkcs8Key,
            PemItem::Sec1Key(_) => PemKind::Sec1Key,
            PemItem::Crl(_) => PemKind::Crl,
            PemItem::Csr(_) => PemKind::Csr,
            PemItem::Other => PemKind::Other,
        }
    }
}

/// What reading the next PEM section of some bytes gives: a syntax or decoding
/// error, the end of the recognised sections, or a decoded section and the bytes
/// after it.
pub enum PemStep {
    Malformed,
    End,
    Section(PemItem, Seq<u8>),
}

/// What `rustls_pemfile::read_one_from_slice` finds at the start of `input`.
pub uninterp spec fn pem_read(input: Seq<u8>) -> PemStep;

/// `rustls_pemfile::read_one_from_slice`: the next recognised PEM section of
/// `input` and the bytes after it. The result is `pem_read(input)`, the section
/// reduced to its kind; a section is never empty and what follows it is the rest
/// of `input`, as the crate's slice reader shows. A private key of each kind is
/// handed on in the matching variant of `PrivateKeyDer`. The decoded section is
/// a function of `input` alone; what its bytes are is not stated.
#[verifier::external_body]
fn read_pem_section(input: &[u8]) -> (r: Result<Option<(PemItem, &[u8])>, rustls_pemfile::Error>)
    ensures
        match r {
            Err(_) => pem_read(input@) is Malformed,
            Ok(None) => pem_read(input@) is End,
            Ok(Some((item, rest))) => {
                &&& pem_read(input@) == PemStep::Section(item, rest@)
                &&& rest@.len() < input@.len()
                &&& rest@ == input@.subrange(input@.len() - rest@.len(), input@.len() as int)
            },
        },
{
    let (item, rest) = match rustls_pemfile::read_one_from_slice(input)? {
        Some(found) => found,
        None => return Ok(None),
    };
    let item = match item {
        Item::X509Certificate(c) => PemItem::X509Certificate(c),
        Item::SubjectPublicKeyInfo(k) => PemItem::SubjectPublicKeyInfo(k),
        Item::Pkcs1Key(k) => PemItem::Pkcs1Key(PrivateKeyDer::Pkcs1(k)),
        Item::Pkcs8Key(k) => PemItem::Pkcs8Key(PrivateKeyDer::Pkcs8(k)),
        Item::Sec1Key(k) => PemItem::Sec1Key(PrivateKeyDer::Sec1(k)),
        Item::Crl(c) => PemItem::Crl(c),
        Item::Csr(c) => PemItem::Csr(c),
        _ => PemItem::Other,
    };
    Ok(Some((item, rest)))
}

/// `ServerConfig::builder().with_no_client_auth().with_single_cert(..)` of rustls:
/// a server configuration without client authentication that presents `certs`
/// with `key`. Rustls refuses a key it cannot read or that does not match the
/// first certificate; certificates and key are opaque here, so which happens
/// is not stated. `builder` panics only when no crypto provider can be chosen,
/// which the `ring` feature this crate builds rustls with rules out.
#[verifier::external_body]
fn single_cert_config(certs: Vec<CertificateDer<'static>>, key: PrivateKeyDer<'static>) -> Result<
    ServerConfig,
    rustls::Error,
> {
    ServerConfig::builder().with_no_client_auth().with_single_cert(certs, key)
}

/// `From<Arc<ServerConfig>> for TlsAcceptor` of tokio-rustls: an acceptor
/// that serves the configuration. The acceptor is opaque, so nothing is stated.
#[verifier::external_body]
fn acceptor_from_config(config: Arc<ServerConfig>) -> TlsAcceptor {
    TlsAcceptor::from(config)
}

/// Why the TLS setup failed.
#[derive(Debug)]
pub enum SetupError {
    /// A PEM file is malformed.
    Pem(rustls_pemfile::Error),
    /// The key file holds no private key.
    MissingPrivateKey,
    /// Rustls refused the certificates or the key.
    Tls(rustls::Error),
}

/// The number of certificates in `input`, or `None` when a section before the
/// end is malformed.
pub open spec fn cert_scan(input: Seq<u8>) -> Option<nat>
    decreases input.len(),
{
    match pem_read(input) {
        PemStep::Malformed => None,
        PemStep::End => Some(0),
        PemStep::Section(item, rest) => if rest.len() < input.len() {
            match cert_scan(rest) {
                Some(n) => Some(
                    if item.kind() == PemKind::Certificate {
                        n + 1
                    } else {
                        n
                    },
                ),
                None => None,
            }
        } else {
            None
        },
    }
}

/// The certificate sections of `input`, in file order, or `None` when a section
/// before the end is malformed.
pub open spec fn cert_list(input: Seq<u8>) -> Option<Seq<CertificateDer<'static>>>
    decreases input.len(),
{
    match pem_read(input) {
        PemStep::Malformed => None,
        PemStep::End => Some(Seq::empty()),
        PemStep::Section(item, rest) => if rest.len() < input.len() {
            match cert_list(rest) {
                Some(later) => Some(
                    match item {
                        PemItem::X509Certificate(c) => seq![c] + later,
                        _ => later,
                    },
                ),
                None => None,
            }
        } else {
            None
        },
    }
}

/// The certificates that `cert_list` gives are as many as `cert_scan` counts.
pub proof fn lemma_cert_list_count(input: Seq<u8>)
    ensures
        match cert_list(input) {
            Some(l) => cert_scan(input) == Some(l.len()),
            None => cert_scan(input) is None,
        },
    decreases input.len(),
{
    match pem_read(input) {
        PemStep::Section(item, rest) => if rest.len() < input.len() {
            lemma_cert_list_count(rest);
        },
        _ => {},
    }
}

/// The first private key of `input`, or `None` when there is none or a section
/// before it is malformed.
pub open spec fn first_key(input: Seq<u8>) -> Option<PrivateKeyDer<'static>>
    decreases input.len(),
{
    match pem_read(input) {
        PemStep::Malformed => None,
        PemStep::End => None,
        PemStep::Section(item, rest) => match item {
            PemItem::Pkcs1Key(k) => Some(k),
            PemItem::Pkcs8Key(k) => Some(k),
            PemItem::Sec1Key(k) => Some(k),
            _ => if rest.len() < input.len() {
                first_key(rest)
            } else {
                None
            },
        },
    }
}

/// What searching `input` for its first private key finds.
pub enum KeyScan {
    /// A key of this kind comes first.
    Found(PemKind),
    /// No section holds a private key.
    NotFound,
    /// A section before the first key is malformed.
    Malformed,
}

pub open spec fn is_private_key(kind: PemKind) -> bool {
    kind == PemKind::Pkcs1Key || kind == PemKind::Pkcs8Key || kind == PemKind::Sec1Key
}

/// The first private key of `input`: sections of other kinds are passed over.
pub open spec fn key_scan(input: Seq<u8>) -> KeyScan
    decreases input.len(),
{
    match pem_read(input) {
        PemStep::Malformed => KeyScan::Malformed,
        PemStep::End => KeyScan::NotFound,
        PemStep::Section(item, rest) => if is_private_key(item.kind()) {
            KeyScan::Found(item.kind())
        } else if rest.len() < input.len() {
            key_scan(rest)
        } else {
            KeyScan::NotFound
        },
    }
}

/// The certificates of a PEM file, in order; other sections are passed over.
pub fn load_certs(pem: &[u8]) -> (r: Result<Vec<CertificateDer<'static>>, SetupError>)
    ensures
        match r {
            Ok(certs) => cert_scan(pem@) == Some(certs@.len()),
            Err(SetupError::Pem(_)) => cert_scan(pem@) is None,
            Err(_) => false,
        },
        match r {
            Ok(certs) => cert_list(pem@) == Some(certs@),
            Err(_) => cert_list(pem@) is None,
        },
{
    let mut certs: Vec<CertificateDer<'static>> = Vec::new();
    let mut rest: &[u8] = pem;
    proof {
        lemma_cert_list_count(pem@);
    }
    loop
        invariant
            cert_scan(pem@) == (match cert_scan(rest@) {
                Some(n) => Some(n + certs@.len()),
                None => None::<nat>,
            }),
            cert_list(pem@) == (match cert_list(rest@) {
                Some(later) => Some(certs@ + later),
                None => None::<Seq<CertificateDer<'static>>>,
            }),
        decreases rest@.len(),
    {
        match read_pem_section(rest) {
            Err(e) => {
                return Err(SetupError::Pem(e));
            },
            Ok(None) => {
                return Ok(certs);
            },
            Ok(Some((item, next))) => {
                let ghost before = certs@;
                let ghost found = item;
                match item {
                    PemItem::X509Certificate(cert) => {
                        certs.push(cert);
                    },
                    _ => {},
                }
                proof {
                    match cert_list(next@) {
                        Some(later) => {
                            if found matches PemItem::X509Certificate(_) {
                                assert(before + (seq![certs@.last()] + later) =~= certs@ + later);
                            }
                        },
                        None => {},
                    }
                }
                rest = next;
            },
        }
    }
}

/// The certificates come in file order: when the file starts with a
/// certificate section, that certificate comes first and the others are those
/// of the rest of the file; any other first section adds nothing.
pub proof fn law_certs_in_file_order(pem: &[u8], certs: Vec<CertificateDer<'static>>)
    requires
        call_ensures(load_certs, (pem,), Ok::<Vec<CertificateDer<'static>>, SetupError>(certs)),
    ensures
        pem_read(pem@) !is Malformed,
        pem_read(pem@) is End ==> certs@.len() == 0,
        pem_read(pem@) matches PemStep::Section(item, rest) ==> match item {
            PemItem::X509Certificate(c) => {
                &&& certs@.len() > 0
                &&& certs@[0] == c
                &&& cert_list(rest) == Some(certs@.drop_first())
            },
            _ => cert_list(rest) == Some(certs@),
        },
{
    match pem_read(pem@) {
        PemStep::Section(item, rest) => {
            if let Some(later) = cert_list(rest) {
                if item matches PemItem::X509Certificate(_) {
                    assert(certs@.drop_first() =~= later);
                }
            }
        },
        _ => {},
    }
}

/// The first private key of a PEM file, of whichever kind.
pub fn load_key(pem: &[u8]) -> (r: Result<PrivateKeyDer<'static>, SetupError>)
    ensures
        match r {
            Ok(key) => key_scan(pem@) is Found && first_key(pem@) == Some(key),
            Err(SetupError::Pem(_)) => key_scan(pem@) is Malformed,
            Err(SetupError::MissingPrivateKey) => key_scan(pem@) is NotFound,
            Err(SetupError::Tls(_)) => false,
        },
{
    let mut rest: &[u8] = pem;
    loop
        invariant
            key_scan(pem@) == key_scan(rest@),
            first_key(pem@) == first_key(rest@),
        decreases rest@.len(),
    {
        match read_pem_section(rest) {
            Err(e) => {
                return Err(SetupError::Pem(e));
            },
            Ok(None) => {
                return Err(SetupError::MissingPrivateKey);
            },
            Ok(Some((item, next))) => {
                match item {
                    PemItem::Pkcs1Key(key) => {
                        return Ok(key);
                    },
                    PemItem::Pkcs8Key(key) => {
                        return Ok(key);
                    },
                    PemItem::Sec1Key(key) => {
                        return Ok(key);
                    },
                    _ => {},
                }
                rest = next;
            },
        }
    }
}

/// A TLS acceptor serving the certificates of `cert_pem` with the first
/// private key of `key_pem`.
pub fn make_tls_acceptor(cert_pem: &[u8], key_pem: &[u8]) -> (r: Result<TlsAcceptor, SetupError>)
    ensures
        match r {
            Ok(_) => cert_scan(cert_pem@) is Some && key_scan(key_pem@) is Found,
            Err(SetupError::Pem(_)) => cert_scan(cert_pem@) is None || key_scan(key_pem@) is Malformed,
            Err(SetupError::MissingPrivateKey) => cert_scan(cert_pem@) is Some && key_scan(key_pem@) is NotFound,
            Err(SetupError::Tls(_)) => cert_scan(cert_pem@) is Some && key_scan(key_pem@) is Found,
        },
        cert_scan(cert_pem@) is None ==> r matches Err(SetupError::Pem(_)),
        cert_scan(cert_pem@) is Some && key_scan(key_pem@) is Malformed ==> r matches Err(SetupError::Pem(_)),
{
    let certs = match load_certs(cert_pem) {
        Ok(certs) => certs,
        Err(e) => {
            return Err(e);
        },
    };
    let key = match load_key(key_pem) {
        Ok(key) => key,
        Err(e) => {
            return Err(e);
        },
    };
    acceptor_for(certs, key)
}

/// A TLS acceptor presenting `certs` with `key`, or the reason rustls refused them.
pub fn acceptor_for(certs: Vec<CertificateDer<'static>>, key: PrivateKeyDer<'static>) -> (r: Result<
    TlsAcceptor,
    SetupError,
>)
    ensures
        r is Ok || r matches Err(SetupError::Tls(_)),
{
    match single_cert_config(certs, key) {
        Ok(config) => Ok(acceptor_from_config(Arc::new(config))),
        Err(e) => Err(SetupError::Tls(e)),
    }
}

} // verus!
