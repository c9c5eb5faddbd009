//! Validation of the mutual-TLS server material: the certificate chain, the
//! private key, and the client-certificate trust anchor, all read from PEM
//! text, plus the ALPN preference the listener announces.

use vstd::prelude::*;

verus! {

/// A decoded PEM section, reduced to the kinds the gateway distinguishes.
#[derive(Clone, Debug, PartialEq, Eq)]
pub enum PemEntry {
    /// A DER-encoded x509 certificate.
    Certificate(Vec<u8>),
    /// A DER-encoded PKCS#1 RSA private key.
    RsaKey(Vec<u8>),
    /// A DER-encoded PKCS#8 private key.
    Pkcs8Key(Vec<u8>),
    /// A SEC1-encoded elliptic-curve private key, which the gateway refuses.
    EcKey(Vec<u8>),
    /// A recognised section of a kind the gateway has no use for.
    Unsupported,
}

/// Mathematical model of a [`PemEntry`].
pub enum PemEntryModel {
    Certificate(Seq<u8>),
    RsaKey(Seq<u8>),
    Pkcs8Key(Seq<u8>),
    EcKey(Seq<u8>),
    Unsupported,
}

impl View for PemEntry {
    type V = PemEntryModel;

    open spec fn view(&self) -> PemEntryModel {
        match self {
            PemEntry::Certificate(d) => PemEntryModel::Certificate(d@),
            PemEntry::RsaKey(d) => PemEntryModel::RsaKey(d@),
            PemEntry::Pkcs8Key(d) => PemEntryModel::Pkcs8Key(d@),
            PemEntry::EcKey(d) => PemEntryModel::EcKey(d@),
            PemEntry::Unsupported => PemEntryModel::Unsupported,
        }
    }
}

/// The DER certificates of the PEM sections of a byte text, in order, or
/// `None` where the text cannot be read as PEM.
pub uninterp spec fn pem_certificates(b: Seq<u8>) -> Option<Seq<Seq<u8>>>;

/// Relies on `rustls_pemfile::certs`: the certificates extracted from a
/// byte text are a function of the bytes alone.
#[verifier::external_body]
fn parse_pem_certificates(b: &[u8]) -> (r: Option<Vec<Vec<u8>>>)
    ensures
        r is Some <==> pem_certificates(b@) is Some,
        r is Some ==> r->0.deep_view() == pem_certificates(b@)->0,
{
    match rustls_pemfile::certs(&mut &b[..]) {
        Ok(certs) => Some(certs),
        Err(_) => None,
    }
}

/// The first recognised PEM section of a byte text, or `None` where the
/// text cannot be read as PEM or holds no section.
pub uninterp spec fn first_pem_entry(b: Seq<u8>) -> Option<PemEntryModel>;

/// Relies on `rustls_pemfile::read_one`: the first section decoded from a
/// byte text is a function of the bytes alone.
#[verifier::external_body]
fn parse_first_pem_entry(b: &[u8]) -> (r: Option<PemEntry>)
    ensures
        r is Some <==> first_pem_entry(b@) is Some,
        r is Some ==> r->0@ == first_pem_entry(b@)->0,
{
    match rustls_pemfile::read_one(&mut &b[..]) {
        Ok(Some(rustls_pemfile::Item::X509Certificate(d))) => Some(PemEntry::Certificate(d)),
        Ok(Some(rustls_pemfile::Item::RSAKey(d))) => Some(PemEntry::RsaKey(d)),
        Ok(Some(rustls_pemfile::Item::PKCS8Key(d))) => Some(PemEntry::Pkcs8Key(d)),
        Ok(Some(rustls_pemfile::Item::ECKey(d))) => Some(PemEntry::EcKey(d)),
        Ok(Some(rustls_pemfile::Item::Crl(_))) => Some(PemEntry::Unsupported),
        Ok(Some(_)) => Some(PemEntry::Unsupported),
        Ok(None) => None,
        Err(_) => None,
    }
}

/// Why building the TLS context failed; every variant is a fatal
/// configuration error raised before any listener binds.
#[derive(Clone, Copy, Debug, PartialEq, Eq, Structural)]
pub enum TlsError {
    /// The certificate file cannot be read as PEM.
    CertificatesUnreadable,
    /// The certificate file holds no certificate.
    NoCertificate,
    /// The key file holds no usable private key: unreadable, absent, an
    /// elliptic-curve key, or another unsupported kind.
    UnsupportedKey,
    /// The CA file does not hold a certificate as its first PEM section.
    InvalidTrustAnchor,
}

impl TlsError {
    /// A short description for the caller's error report.
    pub fn message(&self) -> (r: &'static str)
        ensures
            *self is CertificatesUnreadable ==> r@ == "certificate file cannot be read as PEM"@,
            *self is NoCertificate ==> r@ == "certificate file holds no certificate"@,
            *self is UnsupportedKey ==> r@ == "private key invalid or not supported"@,
            *self is InvalidTrustAnchor ==> r@ == "invalid root ca cert"@,
    {
        match self {
            TlsError::CertificatesUnreadable => "certificate file cannot be read as PEM",
            TlsError::NoCertificate => "certificate file holds no certificate",
            TlsError::UnsupportedKey => "private key invalid or not supported",
            TlsError::InvalidTrustAnchor => "invalid root ca cert",
        }
    }
}

/// The encoding of the accepted private key.
#[derive(Clone, Copy, Debug, PartialEq, Eq, Structural)]
pub enum KeyEncoding {
    Rsa,
    Pkcs8,
}

/// The validated material of the mutual-TLS server context, as plain bytes.
///
/// Whoever assembles the real context from it must require a client
/// certificate chaining to the trust anchor, and announce the ALPN
/// preference as given.
#[derive(Clone, Debug, PartialEq, Eq)]
pub struct TlsServerPlan {
    /// The server's DER certificate chain, in file order.
    pub cert_chain: Vec<Vec<u8>>,
    /// How the private key is encoded.
    pub key_encoding: KeyEncoding,
    /// The server's DER private key.
    pub key_der: Vec<u8>,
    /// The DER certificate installed as the sole client trust anchor.
    pub trust_anchor_der: Vec<u8>,
    /// ALPN preference: HTTP/2 first, then HTTP/1.1.
    pub alpn: Vec<Vec<u8>>,
}

/// Mathematical model of a [`TlsServerPlan`].
pub struct TlsServerPlanModel {
    pub cert_chain: Seq<Seq<u8>>,
    pub key_encoding: KeyEncoding,
    pub key_der: Seq<u8>,
    pub trust_anchor_der: Seq<u8>,
    pub alpn: Seq<Seq<u8>>,
}

impl View for TlsServerPlan {
    type V = TlsServerPlanModel;

    open spec fn view(&self) -> TlsServerPlanModel {
        TlsServerPlanModel {
            cert_chain: self.cert_chain.deep_view(),
            key_encoding: self.key_encoding,
            key_der: self.key_der@,
            trust_anchor_der: self.trust_anchor_der@,
            alpn: self.alpn.deep_view(),
        }
    }
}

/// The ALPN protocol preference the mutual-TLS listener announces:
/// `h2` (bytes 104, 50), then `http/1.1`
/// (bytes 104, 116, 116, 112, 47, 49, 46, 49).
pub open spec fn spec_alpn() -> Seq<Seq<u8>> {
    seq![seq![104u8, 50u8], seq![104u8, 116u8, 116u8, 112u8, 47u8, 49u8, 46u8, 49u8]]
}

/// What building the plan yields on the given PEM texts.
pub open spec fn spec_tls_plan(cert_pem: Seq<u8>, key_pem: Seq<u8>, ca_pem: Seq<u8>) -> Result<
    TlsServerPlanModel,
    TlsError,
> {
    match pem_certificates(cert_pem) {
        Option::None => Err(TlsError::CertificatesUnreadable),
        Option::Some(chain) => if chain.len() == 0 {
            Err(TlsError::NoCertificate)
        } else {
            match first_pem_entry(key_pem) {
                Option::Some(PemEntryModel::RsaKey(key)) => spec_tls_plan_with_key(
                    chain,
                    KeyEncoding::Rsa,
                    key,
                    ca_pem,
                ),
                Option::Some(PemEntryModel::Pkcs8Key(key)) => spec_tls_plan_with_key(
                    chain,
                    KeyEncoding::Pkcs8,
                    key,
                    ca_pem,
                ),
                _ => Err(TlsError::UnsupportedKey),
            }
        },
    }
}

/// The tail of [`spec_tls_plan`] once chain and key are accepted.
pub open spec fn spec_tls_plan_with_key(
    chain: Seq<Seq<u8>>,
    key_encoding: KeyEncoding,
    key: Seq<u8>,
    ca_pem: Seq<u8>,
) -> Result<TlsServerPlanModel, TlsError> {
    match first_pem_entry(ca_pem) {
        Option::Some(PemEntryModel::Certificate(anchor)) => Ok(
            TlsServerPlanModel {
                cert_chain: chain,
                key_encoding: key_encoding,
                key_der: key,
                trust_anchor_der: anchor,
                alpn: spec_alpn(),
            },
        ),
        _ => Err(TlsError::InvalidTrustAnchor),
    }
}

/// Builds `h2` as bytes.
fn alpn_h2() -> (r: Vec<u8>)
    ensures
        r@ == seq![104u8, 50u8],
{
    let mut v: Vec<u8> = Vec::new();
    v.push(104);
    v.push(50);
    assert(v@ =~= seq![104u8, 50u8]);
    v
}

/// Builds `http/1.1` as bytes.
fn alpn_http11() -> (r: Vec<u8>)
    ensures
        r@ == seq![104u8, 116u8, 116u8, 112u8, 47u8, 49u8, 46u8, 49u8],
{
    let mut v: Vec<u8> = Vec::new();
    v.push(104);
    v.push(116);
    v.push(116);
    v.push(112);
    v.push(47);
    v.push(49);
    v.push(46);
    v.push(49);
    assert(v@ =~= seq![104u8, 116u8, 116u8, 112u8, 47u8, 49u8, 46u8, 49u8]);
    v
}

/// Validates the mutual-TLS server material.
///
/// Reads one or more certificates from `cert_pem` as the server chain,
/// exactly one RSA or PKCS#8 private key from `key_pem` — any other key
/// encoding, an elliptic-curve key among them, is refused — and exactly one
/// certificate from `ca_pem` as the sole client trust anchor, and fixes the
/// ALPN preference to HTTP/2 then HTTP/1.1. Every failure is a fatal
/// configuration error for the caller to raise before any listener binds.
pub fn build_tls_plan(cert_pem: &[u8], key_pem: &[u8], ca_pem: &[u8]) -> (r: Result<
    TlsServerPlan,
    TlsError,
>)
    ensures
        r matches Ok(plan) ==> spec_tls_plan(cert_pem@, key_pem@, ca_pem@) == Ok::<
            TlsServerPlanModel,
            TlsError,
        >(plan@),
        r matches Err(e) ==> spec_tls_plan(cert_pem@, key_pem@, ca_pem@) == Err::<
            TlsServerPlanModel,
            TlsError,
        >(e),
{
    let chain = match parse_pem_certificates(cert_pem) {
        Option::Some(chain) => chain,
        Option::None => {
            return Err(TlsError::CertificatesUnreadable);
        },
    };
    if chain.len() == 0 {
        return Err(TlsError::NoCertificate);
    }
    let (key_encoding, key_der) = match parse_first_pem_entry(key_pem) {
        Option::Some(PemEntry::RsaKey(key)) => (KeyEncoding::Rsa, key),
        Option::Some(PemEntry::Pkcs8Key(key)) => (KeyEncoding::Pkcs8, key),
        _ => {
            return Err(TlsError::UnsupportedKey);
        },
    };
    let trust_anchor_der = match parse_first_pem_entry(ca_pem) {
        Option::Some(PemEntry::Certificate(anchor)) => anchor,
        _ => {
            return Err(TlsError::InvalidTrustAnchor);
        },
    };
    let mut alpn: Vec<Vec<u8>> = Vec::new();
    alpn.push(alpn_h2());
    alpn.push(alpn_http11());
    let plan = TlsServerPlan { cert_chain: chain, key_encoding, key_der, trust_anchor_der, alpn };
    proof {
        assert(plan@.alpn =~~= spec_alpn());
    }
    Ok(plan)
}

/// An elliptic-curve private key can never yield a TLS context: whatever
/// the certificate and CA texts hold, building the plan fails.
pub proof fn lemma_ec_key_is_fatal(cert_pem: Seq<u8>, key_pem: Seq<u8>, ca_pem: Seq<u8>)
    requires
        first_pem_entry(key_pem) matches Some(e) && e is EcKey,
    ensures
        spec_tls_plan(cert_pem, key_pem, ca_pem) is Err,
{
}

} // verus!
