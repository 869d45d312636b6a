//! Verified pieces of the onion-service certificate documents: the
//! validation and arithmetic behind signing-request and CAA-document
//! creation, and the signed CAA document itself.
//!
//! Key lookup, randomness, the clock and the signature itself live with
//! the caller; what is checked here is everything that can be decided
//! from plain values: nonce length limits and the expiry timestamp.

use vstd::prelude::*;

verus! {

/// Smallest acceptable CA nonce, in bytes, per the baseline
/// requirements for certificate authorities.
pub const MIN_CA_NONCE_LEN: usize = 8;

/// Largest acceptable CA nonce, in bytes; chosen to avoid signing an
/// unbounded amount of attacker-supplied data.
pub const MAX_CA_NONCE_LEN: usize = 128;

/// Possible errors when creating a certificate signing request for an
/// onion service.
#[derive(Debug, Copy, Clone, PartialEq, Eq, Structural)]
pub enum OnionCsrError {
    /// The key for this service cannot be found.
    KeyNotFound,
    /// The CA nonce is too long to fit.
    CANonceTooLong,
    /// The CA nonce is too short: not enough entropy.
    CANonceTooShort,
}

/// Possible errors when creating a CAA document for an onion service.
#[derive(Debug, Copy, Clone, PartialEq, Eq, Structural)]
pub enum OnionCaaError {
    /// The key for this service cannot be found.
    KeyNotFound,
    /// The system clock is bogus: no expiry timestamp can be computed.
    InvalidSystemTime,
    /// The CAA records could not be serialized.
    EncodeError,
}

/// Accept a CA nonce exactly when its length lies within the allowed
/// bounds; too short is reported before too long, as both cannot hold.
pub fn check_ca_nonce(ca_nonce: &[u8]) -> (r: Result<(), OnionCsrError>)
    ensures
        ca_nonce@.len() < MIN_CA_NONCE_LEN ==> r == Err::<(), OnionCsrError>(
            OnionCsrError::CANonceTooShort,
        ),
        ca_nonce@.len() > MAX_CA_NONCE_LEN ==> r == Err::<(), OnionCsrError>(
            OnionCsrError::CANonceTooLong,
        ),
        MIN_CA_NONCE_LEN <= ca_nonce@.len() <= MAX_CA_NONCE_LEN ==> r == Ok::<
            (),
            OnionCsrError,
        >(()),
{
    if ca_nonce.len() < MIN_CA_NONCE_LEN {
        return Err(OnionCsrError::CANonceTooShort);
    }
    if ca_nonce.len() > MAX_CA_NONCE_LEN {
        return Err(OnionCsrError::CANonceTooLong);
    }
    Ok(())
}

/// The expiry timestamp of a CAA document: the current time plus the
/// requested lifetime plus a random jitter (all in seconds since the
/// epoch).  A sum beyond the timestamp range means the clock or the
/// request is bogus.
pub fn caa_expiry(now_unix: u64, lifetime: u64, jitter: u64) -> (r: Result<u64, OnionCaaError>)
    ensures
        now_unix + lifetime + jitter <= u64::MAX ==> r == Ok::<u64, OnionCaaError>(
            (now_unix + lifetime + jitter) as u64,
        ),
        now_unix + lifetime + jitter > u64::MAX ==> r == Err::<u64, OnionCaaError>(
            OnionCaaError::InvalidSystemTime,
        ),
{
    match now_unix.checked_add(lifetime) {
        Some(s) => match s.checked_add(jitter) {
            Some(t) => Ok(t),
            None => Err(OnionCaaError::InvalidSystemTime),
        },
        None => Err(OnionCaaError::InvalidSystemTime),
    }
}

/// The length octets of a DER element whose content has `n` bytes:
/// short form below 128, else the long form with one or two length
/// bytes.  Nothing this module builds outgrows two.
pub open spec fn spec_der_len(n: nat) -> Seq<u8> {
    if n < 128 {
        seq![n as u8]
    } else if n < 256 {
        seq![0x81u8, n as u8]
    } else {
        seq![0x82u8, (n / 256) as u8, (n % 256) as u8]
    }
}

/// One DER element: tag, length octets, content.
pub open spec fn spec_der_tlv(tag: u8, content: Seq<u8>) -> Seq<u8> {
    seq![tag] + spec_der_len(content.len()) + content
}

/// The DER prefix of an Ed25519 algorithm identifier: a SEQUENCE
/// holding the object identifier of the Ed25519 signature scheme.
pub open spec fn spec_ed25519_alg_id() -> Seq<u8> {
    seq![0x30u8, 0x05, 0x06, 0x03, 0x2b, 0x65, 0x70]
}

/// The request information of an onion-service certificate signing
/// request, DER-encoded: version zero, an empty subject name, the
/// Ed25519 public key, and the two signing-nonce attributes (the
/// certificate authority's nonce and the applicant's).
pub open spec fn spec_csr_tbs(
    public_key: Seq<u8>,
    ca_nonce: Seq<u8>,
    applicant_nonce: Seq<u8>,
) -> Seq<u8> {
    let version = seq![0x02u8, 0x01, 0x00];
    let subject = seq![0x30u8, 0x00];
    let spki = spec_der_tlv(
        0x30,
        spec_ed25519_alg_id() + spec_der_tlv(0x03, seq![0u8] + public_key),
    );
    let ca_attr = spec_der_tlv(
        0x30,
        seq![0x06u8, 0x04, 0x67, 0x81, 0x0c, 0x29] + spec_der_tlv(
            0x31,
            spec_der_tlv(0x04, ca_nonce),
        ),
    );
    let applicant_attr = spec_der_tlv(
        0x30,
        seq![0x06u8, 0x04, 0x67, 0x81, 0x0c, 0x2a] + spec_der_tlv(
            0x31,
            spec_der_tlv(0x04, applicant_nonce),
        ),
    );
    let attrs = spec_der_tlv(0xa0, ca_attr + applicant_attr);
    spec_der_tlv(0x30, version + subject + spki + attrs)
}

/// A whole certificate signing request, DER-encoded: the request
/// information, the Ed25519 algorithm identifier, and the signature as
/// a bit string.
pub open spec fn spec_csr(tbs: Seq<u8>, signature: Seq<u8>) -> Seq<u8> {
    spec_der_tlv(0x30, tbs + spec_ed25519_alg_id() + spec_der_tlv(0x03, seq![0u8] + signature))
}

/// Wrap `content` into a DER element with the given tag.
fn der_wrap(tag: u8, content: Vec<u8>) -> (r: Vec<u8>)
    requires
        content@.len() < 0x10000,
    ensures
        r@ == spec_der_tlv(tag, content@),
{
    let mut out: Vec<u8> = Vec::new();
    out.push(tag);
    let n = content.len();
    if n < 128 {
        out.push(n as u8);
    } else if n < 256 {
        out.push(0x81u8);
        out.push(n as u8);
    } else {
        out.push(0x82u8);
        out.push((n / 256) as u8);
        out.push((n % 256) as u8);
    }
    let ghost content0 = content@;
    let mut content = content;
    out.append(&mut content);
    assert(out@ =~= spec_der_tlv(tag, content0)) by {
        assert(out@ =~= seq![tag] + spec_der_len(content0.len()) + content0);
    };
    out
}

/// A DER bit string with no unused bits over the given bytes.
fn der_bit_string(data: &[u8]) -> (r: Vec<u8>)
    requires
        data@.len() < 0xffff,
    ensures
        r@ == spec_der_tlv(0x03, seq![0u8] + data@),
{
    let mut content: Vec<u8> = Vec::new();
    content.push(0u8);
    content.extend_from_slice(data);
    assert(content@ =~= seq![0u8] + data@);
    der_wrap(0x03, content)
}

/// Build the request information of a certificate signing request for
/// an onion service, ready to be signed: the Ed25519 identity key, the
/// certificate authority's nonce (whose length limits are enforced
/// here) and the applicant's own nonce.
pub fn build_csr_tbs(
    public_key: &[u8; 32],
    ca_nonce: &[u8],
    applicant_nonce: &[u8; 10],
) -> (r: Result<Vec<u8>, OnionCsrError>)
    ensures
        ca_nonce@.len() < MIN_CA_NONCE_LEN ==> r == Err::<Vec<u8>, OnionCsrError>(
            OnionCsrError::CANonceTooShort,
        ),
        ca_nonce@.len() > MAX_CA_NONCE_LEN ==> r == Err::<Vec<u8>, OnionCsrError>(
            OnionCsrError::CANonceTooLong,
        ),
        MIN_CA_NONCE_LEN <= ca_nonce@.len() <= MAX_CA_NONCE_LEN ==> (r matches Ok(v) && v@
            == spec_csr_tbs(public_key@, ca_nonce@, applicant_nonce@)),
{
    match check_ca_nonce(ca_nonce) {
        Ok(()) => {},
        Err(e) => {
            return Err(e);
        },
    }
    let mut version: Vec<u8> = Vec::new();
    version.push(0x02u8);
    version.push(0x01u8);
    version.push(0x00u8);
    let mut subject: Vec<u8> = Vec::new();
    subject.push(0x30u8);
    subject.push(0x00u8);

    let mut spki_content = ed25519_alg_id();
    let mut pk_bits = der_bit_string(public_key);
    spki_content.append(&mut pk_bits);
    let spki = der_wrap(0x30, spki_content);

    let ca_attr = nonce_attribute(0x29u8, ca_nonce);
    let applicant_attr = nonce_attribute(0x2au8, applicant_nonce);
    let mut attrs_content = ca_attr;
    let mut applicant_attr = applicant_attr;
    attrs_content.append(&mut applicant_attr);
    let attrs = der_wrap(0xa0, attrs_content);

    let mut tbs_content = version;
    let mut subject = subject;
    tbs_content.append(&mut subject);
    let mut spki = spki;
    tbs_content.append(&mut spki);
    let mut attrs = attrs;
    tbs_content.append(&mut attrs);
    let tbs = der_wrap(0x30, tbs_content);
    assert(tbs@ =~= spec_csr_tbs(public_key@, ca_nonce@, applicant_nonce@));
    Ok(tbs)
}

/// Assemble the whole certificate signing request from the signed
/// request information and its Ed25519 signature.
pub fn build_csr(tbs: &[u8], signature: &[u8; 64]) -> (r: Vec<u8>)
    requires
        tbs@.len() < 0xf000,
    ensures
        r@ == spec_csr(tbs@, signature@),
{
    let mut content: Vec<u8> = Vec::new();
    content.extend_from_slice(tbs);
    let mut alg = ed25519_alg_id();
    content.append(&mut alg);
    let mut sig_bits = der_bit_string(signature);
    content.append(&mut sig_bits);
    let csr = der_wrap(0x30, content);
    assert(csr@ =~= spec_csr(tbs@, signature@));
    csr
}

/// The DER bytes of the Ed25519 algorithm identifier.
fn ed25519_alg_id() -> (r: Vec<u8>)
    ensures
        r@ == spec_ed25519_alg_id(),
{
    let mut out: Vec<u8> = Vec::new();
    out.push(0x30u8);
    out.push(0x05u8);
    out.push(0x06u8);
    out.push(0x03u8);
    out.push(0x2bu8);
    out.push(0x65u8);
    out.push(0x70u8);
    assert(out@ =~= spec_ed25519_alg_id());
    out
}

/// One signing-nonce attribute: a SEQUENCE of the object identifier
/// (2.23.140.41 for the certificate authority's nonce, 2.23.140.42 for
/// the applicant's; `last_arc` is its final octet) and a SET holding
/// the nonce as an OCTET STRING.
fn nonce_attribute(last_arc: u8, nonce: &[u8]) -> (r: Vec<u8>)
    requires
        nonce@.len() <= 128,
    ensures
        r@ == spec_der_tlv(
            0x30,
            seq![0x06u8, 0x04, 0x67, 0x81, 0x0c, last_arc] + spec_der_tlv(
                0x31,
                spec_der_tlv(0x04, nonce@),
            ),
        ),
{
    let mut octet_content: Vec<u8> = Vec::new();
    octet_content.extend_from_slice(nonce);
    let octet = der_wrap(0x04, octet_content);
    let set = der_wrap(0x31, octet);
    let mut content: Vec<u8> = Vec::new();
    content.push(0x06u8);
    content.push(0x04u8);
    content.push(0x67u8);
    content.push(0x81u8);
    content.push(0x0cu8);
    content.push(last_arc);
    let mut set = set;
    content.append(&mut set);
    der_wrap(0x30, content)
}

/// A signed CAA document for an onion service.
#[derive(Debug)]
pub struct OnionCaa {
    /// The encoded CAA resource record set.
    pub caa: String,
    /// Expiry as a timestamp in seconds since the epoch.
    pub expiry: u64,
    /// Signature over the document.
    pub signature: Vec<u8>,
}

impl OnionCaa {
    /// Assemble a document from its parts.
    pub fn new(caa: String, expiry: u64, signature: Vec<u8>) -> (r: Self)
        ensures
            r.caa@ == caa@,
            r.expiry == expiry,
            r.signature@ == signature@,
    {
        OnionCaa { caa, expiry, signature }
    }

    /// The encoded CAA resource record set.
    pub fn caa(&self) -> (r: &str)
        ensures
            r@ == self.caa@,
    {
        self.caa.as_str()
    }

    /// Document expiry as a timestamp in seconds since the epoch.
    pub fn expiry(&self) -> (r: u64)
        ensures
            r == self.expiry,
    {
        self.expiry
    }

    /// Signature over the document.
    pub fn signature(&self) -> (r: &[u8])
        ensures
            r@ == self.signature@,
    {
        self.signature.as_slice()
    }
}

} // verus!
