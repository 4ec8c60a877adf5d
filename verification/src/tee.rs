//! Trusted execution environment sandbox: attestation reports and
//! authenticated encryption of device data under an enclave-held key.
use aes_gcm::aead::Aead;
use aes_gcm::{Aes256Gcm, Key, KeyInit, Nonce};
use rand::RngCore;
use vstd::prelude::*;
use vstd::string::*;

verus! {

/// The outside AEAD error type.
#[verifier::external_type_specification]
#[verifier::external_body]
pub struct ExAeadError(aes_gcm::Error);

/// Largest plaintext, in bytes, that AES-256-GCM accepts.
pub const AES_GCM_P_MAX: u64 = 0x10_0000_0000u64;

/// Size of the authentication tag AES-256-GCM appends, in bytes.
pub const AES_GCM_TAG_BYTES: usize = 16usize;

/// Size of an AES-256-GCM nonce, in bytes.
pub const NONCE_BYTES: usize = 12usize;

/// Size of the enclave key, in bytes.
pub const KEY_BYTES: usize = 32usize;

/// The AES-256-GCM sealing function (ciphertext followed by the 16-byte tag,
/// no associated data) for a 32-byte key and a 12-byte nonce.
pub uninterp spec fn aes256gcm_seal(key: Seq<u8>, nonce: Seq<u8>, plaintext: Seq<u8>) -> Seq<u8>;

/// Fills the buffer with bytes from the thread-local random generator
/// (`rand::RngCore::fill_bytes` on `rand::thread_rng()`). Only the length is
/// known of the result.
#[verifier::external_body]
fn fill_random(buf: &mut Vec<u8>)
    ensures
        final(buf)@.len() == old(buf)@.len(),
{
    rand::thread_rng().fill_bytes(buf.as_mut_slice());
}

/// AES-256-GCM encryption (`aes_gcm::Aes256Gcm`, `Aead::encrypt`): fails
/// exactly on plaintexts longer than `AES_GCM_P_MAX`, otherwise returns the
/// sealed bytes, 16 longer than the plaintext.
#[verifier::external_body]
fn aes_seal(key: &[u8], nonce: &[u8], plaintext: &[u8]) -> (r: Result<Vec<u8>, aes_gcm::Error>)
    requires
        key@.len() == KEY_BYTES,
        nonce@.len() == NONCE_BYTES,
    ensures
        r is Ok <==> plaintext@.len() <= AES_GCM_P_MAX,
        r matches Ok(c) ==> c@ == aes256gcm_seal(key@, nonce@, plaintext@) && c@.len()
            == plaintext@.len() + AES_GCM_TAG_BYTES,
{
    let cipher = Aes256Gcm::new(Key::<Aes256Gcm>::from_slice(key));
    cipher.encrypt(Nonce::from_slice(nonce), plaintext)
}

/// AES-256-GCM decryption (`aes_gcm::Aes256Gcm`, `Aead::decrypt`): bytes that
/// sealing produced from a plaintext under the same key and nonce open to
/// exactly that plaintext; whatever opens is 16 bytes shorter than its input
/// and, when short enough to seal, seals back to the input (the tag was
/// checked against it). Which inputs fail is not stated beyond this.
#[verifier::external_body]
fn aes_open(key: &[u8], nonce: &[u8], sealed: &[u8]) -> (r: Result<Vec<u8>, aes_gcm::Error>)
    requires
        key@.len() == KEY_BYTES,
        nonce@.len() == NONCE_BYTES,
    ensures
        r matches Ok(q) ==> q@.len() + AES_GCM_TAG_BYTES == sealed@.len(),
        r matches Ok(q) ==> (q@.len() <= AES_GCM_P_MAX ==> aes256gcm_seal(key@, nonce@, q@)
            == sealed@),
        forall|p: Seq<u8>|
            #![trigger aes256gcm_seal(key@, nonce@, p)]
            (p.len() <= AES_GCM_P_MAX && aes256gcm_seal(key@, nonce@, p) == sealed@) ==> (r is Ok
                && r->Ok_0@ == p),
{
    let cipher = Aes256Gcm::new(Key::<Aes256Gcm>::from_slice(key));
    cipher.decrypt(Nonce::from_slice(nonce), sealed)
}

/// Hardware TEE flavours.
#[derive(Debug, Clone, Copy, PartialEq, Eq, Structural)]
pub enum TeeType {
    /// AMD SEV-SNP.
    AmdSevSnp,
    /// Intel TDX.
    IntelTdx,
    /// Simulated sandbox for development.
    Simulation,
}

/// Errors of the sandbox.
#[derive(Debug, Clone, Copy, PartialEq, Eq, Structural)]
pub enum TeeError {
    /// A report shorter than header and platform byte.
    InvalidReportSize,
    /// A report whose header is not `TEE_REPORT_HEADER`.
    InvalidHeader,
    /// A report naming an unknown platform.
    UnknownPlatform,
    /// A plaintext too long for AES-256-GCM.
    EncryptionFailed,
    /// A payload shorter than a nonce.
    InvalidCiphertextSize,
    /// A payload that does not authenticate.
    DecryptionFailed,
}

/// The platform byte a report carries for each TEE flavour.
pub open spec fn platform_id(t: TeeType) -> u8 {
    match t {
        TeeType::AmdSevSnp => 1,
        TeeType::IntelTdx => 2,
        TeeType::Simulation => 3,
    }
}

/// The report header bytes.
pub open spec fn report_header() -> Seq<u8> {
    "TEE_REPORT_HEADER".spec_bytes()
}

/// The header is the 17 ASCII bytes of `TEE_REPORT_HEADER`.
pub proof fn lemma_report_header_len()
    ensures
        report_header().len() == 17,
{
    reveal_strlit("TEE_REPORT_HEADER");
    vstd::string::is_ascii_spec_bytes("TEE_REPORT_HEADER");
    assert(vstd::string::is_ascii("TEE_REPORT_HEADER"));
}

/// The attestation report for a platform and user nonce: header, platform
/// byte, nonce.
pub open spec fn report_bytes(t: TeeType, nonce: Seq<u8>) -> Seq<u8> {
    report_header() + seq![platform_id(t)] + nonce
}

/// What verifying a report answers.
pub open spec fn report_verdict(report: Seq<u8>) -> Result<bool, TeeError> {
    if report.len() < 18 {
        Err(TeeError::InvalidReportSize)
    } else if report.subrange(0, 17) != report_header() {
        Err(TeeError::InvalidHeader)
    } else if report[17] == 1 || report[17] == 2 || report[17] == 3 {
        Ok(true)
    } else {
        Err(TeeError::UnknownPlatform)
    }
}

/// A TEE sandbox holding its enclave key.
pub struct TeeSandbox {
    /// The TEE flavour in use.
    pub tee_type: TeeType,
    enclave_key: Vec<u8>,
}

impl TeeSandbox {
    /// The TEE flavour in use: the `tee_type` field. The key field is
    /// private, so outside this module Verus treats the struct as opaque and
    /// the body stays closed.
    pub closed spec fn flavour(&self) -> TeeType {
        self.tee_type
    }

    /// The 32-byte enclave key.
    pub closed spec fn key(&self) -> Seq<u8> {
        self.enclave_key@
    }

    /// Well-formedness: the key has 32 bytes.
    pub open spec fn wf(&self) -> bool {
        self.key().len() == KEY_BYTES
    }

    /// Initializes the sandbox with a fresh random key. Without a hardware
    /// enclave the sandbox is a simulation.
    pub fn init() -> (r: Result<Self, TeeError>)
        ensures
            r matches Ok(s) && s.wf() && s.flavour() == TeeType::Simulation,
    {
        let mut key: Vec<u8> = vec![0u8; 32];
        fill_random(&mut key);
        Ok(TeeSandbox { tee_type: TeeType::Simulation, enclave_key: key })
    }

    /// Generates the attestation report for a user nonce.
    pub fn generate_attestation_report(&self, user_nonce: &[u8]) -> (r: Result<Vec<u8>, TeeError>)
        ensures
            r matches Ok(v) && v@ == report_bytes(self.flavour(), user_nonce@),
    {
        let mut report: Vec<u8> = Vec::new();
        let header = "TEE_REPORT_HEADER".as_bytes();
        let mut i: usize = 0;
        while i < header.len()
            invariant
                i <= header@.len(),
                header@ == report_header(),
                report@ == header@.subrange(0, i as int),
            decreases header@.len() - i,
        {
            report.push(header[i]);
            i = i + 1;
        }
        report.push(
            match self.tee_type {
                TeeType::AmdSevSnp => 1u8,
                TeeType::IntelTdx => 2u8,
                TeeType::Simulation => 3u8,
            },
        );
        let ghost with_id = report@;
        let mut j: usize = 0;
        while j < user_nonce.len()
            invariant
                j <= user_nonce@.len(),
                report@ == with_id + user_nonce@.subrange(0, j as int),
            decreases user_nonce@.len() - j,
        {
            report.push(user_nonce[j]);
            j = j + 1;
        }
        assert(report@ =~= report_bytes(self.flavour(), user_nonce@));
        Ok(report)
    }

    /// Verifies an attestation report submitted by a remote worker.
    pub fn verify_report(report: &[u8]) -> (r: Result<bool, TeeError>)
        ensures
            r == report_verdict(report@),
    {
        proof {
            lemma_report_header_len();
        }
        if report.len() < 18 {
            return Err(TeeError::InvalidReportSize);
        }
        let header = "TEE_REPORT_HEADER".as_bytes();
        let mut i: usize = 0;
        while i < 17
            invariant
                i <= 17,
                header@ == report_header(),
                header@.len() == 17,
                report@.len() >= 18,
                forall|k: int| 0 <= k < i ==> report@[k] == header@[k],
            decreases 17 - i,
        {
            if report[i] != header[i] {
                assert(report@.subrange(0, 17)[i as int] != report_header()[i as int]);
                return Err(TeeError::InvalidHeader);
            }
            i = i + 1;
        }
        assert(report@.subrange(0, 17) =~= report_header());
        let platform_id = report[17];
        if platform_id == 1 || platform_id == 2 || platform_id == 3 {
            Ok(true)
        } else {
            Err(TeeError::UnknownPlatform)
        }
    }

    /// Encrypts data under the enclave key with a fresh random nonce. The
    /// payload is the 12-byte nonce followed by the sealed bytes.
    pub fn encrypt_device_data(&self, plaintext: &[u8]) -> (r: Result<Vec<u8>, TeeError>)
        requires
            self.wf(),
        ensures
            r is Ok <==> plaintext@.len() <= AES_GCM_P_MAX,
            r is Err ==> r == Err::<Vec<u8>, TeeError>(TeeError::EncryptionFailed),
            r matches Ok(payload) ==> sealed_payload(self.key(), plaintext@, payload@),
    {
        let mut nonce: Vec<u8> = vec![0u8; 12];
        fill_random(&mut nonce);
        match aes_seal(self.enclave_key.as_slice(), nonce.as_slice(), plaintext) {
            Ok(sealed) => {
                let mut payload = nonce;
                let ghost n = payload@;
                let mut i: usize = 0;
                while i < sealed.len()
                    invariant
                        i <= sealed@.len(),
                        payload@ == n + sealed@.subrange(0, i as int),
                    decreases sealed@.len() - i,
                {
                    payload.push(sealed[i]);
                    i = i + 1;
                }
                assert(payload@.subrange(0, 12) =~= n);
                assert(payload@.subrange(12, payload@.len() as int) =~= sealed@);
                Ok(payload)
            },
            Err(_) => Err(TeeError::EncryptionFailed),
        }
    }

    /// Decrypts a payload made of a 12-byte nonce and sealed bytes.
    pub fn decrypt_device_data(&self, payload: &[u8]) -> (r: Result<Vec<u8>, TeeError>)
        requires
            self.wf(),
        ensures
            payload@.len() < NONCE_BYTES ==> r == Err::<Vec<u8>, TeeError>(
                TeeError::InvalidCiphertextSize,
            ),
            payload@.len() >= NONCE_BYTES ==> opened_payload(self.key(), payload@, r),
    {
        if payload.len() < 12 {
            return Err(TeeError::InvalidCiphertextSize);
        }
        let nonce = vstd::slice::slice_subrange(payload, 0, 12);
        let sealed = vstd::slice::slice_subrange(payload, 12, payload.len());
        match aes_open(self.enclave_key.as_slice(), nonce, sealed) {
            Ok(plain) => Ok(plain),
            Err(_) => Err(TeeError::DecryptionFailed),
        }
    }
}

/// A payload that encryption under `key` produces from `plaintext`: a 12-byte
/// nonce followed by the sealing of the plaintext under that nonce.
pub open spec fn sealed_payload(key: Seq<u8>, plaintext: Seq<u8>, payload: Seq<u8>) -> bool {
    &&& payload.len() == NONCE_BYTES + plaintext.len() + AES_GCM_TAG_BYTES
    &&& payload.subrange(NONCE_BYTES as int, payload.len() as int) == aes256gcm_seal(
        key,
        payload.subrange(0, NONCE_BYTES as int),
        plaintext,
    )
}

/// What decrypting a payload of at least 12 bytes answers: if the bytes after
/// the nonce seal some plaintext under that nonce, that plaintext; whatever
/// opens seals back to those bytes; failures are `DecryptionFailed`.
pub open spec fn opened_payload(key: Seq<u8>, payload: Seq<u8>, r: Result<Vec<u8>, TeeError>) -> bool {
    let nonce = payload.subrange(0, NONCE_BYTES as int);
    let sealed = payload.subrange(NONCE_BYTES as int, payload.len() as int);
    &&& forall|p: Seq<u8>|
        #![trigger aes256gcm_seal(key, nonce, p)]
        (p.len() <= AES_GCM_P_MAX && aes256gcm_seal(key, nonce, p) == sealed) ==> (r is Ok
            && r->Ok_0@ == p)
    &&& r matches Ok(q) ==> q@.len() + AES_GCM_TAG_BYTES + NONCE_BYTES == payload.len()
    &&& r matches Ok(q) ==> (q@.len() <= AES_GCM_P_MAX ==> aes256gcm_seal(key, nonce, q@)
        == sealed)
    &&& r is Err ==> r == Err::<Vec<u8>, TeeError>(TeeError::DecryptionFailed)
}

/// Decrypting what encryption produced under the same key gives back the
/// plaintext.
pub proof fn law_decrypt_inverts_encrypt(
    key: Seq<u8>,
    plaintext: Seq<u8>,
    payload: Seq<u8>,
    r: Result<Vec<u8>, TeeError>,
)
    requires
        plaintext.len() <= AES_GCM_P_MAX,
        sealed_payload(key, plaintext, payload),
        opened_payload(key, payload, r),
    ensures
        r is Ok && r->Ok_0@ == plaintext,
{
    let nonce = payload.subrange(NONCE_BYTES as int, payload.len() as int);
    assert(aes256gcm_seal(key, payload.subrange(0, NONCE_BYTES as int), plaintext) == nonce);
}

/// Every report the sandbox generates passes verification.
pub proof fn law_generated_report_verifies(t: TeeType, nonce: Seq<u8>)
    ensures
        report_verdict(report_bytes(t, nonce)) == Ok::<bool, TeeError>(true),
{
    lemma_report_header_len();
    let r = report_bytes(t, nonce);
    assert(r.subrange(0, 17) =~= report_header());
    assert(r[17] == platform_id(t));
}

} // verus!
