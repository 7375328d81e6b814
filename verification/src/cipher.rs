//! Message cipher: sealing and opening of envelopes with AES-256-GCM.
//!
//! An envelope holds the nonce, the ciphertext with its 16-byte tag, and the
//! associated data, which is not encrypted but is bound into the tag.
//!
//! A (key, nonce) pair must never seal twice. [`seal`] draws each nonce, 96
//! bits, from the entropy source; two of them then collide only by chance,
//! and a key should be replaced by a newly agreed one before it has sealed
//! 2^32 messages, which keeps that chance below 2^-32. A `Sealer` counts
//! instead: its nonces are proved distinct, and it is the one to use where
//! a key seals more than that.

use crate::agreement::SharedSecret;
use crate::bytes::{optional_bytes_equal, optional_slice_view, optional_view, to_vec};
use crate::entropy::os_random;
use crate::error::{CryptoError, ErrorKind};
use aes_gcm::aead::{Aead, KeyInit, Payload};
use aes_gcm::{Aes256Gcm, Key, Nonce};
use vstd::prelude::*;

verus! {

/// Length in bytes of a nonce.
pub const NONCE_LEN: usize = 12;

/// Length in bytes of the authentication tag that ends every ciphertext.
pub const TAG_LEN: usize = 16;

/// Longest plaintext that the cipher takes: 2^36 bytes.
pub const MAX_PLAINTEXT_LEN: u64 = 0x10_0000_0000;

/// Longest associated data that the cipher takes: 2^36 bytes.
pub const MAX_ASSOCIATED_DATA_LEN: u64 = 0x10_0000_0000;

/// What AES-256-GCM decryption returns for a key, a 12-byte nonce,
/// associated data and a ciphertext with its tag: the plaintext, or `None`
/// where the tag does not verify. It is what `aes_gcm::Aes256Gcm::decrypt`
/// computes.
pub uninterp spec fn aes256_gcm_decrypted(
    key: Seq<u8>,
    nonce: Seq<u8>,
    associated_data: Seq<u8>,
    ciphertext: Seq<u8>,
) -> Option<Seq<u8>>;

/// Trusted: `aes_gcm::Aes256Gcm::encrypt` (the `Aead` trait), with
/// `Aes256Gcm::new`, `Key::from_slice` and `Nonce::from_slice` around it.
///
/// Within the lengths required here the call succeeds: its source refuses
/// only plaintexts or associated data above 2^36 bytes, and the buffer that
/// it allocates for the ciphertext is no longer than a buffer may be. The
/// ciphertext is the plaintext's length plus the tag, and decrypting it
/// under the same key, nonce and associated data gives the plaintext back,
/// which is the documented purpose of the pair of functions.
#[verifier::external_body]
fn aead_encrypt(key: &[u8; 32], nonce: &[u8; 12], associated_data: &[u8], plaintext: &[u8]) -> (res:
    Option<Vec<u8>>)
    requires
        plaintext@.len() <= MAX_PLAINTEXT_LEN,
        plaintext@.len() + TAG_LEN <= isize::MAX,
        associated_data@.len() <= MAX_ASSOCIATED_DATA_LEN,
    ensures
        res is Some,
        res matches Some(ciphertext) ==> ciphertext@.len() == plaintext@.len() + TAG_LEN,
        res matches Some(ciphertext) ==> aes256_gcm_decrypted(
            key@,
            nonce@,
            associated_data@,
            ciphertext@,
        ) == Some(plaintext@),
{
    let cipher = Aes256Gcm::new(Key::<Aes256Gcm>::from_slice(key));
    cipher.encrypt(Nonce::from_slice(nonce), Payload { msg: plaintext, aad: associated_data }).ok()
}

/// Trusted: `aes_gcm::Aes256Gcm::decrypt` (the `Aead` trait), with
/// `Aes256Gcm::new`, `Key::from_slice` and `Nonce::from_slice` around it.
///
/// The result depends on the four arguments alone and is named
/// `aes256_gcm_decrypted`. A plaintext that comes back is the ciphertext's
/// length less the tag.
#[verifier::external_body]
fn aead_decrypt(key: &[u8; 32], nonce: &[u8; 12], associated_data: &[u8], ciphertext: &[u8]) -> (res:
    Option<Vec<u8>>)
    ensures
        optional_view(res) == aes256_gcm_decrypted(key@, nonce@, associated_data@, ciphertext@),
        res matches Some(plaintext) ==> plaintext@.len() + TAG_LEN == ciphertext@.len(),
{
    let cipher = Aes256Gcm::new(Key::<Aes256Gcm>::from_slice(key));
    cipher.decrypt(Nonce::from_slice(nonce), Payload { msg: ciphertext, aad: associated_data }).ok()
}

/// What an [`EncryptedMessage`] holds, as byte sequences.
pub struct EnvelopeView {
    pub nonce: Seq<u8>,
    pub ciphertext: Seq<u8>,
    pub associated_data: Option<Seq<u8>>,
}

/// The bytes that are bound into the tag for the given associated data:
/// the data itself, or nothing where it is absent.
pub open spec fn associated_bytes(associated_data: Option<Seq<u8>>) -> Seq<u8> {
    match associated_data {
        Some(data) => data,
        None => Seq::<u8>::empty(),
    }
}

/// True when a plaintext and associated data of these lengths are sealed:
/// neither is longer than the cipher takes, and the ciphertext, which is the
/// plaintext and its tag, is no longer than a buffer may be on this machine.
pub open spec fn sealable(plaintext: Seq<u8>, associated_data: Option<Seq<u8>>) -> bool {
    &&& plaintext.len() <= MAX_PLAINTEXT_LEN
    &&& plaintext.len() + TAG_LEN <= isize::MAX
    &&& associated_bytes(associated_data).len() <= MAX_ASSOCIATED_DATA_LEN
}

/// True when a plaintext and associated data of these lengths are sealed.
fn lengths_sealable(plaintext_len: usize, data_len: usize) -> (fits: bool)
    ensures
        fits == (plaintext_len <= MAX_PLAINTEXT_LEN && plaintext_len + TAG_LEN <= isize::MAX
            && data_len <= MAX_ASSOCIATED_DATA_LEN),
{
    plaintext_len as u64 <= MAX_PLAINTEXT_LEN && plaintext_len <= isize::MAX as usize - TAG_LEN
        && data_len as u64 <= MAX_ASSOCIATED_DATA_LEN
}

impl EnvelopeView {
    /// True when this envelope is a sealing of the plaintext under the key
    /// with the given associated data: it carries that associated data, its
    /// nonce is 12 bytes, its ciphertext is the plaintext's length plus the
    /// tag, and the cipher decrypts it to the plaintext.
    pub open spec fn is_sealing_of(
        self,
        key: Seq<u8>,
        plaintext: Seq<u8>,
        associated_data: Option<Seq<u8>>,
    ) -> bool {
        &&& self.nonce.len() == NONCE_LEN
        &&& self.associated_data == associated_data
        &&& self.ciphertext.len() == plaintext.len() + TAG_LEN
        &&& aes256_gcm_decrypted(
            key,
            self.nonce,
            associated_bytes(associated_data),
            self.ciphertext,
        ) == Some(plaintext)
    }
}

/// What opening an envelope under a key gives: the plaintext, or the kind
/// of the failure. A nonce of the wrong length is a malformed message; a
/// ciphertext too short to hold a tag, or a tag that does not verify, is a
/// decryption failure.
pub open spec fn open_outcome(key: Seq<u8>, envelope: EnvelopeView) -> Result<Seq<u8>, ErrorKind> {
    if envelope.nonce.len() != NONCE_LEN {
        Err(ErrorKind::InvalidMessageFormat)
    } else if envelope.ciphertext.len() < TAG_LEN {
        Err(ErrorKind::Decryption)
    } else {
        match aes256_gcm_decrypted(
            key,
            envelope.nonce,
            associated_bytes(envelope.associated_data),
            envelope.ciphertext,
        ) {
            Some(plaintext) => Ok(plaintext),
            None => Err(ErrorKind::Decryption),
        }
    }
}

/// What opening gives where the receiver names the associated data that it
/// expects: a decryption failure where the envelope carries other
/// associated data, and [`open_outcome`] otherwise.
pub open spec fn open_outcome_expecting(
    key: Seq<u8>,
    envelope: EnvelopeView,
    expected: Option<Seq<u8>>,
) -> Result<Seq<u8>, ErrorKind> {
    if envelope.nonce.len() != NONCE_LEN {
        Err(ErrorKind::InvalidMessageFormat)
    } else if envelope.associated_data != expected {
        Err(ErrorKind::Decryption)
    } else {
        open_outcome(key, envelope)
    }
}

/// True when the executable result `res` is the outcome `outcome`.
pub open spec fn is_outcome(res: Result<Vec<u8>, CryptoError>, outcome: Result<Seq<u8>, ErrorKind>) -> bool {
    match outcome {
        Ok(bytes) => res matches Ok(v) && v@ == bytes,
        Err(kind) => res matches Err(e) && e.spec_kind() == kind,
    }
}

/// An encrypted, authenticated message payload: the only form in which a
/// message is stored or sent.
#[derive(Debug, Clone, PartialEq, Eq)]
pub struct EncryptedMessage {
    nonce: Vec<u8>,
    ciphertext: Vec<u8>,
    associated_data: Option<Vec<u8>>,
}

impl View for EncryptedMessage {
    type V = EnvelopeView;

    closed spec fn view(&self) -> EnvelopeView {
        EnvelopeView {
            nonce: self.nonce@,
            ciphertext: self.ciphertext@,
            associated_data: optional_view(self.associated_data),
        }
    }
}

impl EncryptedMessage {
    /// Puts an envelope together from its three parts, as they were stored
    /// or received. Nothing is checked here: [`open`] decides.
    pub fn from_parts(nonce: Vec<u8>, ciphertext: Vec<u8>, associated_data: Option<Vec<u8>>) -> (envelope:
        EncryptedMessage)
        ensures
            envelope@.nonce == nonce@,
            envelope@.ciphertext == ciphertext@,
            envelope@.associated_data == optional_view(associated_data),
    {
        EncryptedMessage { nonce, ciphertext, associated_data }
    }

    /// The parts of an envelope in memory have lengths that fit the
    /// machine's word.
    pub proof fn lemma_lengths(&self)
        ensures
            self@.nonce.len() <= usize::MAX,
            self@.ciphertext.len() <= usize::MAX,
            self@.associated_data matches Some(data) ==> data.len() <= usize::MAX,
    {
        assert(self.nonce@.len() == self.nonce.len());
        assert(self.ciphertext@.len() == self.ciphertext.len());
        match self.associated_data {
            Some(data) => {
                assert(data@.len() == data.len());
            },
            None => {},
        }
    }

    /// The nonce under which the envelope was sealed.
    pub fn nonce(&self) -> (nonce: &[u8])
        ensures
            nonce@ == self@.nonce,
    {
        self.nonce.as_slice()
    }

    /// The ciphertext, which ends with the authentication tag.
    pub fn ciphertext(&self) -> (ciphertext: &[u8])
        ensures
            ciphertext@ == self@.ciphertext,
    {
        self.ciphertext.as_slice()
    }

    /// The associated data, where the envelope carries any.
    pub fn associated_data(&self) -> (data: Option<&[u8]>)
        ensures
            optional_slice_view(data) == self@.associated_data,
    {
        match &self.associated_data {
            Some(data) => Some(data.as_slice()),
            None => None,
        }
    }
}

/// Copies a slice of exactly 12 bytes into an array; `None` for any other
/// length.
fn copy_nonce(bytes: &[u8]) -> (res: Option<[u8; 12]>)
    ensures
        res is Some <==> bytes@.len() == NONCE_LEN,
        res matches Some(array) ==> array@ == bytes@,
{
    if bytes.len() != NONCE_LEN {
        return None;
    }
    let mut out = [0u8; 12];
    let mut i: usize = 0;
    while i < NONCE_LEN
        invariant
            i <= NONCE_LEN,
            bytes@.len() == NONCE_LEN,
            forall|j: int| 0 <= j < i ==> out@[j] == bytes@[j],
        decreases NONCE_LEN - i,
    {
        out[i] = bytes[i];
        i += 1;
    }
    assert(out@ =~= bytes@);
    Some(out)
}

/// Seals a plaintext under a key and a nonce that the caller has chosen.
///
/// The caller answers for the nonce: it must not have sealed anything else
/// under this key. Use [`seal`] or a `Sealer` unless the nonce comes from
/// a scheme that guarantees this.
///
/// Succeeds exactly on sealable lengths; the envelope is then a sealing of
/// the plaintext under the given nonce. Anything longer is refused as an
/// `EncryptionError`.
pub fn seal_with_nonce(
    key: &SharedSecret,
    nonce: [u8; 12],
    plaintext: &[u8],
    associated_data: Option<&[u8]>,
) -> (res: Result<EncryptedMessage, CryptoError>)
    ensures
        res is Ok <==> sealable(plaintext@, optional_slice_view(associated_data)),
        res matches Ok(envelope) ==> envelope@.nonce == nonce@ && envelope@.is_sealing_of(
            key@,
            plaintext@,
            optional_slice_view(associated_data),
        ),
        res matches Err(e) ==> e.kind() == ErrorKind::Encryption,
{
    let no_data: [u8; 0] = [];
    assert(no_data@ =~= Seq::<u8>::empty());
    let bound: &[u8] = match associated_data {
        Some(data) => data,
        None => no_data.as_slice(),
    };
    assert(bound@ == associated_bytes(optional_slice_view(associated_data)));
    if !lengths_sealable(plaintext.len(), bound.len()) {
        return Err(
            CryptoError::new(ErrorKind::Encryption, "the message is too long to be sealed"),
        );
    }
    match aead_encrypt(key.expose(), &nonce, bound, plaintext) {
        Some(ciphertext) => {
            let kept: Option<Vec<u8>> = match associated_data {
                Some(data) => Some(to_vec(data)),
                None => None,
            };
            Ok(EncryptedMessage { nonce: to_vec(nonce.as_slice()), ciphertext, associated_data: kept })
        },
        None => Err(CryptoError::new(ErrorKind::Encryption, "the cipher refused the message")),
    }
}

/// Seals a plaintext under a key, with a fresh random 12-byte nonce.
///
/// Lengths that are not sealable are refused as an `EncryptionError`,
/// before any entropy is drawn. Otherwise the only failure is a
/// `KeyGenerationError`, where the entropy source is unavailable, and an
/// envelope that comes back is a sealing of the plaintext.
pub fn seal(key: &SharedSecret, plaintext: &[u8], associated_data: Option<&[u8]>) -> (res: Result<
    EncryptedMessage,
    CryptoError,
>)
    ensures
        res matches Ok(envelope) ==> envelope@.is_sealing_of(
            key@,
            plaintext@,
            optional_slice_view(associated_data),
        ),
        !sealable(plaintext@, optional_slice_view(associated_data)) ==> (res matches Err(e)
            && e.kind() == ErrorKind::Encryption),
        sealable(plaintext@, optional_slice_view(associated_data)) ==> (res matches Err(e)
            ==> e.kind() == ErrorKind::KeyGeneration),
{
    let bound_len = match associated_data {
        Some(data) => data.len(),
        None => 0,
    };
    if !lengths_sealable(plaintext.len(), bound_len) {
        return Err(
            CryptoError::new(ErrorKind::Encryption, "the message is too long to be sealed"),
        );
    }
    match os_random::<12>() {
        Some(nonce) => seal_with_nonce(key, nonce, plaintext, associated_data),
        None => Err(
            CryptoError::new(ErrorKind::KeyGeneration, "the entropy source is unavailable"),
        ),
    }
}

/// Opens an envelope under a key, with the nonce and the associated data
/// that the envelope carries.
///
/// Returns the plaintext exactly where the cipher authenticates the
/// envelope. A failure of authentication is a `DecryptionError`, and no
/// part of a plaintext is returned with it.
pub fn open(key: &SharedSecret, envelope: &EncryptedMessage) -> (res: Result<Vec<u8>, CryptoError>)
    ensures
        is_outcome(res, open_outcome(key@, envelope@)),
        res matches Ok(plaintext) ==> plaintext@.len() + TAG_LEN == envelope@.ciphertext.len(),
{
    let nonce = match copy_nonce(envelope.nonce.as_slice()) {
        Some(array) => array,
        None => {
            return Err(
                CryptoError::new(ErrorKind::InvalidMessageFormat, "a nonce is 12 bytes"),
            );
        },
    };
    let no_data: [u8; 0] = [];
    assert(no_data@ =~= Seq::<u8>::empty());
    let bound: &[u8] = match &envelope.associated_data {
        Some(data) => data.as_slice(),
        None => no_data.as_slice(),
    };
    match aead_decrypt(key.expose(), &nonce, bound, envelope.ciphertext.as_slice()) {
        Some(plaintext) => Ok(plaintext),
        None => Err(CryptoError::new(ErrorKind::Decryption, "the message did not authenticate")),
    }
}

/// Opens an envelope under a key, for a receiver that knows which
/// associated data the message must carry.
///
/// An envelope that carries other associated data, or none where some is
/// expected, is refused as a `DecryptionError` whatever its tag says.
pub fn open_expecting(
    key: &SharedSecret,
    envelope: &EncryptedMessage,
    expected: Option<&[u8]>,
) -> (res: Result<Vec<u8>, CryptoError>)
    ensures
        is_outcome(res, open_outcome_expecting(key@, envelope@, optional_slice_view(expected))),
        res matches Ok(plaintext) ==> plaintext@.len() + TAG_LEN == envelope@.ciphertext.len(),
{
    if envelope.nonce.len() != NONCE_LEN {
        return Err(CryptoError::new(ErrorKind::InvalidMessageFormat, "a nonce is 12 bytes"));
    }
    if !optional_bytes_equal(envelope.associated_data(), expected) {
        return Err(
            CryptoError::new(
                ErrorKind::Decryption,
                "the message does not carry the expected associated data",
            ),
        );
    }
    open(key, envelope)
}

/// Opening inverts sealing: an envelope that is a sealing of a plaintext
/// under a key, with any associated data or none, opens under that key to
/// exactly that plaintext.
pub proof fn law_open_inverts_seal(
    key: Seq<u8>,
    plaintext: Seq<u8>,
    associated_data: Option<Seq<u8>>,
    envelope: EnvelopeView,
)
    requires
        envelope.is_sealing_of(key, plaintext, associated_data),
    ensures
        open_outcome(key, envelope) == Ok::<Seq<u8>, ErrorKind>(plaintext),
        open_outcome_expecting(key, envelope, associated_data) == Ok::<Seq<u8>, ErrorKind>(
            plaintext,
        ),
{
}

/// A receiver that expects other associated data than the sender supplied
/// does not get the plaintext: opening fails as a decryption failure.
pub proof fn law_other_associated_data_fails(
    key: Seq<u8>,
    plaintext: Seq<u8>,
    sealed_with: Option<Seq<u8>>,
    expected: Option<Seq<u8>>,
    envelope: EnvelopeView,
)
    requires
        envelope.is_sealing_of(key, plaintext, sealed_with),
        expected != sealed_with,
    ensures
        open_outcome_expecting(key, envelope, expected) == Err::<Seq<u8>, ErrorKind>(
            ErrorKind::Decryption,
        ),
{
}

/// Whatever was done to an envelope whose nonce is still 12 bytes, opening
/// it either returns the plaintext that the cipher authenticates for
/// exactly these bytes, or fails as a decryption failure.
pub proof fn law_open_is_all_or_nothing(key: Seq<u8>, envelope: EnvelopeView)
    requires
        envelope.nonce.len() == NONCE_LEN,
    ensures
        match open_outcome(key, envelope) {
            Ok(plaintext) => aes256_gcm_decrypted(
                key,
                envelope.nonce,
                associated_bytes(envelope.associated_data),
                envelope.ciphertext,
            ) == Some(plaintext),
            Err(kind) => kind == ErrorKind::Decryption,
        },
{
}

} // verus!
