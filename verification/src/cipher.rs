//! Decryption primitives for browser credential envelopes.
//!
//! Chromium stores each secret either as an AEAD envelope — a three-byte
//! `v10`/`v11` marker, a 96-bit nonce, and ciphertext with a trailing
//! authentication tag, sealed under a per-profile master key — or as a bare
//! blob protected by the platform's own secret-unwrap service.

use aes_gcm::aead::Aead;
use aes_gcm::KeyInit;
use vstd::prelude::*;

verus! {

/// Failure cases of envelope decryption.
#[derive(Clone, Copy, Debug, PartialEq, Eq, Structural)]
pub enum DecryptError {
    /// An AEAD envelope was found but no master key is available.
    KeyMissing,
    /// The master key does not have the 32 bytes AES-256 requires.
    KeyLengthInvalid,
    /// The authentication tag did not match: wrong key or tampered data.
    AuthenticationFailed,
    /// The platform secret-unwrap service failed outright.
    PlatformUnwrapFailed,
}

/// What the platform secret-unwrap service said about one blob. The service is
/// bound to the running user's context, so the caller performs the call and
/// hands the outcome in.
#[derive(Debug)]
pub enum UnwrapOutcome {
    /// The service returned these bytes (possibly none).
    Plain(Vec<u8>),
    /// The service declined to unwrap the blob.
    Refused,
    /// The call itself failed hard.
    Faulted,
}

/// Spec-level image of an [`UnwrapOutcome`].
pub enum UnwrapOutcomeView {
    Plain(Seq<u8>),
    Refused,
    Faulted,
}

impl View for UnwrapOutcome {
    type V = UnwrapOutcomeView;

    open spec fn view(&self) -> UnwrapOutcomeView {
        match self {
            UnwrapOutcome::Plain(b) => UnwrapOutcomeView::Plain(b@),
            UnwrapOutcome::Refused => UnwrapOutcomeView::Refused,
            UnwrapOutcome::Faulted => UnwrapOutcomeView::Faulted,
        }
    }
}

/// The three-byte envelope markers (`v10`, `v11`) that select authenticated
/// decryption with a profile master key; anything else is a legacy blob for
/// the platform unwrap service.
pub open spec fn spec_aead_tagged(raw: Seq<u8>) -> bool {
    &&& raw.len() >= 3
    &&& raw[0] == 0x76u8
    &&& raw[1] == 0x31u8
    &&& (raw[2] == 0x30u8 || raw[2] == 0x31u8)
}

/// True when a byte blob begins with the `v10` or `v11` envelope marker.
pub fn aead_tagged(raw: &[u8]) -> (r: bool)
    ensures
        r == spec_aead_tagged(raw@),
{
    raw.len() >= 3 && raw[0] == 0x76u8 && raw[1] == 0x31u8 && (raw[2] == 0x30u8 || raw[2]
        == 0x31u8)
}

/// What AES-256-GCM decryption returns for a key, nonce and
/// ciphertext-plus-tag; `None` when authentication fails. The outcome is a
/// function of the three inputs alone.
pub uninterp spec fn aead_open(key: Seq<u8>, nonce: Seq<u8>, ct: Seq<u8>) -> Option<Seq<u8>>;

/// Relies on aes_gcm::Aes256Gcm through the aead::Aead trait: decryption is
/// deterministic in key, nonce and ciphertext, returns the plaintext on
/// success and an error exactly when the trailing tag does not authenticate.
#[verifier::external_body]
fn aes256_gcm_open(key: &[u8], nonce: &[u8], ct: &[u8]) -> (r: Option<Vec<u8>>)
    requires
        key@.len() == 32,
        nonce@.len() == 12,
    ensures
        r matches Some(p) ==> aead_open(key@, nonce@, ct@) == Some(p@),
        r is None ==> aead_open(key@, nonce@, ct@) is None,
{
    let cipher = match aes_gcm::Aes256Gcm::new_from_slice(key) {
        Ok(c) => c,
        Err(_) => return None,
    };
    let nonce = match aes_gcm::Nonce::try_from(nonce) {
        Ok(n) => n,
        Err(_) => return None,
    };
    cipher.decrypt(&nonce, ct).ok()
}

/// The characters that lossy UTF-8 decoding yields for a byte sequence: a
/// function of the bytes alone.
pub uninterp spec fn utf8_lossy(bytes: Seq<u8>) -> Seq<char>;

/// Relies on String::from_utf8_lossy: the decoding depends on the bytes alone,
/// and an empty input yields an empty string.
#[verifier::external_body]
pub(crate) fn bytes_to_string_lossy(bytes: &[u8]) -> (r: String)
    ensures
        r@ == utf8_lossy(bytes@),
        bytes@.len() == 0 ==> r@.len() == 0,
{
    String::from_utf8_lossy(bytes).into_owned()
}

/// Result of decrypting an AEAD-tagged envelope: too short to carry a nonce
/// means an absent secret, next the master key is checked, and last the envelope
/// is opened and the plaintext decoded.
pub open spec fn spec_decrypt_tagged(raw: Seq<u8>, key: Option<Seq<u8>>) -> Result<
    Option<Seq<char>>,
    DecryptError,
> {
    if raw.len() < 15 {
        Ok(None)
    } else if key is None {
        Err(DecryptError::KeyMissing)
    } else if key.unwrap().len() != 32 {
        Err(DecryptError::KeyLengthInvalid)
    } else {
        match aead_open(key.unwrap(), raw.subrange(3, 15), raw.subrange(15, raw.len() as int)) {
            Some(pt) => Ok(Some(utf8_lossy(pt))),
            None => Err(DecryptError::AuthenticationFailed),
        }
    }
}

/// Result of decrypting a legacy blob from the platform unwrap outcome: no
/// data is a legitimately absent secret, only a hard fault is an error.
pub open spec fn spec_decrypt_legacy(outcome: UnwrapOutcomeView) -> Result<
    Option<Seq<char>>,
    DecryptError,
> {
    match outcome {
        UnwrapOutcomeView::Plain(b) => if b.len() == 0 {
            Ok(None)
        } else {
            Ok(Some(utf8_lossy(b)))
        },
        UnwrapOutcomeView::Refused => Ok(None),
        UnwrapOutcomeView::Faulted => Err(DecryptError::PlatformUnwrapFailed),
    }
}

/// Result of decrypting any raw secret blob.
pub open spec fn spec_decrypt(raw: Seq<u8>, key: Option<Seq<u8>>, outcome: UnwrapOutcomeView) -> Result<
    Option<Seq<char>>,
    DecryptError,
> {
    if spec_aead_tagged(raw) {
        spec_decrypt_tagged(raw, key)
    } else {
        spec_decrypt_legacy(outcome)
    }
}

/// True when the executable decryption result is the given spec-level result.
pub open spec fn decrypt_result_is(
    r: Result<Option<String>, DecryptError>,
    s: Result<Option<Seq<char>>, DecryptError>,
) -> bool {
    match r {
        Ok(Some(x)) => s == Ok::<Option<Seq<char>>, DecryptError>(Some(x@)),
        Ok(None) => s == Ok::<Option<Seq<char>>, DecryptError>(None),
        Err(e) => s == Err::<Option<Seq<char>>, DecryptError>(e),
    }
}

/// The master key as seen in specifications.
pub open spec fn key_view(key: Option<&[u8]>) -> Option<Seq<u8>> {
    match key {
        Some(k) => Some(k@),
        None => None,
    }
}

/// Pure decryption primitives for the browser ciphertext envelopes.
pub struct BlobCipher;

impl BlobCipher {
    /// Decrypts an AEAD-tagged envelope under the profile master key.
    pub fn decrypt_tagged(raw: &[u8], master_key: Option<&[u8]>) -> (r: Result<
        Option<String>,
        DecryptError,
    >)
        requires
            spec_aead_tagged(raw@),
        ensures
            decrypt_result_is(r, spec_decrypt_tagged(raw@, key_view(master_key))),
    {
        if raw.len() < 15 {
            return Ok(None);
        }
        let mk = match master_key {
            Some(k) => k,
            None => return Err(DecryptError::KeyMissing),
        };
        if mk.len() != 32 {
            return Err(DecryptError::KeyLengthInvalid);
        }
        let nonce = &raw[3..15];
        let ct = &raw[15..raw.len()];
        match aes256_gcm_open(mk, nonce, ct) {
            Some(pt) => Ok(Some(bytes_to_string_lossy(pt.as_slice()))),
            None => Err(DecryptError::AuthenticationFailed),
        }
    }

    /// Turns the platform unwrap service's verdict on a legacy blob into the
    /// decryption result: absent data is not an error, a hard fault is.
    pub fn decrypt_legacy(outcome: &UnwrapOutcome) -> (r: Result<Option<String>, DecryptError>)
        ensures
            decrypt_result_is(r, spec_decrypt_legacy(outcome@)),
    {
        match outcome {
            UnwrapOutcome::Plain(b) => if b.len() == 0 {
                Ok(None)
            } else {
                Ok(Some(bytes_to_string_lossy(b.as_slice())))
            },
            UnwrapOutcome::Refused => Ok(None),
            UnwrapOutcome::Faulted => Err(DecryptError::PlatformUnwrapFailed),
        }
    }

    /// Decrypts one raw secret blob. AEAD-tagged envelopes are opened under
    /// the master key; for anything else `outcome` — what the platform unwrap
    /// service said about this blob — decides.
    pub fn decrypt(raw: &[u8], master_key: Option<&[u8]>, outcome: &UnwrapOutcome) -> (r: Result<
        Option<String>,
        DecryptError,
    >)
        ensures
            decrypt_result_is(r, spec_decrypt(raw@, key_view(master_key), outcome@)),
    {
        if aead_tagged(raw) {
            Self::decrypt_tagged(raw, master_key)
        } else {
            Self::decrypt_legacy(outcome)
        }
    }
}

/// Decryption is a function of the blob, the key and the unwrap outcome:
/// repeated calls on equal inputs yield equal results.
pub proof fn lemma_decrypt_deterministic(
    raw1: Seq<u8>,
    key1: Option<Seq<u8>>,
    o1: UnwrapOutcomeView,
    raw2: Seq<u8>,
    key2: Option<Seq<u8>>,
    o2: UnwrapOutcomeView,
)
    requires
        raw1 == raw2,
        key1 == key2,
        o1 == o2,
    ensures
        spec_decrypt(raw1, key1, o1) == spec_decrypt(raw2, key2, o2),
{
}

/// On an AEAD-tagged blob the platform unwrap service plays no part: the
/// result depends on the blob and the key alone.
pub proof fn lemma_decrypt_tagged_ignores_platform(
    raw: Seq<u8>,
    key: Option<Seq<u8>>,
    o1: UnwrapOutcomeView,
    o2: UnwrapOutcomeView,
)
    requires
        spec_aead_tagged(raw),
    ensures
        spec_decrypt(raw, key, o1) == spec_decrypt(raw, key, o2),
{
}

/// An AEAD-tagged blob too short to carry its twelve-byte nonce decrypts to an
/// absent secret, never to an error, whether or not a key is at hand.
pub proof fn lemma_short_tagged_blob_is_absent(
    raw: Seq<u8>,
    key: Option<Seq<u8>>,
    o: UnwrapOutcomeView,
)
    requires
        spec_aead_tagged(raw),
        raw.len() < 15,
    ensures
        spec_decrypt(raw, key, o) == Ok::<Option<Seq<char>>, DecryptError>(None),
{
}

} // verus!
