//! Master-key resolution for Chromium-family credential stores.
//!
//! Each Chromium profile keeps a wrapped AES key in a `Local State` JSON file
//! under `os_crypt.encrypted_key`: base64 text that, once decoded and stripped
//! of a leading `DPAPI` marker, the platform secret-unwrap service turns into
//! the 32-byte master key.

use vstd::prelude::*;
use base64::Engine;
use vstd::string::StrSliceExecFns;
use vstd::string::StringExecFns;
use crate::cipher::UnwrapOutcome;

verus! {

/// Failure cases of master-key resolution; either aborts resolution for the
/// store, while an absent file or field merely yields no key.
#[derive(Clone, Copy, Debug, PartialEq, Eq, Structural)]
pub enum ResolveError {
    /// The `Local State` text is not valid JSON.
    StateNotJson,
    /// The `os_crypt.encrypted_key` field is not valid base64.
    KeyNotBase64,
}

/// What looking up `os_crypt.encrypted_key` in a `Local State` text yields:
/// `None` when the text is not JSON, `Some(None)` when the field is absent or
/// not a string, and the field's text otherwise. A function of the text alone.
pub uninterp spec fn local_state_key_field(text: Seq<char>) -> Option<Option<Seq<char>>>;

/// Relies on serde_json::from_str and serde_json::Value::{get, as_str}:
/// parsing is a function of the text alone; the lookup yields the string under
/// `os_crypt.encrypted_key` exactly when the parsed document has one there.
#[verifier::external_body]
fn read_encrypted_key_field(text: &str) -> (r: Option<Option<String>>)
    ensures
        match r {
            None => local_state_key_field(text@) is None,
            Some(None) => local_state_key_field(text@) == Some(None::<Seq<char>>),
            Some(Some(s)) => local_state_key_field(text@) == Some(Some(s@)),
        },
{
    let doc: serde_json::Value = match serde_json::from_str(text) {
        Ok(v) => v,
        Err(_) => return None,
    };
    Some(
        doc.get("os_crypt")
            .and_then(|v| v.get("encrypted_key"))
            .and_then(|v| v.as_str())
            .map(|s| s.to_string()),
    )
}

/// What base64 decoding with the standard alphabet yields for a text: `None`
/// exactly on invalid base64. A function of the text alone.
pub uninterp spec fn base64_standard(text: Seq<char>) -> Option<Seq<u8>>;

/// Relies on the STANDARD engine of the base64 crate: decoding is a function
/// of the text alone and fails exactly on text that is not valid base64.
#[verifier::external_body]
pub(crate) fn base64_decode_standard(text: &str) -> (r: Option<Vec<u8>>)
    ensures
        match r {
            None => base64_standard(text@) is None,
            Some(b) => base64_standard(text@) == Some(b@),
        },
{
    base64::engine::general_purpose::STANDARD.decode(text).ok()
}

/// The five-byte ASCII marker `DPAPI` that Chromium prepends to the wrapped
/// key before storing it.
pub open spec fn spec_dpapi_prefixed(b: Seq<u8>) -> bool {
    &&& b.len() >= 5
    &&& b[0] == 0x44u8
    &&& b[1] == 0x50u8
    &&& b[2] == 0x41u8
    &&& b[3] == 0x50u8
    &&& b[4] == 0x49u8
}

/// Drops the leading `DPAPI` marker if the bytes carry one.
pub fn strip_dpapi_prefix(b: Vec<u8>) -> (r: Vec<u8>)
    ensures
        r@ == if spec_dpapi_prefixed(b@) {
            b@.subrange(5, b@.len() as int)
        } else {
            b@
        },
{
    if b.len() >= 5 && b[0] == 0x44u8 && b[1] == 0x50u8 && b[2] == 0x41u8 && b[3] == 0x50u8 && b[4]
        == 0x49u8 {
        let mut head = b;
        let tail = head.split_off(5);
        tail
    } else {
        b
    }
}

/// The wrapped key bytes that a `Local State` text yields, ready for the
/// platform unwrap service: errors propagate, an absent field is no key.
pub open spec fn spec_key_blob(text: Seq<char>) -> Result<Option<Seq<u8>>, ResolveError> {
    match local_state_key_field(text) {
        None => Err(ResolveError::StateNotJson),
        Some(None) => Ok(None),
        Some(Some(b64)) => match base64_standard(b64) {
            None => Err(ResolveError::KeyNotBase64),
            Some(bytes) => Ok(
                Some(
                    if spec_dpapi_prefixed(bytes) {
                        bytes.subrange(5, bytes.len() as int)
                    } else {
                        bytes
                    },
                ),
            ),
        },
    }
}

/// True when the executable key-blob result is the given spec-level result.
pub open spec fn key_blob_result_is(
    r: Result<Option<Vec<u8>>, ResolveError>,
    s: Result<Option<Seq<u8>>, ResolveError>,
) -> bool {
    match r {
        Ok(Some(b)) => s == Ok::<Option<Seq<u8>>, ResolveError>(Some(b@)),
        Ok(None) => s == Ok::<Option<Seq<u8>>, ResolveError>(None),
        Err(e) => s == Err::<Option<Seq<u8>>, ResolveError>(e),
    }
}

/// The directory prefix of a path: the characters before its last separator,
/// if it has one.
pub open spec fn spec_parent_dir(s: Seq<char>) -> Option<Seq<char>>
    decreases s.len(),
{
    if s.len() == 0 {
        None
    } else if s[s.len() - 1] == '\\' || s[s.len() - 1] == '/' {
        Some(s.subrange(0, s.len() - 1))
    } else {
        spec_parent_dir(s.subrange(0, s.len() - 1))
    }
}

/// Cuts a path at its last separator, yielding the parent directory.
pub fn parent_dir(s: &str) -> (r: Option<String>)
    ensures
        r.deep_view() == spec_parent_dir(s@),
{
    let n = s.unicode_len();
    let mut i: usize = n;
    proof {
        assert(s@.subrange(0, n as int) =~= s@);
    }
    while i > 0
        invariant
            i <= n,
            n == s@.len(),
            spec_parent_dir(s@) == spec_parent_dir(s@.subrange(0, i as int)),
        decreases i,
    {
        let c = s.get_char(i - 1);
        if c == '\\' || c == '/' {
            let p = s.substring_char(0, i - 1).to_owned();
            proof {
                assert(s@.subrange(0, i as int).subrange(0, i - 1) =~= s@.subrange(0, i - 1));
            }
            return Some(p);
        }
        proof {
            assert(s@.subrange(0, i as int).subrange(0, i - 1) =~= s@.subrange(0, i - 1));
        }
        i = i - 1;
    }
    proof {
        assert(s@.subrange(0, 0) =~= Seq::<char>::empty());
    }
    None
}

/// The sibling `Local State` paths beside up to `k` ancestors of a store path,
/// nearest parent first.
pub open spec fn spec_local_state_candidates(s: Seq<char>, k: nat) -> Seq<Seq<char>>
    decreases k,
{
    if k == 0 {
        Seq::empty()
    } else {
        match spec_parent_dir(s) {
            None => Seq::empty(),
            Some(p) => seq![p + "\\Local State"@] + spec_local_state_candidates(
                p,
                (k - 1) as nat,
            ),
        }
    }
}

fn local_state_candidates_rec(cur: &str, k: usize) -> (r: Vec<String>)
    ensures
        r.deep_view() == spec_local_state_candidates(cur@, k as nat),
    decreases k,
{
    if k == 0 {
        let empty: Vec<String> = Vec::new();
        proof {
            assert(empty.deep_view() =~= spec_local_state_candidates(cur@, 0));
        }
        return empty;
    }
    match parent_dir(cur) {
        None => {
            let empty: Vec<String> = Vec::new();
            proof {
                assert(empty.deep_view() =~= spec_local_state_candidates(cur@, k as nat));
            }
            empty
        },
        Some(p) => {
            let mut rest = local_state_candidates_rec(p.as_str(), k - 1);
            let mut out: Vec<String> = Vec::new();
            let cand = p.concat("\\Local State");
            out.push(cand);
            out.append(&mut rest);
            proof {
                assert(out.deep_view() =~= spec_local_state_candidates(cur@, k as nat));
            }
            out
        },
    }
}

/// Locates and unwraps the per-profile AES key that guards a Chromium store.
pub struct MasterKeyResolver;

impl MasterKeyResolver {
    /// Where a store's `Local State` file may sit: beside each of up to five
    /// ancestor directories of the store path, nearest first. The caller
    /// probes the filesystem for the first that exists.
    pub fn local_state_candidates(store_path: &str) -> (r: Vec<String>)
        ensures
            r.deep_view() == spec_local_state_candidates(store_path@, 5),
    {
        local_state_candidates_rec(store_path, 5)
    }

    /// Reads the wrapped key bytes out of a `Local State` text: JSON and
    /// base64 faults are errors, an absent field is legitimately no key, and a
    /// leading `DPAPI` marker is stripped.
    pub fn key_blob_from_text(text: &str) -> (r: Result<Option<Vec<u8>>, ResolveError>)
        ensures
            key_blob_result_is(r, spec_key_blob(text@)),
    {
        let field = match read_encrypted_key_field(text) {
            None => return Err(ResolveError::StateNotJson),
            Some(f) => f,
        };
        let b64 = match field {
            None => return Ok(None),
            Some(s) => s,
        };
        let bytes = match base64_decode_standard(b64.as_str()) {
            None => return Err(ResolveError::KeyNotBase64),
            Some(b) => b,
        };
        Ok(Some(strip_dpapi_prefix(bytes)))
    }

    /// Turns the platform unwrap service's verdict on the wrapped key into the
    /// master key. A master key is exactly 32 raw bytes — the AES-256 key size
    /// — so only an unwrap of that size yields one. Resolution fails open on
    /// everything else: nothing, a fault — which may equally mean a mismatched
    /// user context as a genuinely absent key — or bytes of the wrong size all
    /// resolve to no key, the caller records the condition, and every record
    /// of the store falls back to legacy decryption.
    pub fn master_key_from_unwrap(outcome: UnwrapOutcome) -> (r: Option<Vec<u8>>)
        ensures
            match outcome@ {
                crate::cipher::UnwrapOutcomeView::Plain(b) => if b.len() == 32 {
                    r matches Some(k) && k@ == b
                } else {
                    r is None
                },
                crate::cipher::UnwrapOutcomeView::Refused => r is None,
                crate::cipher::UnwrapOutcomeView::Faulted => r is None,
            },
            r matches Some(k) ==> k@.len() == 32,
    {
        match outcome {
            UnwrapOutcome::Plain(b) => if b.len() == 32 {
                Some(b)
            } else {
                None
            },
            UnwrapOutcome::Refused => None,
            UnwrapOutcome::Faulted => None,
        }
    }
}

} // verus!
