//! Reading a Chromium login store row by row.
//!
//! A store never fails as a whole: every fetched row yields exactly one entry
//! — a placeholder with no secret when its blob will not decrypt — and each
//! failing row appends exactly one error naming the row's origin.

use vstd::prelude::*;
use vstd::string::StringExecFns;
use crate::cipher::BlobCipher;
use crate::cipher::UnwrapOutcome;
use crate::cipher::UnwrapOutcomeView;
use crate::cipher::spec_decrypt;

verus! {

/// One row fetched from a Chromium logins table.
pub struct EncryptedRecord {
    /// The site the credential belongs to.
    pub origin: String,
    /// The stored account name.
    pub username: String,
    /// The raw secret blob, AEAD envelope or legacy.
    pub raw: Vec<u8>,
}

/// Spec-level image of an [`EncryptedRecord`].
#[verifier::ext_equal]
pub struct RecordView {
    pub origin: Seq<char>,
    pub username: Seq<char>,
    pub raw: Seq<u8>,
}

impl View for EncryptedRecord {
    type V = RecordView;

    open spec fn view(&self) -> RecordView {
        RecordView { origin: self.origin@, username: self.username@, raw: self.raw@ }
    }
}

/// The outcome of one record: the credential with its secret, or a
/// placeholder with none when decryption failed or the secret is absent.
pub struct DecryptedEntry {
    /// The site the credential belongs to.
    pub origin: String,
    /// The stored account name.
    pub username: String,
    /// The decrypted secret; `None` on failure or a legitimately empty secret.
    pub secret: Option<String>,
}

/// Spec-level image of a [`DecryptedEntry`].
#[verifier::ext_equal]
pub struct EntryView {
    pub origin: Seq<char>,
    pub username: Seq<char>,
    pub secret: Option<Seq<char>>,
}

impl View for DecryptedEntry {
    type V = EntryView;

    open spec fn view(&self) -> EntryView {
        EntryView {
            origin: self.origin@,
            username: self.username@,
            secret: match self.secret {
                Some(ref s) => Some(s@),
                None => None,
            },
        }
    }
}

/// Which decryption scheme a record's blob selects.
#[derive(Clone, Copy, Debug, PartialEq, Eq, Structural)]
pub enum SchemeTag {
    /// An AEAD envelope under the profile master key.
    Aead,
    /// A bare blob for the platform unwrap service.
    Legacy,
}

impl EncryptedRecord {
    /// Which scheme this record's blob selects.
    pub fn scheme_tag(&self) -> (r: SchemeTag)
        ensures
            r == if crate::cipher::spec_aead_tagged(self.raw@) {
                SchemeTag::Aead
            } else {
                SchemeTag::Legacy
            },
    {
        if crate::cipher::aead_tagged(self.raw.as_slice()) {
            SchemeTag::Aead
        } else {
            SchemeTag::Legacy
        }
    }
}

/// The views of a sequence of records.
pub open spec fn records_view(rows: Seq<EncryptedRecord>) -> Seq<RecordView> {
    rows.map_values(|r: EncryptedRecord| r@)
}

/// The views of a sequence of entries.
pub open spec fn entries_view(es: Seq<DecryptedEntry>) -> Seq<EntryView> {
    es.map_values(|e: DecryptedEntry| e@)
}

/// The views of a sequence of strings.
pub open spec fn strings_view(ss: Seq<String>) -> Seq<Seq<char>> {
    ss.map_values(|s: String| s@)
}

/// The views of a sequence of unwrap outcomes.
pub open spec fn outcomes_view(os: Seq<UnwrapOutcome>) -> Seq<UnwrapOutcomeView> {
    os.map_values(|o: UnwrapOutcome| o@)
}

/// The master key as seen in specifications.
pub open spec fn master_key_view(key: Option<&Vec<u8>>) -> Option<Seq<u8>> {
    match key {
        Some(k) => Some(k@),
        None => None,
    }
}

/// Whether this record's blob fails to decrypt under this key and platform
/// outcome.
pub open spec fn spec_row_fails(
    rec: RecordView,
    key: Option<Seq<u8>>,
    o: UnwrapOutcomeView,
) -> bool {
    spec_decrypt(rec.raw, key, o) is Err
}

/// The entry one record yields: its secret on success, a placeholder on
/// failure.
pub open spec fn spec_row_entry(
    rec: RecordView,
    key: Option<Seq<u8>>,
    o: UnwrapOutcomeView,
) -> EntryView {
    match spec_decrypt(rec.raw, key, o) {
        Ok(s) => EntryView { origin: rec.origin, username: rec.username, secret: s },
        Err(_) => EntryView { origin: rec.origin, username: rec.username, secret: None },
    }
}

/// The error line a failing record appends, naming the record's origin.
pub open spec fn spec_row_error(origin: Seq<char>) -> Seq<char> {
    "Decrypt failure for "@ + origin
}

/// Builds the error line for one failing record.
pub fn row_error_message(origin: &str) -> (r: String)
    ensures
        r@ == spec_row_error(origin@),
{
    let mut m = "Decrypt failure for ".to_owned();
    m.append(origin);
    m
}

/// Entries and errors after reading the first `i` records: one entry per
/// record, plus one error line per failing record, in row order.
pub open spec fn spec_read_rows(
    rows: Seq<RecordView>,
    key: Option<Seq<u8>>,
    os: Seq<UnwrapOutcomeView>,
    i: int,
) -> (Seq<EntryView>, Seq<Seq<char>>)
    decreases i,
{
    if i <= 0 {
        (Seq::empty(), Seq::empty())
    } else {
        let prior = spec_read_rows(rows, key, os, i - 1);
        let entry = spec_row_entry(rows[i - 1], key, os[i - 1]);
        if spec_row_fails(rows[i - 1], key, os[i - 1]) {
            (prior.0.push(entry), prior.1.push(spec_row_error(rows[i - 1].origin)))
        } else {
            (prior.0.push(entry), prior.1)
        }
    }
}

/// How many of the first `i` records fail to decrypt.
pub open spec fn spec_failure_count(
    rows: Seq<RecordView>,
    key: Option<Seq<u8>>,
    os: Seq<UnwrapOutcomeView>,
    i: int,
) -> int
    decreases i,
{
    if i <= 0 {
        0
    } else {
        spec_failure_count(rows, key, os, i - 1) + if spec_row_fails(rows[i - 1], key, os[i - 1]) {
            1int
        } else {
            0int
        }
    }
}

/// Reading records drops none and errs at most once per record: it yields one
/// entry per record, the entry each record's blob decrypts to, and exactly one
/// error line per failing record.
pub proof fn lemma_read_rows_shape(
    rows: Seq<RecordView>,
    key: Option<Seq<u8>>,
    os: Seq<UnwrapOutcomeView>,
    i: int,
)
    requires
        0 <= i <= rows.len(),
    ensures
        spec_read_rows(rows, key, os, i).0.len() == i,
        forall|j: int|
            0 <= j < i ==> spec_read_rows(rows, key, os, i).0[j] == spec_row_entry(
                rows[j],
                key,
                os[j],
            ),
        spec_read_rows(rows, key, os, i).1.len() == spec_failure_count(rows, key, os, i),
        spec_failure_count(rows, key, os, i) <= i,
    decreases i,
{
    if i > 0 {
        lemma_read_rows_shape(rows, key, os, i - 1);
    }
}

/// Copies/opens a Chromium login database and decrypts its rows, tolerating
/// per-row failures.
pub struct ChromiumStoreReader;

impl ChromiumStoreReader {
    /// Decrypts every fetched record under the store's master key.
    /// `outcomes[i]` is what the platform unwrap service said about record
    /// `i`'s blob; it matters only for records without an AEAD envelope tag.
    /// No record is dropped and none aborts the batch: each yields one entry,
    /// and each failure appends one error line naming the record's origin.
    pub fn read_rows(
        rows: &Vec<EncryptedRecord>,
        master_key: Option<&Vec<u8>>,
        outcomes: &Vec<UnwrapOutcome>,
    ) -> (r: (Vec<DecryptedEntry>, Vec<String>))
        requires
            outcomes@.len() == rows@.len(),
        ensures
            entries_view(r.0@) == spec_read_rows(
                records_view(rows@),
                master_key_view(master_key),
                outcomes_view(outcomes@),
                rows@.len() as int,
            ).0,
            strings_view(r.1@) == spec_read_rows(
                records_view(rows@),
                master_key_view(master_key),
                outcomes_view(outcomes@),
                rows@.len() as int,
            ).1,
            r.0@.len() == rows@.len(),
    {
        let ghost rv = records_view(rows@);
        let ghost kv = master_key_view(master_key);
        let ghost ov = outcomes_view(outcomes@);
        let mut entries: Vec<DecryptedEntry> = Vec::new();
        let mut errors: Vec<String> = Vec::new();
        let mut i: usize = 0;
        proof {
            assert(entries_view(entries@) =~= spec_read_rows(rv, kv, ov, 0).0);
            assert(strings_view(errors@) =~= spec_read_rows(rv, kv, ov, 0).1);
        }
        while i < rows.len()
            invariant
                i <= rows@.len(),
                outcomes@.len() == rows@.len(),
                rv == records_view(rows@),
                kv == master_key_view(master_key),
                ov == outcomes_view(outcomes@),
                entries@.len() == i,
                entries_view(entries@) == spec_read_rows(rv, kv, ov, i as int).0,
                strings_view(errors@) == spec_read_rows(rv, kv, ov, i as int).1,
            decreases rows@.len() - i,
        {
            let rec = &rows[i];
            let key_ref: Option<&[u8]> = match master_key {
                Some(k) => Some(k.as_slice()),
                None => None,
            };
            let ghost old_entries = entries@;
            let ghost old_errors = errors@;
            match BlobCipher::decrypt(rec.raw.as_slice(), key_ref, &outcomes[i]) {
                Ok(s) => {
                    entries.push(
                        DecryptedEntry {
                            origin: rec.origin.clone(),
                            username: rec.username.clone(),
                            secret: s,
                        },
                    );
                },
                Err(_) => {
                    entries.push(
                        DecryptedEntry {
                            origin: rec.origin.clone(),
                            username: rec.username.clone(),
                            secret: None,
                        },
                    );
                    errors.push(row_error_message(rec.origin.as_str()));
                },
            }
            proof {
                assert(rv[i as int] == rows@[i as int]@);
                assert(ov[i as int] == outcomes@[i as int]@);
                assert(entries_view(entries@) =~= entries_view(old_entries).push(
                    entries@[entries@.len() - 1]@,
                ));
                assert(entries_view(entries@) =~= spec_read_rows(rv, kv, ov, i + 1).0);
                if errors@.len() > old_errors.len() {
                    assert(strings_view(errors@) =~= strings_view(old_errors).push(
                        errors@[errors@.len() - 1]@,
                    ));
                }
                assert(strings_view(errors@) =~= spec_read_rows(rv, kv, ov, i + 1).1);
            }
            i = i + 1;
        }
        (entries, errors)
    }
}

/// In a batch where exactly one record is corrupted, reading still yields one
/// entry per record — a placeholder for the corrupted one — and exactly one
/// error line, naming that record's origin.
pub proof fn lemma_single_corrupt_row(
    rows: Seq<RecordView>,
    key: Option<Seq<u8>>,
    os: Seq<UnwrapOutcomeView>,
    k: int,
)
    requires
        0 <= k < rows.len(),
        spec_row_fails(rows[k], key, os[k]),
        forall|j: int| 0 <= j < rows.len() && j != k ==> !spec_row_fails(rows[j], key, os[j]),
    ensures
        spec_read_rows(rows, key, os, rows.len() as int).0.len() == rows.len(),
        spec_read_rows(rows, key, os, rows.len() as int).0[k].secret is None,
        spec_read_rows(rows, key, os, rows.len() as int).1 == seq![spec_row_error(rows[k].origin)],
{
    lemma_read_rows_shape(rows, key, os, rows.len() as int);
    lemma_single_corrupt_prefix(rows, key, os, k, rows.len() as int);
}

proof fn lemma_single_corrupt_prefix(
    rows: Seq<RecordView>,
    key: Option<Seq<u8>>,
    os: Seq<UnwrapOutcomeView>,
    k: int,
    i: int,
)
    requires
        0 <= k < rows.len(),
        0 <= i <= rows.len(),
        spec_row_fails(rows[k], key, os[k]),
        forall|j: int| 0 <= j < rows.len() && j != k ==> !spec_row_fails(rows[j], key, os[j]),
    ensures
        spec_read_rows(rows, key, os, i).1 == if i <= k {
            Seq::<Seq<char>>::empty()
        } else {
            seq![spec_row_error(rows[k].origin)]
        },
    decreases i,
{
    if i > 0 {
        lemma_single_corrupt_prefix(rows, key, os, k, i - 1);
        if i - 1 == k {
            assert(spec_read_rows(rows, key, os, i).1 =~= seq![spec_row_error(rows[k].origin)]);
        }
    } else {
        assert(spec_read_rows(rows, key, os, 0).1 =~= Seq::<Seq<char>>::empty());
    }
}

} // verus!
