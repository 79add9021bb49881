//! Decrypting Firefox logins through the Mozilla crypto library.
//!
//! The library is a foreign decrypt capability with three entry points —
//! initialize a profile, decrypt one secure item, shut the session down — that
//! only the caller can invoke. This module owns every decision: it parses
//! `logins.json`, decodes the base64 fields, dictates which call comes next,
//! folds each call's outcome into credentials and errors, and guarantees that
//! a completed session shut the library down exactly once, however the
//! individual entries fared.

use vstd::prelude::*;
use vstd::string::StringExecFns;
use crate::cipher::bytes_to_string_lossy;
use crate::cipher::utf8_lossy;
use crate::keys::base64_decode_standard;
use crate::keys::base64_standard;

verus! {

/// One entry of a Firefox `logins.json`: a plaintext hostname and two
/// base64-encoded encrypted fields.
pub struct LoginEntry {
    pub hostname: String,
    pub enc_user_b64: String,
    pub enc_pass_b64: String,
}

impl View for LoginEntry {
    type V = (Seq<char>, Seq<char>, Seq<char>);

    open spec fn view(&self) -> (Seq<char>, Seq<char>, Seq<char>) {
        (self.hostname@, self.enc_user_b64@, self.enc_pass_b64@)
    }
}

impl DeepView for LoginEntry {
    type V = (Seq<char>, Seq<char>, Seq<char>);

    open spec fn deep_view(&self) -> (Seq<char>, Seq<char>, Seq<char>) {
        self.view()
    }
}

/// The login entries a `logins.json` text carries: `None` when the text is not
/// JSON or has no `logins` array; otherwise, for each array element that has
/// `hostname`, `encryptedUsername` and `encryptedPassword` fields, the triple
/// of those fields, a non-string field reading as empty text. A function of
/// the text alone.
pub uninterp spec fn logins_fields(text: Seq<char>) -> Option<Seq<(Seq<char>, Seq<char>, Seq<char>)>>;

/// Relies on serde_json::from_str and serde_json::Value::{get, as_array,
/// as_str}: parsing is a function of the text alone; elements lacking one of
/// the three fields are skipped, and a non-string field reads as empty text.
#[verifier::external_body]
fn parse_logins_text(text: &str) -> (r: Option<Vec<LoginEntry>>)
    ensures
        r matches Some(es) ==> logins_fields(text@) == Some(es.deep_view()),
        r is None ==> logins_fields(text@) is None,
{
    let doc: serde_json::Value = serde_json::from_str(text).ok()?;
    let arr = doc.get("logins")?.as_array()?;
    let one = |i: &serde_json::Value| Some(LoginEntry {
        hostname: i.get("hostname")?.as_str().unwrap_or("").to_string(),
        enc_user_b64: i.get("encryptedUsername")?.as_str().unwrap_or("").to_string(),
        enc_pass_b64: i.get("encryptedPassword")?.as_str().unwrap_or("").to_string(),
    });
    Some(arr.iter().filter_map(one).collect())
}

/// A login entry with its two encrypted fields already base64-decoded;
/// `None` marks a field whose text was not valid base64.
pub struct PreparedEntry {
    pub hostname: String,
    pub user_blob: Option<Vec<u8>>,
    pub pass_blob: Option<Vec<u8>>,
}

/// Spec-level image of a [`PreparedEntry`].
#[verifier::ext_equal]
pub struct PreparedView {
    pub hostname: Seq<char>,
    pub user_blob: Option<Seq<u8>>,
    pub pass_blob: Option<Seq<u8>>,
}

impl View for PreparedEntry {
    type V = PreparedView;

    open spec fn view(&self) -> PreparedView {
        PreparedView {
            hostname: self.hostname@,
            user_blob: match self.user_blob {
                Some(ref b) => Some(b@),
                None => None,
            },
            pass_blob: match self.pass_blob {
                Some(ref b) => Some(b@),
                None => None,
            },
        }
    }
}

/// What preparing one parsed entry yields: the decoded fields.
pub open spec fn spec_prepared(e: (Seq<char>, Seq<char>, Seq<char>)) -> PreparedView {
    PreparedView { hostname: e.0, user_blob: base64_standard(e.1), pass_blob: base64_standard(e.2) }
}

/// One decrypted Firefox credential.
pub struct NssCredential {
    pub hostname: String,
    pub username: String,
    pub password: String,
}

/// Spec-level image of an [`NssCredential`].
#[verifier::ext_equal]
pub struct CredentialView {
    pub hostname: Seq<char>,
    pub username: Seq<char>,
    pub password: Seq<char>,
}

impl View for NssCredential {
    type V = CredentialView;

    open spec fn view(&self) -> CredentialView {
        CredentialView {
            hostname: self.hostname@,
            username: self.username@,
            password: self.password@,
        }
    }
}

/// What the caller should do next for a session.
pub enum NssRequest {
    /// Call the library's initialize entry point on this profile directory.
    Initialize(String),
    /// Call the decrypt entry point on each present field of the current
    /// entry; an absent field failed base64 decoding and gets no call.
    DecryptEntry { user: Option<Vec<u8>>, pass: Option<Vec<u8>> },
    /// Call the shutdown entry point.
    Shutdown,
    /// The session is complete.
    Finished,
}

/// How one decrypt call on one field went, as the caller reports it back.
pub enum FieldOutcome {
    /// The field never reached the library: its base64 text was invalid.
    BadEncoding,
    /// The decrypt entry point returned this nonzero status.
    CallFailed(i32),
    /// The decrypt entry point returned no data.
    EmptyOutput,
    /// The decrypted bytes.
    Plain(Vec<u8>),
}

/// Spec-level image of a [`FieldOutcome`].
pub enum FieldOutcomeView {
    BadEncoding,
    CallFailed(int),
    EmptyOutput,
    Plain(Seq<u8>),
}

impl View for FieldOutcome {
    type V = FieldOutcomeView;

    open spec fn view(&self) -> FieldOutcomeView {
        match self {
            FieldOutcome::BadEncoding => FieldOutcomeView::BadEncoding,
            FieldOutcome::CallFailed(c) => FieldOutcomeView::CallFailed(*c as int),
            FieldOutcome::EmptyOutput => FieldOutcomeView::EmptyOutput,
            FieldOutcome::Plain(b) => FieldOutcomeView::Plain(b@),
        }
    }
}

/// A short label for a field outcome, used in error lines.
pub open spec fn spec_field_label(o: FieldOutcomeView) -> Seq<char> {
    match o {
        FieldOutcomeView::BadEncoding => "invalid base64"@,
        FieldOutcomeView::CallFailed(_) => "call failed"@,
        FieldOutcomeView::EmptyOutput => "empty output"@,
        FieldOutcomeView::Plain(_) => "ok"@,
    }
}

/// The label for one field outcome.
pub fn field_label(o: &FieldOutcome) -> (r: &'static str)
    ensures
        r@ == spec_field_label(o@),
{
    match o {
        FieldOutcome::BadEncoding => "invalid base64",
        FieldOutcome::CallFailed(_) => "call failed",
        FieldOutcome::EmptyOutput => "empty output",
        FieldOutcome::Plain(_) => "ok",
    }
}

/// Whether both fields of an entry decrypted.
pub open spec fn spec_entry_succeeds(u: FieldOutcomeView, p: FieldOutcomeView) -> bool {
    u is Plain && p is Plain
}

/// The error line a failed entry appends, naming the host and both field
/// outcomes.
pub open spec fn spec_entry_error(
    host: Seq<char>,
    u: FieldOutcomeView,
    p: FieldOutcomeView,
) -> Seq<char> {
    "Firefox decrypt failed for "@ + host + ": user: "@ + spec_field_label(u) + ", pass: "@
        + spec_field_label(p)
}

/// The credential a successful entry yields: both plaintexts decoded lossily.
pub open spec fn spec_entry_credential(
    host: Seq<char>,
    u: FieldOutcomeView,
    p: FieldOutcomeView,
) -> CredentialView
    recommends
        spec_entry_succeeds(u, p),
{
    CredentialView {
        hostname: host,
        username: utf8_lossy(u->Plain_0),
        password: utf8_lossy(p->Plain_0),
    }
}

/// Where a session stands in its protocol.
#[derive(Clone, Copy, Debug, PartialEq, Eq, Structural)]
pub enum SessionPhase {
    /// The library has not been initialized yet.
    Starting,
    /// Entries are being decrypted.
    Working,
    /// Shutdown has been called; the session is complete.
    Closed,
}

/// One profile's decryption session: a state machine the caller drives by
/// asking [`NssSession::next_request`], performing the foreign call, and
/// reporting the outcome back. The protocol admits exactly one initialize and
/// exactly one shutdown, whatever the entries' outcomes.
pub struct NssSession {
    profile: String,
    entries: Vec<PreparedEntry>,
    idx: usize,
    results: Vec<NssCredential>,
    errors: Vec<String>,
    init_warning: bool,
    shutdown_calls: u64,
    phase: SessionPhase,
}

impl NssSession {
    /// The profile directory this session decrypts.
    pub closed spec fn profile_view(&self) -> Seq<char> {
        self.profile@
    }

    /// The prepared entries, in `logins.json` order.
    pub closed spec fn entries_view(&self) -> Seq<PreparedView> {
        self.entries@.map_values(|e: PreparedEntry| e@)
    }

    /// How many entries have been dealt with.
    pub closed spec fn progress(&self) -> int {
        self.idx as int
    }

    /// The credentials recovered so far.
    pub closed spec fn results_view(&self) -> Seq<CredentialView> {
        self.results@.map_values(|c: NssCredential| c@)
    }

    /// The error lines recorded so far.
    pub closed spec fn errors_view(&self) -> Seq<Seq<char>> {
        self.errors@.map_values(|s: String| s@)
    }

    /// Whether initialize reported a nonzero status (a warning, not fatal).
    pub closed spec fn had_init_warning(&self) -> bool {
        self.init_warning
    }

    /// How often the shutdown entry point has been invoked.
    pub closed spec fn shutdown_count(&self) -> int {
        self.shutdown_calls as int
    }

    /// Where the session stands.
    pub closed spec fn phase(&self) -> SessionPhase {
        self.phase
    }

    /// The session protocol's invariant: progress never passes the entry
    /// count, nothing is processed before initialization, the session only
    /// completes at the end, and shutdown happens exactly on completion —
    /// never twice.
    pub open spec fn wf(&self) -> bool {
        &&& 0 <= self.progress() <= self.entries_view().len()
        &&& (self.phase() == SessionPhase::Starting ==> self.progress() == 0)
        &&& (self.phase() == SessionPhase::Closed ==> self.progress() == self.entries_view().len())
        &&& 0 <= self.shutdown_count() <= 1
        &&& (self.phase() == SessionPhase::Closed <==> self.shutdown_count() == 1)
    }

    /// Opens a session over the entries parsed from `logins.json`, decoding
    /// each entry's base64 fields.
    pub fn new(profile: String, entries: Vec<LoginEntry>) -> (s: Self)
        ensures
            s.wf(),
            s.phase() == SessionPhase::Starting,
            s.profile_view() == profile@,
            s.entries_view().len() == entries@.len(),
            forall|i: int|
                0 <= i < entries@.len() ==> s.entries_view()[i] == spec_prepared(entries@[i]@),
            s.progress() == 0,
            s.results_view() == Seq::<CredentialView>::empty(),
            s.errors_view() == Seq::<Seq<char>>::empty(),
            s.shutdown_count() == 0,
    {
        let mut prepared: Vec<PreparedEntry> = Vec::new();
        let mut i: usize = 0;
        while i < entries.len()
            invariant
                i <= entries@.len(),
                prepared@.len() == i,
                forall|j: int|
                    0 <= j < i ==> prepared@[j]@ == spec_prepared(entries@[j]@),
            decreases entries@.len() - i,
        {
            let e = &entries[i];
            let user_blob = base64_decode_standard(e.enc_user_b64.as_str());
            let pass_blob = base64_decode_standard(e.enc_pass_b64.as_str());
            prepared.push(PreparedEntry { hostname: e.hostname.clone(), user_blob, pass_blob });
            i = i + 1;
        }
        let s = NssSession {
            profile,
            entries: prepared,
            idx: 0,
            results: Vec::new(),
            errors: Vec::new(),
            init_warning: false,
            shutdown_calls: 0,
            phase: SessionPhase::Starting,
        };
        proof {
            assert(s.results_view() =~= Seq::<CredentialView>::empty());
            assert(s.errors_view() =~= Seq::<Seq<char>>::empty());
        }
        s
    }

    /// What the caller should do next.
    pub fn next_request(&self) -> (r: NssRequest)
        requires
            self.wf(),
        ensures
            match r {
                NssRequest::Initialize(p) => self.phase() == SessionPhase::Starting && p@
                    == self.profile_view(),
                NssRequest::DecryptEntry { user, pass } => {
                    &&& self.phase() == SessionPhase::Working
                    &&& self.progress() < self.entries_view().len()
                    &&& match user {
                        Some(b) => self.entries_view()[self.progress()].user_blob == Some(b@),
                        None => self.entries_view()[self.progress()].user_blob is None,
                    }
                    &&& match pass {
                        Some(b) => self.entries_view()[self.progress()].pass_blob == Some(b@),
                        None => self.entries_view()[self.progress()].pass_blob is None,
                    }
                },
                NssRequest::Shutdown => self.phase() == SessionPhase::Working && self.progress()
                    == self.entries_view().len(),
                NssRequest::Finished => self.phase() == SessionPhase::Closed,
            },
    {
        match self.phase {
            SessionPhase::Starting => NssRequest::Initialize(self.profile.clone()),
            SessionPhase::Working => {
                if self.idx < self.entries.len() {
                    let e = &self.entries[self.idx];
                    let user = match &e.user_blob {
                        Some(b) => Some(b.clone()),
                        None => None,
                    };
                    let pass = match &e.pass_blob {
                        Some(b) => Some(b.clone()),
                        None => None,
                    };
                    NssRequest::DecryptEntry { user, pass }
                } else {
                    NssRequest::Shutdown
                }
            },
            SessionPhase::Closed => NssRequest::Finished,
        }
    }

    /// Reports the initialize call's status. A nonzero status is a warning —
    /// some library builds still decrypt — so the session proceeds either way.
    pub fn on_initialized(&mut self, status: i32)
        requires
            old(self).wf(),
            old(self).phase() == SessionPhase::Starting,
        ensures
            final(self).wf(),
            final(self).phase() == SessionPhase::Working,
            final(self).had_init_warning() == (status != 0),
            final(self).profile_view() == old(self).profile_view(),
            final(self).entries_view() == old(self).entries_view(),
            final(self).progress() == 0,
            final(self).results_view() == old(self).results_view(),
            final(self).errors_view() == old(self).errors_view(),
            final(self).shutdown_count() == 0,
    {
        self.phase = SessionPhase::Working;
        self.init_warning = status != 0;
    }

    /// Folds in the outcome of the current entry's two field decryptions:
    /// both plaintexts yield one credential; anything else appends one error
    /// line naming the host and both outcomes. Either way the session moves to
    /// the next entry.
    pub fn on_entry_outcome(&mut self, user: FieldOutcome, pass: FieldOutcome)
        requires
            old(self).wf(),
            old(self).phase() == SessionPhase::Working,
            old(self).progress() < old(self).entries_view().len(),
        ensures
            final(self).wf(),
            final(self).phase() == SessionPhase::Working,
            final(self).profile_view() == old(self).profile_view(),
            final(self).entries_view() == old(self).entries_view(),
            final(self).had_init_warning() == old(self).had_init_warning(),
            final(self).progress() == old(self).progress() + 1,
            final(self).shutdown_count() == 0,
            spec_entry_succeeds(user@, pass@) ==> {
                &&& final(self).results_view() == old(self).results_view().push(
                    spec_entry_credential(
                        old(self).entries_view()[old(self).progress()].hostname,
                        user@,
                        pass@,
                    ),
                )
                &&& final(self).errors_view() == old(self).errors_view()
            },
            !spec_entry_succeeds(user@, pass@) ==> {
                &&& final(self).results_view() == old(self).results_view()
                &&& final(self).errors_view() == old(self).errors_view().push(
                    spec_entry_error(
                        old(self).entries_view()[old(self).progress()].hostname,
                        user@,
                        pass@,
                    ),
                )
            },
    {
        proof {
            assert(old(self).entries_view().len() == old(self).entries@.len());
        }
        let ghost old_results = self.results@;
        let ghost old_errors = self.errors@;
        let host = self.entries[self.idx].hostname.clone();
        match (user, pass) {
            (FieldOutcome::Plain(u), FieldOutcome::Plain(p)) => {
                let cred = NssCredential {
                    hostname: host,
                    username: bytes_to_string_lossy(u.as_slice()),
                    password: bytes_to_string_lossy(p.as_slice()),
                };
                self.results.push(cred);
                proof {
                    assert(self.results_view() =~= old_results.map_values(
                        |c: NssCredential| c@,
                    ).push(self.results@[self.results@.len() - 1]@));
                }
            },
            (u, p) => {
                let msg = entry_error_message(host.as_str(), &u, &p);
                self.errors.push(msg);
                proof {
                    assert(self.errors_view() =~= old_errors.map_values(|s: String| s@).push(
                        self.errors@[self.errors@.len() - 1]@,
                    ));
                }
            },
        }
        let n = self.entries.len();
        proof {
            assert(self.idx < n);
        }
        self.idx = self.idx + 1;
    }

    /// Reports the shutdown call's status; the session is complete. The
    /// protocol admits this exactly once, after every entry was dealt with.
    pub fn on_shutdown(&mut self, _status: i32)
        requires
            old(self).wf(),
            old(self).phase() == SessionPhase::Working,
            old(self).progress() == old(self).entries_view().len(),
        ensures
            final(self).wf(),
            final(self).phase() == SessionPhase::Closed,
            final(self).shutdown_count() == 1,
            final(self).profile_view() == old(self).profile_view(),
            final(self).entries_view() == old(self).entries_view(),
            final(self).had_init_warning() == old(self).had_init_warning(),
            final(self).progress() == old(self).progress(),
            final(self).results_view() == old(self).results_view(),
            final(self).errors_view() == old(self).errors_view(),
    {
        self.phase = SessionPhase::Closed;
        self.shutdown_calls = 1;
    }

    /// Hands out the recovered credentials and the error lines.
    pub fn finish(self) -> (r: (Vec<NssCredential>, Vec<String>))
        requires
            self.wf(),
            self.phase() == SessionPhase::Closed,
        ensures
            r.0@.map_values(|c: NssCredential| c@) == self.results_view(),
            r.1@.map_values(|s: String| s@) == self.errors_view(),
    {
        (self.results, self.errors)
    }
}

/// Builds the error line for one failed entry.
pub fn entry_error_message(host: &str, user: &FieldOutcome, pass: &FieldOutcome) -> (r: String)
    ensures
        r@ == spec_entry_error(host@, user@, pass@),
{
    let mut m = "Firefox decrypt failed for ".to_owned();
    m.append(host);
    m.append(": user: ");
    m.append(field_label(user));
    m.append(", pass: ");
    m.append(field_label(pass));
    m
}

/// A session that has run to completion called shutdown exactly once — no
/// matter how many entries failed, and even when every one did.
pub proof fn lemma_completed_session_shut_down_once(s: &NssSession)
    requires
        s.wf(),
        s.phase() == SessionPhase::Closed,
    ensures
        s.shutdown_count() == 1,
{
}

/// No reachable session state has called shutdown more than once.
pub proof fn lemma_shutdown_never_repeated(s: &NssSession)
    requires
        s.wf(),
    ensures
        s.shutdown_count() <= 1,
{
}

/// Dynamically loads the Mozilla crypto library and decrypts one profile's
/// logins through it.
pub struct NssDecryptor;

impl NssDecryptor {
    /// Where the Mozilla crypto library may sit: under the standard browser
    /// install directory, and next in the profile directory itself. The caller
    /// probes for the first that exists and loads it with its own directory as
    /// a call-scoped search hint.
    pub fn nss_library_candidates(program_files: &str, profile_path: &str) -> (r: Vec<String>)
        ensures
            r@.len() == 2,
            r@[0]@ == program_files@ + "\\Mozilla Firefox\\nss3.dll"@,
            r@[1]@ == profile_path@ + "\\nss3.dll"@,
    {
        let mut out: Vec<String> = Vec::new();
        let mut a = program_files.to_owned();
        a.append("\\Mozilla Firefox\\nss3.dll");
        let mut b = profile_path.to_owned();
        b.append("\\nss3.dll");
        out.push(a);
        out.push(b);
        out
    }

    /// Opens a decryption session for one profile from the text of its
    /// `logins.json`; text without a parsable login array aborts this profile
    /// alone.
    pub fn begin_profile(profile_path: String, logins_text: &str) -> (r: Result<NssSession, ()>)
        ensures
            match r {
                Ok(s) => {
                    &&& logins_fields(logins_text@) is Some
                    &&& s.wf()
                    &&& s.phase() == SessionPhase::Starting
                    &&& s.profile_view() == profile_path@
                    &&& s.progress() == 0
                    &&& s.shutdown_count() == 0
                    &&& s.entries_view().len() == logins_fields(logins_text@).unwrap().len()
                    &&& forall|i: int|
                        0 <= i < s.entries_view().len() ==> s.entries_view()[i] == spec_prepared(
                            logins_fields(logins_text@).unwrap()[i],
                        )
                },
                Err(_) => logins_fields(logins_text@) is None,
            },
    {
        match parse_logins_text(logins_text) {
            Some(entries) => {
                proof {
                    assert(forall|i: int|
                        0 <= i < entries@.len() ==> entries.deep_view()[i] == entries@[i]@);
                }
                Ok(NssSession::new(profile_path, entries))
            },
            None => Err(()),
        }
    }
}

} // verus!
