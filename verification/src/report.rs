//! Aggregation of one extraction run into a single scan report.
//!
//! The orchestrator discovers sources, hands each to its reader, and folds
//! every partial result into one [`ScanReport`]; a hard failure in one source
//! never prevents scanning the next, and a completed run always yields exactly
//! one report.

use vstd::prelude::*;
use vstd::string::StringExecFns;
use crate::store::DecryptedEntry;
use crate::store::EntryView;
use crate::store::entries_view;
use crate::nss::NssCredential;

verus! {

/// Adds with saturation at the top of the range.
pub open spec fn spec_sat_add(a: u64, b: int) -> u64 {
    if a + b <= u64::MAX {
        (a + b) as u64
    } else {
        u64::MAX
    }
}

fn sat_add_u64(a: u64, b: u64) -> (r: u64)
    ensures
        r == spec_sat_add(a, b as int),
{
    if b <= u64::MAX - a {
        a + b
    } else {
        u64::MAX
    }
}

/// How many of the first `i` entries carry a recovered secret.
pub open spec fn spec_success_count(es: Seq<EntryView>, i: int) -> int
    decreases i,
{
    if i <= 0 {
        0
    } else {
        spec_success_count(es, i - 1) + if es[i - 1].secret is Some {
            1int
        } else {
            0int
        }
    }
}

/// Counting successes never passes the number of entries.
pub proof fn lemma_success_count_bounded(es: Seq<EntryView>, i: int)
    requires
        0 <= i <= es.len(),
    ensures
        0 <= spec_success_count(es, i) <= i,
    decreases i,
{
    if i > 0 {
        lemma_success_count_bounded(es, i - 1);
    }
}

/// Counts the entries whose secret was recovered.
pub fn success_count(entries: &Vec<DecryptedEntry>) -> (r: u64)
    ensures
        r == spec_success_count(entries_view(entries@), entries@.len() as int),
{
    let mut n: u64 = 0;
    let mut i: usize = 0;
    proof {
        lemma_success_count_bounded(entries_view(entries@), entries@.len() as int);
    }
    while i < entries.len()
        invariant
            i <= entries@.len(),
            n == spec_success_count(entries_view(entries@), i as int),
            n <= i,
        decreases entries@.len() - i,
    {
        proof {
            lemma_success_count_bounded(entries_view(entries@), i + 1);
        }
        if entries[i].secret.is_some() {
            n = n + 1;
        }
        i = i + 1;
    }
    n
}

/// The two Chromium-family browsers whose stores a run scans.
#[derive(Clone, Copy, Debug, PartialEq, Eq, Structural)]
pub enum ChromiumKind {
    Chrome,
    Edge,
}

/// The one artifact of a run: aggregate counts and an ordered list of every
/// error any source produced.
pub struct ScanReport {
    /// Whether this run was a dry run that read and decrypted nothing.
    pub dry_run: bool,
    /// Whether the Chrome login store was present.
    pub chrome_found: bool,
    /// Whether the Edge login store was present.
    pub edge_found: bool,
    /// How many credential sources were present.
    pub sources_found: u64,
    /// How many Firefox profiles carried both store files and were scanned.
    pub firefox_profiles_scanned: u64,
    /// How many entries yielded their secret.
    pub entries_decrypted: u64,
    /// Every error any source produced, in scan order.
    pub errors: Vec<String>,
}

/// Spec-level image of a [`ScanReport`].
#[verifier::ext_equal]
pub struct ReportView {
    pub dry_run: bool,
    pub chrome_found: bool,
    pub edge_found: bool,
    pub sources_found: u64,
    pub firefox_profiles_scanned: u64,
    pub entries_decrypted: u64,
    pub errors: Seq<Seq<char>>,
}

impl View for ScanReport {
    type V = ReportView;

    open spec fn view(&self) -> ReportView {
        ReportView {
            dry_run: self.dry_run,
            chrome_found: self.chrome_found,
            edge_found: self.edge_found,
            sources_found: self.sources_found,
            firefox_profiles_scanned: self.firefox_profiles_scanned,
            entries_decrypted: self.entries_decrypted,
            errors: crate::store::strings_view(self.errors@),
        }
    }
}

impl ScanReport {
    /// An empty report: nothing found, nothing decrypted, no errors. A dry run
    /// returns it unchanged, annotated as such.
    pub fn empty(dry_run: bool) -> (r: ScanReport)
        ensures
            r.dry_run == dry_run,
            !r.chrome_found,
            !r.edge_found,
            r.sources_found == 0,
            r.firefox_profiles_scanned == 0,
            r.entries_decrypted == 0,
            r.errors@.len() == 0,
    {
        ScanReport {
            dry_run,
            chrome_found: false,
            edge_found: false,
            sources_found: 0,
            firefox_profiles_scanned: 0,
            entries_decrypted: 0,
            errors: Vec::new(),
        }
    }

    /// Notes whether a Chromium store was present; an absent expected path is
    /// recorded, not an error.
    pub fn record_chromium(&mut self, kind: ChromiumKind, found: bool)
        ensures
            final(self).chrome_found == if kind == ChromiumKind::Chrome {
                found
            } else {
                old(self).chrome_found
            },
            final(self).edge_found == if kind == ChromiumKind::Edge {
                found
            } else {
                old(self).edge_found
            },
            final(self).sources_found == spec_sat_add(
                old(self).sources_found,
                if found {
                    1int
                } else {
                    0int
                },
            ),
            final(self).dry_run == old(self).dry_run,
            final(self).firefox_profiles_scanned == old(self).firefox_profiles_scanned,
            final(self).entries_decrypted == old(self).entries_decrypted,
            final(self).errors@ == old(self).errors@,
    {
        match kind {
            ChromiumKind::Chrome => {
                self.chrome_found = found;
            },
            ChromiumKind::Edge => {
                self.edge_found = found;
            },
        }
        if found {
            self.sources_found = sat_add_u64(self.sources_found, 1);
        }
    }

    /// Folds in one Chromium store's outcome: its successes are counted and
    /// its errors appended, in order, after everything already recorded.
    pub fn absorb_chromium_store(
        &mut self,
        entries: &Vec<DecryptedEntry>,
        errors: &mut Vec<String>,
    )
        ensures
            final(self).entries_decrypted == spec_sat_add(
                old(self).entries_decrypted,
                spec_success_count(entries_view(entries@), entries@.len() as int),
            ),
            final(self).errors@ == old(self).errors@ + old(errors)@,
            final(errors)@.len() == 0,
            final(self).dry_run == old(self).dry_run,
            final(self).chrome_found == old(self).chrome_found,
            final(self).edge_found == old(self).edge_found,
            final(self).sources_found == old(self).sources_found,
            final(self).firefox_profiles_scanned == old(self).firefox_profiles_scanned,
    {
        let n = success_count(entries);
        self.entries_decrypted = sat_add_u64(self.entries_decrypted, n);
        self.errors.append(errors);
    }

    /// Folds in one scanned Firefox profile: its recovered credentials are
    /// counted and its errors appended.
    pub fn absorb_firefox_profile(&mut self, creds: &Vec<NssCredential>, errors: &mut Vec<String>)
        ensures
            final(self).firefox_profiles_scanned == spec_sat_add(
                old(self).firefox_profiles_scanned,
                1,
            ),
            final(self).sources_found == spec_sat_add(old(self).sources_found, 1),
            final(self).entries_decrypted == spec_sat_add(
                old(self).entries_decrypted,
                creds@.len() as int,
            ),
            final(self).errors@ == old(self).errors@ + old(errors)@,
            final(errors)@.len() == 0,
            final(self).dry_run == old(self).dry_run,
            final(self).chrome_found == old(self).chrome_found,
            final(self).edge_found == old(self).edge_found,
    {
        self.firefox_profiles_scanned = sat_add_u64(self.firefox_profiles_scanned, 1);
        self.sources_found = sat_add_u64(self.sources_found, 1);
        let n = creds.len();
        self.entries_decrypted = sat_add_u64(self.entries_decrypted, n as u64);
        self.errors.append(errors);
    }

    /// Records one error for a source that could not be processed at all —
    /// the scan goes on with the next source.
    pub fn record_error(&mut self, message: String)
        ensures
            final(self).errors@ == old(self).errors@.push(message),
            final(self).dry_run == old(self).dry_run,
            final(self).chrome_found == old(self).chrome_found,
            final(self).edge_found == old(self).edge_found,
            final(self).sources_found == old(self).sources_found,
            final(self).firefox_profiles_scanned == old(self).firefox_profiles_scanned,
            final(self).entries_decrypted == old(self).entries_decrypted,
    {
        self.errors.push(message);
    }
}

/// The decimal digit characters, lowest first.
pub open spec fn spec_digit_text(d: int) -> Seq<char> {
    if d == 0 {
        "0"@
    } else if d == 1 {
        "1"@
    } else if d == 2 {
        "2"@
    } else if d == 3 {
        "3"@
    } else if d == 4 {
        "4"@
    } else if d == 5 {
        "5"@
    } else if d == 6 {
        "6"@
    } else if d == 7 {
        "7"@
    } else if d == 8 {
        "8"@
    } else {
        "9"@
    }
}

/// The decimal rendering of a number, most significant digit first.
pub open spec fn spec_decimal(n: int) -> Seq<char>
    decreases n,
{
    if n < 10 {
        spec_digit_text(n)
    } else {
        spec_decimal(n / 10) + spec_digit_text(n % 10)
    }
}

fn digit_text(d: u64) -> (r: &'static str)
    requires
        d < 10,
    ensures
        r@ == spec_digit_text(d as int),
{
    if d == 0 {
        "0"
    } else if d == 1 {
        "1"
    } else if d == 2 {
        "2"
    } else if d == 3 {
        "3"
    } else if d == 4 {
        "4"
    } else if d == 5 {
        "5"
    } else if d == 6 {
        "6"
    } else if d == 7 {
        "7"
    } else if d == 8 {
        "8"
    } else {
        "9"
    }
}

/// Appends the decimal rendering of `n`.
pub fn append_decimal(s: &mut String, n: u64)
    ensures
        final(s)@ == old(s)@ + spec_decimal(n as int),
    decreases n,
{
    if n < 10 {
        s.append(digit_text(n));
    } else {
        proof {
            assert(n as int / 10 < n as int) by (nonlinear_arith)
                requires
                    n >= 10,
            ;
        }
        append_decimal(s, n / 10);
        s.append(digit_text(n % 10));
    }
}

/// The text `true` or `false`.
pub open spec fn spec_bool_text(b: bool) -> Seq<char> {
    if b {
        "true"@
    } else {
        "false"@
    }
}

fn bool_text(b: bool) -> (r: &'static str)
    ensures
        r@ == spec_bool_text(b),
{
    if b {
        "true"
    } else {
        "false"
    }
}

/// The one-line summary a finished scan stamps into its action record.
pub open spec fn spec_scan_details(chrome: bool, edge: bool, firefox: u64) -> Seq<char> {
    "chrome_found="@ + spec_bool_text(chrome) + " edge_found="@ + spec_bool_text(edge)
        + " firefox_profiles_scanned="@ + spec_decimal(firefox as int)
}

/// Renders the scan's one-line summary.
pub fn scan_details(report: &ScanReport) -> (r: String)
    ensures
        r@ == spec_scan_details(
            report.chrome_found,
            report.edge_found,
            report.firefox_profiles_scanned,
        ),
{
    let mut m = "chrome_found=".to_owned();
    m.append(bool_text(report.chrome_found));
    m.append(" edge_found=");
    m.append(bool_text(report.edge_found));
    m.append(" firefox_profiles_scanned=");
    append_decimal(&mut m, report.firefox_profiles_scanned);
    m
}

/// One entry's block in the human-readable side artifact; a failed secret
/// shows a placeholder.
pub open spec fn spec_entry_artifact(e: EntryView) -> Seq<char> {
    "Site: "@ + e.origin + "\nUser: "@ + e.username + "\nPass: "@ + (match e.secret {
        Some(s) => s,
        None => "<decrypt failed>"@,
    }) + "\n\n"@
}

/// The side artifact for the first `i` entries, in order.
pub open spec fn spec_artifact_text(es: Seq<EntryView>, i: int) -> Seq<char>
    decreases i,
{
    if i <= 0 {
        Seq::empty()
    } else {
        spec_artifact_text(es, i - 1) + spec_entry_artifact(es[i - 1])
    }
}

/// Renders the human-readable site/user/secret artifact for one store's
/// entries; secrets that failed to decrypt show a placeholder.
pub fn artifact_text(entries: &Vec<DecryptedEntry>) -> (r: String)
    ensures
        r@ == spec_artifact_text(entries_view(entries@), entries@.len() as int),
{
    let mut m = String::new();
    let mut i: usize = 0;
    while i < entries.len()
        invariant
            i <= entries@.len(),
            m@ == spec_artifact_text(entries_view(entries@), i as int),
        decreases entries@.len() - i,
    {
        let e = &entries[i];
        m.append("Site: ");
        m.append(e.origin.as_str());
        m.append("\nUser: ");
        m.append(e.username.as_str());
        m.append("\nPass: ");
        match &e.secret {
            Some(s) => m.append(s.as_str()),
            None => m.append("<decrypt failed>"),
        }
        m.append("\n\n");
        i = i + 1;
    }
    m
}

/// What one run hands the external report sink for each action it took.
pub struct ActionRecord {
    pub test_id: String,
    pub timestamp: String,
    pub action: String,
    pub status: String,
    pub details: String,
    /// The first side artifact written, if any.
    pub artifact_path: Option<String>,
}

impl ActionRecord {
    /// The record for one browser extraction run: a dry run is annotated as
    /// such and carries no artifact; a real run carries the scan summary.
    pub fn for_browser_scan(
        test_id: String,
        timestamp: String,
        report: &ScanReport,
        artifact_path: Option<String>,
    ) -> (r: ActionRecord)
        ensures
            r.test_id@ == test_id@,
            r.timestamp@ == timestamp@,
            r.action@ == "browser_pwd"@,
            report.dry_run ==> {
                &&& r.status@ == "dry-run"@
                &&& r.details@ == "dry-run: no extraction performed"@
                &&& r.artifact_path is None
            },
            !report.dry_run ==> {
                &&& r.status@ == "written"@
                &&& r.details@ == spec_scan_details(
                    report.chrome_found,
                    report.edge_found,
                    report.firefox_profiles_scanned,
                )
                &&& r.artifact_path == artifact_path
            },
    {
        if report.dry_run {
            ActionRecord {
                test_id,
                timestamp,
                action: "browser_pwd".to_owned(),
                status: "dry-run".to_owned(),
                details: "dry-run: no extraction performed".to_owned(),
                artifact_path: None,
            }
        } else {
            ActionRecord {
                test_id,
                timestamp,
                action: "browser_pwd".to_owned(),
                status: "written".to_owned(),
                details: scan_details(report),
                artifact_path,
            }
        }
    }
}


/// Artifact paths joined for display, separated by a comma and space.
pub open spec fn spec_joined_paths(paths: Seq<Seq<char>>, i: int) -> Seq<char>
    decreases i,
{
    if i <= 0 {
        Seq::empty()
    } else if i == 1 {
        paths[0]
    } else {
        spec_joined_paths(paths, i - 1) + ", "@ + paths[i - 1]
    }
}

/// One dashed line per error, in order.
pub open spec fn spec_error_lines(errors: Seq<Seq<char>>, i: int) -> Seq<char>
    decreases i,
{
    if i <= 0 {
        Seq::empty()
    } else {
        spec_error_lines(errors, i - 1) + "- "@ + errors[i - 1] + "\n"@
    }
}

/// The human-readable telemetry block one finished scan appends: identity,
/// artifacts, per-browser findings — with a Firefox-only decryption count —
/// and every error, one per line.
pub open spec fn spec_scan_log(
    test_id: Seq<char>,
    timestamp: Seq<char>,
    artifacts: Seq<Seq<char>>,
    chrome: bool,
    edge: bool,
    firefox_scanned: u64,
    firefox_decrypted: u64,
    errors: Seq<Seq<char>>,
) -> Seq<char> {
    "================================================================\nTEST ID   : "@ + test_id
        + "\nTIMESTAMP : "@ + timestamp + "\nARTIFACTS : "@ + spec_joined_paths(
        artifacts,
        artifacts.len() as int,
    ) + "\nCHROME    : "@ + spec_bool_text(chrome) + "\nEDGE      : "@ + spec_bool_text(edge)
        + "\nFIREFOX   : scanned="@ + spec_decimal(firefox_scanned as int) + ", decrypted="@
        + spec_decimal(firefox_decrypted as int) + "\n"@ + (if errors.len() > 0 {
        "ERRORS:\n"@ + spec_error_lines(errors, errors.len() as int)
    } else {
        Seq::empty()
    }) + "\n"@
}

/// Renders the human-readable telemetry block for one finished scan.
pub fn scan_log_text(
    test_id: &str,
    timestamp: &str,
    artifacts: &Vec<String>,
    report: &ScanReport,
    firefox_decrypted: u64,
) -> (r: String)
    ensures
        r@ == spec_scan_log(
            test_id@,
            timestamp@,
            crate::store::strings_view(artifacts@),
            report.chrome_found,
            report.edge_found,
            report.firefox_profiles_scanned,
            firefox_decrypted,
            crate::store::strings_view(report.errors@),
        ),
{
    let ghost av = crate::store::strings_view(artifacts@);
    let ghost ev = crate::store::strings_view(report.errors@);
    let mut m = "================================================================\nTEST ID   : "
        .to_owned();
    m.append(test_id);
    m.append("\nTIMESTAMP : ");
    m.append(timestamp);
    m.append("\nARTIFACTS : ");
    let mut i: usize = 0;
    proof {
        assert(m@ + spec_joined_paths(av, 0) =~= m@);
    }
    while i < artifacts.len()
        invariant
            i <= artifacts@.len(),
            av == crate::store::strings_view(artifacts@),
            m@ == "================================================================\nTEST ID   : "@
                + test_id@ + "\nTIMESTAMP : "@ + timestamp@ + "\nARTIFACTS : "@
                + spec_joined_paths(av, i as int),
        decreases artifacts@.len() - i,
    {
        if i > 0 {
            m.append(", ");
        }
        m.append(artifacts[i].as_str());
        i = i + 1;
    }
    m.append("\nCHROME    : ");
    m.append(bool_text(report.chrome_found));
    m.append("\nEDGE      : ");
    m.append(bool_text(report.edge_found));
    m.append("\nFIREFOX   : scanned=");
    append_decimal(&mut m, report.firefox_profiles_scanned);
    m.append(", decrypted=");
    append_decimal(&mut m, firefox_decrypted);
    m.append("\n");
    if report.errors.len() > 0 {
        m.append("ERRORS:\n");
        let ghost base = m@;
        let mut j: usize = 0;
        proof {
            assert(base + spec_error_lines(ev, 0) =~= base);
        }
        while j < report.errors.len()
            invariant
                j <= report.errors@.len(),
                ev == crate::store::strings_view(report.errors@),
                m@ == base + spec_error_lines(ev, j as int),
            decreases report.errors@.len() - j,
        {
            m.append("- ");
            m.append(report.errors[j].as_str());
            m.append("\n");
            j = j + 1;
        }
    }
    m.append("\n");
    m
}

} // verus!
