//! The browser credential extraction module: where each browser family keeps
//! its stores, and the names of the artifacts one run writes.
//!
//! The extraction itself is the composition the program around the library
//! drives: discover the paths given here, read each Chromium store through
//! [`crate::store::ChromiumStoreReader`] under the key resolved by
//! [`crate::keys::MasterKeyResolver`], run each Firefox profile's
//! [`crate::nss::NssSession`], and fold everything into one
//! [`crate::report::ScanReport`].

use vstd::prelude::*;
use vstd::string::StringExecFns;
use crate::paths::spec_telemetry_dir;
use crate::paths::telemetry_dir;
use crate::runner::Simulation;

verus! {

/// Extracts saved browser credentials from every store found on the host.
#[derive(Default)]
pub struct BrowserPwdSimulation;

impl Simulation for BrowserPwdSimulation {
    open spec fn spec_name(&self) -> Seq<char> {
        "windows::browser_pwd"@
    }

    fn name(&self) -> (r: &'static str) {
        "windows::browser_pwd"
    }
}

impl BrowserPwdSimulation {
    /// Where Chrome's default profile keeps its login store, under the local
    /// application-data directory.
    pub fn chrome_login_path(local_appdata: &str) -> (r: String)
        ensures
            r@ == local_appdata@ + "\\Google\\Chrome\\User Data\\Default\\Login Data"@,
    {
        let mut p = local_appdata.to_owned();
        p.append("\\Google\\Chrome\\User Data\\Default\\Login Data");
        p
    }

    /// Where Edge's default profile keeps its login store, under the local
    /// application-data directory.
    pub fn edge_login_path(local_appdata: &str) -> (r: String)
        ensures
            r@ == local_appdata@ + "\\Microsoft\\Edge\\User Data\\Default\\Login Data"@,
    {
        let mut p = local_appdata.to_owned();
        p.append("\\Microsoft\\Edge\\User Data\\Default\\Login Data");
        p
    }

    /// Where Firefox keeps its profiles, under the roaming application-data
    /// directory.
    pub fn firefox_profiles_root(appdata: &str) -> (r: String)
        ensures
            r@ == appdata@ + "\\Mozilla\\Firefox\\Profiles"@,
    {
        let mut p = appdata.to_owned();
        p.append("\\Mozilla\\Firefox\\Profiles");
        p
    }

    /// The two files a Firefox profile must carry to be scanned: its login
    /// store and its key database.
    pub fn firefox_profile_files(profile: &str) -> (r: (String, String))
        ensures
            r.0@ == profile@ + "\\logins.json"@,
            r.1@ == profile@ + "\\key4.db"@,
    {
        let mut logins = profile.to_owned();
        logins.append("\\logins.json");
        let mut keydb = profile.to_owned();
        keydb.append("\\key4.db");
        (logins, keydb)
    }

    /// The name of the human-readable artifact one browser's entries are
    /// written to: `browser_<browser>_<test id>.txt`.
    pub fn artifact_file_name(browser: &str, test_id: &str) -> (r: String)
        ensures
            r@ == "browser_"@ + browser@ + "_"@ + test_id@ + ".txt"@,
    {
        let mut n = "browser_".to_owned();
        n.append(browser);
        n.append("_");
        n.append(test_id);
        n.append(".txt");
        n
    }

    /// The names of the run's machine- and human-readable telemetry files:
    /// `browser_pwd_<test id>.jsonl` and `browser_pwd_<test id>.log`.
    pub fn telemetry_file_names(test_id: &str) -> (r: (String, String))
        ensures
            r.0@ == "browser_pwd_"@ + test_id@ + ".jsonl"@,
            r.1@ == "browser_pwd_"@ + test_id@ + ".log"@,
    {
        let mut jsonl = "browser_pwd_".to_owned();
        jsonl.append(test_id);
        jsonl.append(".jsonl");
        let mut log = "browser_pwd_".to_owned();
        log.append(test_id);
        log.append(".log");
        (jsonl, log)
    }

    /// The directory the run's artifacts land in, when the platform reports a
    /// home directory.
    pub fn telemetry_dir() -> (r: Option<String>)
        ensures
            r matches Some(p) ==> exists|home: Seq<char>| p@ == spec_telemetry_dir(home),
    {
        telemetry_dir()
    }
}

/// Which browser family a source belongs to.
#[derive(Clone, Copy, Debug, PartialEq, Eq, Structural)]
pub enum SourceKind {
    /// A Chromium-family store of this browser.
    Chromium(crate::report::ChromiumKind),
    /// One Firefox profile.
    Firefox,
}

/// One discovered credential store: its kind, the directory scanning started
/// from, and the store or profile path itself.
pub struct CredentialSource {
    pub kind: SourceKind,
    pub root_path: String,
    pub profile_path: String,
}

impl BrowserPwdSimulation {
    /// The two Chromium-family sources a run probes, under the local
    /// application-data directory: Chrome first, Edge second.
    pub fn chromium_sources(local_appdata: &str) -> (r: Vec<CredentialSource>)
        ensures
            r@.len() == 2,
            r@[0].kind == SourceKind::Chromium(crate::report::ChromiumKind::Chrome),
            r@[0].root_path@ == local_appdata@,
            r@[0].profile_path@ == local_appdata@
                + "\\Google\\Chrome\\User Data\\Default\\Login Data"@,
            r@[1].kind == SourceKind::Chromium(crate::report::ChromiumKind::Edge),
            r@[1].root_path@ == local_appdata@,
            r@[1].profile_path@ == local_appdata@
                + "\\Microsoft\\Edge\\User Data\\Default\\Login Data"@,
    {
        let mut out: Vec<CredentialSource> = Vec::new();
        out.push(
            CredentialSource {
                kind: SourceKind::Chromium(crate::report::ChromiumKind::Chrome),
                root_path: local_appdata.to_owned(),
                profile_path: Self::chrome_login_path(local_appdata),
            },
        );
        out.push(
            CredentialSource {
                kind: SourceKind::Chromium(crate::report::ChromiumKind::Edge),
                root_path: local_appdata.to_owned(),
                profile_path: Self::edge_login_path(local_appdata),
            },
        );
        out
    }

    /// The source for one Firefox profile directory under the profiles root.
    pub fn firefox_source(root: &str, profile_path: &str) -> (r: CredentialSource)
        ensures
            r.kind == SourceKind::Firefox,
            r.root_path@ == root@,
            r.profile_path@ == profile_path@,
    {
        CredentialSource {
            kind: SourceKind::Firefox,
            root_path: root.to_owned(),
            profile_path: profile_path.to_owned(),
        }
    }
}

/// Everything one source contributed to the run, ready to be folded into the
/// report.
pub enum SourceOutcome {
    /// A Chromium store was probed: whether it was present, and if so what its
    /// rows decrypted to.
    ChromiumProbed {
        kind: crate::report::ChromiumKind,
        found: bool,
        entries: Vec<crate::store::DecryptedEntry>,
        errors: Vec<String>,
    },
    /// One Firefox profile was scanned.
    FirefoxProfile { creds: Vec<crate::nss::NssCredential>, errors: Vec<String> },
    /// A source that could not be processed at all; the scan goes on.
    Inaccessible { message: String },
}

/// Spec-level image of a [`SourceOutcome`].
pub enum SourceOutcomeView {
    ChromiumProbed {
        kind: crate::report::ChromiumKind,
        found: bool,
        entries: Seq<crate::store::EntryView>,
        errors: Seq<Seq<char>>,
    },
    FirefoxProfile { creds: Seq<crate::nss::CredentialView>, errors: Seq<Seq<char>> },
    Inaccessible { message: Seq<char> },
}

impl View for SourceOutcome {
    type V = SourceOutcomeView;

    open spec fn view(&self) -> SourceOutcomeView {
        match self {
            SourceOutcome::ChromiumProbed { kind, found, entries, errors } => {
                SourceOutcomeView::ChromiumProbed {
                    kind: *kind,
                    found: *found,
                    entries: crate::store::entries_view(entries@),
                    errors: crate::store::strings_view(errors@),
                }
            },
            SourceOutcome::FirefoxProfile { creds, errors } => {
                SourceOutcomeView::FirefoxProfile {
                    creds: creds@.map_values(|c: crate::nss::NssCredential| c@),
                    errors: crate::store::strings_view(errors@),
                }
            },
            SourceOutcome::Inaccessible { message } => {
                SourceOutcomeView::Inaccessible { message: message@ }
            },
        }
    }
}

/// How one source's outcome changes the report: presence flags and counts are
/// updated (saturating) and its errors are appended after everything already
/// recorded. Nothing a source reports is ever dropped.
pub open spec fn spec_absorb(
    r: crate::report::ReportView,
    o: SourceOutcomeView,
) -> crate::report::ReportView {
    match o {
        SourceOutcomeView::ChromiumProbed { kind, found, entries, errors } => {
            crate::report::ReportView {
                chrome_found: if kind == crate::report::ChromiumKind::Chrome {
                    found
                } else {
                    r.chrome_found
                },
                edge_found: if kind == crate::report::ChromiumKind::Edge {
                    found
                } else {
                    r.edge_found
                },
                sources_found: crate::report::spec_sat_add(
                    r.sources_found,
                    if found {
                        1int
                    } else {
                        0int
                    },
                ),
                entries_decrypted: crate::report::spec_sat_add(
                    r.entries_decrypted,
                    crate::report::spec_success_count(entries, entries.len() as int),
                ),
                errors: r.errors + errors,
                ..r
            }
        },
        SourceOutcomeView::FirefoxProfile { creds, errors } => {
            crate::report::ReportView {
                firefox_profiles_scanned: crate::report::spec_sat_add(
                    r.firefox_profiles_scanned,
                    1,
                ),
                sources_found: crate::report::spec_sat_add(r.sources_found, 1),
                entries_decrypted: crate::report::spec_sat_add(
                    r.entries_decrypted,
                    creds.len() as int,
                ),
                errors: r.errors + errors,
                ..r
            }
        },
        SourceOutcomeView::Inaccessible { message } => {
            crate::report::ReportView { errors: r.errors.push(message), ..r }
        },
    }
}

/// The report after folding in the first `i` outcomes, starting from the
/// empty report of a live run.
pub open spec fn spec_aggregate(os: Seq<SourceOutcomeView>, i: int) -> crate::report::ReportView
    decreases i,
{
    if i <= 0 {
        crate::report::ReportView {
            dry_run: false,
            chrome_found: false,
            edge_found: false,
            sources_found: 0,
            firefox_profiles_scanned: 0,
            entries_decrypted: 0,
            errors: Seq::empty(),
        }
    } else {
        spec_absorb(spec_aggregate(os, i - 1), os[i - 1])
    }
}

fn clone_strings(src: &Vec<String>) -> (r: Vec<String>)
    ensures
        crate::store::strings_view(r@) == crate::store::strings_view(src@),
{
    let mut out: Vec<String> = Vec::new();
    let mut i: usize = 0;
    proof {
        assert(crate::store::strings_view(out@) =~= crate::store::strings_view(src@).subrange(
            0,
            0,
        ));
    }
    while i < src.len()
        invariant
            i <= src@.len(),
            crate::store::strings_view(out@) == crate::store::strings_view(src@).subrange(
                0,
                i as int,
            ),
        decreases src@.len() - i,
    {
        let ghost pre = out@;
        out.push(src[i].clone());
        proof {
            crate::runner::lemma_strings_view_push(pre, src@[i as int]);
            assert(crate::store::strings_view(out@) =~= crate::store::strings_view(src@).subrange(
                0,
                i + 1,
            ));
        }
        i = i + 1;
    }
    proof {
        assert(crate::store::strings_view(src@).subrange(0, src@.len() as int)
            =~= crate::store::strings_view(src@));
    }
    out
}

/// The errors the first `i` outcomes reported, concatenated in scan order.
pub open spec fn spec_all_errors(os: Seq<SourceOutcomeView>, i: int) -> Seq<Seq<char>>
    decreases i,
{
    if i <= 0 {
        Seq::empty()
    } else {
        spec_all_errors(os, i - 1) + match os[i - 1] {
            SourceOutcomeView::ChromiumProbed { errors, .. } => errors,
            SourceOutcomeView::FirefoxProfile { errors, .. } => errors,
            SourceOutcomeView::Inaccessible { message } => seq![message],
        }
    }
}

/// Aggregation loses no error: the report's error list is exactly the
/// concatenation of what every source reported, in scan order — a hard
/// failure in one source never costs another source its say.
pub proof fn lemma_aggregate_keeps_every_error(os: Seq<SourceOutcomeView>, i: int)
    requires
        0 <= i <= os.len(),
    ensures
        spec_aggregate(os, i).errors == spec_all_errors(os, i),
    decreases i,
{
    if i > 0 {
        lemma_aggregate_keeps_every_error(os, i - 1);
        match os[i - 1] {
            SourceOutcomeView::Inaccessible { message } => {
                assert(spec_aggregate(os, i).errors =~= spec_all_errors(os, i));
            },
            _ => {
            },
        }
    }
}

impl BrowserPwdSimulation {
    /// Folds every source's outcome, in scan order, into the one report of a
    /// live run: no outcome is dropped and a failed source never stops the
    /// fold.
    pub fn aggregate(outcomes: &Vec<SourceOutcome>) -> (r: crate::report::ScanReport)
        ensures
            r@ == spec_aggregate(
                outcomes@.map_values(|o: SourceOutcome| o@),
                outcomes@.len() as int,
            ),
    {
        let ghost ov = outcomes@.map_values(|o: SourceOutcome| o@);
        let mut report = crate::report::ScanReport::empty(false);
        let mut i: usize = 0;
        proof {
            assert(report@ =~= spec_aggregate(ov, 0));
        }
        while i < outcomes.len()
            invariant
                i <= outcomes@.len(),
                ov == outcomes@.map_values(|o: SourceOutcome| o@),
                report@ == spec_aggregate(ov, i as int),
            decreases outcomes@.len() - i,
        {
            let ghost prev = report@;
            match &outcomes[i] {
                SourceOutcome::ChromiumProbed { kind, found, entries, errors } => {
                    report.record_chromium(*kind, *found);
                    let mut errs = clone_strings(errors);
                    report.absorb_chromium_store(entries, &mut errs);
                },
                SourceOutcome::FirefoxProfile { creds, errors } => {
                    let mut errs = clone_strings(errors);
                    report.absorb_firefox_profile(creds, &mut errs);
                },
                SourceOutcome::Inaccessible { message } => {
                    report.record_error(message.clone());
                },
            }
            proof {
                assert(report@ =~= spec_absorb(prev, ov[i as int]));
            }
            i = i + 1;
        }
        report
    }
}

} // verus!
