use aes_gcm::aead::Aead;
use aes_gcm::KeyInit;
use magnet::browser::BrowserPwdSimulation;
use magnet::browser::SourceOutcome;
use magnet::cipher::UnwrapOutcome;
use magnet::report::ActionRecord;
use magnet::report::ChromiumKind;
use magnet::report::ScanReport;
use magnet::report::artifact_text;
use magnet::report::scan_details;
use magnet::store::ChromiumStoreReader;
use magnet::store::DecryptedEntry;
use magnet::store::EncryptedRecord;

fn sealed(key: &[u8; 32], nonce: &[u8; 12], pt: &[u8]) -> Vec<u8> {
    let cipher = aes_gcm::Aes256Gcm::new_from_slice(key).unwrap();
    let nonce_arr = aes_gcm::Nonce::try_from(&nonce[..]).unwrap();
    let ct = cipher.encrypt(&nonce_arr, pt).unwrap();
    let mut raw = b"v10".to_vec();
    raw.extend_from_slice(&nonce[..]);
    raw.extend_from_slice(&ct);
    raw
}

#[test]
fn end_to_end_edge_store_with_one_corrupt_row() {
    // Chrome absent, Edge present with three rows: two valid v10 ciphertexts
    // under a resolvable key, one corrupted. No Firefox profiles.
    let key = [11u8; 32];
    let key_vec: Vec<u8> = key.to_vec();
    let mut corrupt = sealed(&key, &[1u8; 12], b"pw2");
    corrupt[20] ^= 0x55;
    let rows = vec![
        EncryptedRecord {
            origin: "https://one.example".to_string(),
            username: "u1".to_string(),
            raw: sealed(&key, &[0u8; 12], b"pw1"),
        },
        EncryptedRecord {
            origin: "https://two.example".to_string(),
            username: "u2".to_string(),
            raw: corrupt,
        },
        EncryptedRecord {
            origin: "https://three.example".to_string(),
            username: "u3".to_string(),
            raw: sealed(&key, &[2u8; 12], b"pw3"),
        },
    ];
    let outcomes = vec![UnwrapOutcome::Refused, UnwrapOutcome::Refused, UnwrapOutcome::Refused];

    let mut report = ScanReport::empty(false);
    report.record_chromium(ChromiumKind::Chrome, false);
    report.record_chromium(ChromiumKind::Edge, true);
    let (entries, mut errors) = ChromiumStoreReader::read_rows(&rows, Some(&key_vec), &outcomes);
    report.absorb_chromium_store(&entries, &mut errors);

    assert!(!report.chrome_found);
    assert!(report.edge_found);
    assert_eq!(report.sources_found, 1);
    assert_eq!(report.entries_decrypted, 2);
    assert_eq!(report.errors.len(), 1);
    assert_eq!(report.errors[0], "Decrypt failure for https://two.example");
    assert_eq!(report.firefox_profiles_scanned, 0);
    assert!(!report.dry_run);

    assert_eq!(
        scan_details(&report),
        "chrome_found=false edge_found=true firefox_profiles_scanned=0"
    );

    let rec = ActionRecord::for_browser_scan(
        "MAGNET-TEST-1".to_string(),
        "2026-01-01T00:00:00Z".to_string(),
        &report,
        Some("C:\\t\\browser_edge_MAGNET-TEST-1.txt".to_string()),
    );
    assert_eq!(rec.action, "browser_pwd");
    assert_eq!(rec.status, "written");
    assert_eq!(rec.details, "chrome_found=false edge_found=true firefox_profiles_scanned=0");
    assert_eq!(rec.artifact_path.as_deref(), Some("C:\\t\\browser_edge_MAGNET-TEST-1.txt"));
}

#[test]
fn aggregation_folds_sources_in_scan_order() {
    // The same end-to-end scenario through the orchestrator's fold: Chrome
    // absent, Edge present with three rows (one corrupted), no Firefox.
    let key = [11u8; 32];
    let key_vec: Vec<u8> = key.to_vec();
    let mut corrupt = sealed(&key, &[1u8; 12], b"pw2");
    corrupt[20] ^= 0x55;
    let rows = vec![
        EncryptedRecord {
            origin: "https://one.example".to_string(),
            username: "u1".to_string(),
            raw: sealed(&key, &[0u8; 12], b"pw1"),
        },
        EncryptedRecord {
            origin: "https://two.example".to_string(),
            username: "u2".to_string(),
            raw: corrupt,
        },
        EncryptedRecord {
            origin: "https://three.example".to_string(),
            username: "u3".to_string(),
            raw: sealed(&key, &[2u8; 12], b"pw3"),
        },
    ];
    let unwraps = vec![UnwrapOutcome::Refused, UnwrapOutcome::Refused, UnwrapOutcome::Refused];
    let (entries, errors) = ChromiumStoreReader::read_rows(&rows, Some(&key_vec), &unwraps);

    let outcomes = vec![
        SourceOutcome::ChromiumProbed {
            kind: ChromiumKind::Chrome,
            found: false,
            entries: Vec::new(),
            errors: Vec::new(),
        },
        SourceOutcome::ChromiumProbed {
            kind: ChromiumKind::Edge,
            found: true,
            entries,
            errors,
        },
    ];
    let report = BrowserPwdSimulation::aggregate(&outcomes);
    assert!(!report.chrome_found);
    assert!(report.edge_found);
    assert_eq!(report.sources_found, 1);
    assert_eq!(report.entries_decrypted, 2);
    assert_eq!(report.firefox_profiles_scanned, 0);
    assert_eq!(report.errors, vec!["Decrypt failure for https://two.example".to_string()]);
    assert!(!report.dry_run);
}

#[test]
fn inaccessible_sources_never_stop_the_fold() {
    let outcomes = vec![
        SourceOutcome::Inaccessible { message: "edge extraction failed: copy error".to_string() },
        SourceOutcome::FirefoxProfile {
            creds: vec![magnet::nss::NssCredential {
                hostname: "h".to_string(),
                username: "u".to_string(),
                password: "p".to_string(),
            }],
            errors: Vec::new(),
        },
    ];
    let report = BrowserPwdSimulation::aggregate(&outcomes);
    assert_eq!(report.errors, vec!["edge extraction failed: copy error".to_string()]);
    assert_eq!(report.firefox_profiles_scanned, 1);
    assert_eq!(report.entries_decrypted, 1);
    assert_eq!(report.sources_found, 1);
}

#[test]
fn dry_run_report_is_empty_and_annotated() {
    let report = ScanReport::empty(true);
    assert!(report.dry_run);
    assert_eq!(report.sources_found, 0);
    assert_eq!(report.entries_decrypted, 0);
    assert!(report.errors.is_empty());

    let rec = ActionRecord::for_browser_scan(
        "MAGNET-TEST-2".to_string(),
        "2026-01-01T00:00:00Z".to_string(),
        &report,
        None,
    );
    assert_eq!(rec.status, "dry-run");
    assert_eq!(rec.details, "dry-run: no extraction performed");
    assert!(rec.artifact_path.is_none());
}

#[test]
fn firefox_profiles_count_into_the_report() {
    let mut report = ScanReport::empty(false);
    let creds = vec![magnet::nss::NssCredential {
        hostname: "h".to_string(),
        username: "u".to_string(),
        password: "p".to_string(),
    }];
    let mut errors = vec!["Firefox decrypt failed for x: user: call failed, pass: ok".to_string()];
    report.absorb_firefox_profile(&creds, &mut errors);
    assert_eq!(report.firefox_profiles_scanned, 1);
    assert_eq!(report.sources_found, 1);
    assert_eq!(report.entries_decrypted, 1);
    assert_eq!(report.errors.len(), 1);
}

#[test]
fn artifact_shows_placeholder_for_failed_secrets() {
    let entries = vec![
        DecryptedEntry {
            origin: "https://a".to_string(),
            username: "alice".to_string(),
            secret: Some("s3cret".to_string()),
        },
        DecryptedEntry {
            origin: "https://b".to_string(),
            username: "bob".to_string(),
            secret: None,
        },
    ];
    let text = artifact_text(&entries);
    assert_eq!(
        text,
        "Site: https://a\nUser: alice\nPass: s3cret\n\nSite: https://b\nUser: bob\nPass: <decrypt failed>\n\n"
    );
}

#[test]
fn details_render_counts_in_decimal() {
    let mut report = ScanReport::empty(false);
    for _ in 0..12045 {
        let creds: Vec<magnet::nss::NssCredential> = Vec::new();
        let mut errs: Vec<String> = Vec::new();
        report.absorb_firefox_profile(&creds, &mut errs);
    }
    assert_eq!(
        scan_details(&report),
        "chrome_found=false edge_found=false firefox_profiles_scanned=12045"
    );
}

#[test]
fn record_error_keeps_order() {
    let mut report = ScanReport::empty(false);
    report.record_error("first".to_string());
    report.record_error("second".to_string());
    assert_eq!(report.errors, vec!["first".to_string(), "second".to_string()]);
}

#[test]
fn scan_log_block_renders_identity_counts_and_errors() {
    let mut report = ScanReport::empty(false);
    report.record_chromium(ChromiumKind::Edge, true);
    report.record_error("Decrypt failure for https://x".to_string());
    let artifacts = vec!["C:\\t\\a.txt".to_string(), "C:\\t\\b.txt".to_string()];
    let block = magnet::report::scan_log_text("MAGNET-TEST-9", "2026-01-01T00:00:00Z", &artifacts, &report, 4);
    assert_eq!(
        block,
        "================================================================\n\
         TEST ID   : MAGNET-TEST-9\n\
         TIMESTAMP : 2026-01-01T00:00:00Z\n\
         ARTIFACTS : C:\\t\\a.txt, C:\\t\\b.txt\n\
         CHROME    : false\n\
         EDGE      : true\n\
         FIREFOX   : scanned=0, decrypted=4\n\
         ERRORS:\n\
         - Decrypt failure for https://x\n\n"
    );
}

#[test]
fn scan_log_block_omits_the_error_section_when_clean() {
    let report = ScanReport::empty(false);
    let artifacts: Vec<String> = Vec::new();
    let block = magnet::report::scan_log_text("T", "TS", &artifacts, &report, 0);
    assert!(!block.contains("ERRORS:"));
    assert!(block.contains("ARTIFACTS : \n"));
    assert!(block.ends_with("scanned=0, decrypted=0\n\n"));
}
