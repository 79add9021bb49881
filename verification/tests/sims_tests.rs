use magnet::browser::BrowserPwdSimulation;
use magnet::browser::SourceKind;
use magnet::report::ChromiumKind;
use magnet::paths::join_path;
use magnet::paths::telemetry_dir_under;
use magnet::runner::Config;
use magnet::sims::DiscoverySim;
use magnet::sims::EdrDiscoverySimulation;
use magnet::sims::KeyloggerSim;
use magnet::sims::PsElevWhoami;
use magnet::sims::RansomNote;
use magnet::sims::RansomSimulation;
use magnet::sims::RecordMicSim;
use magnet::sims::RevSh;
use magnet::sims::ScheduledTaskSim;
use magnet::sims::WifiCreds;
use magnet::text::split_lines;
use magnet::text::contains_ic;
use magnet::text::make_wide;

fn cfg() -> Config {
    Config::new(false, "MAGNET-TEST-5".to_string())
}

#[test]
fn telemetry_paths_sit_under_documents() {
    assert_eq!(
        telemetry_dir_under("C:\\Users\\u"),
        "C:\\Users\\u\\Documents\\MagnetTelemetry"
    );
    assert_eq!(join_path("C:\\dir", "file.txt"), "C:\\dir\\file.txt");
}

#[test]
fn browser_store_paths_follow_the_fixed_layout() {
    assert_eq!(
        BrowserPwdSimulation::chrome_login_path("C:\\Users\\u\\AppData\\Local"),
        "C:\\Users\\u\\AppData\\Local\\Google\\Chrome\\User Data\\Default\\Login Data"
    );
    assert_eq!(
        BrowserPwdSimulation::edge_login_path("C:\\Users\\u\\AppData\\Local"),
        "C:\\Users\\u\\AppData\\Local\\Microsoft\\Edge\\User Data\\Default\\Login Data"
    );
    assert_eq!(
        BrowserPwdSimulation::firefox_profiles_root("C:\\Users\\u\\AppData\\Roaming"),
        "C:\\Users\\u\\AppData\\Roaming\\Mozilla\\Firefox\\Profiles"
    );
    let (logins, keydb) = BrowserPwdSimulation::firefox_profile_files("C:\\p\\x.default");
    assert_eq!(logins, "C:\\p\\x.default\\logins.json");
    assert_eq!(keydb, "C:\\p\\x.default\\key4.db");
    assert_eq!(
        BrowserPwdSimulation::artifact_file_name("edge", "MAGNET-TEST-5"),
        "browser_edge_MAGNET-TEST-5.txt"
    );
    let (jsonl, log) = BrowserPwdSimulation::telemetry_file_names("MAGNET-TEST-5");
    assert_eq!(jsonl, "browser_pwd_MAGNET-TEST-5.jsonl");
    assert_eq!(log, "browser_pwd_MAGNET-TEST-5.log");
}

#[test]
fn artifact_paths_carry_the_test_id() {
    let c = cfg();
    assert_eq!(
        KeyloggerSim::output_path(&c, "H:"),
        "H:\\Documents\\MagnetTelemetry\\keylogger_sim_MAGNET-TEST-5.log"
    );
    assert_eq!(
        PsElevWhoami::elevated_output_path(&c, "H:"),
        "H:\\Documents\\MagnetTelemetry\\ps_elev_whoami_MAGNET-TEST-5.txt"
    );
    assert_eq!(
        PsElevWhoami::elevated_script_path(&c, "H:"),
        "H:\\Documents\\MagnetTelemetry\\ps_elev_whoami_MAGNET-TEST-5.ps1"
    );
    assert_eq!(
        RansomSimulation::make_repo_path(&c, "H:"),
        "H:\\Documents\\MagnetTelemetry\\MagnetRepo_MAGNET-TEST-5"
    );
    assert_eq!(RecordMicSim::output_path("H:"), "H:\\Documents\\MagnetTelemetry\\recorded.wav");
    assert_eq!(RevSh::output_path("H:"), "H:\\Documents\\MagnetTelemetry\\rev_sh_sim.log");
    assert_eq!(ScheduledTaskSim::task_name(&c), "Magnet_ScheduledTask_MAGNET-TEST-5");
    assert_eq!(RansomNote::note_path("C:\\Users\\u\\Desktop"), "C:\\Users\\u\\Desktop\\RANSOM_NOTE.txt");
    assert_eq!(RansomSimulation::note_path("D:"), "D:\\RANSOM_NOTE.txt");
}

#[test]
fn discovered_sources_cover_chrome_and_edge() {
    let sources = BrowserPwdSimulation::chromium_sources("C:\\LA");
    assert_eq!(sources.len(), 2);
    assert_eq!(sources[0].kind, SourceKind::Chromium(ChromiumKind::Chrome));
    assert_eq!(sources[0].profile_path, "C:\\LA\\Google\\Chrome\\User Data\\Default\\Login Data");
    assert_eq!(sources[1].kind, SourceKind::Chromium(ChromiumKind::Edge));
    assert_eq!(sources[1].root_path, "C:\\LA");
    let ff = BrowserPwdSimulation::firefox_source("C:\\profiles", "C:\\profiles\\x.default");
    assert_eq!(ff.kind, SourceKind::Firefox);
    assert_eq!(ff.profile_path, "C:\\profiles\\x.default");
}

#[test]
fn note_content_carries_the_test_id_marker() {
    let note = RansomNote::build_note_content("MAGNET-TEST-5", "2026-01-02T03:04:05Z");
    assert!(note.contains("MAGNET-TEST-ID: MAGNET-TEST-5"));
    assert!(note.contains("TIMESTAMP: 2026-01-02T03:04:05Z"));
    assert!(note.starts_with("=== MAGNET RANSOM-NOTE SIMULATION ==="));
    assert!(note.ends_with("=== END OF NOTE ==="));
    assert!(note.contains("BENIGN TEST ARTIFACT"));
}

#[test]
fn discovery_output_is_clipped_at_the_cap() {
    let short = "plain output";
    assert_eq!(DiscoverySim::clip_output(short), short);
    let long: String = std::iter::repeat('x').take(20000).collect();
    let clipped = DiscoverySim::clip_output(&long);
    assert_eq!(clipped.len(), 16384 + "\n...TRUNCATED...".len());
    assert!(clipped.ends_with("\n...TRUNCATED..."));
}

#[test]
fn discovery_commands_and_sanitizing() {
    let cmds = DiscoverySim::default_commands();
    assert_eq!(cmds.len(), 10);
    assert_eq!(cmds[0], "whoami /all");
    assert_eq!(cmds[9], "wmic logicaldisk get deviceid,filesystem,freespace,size");
    assert_eq!(DiscoverySim::sanitize_output("  line1\r\nline2\r  "), "line1\nline2");
    assert_eq!(DiscoverySim::sanitize_output("\r\n\r\n"), "");
    assert_eq!(magnet::sims::ProcInjSim::sanitize_output("a\r\nb"), "a\nb");
}

#[test]
fn edr_scan_matches_known_products_in_any_case() {
    let tokens = EdrDiscoverySimulation::edr_tokens();
    assert_eq!(tokens.len(), 125);
    assert!(EdrDiscoverySimulation::matches_any_token("MsMpEng.exe", &tokens));
    assert!(EdrDiscoverySimulation::matches_any_token("CrowdStrike Falcon Sensor", &tokens));
    assert!(!EdrDiscoverySimulation::matches_any_token("notepad.exe", &tokens));
    assert!(contains_ic("SomeDefenderService", "defender"));
    assert!(!contains_ic("short", "longer needle"));
}

#[test]
fn key_notes_render_letters_digits_and_codes() {
    assert_eq!(KeyloggerSim::pc_key_notes(65, true), "A");
    assert_eq!(KeyloggerSim::pc_key_notes(65, false), "a");
    assert_eq!(KeyloggerSim::pc_key_notes(90, false), "z");
    assert_eq!(KeyloggerSim::pc_key_notes(49, true), "!");
    assert_eq!(KeyloggerSim::pc_key_notes(48, true), ")");
    assert_eq!(KeyloggerSim::pc_key_notes(53, false), "5");
    assert_eq!(KeyloggerSim::pc_key_notes(200, false), "VK_200");
    assert_eq!(KeyloggerSim::pc_key_notes(13, true), "VK_13");
}

#[test]
fn wide_strings_are_utf16_with_terminator() {
    assert_eq!(make_wide("AB"), vec![0x41u16, 0x42, 0]);
    // A supplementary-plane character becomes a surrogate pair.
    assert_eq!(make_wide("\u{10400}"), vec![0xD801u16, 0xDC00, 0]);
    assert_eq!(make_wide(""), vec![0u16]);
}

#[test]
fn wifi_listing_parses_profile_names() {
    let output = "\r\nProfiles on interface Wi-Fi:\r\n\r\nGroup policy profiles (read only)\r\n---------------------------------\r\n    <None>\r\n\r\nUser profiles\r\n-------------\r\n    All User Profile     : HomeNet\r\n    All User Profile     : Office WLAN\r\n    All User Profile     : HomeNet\r\n";
    let names = WifiCreds::list_profiles(output);
    assert_eq!(names, vec!["HomeNet".to_string(), "Office WLAN".to_string()]);
}

#[test]
fn wifi_listing_falls_back_to_the_looser_label() {
    let output = "Profil  : NetzEins\r\nProfile : NetzZwei\r\n";
    // No "All User Profile" label anywhere: the bare label is used instead.
    let names = WifiCreds::list_profiles(output);
    assert_eq!(names, vec!["NetzZwei".to_string()]);
}

#[test]
fn wifi_listing_ignores_lines_without_a_colon_or_name() {
    let output = "All User Profile HomeNet\nAll User Profile :    \nALL USER PROFILE : CasedNet\n";
    let names = WifiCreds::list_profiles(output);
    assert_eq!(names, vec!["CasedNet".to_string()]);
}

#[test]
fn line_splitting_handles_windows_endings() {
    assert_eq!(split_lines("a\r\nb\nc"), vec!["a".to_string(), "b".to_string(), "c".to_string()]);
    assert_eq!(split_lines("one\n"), vec!["one".to_string()]);
    assert_eq!(split_lines(""), Vec::<String>::new());
    assert_eq!(split_lines("\n"), vec!["".to_string()]);
}

#[test]
fn scheduled_task_script_carries_run_identity() {
    let c = cfg();
    assert_eq!(ScheduledTaskSim::action_script_name(&c), "task_action_MAGNET-TEST-5.ps1");
    let script = ScheduledTaskSim::action_script_content(
        &c,
        "2026-01-02T03:04:05Z",
        "C:\\t\\marker.txt",
    );
    assert_eq!(
        script,
        "$msg = 'MAGNET-SCHEDULED-TASK`nTEST_ID: MAGNET-TEST-5`nTIMESTAMP: 2026-01-02T03:04:05Z'; Set-Content -Path 'C:\\t\\marker.txt' -Value $msg -Encoding UTF8"
    );
}
