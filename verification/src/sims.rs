//! The action modules of the toolkit beyond browser extraction, with their
//! verified naming and path decisions. Every effectful part — process
//! launching, registry and account changes, network traffic — lives with the
//! program around the library; what stands here is each module's identity and
//! the pure functions its run is built on.

use vstd::prelude::*;
use vstd::string::StrSliceExecFns;
use vstd::string::StringExecFns;
use crate::paths::spec_telemetry_dir;
use crate::paths::spec_joined;
use crate::paths::telemetry_dir;
use crate::paths::telemetry_dir_under;
use crate::paths::join_path;
use crate::report::append_decimal;
use crate::report::spec_decimal;
use crate::runner::Config;
use crate::runner::Simulation;
use crate::text::sanitize_output_text;
use crate::text::spec_contains_ic;
use crate::text::spec_sanitized;
use crate::text::contains_ic;
use crate::text::push_char;
use crate::text::first_ic_index;
use crate::text::skip_spaces;
use crate::text::spec_first_ic;
use crate::text::spec_skip_spaces;
use crate::text::spec_trimmed;
use crate::text::trimmed;

verus! {

/// Creates and configures a local test user through the platform's account interfaces.
#[derive(Default)]
pub struct AdminUserAddSimulation;

impl Simulation for AdminUserAddSimulation {
    open spec fn spec_name(&self) -> Seq<char> {
        "windows::admin_user_add"@
    }

    fn name(&self) -> (r: &'static str) {
        "windows::admin_user_add"
    }
}

/// Enumerates the platform credential vault.
#[derive(Default)]
pub struct CredManagerSimulation;

impl Simulation for CredManagerSimulation {
    open spec fn spec_name(&self) -> Seq<char> {
        "windows::cred_manager_access"@
    }

    fn name(&self) -> (r: &'static str) {
        "windows::cred_manager_access"
    }
}

/// Switches remote management on, as an attacker preparing lateral movement would.
#[derive(Default)]
pub struct EnableWinRMSimulation;

impl Simulation for EnableWinRMSimulation {
    open spec fn spec_name(&self) -> Seq<char> {
        "windows::enable_winrm"@
    }

    fn name(&self) -> (r: &'static str) {
        "windows::enable_winrm"
    }
}

/// Burns CPU in a tight loop to mimic a cryptominer's load profile.
#[derive(Default)]
pub struct HighCpuMinerSimulation;

impl Simulation for HighCpuMinerSimulation {
    open spec fn spec_name(&self) -> Seq<char> {
        "windows::high_cpu_miner_sim"@
    }

    fn name(&self) -> (r: &'static str) {
        "windows::high_cpu_miner_sim"
    }
}

/// Generates bursts of outbound web requests.
#[derive(Default)]
pub struct HttpTrafficSimulation;

impl Simulation for HttpTrafficSimulation {
    open spec fn spec_name(&self) -> Seq<char> {
        "windows::http_traffic_sim"@
    }

    fn name(&self) -> (r: &'static str) {
        "windows::http_traffic_sim"
    }
}

/// Downloads and installs an interpreter, a common staging step.
#[derive(Default)]
pub struct InstallPythonSimulation;

impl Simulation for InstallPythonSimulation {
    open spec fn spec_name(&self) -> Seq<char> {
        "windows::install_python"@
    }

    fn name(&self) -> (r: &'static str) {
        "windows::install_python"
    }
}

/// Probes nearby hosts' ports.
#[derive(Default)]
pub struct NetworkPortScanSimulation;

impl Simulation for NetworkPortScanSimulation {
    open spec fn spec_name(&self) -> Seq<char> {
        "windows::network_port_scan"@
    }

    fn name(&self) -> (r: &'static str) {
        "windows::network_port_scan"
    }
}

/// Adds antivirus exclusions through the shell.
#[derive(Default)]
pub struct PsDefenderExclusions;

impl Simulation for PsDefenderExclusions {
    open spec fn spec_name(&self) -> Seq<char> {
        "windows::ps_defender_exclusions"@
    }

    fn name(&self) -> (r: &'static str) {
        "windows::ps_defender_exclusions"
    }
}

/// Captures the screen to a telemetry artifact.
#[derive(Default)]
pub struct ScreenshotSimulation;

impl Simulation for ScreenshotSimulation {
    open spec fn spec_name(&self) -> Seq<char> {
        "windows::screenshot"@
    }

    fn name(&self) -> (r: &'static str) {
        "windows::screenshot"
    }
}

/// Lists the stored wireless profiles and their keys.
#[derive(Default)]
pub struct WifiCreds;

impl Simulation for WifiCreds {
    open spec fn spec_name(&self) -> Seq<char> {
        "windows::wifi_creds"@
    }

    fn name(&self) -> (r: &'static str) {
        "windows::wifi_creds"
    }
}

/// The profile name one line of the listing yields under a given label: the
/// text after the leftmost occurrence of the label, optional whitespace and a
/// colon, trimmed; an empty name is no name.
pub open spec fn spec_profile_line_name(line: Seq<char>, label: Seq<char>) -> Option<Seq<char>> {
    match spec_first_ic(line, label, 0) {
        None => None,
        Some(i) => {
            let j = spec_skip_spaces(line, i + label.len());
            if j < line.len() && line[j] == ':' {
                let name = spec_trimmed(line.subrange(j + 1, line.len() as int));
                if name.len() > 0 {
                    Some(name)
                } else {
                    None
                }
            } else {
                None
            }
        },
    }
}

/// The names the first `i` lines yield under a label, in order.
pub open spec fn spec_profile_names_with(
    lines: Seq<Seq<char>>,
    label: Seq<char>,
    i: int,
) -> Seq<Seq<char>>
    decreases i,
{
    if i <= 0 {
        Seq::empty()
    } else {
        spec_profile_names_with(lines, label, i - 1) + match spec_profile_line_name(
            lines[i - 1],
            label,
        ) {
            Some(name) => seq![name],
            None => Seq::<Seq<char>>::empty(),
        }
    }
}

/// The first `i` names with duplicates dropped, first occurrences kept in
/// order.
pub open spec fn spec_dedup(xs: Seq<Seq<char>>, i: int) -> Seq<Seq<char>>
    decreases i,
{
    if i <= 0 {
        Seq::empty()
    } else {
        let prior = spec_dedup(xs, i - 1);
        if prior.contains(xs[i - 1]) {
            prior
        } else {
            prior.push(xs[i - 1])
        }
    }
}

/// The wireless profile names a `netsh wlan show profiles` listing carries:
/// each line's name under the `All User Profile` label — or, when no line
/// carries that label, under the bare `Profile` label — deduplicated with
/// first occurrences kept in order.
pub open spec fn spec_wifi_profile_names(output: Seq<char>) -> Seq<Seq<char>> {
    let lines = crate::text::spec_lines_from(output, 0);
    let primary = spec_profile_names_with(lines, "All User Profile"@, lines.len() as int);
    let names = if primary.len() == 0 {
        spec_profile_names_with(lines, "Profile"@, lines.len() as int)
    } else {
        primary
    };
    spec_dedup(names, names.len() as int)
}

fn profile_line_name(line: &str, label: &str) -> (r: Option<String>)
    ensures
        match r {
            Some(name) => spec_profile_line_name(line@, label@) == Some(name@),
            None => spec_profile_line_name(line@, label@) is None,
        },
{
    let i = match first_ic_index(line, label) {
        Some(i) => i,
        None => return None,
    };
    let n = line.unicode_len();
    let nl = label.unicode_len();
    proof {
        crate::text::lemma_first_ic_some(line@, label@, 0, i as int);
    }
    let j = skip_spaces(line, i + nl);
    if j < n && line.get_char(j) == ':' {
        let name = trimmed(line.substring_char(j + 1, n));
        if name.as_str().unicode_len() > 0 {
            Some(name)
        } else {
            None
        }
    } else {
        None
    }
}

fn profile_names_with(lines: &Vec<String>, label: &str) -> (r: Vec<String>)
    ensures
        crate::store::strings_view(r@) == spec_profile_names_with(
            crate::store::strings_view(lines@),
            label@,
            lines@.len() as int,
        ),
{
    let ghost lv = crate::store::strings_view(lines@);
    let mut out: Vec<String> = Vec::new();
    let mut i: usize = 0;
    proof {
        assert(crate::store::strings_view(out@) =~= spec_profile_names_with(lv, label@, 0));
    }
    while i < lines.len()
        invariant
            i <= lines@.len(),
            lv == crate::store::strings_view(lines@),
            crate::store::strings_view(out@) == spec_profile_names_with(lv, label@, i as int),
        decreases lines@.len() - i,
    {
        let ghost pre = out@;
        match profile_line_name(lines[i].as_str(), label) {
            Some(name) => {
                let ghost namev = name@;
                out.push(name);
                proof {
                    crate::runner::lemma_strings_view_push(pre, out@[out@.len() - 1]);
                    assert(crate::store::strings_view(out@) =~= spec_profile_names_with(
                        lv,
                        label@,
                        i + 1,
                    ));
                }
            },
            None => {
                proof {
                    assert(crate::store::strings_view(out@) =~= spec_profile_names_with(
                        lv,
                        label@,
                        i + 1,
                    ));
                }
            },
        }
        i = i + 1;
    }
    out
}

fn dedup_names(xs: &Vec<String>) -> (r: Vec<String>)
    ensures
        crate::store::strings_view(r@) == spec_dedup(
            crate::store::strings_view(xs@),
            xs@.len() as int,
        ),
{
    let ghost xv = crate::store::strings_view(xs@);
    let mut out: Vec<String> = Vec::new();
    let mut i: usize = 0;
    proof {
        assert(crate::store::strings_view(out@) =~= spec_dedup(xv, 0));
    }
    while i < xs.len()
        invariant
            i <= xs@.len(),
            xv == crate::store::strings_view(xs@),
            crate::store::strings_view(out@) == spec_dedup(xv, i as int),
        decreases xs@.len() - i,
    {
        let ghost prior = crate::store::strings_view(out@);
        let mut g: usize = 0;
        let mut found = false;
        while g < out.len() && !found
            invariant
                g <= out@.len(),
                prior == crate::store::strings_view(out@),
                i < xs@.len(),
                xv == crate::store::strings_view(xs@),
                !found ==> forall|h: int| 0 <= h < g ==> prior[h] != xv[i as int],
                found ==> g < out@.len() && prior[g as int] == xv[i as int],
            decreases out@.len() - g + if found {
                0int
            } else {
                1int
            },
        {
            if out[g].eq(&xs[i]) {
                found = true;
            } else {
                g = g + 1;
            }
        }
        if found {
            proof {
                assert(prior.contains(xv[i as int]));
                assert(crate::store::strings_view(out@) =~= spec_dedup(xv, i + 1));
            }
        } else {
            proof {
                assert(!prior.contains(xv[i as int])) by {
                    if prior.contains(xv[i as int]) {
                        let w = choose|w: int| 0 <= w < prior.len() && prior[w] == xv[i as int];
                    }
                }
            }
            let ghost pre = out@;
            out.push(xs[i].clone());
            proof {
                crate::runner::lemma_strings_view_push(pre, xs@[i as int]);
                assert(crate::store::strings_view(out@) =~= spec_dedup(xv, i + 1));
            }
        }
        i = i + 1;
    }
    out
}

impl WifiCreds {
    /// Parses the wireless-profile listing: one name per line that carries
    /// the profile label, falling back to a looser label when none does,
    /// duplicates dropped.
    pub fn list_profiles(output: &str) -> (r: Vec<String>)
        ensures
            crate::store::strings_view(r@) == spec_wifi_profile_names(output@),
    {
        let lines = crate::text::split_lines(output);
        let primary = profile_names_with(&lines, "All User Profile");
        let names = if primary.len() == 0 {
            profile_names_with(&lines, "Profile")
        } else {
            primary
        };
        dedup_names(&names)
    }
}

/// Grants broad permissions on a test directory.
#[derive(Default)]
pub struct DirectoryPermissionsSim;

impl Simulation for DirectoryPermissionsSim {
    open spec fn spec_name(&self) -> Seq<char> {
        "windows::directory_permissions"@
    }

    fn name(&self) -> (r: &'static str) {
        "windows::directory_permissions"
    }
}

impl DirectoryPermissionsSim {
    /// The directory this module's artifacts land in, when the platform
    /// reports a home directory.
    pub fn telemetry_dir() -> (r: Option<String>)
        ensures
            r matches Some(p) ==> exists|home: Seq<char>| p@ == spec_telemetry_dir(home),
    {
        telemetry_dir()
    }
}

/// Runs a fixed batch of host-discovery commands and records their output.
#[derive(Default)]
pub struct DiscoverySim;

impl Simulation for DiscoverySim {
    open spec fn spec_name(&self) -> Seq<char> {
        "windows::discovery_sim"@
    }

    fn name(&self) -> (r: &'static str) {
        "windows::discovery_sim"
    }
}

/// How much of one command's output is kept for telemetry.
pub const MAX_CAPTURE_CHARS: usize = 16384;

/// Captured output clipped at the cap, with a marker where it was cut.
pub open spec fn spec_clipped(s: Seq<char>, cap: int) -> Seq<char> {
    if s.len() > cap {
        s.subrange(0, cap) + "\n...TRUNCATED..."@
    } else {
        s
    }
}

impl DiscoverySim {
    /// Clips one command's captured output to the telemetry cap.
    pub fn clip_output(s: &str) -> (r: String)
        ensures
            r@ == spec_clipped(s@, MAX_CAPTURE_CHARS as int),
    {
        let n = s.unicode_len();
        if n > MAX_CAPTURE_CHARS {
            let mut clipped = s.substring_char(0, MAX_CAPTURE_CHARS).to_owned();
            clipped.append("\n...TRUNCATED...");
            clipped
        } else {
            s.to_owned()
        }
    }

    /// The discovery commands a run executes, in order.
    pub fn default_commands() -> (r: Vec<&'static str>)
        ensures
            r@.len() == 10,
            r@[0]@ == "whoami /all"@,
            r@[1]@ == "net user"@,
            r@[2]@ == "net localgroup administrators"@,
            r@[3]@ == "tasklist /v"@,
            r@[4]@ == "query user"@,
            r@[5]@ == "systeminfo"@,
            r@[6]@ == "ipconfig /all"@,
            r@[7]@ == "netstat -ano"@,
            r@[8]@ == "wmic product get name,version"@,
            r@[9]@ == "wmic logicaldisk get deviceid,filesystem,freespace,size"@,
    {
        let mut c: Vec<&'static str> = Vec::new();
    c.push("whoami /all");
    c.push("net user");
    c.push("net localgroup administrators");
    c.push("tasklist /v");
    c.push("query user");
    c.push("systeminfo");
    c.push("ipconfig /all");
    c.push("netstat -ano");
    c.push("wmic product get name,version");
    c.push("wmic logicaldisk get deviceid,filesystem,freespace,size");
        c
    }

    /// Normalizes one command's captured output: carriage returns dropped,
    /// surrounding whitespace trimmed.
    pub fn sanitize_output(s: &str) -> (r: String)
        ensures
            r@ == spec_sanitized(s@),
    {
        sanitize_output_text(s)
    }
}

/// Loads a burst of suspiciously named libraries to exercise image-load
/// telemetry.
#[derive(Default)]
pub struct DllLoadStormSimulation;

impl Simulation for DllLoadStormSimulation {
    open spec fn spec_name(&self) -> Seq<char> {
        "windows::dll_load_storm"@
    }

    fn name(&self) -> (r: &'static str) {
        "windows::dll_load_storm"
    }
}

/// One library-load attempt of the storm.
pub struct LoadResult {
    pub timestamp: String,
    pub dll_name: String,
    pub success: bool,
}

impl LoadResult {
    /// The record of one attempt.
    pub fn new(timestamp: String, dll_name: String, success: bool) -> (r: LoadResult)
        ensures
            r.timestamp@ == timestamp@,
            r.dll_name@ == dll_name@,
            r.success == success,
    {
        LoadResult { timestamp, dll_name, success }
    }
}

/// Looks for endpoint-protection products among processes, services and
/// program directories.
#[derive(Default)]
pub struct EdrDiscoverySimulation;

impl Simulation for EdrDiscoverySimulation {
    open spec fn spec_name(&self) -> Seq<char> {
        "windows::edr_discovery"@
    }

    fn name(&self) -> (r: &'static str) {
        "windows::edr_discovery"
    }
}

impl EdrDiscoverySimulation {
    /// The product tokens the scan looks for.
    #[verifier::rlimit(50)]
    pub fn edr_tokens() -> (r: Vec<&'static str>)
        ensures
            r@.len() == 125,
    {
        let mut t: Vec<&'static str> = Vec::new();
    t.push("activeconsole");
    t.push("ADA-PreCheck");
    t.push("ahnlab");
    t.push("amsi.dll");
    t.push("anti malware");
    t.push("anti-malware");
    t.push("antimalware");
    t.push("anti virus");
    t.push("anti-virus");
    t.push("antivirus");
    t.push("appsense");
    t.push("attivo networks");
    t.push("attivonetworks");
    t.push("authtap");
    t.push("avast");
    t.push("avecto");
    t.push("bitdefender");
    t.push("blackberry");
    t.push("canary");
    t.push("carbonblack");
    t.push("carbon black");
    t.push("cb.exe");
    t.push("check point");
    t.push("ciscoamp");
    t.push("cisco amp");
    proof { assert(t@.len() == 25); }
    t.push("countercept");
    t.push("countertack");
    t.push("cramtray");
    t.push("crssvc");
    t.push("crowdstrike");
    t.push("csagent");
    t.push("csfalcon");
    t.push("csshell");
    t.push("cybereason");
    t.push("cyclorama");
    t.push("cylance");
    t.push("cynet");
    t.push("cyoptics");
    t.push("cyupdate");
    t.push("cyvera");
    t.push("cyserver");
    t.push("cytray");
    t.push("darktrace");
    t.push("deep instinct");
    t.push("defendpoint");
    t.push("defender");
    t.push("eectrl");
    t.push("elastic");
    t.push("endgame");
    t.push("f-secure");
    proof { assert(t@.len() == 50); }
    t.push("forcepoint");
    t.push("fortinet");
    t.push("fireeye");
    t.push("groundling");
    t.push("GRRservic");
    t.push("harfanglab");
    t.push("inspector");
    t.push("ivanti");
    t.push("juniper networks");
    t.push("kaspersky");
    t.push("lacuna");
    t.push("logrhythm");
    t.push("malware");
    t.push("malwarebytes");
    t.push("mandiant");
    t.push("mcafee");
    t.push("morphisec");
    t.push("msascuil");
    t.push("msmpeng");
    t.push("nissrv");
    t.push("omni");
    t.push("omniagent");
    t.push("osquery");
    t.push("Palo Alto Networks");
    t.push("pgeposervice");
    proof { assert(t@.len() == 75); }
    t.push("pgsystemtray");
    t.push("privilegeguard");
    t.push("procwall");
    t.push("protectorservic");
    t.push("qianxin");
    t.push("qradar");
    t.push("qualys");
    t.push("rapid7");
    t.push("redcloak");
    t.push("red canary");
    t.push("SanerNow");
    t.push("sangfor");
    t.push("secureworks");
    t.push("securityhealthservice");
    t.push("semlaunchsv");
    t.push("sentinel");
    t.push("sentinelone");
    t.push("sepliveupdat");
    t.push("sisidsservice");
    t.push("sisipsservice");
    t.push("sisipsutil");
    t.push("smc.exe");
    t.push("smcgui");
    t.push("snac64");
    t.push("somma");
    proof { assert(t@.len() == 100); }
    t.push("sophos");
    t.push("splunk");
    t.push("srtsp");
    t.push("symantec");
    t.push("symcorpu");
    t.push("symefasi");
    t.push("sysinternal");
    t.push("sysmon");
    t.push("tanium");
    t.push("tda.exe");
    t.push("tdawork");
    t.push("tehtris");
    t.push("threat");
    t.push("trellix");
    t.push("tpython");
    t.push("trend micro");
    t.push("uptycs");
    t.push("vectra");
    t.push("watchguard");
    t.push("wincollect");
    t.push("windowssensor");
    t.push("wireshark");
    t.push("withsecure");
    t.push("xagt.exe");
    t.push("xagtnotif.exe");
        t
    }

    /// Whether a process, service or file name names any of the tokens,
    /// ignoring ASCII case.
    pub fn matches_any_token(name: &str, tokens: &Vec<&'static str>) -> (r: bool)
        ensures
            r == exists|i: int|
                0 <= i < tokens@.len() && #[trigger] spec_contains_ic(name@, tokens@[i]@),
    {
        let mut i: usize = 0;
        while i < tokens.len()
            invariant
                i <= tokens@.len(),
                forall|j: int| 0 <= j < i ==> !(#[trigger] spec_contains_ic(name@, tokens@[j]@)),
            decreases tokens@.len() - i,
        {
            if contains_ic(name, tokens[i]) {
                return true;
            }
            i = i + 1;
        }
        false
    }
}

/// Observes keystrokes into a telemetry log.
#[derive(Default)]
pub struct KeyloggerSim;

impl Simulation for KeyloggerSim {
    open spec fn spec_name(&self) -> Seq<char> {
        "windows::keylogger_sim"@
    }

    fn name(&self) -> (r: &'static str) {
        "windows::keylogger_sim"
    }
}

/// The shifted form of one digit key's character.
pub open spec fn spec_shifted_digit(k: u8) -> Seq<char> {
    if k == 48 {
        ")"@
    } else if k == 49 {
        "!"@
    } else if k == 50 {
        "@"@
    } else if k == 51 {
        "#"@
    } else if k == 52 {
        "$"@
    } else if k == 53 {
        "%"@
    } else if k == 54 {
        "^"@
    } else if k == 55 {
        "&"@
    } else if k == 56 {
        "*"@
    } else {
        "("@
    }
}

/// The note one virtual-key code yields: letters honour shift and caps,
/// digits turn into their shifted symbols, and anything else is spelled
/// `VK_` with the code.
pub open spec fn spec_pc_key_note(k: u8, is_shift_or_caps: bool) -> Seq<char> {
    if 65 <= k && k <= 90 {
        if is_shift_or_caps {
            seq![k as char]
        } else {
            seq![((k + 32) as u8) as char]
        }
    } else if 48 <= k && k <= 57 {
        if is_shift_or_caps {
            spec_shifted_digit(k)
        } else {
            seq![k as char]
        }
    } else {
        "VK_"@ + spec_decimal(k as int)
    }
}

impl KeyloggerSim {
    /// Where the keystroke log lands:
    /// `<telemetry>\keylogger_sim_<test id>.log`.
    pub fn output_path(cfg: &Config, home: &str) -> (r: String)
        ensures
            r@ == spec_telemetry_dir(home@) + "\\keylogger_sim_"@ + cfg.test_id@ + ".log"@,
    {
        let mut p = telemetry_dir_under(home);
        p.append("\\keylogger_sim_");
        p.append(cfg.test_id.as_str());
        p.append(".log");
        p
    }

    /// Renders one observed virtual-key code.
    pub fn pc_key_notes(k: u8, is_shift_or_caps: bool) -> (r: String)
        ensures
            r@ == spec_pc_key_note(k, is_shift_or_caps),
    {
        if 65 <= k && k <= 90 {
            let c = if is_shift_or_caps {
                k as char
            } else {
                (k + 32) as char
            };
            let mut s = String::new();
            push_char(&mut s, c);
            proof {
                assert(s@ =~= spec_pc_key_note(k, is_shift_or_caps));
            }
            s
        } else if 48 <= k && k <= 57 {
            if is_shift_or_caps {
                shifted_digit(k).to_owned()
            } else {
                let mut s = String::new();
                push_char(&mut s, k as char);
                proof {
                    assert(s@ =~= spec_pc_key_note(k, is_shift_or_caps));
                }
                s
            }
        } else {
            let mut s = "VK_".to_owned();
            append_decimal(&mut s, k as u64);
            s
        }
    }
}

fn shifted_digit(k: u8) -> (r: &'static str)
    requires
        48 <= k <= 57,
    ensures
        r@ == spec_shifted_digit(k),
{
    if k == 48 {
        ")"
    } else if k == 49 {
        "!"
    } else if k == 50 {
        "@"
    } else if k == 51 {
        "#"
    } else if k == 52 {
        "$"
    } else if k == 53 {
        "%"
    } else if k == 54 {
        "^"
    } else if k == 55 {
        "&"
    } else if k == 56 {
        "*"
    } else {
        "("
    }
}

/// Injects benign shellcode into a sacrificial process.
#[derive(Default)]
pub struct ProcInjSim;

impl Simulation for ProcInjSim {
    open spec fn spec_name(&self) -> Seq<char> {
        "windows::proc_inj_sim"@
    }

    fn name(&self) -> (r: &'static str) {
        "windows::proc_inj_sim"
    }
}

impl ProcInjSim {
    /// Normalizes captured output: carriage returns dropped, surrounding
    /// whitespace trimmed.
    pub fn sanitize_output(s: &str) -> (r: String)
        ensures
            r@ == spec_sanitized(s@),
    {
        sanitize_output_text(s)
    }
}

/// Runs an elevated shell command and records who it ran as.
#[derive(Default)]
pub struct PsElevWhoami;

impl Simulation for PsElevWhoami {
    open spec fn spec_name(&self) -> Seq<char> {
        "windows::ps_elev_whoami"@
    }

    fn name(&self) -> (r: &'static str) {
        "windows::ps_elev_whoami"
    }
}

impl PsElevWhoami {
    /// Where the elevated command's output lands:
    /// `<telemetry>\ps_elev_whoami_<test id>.txt`.
    pub fn elevated_output_path(cfg: &Config, home: &str) -> (r: String)
        ensures
            r@ == spec_telemetry_dir(home@) + "\\ps_elev_whoami_"@ + cfg.test_id@ + ".txt"@,
    {
        let mut p = telemetry_dir_under(home);
        p.append("\\ps_elev_whoami_");
        p.append(cfg.test_id.as_str());
        p.append(".txt");
        p
    }

    /// Where the elevated script is staged:
    /// `<telemetry>\ps_elev_whoami_<test id>.ps1`.
    pub fn elevated_script_path(cfg: &Config, home: &str) -> (r: String)
        ensures
            r@ == spec_telemetry_dir(home@) + "\\ps_elev_whoami_"@ + cfg.test_id@ + ".ps1"@,
    {
        let mut p = telemetry_dir_under(home);
        p.append("\\ps_elev_whoami_");
        p.append(cfg.test_id.as_str());
        p.append(".ps1");
        p
    }
}

/// Drops a clearly marked, benign ransom note on the desktop.
#[derive(Default)]
pub struct RansomNote;

/// The note's full text: fixed benign lines around the run identifier and
/// timestamp, joined with Windows line endings.
pub open spec fn spec_note_content(test_id: Seq<char>, timestamp: Seq<char>) -> Seq<char> {
    "=== MAGNET RANSOM-NOTE SIMULATION ===\r\n\r\nTHIS IS A BENIGN TEST ARTIFACT CREATED BY THE MAGNET TOOL.\r\nDO NOT RESPOND — this file is safe and created for purple-team testing.\r\n\r\nMAGNET-TEST-ID: "@
        + test_id + "\r\nTIMESTAMP: "@ + timestamp
        + "\r\n\r\nTo the SOC: This artifact is used to validate detection, ingestion and response.\r\n\r\n=== END OF NOTE ==="@
}

impl Simulation for RansomNote {
    open spec fn spec_name(&self) -> Seq<char> {
        "windows::ransom_note"@
    }

    fn name(&self) -> (r: &'static str) {
        "windows::ransom_note"
    }
}

impl RansomNote {
    /// Where the note lands: `<desktop>\RANSOM_NOTE.txt`.
    pub fn note_path(desktop: &str) -> (r: String)
        ensures
            r@ == spec_joined(desktop@, "RANSOM_NOTE.txt"@),
    {
        join_path(desktop, "RANSOM_NOTE.txt")
    }

    /// Renders the note for this run.
    pub fn build_note_content(test_id: &str, timestamp: &str) -> (r: String)
        ensures
            r@ == spec_note_content(test_id@, timestamp@),
    {
        let mut s =
            "=== MAGNET RANSOM-NOTE SIMULATION ===\r\n\r\nTHIS IS A BENIGN TEST ARTIFACT CREATED BY THE MAGNET TOOL.\r\nDO NOT RESPOND — this file is safe and created for purple-team testing.\r\n\r\nMAGNET-TEST-ID: ".to_owned();
        s.append(test_id);
        s.append("\r\nTIMESTAMP: ");
        s.append(timestamp);
        s.append(
            "\r\n\r\nTo the SOC: This artifact is used to validate detection, ingestion and response.\r\n\r\n=== END OF NOTE ===",
        );
        s
    }
}

/// Encrypts a disposable repository of test files and leaves a note, the way
/// ransomware would.
#[derive(Default)]
pub struct RansomSimulation;

impl Simulation for RansomSimulation {
    open spec fn spec_name(&self) -> Seq<char> {
        "windows::ransomware_sim"@
    }

    fn name(&self) -> (r: &'static str) {
        "windows::ransomware_sim"
    }
}

impl RansomSimulation {
    /// Where the note lands: `<desktop>\RANSOM_NOTE.txt`.
    pub fn note_path(desktop: &str) -> (r: String)
        ensures
            r@ == spec_joined(desktop@, "RANSOM_NOTE.txt"@),
    {
        join_path(desktop, "RANSOM_NOTE.txt")
    }

    /// Renders the note for this run; the text matches the standalone note
    /// module's.
    pub fn build_note_content(test_id: &str, timestamp: &str) -> (r: String)
        ensures
            r@ == spec_note_content(test_id@, timestamp@),
    {
        RansomNote::build_note_content(test_id, timestamp)
    }

    /// Where the disposable file repository is created:
    /// `<telemetry>\MagnetRepo_<test id>`.
    pub fn make_repo_path(cfg: &Config, home: &str) -> (r: String)
        ensures
            r@ == spec_telemetry_dir(home@) + "\\MagnetRepo_"@ + cfg.test_id@,
    {
        let mut p = telemetry_dir_under(home);
        p.append("\\MagnetRepo_");
        p.append(cfg.test_id.as_str());
        p
    }
}

/// Records a short clip from the default microphone.
#[derive(Default)]
pub struct RecordMicSim;

impl Simulation for RecordMicSim {
    open spec fn spec_name(&self) -> Seq<char> {
        "windows::record_mic"@
    }

    fn name(&self) -> (r: &'static str) {
        "windows::record_mic"
    }
}

impl RecordMicSim {
    /// Where the recording lands: `<telemetry>\recorded.wav`.
    pub fn output_path(home: &str) -> (r: String)
        ensures
            r@ == spec_telemetry_dir(home@) + "\\recorded.wav"@,
    {
        let mut p = telemetry_dir_under(home);
        p.append("\\recorded.wav");
        p
    }
}

/// Opens a loopback shell session and logs the exchange.
#[derive(Default)]
pub struct RevSh;

impl Simulation for RevSh {
    open spec fn spec_name(&self) -> Seq<char> {
        "windows::rev_sh"@
    }

    fn name(&self) -> (r: &'static str) {
        "windows::rev_sh"
    }
}

impl RevSh {
    /// Where the session log lands: `<telemetry>\rev_sh_sim.log`.
    pub fn output_path(home: &str) -> (r: String)
        ensures
            r@ == spec_telemetry_dir(home@) + "\\rev_sh_sim.log"@,
    {
        let mut p = telemetry_dir_under(home);
        p.append("\\rev_sh_sim.log");
        p
    }
}

/// Registers a benign scheduled task to exercise persistence telemetry.
#[derive(Default)]
pub struct ScheduledTaskSim;

impl Simulation for ScheduledTaskSim {
    open spec fn spec_name(&self) -> Seq<char> {
        "windows::scheduled_task_sim"@
    }

    fn name(&self) -> (r: &'static str) {
        "windows::scheduled_task_sim"
    }
}

impl ScheduledTaskSim {
    /// The name of the staged script file: `task_action_<test id>.ps1`.
    pub fn action_script_name(cfg: &Config) -> (r: String)
        ensures
            r@ == "task_action_"@ + cfg.test_id@ + ".ps1"@,
    {
        let mut s = "task_action_".to_owned();
        s.append(cfg.test_id.as_str());
        s.append(".ps1");
        s
    }

    /// The staged script's text: it writes a marker carrying the run
    /// identifier and timestamp to the artifact path.
    pub fn action_script_content(cfg: &Config, timestamp: &str, artifact_path: &str) -> (r: String)
        ensures
            r@ == "$msg = 'MAGNET-SCHEDULED-TASK`nTEST_ID: "@ + cfg.test_id@ + "`nTIMESTAMP: "@
                + timestamp@ + "'; Set-Content -Path '"@ + artifact_path@
                + "' -Value $msg -Encoding UTF8"@,
    {
        let mut s = "$msg = 'MAGNET-SCHEDULED-TASK`nTEST_ID: ".to_owned();
        s.append(cfg.test_id.as_str());
        s.append("`nTIMESTAMP: ");
        s.append(timestamp);
        s.append("'; Set-Content -Path '");
        s.append(artifact_path);
        s.append("' -Value $msg -Encoding UTF8");
        s
    }

    /// The task's name, carrying the run identifier:
    /// `Magnet_ScheduledTask_<test id>`.
    pub fn task_name(cfg: &Config) -> (r: String)
        ensures
            r@ == "Magnet_ScheduledTask_"@ + cfg.test_id@,
    {
        let mut s = "Magnet_ScheduledTask_".to_owned();
        s.append(cfg.test_id.as_str());
        s
    }
}

} // verus!
