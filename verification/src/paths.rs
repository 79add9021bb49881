//! Well-known filesystem locations the action modules write to and read from.
//!
//! Where the platform's idea of home or desktop is needed, a trusted lookup
//! provides the directory text and verified code builds every path under it.

use vstd::prelude::*;
use vstd::string::StringExecFns;

verus! {

/// Relies on dirs::home_dir: the current user's home directory, if the
/// platform reports one; nothing is promised of the value.
#[verifier::external_body]
pub(crate) fn home_dir_text() -> (r: Option<String>) {
    dirs::home_dir().map(|p| p.to_string_lossy().into_owned())
}

/// The telemetry directory under a home directory.
pub open spec fn spec_telemetry_dir(home: Seq<char>) -> Seq<char> {
    home + "\\Documents\\MagnetTelemetry"@
}

/// The telemetry directory under the given home directory:
/// `<home>\Documents\MagnetTelemetry`.
pub fn telemetry_dir_under(home: &str) -> (r: String)
    ensures
        r@ == spec_telemetry_dir(home@),
{
    let mut p = home.to_owned();
    p.append("\\Documents\\MagnetTelemetry");
    p
}

/// The telemetry directory for the current user, when the platform reports a
/// home directory.
pub fn telemetry_dir() -> (r: Option<String>)
    ensures
        r matches Some(p) ==> exists|home: Seq<char>| p@ == spec_telemetry_dir(home),
{
    match home_dir_text() {
        Some(home) => {
            let p = telemetry_dir_under(home.as_str());
            proof {
                assert(p@ == spec_telemetry_dir(home@));
            }
            Some(p)
        },
        None => None,
    }
}

/// A file or directory under a directory, joined with the platform separator.
pub open spec fn spec_joined(dir: Seq<char>, name: Seq<char>) -> Seq<char> {
    dir + "\\"@ + name
}

/// Joins one more component onto a path.
pub fn join_path(dir: &str, name: &str) -> (r: String)
    ensures
        r@ == spec_joined(dir@, name@),
{
    let mut p = dir.to_owned();
    p.append("\\");
    p.append(name);
    p
}

} // verus!
