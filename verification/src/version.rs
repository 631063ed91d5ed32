//! Version strings reported by the toolchain.

use vstd::prelude::*;

verus! {

/// The semantic version of the toolchain release.
pub const VERSION: &'static str = "0.9.0";

/// Release check sum, fixed at release time.
pub const CHECK_SUM: &'static str = "c020ab3eb4b9179219d6837a57f5d323";

/// Host platform triple the server was built for.
pub const PLATFORM: &'static str = "x86_64-unknown-linux-gnu";

/// Commit the release was cut from; a fixed tag here, since the build takes
/// no input from the environment.
pub const GIT_SHA: &'static str = "release";

/// What the full version string must look like: `{version}-{check_sum}`.
pub open spec fn spec_version_string() -> Seq<char> {
    VERSION@ + "-"@ + CHECK_SUM@
}

/// What the long version report must look like.
pub open spec fn spec_version_info() -> Seq<char> {
    "Version: "@ + spec_version_string() + "\r\nPlatform: "@ + PLATFORM@ + "\r\nGitCommit: "@
        + GIT_SHA@
}

/// Get the full version string with the format `{version}-{check_sum}`.
pub fn get_version_string() -> (s: String)
    ensures
        s@ == spec_version_string(),
{
    let s = String::from_str(VERSION);
    let s = s.concat("-");
    s.concat(CHECK_SUM)
}

/// Get version info including version string, platform and commit.
pub fn get_version_info() -> (s: String)
    ensures
        s@ == spec_version_info(),
{
    let s = String::from_str("Version: ");
    let s = s.concat(get_version_string().as_str());
    let s = s.concat("\r\nPlatform: ");
    let s = s.concat(PLATFORM);
    let s = s.concat("\r\nGitCommit: ");
    s.concat(GIT_SHA)
}

} // verus!
