//! Build information.

use vstd::prelude::*;
use vstd::string::*;

verus! {

/// Number of characters a git SHA is abbreviated to.
pub const SHORT_SHA_LEN: usize = 7;

/// The version information of a build.
#[derive(Debug)]
pub struct VersionInfo {
    /// The version of the build.
    pub version: String,
    /// The timestamp of the build.
    pub timestamp: String,
    /// The abbreviated (most recent) git SHA used for the build.
    pub git_sha: String,
    /// The timestamp of the last git commit used for the build.
    pub git_timestamp: String,
}

impl VersionInfo {
    /// Collects the version information of a build, abbreviating the git SHA
    /// to its first seven characters.
    pub fn new(version: &str, timestamp: &str, git_sha: &str, git_timestamp: &str) -> (info: Self)
        requires
            git_sha@.len() >= SHORT_SHA_LEN,
        ensures
            info.version@ == version@,
            info.timestamp@ == timestamp@,
            info.git_sha@ == git_sha@.subrange(0, SHORT_SHA_LEN as int),
            info.git_timestamp@ == git_timestamp@,
    {
        VersionInfo {
            version: String::from_str(version),
            timestamp: String::from_str(timestamp),
            git_sha: String::from_str(git_sha.substring_char(0, SHORT_SHA_LEN)),
            git_timestamp: String::from_str(git_timestamp),
        }
    }
}

} // verus!
