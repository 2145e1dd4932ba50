//! Project-wide names and version facts.

use vstd::prelude::*;

verus! {

/// The player's version, as shown by `--version`.
pub const FESTIVAL_VERSION: &'static str = "v1.3.0";

/// The project folder name under the per-OS data root.
pub const FESTIVAL: &'static str = "Festival";

/// The sub-directory watched for file signals.
pub const SIGNAL_SUB_DIR: &'static str = "signal";

/// The sub-directory for the image cache.
pub const IMAGE_CACHE_SUB_DIR: &'static str = "image";

/// The sub-directory for miscellaneous text files.
pub const TXT_SUB_DIR: &'static str = "txt";

/// The version string is the semantic version with a `v` in front.
pub fn festival_version() -> (r: &'static str)
    ensures
        r@ == "v1.3.0"@,
        r@.len() == 6,
{
    proof {
        reveal_strlit("v1.3.0");
    }
    FESTIVAL_VERSION
}

} // verus!
