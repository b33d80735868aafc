//! Download mirrors.

use vstd::prelude::*;
use vstd::string::*;
use crate::text::{replace_all, str_replace};
use crate::utils::error::AppError;

verus! {

/// The origin that release URLs name.
pub open spec fn origin() -> Seq<char> {
    "https://github.com"@
}

/// The release URL `url` as served by `mirror`: unchanged for the origin
/// itself, with each mention of the origin replaced by the mirror otherwise.
pub open spec fn mirrored(mirror: Seq<char>, url: Seq<char>) -> Seq<char> {
    if mirror == origin() {
        url
    } else {
        replace_all(url, origin(), mirror)
    }
}

/// Rewrites a release URL for a mirror.
pub fn parse_gh_url(mirror: &str, url: &str) -> (out: Result<String, AppError>)
    ensures
        out matches Ok(text) && text@ == mirrored(mirror@, url@),
{
    proof {
        reveal_strlit("https://github.com");
    }
    let origin = String::from_str("https://github.com");
    let asked = String::from_str(mirror);
    if asked == origin {
        Ok(String::from_str(url))
    } else {
        Ok(str_replace(url, "https://github.com", mirror))
    }
}

/// `std::path::Path`, carried through without a look inside.
#[verifier::external_type_specification]
#[verifier::external_body]
pub struct ExPath(std::path::Path);

/// The logs under `path`, gathered into one text. Nothing is gathered: the
/// text says so.
pub fn collect_logs(_path: &std::path::Path) -> (out: Result<String, AppError>)
    ensures
        out matches Ok(text) && text@ == "Logs collection simplified in extreme cleanup version"@,
{
    Ok(String::from_str("Logs collection simplified in extreme cleanup version"))
}

} // verus!
