//! What the sparse registry protocol says of names and addresses.
use vstd::prelude::*;
use vstd::string::*;

use crate::error::Error;
use crate::text::opt_view;

verus! {

/// Why a text is no crate name; nothing where it is one.
pub uninterp spec fn name_problem_of(name: Seq<char>) -> Option<Seq<char>>;

/// Where a version of a crate is downloaded from, given the pattern of the registry; nothing
/// where the crate has no valid name.
pub uninterp spec fn download_url_of(
    pattern: Seq<char>,
    name: Seq<char>,
    version: Seq<char>,
) -> Option<Seq<char>>;

/// A character of a crate name.
pub open spec fn is_name_char(c: char) -> bool {
    'a' <= c <= 'z' || 'A' <= c <= 'Z' || '0' <= c <= '9' || c == '-' || c == '_'
}

/// The text is a crate name.
pub open spec fn is_crate_name(name: Seq<char>) -> bool {
    name.len() > 0 && forall|i: int| 0 <= i < name.len() ==> is_name_char(#[trigger] name[i])
}

/// Calls `tame_index::KrateName::try_from` and prints the error, if any. The contract claims
/// which texts are names: those that are not empty and hold only ASCII letters and digits,
/// dashes and underscores. What is said of the others is named [`name_problem_of`].
#[verifier::external_body]
pub(crate) fn name_problem(name: &str) -> (r: Option<String>)
    ensures
        opt_view(r) == name_problem_of(name@),
        r is None == is_crate_name(name@),
{
    match tame_index::KrateName::try_from(name) {
        Ok(_) => None,
        Err(error) => Some(error.to_string()),
    }
}

/// The address under a registry whose pattern holds no marker, where one follows from that
/// alone: crates.io has an address of its own, and everywhere else name and version follow
/// the pattern.
pub open spec fn plain_download_url(
    pattern: Seq<char>,
    name: Seq<char>,
    version: Seq<char>,
) -> Option<Seq<char>> {
    if pattern == "https://crates.io/api/v1/crates"@ {
        Some("https://static.crates.io/crates/"@ + name + "/"@ + name + "-"@ + version + ".crate"@)
    } else if pattern.contains('{') {
        None
    } else {
        Some(
            pattern + (if pattern.len() > 0 && pattern.last() == '/' {
                ""@
            } else {
                "/"@
            }) + name + "/"@ + version + "/download"@,
        )
    }
}

/// Calls `download_url` of `tame_index::index::IndexConfig` with the pattern of the registry,
/// for a name read with `tame_index::KrateName::try_from`. There is a URL exactly where the
/// name is one, and without markers in the pattern it is [`plain_download_url`]. What markers
/// stand for is left to that function: the URL is named [`download_url_of`]. The function may not return for a version with a brace in
/// it, which could bring a marker back.
#[verifier::external_body]
pub(crate) fn download_url(pattern: &str, name: &str, version: &str) -> (r: Option<String>)
    requires
        !version@.contains('{'),
    ensures
        opt_view(r) == download_url_of(pattern@, name@, version@),
        r is Some == is_crate_name(name@),
        is_crate_name(name@) && plain_download_url(pattern@, name@, version@) is Some ==> opt_view(r)
            == plain_download_url(pattern@, name@, version@),
{
    let dl = pattern.to_string();
    let config = tame_index::index::IndexConfig { dl, api: None, auth_required: false };
    match tame_index::KrateName::try_from(name) {
        Ok(name) => Some(config.download_url(name, version)),
        Err(_) => None,
    }
}

/// A registry can be asked for a crate of that name, or the name is at fault.
pub open spec fn admits_name(name: Seq<char>, r: Result<(), Error>) -> bool {
    &&& r is Ok == is_crate_name(name)
    &&& r matches Err(e) ==> (e matches Error::Registry { message } && Some(message@)
        == name_problem_of(name))
}

/// Whether a registry can be asked for a crate of that name.
pub fn check_name(name: &str) -> (r: Result<(), Error>)
    ensures
        admits_name(name@, r),
{
    match name_problem(name) {
        Some(message) => Err(Error::Registry { message }),
        None => Ok(()),
    }
}

}
