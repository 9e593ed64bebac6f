//! Versions and version requirements.
//!
//! A version is held as its text: a semantic version has exactly one text, so two
//! versions are the same when their texts are. A requirement is held in the text
//! that it is printed in.
use vstd::prelude::*;
use vstd::string::*;

verus! {

/// The text is a semantic version: `semver::Version::parse` accepts it.
pub uninterp spec fn version_valid(text: Seq<char>) -> bool;

/// The order of two semantic versions: -1 where the first is lower, 0 where they are
/// equal, 1 where the first is higher; nothing where either text is no version.
pub uninterp spec fn version_order(a: Seq<char>, b: Seq<char>) -> Option<i8>;

/// The printed form of the requirement that a text states, or why it states none.
pub uninterp spec fn requirement_text(text: Seq<char>) -> Result<Seq<char>, Seq<char>>;

/// Whether a version satisfies a requirement; nothing where either is malformed.
pub uninterp spec fn requirement_accepts(requirement: Seq<char>, version: Seq<char>) -> Option<
    bool,
>;

/// The first version is not above the second.
pub open spec fn not_above(a: Seq<char>, b: Seq<char>) -> bool {
    version_order(a, b) matches Some(n) && n <= 0
}

/// Calls `cmp` on two `semver::Version`s, read with `semver::Version::parse`. The order
/// is named [`version_order`]; it exists exactly where both texts are versions. Of the
/// order the contract claims that it is total, antisymmetric and transitive, as `Ord`
/// demands and as the comparison by major, minor, patch, pre-release and build shows.
#[verifier::external_body]
pub(crate) fn compare_versions(a: &str, b: &str) -> (r: Option<i8>)
    ensures
        r == version_order(a@, b@),
        r is Some == (version_valid(a@) && version_valid(b@)),
        r is Some ==> (r == Some(-1i8) || r == Some(0i8) || r == Some(1i8)),
        (version_order(b@, a@) == Some(-1i8)) == (r == Some(1i8)),
        (version_order(b@, a@) == Some(1i8)) == (r == Some(-1i8)),
        (r == Some(0i8)) == (version_valid(a@) && a@ == b@),
        forall|c: Seq<char>|
            #[trigger] not_above(c, a@) && !not_above(c, b@) ==> !(r matches Some(n) && n <= 0),
{
    match (semver::Version::parse(a), semver::Version::parse(b)) {
        (Ok(a), Ok(b)) => match a.cmp(&b) {
            std::cmp::Ordering::Less => Some(-1),
            std::cmp::Ordering::Equal => Some(0),
            std::cmp::Ordering::Greater => Some(1),
        },
        _ => None,
    }
}

/// Calls `semver::VersionReq::parse` and prints what it returned, the requirement or the
/// error. The grammar is left to that function: the outcome is named
/// [`requirement_text`].
#[verifier::external_body]
pub(crate) fn parse_requirement(text: &str) -> (r: Result<String, String>)
    ensures
        match r {
            Ok(printed) => requirement_text(text@) == Ok::<Seq<char>, Seq<char>>(printed@),
            Err(reason) => requirement_text(text@) == Err::<Seq<char>, Seq<char>>(reason@),
        },
{
    match semver::VersionReq::parse(text) {
        Ok(requirement) => Ok(requirement.to_string()),
        Err(error) => Err(error.to_string()),
    }
}

/// Calls `semver::VersionReq::matches` on a requirement and a version, read with
/// `semver::VersionReq::parse` and `semver::Version::parse`. The verdict is named
/// [`requirement_accepts`]; it exists exactly where both texts are well formed.
#[verifier::external_body]
pub(crate) fn accepts(requirement: &str, version: &str) -> (r: Option<bool>)
    ensures
        r == requirement_accepts(requirement@, version@),
        r is Some == (requirement_text(requirement@) is Ok && version_valid(version@)),
{
    match (semver::VersionReq::parse(requirement), semver::Version::parse(version)) {
        (Ok(requirement), Ok(version)) => Some(requirement.matches(&version)),
        _ => None,
    }
}

/// One version of a crate in a registry index.
#[derive(Clone, Debug, PartialEq, Eq)]
pub struct IndexVersion {
    pub version: String,
    pub yanked: bool,
}

/// The entry may be chosen: it is not yanked and its version satisfies the requirement.
pub open spec fn eligible(entry: IndexVersion, requirement: Seq<char>) -> bool {
    !entry.yanked && requirement_accepts(requirement, entry.version@) == Some(true)
}

/// Among the first `n` entries, the eligible one with the highest version; among equal
/// versions the last.
pub open spec fn highest_eligible(
    entries: Seq<IndexVersion>,
    requirement: Seq<char>,
    n: int,
) -> Option<int>
    decreases n,
{
    if n <= 0 {
        None
    } else {
        let before = highest_eligible(entries, requirement, n - 1);
        let entry = entries[n - 1];
        if !eligible(entry, requirement) {
            before
        } else {
            match before {
                Some(k) => if not_above(entries[k].version@, entry.version@) {
                    Some(n - 1)
                } else {
                    before
                },
                None => Some(n - 1),
            }
        }
    }
}

/// The entry at `k` is eligible, and no other eligible entry has a version above its own.
pub open spec fn highest_at(k: int, entries: Seq<IndexVersion>, requirement: Seq<char>) -> bool {
    &&& 0 <= k < entries.len()
    &&& eligible(entries[k], requirement)
    &&& forall|j: int|
        0 <= j < entries.len() && j != k && eligible(#[trigger] entries[j], requirement)
            ==> not_above(entries[j].version@, entries[k].version@)
}

/// The version is that of an eligible entry, and no eligible entry has one above it.
pub open spec fn is_newest(
    version: Seq<char>,
    entries: Seq<IndexVersion>,
    requirement: Seq<char>,
) -> bool {
    exists|k: int|
        #[trigger] highest_at(k, entries, requirement) && entries[k].version@ == version
}

/// The entry to use: the highest version that is not yanked and satisfies the
/// requirement. No other eligible entry has a version above the
/// chosen one.
pub fn select_version(entries: &Vec<IndexVersion>, requirement: &str) -> (r: Option<usize>)
    ensures
        match r {
            Some(k) => highest_eligible(entries@, requirement@, entries@.len() as int) == Some(
                k as int,
            ),
            None => highest_eligible(entries@, requirement@, entries@.len() as int) is None,
        },
        match r {
            Some(k) => highest_at(k as int, entries@, requirement@),
            None => forall|j: int|
                0 <= j < entries@.len() ==> !eligible(#[trigger] entries@[j], requirement@),
        },
{
    let mut best: Option<usize> = None;
    let mut i: usize = 0;
    while i < entries.len()
        invariant
            i <= entries.len(),
            match best {
                Some(k) => {
                    &&& k < i
                    &&& highest_eligible(entries@, requirement@, i as int) == Some(k as int)
                    &&& eligible(entries@[k as int], requirement@)
                    &&& version_valid(entries@[k as int].version@)
                    &&& forall|j: int|
                        0 <= j < i && j != k && eligible(
                            #[trigger] entries@[j],
                            requirement@,
                        ) ==> not_above(
                            entries@[j].version@,
                            entries@[k as int].version@,
                        )
                },
                None => {
                    &&& highest_eligible(entries@, requirement@, i as int) is None
                    &&& forall|j: int|
                        0 <= j < i ==> !eligible(#[trigger] entries@[j], requirement@)
                },
            },
        decreases entries.len() - i,
    {
        let candidate = entries[i].version.as_str();
        let fits = if entries[i].yanked {
            false
        } else {
            matches!(accepts(requirement, candidate), Some(true))
        };
        if fits {
            best = match best {
                Some(k) => match compare_versions(entries[k].version.as_str(), candidate) {
                    Some(n) => if n <= 0 {
                        Some(i)
                    } else {
                        Some(k)
                    },
                    None => Some(k),
                },
                None => Some(i),
            };
        }
        i = i + 1;
    }
    best
}

}
