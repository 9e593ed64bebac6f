//! Where prebuilt binaries come from.
//!
//! Each provider knows where a binary of a crate might be. What they share is here: the
//! names that release assets go by, the check of what was downloaded, and where a binary is
//! kept.
pub mod binstall;
pub mod delivery;
pub mod github;
pub mod gitlab;
pub mod quickinstall;

use vstd::prelude::*;
use vstd::string::*;

use crate::digest::{lossy_text, lossy_text_of, sha256_hex, sha256_of};
use crate::error::Error;
use crate::paths::{JoinedPath, PathView};
use crate::resolver::{ResolvedCrate, ResolvedSource};
use crate::text::{
    ends_with, first_word, first_word_of, has_suffix, same, trim_end, trimmed_end,
};

verus! {

/// How a release asset is packed.
#[derive(Clone, Copy, Debug, PartialEq, Eq, Structural)]
pub enum ArchiveFormat {
    TarGz,
    TarXz,
    TarZst,
    Zip,
    /// Not packed: the asset is the binary itself.
    Bare,
}

/// The file name suffix of a format.
pub open spec fn suffix_of(format: ArchiveFormat) -> Seq<char> {
    match format {
        ArchiveFormat::TarGz => ".tar.gz"@,
        ArchiveFormat::TarXz => ".tar.xz"@,
        ArchiveFormat::TarZst => ".tar.zst"@,
        ArchiveFormat::Zip => ".zip"@,
        ArchiveFormat::Bare => ""@,
    }
}

/// The formats that assets are looked for in, the preferred one first.
pub open spec fn formats() -> Seq<ArchiveFormat> {
    seq![
        ArchiveFormat::TarGz,
        ArchiveFormat::TarXz,
        ArchiveFormat::TarZst,
        ArchiveFormat::Zip,
        ArchiveFormat::Bare,
    ]
}

impl ArchiveFormat {
    /// The formats that assets are looked for in, the preferred one first.
    pub fn all_formats() -> (r: Vec<ArchiveFormat>)
        ensures
            r@ == formats(),
    {
        let r = vec![
            ArchiveFormat::TarGz,
            ArchiveFormat::TarXz,
            ArchiveFormat::TarZst,
            ArchiveFormat::Zip,
            ArchiveFormat::Bare,
        ];
        assert(r@ =~= formats());
        r
    }

    /// The file name suffix of the format.
    pub fn suffix(self) -> (r: &'static str)
        ensures
            r@ == suffix_of(self),
    {
        match self {
            ArchiveFormat::TarGz => ".tar.gz",
            ArchiveFormat::TarXz => ".tar.xz",
            ArchiveFormat::TarZst => ".tar.zst",
            ArchiveFormat::Zip => ".zip",
            ArchiveFormat::Bare => "",
        }
    }
}

/// A name that a release asset might go by, and how it would be packed.
#[derive(Clone, Debug, PartialEq, Eq)]
pub struct CandidateFilename {
    pub filename: String,
    pub format: ArchiveFormat,
}

/// The names that an asset might go by in one format.
pub open spec fn names_in_format(
    name: Seq<char>,
    version: Seq<char>,
    platform: Seq<char>,
    suffix: Seq<char>,
) -> Seq<Seq<char>> {
    seq![
        name + "-"@ + platform + "-v"@ + version + suffix,
        name + "-"@ + platform + "-"@ + version + suffix,
        name + "-v"@ + version + "-"@ + platform + suffix,
        name + "-"@ + version + "-"@ + platform + suffix,
        name + "_"@ + platform + "_v"@ + version + suffix,
        name + "_"@ + platform + "_"@ + version + suffix,
        name + "_v"@ + version + "_"@ + platform + suffix,
        name + "_"@ + version + "_"@ + platform + suffix,
        name + "-"@ + platform + suffix,
        name + "_"@ + platform + suffix,
    ]
}

/// The candidates in the given formats, format by format.
pub open spec fn candidates_in(
    name: Seq<char>,
    version: Seq<char>,
    platform: Seq<char>,
    formats: Seq<ArchiveFormat>,
) -> Seq<(Seq<char>, ArchiveFormat)>
    decreases formats.len(),
{
    if formats.len() == 0 {
        Seq::empty()
    } else {
        let format = formats.last();
        candidates_in(name, version, platform, formats.drop_last()) + names_in_format(
            name,
            version,
            platform,
            suffix_of(format),
        ).map_values(|n: Seq<char>| (n, format))
    }
}

/// The candidates for a crate, in the order in which they are preferred.
pub open spec fn candidates_of(
    name: Seq<char>,
    version: Seq<char>,
    platform: Seq<char>,
) -> Seq<(Seq<char>, ArchiveFormat)> {
    candidates_in(name, version, platform, formats())
}

/// What candidates say.
pub open spec fn candidate_views(candidates: Seq<CandidateFilename>) -> Seq<
    (Seq<char>, ArchiveFormat),
> {
    candidates.map_values(|c: CandidateFilename| (c.filename@, c.format))
}

fn push_candidate(
    candidates: &mut Vec<CandidateFilename>,
    stem: String,
    format: ArchiveFormat,
)
    ensures
        candidate_views(final(candidates)@) == candidate_views(old(candidates)@).push(
            (stem@ + suffix_of(format), format),
        ),
{
    let ghost before = candidates@;
    candidates.push(CandidateFilename { filename: stem.concat(format.suffix()), format });
    assert(candidate_views(candidates@) =~= candidate_views(before).push(
        (stem@ + suffix_of(format), format),
    ));
}

/// The names that a release asset of a crate might go by: its name, the platform and the
/// version, put together in the ways that are common, with each archive suffix.
pub fn generate_candidate_filenames(name: &str, version: &str, platform: &str) -> (r: Vec<
    CandidateFilename,
>)
    ensures
        candidate_views(r@) == candidates_of(name@, version@, platform@),
{
    let all = ArchiveFormat::all_formats();
    let mut r: Vec<CandidateFilename> = Vec::new();
    let mut i: usize = 0;
    assert(candidate_views(r@) =~= candidates_in(name@, version@, platform@, all@.take(0)));
    while i < all.len()
        invariant
            i <= all.len(),
            all@ == formats(),
            candidate_views(r@) == candidates_in(
                name@,
                version@,
                platform@,
                all@.take(i as int),
            ),
        decreases all.len() - i,
    {
        let format = all[i];
        let ghost before = candidate_views(r@);
        let by_dash = name.to_owned().concat("-");
        let by_line = name.to_owned().concat("_");
        push_candidate(&mut r, by_dash.clone().concat(platform).concat("-v").concat(version), format);
        push_candidate(&mut r, by_dash.clone().concat(platform).concat("-").concat(version), format);
        push_candidate(
            &mut r,
            name.to_owned().concat("-v").concat(version).concat("-").concat(platform),
            format,
        );
        push_candidate(&mut r, by_dash.clone().concat(version).concat("-").concat(platform), format);
        push_candidate(&mut r, by_line.clone().concat(platform).concat("_v").concat(version), format);
        push_candidate(&mut r, by_line.clone().concat(platform).concat("_").concat(version), format);
        push_candidate(
            &mut r,
            name.to_owned().concat("_v").concat(version).concat("_").concat(platform),
            format,
        );
        push_candidate(&mut r, by_line.clone().concat(version).concat("_").concat(platform), format);
        push_candidate(&mut r, by_dash.concat(platform), format);
        push_candidate(&mut r, by_line.concat(platform), format);
        proof {
            let seen = all@.take(i + 1);
            assert(seen.drop_last() =~= all@.take(i as int));
            assert(candidate_views(r@) =~= before + names_in_format(
                name@,
                version@,
                platform@,
                suffix_of(format),
            ).map_values(|n: Seq<char>| (n, format)));
        }
        i = i + 1;
    }
    assert(all@.take(i as int) =~= all@);
    r
}

/// The name under which an asset is unpacked, which says how it is packed.
pub open spec fn archive_name_of(asset: Seq<char>) -> Seq<char> {
    if has_suffix(asset, ".tar.gz"@) {
        "archive.tar.gz"@
    } else if has_suffix(asset, ".tar.xz"@) {
        "archive.tar.xz"@
    } else if has_suffix(asset, ".tar.zst"@) {
        "archive.tar.zst"@
    } else if has_suffix(asset, ".zip"@) {
        "archive.zip"@
    } else {
        "archive"@
    }
}

/// The name under which an asset is unpacked.
pub fn archive_name(asset: &str) -> (r: &'static str)
    ensures
        r@ == archive_name_of(asset@),
{
    if ends_with(asset, ".tar.gz") {
        "archive.tar.gz"
    } else if ends_with(asset, ".tar.xz") {
        "archive.tar.xz"
    } else if ends_with(asset, ".tar.zst") {
        "archive.tar.zst"
    } else if ends_with(asset, ".zip") {
        "archive.zip"
    } else {
        "archive"
    }
}

/// The base URL of a forge: the custom one without slashes at its end, else the public one.
pub open spec fn base_url_of(custom_url: Option<String>, public: Seq<char>) -> Seq<char> {
    trimmed_end(
        match custom_url {
            Some(url) => url@,
            None => public,
        },
        "/"@,
    )
}

/// The URL of a repository in a forge.
pub open spec fn repository_url_of(
    custom_url: Option<String>,
    public: Seq<char>,
    owner: Seq<char>,
    repo: Seq<char>,
) -> Seq<char> {
    base_url_of(custom_url, public) + "/"@ + owner + "/"@ + repo
}

/// The URL of a repository in a forge.
pub fn repository_url(
    custom_url: &Option<String>,
    public: &str,
    owner: &str,
    repo: &str,
) -> (r: String)
    ensures
        r@ == repository_url_of(*custom_url, public@, owner@, repo@),
{
    proof {
        reveal_strlit("/");
    }
    let base = match custom_url {
        Some(url) => trim_end(url.as_str(), "/"),
        None => trim_end(public, "/"),
    };
    base.concat("/").concat(owner).concat("/").concat(repo)
}

/// The crate comes from a registry, which may know its repository.
pub open spec fn from_registry(krate: ResolvedCrate) -> bool {
    krate.source is CratesIo || krate.source is Registry
}

/// Whether the registry has to be asked for the crate's repository.
pub fn needs_registry_lookup(krate: &ResolvedCrate) -> (r: bool)
    ensures
        r == from_registry(*krate),
{
    matches!(krate.source, ResolvedSource::CratesIo | ResolvedSource::Registry { .. })
}

/// What the checksum file says: its first word.
pub open spec fn stated_checksum(checksum_data: Seq<u8>) -> Seq<char> {
    first_word_of(lossy_text_of(checksum_data))
}

/// The data has the checksum that a checksum file states, or the error says which it has.
pub open spec fn verifies(r: Result<String, Error>, data: Seq<u8>, checksum: Seq<u8>) -> bool {
    &&& r is Ok <==> sha256_of(data) == stated_checksum(checksum)
    &&& match r {
        Ok(hash) => hash@ == sha256_of(data),
        Err(e) => e matches Error::ChecksumMismatch { expected, actual } && (if stated_checksum(
            checksum,
        ).len() == 0 {
            expected@ == lossy_text_of(checksum) && actual@ == "invalid checksum format"@
        } else {
            expected@ == stated_checksum(checksum) && actual@ == sha256_of(data)
        }),
    }
}

/// Whether the data has the checksum that a checksum file states. The checksum is returned
/// where it does. A file that states none fails like one that states another.
pub fn verify_checksum(data: &[u8], checksum_data: &[u8]) -> (r: Result<String, Error>)
    ensures
        verifies(r, data@, checksum_data@),
{
    let checksum = lossy_text(checksum_data);
    let actual = sha256_hex(data);
    match first_word(checksum.as_str()) {
        Some(expected) => if same(expected.as_str(), actual.as_str()) {
            Ok(expected)
        } else {
            Err(Error::ChecksumMismatch { expected, actual })
        },
        None => Err(
            Error::ChecksumMismatch {
                expected: checksum,
                actual: "invalid checksum format".to_owned(),
            },
        ),
    }
}

/// Where a provider's binary of a crate is kept.
pub open spec fn binary_path_of(
    cache_dir: PathView,
    provider: Seq<char>,
    krate: ResolvedCrate,
    platform: Seq<char>,
    exe_suffix: Seq<char>,
) -> PathView {
    cache_dir.join("binaries"@).join(provider).join(krate.name@).join(krate.version@).join(
        platform,
    ).join(krate.name@ + exe_suffix)
}

/// Where a provider's binary of a crate is kept.
pub fn binary_path(
    cache_dir: &JoinedPath,
    provider: &str,
    krate: &ResolvedCrate,
    platform: &str,
    exe_suffix: &str,
) -> (r: JoinedPath)
    ensures
        r@ == binary_path_of(cache_dir@, provider@, *krate, platform@, exe_suffix@),
{
    cache_dir.copied().join("binaries").join(provider).join(krate.name.as_str()).join(
        krate.version.as_str(),
    ).join(platform).join(krate.name.clone().concat(exe_suffix).as_str())
}

proof fn suffix_chars(text: Seq<char>, suffix: Seq<char>, back: int)
    requires
        has_suffix(text, suffix),
        0 <= back < suffix.len(),
    ensures
        text[text.len() - 1 - back] == suffix[suffix.len() - 1 - back],
{
    let from = text.len() - suffix.len();
    assert(text.subrange(from, from + suffix.len())[suffix.len() - 1 - back] == text[text.len() - 1
        - back]);
}

proof fn appended_suffix(stem: Seq<char>, suffix: Seq<char>)
    ensures
        has_suffix(stem + suffix, suffix),
{
    let text = stem + suffix;
    assert(text.subrange(text.len() - suffix.len(), text.len() as int) =~= suffix);
}

proof fn named_in_format(
    name: Seq<char>,
    version: Seq<char>,
    platform: Seq<char>,
    suffix: Seq<char>,
    i: int,
)
    requires
        0 <= i < 10,
    ensures
        has_suffix(names_in_format(name, version, platform, suffix)[i], suffix),
{
    appended_suffix(name + "-"@ + platform + "-v"@ + version, suffix);
    appended_suffix(name + "-"@ + platform + "-"@ + version, suffix);
    appended_suffix(name + "-v"@ + version + "-"@ + platform, suffix);
    appended_suffix(name + "-"@ + version + "-"@ + platform, suffix);
    appended_suffix(name + "_"@ + platform + "_v"@ + version, suffix);
    appended_suffix(name + "_"@ + platform + "_"@ + version, suffix);
    appended_suffix(name + "_v"@ + version + "_"@ + platform, suffix);
    appended_suffix(name + "_"@ + version + "_"@ + platform, suffix);
    appended_suffix(name + "-"@ + platform, suffix);
    appended_suffix(name + "_"@ + platform, suffix);
}

proof fn candidate_suffixes(
    name: Seq<char>,
    version: Seq<char>,
    platform: Seq<char>,
    formats: Seq<ArchiveFormat>,
)
    ensures
        candidates_in(name, version, platform, formats).len() == 10 * formats.len(),
        forall|i: int|
            0 <= i < 10 * formats.len() ==> has_suffix(
                (#[trigger] candidates_in(name, version, platform, formats)[i]).0,
                suffix_of(candidates_in(name, version, platform, formats)[i].1),
            ),
    decreases formats.len(),
{
    if formats.len() > 0 {
        let before = candidates_in(name, version, platform, formats.drop_last());
        let all = candidates_in(name, version, platform, formats);
        let suffix = suffix_of(formats.last());
        candidate_suffixes(name, version, platform, formats.drop_last());
        assert forall|i: int| 0 <= i < 10 * formats.len() implies has_suffix(
            (#[trigger] all[i]).0,
            suffix_of(all[i].1),
        ) by {
            if i < before.len() {
                assert(all[i] == before[i]);
            } else {
                named_in_format(name, version, platform, suffix, i - before.len());
            }
        }
    }
}

/// There are ten candidates for each format, each ends with the suffix of the format that it
/// carries, and a packed one is unpacked under the name that says so.
pub proof fn candidates_carry_their_format(
    name: Seq<char>,
    version: Seq<char>,
    platform: Seq<char>,
    i: int,
)
    requires
        0 <= i < candidates_of(name, version, platform).len(),
    ensures
        candidates_of(name, version, platform).len() == 10 * formats().len(),
        ({
            let (filename, format) = candidates_of(name, version, platform)[i];
            &&& has_suffix(filename, suffix_of(format))
            &&& format != ArchiveFormat::Bare ==> archive_name_of(filename) == "archive"@
                + suffix_of(format)
        }),
{
    candidate_suffixes(name, version, platform, formats());
    reveal_strlit(".tar.gz");
    reveal_strlit(".tar.xz");
    reveal_strlit(".tar.zst");
    reveal_strlit(".zip");
    reveal_strlit("archive");
    reveal_strlit("archive.tar.gz");
    reveal_strlit("archive.tar.xz");
    reveal_strlit("archive.tar.zst");
    reveal_strlit("archive.zip");
    assert("archive"@ + ".tar.gz"@ =~= "archive.tar.gz"@);
    assert("archive"@ + ".tar.xz"@ =~= "archive.tar.xz"@);
    assert("archive"@ + ".tar.zst"@ =~= "archive.tar.zst"@);
    assert("archive"@ + ".zip"@ =~= "archive.zip"@);
    let filename = candidates_of(name, version, platform)[i].0;
    let format = candidates_of(name, version, platform)[i].1;
    if format != ArchiveFormat::Bare {
        suffix_chars(filename, suffix_of(format), 0);
        suffix_chars(filename, suffix_of(format), 1);
        if has_suffix(filename, ".tar.gz"@) {
            suffix_chars(filename, ".tar.gz"@, 0);
            suffix_chars(filename, ".tar.gz"@, 1);
        }
        if has_suffix(filename, ".tar.xz"@) {
            suffix_chars(filename, ".tar.xz"@, 0);
            suffix_chars(filename, ".tar.xz"@, 1);
        }
        if has_suffix(filename, ".tar.zst"@) {
            suffix_chars(filename, ".tar.zst"@, 0);
            suffix_chars(filename, ".tar.zst"@, 1);
        }
    }
}

}
