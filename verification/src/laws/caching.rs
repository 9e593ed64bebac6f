//! Caches and downloads: where things are kept, when they are used again, and what is got.
use vstd::prelude::*;
use vstd::string::*;
use vstd::utf8::encode_utf8;

use crate::bin_resolver::ResolvedBinary;
use crate::cache::{
    binary_entry_path_of, fetched, git_checkout_path_of, git_db_path_of, git_ident_of, is_fresh,
    is_transient, resolution_outcome, resolve_path_of, settled, settled_outcome, source_path_of,
    BinaryEntry, Cache, CacheEntry, CachedCrate, Renamed,
};
use crate::config::UsePrebuiltBinaries;
use crate::cratespec::{git_url_of, Forge, RegistrySource};
use crate::digest::sha256_of;
use crate::downloader::{
    accepts_address, chooses_entry, finds_version, is_offline_error, unpacks_to,
    DefaultCrateDownloader, DownloadPlan, DownloadedCrate, IndexAnswer,
};
use crate::error::Error;
use crate::git::Error as GitError;
use crate::laws::texts::{
    separated_texts_come_apart, texts_without_separator, trimming_takes_repetitions,
};
use crate::messages::BinResolutionMessage;
use crate::paths::{at, JoinedPath, PathView};
use crate::resolver::{IndexChoice, RegistryQuery, ResolvedCrate, ResolvedSource};
use crate::text::{has_suffix, trimmed_end, views};
use crate::version::{version_valid, IndexVersion};

verus! {

/// The location is the segments below the directory.
pub open spec fn is_below(place: PathView, dir: PathView, segments: Seq<Seq<char>>) -> bool {
    place.base == dir.base && place.segments == dir.segments + segments
}

/// The hexadecimal digest of a text.
pub open spec fn digest(text: Seq<char>) -> Seq<char> {
    sha256_of(encode_utf8(text))
}

/// The sources of a crate are kept by where they come from, and there by what tells two of
/// them apart.
pub proof fn sources_are_kept_by_origin(dir: PathView, krate: ResolvedCrate)
    ensures
        krate.source is CratesIo ==> is_below(
            source_path_of(dir, krate),
            dir,
            seq!["sources"@, "crates-io"@, krate.name@, krate.version@],
        ),
        krate.source matches ResolvedSource::Registry { source: RegistrySource::Named(registry) }
            ==> is_below(
            source_path_of(dir, krate),
            dir,
            seq!["sources"@, "registry"@, registry@, krate.name@, krate.version@],
        ),
        krate.source matches ResolvedSource::Registry { source: RegistrySource::IndexUrl(url) }
            ==> is_below(
            source_path_of(dir, krate),
            dir,
            seq!["sources"@, "registry-index"@, digest(url@), krate.name@, krate.version@],
        ),
        krate.source matches ResolvedSource::Git { repo, commit } ==> is_below(
            source_path_of(dir, krate),
            dir,
            seq!["sources"@, "git"@, digest(repo@), commit@],
        ),
        krate.source matches ResolvedSource::Forge {
            forge: Forge::GitHub { owner, repo, .. },
            commit,
        } ==> is_below(
            source_path_of(dir, krate),
            dir,
            seq!["sources"@, "github"@, owner@, repo@, commit@],
        ),
        krate.source matches ResolvedSource::Forge {
            forge: Forge::GitLab { owner, repo, .. },
            commit,
        } ==> is_below(
            source_path_of(dir, krate),
            dir,
            seq!["sources"@, "gitlab"@, owner@, repo@, commit@],
        ),
{
    let got = source_path_of(dir, krate).segments;
    match krate.source {
        ResolvedSource::CratesIo => {
            assert(got =~= dir.segments + seq![
                "sources"@,
                "crates-io"@,
                krate.name@,
                krate.version@,
            ]);
        },
        ResolvedSource::Registry { source: RegistrySource::Named(registry) } => {
            assert(got =~= dir.segments + seq![
                "sources"@,
                "registry"@,
                registry@,
                krate.name@,
                krate.version@,
            ]);
        },
        ResolvedSource::Registry { source: RegistrySource::IndexUrl(url) } => {
            assert(got =~= dir.segments + seq![
                "sources"@,
                "registry-index"@,
                digest(url@),
                krate.name@,
                krate.version@,
            ]);
        },
        ResolvedSource::Git { repo, commit } => {
            assert(got =~= dir.segments + seq!["sources"@, "git"@, digest(repo@), commit@]);
        },
        ResolvedSource::Forge { forge: Forge::GitHub { owner, repo, .. }, commit } => {
            assert(got =~= dir.segments + seq!["sources"@, "github"@, owner@, repo@, commit@]);
        },
        ResolvedSource::Forge { forge: Forge::GitLab { owner, repo, .. }, commit } => {
            assert(got =~= dir.segments + seq!["sources"@, "gitlab"@, owner@, repo@, commit@]);
        },
        ResolvedSource::LocalDir { .. } => {},
    }
}

/// Repositories are kept by the identifier of their URL, working trees below that by commit,
/// and resolutions and searches by the digest of what was asked.
pub proof fn repositories_are_kept_by_url(
    dir: PathView,
    url: Seq<char>,
    commit: Seq<char>,
    json: Seq<char>,
)
    ensures
        is_below(git_db_path_of(dir, url), dir, seq!["git-db"@, git_ident_of(url)]),
        is_below(
            git_checkout_path_of(dir, url, commit),
            dir,
            seq!["git-checkouts"@, git_ident_of(url), commit],
        ),
        is_below(resolve_path_of(dir, json), dir, seq!["resolve"@, digest(json) + ".json"@]),
        is_below(
            binary_entry_path_of(dir, json),
            dir,
            seq!["resolve-binary"@, digest(json) + ".json"@],
        ),
{
    assert(git_db_path_of(dir, url).segments =~= dir.segments + seq![
        "git-db"@,
        git_ident_of(url),
    ]);
    assert(git_checkout_path_of(dir, url, commit).segments =~= dir.segments + seq![
        "git-checkouts"@,
        git_ident_of(url),
        commit,
    ]);
    assert(resolve_path_of(dir, json).segments =~= dir.segments + seq![
        "resolve"@,
        digest(json) + ".json"@,
    ]);
    assert(binary_entry_path_of(dir, json).segments =~= dir.segments + seq![
        "resolve-binary"@,
        digest(json) + ".json"@,
    ]);
}

/// The identifier of a URL is the name of the repository, a dash and eight digits of the
/// digest of the whole URL. Slashes and `.git` at the end are not part of the name.
pub proof fn identifiers_name_the_repository(head: Seq<char>, name: Seq<char>)
    requires
        name.len() > 0,
        !name.contains('/'),
        !has_suffix(name, ".git"@),
    ensures
        ({
            let url = head.push('/') + name;
            &&& git_ident_of(url) == name + "-"@ + digest(url).take(8)
            &&& git_ident_of(url + ".git"@) == name + "-"@ + digest(url + ".git"@).take(8)
            &&& git_ident_of(url + "/"@) == name + "-"@ + digest(url + "/"@).take(8)
            &&& git_ident_of(url + ".git"@ + "/"@) == name + "-"@ + digest(
                url + ".git"@ + "/"@,
            ).take(8)
        }),
{
    reveal_strlit("/");
    reveal_strlit(".git");
    let url = head.push('/') + name;
    let dotted = url + ".git"@;
    assert(url.last() == name.last());
    assert(name.contains(name[name.len() - 1]));
    if has_suffix(url, "/"@) {
        assert(url.subrange(url.len() - 1, url.len() as int)[0] == "/"@[0]);
    }
    if has_suffix(dotted, "/"@) {
        assert(dotted.subrange(dotted.len() - 1, dotted.len() as int)[0] == "/"@[0]);
        assert(dotted.last() == ".git"@[3]);
    }
    if has_suffix(url, ".git"@) {
        let tail = url.subrange(url.len() - 4, url.len() as int);
        assert(tail == ".git"@);
        if name.len() >= 4 {
            assert(name.subrange(name.len() - 4, name.len() as int) =~= tail);
        } else {
            let k = 3 - name.len();
            assert(tail[k] == url[url.len() - 4 + k]);
            assert(tail[k] == '/');
        }
    }
    trimming_takes_repetitions(url, "/"@);
    trimming_takes_repetitions(dotted, "/"@);
    trimming_takes_repetitions(url, ".git"@);
    separated_texts_come_apart(head, '/', name);
}

/// A cached value is used for exactly as long as its age is below the timeout; a clock that
/// went back makes it no older.
pub proof fn entries_are_used_while_they_are_young<T>(
    value: T,
    cached_at: i128,
    now: i128,
    timeout: u128,
)
    ensures
        !is_fresh(None::<CacheEntry<T>>, now, timeout),
        is_fresh(Some(CacheEntry { value, cached_at }), now, timeout) <==> timeout > 0 && now
            - cached_at < timeout,
{
}

/// A result of the resolver comes out unless it is a failure of the registry, of git or of the
/// file system, and an old value is there to be used in its place.
pub proof fn old_values_serve_for_outages_only<T>(
    stale: Option<CacheEntry<T>>,
    outcome: Result<T, Error>,
)
    ensures
        stale is None ==> resolution_outcome(stale, outcome) == outcome,
        outcome is Ok ==> resolution_outcome(stale, outcome) == outcome,
        stale is Some && outcome is Err ==> ({
            let e = outcome->Err_0;
            &&& e is Registry || e is Git || e is Io ==> resolution_outcome(stale, outcome) == Ok::<
                T,
                Error,
            >(stale->Some_0.value)
            &&& !(e is Registry || e is Git || e is Io) ==> resolution_outcome(stale, outcome)
                == outcome
        }),
        outcome matches Err(e) ==> (is_transient(e) <==> e is Registry || e is Git || e is Io),
{
}

/// That there is no prebuilt binary is an error exactly where only a prebuilt one will do;
/// every other result stays.
pub proof fn missing_binaries_are_errors_where_needed(
    mode: UsePrebuiltBinaries,
    krate: ResolvedCrate,
    outcome: Result<Option<ResolvedBinary>, Error>,
)
    ensures
        outcome is Err ==> settled_outcome(mode, krate, outcome) == outcome,
        outcome matches Ok(Some(_)) ==> settled_outcome(mode, krate, outcome) == outcome,
        outcome matches Ok(found) ==> settled_outcome(mode, krate, outcome) == settled(
            mode,
            krate,
            found,
        ),
        mode == UsePrebuiltBinaries::Always ==> (settled(mode, krate, None) matches Err(
            Error::PrebuiltBinaryRequired { name, version },
        ) && name@ == krate.name@ && version@ == krate.version@),
        mode != UsePrebuiltBinaries::Always ==> settled(mode, krate, None) == Ok::<
            Option<ResolvedBinary>,
            Error,
        >(None),
{
}

/// A search is taken from the cache while it is young and nobody asks for a new one; offline
/// whenever there is one, and no new one is made.
pub proof fn searches_are_made_when_needed(
    cache: Cache,
    entry: Option<BinaryEntry>,
    refresh: bool,
    now: i128,
)
    ensures
        cache.config.offline ==> (cache.uses_binary_entry(entry, refresh, now) <==> entry is Some),
        !cache.config.offline ==> (cache.uses_binary_entry(entry, refresh, now) <==> !refresh
            && entry is Some && cache.config.resolve_cache_timeout > 0 && now
            - entry->Some_0.cached_at < cache.config.resolve_cache_timeout),
        cache.searches(entry, refresh, now) <==> !cache.config.offline && !cache.uses_binary_entry(
            entry,
            refresh,
            now,
        ),
{
}

/// A lookup is reported with whether it was a hit, unless the cache is bypassed.
pub proof fn lookups_are_reported(
    cache: Cache,
    messages: Seq<BinResolutionMessage>,
    krate: ResolvedCrate,
    entry: Option<BinaryEntry>,
    refresh: bool,
    now: i128,
)
    requires
        cache.reports_lookup(messages, krate, entry, refresh, now),
    ensures
        messages.len() == 0 <==> refresh && !cache.config.offline,
        messages.len() > 0 ==> messages.len() == 2 && messages[0] == (
        BinResolutionMessage::CacheLookup { krate }) && (messages[1] == (
        BinResolutionMessage::CacheHit { krate }) <==> cache.uses_binary_entry(entry, refresh, now))
            && (messages[1] == (BinResolutionMessage::CacheMiss { krate })
            <==> !cache.uses_binary_entry(entry, refresh, now)),
{
}

/// What is kept of a crate is that crate, where its sources are kept.
pub proof fn cached_crates_are_in_place(cache: Cache, cached: CachedCrate, krate: ResolvedCrate)
    requires
        cache.keeps(cached, krate),
    ensures
        cached.resolved == krate,
        cached.crate_path@ == source_path_of(cache.config.cache_dir@, krate),
{
}

/// Losing a race is as good as winning it, and every other failure comes out as it is.
pub proof fn races_are_no_failures<T>(r: Result<T, Error>, outcome: Result<Renamed, Error>)
    requires
        fetched(r, outcome),
    ensures
        outcome matches Ok(Renamed::Moved) ==> r is Ok,
        outcome matches Ok(Renamed::AlreadyExists) ==> r is Ok,
        outcome matches Ok(Renamed::Failed(e)) ==> r == Err::<T, Error>(e),
        outcome matches Err(e) ==> r == Err::<T, Error>(e),
{
}

/// Each crate is got from where it comes from: a local one is there, one of a repository or a
/// forge is checked out at its commit, and one of a registry is kept in the cache.
pub proof fn crates_are_got_from_their_source(
    downloader: DefaultCrateDownloader,
    plan: DownloadPlan,
    krate: ResolvedCrate,
)
    requires
        downloader.gets(plan, krate),
    ensures
        krate.source matches ResolvedSource::LocalDir { path } ==> (
        plan matches DownloadPlan::Local { path: p } && p@ == at(path@)),
        krate.source matches ResolvedSource::Git { repo, commit } ==> (
        plan matches DownloadPlan::Checkout { url, commit: c } && url@ == repo@ && c@ == commit@),
        krate.source matches ResolvedSource::Forge { forge, commit } ==> (
        plan matches DownloadPlan::Checkout { url, commit: c } && url@ == git_url_of(forge) && c@
            == commit@),
        krate.source is CratesIo || krate.source is Registry ==> (
        plan matches DownloadPlan::Registry { path } && path@ == source_path_of(
            downloader.cache.config.cache_dir@,
            krate,
        )),
{
}

/// A crate of a forge and the crate of its clone URL at the same commit are got alike.
pub proof fn forges_are_got_like_repositories(
    downloader: DefaultCrateDownloader,
    forge: Forge,
    repo: String,
    commit: String,
    a: ResolvedCrate,
    b: ResolvedCrate,
    of_forge: DownloadPlan,
    of_repository: DownloadPlan,
)
    requires
        repo@ == git_url_of(forge),
        a.source == (ResolvedSource::Forge { forge, commit }),
        b.source == (ResolvedSource::Git { repo, commit }),
        downloader.gets(of_forge, a),
        downloader.gets(of_repository, b),
    ensures
        of_forge is Checkout && of_repository is Checkout,
        of_forge->url@ == of_repository->url@,
        of_forge->commit@ == of_repository->commit@,
        of_forge->commit@ == commit@,
{
}

/// A checkout that failed is passed on, and offline means that the network is needed; one that
/// went well is the crate in the working tree.
pub proof fn checkouts_give_the_crate(
    downloader: DefaultCrateDownloader,
    r: Result<DownloadedCrate, Error>,
    krate: ResolvedCrate,
    outcome: Result<JoinedPath, GitError>,
)
    requires
        downloader.checkout_gives(r, krate, outcome),
    ensures
        r is Ok <==> outcome is Ok,
        outcome matches Ok(path) ==> r->Ok_0.resolved == krate && r->Ok_0.crate_path == path,
        outcome matches Err(e) ==> !downloader.config.offline ==> r == Err::<DownloadedCrate, Error>(
            Error::Git { source: e },
        ),
        outcome is Err && downloader.config.offline ==> (r matches Err(
            Error::OfflineMode { name, version },
        ) && name@ == krate.name@ && version@ == krate.version@),
{
}

/// The registry that a crate comes from is asked for it, by its name, and offline only what is
/// cached.
pub proof fn registries_are_asked_for_their_crates(
    downloader: DefaultCrateDownloader,
    r: Result<RegistryQuery, Error>,
    krate: ResolvedCrate,
)
    requires
        downloader.asks_for(r, krate),
    ensures
        r matches Ok(query) ==> {
            &&& query.name@ == krate.name@
            &&& query.cached_only == downloader.config.offline
            &&& krate.source is CratesIo ==> query.index is CratesIo
            &&& krate.source matches ResolvedSource::Registry {
                source: RegistrySource::Named(name),
            } ==> query.index == IndexChoice::Named(name)
            &&& krate.source matches ResolvedSource::Registry {
                source: RegistrySource::IndexUrl(url),
            } ==> query.index == IndexChoice::Url(url)
        },
        r is Ok <==> krate.name@.len() > 0 && forall|i: int|
            0 <= i < krate.name@.len() ==> crate::laws::resolving::is_letter_digit_or_dash(
                #[trigger] krate.name@[i],
            ),
        r is Err ==> r->Err_0 is Registry,
{
    if r is Ok {
        assert forall|i: int|
            0 <= i < krate.name@.len() implies crate::laws::resolving::is_letter_digit_or_dash(
            #[trigger] krate.name@[i],
        ) by {
            assert(crate::registry::is_name_char(krate.name@[i]));
        }
    }
}

/// The entry to download is the first with exactly the version that was resolved, yanked or
/// not. A version that the registry does not have is an error, and so is a text that is none.
pub proof fn exact_versions_are_downloaded(
    r: Result<usize, Error>,
    krate: ResolvedCrate,
    entries: Vec<IndexVersion>,
)
    requires
        chooses_entry(r, krate, IndexAnswer::Versions(entries)),
    ensures
        r is Ok <==> version_valid(krate.version@) && exists|i: int|
            0 <= i < entries@.len() && (#[trigger] entries@[i]).version@ == krate.version@,
        r matches Ok(i) ==> i < entries@.len() && entries@[i as int].version@ == krate.version@
            && forall|j: int| 0 <= j < i ==> (#[trigger] entries@[j]).version@ != krate.version@,
        r matches Err(e) ==> (e matches Error::NoMatchingVersion { name, requirement } && name@
            == krate.name@ && requirement@ == krate.version@),
{
    if let Ok(i) = r {
        assert(entries@[i as int].version@ == krate.version@);
        assert forall|j: int| 0 <= j < i implies (#[trigger] entries@[j]).version@
            != krate.version@ by {
            assert(!crate::downloader::is_version_entry(entries@[j], krate.version@));
        }
    } else {
        assert forall|i: int| 0 <= i < entries@.len() && version_valid(krate.version@) implies (
        #[trigger] entries@[i]).version@ != krate.version@ by {
            assert(!crate::downloader::is_version_entry(entries@[i], krate.version@));
        }
    }
}

/// A crate that the registry does not have is not found.
pub proof fn missing_crates_are_not_found(r: Result<usize, Error>, krate: ResolvedCrate)
    requires
        chooses_entry(r, krate, IndexAnswer::Missing),
    ensures
        r matches Err(Error::CrateNotFoundInRegistry { name }) && name@ == krate.name@,
{
}

/// An address is taken as it is, and without one there is nothing to download.
pub proof fn addresses_are_taken_as_they_are(
    r: Result<String, Error>,
    krate: ResolvedCrate,
    address: Option<String>,
)
    requires
        accepts_address(r, krate, address),
    ensures
        address matches Some(url) ==> r == Ok::<String, Error>(url),
        address is None ==> (r matches Err(Error::DownloadUrlUnavailable { name, version })
            && name@ == krate.name@ && version@ == krate.version@),
{
}

/// An entry of an archive lands below the directory of the download, at the path that is left
/// without its first component; without a path left it is passed over.
pub proof fn archives_lose_their_first_directory(
    place: Option<JoinedPath>,
    dir: PathView,
    first: Seq<char>,
    rest: Seq<Seq<char>>,
)
    requires
        unpacks_to(place, dir, seq![first] + rest),
    ensures
        rest.len() == 0 <==> place is None,
        place matches Some(path) ==> is_below(path@, dir, rest),
{
    assert((seq![first] + rest).skip(1) =~= rest);
}

/// What is delivered is the crate that was asked for, where its sources are kept.
pub proof fn deliveries_are_in_place(
    downloader: DefaultCrateDownloader,
    downloaded: DownloadedCrate,
    krate: ResolvedCrate,
)
    requires
        downloader.delivers(Ok(downloaded), krate),
    ensures
        downloaded.resolved == krate,
        downloaded.crate_path@ == source_path_of(downloader.cache.config.cache_dir@, krate),
{
}

/// What cannot be got offline is named.
pub proof fn offline_errors_name_the_crate(e: Error, krate: ResolvedCrate)
    requires
        is_offline_error(e, krate),
    ensures
        e matches Error::OfflineMode { name, version } && name@ == krate.name@ && version@
            == krate.version@,
{
}

/// A crate is looked up in the cache while its entry is young; otherwise the resolver is asked,
/// and what it found, and only that, is stored. An old entry serves for outages only.
pub proof fn crates_are_resolved_once(
    cache: Cache,
    entry: Option<CacheEntry<ResolvedCrate>>,
    now: i128,
    asked: Option<Result<ResolvedCrate, Error>>,
    r: (Result<ResolvedCrate, Error>, bool),
)
    requires
        cache.finds_crate(entry, now, asked, r),
    ensures
        asked is None <==> entry is Some && cache.config.resolve_cache_timeout > 0 && now
            - entry->Some_0.cached_at < cache.config.resolve_cache_timeout,
        asked is None ==> r.0 == Ok::<ResolvedCrate, Error>(entry->Some_0.value) && !r.1,
        asked matches Some(Ok(krate)) ==> r.0 == Ok::<ResolvedCrate, Error>(krate) && r.1,
        asked matches Some(Err(e)) ==> {
            &&& !r.1
            &&& entry is Some && (e is Registry || e is Git || e is Io) ==> r.0 == Ok::<
                ResolvedCrate,
                Error,
            >(entry->Some_0.value)
            &&& entry is None || !(e is Registry || e is Git || e is Io) ==> r.0 == Err::<
                ResolvedCrate,
                Error,
            >(e)
        },
{
}

/// A prebuilt binary is looked up in the cache while the entry is young and nobody asks for a
/// new search, and always offline; otherwise the providers are asked, and what they found, and
/// only that, is stored. That there is none is an error exactly where only a prebuilt binary
/// will do. With a new search an old entry serves for nothing.
pub proof fn binaries_are_searched_once(
    cache: Cache,
    krate: ResolvedCrate,
    mode: UsePrebuiltBinaries,
    entry: Option<BinaryEntry>,
    refresh: bool,
    now: i128,
    asked: Option<Result<Option<ResolvedBinary>, Error>>,
    r: (Result<Option<ResolvedBinary>, Error>, bool),
)
    requires
        cache.finds_binary(krate, mode, entry, refresh, now, asked, r),
    ensures
        cache.config.offline ==> asked is None,
        !cache.config.offline && (refresh || entry is None) ==> asked is Some,
        !cache.config.offline && !refresh && entry is Some ==> (asked is None
            <==> cache.config.resolve_cache_timeout > 0 && now - entry->Some_0.cached_at
            < cache.config.resolve_cache_timeout),
        asked is None ==> !r.1,
        asked is None && (entry matches Some(e) && e.value is Some) ==> r.0 == Ok::<
            Option<ResolvedBinary>,
            Error,
        >(entry->Some_0.value),
        asked is None && (entry is None || entry->Some_0.value is None) ==> if mode
            == UsePrebuiltBinaries::Always {
            r.0 is Err && r.0->Err_0 is PrebuiltBinaryRequired
        } else {
            r.0 == Ok::<Option<ResolvedBinary>, Error>(None)
        },
        asked matches Some(Ok(Some(binary))) ==> r.1 && r.0 == Ok::<Option<ResolvedBinary>, Error>(
            Some(binary),
        ),
        asked matches Some(Ok(None)) ==> r.1 && if mode == UsePrebuiltBinaries::Always {
            r.0 is Err && r.0->Err_0 is PrebuiltBinaryRequired
        } else {
            r.0 == Ok::<Option<ResolvedBinary>, Error>(None)
        },
        asked matches Some(Err(e)) ==> {
            &&& !r.1
            &&& refresh || entry is None || !(e is Registry || e is Git || e is Io) ==> r.0 == Err::<
                Option<ResolvedBinary>,
                Error,
            >(e)
            &&& !refresh && (e is Registry || e is Git || e is Io) && (entry matches Some(old)
                && old.value is Some) ==> r.0 == Ok::<Option<ResolvedBinary>, Error>(
                entry->Some_0.value,
            )
        },
{
}

/// Sources are downloaded exactly where they are not there yet, to where they are kept. Losing
/// a race is as good as winning it, and every other failure comes out as it is.
pub proof fn sources_are_downloaded_once(
    cache: Cache,
    krate: ResolvedCrate,
    present: bool,
    asked: Option<(JoinedPath, Result<Renamed, Error>)>,
    r: Result<CachedCrate, Error>,
)
    requires
        cache.gets_sources(krate, present, asked, r),
    ensures
        asked is None <==> present,
        present ==> r is Ok,
        r matches Ok(cached) ==> cached.resolved == krate && cached.crate_path@ == source_path_of(
            cache.config.cache_dir@,
            krate,
        ),
        asked matches Some(a) ==> {
            &&& a.0@ == source_path_of(cache.config.cache_dir@, krate)
            &&& a.1 matches Ok(Renamed::Moved) ==> r is Ok
            &&& a.1 matches Ok(Renamed::AlreadyExists) ==> r is Ok
            &&& a.1 matches Ok(Renamed::Failed(e)) ==> r == Err::<CachedCrate, Error>(e)
            &&& a.1 matches Err(e) ==> r == Err::<CachedCrate, Error>(e)
        },
{
}

/// A registry crate in the cache is got offline too. One that is not there is fetched to where
/// it is kept, and offline is an error that names it.
pub proof fn registry_crates_are_fetched_once(
    downloader: DefaultCrateDownloader,
    krate: ResolvedCrate,
    present: bool,
    asked: Option<(JoinedPath, Result<Renamed, Error>)>,
    r: Result<DownloadedCrate, Error>,
)
    requires
        downloader.gets_cached(krate, present, asked, r),
    ensures
        asked is Some <==> !present && !downloader.config.offline,
        present ==> r is Ok,
        !present && downloader.config.offline ==> (r matches Err(
            Error::OfflineMode { name, version },
        ) && name@ == krate.name@ && version@ == krate.version@),
        r matches Ok(downloaded) ==> downloaded.resolved == krate && downloaded.crate_path@
            == source_path_of(downloader.cache.config.cache_dir@, krate),
        asked matches Some(a) ==> {
            &&& a.0@ == source_path_of(downloader.cache.config.cache_dir@, krate)
            &&& r is Ok <==> (a.1 matches Ok(done) && !(done is Failed))
            &&& a.1 matches Ok(Renamed::Failed(e)) ==> r == Err::<DownloadedCrate, Error>(e)
            &&& a.1 matches Err(e) ==> r == Err::<DownloadedCrate, Error>(e)
        },
{
}

}
