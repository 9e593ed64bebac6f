//! From an exact crate to its sources.
use vstd::prelude::*;
use vstd::string::*;

use crate::cache::{fetched, source_path_of, Cache, Renamed};
use crate::config::Config;
use crate::cratespec::{git_url_of, RegistrySource};
use crate::error::Error;
use crate::git;
use crate::git::LookupOutcome;
use crate::git_client::{Checkout, GitAction, GitClient, GitEvent, Step};
use crate::paths::{at, JoinedPath, PathView};
use crate::registry::{
    check_name, download_url, download_url_of, is_crate_name, name_problem_of, plain_download_url,
};
use crate::resolver::{index_choice, index_of, RegistryQuery, ResolvedCrate, ResolvedSource};
use crate::text::views;
use crate::version::{compare_versions, version_valid, IndexVersion};

verus! {

/// A crate and where its sources are. Those of a local crate are where the user has them;
/// all others are in the cache.
#[derive(Clone, Debug, PartialEq, Eq)]
pub struct DownloadedCrate {
    pub resolved: ResolvedCrate,
    pub crate_path: JoinedPath,
}

impl DownloadedCrate {
    /// It is the same crate in the same place.
    pub open spec fn same_as(self, other: DownloadedCrate) -> bool {
        self.resolved == other.resolved && self.crate_path@ == other.crate_path@
    }

    /// A copy.
    pub fn copied(&self) -> (r: Self)
        ensures
            r.same_as(*self),
    {
        DownloadedCrate { resolved: self.resolved.clone(), crate_path: self.crate_path.copied() }
    }
}

/// How the sources of a crate are got.
#[derive(Debug, PartialEq, Eq)]
pub enum DownloadPlan {
    /// They are there.
    Local { path: JoinedPath },
    /// The commit of the repository is checked out.
    Checkout { url: String, commit: String },
    /// They are kept at `path`, and downloaded from the registry where they are not there.
    Registry { path: JoinedPath },
}

/// The entry is the version itself.
pub open spec fn is_version_entry(entry: IndexVersion, version: Seq<char>) -> bool {
    version_valid(version) && entry.version@ == version
}

/// Why a crate cannot be got offline.
pub open spec fn is_offline_error(e: Error, krate: ResolvedCrate) -> bool {
    e == (Error::OfflineMode { name: krate.name, version: krate.version })
}

/// The location that is `parts` below `base`.
pub open spec fn below(base: PathView, parts: Seq<Seq<char>>) -> PathView {
    PathView { base: base.base, segments: base.segments + parts }
}

/// An entry of a crate archive is unpacked there: below the directory of the download, without
/// its first component.
pub open spec fn unpacks_to(
    place: Option<JoinedPath>,
    download_path: PathView,
    components: Seq<Seq<char>>,
) -> bool {
    match place {
        Some(path) => components.len() > 1 && path@ == below(download_path, components.skip(1)),
        None => components.len() <= 1,
    }
}

/// The place of an entry of a crate archive: everything in it is under one directory, which is
/// left out. An entry with nothing else in its path has no place.
pub fn entry_destination(download_path: &JoinedPath, components: &Vec<String>) -> (r: Option<
    JoinedPath,
>)
    ensures
        unpacks_to(r, download_path@, views(components@)),
{
    if components.len() <= 1 {
        return None;
    }
    let mut path = download_path.copied();
    let ghost parts = views(components@).skip(1);
    let mut i: usize = 1;
    assert(path@.segments =~= download_path@.segments + parts.take(0));
    while i < components.len()
        invariant
            1 <= i <= components.len(),
            parts == views(components@).skip(1),
            path@.base == download_path@.base,
            path@.segments == download_path@.segments + parts.take(i - 1),
        decreases components.len() - i,
    {
        path = path.join(components[i].as_str());
        proof {
            assert(parts[i - 1] == components@[i as int]@);
            assert(parts.take(i as int) =~= parts.take(i - 1).push(parts[i - 1]));
            assert(download_path@.segments + parts.take(i as int) =~= (download_path@.segments
                + parts.take(i - 1)).push(parts[i - 1]));
        }
        i = i + 1;
    }
    assert(parts.take(i - 1) =~= parts);
    Some(path)
}

/// The entry found is the first that is the version; where there is none, that is an error.
pub open spec fn finds_version(
    r: Result<usize, Error>,
    entries: Seq<IndexVersion>,
    name: Seq<char>,
    version: Seq<char>,
) -> bool {
    match r {
        Ok(i) => {
            &&& i < entries.len()
            &&& is_version_entry(entries[i as int], version)
            &&& forall|j: int| 0 <= j < i ==> !is_version_entry(#[trigger] entries[j], version)
        },
        Err(e) => {
            &&& forall|j: int|
                0 <= j < entries.len() ==> !is_version_entry(#[trigger] entries[j], version)
            &&& e matches Error::NoMatchingVersion { name: n, requirement } && n@ == name
                && requirement@ == version
        },
    }
}

/// The index entry of an exact version: the first that is this version.
pub fn find_version(entries: &Vec<IndexVersion>, name: &str, version: &str) -> (r: Result<
    usize,
    Error,
>)
    ensures
        finds_version(r, entries@, name@, version@),
{
    let mut i: usize = 0;
    while i < entries.len()
        invariant
            i <= entries.len(),
            forall|j: int| 0 <= j < i ==> !is_version_entry(#[trigger] entries@[j], version@),
        decreases entries.len() - i,
    {
        if let Some(0) = compare_versions(entries[i].version.as_str(), version) {
            return Ok(i);
        }
        i = i + 1;
    }
    Err(Error::NoMatchingVersion { name: name.to_owned(), requirement: version.to_owned() })
}

/// What the registry says of a crate to be downloaded.
#[derive(Debug, PartialEq, Eq)]
pub enum IndexAnswer {
    /// It does not have it.
    Missing,
    /// It has these versions.
    Versions(Vec<IndexVersion>),
}

/// The entry to download for a crate: the one of its exact version.
pub open spec fn chooses_entry(
    r: Result<usize, Error>,
    krate: ResolvedCrate,
    answer: IndexAnswer,
) -> bool {
    match answer {
        IndexAnswer::Missing => r == Err::<usize, Error>(
            Error::CrateNotFoundInRegistry { name: krate.name },
        ),
        IndexAnswer::Versions(entries) => finds_version(r, entries@, krate.name@, krate.version@),
    }
}

/// An address is taken as it is, and having none is an error.
pub open spec fn accepts_address(
    r: Result<String, Error>,
    krate: ResolvedCrate,
    address: Option<String>,
) -> bool {
    match address {
        Some(url) => r == Ok::<String, Error>(url),
        None => r == Err::<String, Error>(
            Error::DownloadUrlUnavailable { name: krate.name, version: krate.version },
        ),
    }
}

/// Gets the sources of crates.
#[derive(Clone, Debug)]
pub struct DefaultCrateDownloader {
    pub cache: Cache,
    pub config: Config,
}

impl DefaultCrateDownloader {
    /// A downloader that keeps sources in the cache.
    pub fn new(cache: Cache, config: Config) -> (r: Self)
        ensures
            r.cache == cache,
            r.config == config,
    {
        DefaultCrateDownloader { cache, config }
    }

    /// The question to the registry that has the crate, or why it cannot be asked: the name is
    /// none.
    pub open spec fn asks(
        self,
        r: Result<RegistryQuery, Error>,
        krate: ResolvedCrate,
        source: Option<RegistrySource>,
    ) -> bool {
        match r {
            Ok(query) => {
                &&& is_crate_name(krate.name@)
                &&& query.index == index_of(source)
                &&& query.name == krate.name
                &&& query.cached_only == self.config.offline
            },
            Err(e) => !is_crate_name(krate.name@) && (e matches Error::Registry { message } && Some(
                message@,
            ) == name_problem_of(krate.name@)),
        }
    }

    /// The question to the registry that the crate comes from.
    pub open spec fn asks_for(self, r: Result<RegistryQuery, Error>, krate: ResolvedCrate) -> bool {
        self.asks(
            r,
            krate,
            match krate.source {
                ResolvedSource::Registry { source } => Some(source),
                _ => None,
            },
        )
    }

    /// The question to the registry that has the crate.
    pub fn registry_query(&self, krate: &ResolvedCrate) -> (r: Result<RegistryQuery, Error>)
        requires
            krate.source is CratesIo || krate.source is Registry,
        ensures
            self.asks_for(r, *krate),
    {
        let source = match &krate.source {
            ResolvedSource::Registry { source } => Some(source.clone()),
            _ => None,
        };
        match check_name(krate.name.as_str()) {
            Ok(()) => Ok(
                RegistryQuery {
                    index: index_choice(&source),
                    name: krate.name.clone(),
                    cached_only: self.config.offline,
                },
            ),
            Err(e) => Err(e),
        }
    }

    /// The sources of a crate are got that way.
    pub open spec fn gets(self, r: DownloadPlan, krate: ResolvedCrate) -> bool {
        match krate.source {
            ResolvedSource::LocalDir { path } => r matches DownloadPlan::Local { path: p } && p@
                == at(path@),
            ResolvedSource::Git { repo, commit } => r == (DownloadPlan::Checkout {
                url: repo,
                commit,
            }),
            ResolvedSource::Forge { forge, commit } => r matches DownloadPlan::Checkout {
                url,
                commit: c,
            } && url@ == git_url_of(forge) && c == commit,
            _ => r matches DownloadPlan::Registry { path } && path@ == source_path_of(
                self.cache.config.cache_dir@,
                krate,
            ),
        }
    }

    /// How the sources of a crate are got.
    pub fn download(&self, krate: &ResolvedCrate) -> (r: DownloadPlan)
        ensures
            self.gets(r, *krate),
    {
        match &krate.source {
            ResolvedSource::LocalDir { path } => DownloadPlan::Local {
                path: JoinedPath::new(path.as_str()),
            },
            ResolvedSource::Git { repo, commit } => DownloadPlan::Checkout {
                url: repo.clone(),
                commit: commit.clone(),
            },
            ResolvedSource::Forge { forge, commit } => DownloadPlan::Checkout {
                url: forge.git_url(),
                commit: commit.clone(),
            },
            _ => DownloadPlan::Registry { path: self.cache.source_cache_path(krate) },
        }
    }

    /// What the checkout of a crate's commit gives.
    pub open spec fn checkout_gives(
        self,
        r: Result<DownloadedCrate, Error>,
        krate: ResolvedCrate,
        outcome: Result<JoinedPath, git::Error>,
    ) -> bool {
        match outcome {
            Ok(path) => r matches Ok(downloaded) && downloaded.resolved == krate
                && downloaded.crate_path == path,
            Err(e) => if self.config.offline {
                r matches Err(error) && is_offline_error(error, krate)
            } else {
                r == Err::<DownloadedCrate, Error>(Error::Git { source: e })
            },
        }
    }

    /// What the checkout of a crate's commit gives. Offline a failure means that the network
    /// is needed.
    pub fn download_git(&self, krate: &ResolvedCrate, outcome: Result<JoinedPath, git::Error>) -> (r:
        Result<DownloadedCrate, Error>)
        ensures
            self.checkout_gives(r, *krate, outcome),
    {
        match outcome {
            Ok(path) => Ok(DownloadedCrate { resolved: krate.clone(), crate_path: path }),
            Err(e) => if self.config.offline {
                Err(
                    Error::OfflineMode {
                        name: krate.name.clone(),
                        version: krate.version.clone(),
                    },
                )
            } else {
                Err(Error::from(e))
            },
        }
    }

    /// The index entry to download for a crate, given what the registry says.
    pub fn download_registry(&self, krate: &ResolvedCrate, answer: &IndexAnswer) -> (r: Result<
        usize,
        Error,
    >)
        ensures
            chooses_entry(r, *krate, *answer),
    {
        match answer {
            IndexAnswer::Missing => Err(
                Error::CrateNotFoundInRegistry { name: krate.name.clone() },
            ),
            IndexAnswer::Versions(entries) => find_version(
                entries,
                krate.name.as_str(),
                krate.version.as_str(),
            ),
        }
    }

    /// The address to download a crate from, if there is one.
    pub fn accept_address(&self, krate: &ResolvedCrate, address: Option<String>) -> (r: Result<
        String,
        Error,
    >)
        ensures
            accepts_address(r, *krate, address),
    {
        match address {
            Some(url) => Ok(url),
            None => Err(
                Error::DownloadUrlUnavailable {
                    name: krate.name.clone(),
                    version: krate.version.clone(),
                },
            ),
        }
    }

    /// The address to download a crate from, given the pattern of the registry and the name
    /// under which its index lists the crate: none for a name that is none, and
    /// [`plain_download_url`] for a pattern without markers.
    pub fn download_address(&self, krate: &ResolvedCrate, pattern: &str, listed_name: &str) -> (r:
        Result<String, Error>)
        requires
            !krate.version@.contains('{'),
        ensures
            match r {
                Ok(url) => download_url_of(pattern@, listed_name@, krate.version@) == Some(url@),
                Err(e) => !is_crate_name(listed_name@) && e == (Error::DownloadUrlUnavailable {
                    name: krate.name,
                    version: krate.version,
                }),
            },
            r is Ok == is_crate_name(listed_name@),
            r matches Ok(url) ==> plain_download_url(
                pattern@,
                listed_name@,
                krate.version@,
            ) is Some ==> plain_download_url(pattern@, listed_name@, krate.version@) == Some(url@),
    {
        self.accept_address(krate, download_url(pattern, listed_name, krate.version.as_str()))
    }

    /// What is delivered is the crate, in its place in the cache.
    pub open spec fn delivers(self, r: Result<DownloadedCrate, Error>, krate: ResolvedCrate) -> bool {
        r matches Ok(downloaded) ==> downloaded.resolved == krate && downloaded.crate_path@
            == source_path_of(self.cache.config.cache_dir@, krate)
    }

    /// What comes of getting a registry crate. `asked` is the place that the fetch got and what
    /// it said, where there was one.
    pub open spec fn gets_cached(
        self,
        krate: ResolvedCrate,
        present: bool,
        asked: Option<(JoinedPath, Result<Renamed, Error>)>,
        r: Result<DownloadedCrate, Error>,
    ) -> bool {
        &&& self.delivers(r, krate)
        &&& match asked {
            None => if present {
                r is Ok
            } else {
                self.config.offline && (r matches Err(e) && is_offline_error(e, krate))
            },
            Some((path, outcome)) => {
                &&& !present && !self.config.offline
                &&& path@ == source_path_of(self.cache.config.cache_dir@, krate)
                &&& fetched(r, outcome)
            },
        }
    }

    /// The sources of a registry crate, from the cache or from `fetch`, which gets the place
    /// where they belong. What is in the cache is used offline too; what is not cannot be got.
    pub fn download_cached<F: FnOnce(JoinedPath) -> Result<Renamed, Error>>(
        &self,
        krate: &ResolvedCrate,
        present: bool,
        fetch: F,
    ) -> (r: Result<DownloadedCrate, Error>)
        requires
            krate.source is CratesIo || krate.source is Registry,
            !present && !self.config.offline ==> forall|path: JoinedPath| #[trigger]
                fetch.requires((path,)) || path@ != source_path_of(
                    self.cache.config.cache_dir@,
                    *krate,
                ),
        ensures
            self.delivers(r, *krate),
            present ==> r is Ok,
            !present && self.config.offline ==> (r matches Err(e) && is_offline_error(e, *krate)),
            !present && !self.config.offline ==> exists|
                path: JoinedPath,
                outcome: Result<Renamed, Error>,
            | #[trigger]
                fetch.ensures((path,), outcome) && path@ == source_path_of(
                    self.cache.config.cache_dir@,
                    *krate,
                ) && fetched(r, outcome),
            exists|asked: Option<(JoinedPath, Result<Renamed, Error>)>| #[trigger]
                self.gets_cached(*krate, present, asked, r) && (asked matches Some(a)
                    ==> fetch.ensures((a.0,), a.1)),
    {
        if !present && self.config.offline {
            let r = Err(
                Error::OfflineMode { name: krate.name.clone(), version: krate.version.clone() },
            );
            assert(self.gets_cached(*krate, present, None, r));
            return r;
        }
        let r = match self.cache.get_or_download(krate, present, fetch) {
            Ok(cached) => Ok(
                DownloadedCrate { resolved: cached.resolved, crate_path: cached.crate_path },
            ),
            Err(e) => Err(e),
        };
        proof {
            if present {
                assert(self.gets_cached(*krate, present, None, r));
            } else {
                let (path, outcome) = choose|path: JoinedPath, outcome: Result<Renamed, Error>|
                    #[trigger] fetch.ensures((path,), outcome) && path@ == source_path_of(
                        self.cache.config.cache_dir@,
                        *krate,
                    ) && fetched(r, outcome);
                assert(self.gets_cached(*krate, present, Some((path, outcome)), r));
            }
        }
        r
    }
}

/// The downloader for a configuration and its caches.
pub fn create_downloader(config: Config, cache: Cache) -> (r: DefaultCrateDownloader)
    ensures
        r.config == config,
        r.cache == cache,
{
    DefaultCrateDownloader::new(cache, config)
}

/// Offline, a commit that is not in the caches is not fetched: the download ends with the
/// error that says that the network is needed.
pub proof fn offline_downloads_need_the_cache(
    downloader: DefaultCrateDownloader,
    client: GitClient,
    state: Checkout,
    missing: LookupOutcome,
    step: Step,
    krate: ResolvedCrate,
    r: Result<DownloadedCrate, Error>,
)
    requires
        downloader.config.offline,
        client.cache.config.offline,
        state.phase is ResolvingLocally,
        !(missing is Found),
        client.steps(state, GitEvent::LookedUp(missing), step),
        step.action matches GitAction::Finish(Err(e)) ==> downloader.checkout_gives(
            r,
            krate,
            Err(e),
        ),
    ensures
        !(step.action is Fetch),
        step.action is Finish,
        r matches Err(e) && is_offline_error(e, krate),
{
}

}
