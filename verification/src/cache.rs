//! Where cached things are kept, and when they are used.
use vstd::prelude::*;
use vstd::string::*;

use crate::bin_resolver::ResolvedBinary;
use crate::config::{Config, UsePrebuiltBinaries};
use crate::cratespec::{Forge, RegistrySource};
use crate::digest::{sha256_hex, sha256_of};
use crate::error::Error;
use crate::messages::BinResolutionMessage;
use crate::paths::{JoinedPath, PathView};
use crate::resolver::{ResolvedCrate, ResolvedSource};
use crate::text::{after_last, last_piece, trim_end, trimmed_end};
use vstd::utf8::encode_utf8;

verus! {

/// The sources of a crate, kept on disk.
#[derive(Clone, Debug, PartialEq, Eq)]
pub struct CachedCrate {
    pub resolved: ResolvedCrate,
    /// Where the sources are.
    pub crate_path: JoinedPath,
}

/// A cached value and when it was cached, in nanoseconds since the Unix epoch.
#[derive(Debug, PartialEq, Eq)]
pub struct CacheEntry<T> {
    pub value: T,
    pub cached_at: i128,
}

impl<T> CacheEntry<T> {
    /// An entry cached at `now`.
    pub fn new(value: T, now: i128) -> (r: Self)
        ensures
            r.value == value,
            r.cached_at == now,
    {
        CacheEntry { value, cached_at: now }
    }

    /// How long the entry has been cached at `now`; nothing where the clock went back.
    pub open spec fn spec_age(self, now: i128) -> int {
        if now <= self.cached_at {
            0
        } else {
            now - self.cached_at
        }
    }

    /// How long the entry has been cached at `now`, in nanoseconds; zero where the clock went
    /// back.
    pub fn age(&self, now: i128) -> (r: u128)
        ensures
            r == self.spec_age(now),
    {
        if now <= self.cached_at {
            0
        } else if self.cached_at >= 0 || now < 0 {
            (now - self.cached_at) as u128
        } else {
            now as u128 + (-(self.cached_at + 1)) as u128 + 1
        }
    }

    /// The cached value.
    pub fn into_inner(self) -> (r: T)
        ensures
            r == self.value,
    {
        self.value
    }
}

/// The entry is there and young enough to be used without resolving again.
pub open spec fn is_fresh<T>(entry: Option<CacheEntry<T>>, now: i128, timeout: u128) -> bool {
    entry matches Some(e) && e.spec_age(now) < timeout
}

/// The failure may pass: an old entry is better than this error.
pub open spec fn is_transient(error: Error) -> bool {
    error is Registry || error is Git || error is Io
}

/// What a resolution gives, when no fresh entry was there: its own result, or the old entry
/// where it failed for a reason that may pass.
pub open spec fn resolution_outcome<T>(
    stale: Option<CacheEntry<T>>,
    outcome: Result<T, Error>,
) -> Result<T, Error> {
    match (outcome, stale) {
        (Err(e), Some(entry)) => if is_transient(e) {
            Ok(entry.value)
        } else {
            outcome
        },
        _ => outcome,
    }
}

/// A search for a prebuilt binary, as it is cached: a search without a result is one too.
pub type BinaryEntry = CacheEntry<Option<ResolvedBinary>>;

/// What a search for a prebuilt binary means: where only a prebuilt one will do, none is an
/// error.
pub open spec fn settled(
    mode: UsePrebuiltBinaries,
    krate: ResolvedCrate,
    found: Option<ResolvedBinary>,
) -> Result<Option<ResolvedBinary>, Error> {
    if found is None && mode == UsePrebuiltBinaries::Always {
        Err(Error::PrebuiltBinaryRequired { name: krate.name, version: krate.version })
    } else {
        Ok(found)
    }
}

/// What a search for a prebuilt binary, or its failure, means.
pub open spec fn settled_outcome(
    mode: UsePrebuiltBinaries,
    krate: ResolvedCrate,
    outcome: Result<Option<ResolvedBinary>, Error>,
) -> Result<Option<ResolvedBinary>, Error> {
    match outcome {
        Ok(found) => settled(mode, krate, found),
        Err(_) => outcome,
    }
}

/// The identifier of a git URL: the name of the repository and a short hash of the URL.
pub open spec fn git_ident_of(url: Seq<char>) -> Seq<char> {
    after_last(trimmed_end(trimmed_end(url, "/"@), ".git"@), '/') + "-"@ + sha256_of(
        encode_utf8(url),
    ).take(8)
}

/// The file that holds the resolution of a specification.
pub open spec fn resolve_path_of(cache_dir: PathView, spec_json: Seq<char>) -> PathView {
    cache_dir.join("resolve"@).join(sha256_of(encode_utf8(spec_json)) + ".json"@)
}

/// The file that holds the result of a search for a prebuilt binary.
pub open spec fn binary_entry_path_of(cache_dir: PathView, search_json: Seq<char>) -> PathView {
    cache_dir.join("resolve-binary"@).join(sha256_of(encode_utf8(search_json)) + ".json"@)
}

/// The place of the bare repository of a git URL.
pub open spec fn git_db_path_of(cache_dir: PathView, url: Seq<char>) -> PathView {
    cache_dir.join("git-db"@).join(git_ident_of(url))
}

/// The place of the working tree of a commit.
pub open spec fn git_checkout_path_of(
    cache_dir: PathView,
    url: Seq<char>,
    commit: Seq<char>,
) -> PathView {
    cache_dir.join("git-checkouts"@).join(git_ident_of(url)).join(commit)
}

/// The place of a crate's sources under the cache directory.
pub open spec fn source_path_of(cache_dir: PathView, resolved: ResolvedCrate) -> PathView {
    let base = cache_dir.join("sources"@);
    let name = resolved.name@;
    let version = resolved.version@;
    match resolved.source {
        ResolvedSource::CratesIo => base.join("crates-io"@).join(name).join(version),
        ResolvedSource::Registry { source: RegistrySource::Named(registry) } => base.join(
            "registry"@,
        ).join(registry@).join(name).join(version),
        ResolvedSource::Registry { source: RegistrySource::IndexUrl(url) } => base.join(
            "registry-index"@,
        ).join(sha256_of(encode_utf8(url@))).join(name).join(version),
        ResolvedSource::Git { repo, commit } => base.join("git"@).join(
            sha256_of(encode_utf8(repo@)),
        ).join(commit@),
        ResolvedSource::Forge { forge: Forge::GitHub { owner, repo, .. }, commit } => base.join(
            "github"@,
        ).join(owner@).join(repo@).join(commit@),
        ResolvedSource::Forge { forge: Forge::GitLab { owner, repo, .. }, commit } => base.join(
            "gitlab"@,
        ).join(owner@).join(repo@).join(commit@),
        ResolvedSource::LocalDir { path } => base,
    }
}

/// How moving a finished download to its place went.
#[derive(Clone, Debug, PartialEq, Eq)]
pub enum Renamed {
    /// It is in its place.
    Moved,
    /// Someone else put the same there first.
    AlreadyExists,
    /// It failed for another reason.
    Failed(Error),
}

/// What fetching a crate gives: it is there where it was moved to its place or someone else
/// was first, and every failure comes out.
pub open spec fn fetched<T>(r: Result<T, Error>, outcome: Result<Renamed, Error>) -> bool {
    match outcome {
        Ok(Renamed::Moved) => r is Ok,
        Ok(Renamed::AlreadyExists) => r is Ok,
        Ok(Renamed::Failed(e)) => r == Err::<T, Error>(e),
        Err(e) => r == Err::<T, Error>(e),
    }
}

/// The caches, all kept under the configured cache directory.
#[derive(Clone, Debug)]
pub struct Cache {
    pub config: Config,
}

impl Cache {
    /// The sources are those of the crate, in their place.
    pub open spec fn keeps(self, cached: CachedCrate, resolved: ResolvedCrate) -> bool {
        cached.resolved == resolved && cached.crate_path@ == source_path_of(
            self.config.cache_dir@,
            resolved,
        )
    }

    /// The caches of a configuration.
    pub fn new(config: Config) -> (r: Self)
        ensures
            r.config == config,
    {
        Cache { config }
    }

    /// Whether an old entry is to be used in place of this error.
    pub fn should_use_stale_cache(&self, error: &Error) -> (r: bool)
        ensures
            r == is_transient(*error),
    {
        matches!(error, Error::Registry { .. } | Error::Git { .. } | Error::Io { .. })
    }

    /// What to answer once the resolver has run, and whether to store it: a success is
    /// answered and stored. On a failure that may pass an old entry is answered where there
    /// is one; every other failure is passed on.
    pub fn after_resolve(
        &self,
        stale: Option<CacheEntry<ResolvedCrate>>,
        outcome: Result<ResolvedCrate, Error>,
    ) -> (r: (Result<ResolvedCrate, Error>, bool))
        ensures
            r.0 == resolution_outcome(stale, outcome),
            r.1 == outcome is Ok,
    {
        match outcome {
            Ok(resolved) => (Ok(resolved), true),
            Err(e) => {
                if self.should_use_stale_cache(&e) {
                    match stale {
                        Some(entry) => (Ok(entry.into_inner()), false),
                        None => (Err(e), false),
                    }
                } else {
                    (Err(e), false)
                }
            },
        }
    }

    /// What comes of a lookup of a crate, and whether it is to be stored. `asked` is what the
    /// resolver said, where it had to be asked.
    pub open spec fn finds_crate(
        self,
        entry: Option<CacheEntry<ResolvedCrate>>,
        now: i128,
        asked: Option<Result<ResolvedCrate, Error>>,
        r: (Result<ResolvedCrate, Error>, bool),
    ) -> bool {
        let fresh = is_fresh(entry, now, self.config.resolve_cache_timeout);
        match asked {
            None => fresh && r.0 == Ok::<_, Error>(entry->Some_0.value) && !r.1,
            Some(outcome) => !fresh && r.0 == resolution_outcome(entry, outcome) && r.1
                == outcome is Ok,
        }
    }

    /// What comes of a lookup of a prebuilt binary, and whether it is to be stored. `asked` is
    /// what the providers said, where they had to be asked.
    pub open spec fn finds_binary(
        self,
        krate: ResolvedCrate,
        mode: UsePrebuiltBinaries,
        entry: Option<BinaryEntry>,
        refresh: bool,
        now: i128,
        asked: Option<Result<Option<ResolvedBinary>, Error>>,
        r: (Result<Option<ResolvedBinary>, Error>, bool),
    ) -> bool {
        match asked {
            None => {
                &&& !self.searches(entry, refresh, now)
                &&& !r.1
                &&& r.0 == settled(
                    mode,
                    krate,
                    match entry {
                        Some(e) => e.value,
                        None => None,
                    },
                )
            },
            Some(outcome) => {
                &&& self.searches(entry, refresh, now)
                &&& r.1 == outcome is Ok
                &&& r.0 == settled_outcome(
                    mode,
                    krate,
                    if refresh {
                        outcome
                    } else {
                        resolution_outcome(entry, outcome)
                    },
                )
            },
        }
    }

    /// What comes of getting the sources of a crate. `asked` is the place that the downloader
    /// got and what it said, where it had to be asked.
    pub open spec fn gets_sources(
        self,
        resolved: ResolvedCrate,
        present: bool,
        asked: Option<(JoinedPath, Result<Renamed, Error>)>,
        r: Result<CachedCrate, Error>,
    ) -> bool {
        &&& r matches Ok(cached) ==> self.keeps(cached, resolved)
        &&& match asked {
            None => present && r is Ok,
            Some((path, outcome)) => !present && path@ == source_path_of(
                self.config.cache_dir@,
                resolved,
            ) && fetched(r, outcome),
        }
    }

    /// A resolved crate, from the cache or from the resolver, and whether it is to be stored.
    /// The resolver runs only where the entry is missing or too old.
    pub fn get_or_resolve<F: FnOnce() -> Result<ResolvedCrate, Error>>(
        &self,
        entry: Option<CacheEntry<ResolvedCrate>>,
        now: i128,
        resolver: F,
    ) -> (r: (Result<ResolvedCrate, Error>, bool))
        requires
            !is_fresh(entry, now, self.config.resolve_cache_timeout) ==> resolver.requires(()),
        ensures
            is_fresh(entry, now, self.config.resolve_cache_timeout) ==> r.0 == Ok::<_, Error>(
                entry->Some_0.value,
            ) && !r.1,
            !is_fresh(entry, now, self.config.resolve_cache_timeout) ==> exists|
                outcome: Result<ResolvedCrate, Error>,
            | #[trigger]
                resolver.ensures((), outcome) && r.0 == resolution_outcome(entry, outcome) && r.1
                    == outcome is Ok,
            exists|asked: Option<Result<ResolvedCrate, Error>>| #[trigger]
                self.finds_crate(entry, now, asked, r) && (asked matches Some(outcome)
                    ==> resolver.ensures((), outcome)),
    {
        if let Some(e) = &entry {
            if e.age(now) < self.config.resolve_cache_timeout {
                let kept = (Ok(e.value.clone()), false);
                assert(self.finds_crate(entry, now, None, kept));
                return kept;
            }
        }
        let outcome = resolver();
        let r = self.after_resolve(entry, outcome);
        assert(self.finds_crate(entry, now, Some(outcome), r));
        r
    }

    /// The cached search is used in place of a new one. Offline there can be no new one, so an
    /// old result is used too.
    pub open spec fn uses_binary_entry(
        self,
        entry: Option<BinaryEntry>,
        refresh: bool,
        now: i128,
    ) -> bool {
        if self.config.offline {
            entry is Some
        } else {
            !refresh && is_fresh(entry, now, self.config.resolve_cache_timeout)
        }
    }

    /// The providers are asked.
    pub open spec fn searches(self, entry: Option<BinaryEntry>, refresh: bool, now: i128) -> bool {
        !self.config.offline && !self.uses_binary_entry(entry, refresh, now)
    }

    fn is_binary_entry_used(&self, entry: &Option<BinaryEntry>, refresh: bool, now: i128) -> (r: bool)
        ensures
            r == self.uses_binary_entry(*entry, refresh, now),
    {
        match entry {
            Some(e) => self.config.offline || (!refresh && e.age(now)
                < self.config.resolve_cache_timeout),
            None => false,
        }
    }

    /// The messages say what the cache has. A search that is to bypass the cache reports
    /// nothing of it.
    pub open spec fn reports_lookup(
        self,
        messages: Seq<BinResolutionMessage>,
        krate: ResolvedCrate,
        entry: Option<BinaryEntry>,
        refresh: bool,
        now: i128,
    ) -> bool {
        if refresh && !self.config.offline {
            messages.len() == 0
        } else {
            messages == seq![
                BinResolutionMessage::CacheLookup { krate },
                if self.uses_binary_entry(entry, refresh, now) {
                    BinResolutionMessage::CacheHit { krate }
                } else {
                    BinResolutionMessage::CacheMiss { krate }
                },
            ]
        }
    }

    /// What is reported of the cache before a search. A search that is to bypass the cache
    /// reports nothing of it.
    pub fn binary_lookup_messages(
        &self,
        krate: &ResolvedCrate,
        entry: &Option<BinaryEntry>,
        refresh: bool,
        now: i128,
    ) -> (r: Vec<BinResolutionMessage>)
        ensures
            self.reports_lookup(r@, *krate, *entry, refresh, now),
    {
        let mut r: Vec<BinResolutionMessage> = Vec::new();
        if refresh && !self.config.offline {
            return r;
        }
        r.push(BinResolutionMessage::CacheLookup { krate: krate.clone() });
        if self.is_binary_entry_used(entry, refresh, now) {
            r.push(BinResolutionMessage::CacheHit { krate: krate.clone() });
        } else {
            r.push(BinResolutionMessage::CacheMiss { krate: krate.clone() });
        }
        assert(r@ =~= seq![r@[0], r@[1]]);
        r
    }

    fn settle(
        mode: UsePrebuiltBinaries,
        krate: &ResolvedCrate,
        outcome: Result<Option<ResolvedBinary>, Error>,
    ) -> (r: Result<Option<ResolvedBinary>, Error>)
        ensures
            r == settled_outcome(mode, *krate, outcome),
    {
        match (outcome, mode) {
            (Ok(None), UsePrebuiltBinaries::Always) => Err(
                Error::PrebuiltBinaryRequired {
                    name: krate.name.clone(),
                    version: krate.version.clone(),
                },
            ),
            (outcome, _) => outcome,
        }
    }

    /// The prebuilt binary of a crate, from the cache or from the resolver, and whether the
    /// result is to be stored. That there is none is a result like any other. The resolver
    /// runs where the entry is missing or too old, or is to be bypassed; never offline. An
    /// entry that is only too old still serves where the resolver fails for a reason that may
    /// pass.
    pub fn get_or_resolve_binary<F: FnOnce() -> Result<Option<ResolvedBinary>, Error>>(
        &self,
        krate: &ResolvedCrate,
        mode: UsePrebuiltBinaries,
        entry: Option<BinaryEntry>,
        refresh: bool,
        now: i128,
        resolver: F,
    ) -> (r: (Result<Option<ResolvedBinary>, Error>, bool))
        requires
            self.searches(entry, refresh, now) ==> resolver.requires(()),
        ensures
            self.uses_binary_entry(entry, refresh, now) ==> r.0 == settled(
                mode,
                *krate,
                entry->Some_0.value,
            ) && !r.1,
            self.config.offline && entry is None ==> r.0 == settled(mode, *krate, None) && !r.1,
            self.searches(entry, refresh, now) ==> exists|
                outcome: Result<Option<ResolvedBinary>, Error>,
            | #[trigger]
                resolver.ensures((), outcome) && r.0 == settled_outcome(
                    mode,
                    *krate,
                    if refresh {
                        outcome
                    } else {
                        resolution_outcome(entry, outcome)
                    },
                ) && r.1 == outcome is Ok,
            exists|asked: Option<Result<Option<ResolvedBinary>, Error>>| #[trigger]
                self.finds_binary(*krate, mode, entry, refresh, now, asked, r) && (
                asked matches Some(outcome) ==> resolver.ensures((), outcome)),
    {
        if self.is_binary_entry_used(&entry, refresh, now) {
            let found = match entry {
                Some(e) => e.into_inner(),
                None => None,
            };
            let kept = (Self::settle(mode, krate, Ok(found)), false);
            assert(self.finds_binary(*krate, mode, entry, refresh, now, None, kept));
            return kept;
        }
        if self.config.offline {
            let none = (Self::settle(mode, krate, Ok(None)), false);
            assert(self.finds_binary(*krate, mode, entry, refresh, now, None, none));
            return none;
        }
        let outcome = resolver();
        let store = outcome.is_ok();
        let kept = match outcome {
            Ok(found) => Ok(found),
            Err(e) => if refresh || !self.should_use_stale_cache(&e) {
                Err(e)
            } else {
                match entry {
                    Some(old) => Ok(old.into_inner()),
                    None => Err(e),
                }
            },
        };
        let r = (Self::settle(mode, krate, kept), store);
        assert(self.finds_binary(*krate, mode, entry, refresh, now, Some(outcome), r));
        r
    }

    /// The sources of a crate, from the cache or from the downloader. The downloader gets the
    /// place where they belong; it runs only where nothing is there.
    pub fn get_or_download<F: FnOnce(JoinedPath) -> Result<Renamed, Error>>(
        &self,
        resolved: &ResolvedCrate,
        present: bool,
        downloader: F,
    ) -> (r: Result<CachedCrate, Error>)
        requires
            !(resolved.source is LocalDir),
            !present ==> forall|path: JoinedPath| #[trigger]
                downloader.requires((path,)) || path@ != source_path_of(
                    self.config.cache_dir@,
                    *resolved,
                ),
        ensures
            r matches Ok(cached) ==> self.keeps(cached, *resolved),
            present ==> r is Ok,
            !present ==> exists|path: JoinedPath, outcome: Result<Renamed, Error>| #[trigger]
                downloader.ensures((path,), outcome) && path@ == source_path_of(
                    self.config.cache_dir@,
                    *resolved,
                ) && fetched(r, outcome),
            exists|asked: Option<(JoinedPath, Result<Renamed, Error>)>| #[trigger]
                self.gets_sources(*resolved, present, asked, r) && (asked matches Some(a)
                    ==> downloader.ensures((a.0,), a.1)),
    {
        let cached = CachedCrate {
            resolved: resolved.clone(),
            crate_path: self.source_cache_path(resolved),
        };
        if present {
            let kept = Ok(cached);
            assert(self.gets_sources(*resolved, present, None, kept));
            return kept;
        }
        let path = self.source_cache_path(resolved);
        let outcome = downloader(path);
        let r = match outcome {
            Ok(Renamed::Moved) => Ok(cached),
            Ok(Renamed::AlreadyExists) => Ok(cached),
            Ok(Renamed::Failed(e)) => Err(e),
            Err(e) => Err(e),
        };
        assert(self.gets_sources(*resolved, present, Some((path, outcome)), r));
        r
    }

    /// The sources of a crate, where they are present.
    pub fn get_cached_source(&self, resolved: &ResolvedCrate, present: bool) -> (r: Option<
        CachedCrate,
    >)
        requires
            !(resolved.source is LocalDir),
        ensures
            r is Some == present,
            r matches Some(cached) ==> self.keeps(cached, *resolved),
    {
        if present {
            Some(
                CachedCrate {
                    resolved: resolved.clone(),
                    crate_path: self.source_cache_path(resolved),
                },
            )
        } else {
            None
        }
    }

    /// The file that holds the resolution of a specification, which is given as JSON.
    pub fn resolve_cache_path(&self, spec_json: &str) -> (r: JoinedPath)
        ensures
            r@ == resolve_path_of(self.config.cache_dir@, spec_json@),
    {
        let hash = Self::compute_spec_hash(spec_json);
        self.config.cache_dir.copied().join("resolve").join(hash.concat(".json").as_str())
    }

    /// The file that holds the result of a search for a prebuilt binary. The search, which is
    /// the crate, the platform and the providers, is given as JSON.
    pub fn binary_entry_path(&self, search_json: &str) -> (r: JoinedPath)
        ensures
            r@ == binary_entry_path_of(self.config.cache_dir@, search_json@),
    {
        let hash = Self::compute_spec_hash(search_json);
        self.config.cache_dir.copied().join("resolve-binary").join(hash.concat(".json").as_str())
    }

    /// The cache key of a specification, which is given as JSON.
    pub fn compute_spec_hash(spec_json: &str) -> (r: String)
        ensures
            r@ == sha256_of(encode_utf8(spec_json@)),
            r@.len() == 64,
    {
        Self::compute_hash(spec_json.as_bytes())
    }

    /// The SHA-256 digest in hexadecimal.
    pub fn compute_hash(data: &[u8]) -> (r: String)
        ensures
            r@ == sha256_of(data@),
            r@.len() == 64,
    {
        sha256_hex(data)
    }

    /// Where the sources of a crate are kept.
    pub fn source_cache_path(&self, resolved: &ResolvedCrate) -> (r: JoinedPath)
        requires
            !(resolved.source is LocalDir),
        ensures
            r@ == source_path_of(self.config.cache_dir@, *resolved),
    {
        let base = self.config.cache_dir.copied().join("sources");
        let name = resolved.name.as_str();
        let version = resolved.version.as_str();
        match &resolved.source {
            ResolvedSource::CratesIo => base.join("crates-io").join(name).join(version),
            ResolvedSource::Registry { source } => match source {
                RegistrySource::Named(registry) => base.join("registry").join(
                    registry.as_str(),
                ).join(name).join(version),
                RegistrySource::IndexUrl(url) => base.join("registry-index").join(
                    Self::compute_hash(url.as_str().as_bytes()).as_str(),
                ).join(name).join(version),
            },
            ResolvedSource::Git { repo, commit } => base.join("git").join(
                Self::compute_hash(repo.as_str().as_bytes()).as_str(),
            ).join(commit.as_str()),
            ResolvedSource::Forge { forge, commit } => match forge {
                Forge::GitHub { owner, repo, .. } => base.join("github").join(owner.as_str()).join(
                    repo.as_str(),
                ).join(commit.as_str()),
                Forge::GitLab { owner, repo, .. } => base.join("gitlab").join(owner.as_str()).join(
                    repo.as_str(),
                ).join(commit.as_str()),
            },
            ResolvedSource::LocalDir { .. } => base,
        }
    }

    /// Where the bare repository of a git URL is kept.
    pub fn git_db_path(&self, url: &str) -> (r: JoinedPath)
        ensures
            r@ == git_db_path_of(self.config.cache_dir@, url@),
    {
        let ident = self.compute_git_ident(url);
        self.config.cache_dir.copied().join("git-db").join(ident.as_str())
    }

    /// Where the working tree of a commit is kept.
    pub fn git_checkout_path(&self, url: &str, commit: &str) -> (r: JoinedPath)
        ensures
            r@ == git_checkout_path_of(self.config.cache_dir@, url@, commit@),
    {
        let ident = self.compute_git_ident(url);
        self.config.cache_dir.copied().join("git-checkouts").join(ident.as_str()).join(commit)
    }

    /// The identifier of a git URL: the name of the repository, a dash and the first eight
    /// digits of a hash of the URL.
    pub fn compute_git_ident(&self, url: &str) -> (r: String)
        ensures
            r@ == git_ident_of(url@),
    {
        proof {
            reveal_strlit("/");
            reveal_strlit(".git");
        }
        let trimmed = trim_end(trim_end(url, "/").as_str(), ".git");
        let name = last_piece(trimmed.as_str(), '/');
        let hash = Self::compute_hash(url.as_bytes());
        let short = hash.as_str().substring_char(0, 8);
        assert(short@ =~= hash@.take(8));
        name.concat("-").concat(short)
    }
}

/// The two crates are kept in the same place for a reason: they come from the same kind of
/// source and agree in everything that tells two crates of that kind apart. Index URLs and
/// repository URLs are told apart by their digests.
pub open spec fn share_a_place(a: ResolvedCrate, b: ResolvedCrate) -> bool {
    let same_release = a.name@ == b.name@ && a.version@ == b.version@;
    match (a.source, b.source) {
        (ResolvedSource::CratesIo, ResolvedSource::CratesIo) => same_release,
        (
            ResolvedSource::Registry { source: RegistrySource::Named(x) },
            ResolvedSource::Registry { source: RegistrySource::Named(y) },
        ) => same_release && x@ == y@,
        (
            ResolvedSource::Registry { source: RegistrySource::IndexUrl(x) },
            ResolvedSource::Registry { source: RegistrySource::IndexUrl(y) },
        ) => same_release && sha256_of(encode_utf8(x@)) == sha256_of(encode_utf8(y@)),
        (
            ResolvedSource::Git { repo: x, commit: c },
            ResolvedSource::Git { repo: y, commit: d },
        ) => c@ == d@ && sha256_of(encode_utf8(x@)) == sha256_of(encode_utf8(y@)),
        (
            ResolvedSource::Forge { forge: Forge::GitHub { owner: o, repo: x, .. }, commit: c },
            ResolvedSource::Forge { forge: Forge::GitHub { owner: p, repo: y, .. }, commit: d },
        ) => o@ == p@ && x@ == y@ && c@ == d@,
        (
            ResolvedSource::Forge { forge: Forge::GitLab { owner: o, repo: x, .. }, commit: c },
            ResolvedSource::Forge { forge: Forge::GitLab { owner: p, repo: y, .. }, commit: d },
        ) => o@ == p@ && x@ == y@ && c@ == d@,
        _ => false,
    }
}

/// The name of the directory for each kind of source.
spec fn kind_dir(source: ResolvedSource) -> Seq<char> {
    match source {
        ResolvedSource::CratesIo => "crates-io"@,
        ResolvedSource::Registry { source: RegistrySource::Named(_) } => "registry"@,
        ResolvedSource::Registry { source: RegistrySource::IndexUrl(_) } => "registry-index"@,
        ResolvedSource::Git { .. } => "git"@,
        ResolvedSource::Forge { forge: Forge::GitHub { .. }, .. } => "github"@,
        ResolvedSource::Forge { forge: Forge::GitLab { .. }, .. } => "gitlab"@,
        ResolvedSource::LocalDir { .. } => Seq::empty(),
    }
}

/// The sources of two crates are kept in the same place exactly where the crates come from
/// the same kind of source and agree in what tells two crates of that kind apart.
pub proof fn source_paths_keep_crates_apart(
    cache_dir: PathView,
    a: ResolvedCrate,
    b: ResolvedCrate,
)
    requires
        !(a.source is LocalDir),
        !(b.source is LocalDir),
    ensures
        source_path_of(cache_dir, a) == source_path_of(cache_dir, b) <==> share_a_place(a, b),
{
    reveal_strlit("crates-io");
    reveal_strlit("registry");
    reveal_strlit("registry-index");
    reveal_strlit("git");
    reveal_strlit("github");
    reveal_strlit("gitlab");
    let n = cache_dir.segments.len() as int;
    let p = source_path_of(cache_dir, a).segments;
    let q = source_path_of(cache_dir, b).segments;
    assert(p[n + 1] == kind_dir(a.source));
    assert(q[n + 1] == kind_dir(b.source));
    if p == q {
        assert(kind_dir(a.source) == kind_dir(b.source));
        assert("github"@[3] != "gitlab"@[3]);
        assert(p.len() == q.len());
        assert(p[p.len() - 1] == q[p.len() - 1]);
        assert(p[p.len() - 2] == q[p.len() - 2]);
        assert(p[p.len() - 3] == q[p.len() - 3]);
    }
}

/// There is one bare repository for each identifier of a URL and one working tree for each
/// commit in it: two commits of a repository never share a working tree.
pub proof fn checkouts_keep_commits_apart(
    cache_dir: PathView,
    url: Seq<char>,
    a: Seq<char>,
    b: Seq<char>,
)
    ensures
        git_checkout_path_of(cache_dir, url, a) == git_checkout_path_of(cache_dir, url, b) <==> a
            == b,
{
    let n = cache_dir.segments.len() as int;
    assert(git_checkout_path_of(cache_dir, url, a).segments[n + 2] == a);
    assert(git_checkout_path_of(cache_dir, url, b).segments[n + 2] == b);
}

/// Bare repositories, working trees, crate sources, resolutions and searches for binaries are
/// kept apart.
pub proof fn caches_do_not_overlap(
    cache_dir: PathView,
    url: Seq<char>,
    other: Seq<char>,
    commit: Seq<char>,
    resolved: ResolvedCrate,
    spec_json: Seq<char>,
    search_json: Seq<char>,
)
    ensures
        git_db_path_of(cache_dir, url) != git_checkout_path_of(cache_dir, other, commit),
        git_db_path_of(cache_dir, url) != source_path_of(cache_dir, resolved),
        git_checkout_path_of(cache_dir, other, commit) != source_path_of(cache_dir, resolved),
        resolve_path_of(cache_dir, spec_json) != git_db_path_of(cache_dir, url),
        resolve_path_of(cache_dir, spec_json) != git_checkout_path_of(cache_dir, other, commit),
        resolve_path_of(cache_dir, spec_json) != source_path_of(cache_dir, resolved),
        binary_entry_path_of(cache_dir, search_json) != git_db_path_of(cache_dir, url),
        binary_entry_path_of(cache_dir, search_json) != git_checkout_path_of(
            cache_dir,
            other,
            commit,
        ),
        binary_entry_path_of(cache_dir, search_json) != source_path_of(cache_dir, resolved),
        binary_entry_path_of(cache_dir, search_json) != resolve_path_of(cache_dir, spec_json),
{
    reveal_strlit("git-db");
    reveal_strlit("git-checkouts");
    reveal_strlit("sources");
    reveal_strlit("resolve");
    reveal_strlit("resolve-binary");
    let n = cache_dir.segments.len() as int;
    assert(git_db_path_of(cache_dir, url).segments[n] == "git-db"@);
    assert(git_checkout_path_of(cache_dir, other, commit).segments[n] == "git-checkouts"@);
    assert(source_path_of(cache_dir, resolved).segments[n] == "sources"@);
    assert(resolve_path_of(cache_dir, spec_json).segments[n] == "resolve"@);
    assert(binary_entry_path_of(cache_dir, search_json).segments[n] == "resolve-binary"@);
    assert("resolve"@[0] != "sources"@[0]);
}

/// A search that was stored, with or without a binary, is not made again until it expires, but
/// `--refresh` always makes it again. Offline it is never made.
pub proof fn searches_are_kept(
    cache: Cache,
    found: Option<ResolvedBinary>,
    stored: i128,
    now: i128,
    entry: Option<BinaryEntry>,
)
    ensures
        cache.config.offline ==> forall|refresh: bool| !cache.searches(entry, refresh, now),
        !cache.config.offline ==> cache.searches(entry, true, now),
        ({
            let kept = Some(CacheEntry { value: found, cached_at: stored });
            !cache.config.offline ==> (cache.searches(kept, false, now) <==> now - stored
                >= cache.config.resolve_cache_timeout || cache.config.resolve_cache_timeout == 0)
        }),
{
}

/// A stored resolution is used, without resolving again, for exactly as long as the
/// configured time has not passed since; a clock that went back makes it no older.
pub proof fn stored_resolutions_last_until_they_expire(
    resolved: ResolvedCrate,
    stored: i128,
    now: i128,
    timeout: u128,
)
    ensures
        is_fresh(Some(CacheEntry { value: resolved, cached_at: stored }), now, timeout) <==> now
            - stored < timeout && timeout > 0,
{
}

/// An old entry saves a resolution that failed for a reason that may pass, and no other: a
/// permanent failure comes out whatever is cached, and a success is never replaced.
pub proof fn stale_entries_cover_transient_failures_only<T>(
    stale: Option<CacheEntry<T>>,
    outcome: Result<T, Error>,
)
    ensures
        outcome is Ok ==> resolution_outcome(stale, outcome) == outcome,
        outcome matches Err(e) ==> !is_transient(e) ==> resolution_outcome(stale, outcome)
            == outcome,
        outcome matches Err(e) ==> is_transient(e) ==> (resolution_outcome(stale, outcome) is Ok
            <==> stale is Some),
{
}

}
