//! Checking out a git reference through the two caches: the bare repositories and the
//! working trees.
//!
//! The client decides and reports; whoever runs it performs each action and hands back how
//! it went.
use vstd::pervasive::unreached;
use vstd::prelude::*;
use vstd::string::*;
use vstd::utf8::encode_utf8;

use crate::cache::{git_checkout_path_of, git_db_path_of, Cache};
use crate::config::HttpConfig;
use crate::cratespec::GitSelector;
use crate::git::{
    hashes_have_forty_digits, hex, hex_of, is_commit_hash, is_object_id, lookup, lookup_is, object_id_valid, refspec, refspec_of, resolve_selector,
    selector_resolution, Error, Lookup, LookupOutcome, HASH_LENGTH,
};
use crate::http::{backoff, backoff_of, Backoff};
use crate::messages::GitMessage;
use crate::paths::{JoinedPath, PathView};

verus! {

/// What a checkout waits for.
#[derive(Clone, Debug, PartialEq, Eq)]
pub enum Phase {
    /// Whether the bare repository is there.
    CheckingDb,
    /// The directory of the bare repository.
    CreatingDb,
    /// The bare repository.
    InitialisingDb,
    /// The lookup in what is already there.
    ResolvingLocally,
    /// The fetch.
    Fetching,
    /// The lookup after the fetch.
    ResolvingFetched,
    /// Whether a complete working tree is there.
    CheckingTree { commit: String },
    /// The directory of the working tree.
    CreatingTree { commit: String },
    /// The files of the working tree.
    WritingTree { commit: String },
    /// The marker of a complete working tree.
    MarkingTree { commit: String },
    /// Nothing: the checkout is over.
    Finished,
}

/// A checkout under way.
#[derive(Clone, Debug, PartialEq, Eq)]
pub struct Checkout {
    pub url: String,
    pub selector: GitSelector,
    pub phase: Phase,
}

/// How an action went.
#[derive(Clone, Debug, PartialEq, Eq)]
pub enum GitEvent {
    /// Whether what was asked about is there.
    Exists(bool),
    /// It was done.
    Done,
    /// It could not be done.
    Failed(String),
    /// The repository could not be opened.
    NotOpened(String),
    /// The fetch failed, for good.
    FetchFailed(Error),
    /// How the lookup went.
    LookedUp(LookupOutcome),
}

/// What is to be done next.
#[derive(Debug, PartialEq, Eq)]
pub enum GitAction {
    /// Look whether the path exists.
    CheckExists { path: JoinedPath },
    /// Make the directory and those above it.
    CreateDir { path: JoinedPath },
    /// Make a bare repository in the directory.
    InitBare { path: JoinedPath },
    /// Look the selector up in the bare repository.
    LookUp { db: JoinedPath, lookup: Lookup },
    /// Fetch into the bare repository.
    Fetch { db: JoinedPath, url: String, refspec: String },
    /// Look whether both the working tree and its marker exist.
    CheckTree { path: JoinedPath, marker: JoinedPath },
    /// Make the directory of the working tree and remove its marker.
    PrepareTree { path: JoinedPath, marker: JoinedPath },
    /// Write the files of the commit into the working tree.
    WriteTree { db: JoinedPath, commit: String, path: JoinedPath },
    /// Write the marker.
    WriteMarker { path: JoinedPath },
    /// Nothing: here is the working tree and its commit, or the error.
    Finish(Result<(JoinedPath, String), Error>),
}

/// What comes of an event: what to report, then what to do, and where the checkout stands.
#[derive(Debug, PartialEq, Eq)]
pub struct Step {
    pub state: Checkout,
    pub messages: Vec<GitMessage>,
    pub action: GitAction,
}

/// Runs git operations through the caches.
#[derive(Clone, Debug)]
pub struct GitClient {
    pub cache: Cache,
    pub http_config: HttpConfig,
}

/// The event says how a lookup went. What is found is the hash of a commit.
pub open spec fn is_lookup(event: GitEvent) -> bool {
    event matches GitEvent::LookedUp(outcome) && (match outcome {
        LookupOutcome::Found(id) => id@.len() == HASH_LENGTH,
        _ => true,
    })
}

/// The event is an answer to what the phase waits for.
pub open spec fn answers(phase: Phase, event: GitEvent) -> bool {
    match phase {
        Phase::CheckingDb => event is Exists,
        Phase::CreatingDb => event is Done || event is Failed,
        Phase::InitialisingDb => event is Done || event is Failed,
        Phase::ResolvingLocally => is_lookup(event),
        Phase::Fetching => event is Done || event is FetchFailed,
        Phase::ResolvingFetched => is_lookup(event),
        Phase::CheckingTree { .. } => event is Exists,
        Phase::CreatingTree { .. } => event is Done || event is Failed,
        Phase::WritingTree { .. } => event is Done || event is NotOpened || event is Failed,
        Phase::MarkingTree { .. } => event is Done || event is Failed,
        Phase::Finished => false,
    }
}

/// The step only acts: it reports nothing.
pub open spec fn silent(step: Step) -> bool {
    step.messages@.len() == 0
}

/// The step reports one thing.
pub open spec fn reports(step: Step, message: spec_fn(GitMessage) -> bool) -> bool {
    step.messages@.len() == 1 && message(step.messages@[0])
}

/// The step ends the checkout with an error.
pub open spec fn fails(step: Step, error: spec_fn(Error) -> bool) -> bool {
    &&& step.state.phase is Finished
    &&& step.action matches GitAction::Finish(Err(e)) && error(e)
}

/// The marker of a complete working tree.
pub open spec fn marker_of(tree: PathView) -> PathView {
    tree.join(".cgx-ok"@)
}

fn is_answer(outcome: &LookupOutcome) -> (r: bool)
    ensures
        r == is_lookup(GitEvent::LookedUp(*outcome)),
{
    match outcome {
        LookupOutcome::Found(id) => id.len() == HASH_LENGTH,
        _ => true,
    }
}

impl GitClient {
    /// The bare repository of the checkout.
    pub open spec fn db(self, state: Checkout) -> PathView {
        git_db_path_of(self.cache.config.cache_dir@, state.url@)
    }

    /// The working tree of a commit.
    pub open spec fn tree(self, state: Checkout, commit: Seq<char>) -> PathView {
        git_checkout_path_of(self.cache.config.cache_dir@, state.url@, commit)
    }

    /// The step looks the selector up in the bare repository.
    pub open spec fn looks_up(self, step: Step) -> bool {
        step.action matches GitAction::LookUp { db, lookup } && db@ == self.db(step.state)
            && lookup_is(lookup, step.state.selector)
    }

    /// The step starts the local lookup.
    pub open spec fn resolves_locally(self, step: Step) -> bool {
        &&& step.state.phase is ResolvingLocally
        &&& self.looks_up(step)
        &&& reports(
            step,
            |m: GitMessage|
                m matches GitMessage::ResolvingRef { url, selector } && url@ == step.state.url@
                    && selector == step.state.selector,
        )
    }

    /// The step looks for a complete working tree of the commit.
    pub open spec fn checks_tree(self, step: Step, commit: Seq<char>) -> bool {
        &&& step.state.phase matches Phase::CheckingTree { commit: c } && c@ == commit
        &&& step.action matches GitAction::CheckTree { path, marker } && path@ == self.tree(
            step.state,
            commit,
        ) && marker@ == marker_of(self.tree(step.state, commit))
    }

    /// The step ends the checkout with the working tree of the commit.
    pub open spec fn delivers(self, step: Step, commit: Seq<char>) -> bool {
        &&& step.state.phase is Finished
        &&& step.action matches GitAction::Finish(Ok((path, c))) && path@ == self.tree(
            step.state,
            commit,
        ) && c@ == commit
    }

    /// What comes of an event in each phase.
    pub open spec fn steps(self, state: Checkout, event: GitEvent, step: Step) -> bool {
        &&& step.state.url == state.url
        &&& step.state.selector == state.selector
        &&& match (state.phase, event) {
            (Phase::CheckingDb, GitEvent::Exists(there)) => if there {
                self.resolves_locally(step)
            } else {
                &&& silent(step)
                &&& step.state.phase is CreatingDb
                &&& step.action matches GitAction::CreateDir { path } && path@ == self.db(state)
            },
            (Phase::CreatingDb, GitEvent::Done) => {
                &&& silent(step)
                &&& step.state.phase is InitialisingDb
                &&& step.action matches GitAction::InitBare { path } && path@ == self.db(state)
            },
            (Phase::CreatingDb, GitEvent::Failed(why)) => silent(step) && fails(
                step,
                |e: Error|
                    e matches Error::CreateDirectory { path, reason } && path@ == self.db(state)
                        && reason == why,
            ),
            (Phase::InitialisingDb, GitEvent::Done) => self.resolves_locally(step),
            (Phase::InitialisingDb, GitEvent::Failed(why)) => silent(step) && fails(
                step,
                |e: Error|
                    e matches Error::InitBareRepo { path, reason } && path@ == self.db(state)
                        && reason == why,
            ),
            (Phase::ResolvingLocally, GitEvent::LookedUp(LookupOutcome::Found(id))) => {
                &&& self.checks_tree(step, hex_of(id@))
                &&& reports(
                    step,
                    |m: GitMessage|
                        m matches GitMessage::RefFoundLocally { url, selector, commit: c } && url@
                            == state.url@ && selector == state.selector && c@ == hex_of(id@),
                )
            },
            (Phase::ResolvingLocally, GitEvent::LookedUp(_)) => if self.cache.config.offline {
                silent(step) && fails(
                    step,
                    |e: Error| e matches Error::Offline { url } && url@ == state.url@,
                )
            } else {
                &&& step.state.phase is Fetching
                &&& step.action matches GitAction::Fetch { db, url, refspec } && db@ == self.db(
                    state,
                ) && url@ == state.url@ && refspec@ == refspec_of(state.selector)
                &&& reports(
                    step,
                    |m: GitMessage|
                        m matches GitMessage::FetchingRepo { url, selector } && url@ == state.url@
                            && selector == state.selector,
                )
            },
            (Phase::Fetching, GitEvent::Done) => {
                &&& silent(step)
                &&& step.state.phase is ResolvingFetched
                &&& self.looks_up(step)
            },
            (Phase::Fetching, GitEvent::FetchFailed(error)) => silent(step) && fails(
                step,
                |e: Error| e == error,
            ),
            (Phase::ResolvingFetched, GitEvent::LookedUp(LookupOutcome::Found(id))) => {
                &&& self.checks_tree(step, hex_of(id@))
                &&& reports(
                    step,
                    |m: GitMessage|
                        m matches GitMessage::ResolvedRef { commit: c } && c@ == hex_of(id@),
                )
            },
            (Phase::ResolvingFetched, GitEvent::LookedUp(outcome)) => silent(step) && fails(
                step,
                |e: Error|
                    selector_resolution(Err(e), self.db(state), state.selector, outcome),
            ),
            (Phase::CheckingTree { commit }, GitEvent::Exists(there)) => if there {
                &&& self.delivers(step, commit@)
                &&& reports(
                    step,
                    |m: GitMessage|
                        m matches GitMessage::CheckoutExists { commit: c, path } && c@ == commit@
                            && path@ == self.tree(state, commit@),
                )
            } else {
                &&& step.state.phase == (Phase::CreatingTree { commit })
                &&& step.action matches GitAction::PrepareTree { path, marker } && path@
                    == self.tree(state, commit@) && marker@ == marker_of(self.tree(state, commit@))
                &&& reports(
                    step,
                    |m: GitMessage|
                        m matches GitMessage::CheckingOut { commit: c, path } && c@ == commit@
                            && path@ == self.tree(state, commit@),
                )
            },
            (Phase::CreatingTree { commit }, GitEvent::Done) => if object_id_valid(
                encode_utf8(commit@),
            ) {
                &&& silent(step)
                &&& step.state.phase == (Phase::WritingTree { commit })
                &&& step.action matches GitAction::WriteTree { db, commit: c, path } && db@
                    == self.db(state) && c == commit && path@ == self.tree(state, commit@)
            } else {
                silent(step) && fails(
                    step,
                    |e: Error| e == (Error::InvalidCommitHash { hash: commit }),
                )
            },
            (Phase::CreatingTree { commit }, GitEvent::Failed(why)) => silent(step) && fails(
                step,
                |e: Error|
                    e matches Error::CreateDirectory { path, reason } && path@ == self.tree(
                        state,
                        commit@,
                    ) && reason == why,
            ),
            (Phase::WritingTree { commit }, GitEvent::Done) => {
                &&& silent(step)
                &&& step.state.phase == (Phase::MarkingTree { commit })
                &&& step.action matches GitAction::WriteMarker { path } && path@ == marker_of(
                    self.tree(state, commit@),
                )
            },
            (Phase::WritingTree { commit }, GitEvent::NotOpened(why)) => silent(step) && fails(
                step,
                |e: Error|
                    e matches Error::OpenRepo { path, reason } && path@ == self.db(state) && reason
                        == why,
            ),
            (Phase::WritingTree { commit }, GitEvent::Failed(why)) => silent(step) && fails(
                step,
                |e: Error|
                    e matches Error::CheckoutFromDb { path, reason } && path@ == self.tree(
                        state,
                        commit@,
                    ) && reason == why,
            ),
            (Phase::MarkingTree { commit }, GitEvent::Done) => {
                &&& self.delivers(step, commit@)
                &&& reports(
                    step,
                    |m: GitMessage|
                        m matches GitMessage::CheckoutComplete { path } && path@ == self.tree(
                            state,
                            commit@,
                        ),
                )
            },
            (Phase::MarkingTree { commit }, GitEvent::Failed(why)) => silent(step) && fails(
                step,
                |e: Error|
                    e matches Error::WriteMarkerFile { path, reason } && path@ == marker_of(
                        self.tree(state, commit@),
                    ) && reason == why,
            ),
            _ => false,
        }
    }

    /// A client that works in the given caches.
    pub fn new(cache: Cache, http_config: HttpConfig) -> (r: Self)
        ensures
            r.cache == cache,
            r.http_config == http_config,
    {
        GitClient { cache, http_config }
    }

    /// How fetches are tried again.
    pub fn build_backoff(&self) -> (r: Backoff)
        ensures
            r == backoff_of(self.http_config),
    {
        backoff(&self.http_config)
    }

    /// The step starts a checkout: the first question is whether the bare repository of the URL
    /// is there.
    pub open spec fn starts(self, url: Seq<char>, selector: GitSelector, step: Step) -> bool {
        &&& step.state.url@ == url
        &&& step.state.selector == selector
        &&& step.state.phase is CheckingDb
        &&& silent(step)
        &&& step.action matches GitAction::CheckExists { path } && path@ == self.db(step.state)
    }

    /// Start to check out a reference: the first question is whether the bare repository of
    /// the URL is there.
    pub fn checkout_ref(&self, url: &str, selector: GitSelector) -> (r: Step)
        ensures
            self.starts(url@, selector, r),
    {
        let path = self.cache.git_db_path(url);
        Step {
            state: Checkout { url: url.to_owned(), selector, phase: Phase::CheckingDb },
            messages: Vec::new(),
            action: GitAction::CheckExists { path },
        }
    }

    fn resolve_locally(&self, state: Checkout) -> (r: Step)
        ensures
            r.state.url == state.url,
            r.state.selector == state.selector,
            self.resolves_locally(r),
    {
        let db = self.cache.git_db_path(state.url.as_str());
        let how = lookup(&state.selector);
        let message = GitMessage::resolving_ref(state.url.as_str(), &state.selector);
        Step {
            state: Checkout {
                url: state.url,
                selector: state.selector,
                phase: Phase::ResolvingLocally,
            },
            messages: vec![message],
            action: GitAction::LookUp { db, lookup: how },
        }
    }

    fn check_tree(&self, state: Checkout, commit: String, message: GitMessage) -> (r: Step)
        ensures
            r.state.url == state.url,
            r.state.selector == state.selector,
            self.checks_tree(r, commit@),
            r.messages@ == seq![message],
    {
        let path = self.cache.git_checkout_path(state.url.as_str(), commit.as_str());
        let marker = path.copied().join(".cgx-ok");
        Step {
            state: Checkout {
                url: state.url,
                selector: state.selector,
                phase: Phase::CheckingTree { commit },
            },
            messages: vec![message],
            action: GitAction::CheckTree { path, marker },
        }
    }

    fn fail(&self, state: Checkout, error: Error) -> (r: Step)
        ensures
            r.state.url == state.url,
            r.state.selector == state.selector,
            silent(r),
            r.state.phase is Finished,
            r.action == GitAction::Finish(Err(error)),
    {
        Step {
            state: Checkout { url: state.url, selector: state.selector, phase: Phase::Finished },
            messages: Vec::new(),
            action: GitAction::Finish(Err(error)),
        }
    }

    fn go(&self, state: Checkout, phase: Phase, action: GitAction) -> (r: Step)
        ensures
            r.state.url == state.url,
            r.state.selector == state.selector,
            r.state.phase == phase,
            r.action == action,
            silent(r),
    {
        Step {
            state: Checkout { url: state.url, selector: state.selector, phase },
            messages: Vec::new(),
            action,
        }
    }

    fn tell(&self, state: Checkout, phase: Phase, message: GitMessage, action: GitAction) -> (r: Step)
        ensures
            r.state.url == state.url,
            r.state.selector == state.selector,
            r.state.phase == phase,
            r.action == action,
            r.messages@ == seq![message],
    {
        Step {
            state: Checkout { url: state.url, selector: state.selector, phase },
            messages: vec![message],
            action,
        }
    }

    /// Whether the event is an answer to what the checkout waits for.
    pub fn awaits(&self, state: &Checkout, event: &GitEvent) -> (r: bool)
        ensures
            r == answers(state.phase, *event),
    {
        match (&state.phase, event) {
            (Phase::CheckingDb, GitEvent::Exists(_)) => true,
            (Phase::CreatingDb, GitEvent::Done) => true,
            (Phase::CreatingDb, GitEvent::Failed(_)) => true,
            (Phase::InitialisingDb, GitEvent::Done) => true,
            (Phase::InitialisingDb, GitEvent::Failed(_)) => true,
            (Phase::ResolvingLocally, GitEvent::LookedUp(outcome)) => is_answer(outcome),
            (Phase::Fetching, GitEvent::Done) => true,
            (Phase::Fetching, GitEvent::FetchFailed(_)) => true,
            (Phase::ResolvingFetched, GitEvent::LookedUp(outcome)) => is_answer(outcome),
            (Phase::CheckingTree { .. }, GitEvent::Exists(_)) => true,
            (Phase::CreatingTree { .. }, GitEvent::Done) => true,
            (Phase::CreatingTree { .. }, GitEvent::Failed(_)) => true,
            (Phase::WritingTree { .. }, GitEvent::Done) => true,
            (Phase::WritingTree { .. }, GitEvent::NotOpened(_)) => true,
            (Phase::WritingTree { .. }, GitEvent::Failed(_)) => true,
            (Phase::MarkingTree { .. }, GitEvent::Done) => true,
            (Phase::MarkingTree { .. }, GitEvent::Failed(_)) => true,
            _ => false,
        }
    }

    /// Go on with a checkout once the last action is over.
    pub fn next(&self, state: Checkout, event: GitEvent) -> (r: Step)
        requires
            answers(state.phase, event),
        ensures
            self.steps(state, event, r),
    {
        let phase = state.phase;
        let state = Checkout { url: state.url, selector: state.selector, phase: Phase::Finished };
        let db = self.cache.git_db_path(state.url.as_str());
        match phase {
            Phase::CheckingDb => match event {
                GitEvent::Exists(true) => self.resolve_locally(state),
                _ => self.go(state, Phase::CreatingDb, GitAction::CreateDir { path: db }),
            },
            Phase::CreatingDb => match event {
                GitEvent::Failed(reason) => self.fail(
                    state,
                    Error::CreateDirectory { path: db, reason },
                ),
                _ => self.go(state, Phase::InitialisingDb, GitAction::InitBare { path: db }),
            },
            Phase::InitialisingDb => match event {
                GitEvent::Failed(reason) => self.fail(
                    state,
                    Error::InitBareRepo { path: db, reason },
                ),
                _ => self.resolve_locally(state),
            },
            Phase::ResolvingLocally => {
                let found = match event {
                    GitEvent::LookedUp(LookupOutcome::Found(id)) => Some(hex(&id)),
                    _ => None,
                };
                match found {
                    Some(commit) => {
                        let message = GitMessage::ref_found_locally(
                            state.url.as_str(),
                            &state.selector,
                            commit.as_str(),
                        );
                        self.check_tree(state, commit, message)
                    },
                    None => {
                        if self.cache.config.offline {
                            let url = state.url.clone();
                            return self.fail(state, Error::Offline { url });
                        }
                        let message = GitMessage::fetching_repo(
                            state.url.as_str(),
                            &state.selector,
                        );
                        let spec = refspec(&state.selector);
                        let url = state.url.clone();
                        self.tell(
                            state,
                            Phase::Fetching,
                            message,
                            GitAction::Fetch { db, url, refspec: spec },
                        )
                    },
                }
            },
            Phase::Fetching => match event {
                GitEvent::FetchFailed(error) => self.fail(state, error),
                _ => {
                    let how = lookup(&state.selector);
                    self.go(
                        state,
                        Phase::ResolvingFetched,
                        GitAction::LookUp { db, lookup: how },
                    )
                },
            },
            Phase::ResolvingFetched => match event {
                GitEvent::LookedUp(outcome) => match resolve_selector(
                    &db,
                    &state.selector,
                    outcome,
                ) {
                    Ok(commit) => {
                        let message = GitMessage::resolved_ref(commit.as_str());
                        self.check_tree(state, commit, message)
                    },
                    Err(e) => self.fail(state, e),
                },
                _ => unreached(),
            },
            Phase::CheckingTree { commit } => {
                let path = self.cache.git_checkout_path(state.url.as_str(), commit.as_str());
                match event {
                    GitEvent::Exists(true) => {
                        let message = GitMessage::checkout_exists(commit.as_str(), &path);
                        self.tell(
                            state,
                            Phase::Finished,
                            message,
                            GitAction::Finish(Ok((path, commit))),
                        )
                    },
                    _ => {
                        let message = GitMessage::checking_out(commit.as_str(), &path);
                        let marker = path.copied().join(".cgx-ok");
                        self.tell(
                            state,
                            Phase::CreatingTree { commit },
                            message,
                            GitAction::PrepareTree { path, marker },
                        )
                    },
                }
            },
            Phase::CreatingTree { commit } => {
                let path = self.cache.git_checkout_path(state.url.as_str(), commit.as_str());
                match event {
                    GitEvent::Failed(reason) => self.fail(
                        state,
                        Error::CreateDirectory { path, reason },
                    ),
                    _ => if is_object_id(commit.as_str()) {
                        let copy = commit.clone();
                        self.go(
                            state,
                            Phase::WritingTree { commit },
                            GitAction::WriteTree { db, commit: copy, path },
                        )
                    } else {
                        self.fail(state, Error::InvalidCommitHash { hash: commit })
                    },
                }
            },
            Phase::WritingTree { commit } => {
                let path = self.cache.git_checkout_path(state.url.as_str(), commit.as_str());
                match event {
                    GitEvent::NotOpened(reason) => self.fail(
                        state,
                        Error::OpenRepo { path: db, reason },
                    ),
                    GitEvent::Failed(reason) => self.fail(
                        state,
                        Error::CheckoutFromDb { path, reason },
                    ),
                    _ => self.go(
                        state,
                        Phase::MarkingTree { commit },
                        GitAction::WriteMarker { path: path.join(".cgx-ok") },
                    ),
                }
            },
            Phase::MarkingTree { commit } => {
                let path = self.cache.git_checkout_path(state.url.as_str(), commit.as_str());
                match event {
                    GitEvent::Failed(reason) => self.fail(
                        state,
                        Error::WriteMarkerFile { path: path.join(".cgx-ok"), reason },
                    ),
                    _ => {
                        let message = GitMessage::checkout_complete(&path);
                        self.tell(
                            state,
                            Phase::Finished,
                            message,
                            GitAction::Finish(Ok((path, commit))),
                        )
                    },
                }
            },
            Phase::Finished => unreached(),
        }
    }
}

/// Offline nothing is fetched. A selector that is not found in what is already there ends the
/// checkout with an error.
pub proof fn offline_checkouts_fetch_nothing(
    client: GitClient,
    state: Checkout,
    event: GitEvent,
    step: Step,
)
    requires
        client.steps(state, event, step),
        client.cache.config.offline,
    ensures
        !(step.action is Fetch),
        state.phase is ResolvingLocally && !(event matches GitEvent::LookedUp(
            LookupOutcome::Found(_),
        )) ==> (step.action matches GitAction::Finish(Err(Error::Offline { url })) && url@
            == state.url@),
{
}

/// The network is used only where the selector was not found in what is already there.
pub proof fn found_locally_means_no_fetch(
    client: GitClient,
    state: Checkout,
    event: GitEvent,
    step: Step,
)
    requires
        client.steps(state, event, step),
        step.action is Fetch,
    ensures
        state.phase is ResolvingLocally,
        event matches GitEvent::LookedUp(outcome) && !(outcome is Found),
{
}

/// A checkout ends well in one of two ways, each with the working tree of the commit: a
/// complete working tree was there, and then nothing was written to it, or its files were
/// written and then its marker.
pub proof fn delivered_trees_are_complete(
    client: GitClient,
    state: Checkout,
    event: GitEvent,
    step: Step,
)
    requires
        client.steps(state, event, step),
        step.action matches GitAction::Finish(Ok(_)),
    ensures
        (state.phase is CheckingTree && event == GitEvent::Exists(true)) || (
        state.phase is MarkingTree && event is Done),
        ({
            let delivered = step.action->Finish_0->Ok_0;
            delivered.0@ == client.tree(state, delivered.1@)
        }),
{
}

/// The files of a working tree are written only with its marker removed before, and the
/// marker is written only once all files are: a marker stands on complete trees only.
pub proof fn markers_follow_files(
    client: GitClient,
    state: Checkout,
    event: GitEvent,
    step: Step,
)
    requires
        client.steps(state, event, step),
    ensures
        step.action is WriteTree ==> state.phase is CreatingTree && event is Done,
        step.state.phase is CreatingTree ==> step.action is PrepareTree,
        step.action is WriteMarker ==> state.phase is WritingTree && event is Done,
        step.state.phase is WritingTree ==> step.action is WriteTree,
{
}

/// How far a checkout has come.
pub open spec fn progress(phase: Phase) -> nat {
    match phase {
        Phase::CheckingDb => 0,
        Phase::CreatingDb => 1,
        Phase::InitialisingDb => 2,
        Phase::ResolvingLocally => 3,
        Phase::Fetching => 4,
        Phase::ResolvingFetched => 5,
        Phase::CheckingTree { .. } => 6,
        Phase::CreatingTree { .. } => 7,
        Phase::WritingTree { .. } => 8,
        Phase::MarkingTree { .. } => 9,
        Phase::Finished => 10,
    }
}

/// Every step brings a checkout further, so it ends after ten answers at most: no phase comes
/// twice, and in particular nothing is fetched twice. It is over exactly when there is
/// nothing left to do.
pub proof fn checkouts_come_to_an_end(
    client: GitClient,
    state: Checkout,
    event: GitEvent,
    step: Step,
)
    requires
        client.steps(state, event, step),
    ensures
        progress(state.phase) < progress(step.state.phase) <= 10,
        step.action is Finish <==> step.state.phase is Finished,
        step.state.url == state.url,
        step.state.selector == state.selector,
{
}

/// A checkout from its start: each event answers the step before it, and each step but the
/// first is what comes of an event.
pub open spec fn is_checkout(client: GitClient, taken: Seq<Step>, events: Seq<GitEvent>) -> bool {
    &&& taken.len() == events.len() + 1
    &&& taken[0].state.phase is CheckingDb
    &&& taken[0].action matches GitAction::CheckExists { path } && path@ == client.db(
        taken[0].state,
    )
    &&& forall|i: int|
        0 <= i < events.len() ==> answers((#[trigger] taken[i]).state.phase, events[i])
            && client.steps(taken[i].state, events[i], taken[i + 1])
}

proof fn later_steps_are_further(
    client: GitClient,
    taken: Seq<Step>,
    events: Seq<GitEvent>,
    i: int,
    j: int,
)
    requires
        is_checkout(client, taken, events),
        0 <= i <= j <= events.len(),
    ensures
        progress(taken[i].state.phase) + (j - i) <= progress(taken[j].state.phase),
        taken[j].state.url == taken[i].state.url,
        taken[j].state.selector == taken[i].state.selector,
    decreases j - i,
{
    if i < j {
        later_steps_are_further(client, taken, events, i, j - 1);
        assert(client.steps(taken[j - 1].state, events[j - 1], taken[j - 1 + 1]));
        checkouts_come_to_an_end(client, taken[j - 1].state, events[j - 1], taken[j]);
    }
}

/// A checkout is over after ten answers at most, and it is about one URL and one selector from
/// its start to its end.
pub proof fn checkouts_are_short(client: GitClient, taken: Seq<Step>, events: Seq<GitEvent>)
    requires
        is_checkout(client, taken, events),
    ensures
        events.len() <= 10,
        taken.last().state.url == taken[0].state.url,
        taken.last().state.selector == taken[0].state.selector,
{
    let n = events.len() as int;
    later_steps_are_further(client, taken, events, 0, n);
    if n > 0 {
        assert(client.steps(taken[n - 1].state, events[n - 1], taken[n - 1 + 1]));
        checkouts_come_to_an_end(client, taken[n - 1].state, events[n - 1], taken[n]);
    }
}

/// A checkout fetches at most once.
pub proof fn nothing_is_fetched_twice(
    client: GitClient,
    taken: Seq<Step>,
    events: Seq<GitEvent>,
    i: int,
    j: int,
)
    requires
        is_checkout(client, taken, events),
        0 <= i < j <= events.len(),
    ensures
        !(taken[i].action is Fetch && taken[j].action is Fetch),
{
    later_steps_are_further(client, taken, events, i, j);
    if i > 0 {
        assert(client.steps(taken[i - 1].state, events[i - 1], taken[i - 1 + 1]));
    }
    assert(client.steps(taken[j - 1].state, events[j - 1], taken[j - 1 + 1]));
}

/// A checkout whose selector is found in what is already there never uses the network.
pub proof fn known_references_stay_off_the_network(
    client: GitClient,
    taken: Seq<Step>,
    events: Seq<GitEvent>,
    known: int,
    j: int,
)
    requires
        is_checkout(client, taken, events),
        0 <= known < events.len(),
        taken[known].state.phase is ResolvingLocally,
        events[known] matches GitEvent::LookedUp(LookupOutcome::Found(_)),
        0 <= j <= events.len(),
    ensures
        !(taken[j].action is Fetch),
{
    assert(client.steps(taken[known].state, events[known], taken[known + 1]));
    if j > 0 {
        assert(client.steps(taken[j - 1].state, events[j - 1], taken[j - 1 + 1]));
    }
    if j <= known {
        later_steps_are_further(client, taken, events, j, known);
    } else {
        later_steps_are_further(client, taken, events, known + 1, j);
    }
}

/// What of the disk matters to checkouts.
pub struct Disk {
    /// The directories that exist.
    pub directories: Set<PathView>,
    /// The commits in each bare repository.
    pub commits: Set<(PathView, Seq<char>)>,
    /// The markers of complete working trees.
    pub markers: Set<PathView>,
}

/// The event is what the disk shows: what exists is found, a revision that is the hash of a
/// commit is found as that commit, and what is found is there.
pub open spec fn tells_truth(disk: Disk, action: GitAction, event: GitEvent) -> bool {
    match action {
        GitAction::CheckExists { path } => event == GitEvent::Exists(
            disk.directories.contains(path@),
        ),
        GitAction::CheckTree { marker, .. } => event == GitEvent::Exists(
            disk.markers.contains(marker@),
        ),
        GitAction::LookUp { db, lookup } => event matches GitEvent::LookedUp(outcome) && {
            &&& outcome matches LookupOutcome::Found(id) ==> disk.commits.contains(
                (db@, hex_of(id@)),
            )
            &&& lookup matches Lookup::Revision(r) ==> disk.commits.contains((db@, r@)) ==> (
            outcome matches LookupOutcome::Found(id) && hex_of(id@) == r@)
        },
        _ => true,
    }
}

/// What an action that went as the event says leaves on the disk.
pub open spec fn changes(before: Disk, action: GitAction, event: GitEvent, after: Disk) -> bool {
    match (action, event) {
        (GitAction::CreateDir { path }, GitEvent::Done) => after == (Disk {
            directories: before.directories.insert(path@),
            ..before
        }),
        (GitAction::PrepareTree { path, marker }, GitEvent::Done) => after == (Disk {
            directories: before.directories.insert(path@),
            markers: before.markers.remove(marker@),
            ..before
        }),
        (GitAction::WriteMarker { path }, GitEvent::Done) => after == (Disk {
            markers: before.markers.insert(path@),
            ..before
        }),
        (GitAction::Fetch { .. }, _) => {
            &&& after.directories == before.directories
            &&& after.markers == before.markers
            &&& before.commits.subset_of(after.commits)
        },
        (GitAction::CreateDir { .. }, _) => before.directories.subset_of(after.directories)
            && after.commits == before.commits && after.markers == before.markers,
        (GitAction::PrepareTree { .. }, _) => before.directories.subset_of(after.directories)
            && after.commits == before.commits && after.markers.subset_of(before.markers),
        (GitAction::WriteMarker { .. }, _) => after.directories == before.directories
            && after.commits == before.commits && before.markers.subset_of(after.markers),
        _ => after == before,
    }
}

/// A checkout on a disk that nobody else changes. The disk before step `i` is `disks[i]`.
pub open spec fn is_checkout_on(
    client: GitClient,
    taken: Seq<Step>,
    events: Seq<GitEvent>,
    disks: Seq<Disk>,
) -> bool {
    &&& is_checkout(client, taken, events)
    &&& disks.len() == taken.len()
    &&& forall|i: int|
        0 <= i < events.len() ==> tells_truth(disks[i], (#[trigger] taken[i]).action, events[i])
            && changes(disks[i], taken[i].action, events[i], disks[i + 1])
}

/// The action is what the phase waits for.
spec fn acts(client: GitClient, step: Step) -> bool {
    let state = step.state;
    match state.phase {
        Phase::CheckingDb => step.action matches GitAction::CheckExists { path } && path@
            == client.db(state),
        Phase::CreatingDb => step.action matches GitAction::CreateDir { path } && path@ == client.db(
            state,
        ),
        Phase::InitialisingDb => step.action is InitBare,
        Phase::ResolvingLocally => client.looks_up(step),
        Phase::Fetching => step.action is Fetch,
        Phase::ResolvingFetched => client.looks_up(step),
        Phase::CheckingTree { commit } => client.checks_tree(step, commit@),
        Phase::CreatingTree { commit } => step.action is PrepareTree,
        Phase::WritingTree { commit } => step.action is WriteTree,
        Phase::MarkingTree { commit } => step.action matches GitAction::WriteMarker { path }
            && path@ == marker_of(client.tree(state, commit@)),
        Phase::Finished => step.action is Finish,
    }
}

/// What is known of the disk before the step.
spec fn known(client: GitClient, step: Step, disk: Disk) -> bool {
    let state = step.state;
    let db = client.db(state);
    match state.phase {
        Phase::CheckingDb => true,
        Phase::CreatingDb => true,
        Phase::InitialisingDb => disk.directories.contains(db),
        Phase::ResolvingLocally => disk.directories.contains(db),
        Phase::Fetching => disk.directories.contains(db),
        Phase::ResolvingFetched => disk.directories.contains(db),
        Phase::CheckingTree { commit } => disk.directories.contains(db) && disk.commits.contains(
            (db, commit@),
        ) && is_commit_hash(commit@),
        Phase::CreatingTree { commit } => disk.directories.contains(db) && disk.commits.contains(
            (db, commit@),
        ) && is_commit_hash(commit@),
        Phase::WritingTree { commit } => disk.directories.contains(db) && disk.commits.contains(
            (db, commit@),
        ) && is_commit_hash(commit@),
        Phase::MarkingTree { commit } => disk.directories.contains(db) && disk.commits.contains(
            (db, commit@),
        ) && is_commit_hash(commit@),
        Phase::Finished => step.action matches GitAction::Finish(Ok((path, commit))) ==> holds_tree(
            client,
            state,
            commit@,
            disk,
        ) && path@ == client.tree(state, commit@) && is_commit_hash(commit@),
    }
}

/// The disk holds everything that a checkout of the commit needs.
pub open spec fn holds_tree(
    client: GitClient,
    state: Checkout,
    commit: Seq<char>,
    disk: Disk,
) -> bool {
    &&& disk.directories.contains(client.db(state))
    &&& disk.commits.contains((client.db(state), commit))
    &&& disk.markers.contains(marker_of(client.tree(state, commit)))
}

proof fn knowledge_grows(
    client: GitClient,
    taken: Seq<Step>,
    events: Seq<GitEvent>,
    disks: Seq<Disk>,
    n: int,
)
    requires
        is_checkout_on(client, taken, events, disks),
        0 <= n <= events.len(),
    ensures
        acts(client, taken[n]),
        known(client, taken[n], disks[n]),
        taken[n].state.url == taken[0].state.url,
    decreases n,
{
    if n > 0 {
        knowledge_grows(client, taken, events, disks, n - 1);
        let step = taken[n - 1];
        assert(client.steps(step.state, events[n - 1], taken[n - 1 + 1]));
        assert(tells_truth(disks[n - 1], step.action, events[n - 1]));
        assert(changes(disks[n - 1], step.action, events[n - 1], disks[n - 1 + 1]));
        assert(answers(step.state.phase, events[n - 1]));
        if let GitEvent::LookedUp(LookupOutcome::Found(id)) = events[n - 1] {
            if id@.len() == HASH_LENGTH {
                hashes_have_forty_digits(id@);
            }
        }
    }
}

/// A checkout that ended well gives the full hash of a commit, forty lowercase hexadecimal
/// digits. It leaves the commit in the bare repository and a complete working tree with its
/// marker, in the place for that URL and commit.
pub proof fn delivered_trees_stay(
    client: GitClient,
    taken: Seq<Step>,
    events: Seq<GitEvent>,
    disks: Seq<Disk>,
)
    requires
        is_checkout_on(client, taken, events, disks),
        taken.last().action matches GitAction::Finish(Ok(_)),
    ensures
        ({
            let delivered = taken.last().action->Finish_0->Ok_0;
            &&& delivered.0@ == git_checkout_path_of(
                client.cache.config.cache_dir@,
                taken[0].state.url@,
                delivered.1@,
            )
            &&& is_commit_hash(delivered.1@)
            &&& holds_tree(client, taken[0].state, delivered.1@, disks.last())
        }),
{
    let n = events.len() as int;
    knowledge_grows(client, taken, events, disks, n);
    if n > 0 {
        assert(client.steps(taken[n - 1].state, events[n - 1], taken[n - 1 + 1]));
    }
}

/// Checking out by its hash a commit that was delivered before, in the same caches, gives the
/// same working tree and the same commit. Nothing is fetched or written for it.
pub proof fn delivered_commits_are_reused(
    client: GitClient,
    first: Seq<Step>,
    first_events: Seq<GitEvent>,
    first_disks: Seq<Disk>,
    again: Seq<Step>,
    again_events: Seq<GitEvent>,
    again_disks: Seq<Disk>,
)
    requires
        is_checkout_on(client, first, first_events, first_disks),
        first.last().action matches GitAction::Finish(Ok(_)),
        is_checkout_on(client, again, again_events, again_disks),
        again.last().action is Finish,
        again_disks[0] == first_disks.last(),
        again[0].state.url@ == first[0].state.url@,
        again[0].state.selector matches GitSelector::Commit(c) && c@
            == first.last().action->Finish_0->Ok_0.1@,
    ensures
        ({
            let delivered = first.last().action->Finish_0->Ok_0;
            &&& again.last().action matches GitAction::Finish(Ok((path, commit))) && path@
                == delivered.0@ && commit@ == delivered.1@
            &&& is_commit_hash(delivered.1@)
            &&& again_disks.last() == again_disks[0]
            &&& forall|j: int|
                0 <= j < again.len() ==> !((#[trigger] again[j]).action is Fetch) && !(
                again[j].action is WriteTree)
        }),
{
    delivered_trees_stay(client, first, first_events, first_disks);
    let n = again_events.len() as int;
    knowledge_grows(client, again, again_events, again_disks, n);
    let delivered = first.last().action->Finish_0->Ok_0;
    assert(client.db(again[0].state) == client.db(first[0].state));
    assert(again.last() == again[n]);
    assert(n > 0);
    assert(tells_truth(again_disks[0], again[0].action, again_events[0]));
    assert(client.steps(again[0].state, again_events[0], again[1]));
    assert(again[1].state.phase is ResolvingLocally);
    assert(n > 1);
    assert(tells_truth(again_disks[1], again[1].action, again_events[1]));
    assert(client.steps(again[1].state, again_events[1], again[2]));
    assert(client.checks_tree(again[2], delivered.1@));
    assert(n > 2);
    assert(tells_truth(again_disks[2], again[2].action, again_events[2]));
    assert(client.steps(again[2].state, again_events[2], again[3]));
    assert(again[3].state.phase is Finished);
    if n > 3 {
        assert(client.steps(again[3].state, again_events[3], again[4]));
    }
}

}
