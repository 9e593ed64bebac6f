//! Git: what is asked of a repository, in which order, and what is said of it.
use vstd::prelude::*;
use vstd::string::*;
use vstd::utf8::encode_utf8;

use crate::ca_bootstrap;
use crate::ca_bootstrap::{
    bundles, pem_block, pem_bundle, prepares, wrapped, Bundle, CertificateResult,
};
use crate::cache::{git_checkout_path_of, git_db_path_of};
use crate::config::HttpConfig;
use crate::cratespec::GitSelector;
use crate::digest::base64_of;
use crate::git::{
    configures, hex_of, http_overrides_of, lookup_is, object_id_valid, refspec_of, retryable,
    selector_resolution, Error, Lookup, LookupOutcome,
};
use crate::git_client::{
    answers, marker_of, Checkout, GitAction, GitClient, GitEvent, Phase, Step,
};
use crate::http::{backoff_of, Backoff};
use crate::messages::GitMessage;
use crate::paths::PathView;
use crate::text::{contains_text, decimal_of, opt_view, views};
use crate::urls::is_https;

verus! {

/// A branch and a tag are fetched by their reference, to one of their own. A full hash is
/// fetched by itself; for everything else the default branch is.
pub proof fn selectors_are_fetched_by_their_reference(selector: GitSelector)
    ensures
        selector matches GitSelector::Branch(b) ==> refspec_of(selector) == "+refs/heads/"@ + b@
            + ":refs/remotes/origin/"@ + b@,
        selector matches GitSelector::Tag(t) ==> refspec_of(selector) == "+refs/tags/"@ + t@
            + ":refs/remotes/origin/tags/"@ + t@,
        selector is DefaultBranch ==> refspec_of(selector) == "+HEAD:refs/remotes/origin/HEAD"@,
        selector matches GitSelector::Commit(c) ==> {
            &&& encode_utf8(c@).len() == 40 ==> refspec_of(selector) == "+"@ + c@
                + ":refs/commit/"@ + c@
            &&& encode_utf8(c@).len() != 40 ==> refspec_of(selector) == refspec_of(
                GitSelector::DefaultBranch,
            )
        },
{
}

/// A branch and a tag are looked up by the reference that they are fetched to, and a commit,
/// short or not, as a revision.
pub proof fn selectors_are_looked_up_by_their_reference(selector: GitSelector, lookup: Lookup)
    requires
        lookup_is(lookup, selector),
    ensures
        selector is DefaultBranch ==> (lookup matches Lookup::Reference(name) && name@
            == "refs/remotes/origin/HEAD"@),
        selector matches GitSelector::Branch(b) ==> (lookup matches Lookup::Reference(name) && name@
            == "refs/remotes/origin/"@ + b@),
        selector matches GitSelector::Tag(t) ==> (lookup matches Lookup::Reference(name) && name@
            == "refs/remotes/origin/tags/"@ + t@),
        selector matches GitSelector::Commit(c) ==> (lookup matches Lookup::Revision(r) && r@
            == c@),
{
}

/// What was found is the commit. What was not is an error that says what was looked for, and a
/// repository that could not be opened is another.
pub proof fn lookups_say_what_was_missing(
    r: Result<String, Error>,
    db: PathView,
    selector: GitSelector,
    outcome: LookupOutcome,
)
    requires
        selector_resolution(r, db, selector, outcome),
    ensures
        outcome matches LookupOutcome::Found(id) ==> (r matches Ok(commit) && commit@ == hex_of(
            id@,
        )),
        outcome matches LookupOutcome::NotOpened(why) ==> (r matches Err(
            Error::OpenRepo { path, reason },
        ) && path@ == db && reason == why),
        outcome matches LookupOutcome::NotFound(why) ==> (r matches Err(
            Error::ResolveSelector { message, reason },
        ) && reason == why && message@ == (match selector {
            GitSelector::DefaultBranch => "Failed to find refs/remotes/origin/HEAD"@,
            GitSelector::Branch(b) => "Branch '"@ + b@ + "' not found"@,
            GitSelector::Tag(t) => "Tag '"@ + t@ + "' not found"@,
            GitSelector::Commit(c) => "Failed to resolve commit '"@ + c@ + "'"@,
        })),
        outcome matches LookupOutcome::NotPeeled(why) ==> (r matches Err(
            Error::ResolveSelector { message, reason },
        ) && reason == why && message@ == (match selector {
            GitSelector::DefaultBranch => "Failed to peel reference"@,
            GitSelector::Branch(b) => "Failed to peel branch '"@ + b@ + "'"@,
            GitSelector::Tag(t) => "Failed to peel tag '"@ + t@ + "'"@,
            GitSelector::Commit(c) => "Failed to get object for commit '"@ + c@ + "'"@,
        })),
{
}

/// A checkout starts with whether the repository of the URL is there.
pub proof fn checkouts_start_with_the_repository(
    client: GitClient,
    url: Seq<char>,
    selector: GitSelector,
    step: Step,
)
    requires
        client.starts(url, selector, step),
    ensures
        step.state.url@ == url,
        step.state.selector == selector,
        step.state.phase is CheckingDb,
        step.messages@.len() == 0,
        step.action matches GitAction::CheckExists { path } && path@ == git_db_path_of(
            client.cache.config.cache_dir@,
            url,
        ),
{
}

/// The step looks the selector of the checkout up in the repository of its URL.
pub open spec fn looks_selector_up(client: GitClient, step: Step) -> bool {
    step.action matches GitAction::LookUp { db, lookup } && db@ == git_db_path_of(
        client.cache.config.cache_dir@,
        step.state.url@,
    ) && lookup_is(lookup, step.state.selector)
}

/// A repository that is not there is made, and then the selector is looked up. A step that
/// fails ends the checkout with an error of its own.
pub proof fn repositories_are_made_where_missing(
    client: GitClient,
    state: Checkout,
    event: GitEvent,
    step: Step,
)
    requires
        answers(state.phase, event),
        client.steps(state, event, step),
    ensures
        step.state.url == state.url && step.state.selector == state.selector,
        state.phase is CheckingDb && event == GitEvent::Exists(true) ==> looks_selector_up(
            client,
            step,
        ) && step.state.phase is ResolvingLocally,
        state.phase is CheckingDb && event == GitEvent::Exists(false) ==> (
        step.action matches GitAction::CreateDir { path } && path@ == git_db_path_of(
            client.cache.config.cache_dir@,
            state.url@,
        )) && step.state.phase is CreatingDb,
        state.phase is CreatingDb && event is Done ==> (step.action matches GitAction::InitBare {
            path,
        } && path@ == git_db_path_of(client.cache.config.cache_dir@, state.url@))
            && step.state.phase is InitialisingDb,
        state.phase is InitialisingDb && event is Done ==> looks_selector_up(client, step)
            && step.state.phase is ResolvingLocally,
        (state.phase is CreatingDb && event is Failed) ==> (step.action matches GitAction::Finish(
            Err(Error::CreateDirectory { path, reason }),
        ) && path@ == git_db_path_of(client.cache.config.cache_dir@, state.url@) && reason
            == event->Failed_0),
        (state.phase is InitialisingDb && event is Failed) ==> (
        step.action matches GitAction::Finish(Err(Error::InitBareRepo { path, reason })) && path@
            == git_db_path_of(client.cache.config.cache_dir@, state.url@) && reason
            == event->Failed_0),
{
}

/// A selector that is there is checked out. One that is not is fetched, once, from the URL of
/// the checkout and by its refspec; and offline that is an error.
pub proof fn missing_selectors_are_fetched(
    client: GitClient,
    state: Checkout,
    event: GitEvent,
    step: Step,
)
    requires
        answers(state.phase, event),
        client.steps(state, event, step),
    ensures
        (state.phase is ResolvingLocally || state.phase is ResolvingFetched) && (
        event matches GitEvent::LookedUp(LookupOutcome::Found(_))) ==> ({
            let commit = hex_of(event->LookedUp_0->Found_0@);
            let tree = git_checkout_path_of(client.cache.config.cache_dir@, state.url@, commit);
            &&& step.state.phase matches Phase::CheckingTree { commit: c } && c@ == commit
            &&& step.action matches GitAction::CheckTree { path, marker } && path@ == tree && marker@
                == tree.join(".cgx-ok"@)
            &&& step.messages@.len() == 1
            &&& state.phase is ResolvingLocally ==> (
            step.messages@[0] matches GitMessage::RefFoundLocally { url, selector, commit: c }
                && url@ == state.url@ && selector == state.selector && c@ == commit)
            &&& state.phase is ResolvingFetched ==> (
            step.messages@[0] matches GitMessage::ResolvedRef { commit: c } && c@ == commit)
        }),
        state.phase is ResolvingLocally && !(event matches GitEvent::LookedUp(
            LookupOutcome::Found(_),
        )) && !client.cache.config.offline ==> {
            &&& step.state.phase is Fetching
            &&& step.action matches GitAction::Fetch { db, url, refspec } && db@ == git_db_path_of(
                client.cache.config.cache_dir@,
                state.url@,
            ) && url@ == state.url@ && refspec@ == refspec_of(state.selector)
            &&& step.messages@.len() == 1
            &&& step.messages@[0] matches GitMessage::FetchingRepo { url, selector } && url@
                == state.url@ && selector == state.selector
        },
        state.phase is ResolvingLocally && !(event matches GitEvent::LookedUp(
            LookupOutcome::Found(_),
        )) && client.cache.config.offline ==> (step.action matches GitAction::Finish(
            Err(Error::Offline { url }),
        ) && url@ == state.url@),
        state.phase is Fetching && event is Done ==> looks_selector_up(client, step)
            && step.state.phase is ResolvingFetched,
        state.phase is Fetching && event is FetchFailed ==> step.action == GitAction::Finish(
            Err(event->FetchFailed_0),
        ),
        state.phase is ResolvingFetched && !(event matches GitEvent::LookedUp(
            LookupOutcome::Found(_),
        )) ==> (step.action matches GitAction::Finish(Err(e)) && selector_resolution(
            Err(e),
            git_db_path_of(client.cache.config.cache_dir@, state.url@),
            state.selector,
            event->LookedUp_0,
        )),
{
}

/// A complete working tree is used as it is. Otherwise it is made anew: its directory, its
/// files, and last its marker; and the checkout ends with the tree and the commit.
pub proof fn trees_are_made_in_order(
    client: GitClient,
    state: Checkout,
    commit: String,
    event: GitEvent,
    step: Step,
)
    requires
        answers(state.phase, event),
        client.steps(state, event, step),
        state.phase == (Phase::CheckingTree { commit }) || state.phase == (Phase::CreatingTree {
            commit,
        }) || state.phase == (Phase::WritingTree { commit }) || state.phase == (
        Phase::MarkingTree { commit }),
    ensures
        ({
            let db = git_db_path_of(client.cache.config.cache_dir@, state.url@);
            let tree = git_checkout_path_of(client.cache.config.cache_dir@, state.url@, commit@);
            let marker_path = tree.join(".cgx-ok"@);
            &&& state.phase is CheckingTree && event == GitEvent::Exists(true) ==> (
            step.action matches GitAction::Finish(Ok((path, c))) && path@ == tree && c@ == commit@)
                && step.messages@.len() == 1 && (
            step.messages@[0] matches GitMessage::CheckoutExists { commit: c, path } && c@
                == commit@ && path@ == tree)
            &&& state.phase is CheckingTree && event == GitEvent::Exists(false) ==> (
            step.action matches GitAction::PrepareTree { path, marker } && path@ == tree && marker@
                == marker_path) && step.state.phase == (Phase::CreatingTree { commit })
                && step.messages@.len() == 1 && (
            step.messages@[0] matches GitMessage::CheckingOut { commit: c, path } && c@ == commit@
                && path@ == tree)
            &&& state.phase is CreatingTree && event is Done && object_id_valid(
                encode_utf8(commit@),
            ) ==> (step.action matches GitAction::WriteTree { db: d, commit: c, path } && d@ == db
                && c@ == commit@ && path@ == tree) && step.state.phase == (Phase::WritingTree {
                commit,
            })
            &&& state.phase is CreatingTree && event is Done && !object_id_valid(
                encode_utf8(commit@),
            ) ==> step.action == GitAction::Finish(Err(Error::InvalidCommitHash { hash: commit }))
            &&& state.phase is CreatingTree && event is Failed ==> (
            step.action matches GitAction::Finish(Err(Error::CreateDirectory { path, reason }))
                && path@ == tree && reason == event->Failed_0)
            &&& state.phase is WritingTree && event is Done ==> (
            step.action matches GitAction::WriteMarker { path } && path@ == marker_path)
                && step.state.phase == (Phase::MarkingTree { commit })
            &&& state.phase is WritingTree && event is NotOpened ==> (
            step.action matches GitAction::Finish(Err(Error::OpenRepo { path, reason })) && path@
                == db && reason == event->NotOpened_0)
            &&& state.phase is WritingTree && event is Failed ==> (
            step.action matches GitAction::Finish(Err(Error::CheckoutFromDb { path, reason }))
                && path@ == tree && reason == event->Failed_0)
            &&& state.phase is MarkingTree && event is Done ==> (
            step.action matches GitAction::Finish(Ok((path, c))) && path@ == tree && c@ == commit@)
                && step.messages@.len() == 1 && (
            step.messages@[0] matches GitMessage::CheckoutComplete { path } && path@ == tree)
            &&& state.phase is MarkingTree && event is Failed ==> (
            step.action matches GitAction::Finish(Err(Error::WriteMarkerFile { path, reason }))
                && path@ == marker_path && reason == event->Failed_0)
        }),
{
}

/// A fetch is tried again where the transport says that this may help, or where some I/O error
/// behind it tells of status 429; nothing but a fetch is tried again.
pub proof fn only_fetches_are_tried_again(error: Error)
    ensures
        retryable(error) <==> error is FetchRef && (error->spurious || exists|i: int|
            0 <= i < error->io_messages@.len() && contains_text(
                (#[trigger] error->io_messages@[i])@,
                "Received HTTP status 429"@,
            )),
{
    if let Error::FetchRef { io_messages, .. } = error {
        if retryable(error) && !error->spurious {
            let i = choose|i: int|
                0 <= i < io_messages@.len() && crate::git::says_too_many_requests(
                    (#[trigger] io_messages@[i])@,
                );
            assert(contains_text(io_messages@[i]@, "Received HTTP status 429"@));
        }
        if exists|i: int|
            0 <= i < io_messages@.len() && contains_text(
                (#[trigger] io_messages@[i])@,
                "Received HTTP status 429"@,
            ) {
            let i = choose|i: int|
                0 <= i < io_messages@.len() && contains_text(
                    (#[trigger] io_messages@[i])@,
                    "Received HTTP status 429"@,
                );
            assert(crate::git::says_too_many_requests(io_messages@[i]@));
        }
    }
}

/// The transport is told who asks, how long a connection may take in milliseconds, and after
/// how many seconds, at least one, a stalled transfer is given up. A proxy and a certificate
/// bundle come last, where there are any.
pub proof fn transports_are_told_their_limits(
    agent: Seq<char>,
    http: HttpConfig,
    bundle: Option<Seq<char>>,
)
    ensures
        ({
            let all = http_overrides_of(agent, http, bundle);
            let seconds = http.timeout as int / 1_000_000_000;
            &&& all[0] == "gitoxide.userAgent="@ + agent
            &&& all[1] == "http.userAgent="@ + agent
            &&& all[2] == "http.extraHeader=User-Agent: "@ + agent
            &&& all[3] == "gitoxide.http.connectTimeout="@ + decimal_of(
                (http.timeout as int / 1_000_000) as nat,
            )
            &&& all[4] == "http.lowSpeedLimit=1"@
            &&& all[5] == "http.lowSpeedTime="@ + decimal_of(
                (if seconds > 1 {
                    seconds
                } else {
                    1
                }) as nat,
            )
            &&& all.len() == 6 + (if http.proxy is Some {
                1int
            } else {
                0
            }) + (if bundle is Some {
                1int
            } else {
                0
            })
            &&& http.proxy matches Some(proxy) ==> all[6] == "http.proxy="@ + proxy@
            &&& bundle matches Some(path) ==> all.last() == "http.sslCAInfo="@ + path
        }),
{
}

/// The settings are for the bundle that was prepared. Without the bundle that is needed, the
/// failure names the remote.
pub proof fn transports_use_the_bundle(
    r: Result<Vec<String>, Error>,
    remote: Seq<char>,
    agent: Seq<char>,
    http: HttpConfig,
    prepared: Result<Option<String>, ca_bootstrap::Error>,
)
    requires
        configures(r, remote, agent, http, prepared),
    ensures
        prepared matches Ok(path) ==> (r matches Ok(overrides) && views(overrides@)
            == http_overrides_of(agent, http, opt_view(path))),
        prepared matches Err(e) ==> (r matches Err(Error::LinuxHttpsTrustBootstrap { url, source })
            && url@ == remote && source == e),
{
}

/// The bundle of certificates is the blocks of each, one after the other: its base64 form
/// between the two lines that mark it.
pub proof fn bundles_are_blocks(certs: Seq<Vec<u8>>, cert: Vec<u8>)
    ensures
        pem_bundle(Seq::empty()) == Seq::<char>::empty(),
        pem_bundle(certs.push(cert)) == pem_bundle(certs) + "-----BEGIN CERTIFICATE-----\n"@
            + wrapped(base64_of(cert@)) + "-----END CERTIFICATE-----\n"@,
{
    assert(certs.push(cert).drop_last() =~= certs);
    assert(pem_bundle(certs) + pem_block(cert@) =~= pem_bundle(certs)
        + "-----BEGIN CERTIFICATE-----\n"@ + wrapped(base64_of(cert@))
        + "-----END CERTIFICATE-----\n"@);
}

/// A text is wrapped after every sixty-four characters, and after the last ones.
pub proof fn lines_have_sixty_four_characters(line: Seq<char>, rest: Seq<char>)
    ensures
        wrapped(Seq::empty()) == Seq::<char>::empty(),
        0 < line.len() <= 64 ==> wrapped(line) == line.push('\n'),
        line.len() == 64 && rest.len() > 0 ==> wrapped(line + rest) == line.push('\n') + wrapped(
            rest,
        ),
{
    if line.len() == 64 && rest.len() > 0 {
        assert((line + rest).take(64) =~= line);
        assert((line + rest).skip(64) =~= rest);
    }
}

/// Certificates are bundled at their place as soon as there is one, whatever else could not be
/// read; without any, the error counts what could not be read.
pub proof fn one_certificate_is_enough(
    r: Result<Bundle, ca_bootstrap::Error>,
    place: PathView,
    loaded: CertificateResult,
)
    requires
        bundles(r, place, loaded),
    ensures
        r is Ok <==> loaded.certs@.len() > 0,
        r matches Ok(bundle) ==> bundle.path@ == place && bundle.contents@ == pem_bundle(
            loaded.certs@,
        ),
        r matches Err(e) ==> (e matches ca_bootstrap::Error::NoNativeCaCertificates { error_count }
            && error_count == loaded.error_count),
{
}

/// Fetches and requests wait as configured: at least the base, at most the maximum, as often
/// as there are retries, and with jitter.
pub proof fn waits_are_as_configured(http: HttpConfig)
    ensures
        backoff_of(http).min_delay == http.backoff_base,
        backoff_of(http).max_delay == http.backoff_max,
        backoff_of(http).max_times == http.retries,
        backoff_of(http).jitter,
{
}

/// The marker of a working tree is the file `.cgx-ok` in it.
pub proof fn markers_are_in_their_tree(tree: PathView)
    ensures
        marker_of(tree).base == tree.base,
        marker_of(tree).segments == tree.segments.push(".cgx-ok"@),
{
}

/// The platform is asked for its certificates exactly where the remote is reached over HTTPS.
/// What it gave is bundled, and for every other remote nothing is prepared.
pub proof fn certificates_are_for_https_only(
    r: Result<Option<Bundle>, ca_bootstrap::Error>,
    remote_url: Seq<char>,
    place: PathView,
    loaded: Option<CertificateResult>,
)
    requires
        prepares(r, remote_url, place, loaded),
    ensures
        loaded is Some <==> is_https(remote_url),
        r matches Ok(None) <==> !is_https(remote_url),
        loaded matches Some(l) ==> (r is Ok <==> l.certs@.len() > 0),
        loaded matches Some(l) ==> (r matches Ok(Some(bundle)) ==> bundle.path@ == place
            && bundle.contents@ == pem_bundle(l.certs@)),
        loaded matches Some(l) ==> (r matches Err(e) ==> (
        e matches ca_bootstrap::Error::NoNativeCaCertificates { error_count } && error_count
            == l.error_count)),
{
}

}
