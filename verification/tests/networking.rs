use std::cell::Cell;

use base64::Engine;

use cgx::ca_bootstrap::{build_pem_bundle, prepare_ssl_ca_info_with_loader, CertificateResult};
use cgx::ca_bootstrap;
use cgx::cache::Cache;
use cgx::cli::CliArgs;
use cgx::config::{Config, ConfigFile, HttpConfig, PlatformDirs};
use cgx::cratespec::GitSelector;
use cgx::downloader::DefaultCrateDownloader;
use cgx::error::{Error, HttpFailure, TargetClass};
use cgx::git::{
    build_http_config_overrides_with_bootstrap, hex, is_retryable_error, lookup, refspec,
    resolve_selector, Lookup, LookupOutcome,
};
use cgx::git::Error as GitError;
use cgx::git_client::{GitAction, GitClient, GitEvent, Phase};
use cgx::http::{user_agent, Backoff, DownloadVerdict, HttpClient};
use cgx::messages::{GitMessage, Message};
use cgx::paths::JoinedPath;
use cgx::providers::delivery::{download_of, Download};
use cgx::resolver::{ResolvedCrate, ResolvedSource};
use cgx::urls::is_https_remote;

#[test]
fn pem_bundle_uses_certificate_blocks_and_wraps_base64_lines() {
    let bundle = build_pem_bundle(&vec![vec![0_u8; 49], vec![1_u8, 2, 3]]);
    let lines: Vec<_> = bundle.lines().collect();

    assert_eq!(lines[0], "-----BEGIN CERTIFICATE-----");
    assert_eq!(lines[1].len(), 64);
    assert_eq!(lines[2].len(), 4);
    assert_eq!(lines[3], "-----END CERTIFICATE-----");
    assert_eq!(lines[4], "-----BEGIN CERTIFICATE-----");
    assert_eq!(lines[5], "AQID");
    assert_eq!(lines[6], "-----END CERTIFICATE-----");
    assert!(bundle.ends_with('\n'));
}

#[test]
fn full_lines_are_followed_by_no_empty_one() {
    // 48 bytes fill one line exactly.
    let bundle = build_pem_bundle(&vec![vec![0_u8; 48]]);
    let lines: Vec<_> = bundle.lines().collect();
    assert_eq!(lines.len(), 3);
    assert_eq!(lines[1], "A".repeat(64));
    assert_eq!(build_pem_bundle(&vec![]), "");
    let empty = build_pem_bundle(&vec![vec![]]);
    assert_eq!(empty, "-----BEGIN CERTIFICATE-----\n-----END CERTIFICATE-----\n");
}

fn bundle_path() -> JoinedPath {
    JoinedPath::new("/cache").join("tls").join("bundle.pem")
}

#[test]
fn non_https_remote_skips_bootstrap_without_loading_certs() {
    let loader_called = Cell::new(false);

    let result = prepare_ssl_ca_info_with_loader("http://example.com/repo.git", &bundle_path(), || {
        loader_called.set(true);
        CertificateResult {
            certs: vec![],
            error_count: 0,
        }
    })
    .unwrap();

    assert_eq!(result, None);
    assert!(!loader_called.get());
}

#[test]
fn https_remote_writes_bundle_and_returns_path() {
    let bundle = prepare_ssl_ca_info_with_loader("https://example.com/repo.git", &bundle_path(), || {
        CertificateResult {
            certs: vec![vec![1_u8, 2, 3]],
            error_count: 0,
        }
    })
    .unwrap()
    .unwrap();

    assert_eq!(bundle.path, bundle_path());
    assert!(bundle.contents.contains("AQID"));
}

#[test]
fn https_remote_continues_when_some_native_certs_fail_to_load() {
    let bundle = prepare_ssl_ca_info_with_loader("https://example.com/repo.git", &bundle_path(), || {
        CertificateResult {
            certs: vec![vec![1_u8, 2, 3]],
            error_count: 1,
        }
    })
    .unwrap();

    assert_eq!(bundle.map(|b| b.path), Some(bundle_path()));
}

#[test]
fn https_remote_fails_when_no_native_certs_are_loaded() {
    let err = prepare_ssl_ca_info_with_loader("https://example.com/repo.git", &bundle_path(), || {
        CertificateResult {
            certs: vec![],
            error_count: 0,
        }
    })
    .unwrap_err();

    assert_eq!(err, ca_bootstrap::Error::NoNativeCaCertificates { error_count: 0 });
}

#[test]
fn https_is_recognised_in_any_case() {
    assert!(is_https_remote("https://example.com/repo.git"));
    assert!(is_https_remote("HTTPS://example.com"));
    assert!(!is_https_remote("http://example.com"));
    assert!(!is_https_remote("git@github.com:o/r.git"));
    assert!(!is_https_remote("/local/path"));
}

fn http_config() -> HttpConfig {
    HttpConfig {
        timeout: 30_000_000_000,
        backoff_base: 500_000_000,
        backoff_max: 5_000_000_000,
        retries: 2,
        proxy: None,
    }
}

const AGENT: &str = "cgx/0.0.6 (https://github.com/anelson-labs/cgx)";

#[test]
fn ssl_ca_info_override_is_added_when_bootstrap_returns_a_bundle_path() {
    let overrides = build_http_config_overrides_with_bootstrap(
        "https://example.com/repo.git",
        AGENT,
        &http_config(),
        &JoinedPath::new("/unused"),
        |_remote_url, _bundle_path| Ok(Some("/tmp/cgx tests/linux ca bundle.pem".to_string())),
    )
    .unwrap();

    let ssl_ca_info = overrides
        .iter()
        .find(|override_value| override_value.starts_with("http.sslCAInfo="))
        .expect("expected http.sslCAInfo override");

    assert!(ssl_ca_info.contains("linux ca bundle.pem"));
    assert_eq!(ssl_ca_info, "http.sslCAInfo=/tmp/cgx tests/linux ca bundle.pem");
}

#[test]
fn ssl_ca_info_override_is_not_added_when_bootstrap_returns_none() {
    let overrides = build_http_config_overrides_with_bootstrap(
        "http://example.com/repo.git",
        AGENT,
        &http_config(),
        &JoinedPath::new("/unused"),
        |_remote_url, _bundle_path| Ok(None),
    )
    .unwrap();

    assert!(!overrides
        .iter()
        .any(|override_value| override_value.starts_with("http.sslCAInfo=")));
}

#[test]
fn transport_settings_name_the_program_and_its_limits() {
    let mut config = http_config();
    config.proxy = Some("http://proxy:8080".to_string());
    config.timeout = 2_500_000_000;
    let place = JoinedPath::new("/tls/bundle.pem");
    let overrides =
        build_http_config_overrides_with_bootstrap("http://x", AGENT, &config, &place, |_, _| Ok(None))
            .unwrap();
    assert_eq!(
        overrides,
        vec![
            format!("gitoxide.userAgent={}", AGENT),
            format!("http.userAgent={}", AGENT),
            format!("http.extraHeader=User-Agent: {}", AGENT),
            "gitoxide.http.connectTimeout=2500".to_string(),
            "http.lowSpeedLimit=1".to_string(),
            "http.lowSpeedTime=2".to_string(),
            "http.proxy=http://proxy:8080".to_string(),
        ]
    );
    // A stalled transfer is allowed one second at least.
    config.timeout = 7_000_000;
    let overrides =
        build_http_config_overrides_with_bootstrap("http://x", AGENT, &config, &place, |_, _| Ok(None))
            .unwrap();
    assert_eq!(overrides[3], "gitoxide.http.connectTimeout=7");
    assert_eq!(overrides[5], "http.lowSpeedTime=1");
}

#[test]
fn failed_bootstraps_are_reported_with_the_remote() {
    let error = ca_bootstrap::Error::NoNativeCaCertificates { error_count: 3 };
    let place = JoinedPath::new("/tls/bundle.pem");
    let result =
        build_http_config_overrides_with_bootstrap("https://x", AGENT, &http_config(), &place, |url, path| {
            assert_eq!(url, "https://x");
            assert_eq!(*path, JoinedPath::new("/tls/bundle.pem"));
            Err(error.clone())
        });
    assert_eq!(
        result,
        Err(GitError::LinuxHttpsTrustBootstrap {
            url: "https://x".to_string(),
            source: error,
        })
    );
}

fn fetch_error(spurious: bool, io_messages: &[&str]) -> GitError {
    GitError::FetchRef {
        url: "https://x".to_string(),
        spurious,
        io_messages: io_messages.iter().map(|m| m.to_string()).collect(),
        reason: "failed".to_string(),
    }
}

#[test]
fn server_503_is_retried() {
    // The transport calls server errors spurious.
    assert!(is_retryable_error(&fetch_error(true, &["Received HTTP status 503"])));
}

#[test]
fn server_500_is_retried() {
    assert!(is_retryable_error(&fetch_error(true, &["Received HTTP status 500"])));
}

#[test]
fn server_429_is_retried() {
    assert!(is_retryable_error(&fetch_error(
        false,
        &["could not connect", "Received HTTP status 429"]
    )));
}

#[test]
fn server_403_is_not_retried() {
    assert!(!is_retryable_error(&fetch_error(false, &["Received HTTP status 403"])));
}

#[test]
fn server_404_is_not_retried() {
    assert!(!is_retryable_error(&fetch_error(false, &["Received HTTP status 404"])));
}

#[test]
fn connection_timeout_is_retried() {
    assert!(is_retryable_error(&fetch_error(true, &[])));
}

#[test]
fn only_fetches_are_retried() {
    assert!(!is_retryable_error(&GitError::ResolveSelector {
        message: "Received HTTP status 429".to_string(),
        reason: "Received HTTP status 429".to_string(),
    }));
}

#[test]
fn test_construction_with_defaults() {
    let config = http_config();
    let client = HttpClient::new(&config).unwrap();
    assert_eq!(client.config, config);

    // Verify user agent contains version and repo
    let user_agent = user_agent("0.0.6", "https://github.com/anelson-labs/cgx");
    assert!(user_agent.contains("cgx/"));
    assert!(user_agent.contains("github.com"));
    assert_eq!(user_agent, AGENT);
}

#[test]
fn test_construction_with_http_proxy() {
    let mut config = http_config();
    config.proxy = Some("http://localhost:8080".to_string());
    assert!(HttpClient::new(&config).is_ok());
}

#[test]
fn test_construction_with_socks_proxy() {
    let mut config = http_config();
    config.proxy = Some("socks5://localhost:1080".to_string());
    assert!(HttpClient::new(&config).is_ok());
}

#[test]
fn test_construction_with_invalid_proxy() {
    let mut config = http_config();
    config.proxy = Some("://invalid-no-scheme".to_string());
    let result = HttpClient::new(&config);
    assert!(matches!(
        result,
        Err(Error::HttpClientBuild { ref message })
            if message.starts_with("invalid proxy URL '://invalid-no-scheme': ")
    ));
}

#[test]
fn test_is_connection_error() {
    // HttpRetryableStatus is not a connection error
    let status_err = Error::HttpRetryableStatus {
        url: "http://example.com".to_string(),
        status: 500,
    };
    assert!(!HttpClient::is_connection_error(&status_err));

    // HttpClientBuild is not a connection error
    let build_err = Error::HttpClientBuild {
        message: "test".to_string(),
    };
    assert!(!HttpClient::is_connection_error(&build_err));

    let failed = |connect, timeout, request| Error::HttpRequest {
        url: "http://example.com".to_string(),
        failure: HttpFailure {
            connect,
            timeout,
            request,
        },
        message: String::new(),
    };
    assert!(HttpClient::is_connection_error(&failed(true, false, false)));
    assert!(HttpClient::is_connection_error(&failed(false, true, false)));
    assert!(HttpClient::is_connection_error(&failed(false, false, true)));
    assert!(!HttpClient::is_connection_error(&failed(false, false, false)));
}

#[test]
fn statuses_decide_on_retries_and_downloads() {
    let status_error = |status| Error::HttpRetryableStatus {
        url: "u".to_string(),
        status,
    };
    for status in [429, 500, 503, 599] {
        assert_eq!(HttpClient::classify_response(status, "u"), Err(status_error(status)));
    }
    for status in [200, 301, 403, 404, 499, 600] {
        assert_eq!(HttpClient::classify_response(status, "u"), Ok(()));
    }
    assert_eq!(HttpClient::try_download(200, "u"), DownloadVerdict::Take);
    assert_eq!(HttpClient::try_download(299, "u"), DownloadVerdict::Take);
    assert_eq!(HttpClient::try_download(404, "u"), DownloadVerdict::Missing);
    for status in [199, 300, 403, 500] {
        assert_eq!(
            HttpClient::try_download(status, "u"),
            DownloadVerdict::Fail(status_error(status))
        );
    }
}

#[test]
fn retries_follow_the_settings() {
    let expected = Backoff {
        min_delay: 500_000_000,
        max_delay: 5_000_000_000,
        max_times: 2,
        jitter: true,
    };
    assert_eq!(HttpClient::new(&http_config()).unwrap().build_backoff(), expected);
    assert_eq!(client().build_backoff(), expected);
}

const COMMIT: &str = "28d2bb04326d7036514245d73f10fb72b9ed108c";

#[test]
fn selectors_are_fetched_and_looked_up_by_their_references() {
    let branch = GitSelector::Branch("main".to_string());
    let tag = GitSelector::Tag("v1".to_string());
    let full = GitSelector::Commit(COMMIT.to_string());
    let short = GitSelector::Commit("28d2bb0".to_string());
    assert_eq!(refspec(&GitSelector::DefaultBranch), "+HEAD:refs/remotes/origin/HEAD");
    assert_eq!(refspec(&branch), "+refs/heads/main:refs/remotes/origin/main");
    assert_eq!(refspec(&tag), "+refs/tags/v1:refs/remotes/origin/tags/v1");
    assert_eq!(refspec(&full), format!("+{}:refs/commit/{}", COMMIT, COMMIT));
    assert_eq!(refspec(&short), "+HEAD:refs/remotes/origin/HEAD");
    let reference = |name: &str| Lookup::Reference(name.to_string());
    assert_eq!(
        lookup(&GitSelector::DefaultBranch),
        reference("refs/remotes/origin/HEAD")
    );
    assert_eq!(lookup(&branch), reference("refs/remotes/origin/main"));
    assert_eq!(lookup(&tag), reference("refs/remotes/origin/tags/v1"));
    assert_eq!(lookup(&short), Lookup::Revision("28d2bb0".to_string()));
}

#[test]
fn unresolved_selectors_say_what_was_not_found() {
    let db = JoinedPath::new("/db");
    let message = |selector: GitSelector, found: bool| {
        let why = "because".to_string();
        let outcome = if found {
            LookupOutcome::NotPeeled(why)
        } else {
            LookupOutcome::NotFound(why)
        };
        match resolve_selector(&db, &selector, outcome) {
            Err(GitError::ResolveSelector { message, reason }) => {
                assert_eq!(reason, "because");
                message
            }
            other => panic!("unexpected result {:?}", other),
        }
    };
    let branch = GitSelector::Branch("b".to_string());
    let tag = GitSelector::Tag("t".to_string());
    let commit = GitSelector::Commit("c".to_string());
    assert_eq!(
        message(GitSelector::DefaultBranch, false),
        "Failed to find refs/remotes/origin/HEAD"
    );
    assert_eq!(message(GitSelector::DefaultBranch, true), "Failed to peel reference");
    assert_eq!(message(branch.clone(), false), "Branch 'b' not found");
    assert_eq!(message(branch, true), "Failed to peel branch 'b'");
    assert_eq!(message(tag.clone(), false), "Tag 't' not found");
    assert_eq!(message(tag, true), "Failed to peel tag 't'");
    assert_eq!(message(commit.clone(), false), "Failed to resolve commit 'c'");
    assert_eq!(message(commit.clone(), true), "Failed to get object for commit 'c'");
    assert_eq!(
        resolve_selector(&db, &commit, LookupOutcome::NotOpened("gone".to_string())),
        Err(GitError::OpenRepo {
            path: db.clone(),
            reason: "gone".to_string(),
        })
    );
    assert_eq!(
        resolve_selector(&db, &commit, LookupOutcome::Found(bytes_of(COMMIT))),
        Ok(COMMIT.to_string())
    );
}

fn client() -> GitClient {
    let dirs = PlatformDirs {
        config_dir: "/config".to_string(),
        cache_dir: "/cache".to_string(),
        bins_dir: "/data/bins".to_string(),
        build_dir: "/data/build".to_string(),
    };
    let config = Config::load_from_layers(ConfigFile::default(), &CliArgs::default(), &dirs);
    GitClient::new(Cache::new(config), http_config())
}

const URL: &str = "https://example.com/repo.git";

/// The bytes that are written in hexadecimal.
fn bytes_of(hash: &str) -> Vec<u8> {
    (0..hash.len() / 2)
        .map(|i| u8::from_str_radix(&hash[2 * i..2 * i + 2], 16).unwrap())
        .collect()
}

#[test]
fn hashes_are_written_in_lower_case() {
    assert_eq!(hex(&vec![0x00, 0x0f, 0xa0, 0xff, 0x7b]), "000fa0ff7b");
    assert_eq!(hex(&vec![]), "");
    let id = gix::ObjectId::from_hex(COMMIT.as_bytes()).unwrap();
    assert_eq!(hex(&id.as_bytes().to_vec()), id.to_string());
    // Only the bytes of a full hash answer a lookup.
    let client = client();
    let step = client.checkout_ref(URL, GitSelector::DefaultBranch);
    let step = client.next(step.state, GitEvent::Exists(true));
    assert!(client.awaits(&step.state, &found(COMMIT)));
    assert!(!client.awaits(&step.state, &found("28d2bb04")));
}

fn found(commit: &str) -> GitEvent {
    GitEvent::LookedUp(LookupOutcome::Found(bytes_of(commit)))
}

#[test]
fn what_is_there_is_checked_out_without_network_or_writing() {
    let client = client();
    let branch = GitSelector::Branch("main".to_string());
    let step = client.checkout_ref(URL, branch.clone());
    let db = client.cache.git_db_path(URL);
    assert_eq!(step.action, GitAction::CheckExists { path: db.clone() });
    let step = client.next(step.state, GitEvent::Exists(true));
    assert_eq!(
        step.messages,
        vec![GitMessage::ResolvingRef {
            url: URL.to_string(),
            selector: branch.clone(),
        }]
    );
    let step = client.next(step.state, found(COMMIT));
    assert_eq!(
        step.messages,
        vec![GitMessage::RefFoundLocally {
            url: URL.to_string(),
            selector: branch,
            commit: COMMIT.to_string(),
        }]
    );
    let tree = client.cache.git_checkout_path(URL, COMMIT);
    assert_eq!(
        step.action,
        GitAction::CheckTree {
            path: tree.clone(),
            marker: tree.clone().join(".cgx-ok"),
        }
    );
    let step = client.next(step.state, GitEvent::Exists(true));
    assert_eq!(step.action, GitAction::Finish(Ok((tree.clone(), COMMIT.to_string()))));
    assert_eq!(
        step.messages,
        vec![GitMessage::CheckoutExists {
            commit: COMMIT.to_string(),
            path: tree,
        }]
    );
}

#[test]
fn what_is_not_there_is_fetched_and_written() {
    let client = client();
    let step = client.checkout_ref(URL, GitSelector::DefaultBranch);
    let db = client.cache.git_db_path(URL);
    let step = client.next(step.state, GitEvent::Exists(false));
    assert_eq!(step.action, GitAction::CreateDir { path: db.clone() });
    let step = client.next(step.state, GitEvent::Done);
    assert_eq!(step.action, GitAction::InitBare { path: db.clone() });
    let step = client.next(step.state, GitEvent::Done);
    assert_eq!(
        step.action,
        GitAction::LookUp {
            db: db.clone(),
            lookup: Lookup::Reference("refs/remotes/origin/HEAD".to_string()),
        }
    );
    let missing = GitEvent::LookedUp(LookupOutcome::NotFound("no ref".to_string()));
    let step = client.next(step.state, missing);
    assert_eq!(
        step.action,
        GitAction::Fetch {
            db: db.clone(),
            url: URL.to_string(),
            refspec: "+HEAD:refs/remotes/origin/HEAD".to_string(),
        }
    );
    let step = client.next(step.state, GitEvent::Done);
    assert!(matches!(step.action, GitAction::LookUp { .. }));
    let step = client.next(step.state, found(COMMIT));
    assert_eq!(
        step.messages,
        vec![GitMessage::ResolvedRef {
            commit: COMMIT.to_string()
        }]
    );
    let step = client.next(step.state, GitEvent::Exists(false));
    let tree = client.cache.git_checkout_path(URL, COMMIT);
    assert_eq!(
        step.action,
        GitAction::PrepareTree {
            path: tree.clone(),
            marker: tree.clone().join(".cgx-ok"),
        }
    );
    let step = client.next(step.state, GitEvent::Done);
    assert_eq!(
        step.action,
        GitAction::WriteTree {
            db,
            commit: COMMIT.to_string(),
            path: tree.clone(),
        }
    );
    let step = client.next(step.state, GitEvent::Done);
    assert_eq!(
        step.action,
        GitAction::WriteMarker {
            path: tree.clone().join(".cgx-ok")
        }
    );
    let step = client.next(step.state, GitEvent::Done);
    assert_eq!(step.messages, vec![GitMessage::CheckoutComplete { path: tree.clone() }]);
    assert_eq!(step.action, GitAction::Finish(Ok((tree, COMMIT.to_string()))));
    assert_eq!(step.state.phase, Phase::Finished);
    assert!(!client.awaits(&step.state, &GitEvent::Done));
}

#[test]
fn texts_that_are_no_hashes_are_never_written() {
    let client = client();
    let mut state = client.checkout_ref(URL, GitSelector::DefaultBranch).state;
    for commit in ["abc123", "zz", "28d2bb04326d7036514245d73f10fb72b9ed108g"] {
        state.phase = Phase::CreatingTree {
            commit: commit.to_string(),
        };
        let step = client.next(state.clone(), GitEvent::Done);
        assert_eq!(
            step.action,
            GitAction::Finish(Err(GitError::InvalidCommitHash {
                hash: commit.to_string()
            }))
        );
    }
}

#[test]
fn failures_name_the_place_that_they_happened_at() {
    let client = client();
    let db = client.cache.git_db_path(URL);
    let tree = client.cache.git_checkout_path(URL, COMMIT);
    let commit = || COMMIT.to_string();
    let reason = || "why".to_string();
    let fail = |phase: Phase, event: GitEvent| {
        let mut state = client.checkout_ref(URL, GitSelector::DefaultBranch).state;
        state.phase = phase;
        match client.next(state, event).action {
            GitAction::Finish(Err(e)) => e,
            other => panic!("unexpected action {:?}", other),
        }
    };
    let failed = || GitEvent::Failed("why".to_string());
    assert_eq!(
        fail(Phase::CreatingDb, failed()),
        GitError::CreateDirectory { path: db.clone(), reason: reason() }
    );
    assert_eq!(
        fail(Phase::InitialisingDb, failed()),
        GitError::InitBareRepo { path: db.clone(), reason: reason() }
    );
    assert_eq!(
        fail(Phase::Fetching, GitEvent::FetchFailed(fetch_error(true, &[]))),
        fetch_error(true, &[])
    );
    assert_eq!(
        fail(Phase::CreatingTree { commit: commit() }, failed()),
        GitError::CreateDirectory { path: tree.clone(), reason: reason() }
    );
    assert_eq!(
        fail(Phase::WritingTree { commit: commit() }, GitEvent::NotOpened(reason())),
        GitError::OpenRepo { path: db, reason: reason() }
    );
    assert_eq!(
        fail(Phase::WritingTree { commit: commit() }, failed()),
        GitError::CheckoutFromDb { path: tree.clone(), reason: reason() }
    );
    assert_eq!(
        fail(Phase::MarkingTree { commit: commit() }, failed()),
        GitError::WriteMarkerFile { path: tree.join(".cgx-ok"), reason: reason() }
    );
}

#[test]
fn git_nonexistent_branch() {
    let client = client();
    let branch = GitSelector::Branch("nonexistent-branch-12345".to_string());
    let mut state = client.checkout_ref(URL, branch).state;
    state.phase = Phase::ResolvingFetched;
    let missing = GitEvent::LookedUp(LookupOutcome::NotFound(String::new()));
    let step = client.next(state, missing);
    assert!(matches!(
        step.action,
        GitAction::Finish(Err(GitError::ResolveSelector { .. }))
    ));
}

#[test]
fn git_messages_are_messages() {
    let message = GitMessage::resolved_ref("abc");
    assert_eq!(Message::from(message.clone()), Message::Git(message));
}

#[test]
fn wrapped_bundles_hold_the_encoded_certificate() {
    let cert: Vec<u8> = (0..=255).cycle().take(1000).collect();
    let bundle = build_pem_bundle(&vec![cert.clone()]);
    let lines: Vec<&str> = bundle.lines().collect();
    let body = &lines[1..lines.len() - 1];
    assert!(body.iter().all(|line| line.len() <= 64));
    assert_eq!(
        body.concat(),
        base64::engine::general_purpose::STANDARD.encode(&cert)
    );
}

#[test]
fn fetched_references_are_looked_up_where_they_were_written() {
    for selector in [
        GitSelector::DefaultBranch,
        GitSelector::Branch("main".to_string()),
        GitSelector::Tag("v1.0.0".to_string()),
    ] {
        let fetched = refspec(&selector);
        let written = fetched.split_once(':').unwrap().1.to_string();
        assert_eq!(lookup(&selector), Lookup::Reference(written));
    }
}

fn offline_client() -> GitClient {
    let mut client = client();
    client.cache.config.offline = true;
    client
}

#[test]
fn offline_nothing_is_fetched() {
    let client = offline_client();
    for outcome in [
        LookupOutcome::NotFound("no such commit".to_string()),
        LookupOutcome::NotPeeled("no object".to_string()),
        LookupOutcome::NotOpened("no repository".to_string()),
    ] {
        let step = client.checkout_ref(URL, GitSelector::Commit(COMMIT.to_string()));
        let step = client.next(step.state, GitEvent::Exists(true));
        let step = client.next(step.state, GitEvent::LookedUp(outcome));
        assert!(step.messages.is_empty());
        assert_eq!(
            step.action,
            GitAction::Finish(Err(GitError::Offline { url: URL.to_string() }))
        );
        assert_eq!(step.state.phase, Phase::Finished);
        // For the download this means that the network is needed.
        let krate = ResolvedCrate {
            name: "tool".to_string(),
            version: "1.2.3".to_string(),
            source: ResolvedSource::Git {
                repo: URL.to_string(),
                commit: COMMIT.to_string(),
            },
        };
        let downloader =
            DefaultCrateDownloader::new(client.cache.clone(), client.cache.config.clone());
        let failure = GitError::Offline { url: URL.to_string() };
        assert_eq!(
            downloader.download_git(&krate, Err(failure)),
            Err(Error::OfflineMode {
                name: "tool".to_string(),
                version: "1.2.3".to_string(),
            })
        );
    }
    // What is in the repository can still be checked out.
    let step = client.checkout_ref(URL, GitSelector::Commit(COMMIT.to_string()));
    let step = client.next(step.state, GitEvent::Exists(true));
    let step = client.next(step.state, found(COMMIT));
    let step = client.next(step.state, GitEvent::Exists(false));
    let step = client.next(step.state, GitEvent::Done);
    assert!(matches!(step.action, GitAction::WriteTree { .. }));
}

/// What is on the disk: directories, commits and markers.
#[derive(Default)]
struct TestDisk {
    directories: Vec<JoinedPath>,
    commits: Vec<String>,
    markers: Vec<JoinedPath>,
    fetches: usize,
}

fn run_checkout(client: &GitClient, disk: &mut TestDisk, selector: GitSelector) -> (JoinedPath, String) {
    let mut step = client.checkout_ref(URL, selector);
    loop {
        let event = match step.action {
            GitAction::Finish(result) => return result.unwrap(),
            GitAction::CheckExists { path } => GitEvent::Exists(disk.directories.contains(&path)),
            GitAction::CreateDir { path } => {
                disk.directories.push(path);
                GitEvent::Done
            }
            GitAction::InitBare { .. } => GitEvent::Done,
            GitAction::LookUp { lookup, .. } => {
                let wanted = match lookup {
                    Lookup::Revision(hash) => hash,
                    Lookup::Reference(_) => COMMIT.to_string(),
                };
                GitEvent::LookedUp(match disk.commits.iter().find(|c| c.starts_with(&wanted)) {
                    Some(commit) => LookupOutcome::Found(bytes_of(commit)),
                    None => LookupOutcome::NotFound("nothing".to_string()),
                })
            }
            GitAction::Fetch { .. } => {
                disk.fetches += 1;
                disk.commits.push(COMMIT.to_string());
                GitEvent::Done
            }
            GitAction::CheckTree { marker, .. } => GitEvent::Exists(disk.markers.contains(&marker)),
            GitAction::PrepareTree { path, .. } => {
                disk.directories.push(path);
                GitEvent::Done
            }
            GitAction::WriteTree { .. } => GitEvent::Done,
            GitAction::WriteMarker { path } => {
                disk.markers.push(path);
                GitEvent::Done
            }
        };
        assert!(client.awaits(&step.state, &event));
        step = client.next(step.state, event);
    }
}

#[test]
fn git_cache_reuse_same_commit() {
    let client = client();
    let mut disk = TestDisk::default();

    // First checkout
    let (first_checkout_path, first_checkout_hash) =
        run_checkout(&client, &mut disk, GitSelector::Branch("main".to_string()));
    assert_eq!(disk.fetches, 1);

    // Second checkout should hit cache
    let selector = GitSelector::Commit(first_checkout_hash.clone());
    let (second_checkout_path, second_checkout_hash) = run_checkout(&client, &mut disk, selector);

    assert_eq!(COMMIT, &first_checkout_hash);
    assert_eq!(COMMIT, &second_checkout_hash);
    assert_eq!(first_checkout_path, second_checkout_path);
    assert_eq!(first_checkout_path, client.cache.git_checkout_path(URL, COMMIT));
    assert_eq!(disk.fetches, 1);
    assert_eq!(disk.markers, vec![first_checkout_path.join(".cgx-ok")]);
}

#[test]
fn errors_speak_for_themselves() {
    let text = |t: &str| t.to_string();
    let io = GitError::OpenRepo {
        path: JoinedPath::new("/cache").join("git-db").join("repo"),
        reason: text("gone"),
    };
    assert_eq!(io.message(), "Failed to open git repository at /cache/git-db/repo");
    assert_eq!(io.causes(), vec![text("gone")]);
    let bootstrap = GitError::LinuxHttpsTrustBootstrap {
        url: text("https://x"),
        source: ca_bootstrap::Error::CreateDirectory {
            path: JoinedPath::new("/"),
            reason: text("denied"),
        },
    };
    let wrapped = Error::Git { source: bootstrap };
    assert_eq!(
        wrapped.message(),
        "Failed to prepare Linux HTTPS trust bootstrap for 'https://x'"
    );
    assert_eq!(
        wrapped.causes(),
        vec![text("Failed to create TLS cache directory at /"), text("denied")]
    );
    assert_eq!(
        ca_bootstrap::Error::NoNativeCaCertificates { error_count: 12 }.message(),
        "No Linux native CA certificates were loaded for HTTPS git transport (encountered 12 loader errors)"
    );
    assert_eq!(
        Error::ConflictingVersions {
            at_version: text("14"),
            flag_version: text("15"),
        }
        .message(),
        "Conflicting version specifications: @14 in crate name vs --version 15. Prefer using the @VERSION suffix in the crate name."
    );
    assert_eq!(
        Error::AmbiguousPackageName { count: 3 }.message(),
        "Ambiguous package name: found 3 packages in workspace, but no name was specified. Specify which package to use with the 'name' field."
    );
    assert_eq!(
        Error::OfflineMode {
            name: text("tool"),
            version: text("1.2.3"),
        }
        .message(),
        "Cannot download 'tool' v1.2.3: network required but offline mode enabled"
    );
    let target = Error::RunnableTargetNotFound {
        kind: TargetClass::Example,
        package: text("p"),
        target: text("t"),
        available: vec![text("a"), text("b")],
    };
    assert_eq!(target.message(), "Package 'p' has no example target 't'");
    assert_eq!(target.causes(), vec![text("available: a,b")]);
    assert_eq!(Error::MissingCrateParameter.message(), "Crate name is required");
    assert!(Error::MissingCrateParameter.causes().is_empty());
}

#[test]
fn answers_decide_what_a_download_is() {
    let request = |connect: bool| Error::HttpRequest {
        url: "u".to_string(),
        failure: HttpFailure {
            connect,
            timeout: false,
            request: false,
        },
        message: "broken".to_string(),
    };
    assert_eq!(download_of("u", Ok(Some(vec![1, 2]))), Download::Data(vec![1, 2]));
    assert_eq!(download_of("u", Ok(None)), Download::Unavailable);
    assert_eq!(download_of("u", Err(request(true))), Download::Unavailable);
    assert_eq!(
        download_of("u", Err(request(false))),
        Download::Failed(Error::BinaryDownloadFailed { url: "u".to_string() })
    );
    let status = Error::HttpRetryableStatus {
        url: "u".to_string(),
        status: 503,
    };
    assert_eq!(download_of("u", Err(status)), Download::Unavailable);
}
