use cgx::bin_resolver::is_disqualified;
use cgx::builder::{BuildOptions, BuildTarget};
use cgx::cratespec::Forge;
use cgx::downloader::DownloadedCrate;
use cgx::error::{Error, HttpFailure};
use cgx::messages::BinResolutionMessage;
use cgx::config::BinaryProvider;
use cgx::paths::JoinedPath;
use cgx::providers::binstall::{
    archive_filename, archive_suffix, render_template, BinstallMeta, BinstallOverride,
    BinstallPhase, BinstallProvider, TemplateContext,
};
use cgx::providers::delivery::{Action, Download, Event, Probe, Request};
use cgx::providers::github::{match_asset, GithubPhase, GithubProvider};
use cgx::providers::gitlab::{GitlabPhase, GitlabProvider};
use cgx::providers::quickinstall::QuickinstallProvider;
use cgx::providers::{
    archive_name, generate_candidate_filenames, verify_checksum, ArchiveFormat,
};
use cgx::resolver::{ResolvedCrate, ResolvedSource};

#[test]
fn test_disqualification_default_options_ok() {
    let options = BuildOptions::default();
    assert_eq!(is_disqualified(&options), None);
}

#[test]
fn test_disqualification_explicit_bin() {
    let mut options = BuildOptions::default();
    options.build_target = BuildTarget::Bin("specific-bin".to_string());
    assert_eq!(
        is_disqualified(&options),
        Some("explicit --bin or --example specified")
    );
}

#[test]
fn test_disqualification_explicit_example() {
    let mut options = BuildOptions::default();
    options.build_target = BuildTarget::Example("my-example".to_string());
    assert_eq!(
        is_disqualified(&options),
        Some("explicit --bin or --example specified")
    );
}

#[test]
fn test_disqualification_custom_features() {
    let mut options = BuildOptions::default();
    options.features = vec!["serde".to_string(), "json".to_string()];
    assert_eq!(is_disqualified(&options), Some("custom features specified"));
}

#[test]
fn test_disqualification_all_features() {
    let mut options = BuildOptions::default();
    options.all_features = true;
    assert_eq!(is_disqualified(&options), Some("--all-features specified"));
}

#[test]
fn test_disqualification_no_default_features() {
    let mut options = BuildOptions::default();
    options.no_default_features = true;
    assert_eq!(is_disqualified(&options), Some("--no-default-features specified"));
}

#[test]
fn test_disqualification_custom_profile() {
    let mut options = BuildOptions::default();
    options.profile = Some("release-with-debug".to_string());
    assert_eq!(is_disqualified(&options), Some("custom profile specified"));
}

#[test]
fn test_disqualification_custom_target() {
    let mut options = BuildOptions::default();
    options.target = Some("x86_64-unknown-linux-musl".to_string());
    assert_eq!(is_disqualified(&options), Some("custom target specified"));
}

#[test]
fn test_disqualification_custom_toolchain() {
    let mut options = BuildOptions::default();
    options.toolchain = Some("nightly".to_string());
    assert_eq!(is_disqualified(&options), Some("custom toolchain specified"));
}

#[test]
fn render_template_basic() {
    let ctx = TemplateContext {
        name: "eza",
        version: "0.23.1",
        target: "x86_64-unknown-linux-gnu",
        archive_suffix: ".tar.gz",
        binary_ext: "",
        bin: "eza",
        repo: Some("https://github.com/eza-community/eza"),
    };

    let template = "{ repo }/releases/download/v{ version }/{ name }_{ target }{ archive-suffix }";
    let rendered = render_template(template, &ctx);
    let expected = "https://github.com/eza-community/eza/releases/download/v0.23.1/eza_x86_64-unknown-linux-gnu.tar.gz";
    assert_eq!(rendered, expected);
}

#[test]
fn render_template_binary_ext() {
    let ctx = TemplateContext {
        name: "mytool",
        version: "1.0.0",
        target: "x86_64-pc-windows-msvc",
        archive_suffix: ".zip",
        binary_ext: ".exe",
        bin: "mytool",
        repo: None,
    };

    let template = "https://example.com/{ name }-v{ version }-{ target }{ archive-suffix }";
    let rendered = render_template(template, &ctx);
    assert_eq!(
        rendered,
        "https://example.com/mytool-v1.0.0-x86_64-pc-windows-msvc.zip"
    );
}

#[test]
fn render_template_bin_variable() {
    let ctx = TemplateContext {
        name: "cargo-watch",
        version: "8.0.0",
        target: "aarch64-apple-darwin",
        archive_suffix: ".tar.xz",
        binary_ext: "",
        bin: "cargo-watch",
        repo: Some("https://github.com/watchexec/cargo-watch"),
    };

    let template =
        "{ repo }/releases/download/v{ version }/{ bin }-v{ version }-{ target }{ archive-suffix }";
    let rendered = render_template(template, &ctx);
    let expected = "https://github.com/watchexec/cargo-watch/releases/download/v8.0.0/cargo-watch-v8.0.0-aarch64-apple-darwin.tar.xz";
    assert_eq!(rendered, expected);
}

#[test]
fn render_template_missing_repo() {
    let ctx = TemplateContext {
        name: "tool",
        version: "1.0.0",
        target: "x86_64-unknown-linux-gnu",
        archive_suffix: ".tar.gz",
        binary_ext: "",
        bin: "tool",
        repo: None,
    };

    let template = "{ repo }/download/{ name }";
    let rendered = render_template(template, &ctx);
    // { repo } is not replaced when repo is None
    assert_eq!(rendered, "{ repo }/download/tool");
}

#[test]
fn archive_suffix_defaults_to_tar_gz() {
    for windows in [false, true] {
        assert_eq!(archive_suffix(None, windows), ".tar.gz");
        // "tgz" is part of the default catch-all
        assert_eq!(archive_suffix(Some("tgz"), windows), ".tar.gz");
        assert_eq!(archive_suffix(Some("unknown"), windows), ".tar.gz");
    }
}

#[test]
fn archive_suffix_known_formats() {
    for windows in [false, true] {
        assert_eq!(archive_suffix(Some("txz"), windows), ".tar.xz");
        assert_eq!(archive_suffix(Some("tzstd"), windows), ".tar.zst");
        assert_eq!(archive_suffix(Some("tbz2"), windows), ".tar.bz2");
        assert_eq!(archive_suffix(Some("zip"), windows), ".zip");
    }
}

#[test]
fn archive_suffix_bin_format() {
    assert_eq!(archive_suffix(Some("bin"), true), ".exe");
    assert_eq!(archive_suffix(Some("bin"), false), "");
}

#[test]
fn archive_filename_known_formats() {
    assert_eq!(archive_filename(None), "archive.tar.gz");
    assert_eq!(archive_filename(Some("tgz")), "archive.tar.gz");
    assert_eq!(archive_filename(Some("txz")), "archive.tar.xz");
    assert_eq!(archive_filename(Some("tzstd")), "archive.tar.zst");
    assert_eq!(archive_filename(Some("tbz2")), "archive.tar.bz2");
    assert_eq!(archive_filename(Some("zip")), "archive.zip");
    assert_eq!(archive_filename(Some("bin")), "archive");
}

fn text_at(value: &toml::Value, key: &str) -> Option<String> {
    value.get(key).and_then(|v| v.as_str()).map(|s| s.to_string())
}

fn binstall_of(content: &str) -> Option<BinstallMeta> {
    let doc: toml::Value = toml::from_str(content).ok()?;
    let value = doc.get("package")?.get("metadata")?.get("binstall")?;
    let mut overrides = Vec::new();
    if let Some(table) = value.get("overrides").and_then(|v| v.as_table()) {
        for (target, over) in table {
            overrides.push((
                target.clone(),
                BinstallOverride {
                    pkg_url: text_at(over, "pkg-url"),
                    pkg_fmt: text_at(over, "pkg-fmt"),
                    bin_dir: text_at(over, "bin-dir"),
                },
            ));
        }
    }
    Some(BinstallMeta {
        pkg_url: text_at(value, "pkg-url"),
        pkg_fmt: text_at(value, "pkg-fmt"),
        bin_dir: text_at(value, "bin-dir"),
        overrides,
    })
}

#[test]
fn parse_binstall_metadata_from_toml() {
    let toml_content = r#"
        [package]
        name = "eza"
        version = "0.23.1"

        [package.metadata.binstall]
        pkg-url = "{ repo }/releases/download/v{ version }/{ name }_{ target }{ archive-suffix }"
        pkg-fmt = "tgz"
        bin-dir = "{ bin }{ binary-ext }"

        [package.metadata.binstall.overrides.x86_64-pc-windows-msvc]
        pkg-fmt = "zip"
    "#;

    let meta = binstall_of(toml_content).unwrap();
    assert_eq!(
        meta.pkg_url.as_deref(),
        Some("{ repo }/releases/download/v{ version }/{ name }_{ target }{ archive-suffix }")
    );
    assert_eq!(meta.pkg_fmt.as_deref(), Some("tgz"));
    assert_eq!(meta.bin_dir.as_deref(), Some("{ bin }{ binary-ext }"));
    assert!(meta.overrides.iter().any(|(target, _)| target == "x86_64-pc-windows-msvc"));
    assert!(meta.is_well_formed());
}

#[test]
fn merge_overrides_applies_target() {
    let toml_content = r#"
        [package.metadata.binstall]
        pkg-url = "https://example.com/{ name }-{ target }.tar.gz"
        pkg-fmt = "tgz"

        [package.metadata.binstall.overrides.x86_64-pc-windows-msvc]
        pkg-fmt = "zip"
        pkg-url = "https://example.com/{ name }-{ target }.zip"
    "#;

    let mut meta = binstall_of(toml_content).unwrap();
    meta.merge_overrides("x86_64-pc-windows-msvc");

    assert_eq!(meta.pkg_fmt.as_deref(), Some("zip"));
    assert_eq!(
        meta.pkg_url.as_deref(),
        Some("https://example.com/{ name }-{ target }.zip")
    );
    assert!(meta.overrides.is_empty());
}

#[test]
fn merge_overrides_no_match_leaves_base() {
    let toml_content = r#"
        [package.metadata.binstall]
        pkg-url = "https://example.com/{ name }-{ target }.tar.gz"
        pkg-fmt = "tgz"

        [package.metadata.binstall.overrides.x86_64-pc-windows-msvc]
        pkg-fmt = "zip"
    "#;

    let mut meta = binstall_of(toml_content).unwrap();
    meta.merge_overrides("aarch64-apple-darwin");

    assert_eq!(meta.pkg_fmt.as_deref(), Some("tgz"));
    assert_eq!(
        meta.pkg_url.as_deref(),
        Some("https://example.com/{ name }-{ target }.tar.gz")
    );
    assert_eq!(meta.overrides.len(), 1);
}

#[test]
fn merge_overrides_partial_override() {
    let toml_content = r#"
        [package.metadata.binstall]
        pkg-url = "https://example.com/default"
        pkg-fmt = "tgz"
        bin-dir = "{ bin }"

        [package.metadata.binstall.overrides.aarch64-apple-darwin]
        pkg-fmt = "txz"
    "#;

    let mut meta = binstall_of(toml_content).unwrap();
    meta.merge_overrides("aarch64-apple-darwin");

    // pkg-fmt overridden
    assert_eq!(meta.pkg_fmt.as_deref(), Some("txz"));
    // pkg-url and bin-dir unchanged
    assert_eq!(meta.pkg_url.as_deref(), Some("https://example.com/default"));
    assert_eq!(meta.bin_dir.as_deref(), Some("{ bin }"));
}

#[test]
fn missing_metadata_returns_none() {
    let toml_content = r#"
        [package]
        name = "some-crate"
        version = "1.0.0"
    "#;

    let meta = binstall_of(toml_content);
    assert!(meta.is_none());

    let provider = BinstallProvider::new(JoinedPath::new("/cache"), true, String::new(), false);
    let request = request_for(crates_io("some-crate", "1.0.0"));
    let step = provider.try_resolve(&request);
    let step = provider.next(&request, step.phase, Event::Manifest(meta));
    assert_eq!(step.action, Action::Finish(Ok(None)));
    assert_eq!(
        step.messages,
        vec![BinResolutionMessage::ProviderHasNoBinary {
            provider: BinaryProvider::Binstall,
            reason: "no [package.metadata.binstall] in Cargo.toml".to_string(),
        }]
    );
}

#[test]
fn missing_pkg_url_in_metadata() {
    let toml_content = r#"
        [package.metadata.binstall]
        pkg-fmt = "tgz"
    "#;

    let meta = binstall_of(toml_content).unwrap();
    assert!(meta.pkg_url.is_none());

    let provider = BinstallProvider::new(JoinedPath::new("/cache"), true, String::new(), false);
    let request = request_for(crates_io("some-crate", "1.0.0"));
    let step = provider.next(
        &request,
        BinstallPhase::ReadingManifest,
        Event::Manifest(Some(meta)),
    );
    assert_eq!(step.action, Action::Finish(Ok(None)));
    assert_eq!(
        step.messages,
        vec![BinResolutionMessage::ProviderHasNoBinary {
            provider: BinaryProvider::Binstall,
            reason: "binstall metadata has no pkg-url".to_string(),
        }]
    );
}

#[test]
fn test_parse_owner_repo_standard() {
    let (owner, repo) = GithubProvider::parse_owner_repo("https://github.com/eza-community/eza").unwrap();
    assert_eq!(owner, "eza-community");
    assert_eq!(repo, "eza");
}

#[test]
fn test_parse_owner_repo_enterprise() {
    let (owner, repo) =
        GithubProvider::parse_owner_repo("https://github.enterprise.com/myorg/myrepo").unwrap();
    assert_eq!(owner, "myorg");
    assert_eq!(repo, "myrepo");
}

#[test]
fn test_parse_owner_repo_invalid() {
    assert!(GithubProvider::parse_owner_repo("https://github.com/").is_none());
    assert!(GithubProvider::parse_owner_repo("not-a-url").is_none());
}

#[test]
fn test_api_base_github_com() {
    assert_eq!(
        GithubProvider::api_base("https://github.com/owner/repo"),
        Some("https://api.github.com".to_string())
    );
}

#[test]
fn test_api_base_enterprise() {
    assert_eq!(
        GithubProvider::api_base("https://github.enterprise.com/owner/repo"),
        Some("https://github.enterprise.com/api/v3".to_string())
    );
}

fn forge_crate(forge: Forge) -> ResolvedCrate {
    ResolvedCrate {
        name: "mytool".to_string(),
        version: "1.0.0".to_string(),
        source: ResolvedSource::Forge {
            forge,
            commit: "abc123".to_string(),
        },
    }
}

fn github(custom_url: Option<&str>) -> Forge {
    Forge::GitHub {
        custom_url: custom_url.map(|u| url::Url::parse(u).unwrap().to_string()),
        owner: "myowner".to_string(),
        repo: "myrepo".to_string(),
    }
}

fn gitlab(custom_url: Option<&str>) -> Forge {
    Forge::GitLab {
        custom_url: custom_url.map(|u| url::Url::parse(u).unwrap().to_string()),
        owner: "myowner".to_string(),
        repo: "myrepo".to_string(),
    }
}

fn crates_io(name: &str, version: &str) -> ResolvedCrate {
    ResolvedCrate {
        name: name.to_string(),
        version: version.to_string(),
        source: ResolvedSource::CratesIo,
    }
}

fn request_for(resolved: ResolvedCrate) -> Request {
    Request {
        krate: DownloadedCrate {
            resolved,
            crate_path: JoinedPath::new("/src"),
        },
        platform: "x86_64-unknown-linux-gnu".to_string(),
    }
}

#[test]
fn test_get_repo_url_github_forge() {
    let url = GithubProvider::get_repo_url(&forge_crate(github(None)), None);
    assert_eq!(url, Some("https://github.com/myowner/myrepo".to_string()));
}

#[test]
fn test_get_repo_url_github_forge_custom_url() {
    let url = GithubProvider::get_repo_url(
        &forge_crate(github(Some("https://github.enterprise.com"))),
        None,
    );
    assert_eq!(
        url,
        Some("https://github.enterprise.com/myowner/myrepo".to_string())
    );
}

#[test]
fn test_get_repo_url_crates_io_queries_api() {
    let krate = crates_io("serde", "1.0.0");
    let provider = GithubProvider::new(JoinedPath::new("/cache"), true, String::new());
    let step = provider.try_resolve(&request_for(krate.clone()));
    assert_eq!(
        step.action,
        Action::QueryRepository {
            krate: "serde".to_string()
        }
    );

    let url =
        GithubProvider::get_repo_url(&krate, Some("https://github.com/serde-rs/serde".to_string()));
    assert_eq!(url, Some("https://github.com/serde-rs/serde".to_string()));
}

#[test]
fn test_url_generation_includes_version_patterns() {
    let urls = GitlabProvider::generate_urls(
        "https://gitlab.com/owner/repo",
        "mytool",
        "1.2.3",
        "x86_64-unknown-linux-gnu",
    );

    assert!(urls.iter().any(|url| url.contains("/-/releases/v1.2.3/")));
    assert!(urls.iter().any(|url| url.contains("/-/releases/1.2.3/")));
}

#[test]
fn test_url_generation_uses_gitlab_path() {
    let urls = GitlabProvider::generate_urls(
        "https://gitlab.com/owner/repo",
        "mytool",
        "1.2.3",
        "x86_64-unknown-linux-gnu",
    );

    assert!(urls.iter().all(|url| url.contains("/-/releases/")));
    assert!(urls.iter().all(|url| url.contains("/downloads/binaries/")));
}

#[test]
fn test_url_generation_includes_archive_formats() {
    let urls = GitlabProvider::generate_urls(
        "https://gitlab.com/owner/repo",
        "mytool",
        "1.2.3",
        "x86_64-unknown-linux-gnu",
    );

    assert!(urls.iter().any(|url| url.ends_with(".tar.gz")));
    assert!(urls.iter().any(|url| url.ends_with(".tar.xz")));
    assert!(urls.iter().any(|url| url.ends_with(".tar.zst")));
    assert!(urls.iter().any(|url| url.ends_with(".zip")));
}

#[test]
fn test_get_repo_url_gitlab_forge() {
    let url = GitlabProvider::get_repo_url(&forge_crate(gitlab(None)), None);
    assert_eq!(url, Some("https://gitlab.com/myowner/myrepo".to_string()));
}

#[test]
fn test_get_repo_url_gitlab_forge_custom_url() {
    let url = GitlabProvider::get_repo_url(
        &forge_crate(gitlab(Some("https://gitlab.company.com"))),
        None,
    );
    assert_eq!(url, Some("https://gitlab.company.com/myowner/myrepo".to_string()));
}

#[test]
fn test_get_repo_url_github_forge_returns_none() {
    let url = GitlabProvider::get_repo_url(&forge_crate(github(None)), None);
    assert_eq!(url, None);
}

#[test]
fn registry_repositories_count_on_their_own_forge_only() {
    let krate = crates_io("tool", "1.0.0");
    let on_github = Some("https://github.com/o/r".to_string());
    let on_gitlab = Some("https://gitlab.com/o/r".to_string());
    assert_eq!(GithubProvider::get_repo_url(&krate, on_github.clone()), on_github);
    assert_eq!(GithubProvider::get_repo_url(&krate, on_gitlab.clone()), None);
    assert_eq!(GitlabProvider::get_repo_url(&krate, on_gitlab.clone()), on_gitlab);
    assert_eq!(GitlabProvider::get_repo_url(&krate, on_github.clone()), None);
    assert_eq!(BinstallProvider::get_repo_url(&krate, on_gitlab.clone()), on_gitlab);
    assert_eq!(
        BinstallProvider::get_repo_url(&forge_crate(gitlab(None)), None),
        Some("https://gitlab.com/myowner/myrepo".to_string())
    );
}

#[test]
fn candidates_are_ten_for_each_format() {
    let candidates = generate_candidate_filenames("tool", "1.2.3", "linux");
    assert_eq!(candidates.len(), 10 * ArchiveFormat::all_formats().len());
    assert_eq!(candidates[0].filename, "tool-linux-v1.2.3.tar.gz");
    assert_eq!(candidates[1].filename, "tool-linux-1.2.3.tar.gz");
    assert_eq!(candidates[2].filename, "tool-v1.2.3-linux.tar.gz");
    assert_eq!(candidates[3].filename, "tool-1.2.3-linux.tar.gz");
    assert_eq!(candidates[4].filename, "tool_linux_v1.2.3.tar.gz");
    assert_eq!(candidates[5].filename, "tool_linux_1.2.3.tar.gz");
    assert_eq!(candidates[6].filename, "tool_v1.2.3_linux.tar.gz");
    assert_eq!(candidates[7].filename, "tool_1.2.3_linux.tar.gz");
    assert_eq!(candidates[8].filename, "tool-linux.tar.gz");
    assert_eq!(candidates[9].filename, "tool_linux.tar.gz");
    for candidate in &candidates {
        assert!(candidate.filename.ends_with(candidate.format.suffix()));
        if candidate.format != ArchiveFormat::Bare {
            assert_eq!(
                archive_name(&candidate.filename),
                format!("archive{}", candidate.format.suffix())
            );
        }
    }
    assert_eq!(archive_name("tool-linux"), "archive");
}

#[test]
fn the_first_candidate_and_the_last_asset_of_its_name_win() {
    let candidates = generate_candidate_filenames("tool", "1.2.3", "linux");
    let asset = |name: &str, url: &str| (name.to_string(), url.to_string());
    let assets = vec![
        asset("tool_linux.zip", "z"),
        asset("tool-1.2.3-linux.tar.xz", "old"),
        asset("tool-1.2.3-linux.tar.xz", "new"),
    ];
    assert_eq!(
        match_asset(&candidates, &assets),
        Some(asset("tool-1.2.3-linux.tar.xz", "new"))
    );
    assert_eq!(match_asset(&candidates, &vec![asset("other", "x")]), None);
}

#[test]
fn checksums_are_compared_with_the_first_word() {
    // The digest of the empty input.
    let digest = "e3b0c44298fc1c149afbf4c8996fb92427ae41e4649b934ca495991b7852b855";
    let line = format!("  {}  tool.tar.gz\n", digest);
    assert_eq!(verify_checksum(&[], line.as_bytes()), Ok(digest.to_string()));
    assert_eq!(
        verify_checksum(&[1], line.as_bytes()),
        Err(Error::ChecksumMismatch {
            expected: digest.to_string(),
            actual: "4bf5122f344554c53bde2ebb8cd2b7e3d1600ad631c385a5d7cce23c7785459a".to_string(),
        })
    );
    assert_eq!(
        verify_checksum(&[], b" \n"),
        Err(Error::ChecksumMismatch {
            expected: " \n".to_string(),
            actual: "invalid checksum format".to_string(),
        })
    );
    // Bytes that are no text are replaced, not refused.
    assert_eq!(
        verify_checksum(&[], &[0xff]),
        Err(Error::ChecksumMismatch {
            expected: "\u{fffd}".to_string(),
            actual: digest.to_string(),
        })
    );
}

#[test]
fn github_attempts_go_from_repository_to_installed_binary() {
    let provider = GithubProvider::new(JoinedPath::new("/cache"), true, ".exe".to_string());
    let request = request_for(forge_crate(github(None)));
    let step = provider.try_resolve(&request);
    assert_eq!(
        step.action,
        Action::ListAssets {
            url: "https://api.github.com/repos/myowner/myrepo/releases/tags/v1.0.0".to_string()
        }
    );
    let step = provider.next(&request, step.phase, Event::Assets(vec![]));
    assert_eq!(
        step.action,
        Action::ListAssets {
            url: "https://api.github.com/repos/myowner/myrepo/releases/tags/1.0.0".to_string()
        }
    );
    let assets = vec![(
        "mytool-x86_64-unknown-linux-gnu-v1.0.0.zip".to_string(),
        "https://dl/mytool.zip".to_string(),
    )];
    let step = provider.next(&request, step.phase, Event::Assets(assets));
    assert_eq!(
        step.action,
        Action::Download {
            url: "https://dl/mytool.zip".to_string()
        }
    );
    assert_eq!(
        step.messages,
        vec![BinResolutionMessage::DownloadingBinary {
            url: "https://dl/mytool.zip".to_string(),
            provider: BinaryProvider::GithubReleases,
        }]
    );
    let step = provider.next(
        &request,
        step.phase,
        Event::Downloaded(Download::Data(vec![])),
    );
    assert_eq!(
        step.action,
        Action::DownloadChecksum {
            url: "https://dl/mytool.zip.sha256".to_string()
        }
    );
    let digest = "e3b0c44298fc1c149afbf4c8996fb92427ae41e4649b934ca495991b7852b855";
    let step = provider.next(
        &request,
        step.phase,
        Event::Downloaded(Download::Data(digest.as_bytes().to_vec())),
    );
    assert_eq!(
        step.messages,
        vec![
            BinResolutionMessage::VerifyingChecksum {
                hash: digest.to_string()
            },
            BinResolutionMessage::ChecksumVerified,
        ]
    );
    let path = match step.action {
        Action::Install(installation) => {
            assert_eq!(installation.archive_name, "archive.zip");
            assert_eq!(installation.binary_name, "mytool");
            installation.path
        }
        other => panic!("unexpected action {:?}", other),
    };
    assert_eq!(
        path.segments,
        vec!["binaries", "github", "mytool", "1.0.0", "x86_64-unknown-linux-gnu", "mytool.exe"]
    );
    assert!(GithubProvider::awaits(&step.phase, &Event::Installed));
    let step = provider.next(&request, step.phase, Event::Installed);
    match step.action {
        Action::Finish(Ok(Some(binary))) => {
            assert_eq!(binary.path, path);
            assert_eq!(binary.provider, BinaryProvider::GithubReleases);
            assert_eq!(binary.krate, request.krate.resolved);
        }
        other => panic!("unexpected action {:?}", other),
    }
}

#[test]
fn github_attempts_give_up_with_a_reason() {
    let provider = GithubProvider::new(JoinedPath::new("/cache"), true, String::new());
    let reason = |messages: &Vec<BinResolutionMessage>| match &messages[0] {
        BinResolutionMessage::ProviderHasNoBinary { reason, .. } => reason.clone(),
        other => panic!("unexpected message {:?}", other),
    };

    let request = request_for(crates_io("tool", "1.0.0"));
    let step = provider.try_resolve(&request);
    let step = provider.next(&request, step.phase, Event::Repository(None));
    assert_eq!(reason(&step.messages), "no repository URL available");

    let url = Some("https://github.com/owner".to_string());
    let step = provider.next(&request, GithubPhase::AskingRepository, Event::Repository(url));
    assert_eq!(
        reason(&step.messages),
        "could not parse owner/repo from URL: https://github.com/owner"
    );

    let listing = |plain_tag| GithubPhase::Listing {
        api_base: "https://api.github.com".to_string(),
        owner: "o".to_string(),
        repo: "r".to_string(),
        plain_tag,
    };
    let step = provider.next(&request, listing(true), Event::Assets(vec![]));
    assert_eq!(reason(&step.messages), "no release found for any tag variant");

    let other = vec![("README.md".to_string(), "https://dl/readme".to_string())];
    let step = provider.next(&request, listing(false), Event::Assets(other));
    assert_eq!(reason(&step.messages), "no matching asset found in release");
}

#[test]
fn wrong_checksums_end_the_attempt() {
    let provider = GithubProvider::new(JoinedPath::new("/cache"), true, String::new());
    let request = request_for(forge_crate(github(None)));
    let step = provider.delivery.start("https://dl/t".to_string(), "archive");
    let step = provider.delivery.next(
        &request,
        step.phase,
        Event::Downloaded(Download::Data(vec![1])),
    );
    let step = provider.delivery.next(
        &request,
        step.phase,
        Event::Downloaded(Download::Data(b"0000".to_vec())),
    );
    assert_eq!(
        step.action,
        Action::Finish(Err(Error::ChecksumMismatch {
            expected: "0000".to_string(),
            actual: "4bf5122f344554c53bde2ebb8cd2b7e3d1600ad631c385a5d7cce23c7785459a".to_string(),
        }))
    );
}

#[test]
fn a_missing_checksum_or_no_verification_does_not_stop_a_delivery() {
    let request = request_for(forge_crate(github(None)));
    let strict = GithubProvider::new(JoinedPath::new("/cache"), true, String::new());
    let step = strict.delivery.start("https://dl/t".to_string(), "archive");
    let step = strict.delivery.next(
        &request,
        step.phase,
        Event::Downloaded(Download::Data(vec![1])),
    );
    let step = strict.delivery.next(
        &request,
        step.phase,
        Event::Downloaded(Download::Unavailable),
    );
    assert!(matches!(step.action, Action::Install(_)));

    let lax = GithubProvider::new(JoinedPath::new("/cache"), false, String::new());
    let step = lax.delivery.start("https://dl/t".to_string(), "archive");
    let step = lax.delivery.next(
        &request,
        step.phase,
        Event::Downloaded(Download::Data(vec![1])),
    );
    assert!(matches!(step.action, Action::Install(_)));
}

#[test]
fn gitlab_attempts_probe_until_a_file_is_found() {
    let provider = GitlabProvider::new(JoinedPath::new("/cache"), false, String::new());
    let request = request_for(forge_crate(gitlab(None)));
    let urls = GitlabProvider::generate_urls(
        "https://gitlab.com/myowner/myrepo",
        "mytool",
        "1.0.0",
        "x86_64-unknown-linux-gnu",
    );
    let step = provider.try_resolve(&request);
    assert_eq!(step.action, Action::Probe { url: urls[0].clone() });
    let step = provider.next(&request, step.phase, Event::Probed(Probe::Missing));
    assert_eq!(step.action, Action::Probe { url: urls[1].clone() });
    let step = provider.next(&request, step.phase, Event::Probed(Probe::Found));
    assert_eq!(step.action, Action::Download { url: urls[1].clone() });
    let step = provider.next(
        &request,
        step.phase,
        Event::Downloaded(Download::Unavailable),
    );
    assert_eq!(
        step.messages,
        vec![BinResolutionMessage::ProviderHasNoBinary {
            provider: BinaryProvider::GitlabReleases,
            reason: format!("failed to download asset: {}", urls[1]),
        }]
    );

    let last = GitlabPhase::Probing {
        urls: vec!["https://x".to_string()],
        index: 0,
    };
    let step = provider.next(&request, last.clone(), Event::Probed(Probe::Missing));
    assert_eq!(step.action, Action::Finish(Ok(None)));
    let many = GitlabPhase::Probing { urls, index: 0 };
    let step = provider.next(&request, many, Event::Probed(Probe::Unreachable));
    assert_eq!(step.action, Action::Finish(Ok(None)));
}

#[test]
fn probes_tell_missing_files_from_dead_servers() {
    assert_eq!(GitlabProvider::head_probe(&Ok(200)), Probe::Found);
    assert_eq!(GitlabProvider::head_probe(&Ok(404)), Probe::Missing);
    let failed = |connect| {
        Err(Error::HttpRequest {
            url: "https://x".to_string(),
            failure: HttpFailure {
                connect,
                timeout: false,
                request: false,
            },
            message: String::new(),
        })
    };
    assert_eq!(GitlabProvider::head_probe(&failed(true)), Probe::Unreachable);
    assert_eq!(GitlabProvider::head_probe(&failed(false)), Probe::Missing);
}

#[test]
fn quickinstall_has_one_place_for_each_binary() {
    let krate = crates_io("ripgrep", "14.1.0");
    let url = QuickinstallProvider::construct_url(&krate, "x86_64-unknown-linux-gnu");
    assert_eq!(
        url,
        "https://github.com/cargo-bins/cargo-quickinstall/releases/download/ripgrep-14.1.0/ripgrep-14.1.0-x86_64-unknown-linux-gnu.tar.gz"
    );
    let provider = QuickinstallProvider::new(JoinedPath::new("/cache"), String::new());
    let request = request_for(krate);
    let step = provider.try_resolve(&request);
    assert_eq!(step.action, Action::Download { url });
    // However the download fails, there is just no binary.
    let step = provider.next(
        &request,
        step.phase,
        Event::Downloaded(Download::Failed(Error::BinaryDownloadFailed {
            url: "x".to_string(),
        })),
    );
    assert_eq!(step.action, Action::Finish(Ok(None)));
    assert_eq!(
        step.messages,
        vec![BinResolutionMessage::ProviderHasNoBinary {
            provider: BinaryProvider::Quickinstall,
            reason: "download failed or binary not found".to_string(),
        }]
    );
}

#[test]
fn binstall_follows_the_template_of_the_manifest() {
    let provider = BinstallProvider::new(JoinedPath::new("/cache"), false, String::new(), false);
    let request = request_for(crates_io("eza", "0.23.1"));
    let meta = BinstallMeta {
        pkg_url: Some("{ repo }/v{ version }/{ bin }{ binary-ext }-{ target }{ archive-suffix }".to_string()),
        pkg_fmt: Some("tgz".to_string()),
        bin_dir: None,
        overrides: vec![(
            "x86_64-unknown-linux-gnu".to_string(),
            BinstallOverride {
                pkg_url: None,
                pkg_fmt: Some("txz".to_string()),
                bin_dir: None,
            },
        )],
    };
    let step = provider.try_resolve(&request);
    let step = provider.next(&request, step.phase, Event::Manifest(Some(meta)));
    assert_eq!(
        step.action,
        Action::QueryRepository {
            krate: "eza".to_string()
        }
    );
    let step = provider.next(
        &request,
        step.phase,
        Event::Repository(Some("https://github.com/eza-community/eza".to_string())),
    );
    let url = "https://github.com/eza-community/eza/v0.23.1/eza-x86_64-unknown-linux-gnu.tar.xz";
    assert_eq!(step.action, Action::Download { url: url.to_string() });
    let step = provider.next(
        &request,
        step.phase,
        Event::Downloaded(Download::Unavailable),
    );
    assert_eq!(
        step.messages,
        vec![BinResolutionMessage::ProviderHasNoBinary {
            provider: BinaryProvider::Binstall,
            reason: format!("download failed: {}", url),
        }]
    );
}

#[test]
fn plain_templates_are_rendered_as_they_stand() {
    let ctx = TemplateContext {
        name: "n",
        version: "v",
        target: "t",
        archive_suffix: "s",
        binary_ext: "e",
        bin: "b",
        repo: None,
    };
    for template in ["", "https://x/{name}", "{ repo }", "{ name", "{{ names }}"] {
        assert_eq!(render_template(template, &ctx), template);
    }
}

#[test]
fn doubled_override_targets_are_not_well_formed() {
    let over = BinstallOverride {
        pkg_url: None,
        pkg_fmt: None,
        bin_dir: None,
    };
    let meta = BinstallMeta {
        pkg_url: None,
        pkg_fmt: None,
        bin_dir: None,
        overrides: vec![("a".to_string(), over.clone()), ("a".to_string(), over)],
    };
    assert!(!meta.is_well_formed());
}

#[test]
fn owner_and_repository_come_back_out_of_the_url() {
    for (custom_url, api) in [
        (None, "https://api.github.com"),
        (Some("https://git.example.com".to_string()), "https://git.example.com/api/v3"),
        (Some("https://git.example.com/".to_string()), "https://git.example.com/api/v3"),
    ] {
        let krate = ResolvedCrate {
            name: "tool".to_string(),
            version: "1.2.3".to_string(),
            source: ResolvedSource::Forge {
                forge: Forge::GitHub {
                    custom_url,
                    owner: "owner".to_string(),
                    repo: "repo".to_string(),
                },
                commit: "c".to_string(),
            },
        };
        let url = GithubProvider::get_repo_url(&krate, None).unwrap();
        assert_eq!(
            GithubProvider::parse_owner_repo(&url),
            Some(("owner".to_string(), "repo".to_string()))
        );
        assert_eq!(GithubProvider::api_base(&url), Some(api.to_string()));
    }
}
