//! Binaries where the crate's own `cargo-binstall` metadata says that they are.
use vstd::pervasive::unreached;
use vstd::prelude::*;
use vstd::string::*;

use crate::config::BinaryProvider;
use crate::cratespec::Forge;
use crate::messages::BinResolutionMessage;
use crate::paths::JoinedPath;
use crate::providers::delivery::progress as delivery_progress;
use crate::providers::delivery::{
    delivery_answers, no_binary, silent, Action, Delivery, DeliveryPhase, Event, Request, Step,
};
use crate::providers::{from_registry, needs_registry_lookup, repository_url, repository_url_of};
use crate::resolver::{ResolvedCrate, ResolvedSource};
use crate::text::{contains_text, opt_view, replace_all, replaced, replaced_absent, same};

verus! {

/// What `[package.metadata.binstall]` says.
#[derive(Clone, Debug, PartialEq, Eq)]
pub struct BinstallMeta {
    pub pkg_url: Option<String>,
    pub pkg_fmt: Option<String>,
    pub bin_dir: Option<String>,
    /// What differs on single targets. No target occurs twice.
    pub overrides: Vec<(String, BinstallOverride)>,
}

/// What differs on one target.
#[derive(Clone, Debug, PartialEq, Eq)]
pub struct BinstallOverride {
    pub pkg_url: Option<String>,
    pub pkg_fmt: Option<String>,
    pub bin_dir: Option<String>,
}

/// No target occurs twice.
pub open spec fn targets_distinct(overrides: Seq<(String, BinstallOverride)>) -> bool {
    forall|i: int, j: int|
        0 <= i < j < overrides.len() ==> (#[trigger] overrides[i]).0@ != (
        #[trigger] overrides[j]).0@
}

/// The overrides say something of the target.
pub open spec fn overrides_target(
    overrides: Seq<(String, BinstallOverride)>,
    target: Seq<char>,
) -> bool {
    exists|i: int| 0 <= i < overrides.len() && (#[trigger] overrides[i]).0@ == target
}

/// What the overrides say of the target.
pub open spec fn override_for(
    overrides: Seq<(String, BinstallOverride)>,
    target: Seq<char>,
) -> Option<BinstallOverride>
    decreases overrides.len(),
{
    if overrides.len() == 0 {
        None
    } else if overrides.last().0@ == target {
        Some(overrides.last().1)
    } else {
        override_for(overrides.drop_last(), target)
    }
}

proof fn override_is_unique(
    overrides: Seq<(String, BinstallOverride)>,
    i: int,
    target: Seq<char>,
)
    requires
        targets_distinct(overrides),
        0 <= i < overrides.len(),
        overrides[i].0@ == target,
    ensures
        override_for(overrides, target) == Some(overrides[i].1),
    decreases overrides.len(),
{
    if i < overrides.len() - 1 {
        assert(overrides[i].0@ != overrides[overrides.len() - 1].0@);
        assert(overrides.drop_last()[i] == overrides[i]);
        assert(targets_distinct(overrides.drop_last()));
        override_is_unique(overrides.drop_last(), i, target);
    }
}

proof fn no_override(overrides: Seq<(String, BinstallOverride)>, target: Seq<char>)
    requires
        !overrides_target(overrides, target),
    ensures
        override_for(overrides, target) is None,
    decreases overrides.len(),
{
    if overrides.len() > 0 {
        assert(overrides[overrides.len() - 1].0@ != target);
        assert(!overrides_target(overrides.drop_last(), target)) by {
            if overrides_target(overrides.drop_last(), target) {
                let i = choose|i: int|
                    0 <= i < overrides.drop_last().len() && (
                    #[trigger] overrides.drop_last()[i]).0@ == target;
                assert(overrides[i].0@ == target);
            }
        }
        no_override(overrides.drop_last(), target);
    }
}

/// What the override sets, else what was set before.
pub open spec fn either(over: Option<String>, base: Option<String>) -> Option<String> {
    if over is Some {
        over
    } else {
        base
    }
}

impl BinstallMeta {
    /// The metadata is well formed: no target is overridden twice.
    pub open spec fn wf(self) -> bool {
        targets_distinct(self.overrides@)
    }

    /// Where the archive is, on the target.
    pub open spec fn pkg_url_on(self, target: Seq<char>) -> Option<String> {
        match override_for(self.overrides@, target) {
            Some(over) => either(over.pkg_url, self.pkg_url),
            None => self.pkg_url,
        }
    }

    /// How the archive is packed, on the target.
    pub open spec fn pkg_fmt_on(self, target: Seq<char>) -> Option<String> {
        match override_for(self.overrides@, target) {
            Some(over) => either(over.pkg_fmt, self.pkg_fmt),
            None => self.pkg_fmt,
        }
    }

    /// Where the binary is in the archive, on the target.
    pub open spec fn bin_dir_on(self, target: Seq<char>) -> Option<String> {
        match override_for(self.overrides@, target) {
            Some(over) => either(over.bin_dir, self.bin_dir),
            None => self.bin_dir,
        }
    }

    /// Whether no target is overridden twice.
    pub fn is_well_formed(&self) -> (r: bool)
        ensures
            r == self.wf(),
    {
        let mut j: usize = 0;
        while j < self.overrides.len()
            invariant
                j <= self.overrides.len(),
                targets_distinct(self.overrides@.take(j as int)),
            decreases self.overrides.len() - j,
        {
            let ghost seen = self.overrides@.take(j + 1);
            let mut i: usize = 0;
            while i < j
                invariant
                    i <= j < self.overrides.len(),
                    forall|k: int|
                        0 <= k < i ==> (#[trigger] self.overrides@[k]).0@
                            != self.overrides@[j as int].0@,
                decreases j - i,
            {
                if same(self.overrides[i].0.as_str(), self.overrides[j].0.as_str()) {
                    assert(self.overrides@[i as int].0@ == self.overrides@[j as int].0@);
                    return false;
                }
                i = i + 1;
            }
            assert forall|p: int, q: int| 0 <= p < q < seen.len() implies (#[trigger] seen[p]).0@
                != (#[trigger] seen[q]).0@ by {
                assert(seen[p] == self.overrides@[p]);
                assert(seen[q] == self.overrides@[q]);
                if q < j {
                    assert(self.overrides@.take(j as int)[p] == seen[p]);
                    assert(self.overrides@.take(j as int)[q] == seen[q]);
                }
            }
            j = j + 1;
        }
        assert(self.overrides@.take(j as int) =~= self.overrides@);
        true
    }

    /// The metadata with what differs on the target applied to it, and with nothing left that
    /// differs there.
    pub open spec fn merges_to(self, r: BinstallMeta, target: Seq<char>) -> bool {
        &&& r.pkg_url == self.pkg_url_on(target)
        &&& r.pkg_fmt == self.pkg_fmt_on(target)
        &&& r.bin_dir == self.bin_dir_on(target)
        &&& !overrides_target(r.overrides@, target)
        &&& overrides_target(self.overrides@, target) ==> exists|i: int|
            0 <= i < self.overrides@.len() && (#[trigger] self.overrides@[i]).0@ == target
                && r.overrides@ == self.overrides@.remove(i)
        &&& !overrides_target(self.overrides@, target) ==> r.overrides@ == self.overrides@
    }

    /// Apply what differs on the target. Each setting that the override leaves out stays as
    /// it is.
    pub fn merge_overrides(&mut self, target: &str)
        requires
            old(self).wf(),
        ensures
            final(self).wf(),
            old(self).merges_to(*final(self), target@),
    {
        let mut i: usize = 0;
        while i < self.overrides.len()
            invariant
                i <= self.overrides.len(),
                *self == *old(self),
                old(self).wf(),
                forall|k: int| 0 <= k < i ==> (#[trigger] self.overrides@[k]).0@ != target@,
            decreases self.overrides.len() - i,
        {
            if same(self.overrides[i].0.as_str(), target) {
                let ghost before = *self;
                let over = self.overrides.remove(i).1;
                if over.pkg_url.is_some() {
                    self.pkg_url = over.pkg_url;
                }
                if over.pkg_fmt.is_some() {
                    self.pkg_fmt = over.pkg_fmt;
                }
                if over.bin_dir.is_some() {
                    self.bin_dir = over.bin_dir;
                }
                proof {
                    let rest = before.overrides@.remove(i as int);
                    assert(self.overrides@ == rest);
                    assert forall|k: int| 0 <= k < rest.len() implies (#[trigger] rest[k]).0@
                        != target@ by {
                        if k >= i {
                            assert(rest[k] == before.overrides@[k + 1]);
                        } else {
                            assert(rest[k] == before.overrides@[k]);
                        }
                    }
                    assert forall|j: int, k: int| 0 <= j < k < rest.len() implies (
                    #[trigger] rest[j]).0@ != (#[trigger] rest[k]).0@ by {
                        let p = if j >= i {
                            j + 1
                        } else {
                            j
                        };
                        let q = if k >= i {
                            k + 1
                        } else {
                            k
                        };
                        assert(rest[j] == before.overrides@[p]);
                        assert(rest[k] == before.overrides@[q]);
                    }
                    assert(old(self).overrides@[i as int].0@ == target@);
                    override_is_unique(before.overrides@, i as int, target@);
                }
                return ;
            }
            i = i + 1;
        }
        proof {
            no_override(old(self).overrides@, target@);
        }
    }
}

/// The archive suffix of a `pkg-fmt` value. Without one, and for an unknown one, it is that
/// of a gzipped tarball.
pub open spec fn archive_suffix_of(pkg_fmt: Option<Seq<char>>, windows: bool) -> Seq<char> {
    if pkg_fmt == Some("txz"@) {
        ".tar.xz"@
    } else if pkg_fmt == Some("tzstd"@) {
        ".tar.zst"@
    } else if pkg_fmt == Some("tbz2"@) {
        ".tar.bz2"@
    } else if pkg_fmt == Some("zip"@) {
        ".zip"@
    } else if pkg_fmt == Some("bin"@) {
        if windows {
            ".exe"@
        } else {
            ""@
        }
    } else {
        ".tar.gz"@
    }
}

/// The name under which an archive of a `pkg-fmt` value is unpacked.
pub open spec fn archive_filename_of(pkg_fmt: Option<Seq<char>>) -> Seq<char> {
    if pkg_fmt == Some("txz"@) {
        "archive.tar.xz"@
    } else if pkg_fmt == Some("tzstd"@) {
        "archive.tar.zst"@
    } else if pkg_fmt == Some("tbz2"@) {
        "archive.tar.bz2"@
    } else if pkg_fmt == Some("zip"@) {
        "archive.zip"@
    } else if pkg_fmt == Some("bin"@) {
        "archive"@
    } else {
        "archive.tar.gz"@
    }
}

/// The view of an optional borrowed text.
pub open spec fn opt_str_view(text: Option<&str>) -> Option<Seq<char>> {
    match text {
        Some(t) => Some(t@),
        None => None,
    }
}

/// The archive suffix of a `pkg-fmt` value, on Windows or elsewhere.
pub fn archive_suffix(pkg_fmt: Option<&str>, windows: bool) -> (r: &'static str)
    ensures
        r@ == archive_suffix_of(opt_str_view(pkg_fmt), windows),
{
    match pkg_fmt {
        Some(fmt) => if same(fmt, "txz") {
            ".tar.xz"
        } else if same(fmt, "tzstd") {
            ".tar.zst"
        } else if same(fmt, "tbz2") {
            ".tar.bz2"
        } else if same(fmt, "zip") {
            ".zip"
        } else if same(fmt, "bin") {
            if windows {
                ".exe"
            } else {
                ""
            }
        } else {
            ".tar.gz"
        },
        None => ".tar.gz",
    }
}

/// The name under which an archive of a `pkg-fmt` value is unpacked. Its extension says how.
pub fn archive_filename(pkg_fmt: Option<&str>) -> (r: &'static str)
    ensures
        r@ == archive_filename_of(opt_str_view(pkg_fmt)),
{
    match pkg_fmt {
        Some(fmt) => if same(fmt, "txz") {
            "archive.tar.xz"
        } else if same(fmt, "tzstd") {
            "archive.tar.zst"
        } else if same(fmt, "tbz2") {
            "archive.tar.bz2"
        } else if same(fmt, "zip") {
            "archive.zip"
        } else if same(fmt, "bin") {
            "archive"
        } else {
            "archive.tar.gz"
        },
        None => "archive.tar.gz",
    }
}

/// What the placeholders of a template stand for.
#[derive(Clone, Copy, Debug)]
pub struct TemplateContext<'a> {
    pub name: &'a str,
    pub version: &'a str,
    pub target: &'a str,
    pub archive_suffix: &'a str,
    pub binary_ext: &'a str,
    pub bin: &'a str,
    pub repo: Option<&'a str>,
}

/// What a [`TemplateContext`] says.
pub struct TemplateView {
    pub name: Seq<char>,
    pub version: Seq<char>,
    pub target: Seq<char>,
    pub archive_suffix: Seq<char>,
    pub binary_ext: Seq<char>,
    pub bin: Seq<char>,
    pub repo: Option<Seq<char>>,
}

impl<'a> View for TemplateContext<'a> {
    type V = TemplateView;

    open spec fn view(&self) -> TemplateView {
        TemplateView {
            name: self.name@,
            version: self.version@,
            target: self.target@,
            archive_suffix: self.archive_suffix@,
            binary_ext: self.binary_ext@,
            bin: self.bin@,
            repo: opt_str_view(self.repo),
        }
    }
}

/// The template with each placeholder replaced by what it stands for, one kind of placeholder
/// after the other. Without a repository its placeholder stays.
pub open spec fn rendered(template: Seq<char>, ctx: TemplateView) -> Seq<char> {
    let t = replaced(template, "{ name }"@, ctx.name);
    let t = replaced(t, "{ version }"@, ctx.version);
    let t = replaced(t, "{ target }"@, ctx.target);
    let t = replaced(t, "{ archive-suffix }"@, ctx.archive_suffix);
    let t = replaced(t, "{ binary-ext }"@, ctx.binary_ext);
    let t = replaced(t, "{ bin }"@, ctx.bin);
    match ctx.repo {
        Some(repo) => replaced(t, "{ repo }"@, repo),
        None => t,
    }
}

/// Fill in a template.
pub fn render_template(template: &str, ctx: &TemplateContext<'_>) -> (r: String)
    ensures
        r@ == rendered(template@, ctx@),
{
    proof {
        reveal_strlit("{ name }");
        reveal_strlit("{ version }");
        reveal_strlit("{ target }");
        reveal_strlit("{ archive-suffix }");
        reveal_strlit("{ binary-ext }");
        reveal_strlit("{ bin }");
        reveal_strlit("{ repo }");
    }
    let t = replace_all(template, "{ name }", ctx.name);
    let t = replace_all(t.as_str(), "{ version }", ctx.version);
    let t = replace_all(t.as_str(), "{ target }", ctx.target);
    let t = replace_all(t.as_str(), "{ archive-suffix }", ctx.archive_suffix);
    let t = replace_all(t.as_str(), "{ binary-ext }", ctx.binary_ext);
    let t = replace_all(t.as_str(), "{ bin }", ctx.bin);
    match ctx.repo {
        Some(repo) => replace_all(t.as_str(), "{ repo }", repo),
        None => t,
    }
}

/// The repository of a crate: that of its forge, or what the registry says of it.
pub open spec fn repo_url_of(
    krate: ResolvedCrate,
    registry_url: Option<Seq<char>>,
) -> Option<Seq<char>> {
    match krate.source {
        ResolvedSource::Forge { forge: Forge::GitHub { custom_url, owner, repo }, .. } => Some(
            repository_url_of(custom_url, "https://github.com"@, owner@, repo@),
        ),
        ResolvedSource::Forge { forge: Forge::GitLab { custom_url, owner, repo }, .. } => Some(
            repository_url_of(custom_url, "https://gitlab.com"@, owner@, repo@),
        ),
        _ => if from_registry(krate) {
            registry_url
        } else {
            None
        },
    }
}

/// Binaries where the crate's own metadata says that they are.
#[derive(Clone, Debug, PartialEq, Eq)]
pub struct BinstallProvider {
    pub delivery: Delivery,
    pub windows: bool,
}

/// What an attempt waits for.
#[derive(Clone, Debug, PartialEq, Eq)]
pub enum BinstallPhase {
    /// What the manifest says.
    ReadingManifest,
    /// The repository of the crate.
    AskingRepository { template: String, pkg_fmt: Option<String> },
    /// The binary.
    Delivering(DeliveryPhase),
    /// Nothing: the attempt is over.
    Finished,
}

/// The event answers what the attempt waits for.
pub open spec fn answers(phase: BinstallPhase, event: Event) -> bool {
    match phase {
        BinstallPhase::ReadingManifest => event matches Event::Manifest(meta) && (match meta {
            Some(meta) => meta.wf(),
            None => true,
        }),
        BinstallPhase::AskingRepository { .. } => event is Repository,
        BinstallPhase::Delivering(inner) => delivery_answers(inner, event),
        BinstallPhase::Finished => false,
    }
}

/// The part of a step that belongs to the delivery.
pub open spec fn delivery_step(step: Step<BinstallPhase>) -> Step<DeliveryPhase> {
    Step { phase: step.phase->Delivering_0, messages: step.messages, action: step.action }
}

/// The attempt is over: there is no binary, for this reason.
pub open spec fn gives_up(step: Step<BinstallPhase>, reason: Seq<char>) -> bool {
    step.phase is Finished && no_binary(step, BinaryProvider::Binstall, reason)
}

/// The step starts an attempt, with what the manifest of the crate says.
pub open spec fn starts(request: Request, step: Step<BinstallPhase>) -> bool {
    &&& silent(step)
    &&& step.phase is ReadingManifest
    &&& step.action matches Action::ReadManifest { crate_path } && crate_path@
        == request.krate.crate_path@
}

impl BinstallProvider {
    /// What the placeholders stand for in a request.
    pub open spec fn context(
        self,
        request: Request,
        pkg_fmt: Option<String>,
        repo: Option<Seq<char>>,
    ) -> TemplateView {
        TemplateView {
            name: request.krate.resolved.name@,
            version: request.krate.resolved.version@,
            target: request.platform@,
            archive_suffix: archive_suffix_of(opt_view(pkg_fmt), self.windows),
            binary_ext: if self.windows {
                ".exe"@
            } else {
                ""@
            },
            bin: request.krate.resolved.name@,
            repo,
        }
    }

    /// The step downloads from where the template says.
    pub open spec fn follows(
        self,
        request: Request,
        template: String,
        pkg_fmt: Option<String>,
        repo: Option<Seq<char>>,
        step: Step<BinstallPhase>,
    ) -> bool {
        step.phase is Delivering && self.delivery.downloads(
            delivery_step(step),
            rendered(template@, self.context(request, pkg_fmt, repo)),
            archive_filename_of(opt_view(pkg_fmt)),
        )
    }

    /// What comes of an event in each phase.
    pub open spec fn steps(
        self,
        request: Request,
        phase: BinstallPhase,
        event: Event,
        step: Step<BinstallPhase>,
    ) -> bool {
        let krate = request.krate.resolved;
        match (phase, event) {
            (BinstallPhase::ReadingManifest, Event::Manifest(None)) => gives_up(
                step,
                "no [package.metadata.binstall] in Cargo.toml"@,
            ),
            (BinstallPhase::ReadingManifest, Event::Manifest(Some(meta))) => match meta.pkg_url_on(
                request.platform@,
            ) {
                None => gives_up(step, "binstall metadata has no pkg-url"@),
                Some(url) => if from_registry(krate) {
                    &&& silent(step)
                    &&& step.phase == (BinstallPhase::AskingRepository {
                        template: url,
                        pkg_fmt: meta.pkg_fmt_on(request.platform@),
                    })
                    &&& step.action == (Action::QueryRepository { krate: krate.name })
                } else {
                    self.follows(
                        request,
                        url,
                        meta.pkg_fmt_on(request.platform@),
                        repo_url_of(krate, None),
                        step,
                    )
                },
            },
            (
                BinstallPhase::AskingRepository { template, pkg_fmt },
                Event::Repository(registry_url),
            ) => self.follows(
                request,
                template,
                pkg_fmt,
                repo_url_of(krate, opt_view(registry_url)),
                step,
            ),
            (BinstallPhase::Delivering(inner), _) => step.phase is Delivering
                && self.delivery.steps(request, inner, event, delivery_step(step)),
            _ => false,
        }
    }

    /// The provider, with the directory for its binaries.
    pub fn new(
        cache_dir: JoinedPath,
        verify_checksums: bool,
        exe_suffix: String,
        windows: bool,
    ) -> (r: Self)
        ensures
            r.delivery.provider == BinaryProvider::Binstall,
            r.delivery.cache_dir == cache_dir,
            r.delivery.verify_checksums == verify_checksums,
            r.delivery.exe_suffix == exe_suffix,
            r.windows == windows,
    {
        BinstallProvider {
            delivery: Delivery::new(
                BinaryProvider::Binstall,
                cache_dir,
                verify_checksums,
                exe_suffix,
            ),
            windows,
        }
    }

    /// The repository of a crate, for the `{ repo }` placeholder. `registry_url` is what the
    /// registry says of it, for a crate that comes from one.
    pub fn get_repo_url(krate: &ResolvedCrate, registry_url: Option<String>) -> (r: Option<String>)
        ensures
            opt_view(r) == repo_url_of(*krate, opt_view(registry_url)),
    {
        match &krate.source {
            ResolvedSource::Forge { forge, .. } => match forge {
                Forge::GitHub { custom_url, owner, repo } => Some(
                    repository_url(custom_url, "https://github.com", owner.as_str(), repo.as_str()),
                ),
                Forge::GitLab { custom_url, owner, repo } => Some(
                    repository_url(custom_url, "https://gitlab.com", owner.as_str(), repo.as_str()),
                ),
            },
            ResolvedSource::CratesIo => registry_url,
            ResolvedSource::Registry { .. } => registry_url,
            _ => None,
        }
    }

    /// Whether the event answers what the attempt waits for.
    pub fn awaits(phase: &BinstallPhase, event: &Event) -> (r: bool)
        ensures
            r == answers(*phase, *event),
    {
        match (phase, event) {
            (BinstallPhase::ReadingManifest, Event::Manifest(Some(meta))) => meta.is_well_formed(),
            (BinstallPhase::ReadingManifest, Event::Manifest(None)) => true,
            (BinstallPhase::AskingRepository { .. }, Event::Repository(_)) => true,
            (BinstallPhase::Delivering(inner), _) => Delivery::awaits(inner, event),
            _ => false,
        }
    }

    fn give_up(reason: &str) -> (r: Step<BinstallPhase>)
        ensures
            gives_up(r, reason@),
    {
        let message = BinResolutionMessage::ProviderHasNoBinary {
            provider: BinaryProvider::Binstall,
            reason: reason.to_owned(),
        };
        Step {
            phase: BinstallPhase::Finished,
            messages: vec![message],
            action: Action::Finish(Ok(None)),
        }
    }

    fn deliver(step: Step<DeliveryPhase>) -> (r: Step<BinstallPhase>)
        ensures
            r.phase is Delivering,
            delivery_step(r) == step,
    {
        Step {
            phase: BinstallPhase::Delivering(step.phase),
            messages: step.messages,
            action: step.action,
        }
    }

    fn follow(
        &self,
        request: &Request,
        template: String,
        pkg_fmt: Option<String>,
        repo: Option<String>,
    ) -> (r: Step<BinstallPhase>)
        ensures
            self.follows(*request, template, pkg_fmt, opt_view(repo), r),
    {
        let fmt = as_str_opt(&pkg_fmt);
        let ctx = TemplateContext {
            name: request.krate.resolved.name.as_str(),
            version: request.krate.resolved.version.as_str(),
            target: request.platform.as_str(),
            archive_suffix: archive_suffix(fmt, self.windows),
            binary_ext: if self.windows {
                ".exe"
            } else {
                ""
            },
            bin: request.krate.resolved.name.as_str(),
            repo: as_str_opt(&repo),
        };
        let url = render_template(template.as_str(), &ctx);
        Self::deliver(self.delivery.start(url, archive_filename(fmt)))
    }

    /// Start to look for a binary of a crate, with what its manifest says.
    pub fn try_resolve(&self, request: &Request) -> (r: Step<BinstallPhase>)
        ensures
            starts(*request, r),
    {
        Step {
            phase: BinstallPhase::ReadingManifest,
            messages: Vec::new(),
            action: Action::ReadManifest { crate_path: request.krate.crate_path.copied() },
        }
    }

    /// Go on with an attempt once the last action is over.
    pub fn next(&self, request: &Request, phase: BinstallPhase, event: Event) -> (r: Step<
        BinstallPhase,
    >)
        requires
            answers(phase, event),
        ensures
            self.steps(*request, phase, event, r),
    {
        let krate = &request.krate.resolved;
        match phase {
            BinstallPhase::ReadingManifest => match event {
                Event::Manifest(Some(meta)) => {
                    let mut meta = meta;
                    meta.merge_overrides(request.platform.as_str());
                    match meta.pkg_url {
                        Some(template) => if needs_registry_lookup(krate) {
                            Step {
                                phase: BinstallPhase::AskingRepository {
                                    template,
                                    pkg_fmt: meta.pkg_fmt,
                                },
                                messages: Vec::new(),
                                action: Action::QueryRepository { krate: krate.name.clone() },
                            }
                        } else {
                            self.follow(
                                request,
                                template,
                                meta.pkg_fmt,
                                Self::get_repo_url(krate, None),
                            )
                        },
                        None => Self::give_up("binstall metadata has no pkg-url"),
                    }
                },
                Event::Manifest(None) => Self::give_up(
                    "no [package.metadata.binstall] in Cargo.toml",
                ),
                _ => unreached(),
            },
            BinstallPhase::AskingRepository { template, pkg_fmt } => match event {
                Event::Repository(registry_url) => self.follow(
                    request,
                    template,
                    pkg_fmt,
                    Self::get_repo_url(krate, registry_url),
                ),
                _ => unreached(),
            },
            BinstallPhase::Delivering(inner) => Self::deliver(
                self.delivery.next(request, inner, event),
            ),
            BinstallPhase::Finished => unreached(),
        }
    }
}

fn as_str_opt(text: &Option<String>) -> (r: Option<&str>)
    ensures
        opt_str_view(r) == opt_view(*text),
{
    match text {
        Some(t) => Some(t.as_str()),
        None => None,
    }
}

/// The template holds none of the placeholders that the context fills in.
pub open spec fn without_placeholders(template: Seq<char>, ctx: TemplateView) -> bool {
    &&& !contains_text(template, "{ name }"@)
    &&& !contains_text(template, "{ version }"@)
    &&& !contains_text(template, "{ target }"@)
    &&& !contains_text(template, "{ archive-suffix }"@)
    &&& !contains_text(template, "{ binary-ext }"@)
    &&& !contains_text(template, "{ bin }"@)
    &&& ctx.repo is Some ==> !contains_text(template, "{ repo }"@)
}

/// A template without placeholders is rendered as it stands. In particular the placeholder
/// of the repository stays where no repository is known.
pub proof fn plain_templates_stay(template: Seq<char>, ctx: TemplateView)
    requires
        without_placeholders(template, ctx),
    ensures
        rendered(template, ctx) == template,
{
    replaced_absent(template, "{ name }"@, ctx.name);
    replaced_absent(template, "{ version }"@, ctx.version);
    replaced_absent(template, "{ target }"@, ctx.target);
    replaced_absent(template, "{ archive-suffix }"@, ctx.archive_suffix);
    replaced_absent(template, "{ binary-ext }"@, ctx.binary_ext);
    replaced_absent(template, "{ bin }"@, ctx.bin);
    if ctx.repo is Some {
        replaced_absent(template, "{ repo }"@, ctx.repo->Some_0);
    }
}

/// How far an attempt has come.
pub open spec fn progress(phase: BinstallPhase) -> nat {
    match phase {
        BinstallPhase::ReadingManifest => 0,
        BinstallPhase::AskingRepository { .. } => 1,
        BinstallPhase::Delivering(inner) => 2 + delivery_progress(inner),
        BinstallPhase::Finished => 6,
    }
}

/// Every step brings an attempt further, so it ends after six answers at most.
pub proof fn attempts_come_to_an_end(
    provider: BinstallProvider,
    request: Request,
    phase: BinstallPhase,
    event: Event,
    step: Step<BinstallPhase>,
)
    requires
        provider.steps(request, phase, event, step),
    ensures
        progress(phase) < progress(step.phase) <= 6,
{
}

}
