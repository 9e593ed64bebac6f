//! What the user asks to run, and the forges that host it.
use vstd::prelude::*;
use vstd::string::*;

use crate::providers::{repository_url, repository_url_of};
use crate::text::{clone_opt, has_suffix, pieces, same, split, strip_suffix, views};
use crate::urls::{parse_url, url_of, ParsedUrl, UrlView};

verus! {

/// A branch, a tag or a commit of a git repository.
#[derive(Debug, PartialEq, Eq, Hash)]
pub enum GitSelector {
    /// Whatever the remote's `HEAD` names.
    DefaultBranch,
    /// The tip of a branch.
    Branch(String),
    /// A tag.
    Tag(String),
    /// A commit, by its hash.
    Commit(String),
}

impl Clone for GitSelector {
    fn clone(&self) -> (r: Self)
        ensures
            r == *self,
    {
        match self {
            GitSelector::DefaultBranch => GitSelector::DefaultBranch,
            GitSelector::Branch(b) => GitSelector::Branch(b.clone()),
            GitSelector::Tag(t) => GitSelector::Tag(t.clone()),
            GitSelector::Commit(c) => GitSelector::Commit(c.clone()),
        }
    }
}

/// How a registry is identified.
#[derive(Debug, PartialEq, Eq, Hash)]
pub enum RegistrySource {
    /// A named registry configured in `.cargo/config.toml` (corresponds to `--registry`).
    Named(String),
    /// A registry index URL, in its normalised text (corresponds to `--index`).
    IndexUrl(String),
}

impl Clone for RegistrySource {
    fn clone(&self) -> (r: Self)
        ensures
            r == *self,
    {
        match self {
            RegistrySource::Named(n) => RegistrySource::Named(n.clone()),
            RegistrySource::IndexUrl(u) => RegistrySource::IndexUrl(u.clone()),
        }
    }
}

/// A repository in a supported software forge.
#[derive(Debug, PartialEq, Eq, Hash)]
pub enum Forge {
    GitHub {
        /// Base URL of a GitHub Enterprise instance; `None` for github.com.
        custom_url: Option<String>,
        owner: String,
        repo: String,
    },
    GitLab {
        /// Base URL of a self-hosted GitLab instance; `None` for gitlab.com.
        custom_url: Option<String>,
        owner: String,
        repo: String,
    },
}

impl Clone for Forge {
    fn clone(&self) -> (r: Self)
        ensures
            r == *self,
    {
        match self {
            Forge::GitHub { custom_url, owner, repo } => Forge::GitHub {
                custom_url: clone_opt(custom_url),
                owner: owner.clone(),
                repo: repo.clone(),
            },
            Forge::GitLab { custom_url, owner, repo } => Forge::GitLab {
                custom_url: clone_opt(custom_url),
                owner: owner.clone(),
                repo: repo.clone(),
            },
        }
    }
}

/// A crate that the user wants to run. Where it comes from a registry, the version chooses
/// among those that the registry has; everywhere else it is checked against the one found.
///
/// A version is a requirement, in the text that it is printed in.
#[derive(Debug, PartialEq, Eq, Hash)]
pub enum CrateSpec {
    /// A crate on crates.io.
    CratesIo { name: String, version: Option<String> },
    /// A crate in another registry.
    Registry { source: RegistrySource, name: String, version: Option<String> },
    /// A crate in a git repository. Without a name the repository has to hold exactly one.
    Git {
        repo: String,
        selector: GitSelector,
        name: Option<String>,
        version: Option<String>,
    },
    /// A crate in a repository of a software forge. Without a name the repository has to
    /// hold exactly one.
    Forge {
        forge: Forge,
        selector: GitSelector,
        name: Option<String>,
        version: Option<String>,
    },
    /// A crate in a local directory. Without a name the directory has to hold exactly one.
    LocalDir { path: String, name: Option<String>, version: Option<String> },
}

/// The parts that are not empty.
pub open spec fn nonempty_parts(parts: Seq<Seq<char>>) -> Seq<Seq<char>>
    decreases parts.len(),
{
    if parts.len() == 0 {
        Seq::empty()
    } else {
        let before = nonempty_parts(parts.drop_last());
        if parts.last().len() == 0 {
            before
        } else {
            before.push(parts.last())
        }
    }
}

/// The text without one `.git` at its end.
pub open spec fn without_dot_git(text: Seq<char>) -> Seq<char> {
    if has_suffix(text, ".git"@) {
        text.take(text.len() - 4)
    } else {
        text
    }
}

/// The host, owner and repository that an HTTPS URL of the root of a repository names.
pub open spec fn repository_in(url: UrlView) -> Option<(Seq<char>, Seq<char>, Seq<char>)> {
    let segments = nonempty_parts(pieces(url.path, '/'));
    match url.host {
        Some(host) => if url.scheme == "https"@ && segments.len() == 2 {
            Some((host, segments[0], without_dot_git(segments[1])))
        } else {
            None
        },
        None => None,
    }
}

/// The forge is the repository of that owner and name at a public forge.
pub open spec fn is_public(
    forge: Option<Forge>,
    location: Option<(Seq<char>, Seq<char>, Seq<char>)>,
) -> bool {
    match location {
        Some((host, o, n)) => if host == "github.com"@ {
            forge matches Some(Forge::GitHub { custom_url: None, owner, repo }) && owner@ == o
                && repo@ == n
        } else if host == "gitlab.com"@ {
            forge matches Some(Forge::GitLab { custom_url: None, owner, repo }) && owner@ == o
                && repo@ == n
        } else {
            forge is None
        },
        None => forge is None,
    }
}

/// The URL that a repository of a forge is cloned from.
pub open spec fn git_url_of(forge: Forge) -> Seq<char> {
    match forge {
        Forge::GitHub { custom_url, owner, repo } => repository_url_of(
            custom_url,
            "https://github.com"@,
            owner@,
            repo@,
        ) + ".git"@,
        Forge::GitLab { custom_url, owner, repo } => repository_url_of(
            custom_url,
            "https://gitlab.com"@,
            owner@,
            repo@,
        ) + ".git"@,
    }
}

fn keep_nonempty(parts: Vec<String>) -> (r: Vec<String>)
    ensures
        views(r@) == nonempty_parts(views(parts@)),
{
    let mut r: Vec<String> = Vec::new();
    let mut i: usize = 0;
    let ghost all = views(parts@);
    assert(views(r@) =~= nonempty_parts(all.take(0)));
    while i < parts.len()
        invariant
            i <= parts.len(),
            all == views(parts@),
            views(r@) == nonempty_parts(all.take(i as int)),
        decreases parts.len() - i,
    {
        assert(all.take(i + 1).drop_last() =~= all.take(i as int));
        if !parts[i].as_str().is_empty() {
            let ghost before = r@;
            let part = parts[i].clone();
            r.push(part);
            assert(views(r@) =~= views(before).push(part@));
        }
        i = i + 1;
    }
    assert(all.take(i as int) =~= all);
    r
}

impl Forge {
    /// The repository that a URL names, where that is the root of a repository at github.com
    /// or gitlab.com, reached over HTTPS.
    pub fn from_url(url: &ParsedUrl) -> (r: Option<Forge>)
        ensures
            is_public(r, repository_in(url@)),
    {
        if !same(url.scheme.as_str(), "https") {
            return None;
        }
        let host = match &url.host {
            Some(host) => host,
            None => {
                return None;
            },
        };
        let mut segments = keep_nonempty(split(url.path.as_str(), '/'));
        assert(views(segments@).len() == segments@.len());
        if segments.len() != 2 {
            return None;
        }
        assert(views(segments@)[0] == segments@[0]@);
        assert(views(segments@)[1] == segments@[1]@);
        let last = segments.remove(1);
        let owner = segments.remove(0);
        proof {
            reveal_strlit(".git");
        }
        let repo = match strip_suffix(last.as_str(), ".git") {
            Some(repo) => repo,
            None => last,
        };
        if same(host.as_str(), "github.com") {
            Some(Forge::GitHub { custom_url: None, owner, repo })
        } else if same(host.as_str(), "gitlab.com") {
            Some(Forge::GitLab { custom_url: None, owner, repo })
        } else {
            None
        }
    }

    /// The repository that the text of a URL names. A known forge is worth recognising: its
    /// releases can be searched for binaries.
    pub fn try_parse_from_url(git_url: &str) -> (r: Option<Forge>)
        ensures
            match url_of(git_url@) {
                Ok(url) => is_public(r, repository_in(url)),
                Err(_) => r is None,
            },
    {
        match parse_url(git_url) {
            Ok(url) => Forge::from_url(&url),
            Err(_) => None,
        }
    }

    /// The URL that the repository is cloned from.
    pub fn git_url(&self) -> (r: String)
        ensures
            r@ == git_url_of(*self),
    {
        match self {
            Forge::GitHub { custom_url, owner, repo } => repository_url(
                custom_url,
                "https://github.com",
                owner.as_str(),
                repo.as_str(),
            ).concat(".git"),
            Forge::GitLab { custom_url, owner, repo } => repository_url(
                custom_url,
                "https://gitlab.com",
                owner.as_str(),
                repo.as_str(),
            ).concat(".git"),
        }
    }
}

proof fn pieces_after_separator(head: Seq<char>, tail: Seq<char>, separator: char)
    requires
        !tail.contains(separator),
    ensures
        pieces(head.push(separator) + tail, separator) == pieces(head, separator).push(tail),
    decreases tail.len(),
{
    let text = head.push(separator) + tail;
    if tail.len() == 0 {
        assert(text =~= head.push(separator));
        assert(head.push(separator).drop_last() =~= head);
        assert(tail =~= Seq::empty());
    } else {
        let cut = tail.drop_last();
        assert(tail[tail.len() - 1] != separator);
        assert forall|i: int| 0 <= i < cut.len() implies cut[i] != separator by {
            assert(tail[i] != separator);
        }
        pieces_after_separator(head, cut, separator);
        assert(text.drop_last() =~= head.push(separator) + cut);
        assert(text.last() == tail.last());
        assert(cut.push(tail.last()) =~= tail);
        let before = pieces(head, separator).push(cut);
        assert(before.drop_last() =~= pieces(head, separator));
    }
}

/// The path of a repository's clone URL names the repository again: taking a URL apart undoes
/// putting it together.
pub proof fn clone_paths_name_their_repository(
    host: Seq<char>,
    owner: Seq<char>,
    repo: Seq<char>,
    url: UrlView,
)
    requires
        owner.len() > 0,
        repo.len() > 0,
        !owner.contains('/'),
        !repo.contains('/'),
        url.scheme == "https"@,
        url.host == Some(host),
        url.path == "/"@ + owner + "/"@ + repo + ".git"@,
    ensures
        repository_in(url) == Some((host, owner, repo)),
{
    reveal_strlit("/");
    reveal_strlit(".git");
    let last = repo + ".git"@;
    assert("/"@ =~= seq!['/']);
    let head = Seq::<char>::empty();
    let middle = head.push('/') + owner;
    assert(url.path =~= middle.push('/') + last);
    assert(!last.contains('/')) by {
        assert forall|i: int| 0 <= i < last.len() implies last[i] != '/' by {
            if i < repo.len() {
                assert(last[i] == repo[i]);
                assert(repo.contains(repo[i]));
            }
        }
    }
    pieces_after_separator(middle, last, '/');
    pieces_after_separator(head, owner, '/');
    let all = pieces(url.path, '/');
    assert(all =~= seq![head, owner, last]);
    let e = Seq::<Seq<char>>::empty();
    assert(all.drop_last() =~= seq![head, owner]);
    assert(all.drop_last().drop_last() =~= seq![head]);
    assert(all.drop_last().drop_last().drop_last() =~= e);
    reveal_with_fuel(nonempty_parts, 4);
    assert(nonempty_parts(all) =~= seq![owner, last]);
    assert(last.subrange(last.len() - 4, last.len() as int) =~= ".git"@);
    assert(last.take(last.len() - 4) =~= repo);
}

}
