//! Git repositories: bare clones, one for each URL, and working trees, one for each commit.
use vstd::prelude::*;
use vstd::string::*;
use vstd::utf8::encode_utf8;

use crate::ca_bootstrap;
use crate::config::HttpConfig;
use crate::digest::is_hex_digit;
pub use crate::cratespec::GitSelector;
use crate::paths::{shown_of, JoinedPath, PathView};
use crate::text::{contains, contains_text, decimal, decimal_of, views};

verus! {

/// Why a git operation failed.
#[derive(Clone, Debug, PartialEq, Eq)]
pub enum Error {
    /// The text is not the hash of a commit.
    InvalidCommitHash { hash: String },
    /// The bare repository could not be made.
    InitBareRepo { path: JoinedPath, reason: String },
    /// The repository could not be opened.
    OpenRepo { path: JoinedPath, reason: String },
    /// The selector names nothing in the repository.
    ResolveSelector { message: String, reason: String },
    /// The fetch failed.
    FetchRef {
        url: String,
        /// The transport says that the failure may pass.
        spurious: bool,
        /// What the I/O errors behind the failure say, the outermost first.
        io_messages: Vec<String>,
        reason: String,
    },
    /// The network is needed and may not be used.
    Offline { url: String },
    /// There is no certificate bundle for the remote.
    LinuxHttpsTrustBootstrap { url: String, source: ca_bootstrap::Error },
    /// A setting for the transport was refused.
    HttpConfigOverride { key: String, reason: String },
    /// The working tree could not be written.
    CheckoutFromDb { path: JoinedPath, reason: String },
    /// A directory could not be made.
    CreateDirectory { path: JoinedPath, reason: String },
    /// The marker of a complete working tree could not be written.
    WriteMarkerFile { path: JoinedPath, reason: String },
}

impl Error {
    /// The error in words.
    pub open spec fn text(self) -> Seq<char> {
        match self {
            Error::InvalidCommitHash { hash } => "Git commit hash is invalid: "@ + hash@,
            Error::InitBareRepo { path, .. } => {
                "Failed to initialize bare repository at "@ + shown_of(path@)
            },
            Error::OpenRepo { path, .. } => "Failed to open git repository at "@ + shown_of(path@),
            Error::ResolveSelector { message, .. } => {
                "Failed to resolve git selector: "@ + message@
            },
            Error::FetchRef { url, .. } => "Failed to fetch ref from '"@ + url@ + "'"@,
            Error::Offline { url } => {
                "Cannot fetch from '"@ + url@ + "': network required but offline mode enabled"@
            },
            Error::LinuxHttpsTrustBootstrap { url, .. } => {
                "Failed to prepare Linux HTTPS trust bootstrap for '"@ + url@ + "'"@
            },
            Error::HttpConfigOverride { key, .. } => {
                "Failed to build git HTTP config override for "@ + key@
            },
            Error::CheckoutFromDb { path, .. } => {
                "Failed to checkout from database to "@ + shown_of(path@)
            },
            Error::CreateDirectory { path, .. } => {
                "Failed to create git directory at "@ + shown_of(path@)
            },
            Error::WriteMarkerFile { path, .. } => {
                "Failed to write marker file at "@ + shown_of(path@)
            },
        }
    }

    /// What was behind the error, as it was reported, the outermost first.
    pub open spec fn reasons(self) -> Seq<Seq<char>> {
        match self {
            Error::InvalidCommitHash { .. } => Seq::empty(),
            Error::Offline { .. } => Seq::empty(),
            Error::LinuxHttpsTrustBootstrap { source, .. } => seq![source.text()]
                + source.reasons(),
            Error::InitBareRepo { reason, .. } => seq![reason@],
            Error::OpenRepo { reason, .. } => seq![reason@],
            Error::ResolveSelector { reason, .. } => seq![reason@],
            Error::FetchRef { reason, .. } => seq![reason@],
            Error::HttpConfigOverride { reason, .. } => seq![reason@],
            Error::CheckoutFromDb { reason, .. } => seq![reason@],
            Error::CreateDirectory { reason, .. } => seq![reason@],
            Error::WriteMarkerFile { reason, .. } => seq![reason@],
        }
    }

    /// The error in words.
    pub fn message(&self) -> (r: String)
        ensures
            r@ == self.text(),
    {
        match self {
            Error::InvalidCommitHash { hash } => {
                "Git commit hash is invalid: ".to_owned().concat(hash.as_str())
            },
            Error::InitBareRepo { path, .. } => {
                "Failed to initialize bare repository at ".to_owned()
                .concat(path.shown().as_str())
            },
            Error::OpenRepo { path, .. } => {
                "Failed to open git repository at ".to_owned().concat(path.shown().as_str())
            },
            Error::ResolveSelector { message, .. } => {
                "Failed to resolve git selector: ".to_owned().concat(message.as_str())
            },
            Error::FetchRef { url, .. } => {
                "Failed to fetch ref from '".to_owned().concat(url.as_str()).concat("'")
            },
            Error::Offline { url } => "Cannot fetch from '".to_owned().concat(url.as_str())
                .concat("': network required but offline mode enabled"),
            Error::LinuxHttpsTrustBootstrap { url, .. } => {
                "Failed to prepare Linux HTTPS trust bootstrap for '".to_owned()
                .concat(url.as_str()).concat("'")
            },
            Error::HttpConfigOverride { key, .. } => {
                "Failed to build git HTTP config override for ".to_owned().concat(key.as_str())
            },
            Error::CheckoutFromDb { path, .. } => {
                "Failed to checkout from database to ".to_owned().concat(path.shown().as_str())
            },
            Error::CreateDirectory { path, .. } => {
                "Failed to create git directory at ".to_owned().concat(path.shown().as_str())
            },
            Error::WriteMarkerFile { path, .. } => {
                "Failed to write marker file at ".to_owned().concat(path.shown().as_str())
            },
        }
    }

    /// What was behind the error, as it was reported, the outermost first.
    pub fn causes(&self) -> (r: Vec<String>)
        ensures
            views(r@) == self.reasons(),
    {
        let mut r: Vec<String> = Vec::new();
        match self {
            Error::InvalidCommitHash { .. } => {},
            Error::Offline { .. } => {},
            Error::LinuxHttpsTrustBootstrap { source, .. } => {
                r = source.causes();
                let ghost inner = r@;
                let outer = source.message();
                r.insert(0, outer);
                assert(views(r@) =~= seq![outer@] + views(inner));
            },
            Error::InitBareRepo { reason, .. } => {
                r.push(reason.clone());
            },
            Error::OpenRepo { reason, .. } => {
                r.push(reason.clone());
            },
            Error::ResolveSelector { reason, .. } => {
                r.push(reason.clone());
            },
            Error::FetchRef { reason, .. } => {
                r.push(reason.clone());
            },
            Error::HttpConfigOverride { reason, .. } => {
                r.push(reason.clone());
            },
            Error::CheckoutFromDb { reason, .. } => {
                r.push(reason.clone());
            },
            Error::CreateDirectory { reason, .. } => {
                r.push(reason.clone());
            },
            Error::WriteMarkerFile { reason, .. } => {
                r.push(reason.clone());
            },
        }
        assert(views(r@) =~= self.reasons());
        r
    }
}

/// The text is the hexadecimal form of an object's hash.
pub uninterp spec fn object_id_valid(text: Seq<u8>) -> bool;

/// A digit of hexadecimal in either case.
pub open spec fn is_any_hex_digit(b: u8) -> bool {
    0x30 <= b <= 0x39 || 0x41 <= b <= 0x46 || 0x61 <= b <= 0x66
}

/// Calls `gix::ObjectId::from_hex` and says whether it succeeded. The verdict is named
/// [`object_id_valid`]. Forty bytes are a hash exactly where all are hexadecimal digits; what is
/// neither forty nor sixty-four bytes long never is one.
#[verifier::external_body]
pub(crate) fn is_object_id(text: &str) -> (r: bool)
    ensures
        r == object_id_valid(encode_utf8(text@)),
        encode_utf8(text@).len() == 40 ==> r == (forall|i: int|
            0 <= i < 40 ==> is_any_hex_digit(#[trigger] encode_utf8(text@)[i])),
        encode_utf8(text@).len() != 40 && encode_utf8(text@).len() != 64 ==> !r,
{
    gix::ObjectId::from_hex(text.as_bytes()).is_ok()
}

/// Calls `validated_assignment_fmt` of the key `gix::config::tree::Http::SSL_CA_INFO`, which
/// takes any path. The contract claims that it succeeds and what it assigns.
#[verifier::external_body]
pub(crate) fn ssl_ca_info_assignment(path: &str) -> (r: Result<String, String>)
    ensures
        match r {
            Ok(assignment) => assignment@ == "http.sslCAInfo="@ + path@,
            Err(_) => false,
        },
{
    match gix::config::tree::Key::validated_assignment_fmt(
        &gix::config::tree::Http::SSL_CA_INFO,
        &path,
    ) {
        Ok(assignment) => Ok(assignment.to_string()),
        Err(error) => Err(error.to_string()),
    }
}

/// The fetch failed with the status that asks for a pause.
pub open spec fn says_too_many_requests(message: Seq<char>) -> bool {
    contains_text(message, "Received HTTP status 429"@)
}

/// A failed fetch is worth another try: the transport says so, or the server asked for a
/// pause.
pub open spec fn retryable(error: Error) -> bool {
    match error {
        Error::FetchRef { spurious, io_messages, .. } => spurious || exists|i: int|
            0 <= i < io_messages@.len() && says_too_many_requests((#[trigger] io_messages@[i])@),
        _ => false,
    }
}

fn any_asks_for_a_pause(messages: &Vec<String>) -> (r: bool)
    ensures
        r == exists|i: int|
            0 <= i < messages@.len() && says_too_many_requests((#[trigger] messages@[i])@),
{
    let mut i: usize = 0;
    while i < messages.len()
        invariant
            i <= messages.len(),
            forall|k: int| 0 <= k < i ==> !says_too_many_requests((#[trigger] messages@[k])@),
        decreases messages.len() - i,
    {
        if contains(messages[i].as_str(), "Received HTTP status 429") {
            assert(says_too_many_requests(messages@[i as int]@));
            return true;
        }
        i = i + 1;
    }
    false
}

/// Whether a failed fetch is worth another try. Only fetches are tried again.
pub fn is_retryable_error(e: &Error) -> (r: bool)
    ensures
        r == retryable(*e),
{
    match e {
        Error::FetchRef { spurious, io_messages, .. } => *spurious || any_asks_for_a_pause(
            io_messages,
        ),
        _ => false,
    }
}

/// What is fetched for a selector. Only a full commit hash is asked for by itself; a short one
/// is looked for in the history of the default branch.
pub open spec fn refspec_of(selector: GitSelector) -> Seq<char> {
    match selector {
        GitSelector::DefaultBranch => "+HEAD:refs/remotes/origin/HEAD"@,
        GitSelector::Branch(b) => "+refs/heads/"@ + b@ + ":refs/remotes/origin/"@ + b@,
        GitSelector::Tag(t) => "+refs/tags/"@ + t@ + ":refs/remotes/origin/tags/"@ + t@,
        GitSelector::Commit(c) => if encode_utf8(c@).len() == 40 {
            "+"@ + c@ + ":refs/commit/"@ + c@
        } else {
            "+HEAD:refs/remotes/origin/HEAD"@
        },
    }
}

/// What is fetched for a selector.
pub fn refspec(selector: &GitSelector) -> (r: String)
    ensures
        r@ == refspec_of(*selector),
{
    match selector {
        GitSelector::DefaultBranch => "+HEAD:refs/remotes/origin/HEAD".to_owned(),
        GitSelector::Branch(b) => "+refs/heads/".to_owned().concat(b.as_str()).concat(
            ":refs/remotes/origin/",
        ).concat(b.as_str()),
        GitSelector::Tag(t) => "+refs/tags/".to_owned().concat(t.as_str()).concat(
            ":refs/remotes/origin/tags/",
        ).concat(t.as_str()),
        GitSelector::Commit(c) => if c.as_str().as_bytes().len() == 40 {
            "+".to_owned().concat(c.as_str()).concat(":refs/commit/").concat(c.as_str())
        } else {
            "+HEAD:refs/remotes/origin/HEAD".to_owned()
        },
    }
}

/// How a selector is looked up in a bare repository.
#[derive(Clone, Debug, PartialEq, Eq)]
pub enum Lookup {
    /// By the reference of this name, peeled to a commit.
    Reference(String),
    /// By the revision of this name, which may be a short hash.
    Revision(String),
}

/// How the lookup of a selector went.
#[derive(Clone, Debug, PartialEq, Eq)]
pub enum LookupOutcome {
    /// The repository could not be opened.
    NotOpened(String),
    /// There is no such reference or revision.
    NotFound(String),
    /// The reference or revision leads to no object.
    NotPeeled(String),
    /// The hash of the commit, as its bytes.
    Found(Vec<u8>),
}

/// The number of bytes in the hash of a commit.
pub const HASH_LENGTH: usize = 20;

/// The hexadecimal digit for a number below sixteen.
pub open spec fn hex_digit(n: int) -> char {
    "0123456789abcdef"@[n]
}

/// The bytes in hexadecimal, two digits each.
pub open spec fn hex_of(bytes: Seq<u8>) -> Seq<char>
    decreases bytes.len(),
{
    if bytes.len() == 0 {
        Seq::empty()
    } else {
        hex_of(bytes.drop_last()).push(hex_digit((bytes.last() / 16) as int)).push(
            hex_digit((bytes.last() % 16) as int),
        )
    }
}

/// The text is the full hash of a commit: forty lowercase hexadecimal digits.
pub open spec fn is_commit_hash(text: Seq<char>) -> bool {
    text.len() == 2 * HASH_LENGTH && forall|i: int|
        0 <= i < text.len() ==> is_hex_digit(#[trigger] text[i])
}

/// The bytes in hexadecimal, two digits each.
pub fn hex(bytes: &Vec<u8>) -> (r: String)
    ensures
        r@ == hex_of(bytes@),
{
    let digits = "0123456789abcdef";
    let mut r = "".to_owned();
    proof {
        reveal_strlit("");
        reveal_strlit("0123456789abcdef");
        assert(r@ =~= hex_of(bytes@.take(0)));
    }
    let mut i: usize = 0;
    while i < bytes.len()
        invariant
            i <= bytes.len(),
            digits@ == "0123456789abcdef"@,
            digits@.len() == 16,
            r@ == hex_of(bytes@.take(i as int)),
        decreases bytes.len() - i,
    {
        let high: usize = (bytes[i] / 16) as usize;
        let low: usize = (bytes[i] % 16) as usize;
        let first = digits.substring_char(high, high + 1);
        let second = digits.substring_char(low, low + 1);
        let ghost before = r@;
        r = r.concat(first).concat(second);
        proof {
            assert(bytes@.take(i + 1).drop_last() =~= bytes@.take(i as int));
            assert(r@ =~= before.push(hex_digit(high as int)).push(hex_digit(low as int)));
        }
        i = i + 1;
    }
    assert(bytes@.take(i as int) =~= bytes@);
    r
}

proof fn hex_is_hex(bytes: Seq<u8>)
    ensures
        hex_of(bytes).len() == 2 * bytes.len(),
        forall|i: int| 0 <= i < hex_of(bytes).len() ==> is_hex_digit(#[trigger] hex_of(bytes)[i]),
    decreases bytes.len(),
{
    reveal_strlit("0123456789abcdef");
    if bytes.len() > 0 {
        let before = hex_of(bytes.drop_last());
        hex_is_hex(bytes.drop_last());
        assert forall|i: int| 0 <= i < hex_of(bytes).len() implies is_hex_digit(
            #[trigger] hex_of(bytes)[i],
        ) by {
            if i < before.len() {
                assert(hex_of(bytes)[i] == before[i]);
            }
        }
    }
}

/// A hash of a commit in hexadecimal is forty lowercase digits.
pub proof fn hashes_have_forty_digits(bytes: Seq<u8>)
    requires
        bytes.len() == HASH_LENGTH,
    ensures
        is_commit_hash(hex_of(bytes)),
{
    hex_is_hex(bytes);
}

/// How a selector is looked up.
pub fn lookup(selector: &GitSelector) -> (r: Lookup)
    ensures
        lookup_is(r, *selector),
{
    match selector {
        GitSelector::DefaultBranch => Lookup::Reference("refs/remotes/origin/HEAD".to_owned()),
        GitSelector::Branch(b) => Lookup::Reference(
            "refs/remotes/origin/".to_owned().concat(b.as_str()),
        ),
        GitSelector::Tag(t) => Lookup::Reference(
            "refs/remotes/origin/tags/".to_owned().concat(t.as_str()),
        ),
        GitSelector::Commit(c) => Lookup::Revision(c.clone()),
    }
}

/// The lookup is the one for the selector: branches and tags by the references that a fetch
/// of them writes, commits as revisions.
pub open spec fn lookup_is(lookup: Lookup, selector: GitSelector) -> bool {
    match selector {
        GitSelector::DefaultBranch => lookup matches Lookup::Reference(name) && name@
            == "refs/remotes/origin/HEAD"@,
        GitSelector::Branch(b) => lookup matches Lookup::Reference(name) && name@
            == "refs/remotes/origin/"@ + b@,
        GitSelector::Tag(t) => lookup matches Lookup::Reference(name) && name@
            == "refs/remotes/origin/tags/"@ + t@,
        GitSelector::Commit(c) => lookup == Lookup::Revision(c),
    }
}

/// The refspec writes what it fetches to the reference of that name.
pub open spec fn writes_to(refspec: Seq<char>, name: Seq<char>) -> bool {
    exists|source: Seq<char>| refspec == "+"@ + #[trigger] (source + ":"@) + name
}

/// A branch, a tag and the default branch are looked up under the very reference to which a
/// fetch of them writes.
pub proof fn lookups_read_what_fetches_write(selector: GitSelector, lookup: Lookup)
    requires
        lookup_is(lookup, selector),
    ensures
        lookup matches Lookup::Reference(name) ==> writes_to(refspec_of(selector), name@),
        lookup is Reference <==> !(selector is Commit),
{
    reveal_strlit("+");
    reveal_strlit(":");
    match selector {
        GitSelector::DefaultBranch => {
            reveal_strlit("+HEAD:refs/remotes/origin/HEAD");
            reveal_strlit("HEAD");
            reveal_strlit("refs/remotes/origin/HEAD");
            assert(refspec_of(selector) =~= "+"@ + ("HEAD"@ + ":"@) + "refs/remotes/origin/HEAD"@);
        },
        GitSelector::Branch(b) => {
            reveal_strlit("+refs/heads/");
            reveal_strlit(":refs/remotes/origin/");
            reveal_strlit("refs/heads/");
            reveal_strlit("refs/remotes/origin/");
            assert(refspec_of(selector) =~= "+"@ + (("refs/heads/"@ + b@) + ":"@) + (
            "refs/remotes/origin/"@ + b@));
        },
        GitSelector::Tag(t) => {
            reveal_strlit("+refs/tags/");
            reveal_strlit(":refs/remotes/origin/tags/");
            reveal_strlit("refs/tags/");
            reveal_strlit("refs/remotes/origin/tags/");
            assert(refspec_of(selector) =~= "+"@ + (("refs/tags/"@ + t@) + ":"@) + (
            "refs/remotes/origin/tags/"@ + t@));
        },
        GitSelector::Commit(_) => {},
    }
}

/// What is said of a selector that names nothing.
pub open spec fn not_found_message(selector: GitSelector) -> Seq<char> {
    match selector {
        GitSelector::DefaultBranch => "Failed to find refs/remotes/origin/HEAD"@,
        GitSelector::Branch(b) => "Branch '"@ + b@ + "' not found"@,
        GitSelector::Tag(t) => "Tag '"@ + t@ + "' not found"@,
        GitSelector::Commit(c) => "Failed to resolve commit '"@ + c@ + "'"@,
    }
}

/// What is said of a selector that leads to no object.
pub open spec fn not_peeled_message(selector: GitSelector) -> Seq<char> {
    match selector {
        GitSelector::DefaultBranch => "Failed to peel reference"@,
        GitSelector::Branch(b) => "Failed to peel branch '"@ + b@ + "'"@,
        GitSelector::Tag(t) => "Failed to peel tag '"@ + t@ + "'"@,
        GitSelector::Commit(c) => "Failed to get object for commit '"@ + c@ + "'"@,
    }
}

fn not_found(selector: &GitSelector) -> (r: String)
    ensures
        r@ == not_found_message(*selector),
{
    match selector {
        GitSelector::DefaultBranch => "Failed to find refs/remotes/origin/HEAD".to_owned(),
        GitSelector::Branch(b) => "Branch '".to_owned().concat(b.as_str()).concat("' not found"),
        GitSelector::Tag(t) => "Tag '".to_owned().concat(t.as_str()).concat("' not found"),
        GitSelector::Commit(c) => "Failed to resolve commit '".to_owned().concat(
            c.as_str(),
        ).concat("'"),
    }
}

fn not_peeled(selector: &GitSelector) -> (r: String)
    ensures
        r@ == not_peeled_message(*selector),
{
    match selector {
        GitSelector::DefaultBranch => "Failed to peel reference".to_owned(),
        GitSelector::Branch(b) => "Failed to peel branch '".to_owned().concat(b.as_str()).concat(
            "'",
        ),
        GitSelector::Tag(t) => "Failed to peel tag '".to_owned().concat(t.as_str()).concat("'"),
        GitSelector::Commit(c) => "Failed to get object for commit '".to_owned().concat(
            c.as_str(),
        ).concat("'"),
    }
}

/// The commit that a selector names in a bare repository, in hexadecimal, given how the lookup
/// went, or the error that says what was not found.
pub fn resolve_selector(
    db_path: &JoinedPath,
    selector: &GitSelector,
    outcome: LookupOutcome,
) -> (r: Result<String, Error>)
    ensures
        selector_resolution(r, db_path@, *selector, outcome),
{
    match outcome {
        LookupOutcome::NotOpened(reason) => Err(
            Error::OpenRepo { path: db_path.copied(), reason },
        ),
        LookupOutcome::NotFound(reason) => Err(
            Error::ResolveSelector { message: not_found(selector), reason },
        ),
        LookupOutcome::NotPeeled(reason) => Err(
            Error::ResolveSelector { message: not_peeled(selector), reason },
        ),
        LookupOutcome::Found(id) => Ok(hex(&id)),
    }
}

/// What follows from the outcome of a lookup.
pub open spec fn selector_resolution(
    r: Result<String, Error>,
    db_path: PathView,
    selector: GitSelector,
    outcome: LookupOutcome,
) -> bool {
    match outcome {
        LookupOutcome::NotOpened(why) => r matches Err(Error::OpenRepo { path, reason }) && path@
            == db_path && reason == why,
        LookupOutcome::NotFound(why) => r matches Err(Error::ResolveSelector { message, reason })
            && message@ == not_found_message(selector) && reason == why,
        LookupOutcome::NotPeeled(why) => r matches Err(Error::ResolveSelector { message, reason })
            && message@ == not_peeled_message(selector) && reason == why,
        LookupOutcome::Found(id) => r matches Ok(commit) && commit@ == hex_of(id@),
    }
}

/// Whole seconds, at least one.
pub open spec fn low_speed_seconds(timeout: u128) -> nat {
    if timeout / 1_000_000_000 < 1 {
        1
    } else {
        (timeout / 1_000_000_000) as nat
    }
}

/// The settings for the transport, as `key=value`.
pub open spec fn http_overrides_of(
    user_agent: Seq<char>,
    http: HttpConfig,
    ssl_ca_info: Option<Seq<char>>,
) -> Seq<Seq<char>> {
    let base = seq![
        "gitoxide.userAgent="@ + user_agent,
        "http.userAgent="@ + user_agent,
        "http.extraHeader=User-Agent: "@ + user_agent,
        "gitoxide.http.connectTimeout="@ + decimal_of((http.timeout / 1_000_000) as nat),
        "http.lowSpeedLimit=1"@,
        "http.lowSpeedTime="@ + decimal_of(low_speed_seconds(http.timeout)),
    ];
    let proxied = match http.proxy {
        Some(proxy) => base.push("http.proxy="@ + proxy@),
        None => base,
    };
    match ssl_ca_info {
        Some(path) => proxied.push("http.sslCAInfo="@ + path),
        None => proxied,
    }
}

/// The settings for the transport, given the certificate bundle to use, if any. A transfer
/// that stalls for the whole time allowed is given up, like a connection that takes so long.
pub fn http_overrides(
    user_agent: &str,
    http_config: &HttpConfig,
    ssl_ca_info: &Option<String>,
) -> (r: Result<Vec<String>, Error>)
    ensures
        r matches Ok(overrides) && views(overrides@) == http_overrides_of(
            user_agent@,
            *http_config,
            crate::text::opt_view(*ssl_ca_info),
        ),
{
    let whole: u128 = http_config.timeout / 1_000_000_000;
    let low_speed: u128 = if whole < 1 {
        1
    } else {
        whole
    };
    let mut r: Vec<String> = Vec::new();
    r.push("gitoxide.userAgent=".to_owned().concat(user_agent));
    r.push("http.userAgent=".to_owned().concat(user_agent));
    r.push("http.extraHeader=User-Agent: ".to_owned().concat(user_agent));
    r.push(
        "gitoxide.http.connectTimeout=".to_owned().concat(
            decimal(http_config.timeout / 1_000_000).as_str(),
        ),
    );
    r.push("http.lowSpeedLimit=1".to_owned());
    r.push("http.lowSpeedTime=".to_owned().concat(decimal(low_speed).as_str()));
    if let Some(proxy) = &http_config.proxy {
        r.push("http.proxy=".to_owned().concat(proxy.as_str()));
    }
    if let Some(path) = ssl_ca_info {
        match ssl_ca_info_assignment(path.as_str()) {
            Ok(assignment) => r.push(assignment),
            Err(reason) => {
                return Err(
                    Error::HttpConfigOverride { key: "http.sslCAInfo".to_owned(), reason },
                );
            },
        }
    }
    assert(views(r@) =~= http_overrides_of(
        user_agent@,
        *http_config,
        crate::text::opt_view(*ssl_ca_info),
    ));
    Ok(r)
}

/// The settings are those for the bundle that was prepared; where none could be, that is the
/// error.
pub open spec fn configures(
    r: Result<Vec<String>, Error>,
    remote_url: Seq<char>,
    user_agent: Seq<char>,
    http_config: HttpConfig,
    prepared: Result<Option<String>, ca_bootstrap::Error>,
) -> bool {
    match prepared {
        Ok(path) => r matches Ok(overrides) && views(overrides@) == http_overrides_of(
            user_agent,
            http_config,
            crate::text::opt_view(path),
        ),
        Err(e) => r matches Err(Error::LinuxHttpsTrustBootstrap { url, source }) && url@
            == remote_url && source == e,
    }
}

/// The settings for the transport, with the certificate bundle that `prepare_ssl_ca_info`
/// gives for the remote and the place of the bundle.
pub fn build_http_config_overrides_with_bootstrap<
    F: FnOnce(&str, &JoinedPath) -> Result<Option<String>, ca_bootstrap::Error>,
>(
    remote_url: &str,
    user_agent: &str,
    http_config: &HttpConfig,
    ca_bundle_path: &JoinedPath,
    prepare_ssl_ca_info: F,
) -> (r: Result<Vec<String>, Error>)
    requires
        prepare_ssl_ca_info.requires((remote_url, ca_bundle_path)),
    ensures
        exists|prepared: Result<Option<String>, ca_bootstrap::Error>| #[trigger]
            prepare_ssl_ca_info.ensures((remote_url, ca_bundle_path), prepared) && configures(
                r,
                remote_url@,
                user_agent@,
                *http_config,
                prepared,
            ),
{
    match prepare_ssl_ca_info(remote_url, ca_bundle_path) {
        Ok(path) => http_overrides(user_agent, http_config, &path),
        Err(source) => Err(
            Error::LinuxHttpsTrustBootstrap { url: remote_url.to_owned(), source },
        ),
    }
}

}
