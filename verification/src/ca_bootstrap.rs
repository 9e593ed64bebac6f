//! The certificates that git trusts over HTTPS, gathered into one PEM bundle.
use vstd::prelude::*;
use vstd::string::*;

use crate::digest::{base64_encode, base64_of, is_base64_char};
use crate::paths::{shown_of, JoinedPath, PathView};
use crate::text::{decimal, decimal_of, views};
use crate::urls::{is_https, is_https_remote};

verus! {

/// Why there is no bundle.
#[derive(Clone, Debug, PartialEq, Eq)]
pub enum Error {
    /// The platform gave no certificate at all.
    NoNativeCaCertificates { error_count: usize },
    /// The directory of the bundle could not be made.
    CreateDirectory { path: JoinedPath, reason: String },
    /// The temporary file for the bundle could not be made.
    CreateTemporaryBundle { path: JoinedPath, reason: String },
    /// The bundle could not be written.
    WriteBundle { path: JoinedPath, reason: String },
    /// The bundle could not be flushed to disk.
    SyncBundle { path: JoinedPath, reason: String },
    /// The bundle could not be put in its place.
    PersistBundle { path: JoinedPath, reason: String },
}

impl Error {
    /// The error in words.
    pub open spec fn text(self) -> Seq<char> {
        match self {
            Error::NoNativeCaCertificates { error_count } => {
                "No Linux native CA certificates were loaded for HTTPS git transport (encountered "@
                    + decimal_of(error_count as nat) + " loader errors)"@
            },
            Error::CreateDirectory { path, .. } => {
                "Failed to create TLS cache directory at "@ + shown_of(path@)
            },
            Error::CreateTemporaryBundle { path, .. } => {
                "Failed to create temporary CA bundle in "@ + shown_of(path@)
            },
            Error::WriteBundle { path, .. } => {
                "Failed to write Linux HTTPS CA bundle to "@ + shown_of(path@)
            },
            Error::SyncBundle { path, .. } => {
                "Failed to sync Linux HTTPS CA bundle at "@ + shown_of(path@)
            },
            Error::PersistBundle { path, .. } => {
                "Failed to persist Linux HTTPS CA bundle at "@ + shown_of(path@)
            },
        }
    }

    /// What was behind the error, as it was reported.
    pub open spec fn reasons(self) -> Seq<Seq<char>> {
        match self {
            Error::NoNativeCaCertificates { .. } => Seq::empty(),
            Error::CreateDirectory { reason, .. } => seq![reason@],
            Error::CreateTemporaryBundle { reason, .. } => seq![reason@],
            Error::WriteBundle { reason, .. } => seq![reason@],
            Error::SyncBundle { reason, .. } => seq![reason@],
            Error::PersistBundle { reason, .. } => seq![reason@],
        }
    }

    /// The error in words.
    pub fn message(&self) -> (r: String)
        ensures
            r@ == self.text(),
    {
        match self {
            Error::NoNativeCaCertificates { error_count } => {
                "No Linux native CA certificates were loaded for HTTPS git transport (encountered ".to_owned()
                    .concat(decimal(*error_count as u128).as_str()).concat(" loader errors)")
            },
            Error::CreateDirectory { path, .. } => {
                "Failed to create TLS cache directory at ".to_owned()
                    .concat(path.shown().as_str())
            },
            Error::CreateTemporaryBundle { path, .. } => {
                "Failed to create temporary CA bundle in ".to_owned()
                    .concat(path.shown().as_str())
            },
            Error::WriteBundle { path, .. } => {
                "Failed to write Linux HTTPS CA bundle to ".to_owned()
                    .concat(path.shown().as_str())
            },
            Error::SyncBundle { path, .. } => {
                "Failed to sync Linux HTTPS CA bundle at ".to_owned()
                    .concat(path.shown().as_str())
            },
            Error::PersistBundle { path, .. } => {
                "Failed to persist Linux HTTPS CA bundle at ".to_owned()
                    .concat(path.shown().as_str())
            },
        }
    }

    /// What was behind the error, as it was reported.
    pub fn causes(&self) -> (r: Vec<String>)
        ensures
            views(r@) == self.reasons(),
    {
        let r = match self {
            Error::NoNativeCaCertificates { .. } => Vec::new(),
            Error::CreateDirectory { reason, .. } => vec![reason.clone()],
            Error::CreateTemporaryBundle { reason, .. } => vec![reason.clone()],
            Error::WriteBundle { reason, .. } => vec![reason.clone()],
            Error::SyncBundle { reason, .. } => vec![reason.clone()],
            Error::PersistBundle { reason, .. } => vec![reason.clone()],
        };
        assert(views(r@) =~= self.reasons());
        r
    }
}

/// The platform's certificates, in DER, and how many entries could not be read.
#[derive(Clone, Debug, PartialEq, Eq)]
pub struct CertificateResult {
    pub certs: Vec<Vec<u8>>,
    pub error_count: usize,
}

/// A bundle and where it belongs.
#[derive(Clone, Debug, PartialEq, Eq)]
pub struct Bundle {
    pub path: JoinedPath,
    pub contents: String,
}

/// The number of characters on a line of the bundle.
pub const LINE_LENGTH: usize = 64;

/// The text broken into lines of [`LINE_LENGTH`] characters, the last one perhaps shorter,
/// each ended by a line feed.
pub open spec fn wrapped(text: Seq<char>) -> Seq<char>
    decreases text.len(),
{
    if text.len() == 0 {
        Seq::empty()
    } else if text.len() <= LINE_LENGTH {
        text.push('\n')
    } else {
        text.take(LINE_LENGTH as int).push('\n') + wrapped(text.skip(LINE_LENGTH as int))
    }
}

/// The PEM block of a certificate.
pub open spec fn pem_block(cert: Seq<u8>) -> Seq<char> {
    "-----BEGIN CERTIFICATE-----\n"@ + wrapped(base64_of(cert)) + "-----END CERTIFICATE-----\n"@
}

/// The PEM blocks of the certificates, one after the other.
pub open spec fn pem_bundle(certs: Seq<Vec<u8>>) -> Seq<char>
    decreases certs.len(),
{
    if certs.len() == 0 {
        Seq::empty()
    } else {
        pem_bundle(certs.drop_last()) + pem_block(certs.last()@)
    }
}

/// The base64 form of each certificate is short enough for the machine.
pub open spec fn encodable(certs: Seq<Vec<u8>>) -> bool {
    forall|i: int| 0 <= i < certs.len() ==> ((#[trigger] certs[i])@.len() + 2) / 3 * 4 <= usize::MAX
}

#[verifier::spinoff_prover]
fn append_wrapped(bundle: &mut String, text: &str)
    ensures
        final(bundle)@ == old(bundle)@ + wrapped(text@),
{
    let n: usize = text.unicode_len();
    let mut i: usize = 0;
    let ghost start = bundle@;
    assert(text@.skip(0) =~= text@);
    assert(bundle@ + wrapped(text@) =~= start + wrapped(text@));
    while i < n
        invariant
            i <= n,
            n == text@.len(),
            bundle@ + wrapped(text@.skip(i as int)) == start + wrapped(text@),
        decreases n - i,
    {
        let ghost rest = text@.skip(i as int);
        let ghost before = bundle@;
        let to: usize = if n - i <= LINE_LENGTH {
            n
        } else {
            i + LINE_LENGTH
        };
        bundle.append(text.substring_char(i, to));
        bundle.append("\n");
        proof {
            reveal_strlit("\n");
            let line = text@.subrange(i as int, to as int);
            assert("\n"@ =~= seq!['\n']);
            assert(bundle@ =~= before + line.push('\n'));
            assert(text@.skip(to as int) =~= rest.skip(to - i));
            if n - i <= LINE_LENGTH {
                assert(line =~= rest);
                assert(rest.skip(to - i) =~= Seq::empty());
            } else {
                assert(line =~= rest.take(LINE_LENGTH as int));
            }
            assert(bundle@ + wrapped(text@.skip(to as int)) =~= before + wrapped(rest));
        }
        i = to;
    }
    assert(text@.skip(i as int) =~= Seq::empty());
    assert(bundle@ =~= bundle@ + wrapped(text@.skip(i as int)));
}

/// The PEM bundle of the certificates.
#[verifier::spinoff_prover]
pub fn build_pem_bundle(certs: &Vec<Vec<u8>>) -> (r: String)
    requires
        encodable(certs@),
    ensures
        r@ == pem_bundle(certs@),
{
    let mut bundle = String::new();
    let mut i: usize = 0;
    while i < certs.len()
        invariant
            i <= certs.len(),
            encodable(certs@),
            bundle@ == pem_bundle(certs@.take(i as int)),
        decreases certs.len() - i,
    {
        let ghost before = bundle@;
        let encoded = base64_encode(certs[i].as_slice());
        bundle.append("-----BEGIN CERTIFICATE-----\n");
        append_wrapped(&mut bundle, encoded.as_str());
        bundle.append("-----END CERTIFICATE-----\n");
        proof {
            let seen = certs@.take(i + 1);
            assert(seen.drop_last() =~= certs@.take(i as int));
            assert(seen.last() == certs@[i as int]);
            assert(bundle@ =~= before + pem_block(certs@[i as int]@));
        }
        i = i + 1;
    }
    assert(certs@.take(i as int) =~= certs@);
    bundle
}

/// What is prepared for a remote. `loaded` is what the platform gave, where it was asked.
pub open spec fn prepares(
    r: Result<Option<Bundle>, Error>,
    remote_url: Seq<char>,
    bundle_path: PathView,
    loaded: Option<CertificateResult>,
) -> bool {
    match loaded {
        None => !is_https(remote_url) && r == Ok::<Option<Bundle>, Error>(None),
        Some(certificates) => is_https(remote_url) && (match r {
            Ok(Some(bundle)) => bundles(Ok(bundle), bundle_path, certificates),
            Ok(None) => false,
            Err(e) => bundles(Err(e), bundle_path, certificates),
        }),
    }
}

/// The bundle holds the certificates that were loaded; that there are none is an error.
pub open spec fn bundles(
    r: Result<Bundle, Error>,
    bundle_path: PathView,
    loaded: CertificateResult,
) -> bool {
    match r {
        Ok(bundle) => {
            &&& loaded.certs@.len() > 0
            &&& bundle.path@ == bundle_path
            &&& bundle.contents@ == pem_bundle(loaded.certs@)
        },
        Err(e) => loaded.certs@.len() == 0 && e == (Error::NoNativeCaCertificates {
            error_count: loaded.error_count,
        }),
    }
}

/// What follows from the certificates that were loaded: a bundle, or an error where there
/// are none. Entries that could not be read do no harm as long as one could.
#[verifier::spinoff_prover]
pub fn bundle_of(bundle_path: &JoinedPath, loaded: &CertificateResult) -> (r: Result<Bundle, Error>)
    requires
        encodable(loaded.certs@),
    ensures
        bundles(r, bundle_path@, *loaded),
{
    if loaded.certs.len() == 0 {
        return Err(Error::NoNativeCaCertificates { error_count: loaded.error_count });
    }
    Ok(Bundle { path: bundle_path.copied(), contents: build_pem_bundle(&loaded.certs) })
}

/// The bundle that git needs for a remote, with the certificates that `load_native_certs`
/// gives. A remote that is not reached over HTTPS needs none, and nothing is loaded for it.
#[verifier::spinoff_prover]
pub fn prepare_ssl_ca_info_with_loader<L: FnOnce() -> CertificateResult>(
    remote_url: &str,
    bundle_path: &JoinedPath,
    load_native_certs: L,
) -> (r: Result<Option<Bundle>, Error>)
    requires
        is_https(remote_url@) ==> load_native_certs.requires(()),
        is_https(remote_url@) ==> forall|loaded: CertificateResult| #[trigger]
            load_native_certs.ensures((), loaded) ==> encodable(loaded.certs@),
    ensures
        !is_https(remote_url@) ==> r == Ok::<Option<Bundle>, Error>(None),
        is_https(remote_url@) ==> exists|loaded: CertificateResult| #[trigger]
            load_native_certs.ensures((), loaded) && (match r {
                Ok(Some(bundle)) => {
                    &&& loaded.certs@.len() > 0
                    &&& bundle.path@ == bundle_path@
                    &&& bundle.contents@ == pem_bundle(loaded.certs@)
                },
                Ok(None) => false,
                Err(e) => loaded.certs@.len() == 0 && e == (Error::NoNativeCaCertificates {
                    error_count: loaded.error_count,
                }),
            }),
        exists|loaded: Option<CertificateResult>| #[trigger]
            prepares(r, remote_url@, bundle_path@, loaded) && (loaded matches Some(l)
                ==> load_native_certs.ensures((), l)),
{
    if !is_https_remote(remote_url) {
        let r = Ok(None);
        assert(prepares(r, remote_url@, bundle_path@, None));
        return r;
    }
    let loaded = load_native_certs();
    let r = match bundle_of(bundle_path, &loaded) {
        Ok(bundle) => Ok(Some(bundle)),
        Err(e) => Err(e),
    };
    assert(prepares(r, remote_url@, bundle_path@, Some(loaded)));
    r
}

/// No line of a bundle's body is longer than [`LINE_LENGTH`] characters: among any
/// `LINE_LENGTH + 1` characters in a row there is a line feed, and the body ends with one.
#[verifier::spinoff_prover]
pub proof fn lines_are_short(text: Seq<char>, i: int)
    requires
        0 <= i,
        i + LINE_LENGTH + 1 <= wrapped(text).len(),
    ensures
        exists|k: int| i <= k < i + LINE_LENGTH + 1 && #[trigger] wrapped(text)[k] == '\n',
        wrapped(text).last() == '\n',
    decreases text.len(),
{
    ends_with_line_feed(text);
    if text.len() <= LINE_LENGTH {
        assert(wrapped(text)[i + LINE_LENGTH] == '\n');
    } else {
        let rest = text.skip(LINE_LENGTH as int);
        let line = text.take(LINE_LENGTH as int).push('\n');
        assert(wrapped(text) == line + wrapped(rest));
        if i <= LINE_LENGTH {
            assert(wrapped(text)[LINE_LENGTH as int] == line[LINE_LENGTH as int]);
        } else {
            let j = i - (LINE_LENGTH + 1);
            lines_are_short(rest, j);
            let k = choose|k: int|
                j <= k < j + LINE_LENGTH + 1 && #[trigger] wrapped(rest)[k] == '\n';
            assert(wrapped(text)[k + LINE_LENGTH + 1] == wrapped(rest)[k]);
        }
    }
}

proof fn ends_with_line_feed(text: Seq<char>)
    requires
        text.len() > 0,
    ensures
        wrapped(text).len() > 0,
        wrapped(text).last() == '\n',
    decreases text.len(),
{
    if text.len() > LINE_LENGTH {
        let rest = text.skip(LINE_LENGTH as int);
        ends_with_line_feed(rest);
        assert(wrapped(text).last() == wrapped(rest).last());
    }
}

/// The lines of a bundle's body, put together, are the base64 text again: nothing is lost or
/// added by wrapping it.
#[verifier::spinoff_prover]
pub proof fn wrapping_keeps_the_text(text: Seq<char>)
    requires
        forall|i: int| 0 <= i < text.len() ==> is_base64_char(#[trigger] text[i]),
    ensures
        wrapped(text).filter(|c: char| c != '\n') == text,
    decreases text.len(),
{
    let keep = |c: char| c != '\n';
    if text.len() == 0 {
        reveal(Seq::filter);
    } else {
        let n = if text.len() <= LINE_LENGTH {
            text.len() as int
        } else {
            LINE_LENGTH as int
        };
        let line = text.take(n);
        let rest = text.skip(n);
        wrapping_keeps_the_text(rest);
        assert(wrapped(text) =~= line.push('\n') + wrapped(rest));
        Seq::filter_distributes_over_add(line.push('\n'), wrapped(rest), keep);
        assert(line.push('\n').filter(keep) == line.filter(keep)) by {
            reveal(Seq::filter);
            assert(line.push('\n').drop_last() =~= line);
        }
        all_kept(line, keep);
        assert(line + rest =~= text);
    }
}

proof fn all_kept(text: Seq<char>, keep: spec_fn(char) -> bool)
    requires
        forall|i: int| 0 <= i < text.len() ==> keep(#[trigger] text[i]),
    ensures
        text.filter(keep) == text,
    decreases text.len(),
{
    reveal(Seq::filter);
    if text.len() > 0 {
        all_kept(text.drop_last(), keep);
        assert(text.drop_last().push(text.last()) =~= text);
    }
}

}
