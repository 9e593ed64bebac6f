//! Servers: what their answers mean, how often they are asked, and under which address.
use vstd::prelude::*;
use vstd::string::*;

use crate::config::HttpConfig;
use crate::error::Error;
use crate::http::{
    backoff_of, classifies, judges, proxy_problem_of, sets_up, status_is_retryable,
    status_is_success, unreachable_server, user_agent_of, DownloadVerdict, HttpClient,
};
use crate::laws::texts::is_same_letter;
use crate::logging::{configured_filter_of, LogSettings};
use crate::registry::{admits_name, is_crate_name, is_name_char, plain_download_url};
use crate::urls::{is_https, url_of};

verus! {

/// Only too many requests and trouble of the server are worth another try: every other answer
/// is handed on, success and refusals alike.
pub proof fn only_trouble_is_tried_again(status: u16, url: Seq<char>, r: Result<(), Error>)
    requires
        classifies(status, url, r),
    ensures
        r is Err <==> status == 429 || (status >= 500 && status <= 599),
        r matches Err(e) ==> (e matches Error::HttpRetryableStatus { url: u, status: s } && u@
            == url && s == status),
        status < 429 ==> r is Ok,
        status >= 600 ==> r is Ok,
{
}

/// A download takes the body of every answer from 200 to 299, takes 404 for the absence of the
/// file, and fails with the status of every other answer.
pub proof fn answers_are_files_absences_or_failures(status: u16, url: Seq<char>, r: DownloadVerdict)
    requires
        judges(status, url, r),
    ensures
        status >= 200 && status <= 299 <==> r is Take,
        status == 404 <==> r is Missing,
        (status < 200 || status > 299) && status != 404 ==> (r matches DownloadVerdict::Fail(e)
            && (e matches Error::HttpRetryableStatus { url: u, status: s } && u@ == url && s
            == status)),
{
}

/// An answer that is tried again makes a download fail with the same error.
pub proof fn retries_and_downloads_agree(
    status: u16,
    url: Seq<char>,
    r: Result<(), Error>,
    verdict: DownloadVerdict,
)
    requires
        classifies(status, url, r),
        judges(status, url, verdict),
    ensures
        r matches Err(e) ==> (verdict matches DownloadVerdict::Fail(f) && f.text() == e.text()),
        verdict is Take || verdict is Missing ==> r is Ok,
        status_is_success(status) <==> verdict is Take,
        status_is_retryable(status) <==> r is Err,
{
}

/// A client has the settings that it was given. Without a proxy there always is one, and with
/// one exactly where the proxy can be used; otherwise the error names the proxy.
pub proof fn clients_keep_their_settings(config: HttpConfig, r: Result<HttpClient, Error>)
    requires
        sets_up(config, r),
    ensures
        config.proxy is None ==> r is Ok,
        config.proxy matches Some(proxy) ==> (r is Ok <==> proxy_problem_of(proxy@) is None),
        r matches Ok(client) ==> {
            &&& client.config.timeout == config.timeout
            &&& client.config.backoff_base == config.backoff_base
            &&& client.config.backoff_max == config.backoff_max
            &&& client.config.retries == config.retries
            &&& client.config.proxy == config.proxy
        },
        r matches Err(e) ==> (config.proxy matches Some(proxy) && (proxy_problem_of(
            proxy@,
        ) matches Some(problem) && (e matches Error::HttpClientBuild { message } && message@
            == "invalid proxy URL '"@ + proxy@ + "': "@ + problem))),
{
}

/// Requests are tried as often, and with the waits, that the settings say.
pub proof fn waits_follow_the_settings(config: HttpConfig)
    ensures
        backoff_of(config).min_delay == config.backoff_base,
        backoff_of(config).max_delay == config.backoff_max,
        backoff_of(config).max_times == config.retries,
        backoff_of(config).jitter,
{
}

/// A server cannot be reached where the connection, the time or the sending failed, whatever
/// the address; every other failure is something else.
pub proof fn unreachable_servers_are_told_from_failures(err: Error)
    ensures
        err matches Error::HttpRequest { failure, .. } ==> (unreachable_server(err) <==> {
            ||| failure.connect
            ||| failure.timeout
            ||| failure.request
        }),
        !(err is HttpRequest) ==> !unreachable_server(err),
{
}

/// The program names itself, its version and its repository.
pub proof fn agents_name_version_and_repository(version: Seq<char>, repository: Seq<char>)
    ensures
        user_agent_of(version, repository) == seq!['c', 'g', 'x', '/'] + version + seq![' ', '(']
            + repository + seq![')'],
{
    reveal_strlit("cgx/");
    reveal_strlit(" (");
    reveal_strlit(")");
    assert("cgx/"@ =~= seq!['c', 'g', 'x', '/']);
    assert(" ("@ =~= seq![' ', '(']);
    assert(")"@ =~= seq![')']);
}

/// A remote is reached over HTTPS exactly where it is a URL whose scheme is `https`, in
/// whatever case.
pub proof fn remotes_are_secure_by_their_scheme(text: Seq<char>)
    ensures
        url_of(text) is Err ==> !is_https(text),
        url_of(text) matches Ok(url) ==> {
            &&& url.scheme == seq!['h', 't', 't', 'p', 's'] ==> is_https(text)
            &&& url.scheme == seq!['H', 'T', 'T', 'P', 'S'] ==> is_https(text)
            &&& is_https(text) ==> url.scheme.len() == 5 && is_same_letter(url.scheme[0], 'h')
                && is_same_letter(url.scheme[1], 't') && is_same_letter(url.scheme[2], 't')
                && is_same_letter(url.scheme[3], 'p') && is_same_letter(url.scheme[4], 's')
        },
{
    reveal_strlit("https");
    assert("https"@ =~= seq!['h', 't', 't', 'p', 's']);
    if url_of(text) is Ok {
        let scheme = url_of(text)->Ok_0.scheme;
        crate::laws::texts::case_is_ignored_for_letters_only(scheme, "https"@);
    }
}

/// A name is a crate name exactly where it has a character and each is an ASCII letter or
/// digit, a dash or an underscore.
pub proof fn names_are_letters_digits_dashes_and_underscores(name: Seq<char>, c: char)
    ensures
        !is_crate_name(Seq::empty()),
        is_crate_name(seq![c]) <==> is_name_char(c),
        name.len() > 0 ==> (is_crate_name(name.push(c)) <==> is_crate_name(name) && is_name_char(
            c,
        )),
        is_name_char(c) <==> {
            ||| c as u32 >= 48 && c as u32 <= 57
            ||| c as u32 >= 65 && c as u32 <= 90
            ||| c as u32 >= 97 && c as u32 <= 122
            ||| c as u32 == 45
            ||| c as u32 == 95
        },
{
    assert(seq![c][0] == c);
    let longer = name.push(c);
    if is_crate_name(longer) {
        assert(longer[name.len() as int] == c);
        assert forall|i: int| 0 <= i < name.len() implies is_name_char(#[trigger] name[i]) by {
            assert(longer[i] == name[i]);
        }
    }
    if name.len() > 0 && is_crate_name(name) && is_name_char(c) {
        assert forall|i: int| 0 <= i < longer.len() implies is_name_char(#[trigger] longer[i]) by {
            if i < name.len() {
                assert(longer[i] == name[i]);
            }
        }
    }
}

/// A registry is asked for every crate name, and for nothing else.
pub proof fn only_names_are_asked_for(name: Seq<char>, r: Result<(), Error>)
    requires
        admits_name(name, r),
    ensures
        r is Ok <==> is_crate_name(name),
        r matches Err(e) ==> e is Registry,
        name.len() == 0 ==> r is Err,
        name.contains('/') ==> r is Err,
        name.contains(' ') ==> r is Err,
{
    if name.contains('/') {
        let i = choose|i: int| 0 <= i < name.len() && name[i] == '/';
        assert(!is_name_char(name[i]));
    }
    if name.contains(' ') {
        let i = choose|i: int| 0 <= i < name.len() && name[i] == ' ';
        assert(!is_name_char(name[i]));
    }
}

/// Under a registry whose address holds no marker a crate is at `NAME/VERSION/download`, with
/// one slash in front whether or not the address ends in one. crates.io has its own address.
pub proof fn crates_are_under_their_registry(base: Seq<char>, name: Seq<char>, version: Seq<char>)
    requires
        !base.contains('{'),
        base.len() > 0 && base.last() != '/',
        base != "https://crates.io/api/v1/crates"@,
    ensures
        plain_download_url(base, name, version) == Some(
            base.push('/') + name + seq!['/'] + version + "/download"@,
        ),
        plain_download_url(base.push('/'), name, version) == plain_download_url(
            base,
            name,
            version,
        ),
        plain_download_url("https://crates.io/api/v1/crates"@, name, version) == Some(
            "https://static.crates.io/crates/"@ + name + seq!['/'] + name + seq!['-'] + version
                + ".crate"@,
        ),
{
    reveal_strlit("/");
    reveal_strlit("-");
    reveal_strlit("");
    reveal_strlit("https://crates.io/api/v1/crates");
    let crates_io = "https://crates.io/api/v1/crates"@;
    assert("/"@ =~= seq!['/']);
    assert("-"@ =~= seq!['-']);
    assert(""@ =~= Seq::empty());
    assert(base + "/"@ =~= base.push('/'));
    assert(base.push('/') + ""@ =~= base.push('/'));
    assert(base.push('/').last() == '/');
    assert(crates_io.last() == 's');
    assert(!base.push('/').contains('{')) by {
        if base.push('/').contains('{') {
            let i = choose|i: int| 0 <= i < base.push('/').len() && base.push('/')[i] == '{';
            assert(base[i] == '{');
        }
    }
}

/// Each `-v` shows more: warnings, then messages, then details, then everything. Only without
/// one the form is that of plain messages.
pub proof fn verbosity_shows_more(verbose: u8, r: LogSettings)
    requires
        r.suits(verbose),
    ensures
        verbose == 0 ==> r.level is Warn && r.simple_format && r.default_filter@ == "warn"@,
        verbose == 1 ==> r.level is Info && !r.simple_format && r.default_filter@ == "info,INFO"@,
        verbose == 2 ==> r.level is Debug && !r.simple_format && r.default_filter@
            == "info,DEBUG"@,
        verbose > 2 ==> r.level is Trace && !r.simple_format && r.default_filter@ == "info,TRACE"@,
{
}

/// The log level of the configuration decides exactly where neither `-v` nor the environment
/// does.
pub proof fn log_levels_come_last(verbose: u8, in_environment: bool, log_level: Option<String>)
    ensures
        verbose > 0 ==> configured_filter_of(verbose, in_environment, log_level) is None,
        in_environment ==> configured_filter_of(verbose, in_environment, log_level) is None,
        configured_filter_of(0, false, log_level) == log_level,
{
}

}
