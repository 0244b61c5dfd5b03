//! Building the fully-qualified API endpoint URL for each backend.
use vstd::prelude::*;

use crate::encode::{form_encoded_str, form_urlencode};
use crate::hosts::Host;
use crate::strutil::str_eq;
use crate::Error;

verus! {

/// GitHub's REST API names the pull-request resource `pulls`, while the web
/// UI path uses the singular `pull`; every other kind passes through.
pub open spec fn github_kind(kind: Seq<char>) -> Seq<char> {
    if kind == "pull"@ {
        "pulls"@
    } else {
        kind
    }
}

/// The GitHub endpoint: the one canonical instance, with the kind rewrite.
pub open spec fn github_link_spec(
    owner: Seq<char>,
    repo: Seq<char>,
    kind: Seq<char>,
    number: Seq<char>,
) -> Seq<char> {
    "https://api.github.com/repos/"@ + owner + "/"@ + repo + "/"@ + github_kind(kind) + "/"@
        + number
}

/// The GitLab endpoint: the project is named by the form-urlencoded
/// `owner/repo` pair, and the kind passes through unchanged.
pub open spec fn gitlab_link_spec(
    domain: Seq<char>,
    owner: Seq<char>,
    repo: Seq<char>,
    kind: Seq<char>,
    number: Seq<char>,
) -> Seq<char> {
    "https://"@ + domain + "/api/v4/projects/"@ + form_encoded_str(owner + "/"@ + repo) + "/"@
        + kind + "/"@ + number
}

/// The Gitea endpoint: owner and repo stand as path segments, and the kind
/// passes through unchanged.
pub open spec fn gitea_link_spec(
    domain: Seq<char>,
    owner: Seq<char>,
    repo: Seq<char>,
    kind: Seq<char>,
    number: Seq<char>,
) -> Seq<char> {
    "https://"@ + domain + "/api/v1/repos/"@ + owner + "/"@ + repo + "/"@ + kind + "/"@ + number
}

/// The endpoint URL for a forge backend, from the fields the path yielded.
/// Bug trackers build their endpoints from the number alone and are not
/// covered here.
pub open spec fn api_link_spec(
    h: Host,
    owner: Seq<char>,
    repo: Seq<char>,
    kind: Seq<char>,
    number: Seq<char>,
) -> Seq<char> {
    match h {
        Host::Github => github_link_spec(owner, repo, kind, number),
        Host::Gitlab(d) => gitlab_link_spec(d@, owner, repo, kind, number),
        Host::Gitea(d) => gitea_link_spec(d@, owner, repo, kind, number),
        Host::Bugzilla(_) => Seq::empty(),
        Host::BugzillaJsonRpc(_) => Seq::empty(),
    }
}

/// The endpoint URL for a Bugzilla REST backend.
pub open spec fn rest_url_spec(domain: Seq<char>, number: Seq<char>) -> Seq<char> {
    "https://"@ + domain + "/rest/bug/"@ + number
}

/// The endpoint URL for a Bugzilla JSON-RPC backend: the single RPC endpoint
/// with the method and a literal JSON array as form-urlencoded query values.
pub open spec fn jsonrpc_url_spec(domain: Seq<char>, number: Seq<char>) -> Seq<char> {
    "https://"@ + domain + "/jsonrpc.cgi?method=Bug.get&params="@ + form_encoded_str(
        "[{\"ids\": ["@ + number + "]}]"@,
    )
}

/// States the rewrite rule itself: GitHub sends a `pull` kind as `pulls`.
pub proof fn lemma_github_pull_rewritten()
    ensures
        github_kind("pull"@) == "pulls"@,
{
}

/// States the counterpart: every other kind is passed through unchanged on
/// GitHub, and the GitLab and Gitea endpoints take the kind as it stands.
pub proof fn lemma_kind_unchanged(kind: Seq<char>)
    requires
        kind != "pull"@,
    ensures
        github_kind(kind) == kind,
{
}

/// Builds the forge endpoint URL.
pub fn get_api_link(host: &Host, owner: &str, repo: &str, kind: &str, number: &str) -> (r: String)
    requires
        host matches Host::Github || host matches Host::Gitlab(_) || host matches Host::Gitea(_),
    ensures
        r@ == api_link_spec(*host, owner@, repo@, kind@, number@),
{
    match host {
        Host::Github => {
            let k: &str = if str_eq(kind, "pull") {
                "pulls"
            } else {
                kind
            };
            let mut s = String::new();
            s.append("https://api.github.com/repos/");
            s.append(owner);
            s.append("/");
            s.append(repo);
            s.append("/");
            s.append(k);
            s.append("/");
            s.append(number);
            proof {
                assert(s@ =~= api_link_spec(*host, owner@, repo@, kind@, number@));
            }
            s
        },
        Host::Gitlab(d) => {
            let mut pair = String::new();
            pair.append(owner);
            pair.append("/");
            pair.append(repo);
            proof {
                assert(pair@ =~= owner@ + "/"@ + repo@);
            }
            let enc = form_urlencode(pair.as_str());
            let mut s = String::new();
            s.append("https://");
            s.append(d.as_str());
            s.append("/api/v4/projects/");
            s.append(enc.as_str());
            s.append("/");
            s.append(kind);
            s.append("/");
            s.append(number);
            proof {
                assert(s@ =~= api_link_spec(*host, owner@, repo@, kind@, number@));
            }
            s
        },
        Host::Gitea(d) => {
            let mut s = String::new();
            s.append("https://");
            s.append(d.as_str());
            s.append("/api/v1/repos/");
            s.append(owner);
            s.append("/");
            s.append(repo);
            s.append("/");
            s.append(kind);
            s.append("/");
            s.append(number);
            proof {
                assert(s@ =~= api_link_spec(*host, owner@, repo@, kind@, number@));
            }
            s
        },
        Host::Bugzilla(_) => vstd::pervasive::unreached(),
        Host::BugzillaJsonRpc(_) => vstd::pervasive::unreached(),
    }
}

/// Builds the Bugzilla REST endpoint URL.
pub fn get_rest_url(domain: &str, number: &str) -> (r: String)
    ensures
        r@ == rest_url_spec(domain@, number@),
{
    let mut s = String::new();
    s.append("https://");
    s.append(domain);
    s.append("/rest/bug/");
    s.append(number);
    proof {
        assert(s@ =~= rest_url_spec(domain@, number@));
    }
    s
}

/// Whether `url::Url::parse` accepts the text as an absolute URL.
pub uninterp spec fn url_wellformed(s: Seq<char>) -> bool;

/// Relies on `url::Url::parse`: acceptance depends on the text alone.
#[verifier::external_body]
fn url_parses(s: &str) -> (r: bool)
    ensures
        r == url_wellformed(s@),
{
    url::Url::parse(s).is_ok()
}

/// Builds the Bugzilla JSON-RPC endpoint URL, or fails with `InvalidURL`
/// when the domain yields no well-formed URL to derive it from.
pub fn get_jsonrpc_url(domain: &str, number: &str) -> (r: Result<String, Error>)
    ensures
        url_wellformed("https://"@ + domain@ + "/jsonrpc.cgi"@) ==> (r matches Ok(u) && u@
            == jsonrpc_url_spec(domain@, number@)),
        !url_wellformed("https://"@ + domain@ + "/jsonrpc.cgi"@) ==> r == Err::<String, Error>(
            Error::InvalidURL,
        ),
{
    let mut base = String::new();
    base.append("https://");
    base.append(domain);
    base.append("/jsonrpc.cgi");
    proof {
        assert(base@ =~= "https://"@ + domain@ + "/jsonrpc.cgi"@);
    }
    if !url_parses(base.as_str()) {
        return Err(Error::InvalidURL);
    }
    let mut params = String::new();
    params.append("[{\"ids\": [");
    params.append(number);
    params.append("]}]");
    proof {
        assert(params@ =~= "[{\"ids\": ["@ + number@ + "]}]"@);
    }
    let enc = form_urlencode(params.as_str());
    let mut s = String::new();
    s.append("https://");
    s.append(domain);
    s.append("/jsonrpc.cgi?method=Bug.get&params=");
    s.append(enc.as_str());
    proof {
        assert(s@ =~= jsonrpc_url_spec(domain@, number@));
    }
    Ok(s)
}

} // verus!
