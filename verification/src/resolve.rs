//! The resolution pipeline around one URL, short of the network: planning
//! the outbound request from the URL's parts, and normalizing the response
//! body that came back.
use vstd::prelude::*;

use crate::endpoints::{
    get_api_link, get_jsonrpc_url, get_rest_url, github_link_spec, gitea_link_spec,
    gitlab_link_spec, jsonrpc_url_spec, url_wellformed,
};
use crate::hosts::{is_supported_domain, upper_no_dots, Host};
use crate::jsonval::{
    body_has_result, body_parses, bugzilla_bugs_of, bugzilla_records, extract_forge_fields,
    forge_fields_of, json_parses, jsonrpc_result_present,
};
use crate::matcher::{lemma_match_count, lemma_pattern_field_counts, match_pattern, match_spec};
use crate::normalize::{
    bugs_to_infos, bugs_view, fields_view, final_state, first_info, normalize_fields,
    state_from_str,
};
use crate::{Error, Info, State};

verus! {

/// The outbound request one URL resolves to: which backend it goes to, the
/// endpoint to fetch, and the key under which a bearer token may be looked
/// up (bug trackers have none).
pub struct ApiRequest {
    pub host: Host,
    pub endpoint: String,
    pub token_key: Option<String>,
}

/// Plans the request for one URL, handed over as its domain, path, and
/// query: resolves the backend, matches the path against its template, and
/// builds the endpoint URL.
pub fn plan_request(domain: &str, path: &str, query: &str) -> (r: Result<ApiRequest, Error>)
    ensures
        !is_supported_domain(domain@) ==> (r matches Err(Error::UnknownHost(d)) && d@ == domain@),
        domain@ == "github.com"@ ==> match match_spec("/:owner/:repo/:kind/:number"@, path@) {
            Some(c) => r matches Ok(a) && a.host matches Host::Github && a.endpoint@
                == github_link_spec(c[0], c[1], c[2], c[3]) && (a.token_key matches Some(k) && k@
                == "GITHUB_TOKEN"@),
            None => r == Err::<ApiRequest, Error>(Error::FailedMatch),
        },
        domain@ == "codeberg.org"@ ==> match match_spec("/:owner/:repo/:kind/:number"@, path@) {
            Some(c) => r matches Ok(a) && (a.host matches Host::Gitea(d) && d@ == domain@)
                && a.endpoint@ == gitea_link_spec(domain@, c[0], c[1], c[2], c[3]) && (
            a.token_key matches Some(k) && k@ == "CODEBERG_TOKEN"@),
            None => r == Err::<ApiRequest, Error>(Error::FailedMatch),
        },
        (domain@ == "gitlab.com"@ || domain@ == "gitlab.freedesktop.org"@) ==> match match_spec(
            "/:owner/:repo/-/:kind/:number"@,
            path@,
        ) {
            Some(c) => r matches Ok(a) && (a.host matches Host::Gitlab(d) && d@ == domain@)
                && a.endpoint@ == gitlab_link_spec(domain@, c[0], c[1], c[2], c[3]) && (
            a.token_key matches Some(k) && k@ == (if domain@ == "gitlab.com"@ {
                "GITLAB_TOKEN"@
            } else {
                upper_no_dots(domain@) + "_TOKEN"@
            })),
            None => r == Err::<ApiRequest, Error>(Error::FailedMatch),
        },
        domain@ == "bugs.winehq.org"@ ==> match match_spec(
            "/show_bug.cgi?id=:number"@,
            path@ + "?"@ + query@,
        ) {
            Some(c) => if url_wellformed("https://"@ + domain@ + "/jsonrpc.cgi"@) {
                r matches Ok(a) && (a.host matches Host::BugzillaJsonRpc(d) && d@ == domain@)
                    && a.endpoint@ == jsonrpc_url_spec(domain@, c[0]) && a.token_key is None
            } else {
                r == Err::<ApiRequest, Error>(Error::InvalidURL)
            },
            None => r == Err::<ApiRequest, Error>(Error::FailedMatch),
        },
{
    let host = match Host::from_domain(domain) {
        Ok(h) => h,
        Err(e) => {
            return Err(e);
        },
    };
    match &host {
        Host::Github | Host::Gitlab(_) | Host::Gitea(_) => {
            let caps = match match_pattern(host.pattern(), path) {
                Ok(c) => c,
                Err(e) => {
                    return Err(e);
                },
            };
            proof {
                lemma_pattern_field_counts();
                lemma_match_count(crate::hosts::pattern_spec(host), 0, path@, 0);
                assert(caps@.len() == caps.deep_view().len());
                assert(forall|k: int| 0 <= k < caps@.len() ==> caps@[k]@ == caps.deep_view()[k]);
            }
            let endpoint = get_api_link(
                &host,
                caps[0].as_str(),
                caps[1].as_str(),
                caps[2].as_str(),
                caps[3].as_str(),
            );
            let token_key = host.get_token_var();
            Ok(ApiRequest { host, endpoint, token_key: Some(token_key) })
        },
        Host::Bugzilla(d) | Host::BugzillaJsonRpc(d) => {
            let mut path_query = String::new();
            path_query.append(path);
            path_query.append("?");
            path_query.append(query);
            proof {
                assert(path_query@ =~= path@ + "?"@ + query@);
            }
            let caps = match match_pattern(host.pattern(), path_query.as_str()) {
                Ok(c) => c,
                Err(e) => {
                    return Err(e);
                },
            };
            proof {
                lemma_pattern_field_counts();
                lemma_match_count(crate::hosts::pattern_spec(host), 0, path_query@, 0);
                assert(caps@.len() == caps.deep_view().len());
                assert(forall|k: int| 0 <= k < caps@.len() ==> caps@[k]@ == caps.deep_view()[k]);
            }
            let endpoint = if matches!(&host, Host::Bugzilla(_)) {
                get_rest_url(d.as_str(), caps[0].as_str())
            } else {
                match get_jsonrpc_url(d.as_str(), caps[0].as_str()) {
                    Ok(u) => u,
                    Err(e) => {
                        return Err(e);
                    },
                }
            };
            Ok(ApiRequest { host, endpoint, token_key: None })
        },
    }
}

/// What normalizing a forge body must yield: the body's `title` and `state`
/// fields are required, the state must be a known literal, and the override
/// cascade fixes the final state; each failure gets its error.
pub open spec fn forge_normalization(body: Seq<char>, r: Result<Info, Error>) -> bool {
    let fields = forge_fields_of(body);
    match (fields.0, fields.1) {
        (Option::None, _) => r == Err::<Info, Error>(Error::FailedMatch),
        (Option::Some(_), Option::None) => r == Err::<Info, Error>(Error::FailedMatch),
        (Option::Some(t), Option::Some(s)) => match state_from_str(s) {
            Option::Some(base) => match r {
                Result::Ok(i) => i.title@ == t && i.state == final_state(
                    base,
                    fields.2,
                    fields.3,
                    t,
                ),
                Result::Err(_) => false,
            },
            Option::None => match r {
                Result::Err(Error::UnknownState(v)) => v@ == s,
                _ => false,
            },
        },
    }
}

/// What normalizing a bug tracker body must yield: a well-formed record
/// list answers with its first record, Open or Closed by its flag, or with
/// `Unreachable` when it is empty. Otherwise an unparseable body or a bad
/// `bugs` shape fails with `FailedMatch`, and a missing `result` field
/// under JSON-RPC with `InvalidURL`.
pub open spec fn bugzilla_normalization(
    body: Seq<char>,
    jsonrpc: bool,
    r: Result<Info, Error>,
) -> bool {
    match bugzilla_bugs_of(body, jsonrpc) {
        Option::Some(bs) => if bs.len() == 0 {
            r == Err::<Info, Error>(Error::Unreachable)
        } else {
            match r {
                Result::Ok(i) => i.title@ == bs[0].0 && i.state == (if bs[0].1 {
                    State::Open
                } else {
                    State::Closed
                }),
                Result::Err(_) => false,
            }
        },
        Option::None => if !json_parses(body) {
            r == Err::<Info, Error>(Error::FailedMatch)
        } else if jsonrpc && !jsonrpc_result_present(body) {
            r == Err::<Info, Error>(Error::InvalidURL)
        } else {
            r == Err::<Info, Error>(Error::FailedMatch)
        },
    }
}

/// Normalizes a forge's single-object response body, exactly as
/// `forge_normalization` demands of the body's fields.
pub fn normalize_forge_body(body: &str) -> (r: Result<Info, Error>)
    ensures
        forge_normalization(body@, r),
{
    let fields = extract_forge_fields(body);
    let r = normalize_fields(&fields);
    proof {
        let ghost gfields = fields;
        assert(fields_view(gfields) == forge_fields_of(body@));
        match (gfields.title, gfields.state) {
            (Option::Some(t), Option::Some(s)) => {
                assert(forge_fields_of(body@).0 == Some(t@));
                assert(forge_fields_of(body@).1 == Some(s@));
            },
            (Option::Some(t), Option::None) => {
                assert(forge_fields_of(body@).0 == Some(t@));
                assert(forge_fields_of(body@).1 is None);
            },
            (Option::None, _) => {
                assert(forge_fields_of(body@).0 is None);
            },
        }
    }
    r
}

/// Normalizes a bug tracker's response body, exactly as
/// `bugzilla_normalization` demands of the body's records.
pub fn normalize_bugzilla_body(body: &str, jsonrpc: bool) -> (r: Result<Info, Error>)
    ensures
        bugzilla_normalization(body@, jsonrpc, r),
{
    match bugzilla_records(body, jsonrpc) {
        Some(bugs) => {
            let infos = bugs_to_infos(&bugs);
            let res = first_info(infos);
            proof {
                assert(bugzilla_bugs_of(body@, jsonrpc) == Some(bugs_view(bugs@)));
                assert(bugs_view(bugs@).len() == bugs@.len());
                if bugs@.len() > 0 {
                    assert(bugs_view(bugs@)[0] == (bugs@[0].summary@, bugs@[0].is_open));
                }
            }
            res
        },
        None => {
            if !body_parses(body) {
                Err(Error::FailedMatch)
            } else if jsonrpc && !body_has_result(body) {
                Err(Error::InvalidURL)
            } else {
                Err(Error::FailedMatch)
            }
        },
    }
}

/// Normalizes the response body the planned request's backend answered
/// with: forges go through the override cascade, bug trackers through the
/// `bugs` array.
pub fn normalize_response(host: &Host, body: &str) -> (r: Result<Info, Error>)
    ensures
        (host matches Host::Github || host matches Host::Gitlab(_) || host matches Host::Gitea(_))
            ==> forge_normalization(body@, r),
        host matches Host::Bugzilla(_) ==> bugzilla_normalization(body@, false, r),
        host matches Host::BugzillaJsonRpc(_) ==> bugzilla_normalization(body@, true, r),
{
    match host {
        Host::Github | Host::Gitlab(_) | Host::Gitea(_) => normalize_forge_body(body),
        Host::Bugzilla(_) => normalize_bugzilla_body(body, false),
        Host::BugzillaJsonRpc(_) => normalize_bugzilla_body(body, true),
    }
}

} // verus!
