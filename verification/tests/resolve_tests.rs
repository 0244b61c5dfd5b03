use issue_info::hosts::Host;
use issue_info::matcher::match_pattern;
use issue_info::endpoints::{get_jsonrpc_url, get_rest_url};
use issue_info::{plan_request, Error};

#[test]
fn host_resolution_supported() {
    assert!(matches!(Host::from_domain("github.com"), Ok(Host::Github)));
    match Host::from_domain("codeberg.org") {
        Ok(Host::Gitea(d)) => assert_eq!(d, "codeberg.org"),
        _ => panic!("codeberg.org must resolve to Gitea"),
    }
    match Host::from_domain("gitlab.com") {
        Ok(Host::Gitlab(d)) => assert_eq!(d, "gitlab.com"),
        _ => panic!("gitlab.com must resolve to Gitlab"),
    }
    match Host::from_domain("gitlab.freedesktop.org") {
        Ok(Host::Gitlab(d)) => assert_eq!(d, "gitlab.freedesktop.org"),
        _ => panic!("gitlab.freedesktop.org must resolve to Gitlab"),
    }
    match Host::from_domain("bugs.winehq.org") {
        Ok(Host::BugzillaJsonRpc(d)) => assert_eq!(d, "bugs.winehq.org"),
        _ => panic!("bugs.winehq.org must resolve to BugzillaJsonRpc"),
    }
}

#[test]
fn host_resolution_unsupported() {
    match Host::from_domain("example.com") {
        Err(Error::UnknownHost(d)) => assert_eq!(d, "example.com"),
        _ => panic!("example.com must be unknown"),
    }
    assert!(matches!(
        Host::from_domain("gitlab.gnome.org"),
        Err(Error::UnknownHost(_))
    ));
}

#[test]
fn pattern_match_extracts_fields() {
    let caps = match_pattern("/:owner/:repo/:kind/:number", "/catppuccin/nvim/pull/8").unwrap();
    assert_eq!(caps, vec!["catppuccin", "nvim", "pull", "8"]);
}

#[test]
fn pattern_match_raw_segments() {
    let caps = match_pattern("/:owner/:repo/:kind/:number", "/cat pc/nv~m/pull/8").unwrap();
    assert_eq!(caps, vec!["cat pc", "nv~m", "pull", "8"]);
}

#[test]
fn pattern_match_failures() {
    assert!(matches!(
        match_pattern("/:owner/:repo/:kind/:number", "/only/three/segments"),
        Err(Error::FailedMatch)
    ));
    assert!(matches!(
        match_pattern("/:owner/:repo/-/:kind/:number", "/wayland/wayland/x/issues/369"),
        Err(Error::FailedMatch)
    ));
    assert!(matches!(
        match_pattern("/show_bug.cgi?id=:number", "/show_bug.cgi?bug=54692"),
        Err(Error::FailedMatch)
    ));
    assert!(matches!(
        match_pattern("/show_bug.cgi?id=:number", "/show_bug.cgi?id="),
        Err(Error::FailedMatch)
    ));
}

#[test]
fn github_endpoint_rewrites_pull() {
    let plan = plan_request("github.com", "/catppuccin/nvim/pull/8", "").unwrap();
    assert_eq!(
        plan.endpoint,
        "https://api.github.com/repos/catppuccin/nvim/pulls/8"
    );
    assert_eq!(plan.token_key.as_deref(), Some("GITHUB_TOKEN"));
    assert!(matches!(plan.host, Host::Github));
}

#[test]
fn github_endpoint_keeps_other_kinds() {
    let plan = plan_request("github.com", "/rust-lang/rust/issues/1", "").unwrap();
    assert_eq!(
        plan.endpoint,
        "https://api.github.com/repos/rust-lang/rust/issues/1"
    );
}

#[test]
fn gitlab_endpoint_encodes_project() {
    let plan = plan_request(
        "gitlab.com",
        "/simple-nixos-mailserver/nixos-mailserver/-/merge_requests/319",
        "",
    )
    .unwrap();
    assert_eq!(
        plan.endpoint,
        "https://gitlab.com/api/v4/projects/simple-nixos-mailserver%2Fnixos-mailserver/merge_requests/319"
    );
    assert_eq!(plan.token_key.as_deref(), Some("GITLAB_TOKEN"));
}

#[test]
fn gitlab_custom_domain_token_key() {
    let plan = plan_request("gitlab.freedesktop.org", "/wayland/wayland/-/issues/369", "").unwrap();
    assert_eq!(
        plan.endpoint,
        "https://gitlab.freedesktop.org/api/v4/projects/wayland%2Fwayland/issues/369"
    );
    assert_eq!(plan.token_key.as_deref(), Some("GITLABFREEDESKTOPORG_TOKEN"));
}

#[test]
fn gitea_endpoint_keeps_kind() {
    let plan = plan_request("codeberg.org", "/dnkl/foot/pulls/1640", "").unwrap();
    assert_eq!(
        plan.endpoint,
        "https://codeberg.org/api/v1/repos/dnkl/foot/pulls/1640"
    );
    assert_eq!(plan.token_key.as_deref(), Some("CODEBERG_TOKEN"));

    let plan = plan_request("codeberg.org", "/dnkl/foot/issues/1642", "").unwrap();
    assert_eq!(
        plan.endpoint,
        "https://codeberg.org/api/v1/repos/dnkl/foot/issues/1642"
    );
}

#[test]
fn bugzilla_jsonrpc_endpoint() {
    let plan = plan_request("bugs.winehq.org", "/show_bug.cgi", "id=54692").unwrap();
    assert_eq!(
        plan.endpoint,
        "https://bugs.winehq.org/jsonrpc.cgi?method=Bug.get&params=%5B%7B%22ids%22%3A+%5B54692%5D%7D%5D"
    );
    assert!(plan.token_key.is_none());
    assert!(matches!(plan.host, Host::BugzillaJsonRpc(_)));
}

#[test]
fn bugzilla_rest_url_shape() {
    assert_eq!(
        get_rest_url("bugs.example.org", "123"),
        "https://bugs.example.org/rest/bug/123"
    );
    assert_eq!(
        get_jsonrpc_url("bugs.winehq.org", "54692").unwrap(),
        "https://bugs.winehq.org/jsonrpc.cgi?method=Bug.get&params=%5B%7B%22ids%22%3A+%5B54692%5D%7D%5D"
    );
}

#[test]
fn jsonrpc_url_rejects_malformed_domain() {
    assert!(matches!(
        get_jsonrpc_url("bad domain", "1"),
        Err(Error::InvalidURL)
    ));
    assert!(get_jsonrpc_url("bugs.example.org", "1").is_ok());
}

#[test]
fn batch_one_bad_slot() {
    let inputs = vec![
        ("github.com", "/catppuccin/nvim/pull/110"),
        ("github.com", "/not-enough-segments"),
        ("github.com", "/catppuccin/nvim/pull/143"),
    ];
    let results: Vec<_> = inputs
        .iter()
        .map(|(domain, path)| plan_request(domain, path, ""))
        .collect();
    assert_eq!(results.len(), 3);
    assert!(results[0].is_ok());
    assert!(matches!(results[1], Err(Error::FailedMatch)));
    assert!(results[2].is_ok());
}

#[test]
fn token_var_per_backend() {
    assert_eq!(Host::Github.get_token_var(), "GITHUB_TOKEN");
    assert_eq!(
        Host::Gitlab(String::from("gitlab.com")).get_token_var(),
        "GITLAB_TOKEN"
    );
    assert_eq!(
        Host::Gitea(String::from("codeberg.org")).get_token_var(),
        "CODEBERG_TOKEN"
    );
    assert_eq!(
        Host::Gitea(String::from("projects.blender.org")).get_token_var(),
        "PROJECTSBLENDERORG_TOKEN"
    );
}

#[test]
fn pattern_per_backend() {
    assert_eq!(Host::Github.pattern(), "/:owner/:repo/:kind/:number");
    assert_eq!(
        Host::Gitlab(String::from("gitlab.com")).pattern(),
        "/:owner/:repo/-/:kind/:number"
    );
    assert_eq!(
        Host::Bugzilla(String::from("bugs.winehq.org")).pattern(),
        "/show_bug.cgi?id=:number"
    );
}
