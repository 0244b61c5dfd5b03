use issue_info::normalize::{normalize_fields, ForgeFields};
use issue_info::{normalize_response, Error, Host, Info, State};

fn fields(
    title: Option<&str>,
    state: Option<&str>,
    merged: Option<bool>,
    draft: Option<bool>,
) -> ForgeFields {
    ForgeFields {
        title: title.map(String::from),
        state: state.map(String::from),
        merged,
        draft,
    }
}

#[test]
fn base_state_mapping() {
    let open = normalize_fields(&fields(Some("t"), Some("open"), None, None)).unwrap();
    assert_eq!(open.state, State::Open);
    assert!(open.state.is_open());

    let opened = normalize_fields(&fields(Some("t"), Some("opened"), None, None)).unwrap();
    assert_eq!(opened.state, State::Open);

    let closed = normalize_fields(&fields(Some("t"), Some("closed"), None, None)).unwrap();
    assert_eq!(closed.state, State::Closed);
    assert!(!closed.state.is_open());

    let locked = normalize_fields(&fields(Some("t"), Some("locked"), None, None)).unwrap();
    assert_eq!(locked.state, State::Closed);

    let merged = normalize_fields(&fields(Some("t"), Some("merged"), None, None)).unwrap();
    assert_eq!(merged.state, State::Merged);
}

#[test]
fn missing_fields_fail() {
    assert!(matches!(
        normalize_fields(&fields(None, Some("open"), None, None)),
        Err(Error::FailedMatch)
    ));
    assert!(matches!(
        normalize_fields(&fields(Some("t"), None, None, None)),
        Err(Error::FailedMatch)
    ));
}

#[test]
fn unknown_state_is_reported() {
    match normalize_fields(&fields(Some("t"), Some("resolved"), None, None)) {
        Err(Error::UnknownState(v)) => assert_eq!(v, "resolved"),
        _ => panic!("an unknown state literal must be reported as such"),
    }
}

#[test]
fn merged_flag_overrides_base() {
    let info = normalize_fields(&fields(Some("t"), Some("closed"), Some(true), None)).unwrap();
    assert_eq!(info.state, State::Merged);

    let info = normalize_fields(&fields(Some("t"), Some("open"), Some(false), None)).unwrap();
    assert_eq!(info.state, State::Open);
}

#[test]
fn draft_flag_overrides_merged() {
    let info =
        normalize_fields(&fields(Some("t"), Some("opened"), Some(true), Some(true))).unwrap();
    assert_eq!(info.state, State::Draft);

    let info =
        normalize_fields(&fields(Some("t"), Some("opened"), Some(true), Some(false))).unwrap();
    assert_eq!(info.state, State::Merged);
}

#[test]
fn wip_title_forces_draft() {
    let info = normalize_fields(&fields(Some("wip: something"), Some("open"), None, None)).unwrap();
    assert_eq!(info.state, State::Draft);

    let info =
        normalize_fields(&fields(Some("wip: something"), Some("closed"), None, None)).unwrap();
    assert_eq!(info.state, State::Draft);

    let info = normalize_fields(&fields(Some("[wip] thing"), Some("merged"), None, None)).unwrap();
    assert_eq!(info.state, State::Draft);

    let info = normalize_fields(&fields(Some("Wip: not a draft"), Some("open"), None, None))
        .unwrap();
    assert_eq!(info.state, State::Open);
}

#[test]
fn github_merged_payload() {
    let host = Host::Github;
    let info = normalize_response(
        &host,
        "{\"title\":\"Add Kitty themes\",\"merged\":true,\"state\":\"closed\"}",
    )
    .unwrap();
    assert_eq!(
        info,
        Info {
            title: String::from("Add Kitty themes"),
            state: State::Merged,
        }
    );
    assert!(!info.state.is_open());
}

#[test]
fn gitlab_open_issue_payload() {
    let host = Host::Gitlab(String::from("gitlab.com"));
    let info = normalize_response(
        &host,
        "{\"title\":\"OpenDKIM rights problem\",\"state\":\"opened\"}",
    )
    .unwrap();
    assert_eq!(info.title, "OpenDKIM rights problem");
    assert_eq!(info.state, State::Open);
    assert!(info.state.is_open());
}

#[test]
fn bugzilla_jsonrpc_payload() {
    let host = Host::BugzillaJsonRpc(String::from("bugs.winehq.org"));
    let info = normalize_response(
        &host,
        "{\"result\":{\"bugs\":[{\"summary\":\"X\",\"is_open\":true}]}}",
    )
    .unwrap();
    assert_eq!(info.title, "X");
    assert_eq!(info.state, State::Open);
}

#[test]
fn bugzilla_rest_payload() {
    let host = Host::Bugzilla(String::from("bugs.example.org"));
    let info = normalize_response(
        &host,
        "{\"bugs\":[{\"summary\":\"closed bug\",\"is_open\":false}]}",
    )
    .unwrap();
    assert_eq!(info.title, "closed bug");
    assert_eq!(info.state, State::Closed);
}

#[test]
fn bugzilla_error_cases() {
    let rpc = Host::BugzillaJsonRpc(String::from("bugs.winehq.org"));
    assert!(matches!(
        normalize_response(&rpc, "{\"bugs\":[]}"),
        Err(Error::InvalidURL)
    ));
    assert!(matches!(
        normalize_response(&rpc, "{\"result\":{\"bugs\":[]}}"),
        Err(Error::Unreachable)
    ));
    let rest = Host::Bugzilla(String::from("bugs.example.org"));
    assert!(matches!(
        normalize_response(&rest, "{\"nothing\":1}"),
        Err(Error::FailedMatch)
    ));
    assert!(matches!(
        normalize_response(&rest, "not json at all"),
        Err(Error::FailedMatch)
    ));
}

#[test]
fn forge_body_error_cases() {
    let host = Host::Github;
    assert!(matches!(
        normalize_response(&host, "{\"state\":\"open\"}"),
        Err(Error::FailedMatch)
    ));
    assert!(matches!(
        normalize_response(&host, "{\"title\":\"t\"}"),
        Err(Error::FailedMatch)
    ));
    assert!(matches!(
        normalize_response(&host, "{\"title\":5,\"state\":\"open\"}"),
        Err(Error::FailedMatch)
    ));
    match normalize_response(&host, "{\"title\":\"t\",\"state\":\"hidden\"}") {
        Err(Error::UnknownState(v)) => assert_eq!(v, "hidden"),
        _ => panic!("an unknown state literal must be reported as such"),
    }
}

#[test]
fn state_text_forms() {
    assert_eq!(State::Open.as_str(), "open");
    assert_eq!(State::Closed.as_str(), "closed");
    assert_eq!(State::Merged.as_str(), "merged");
    assert_eq!(State::Draft.as_str(), "draft");
}
