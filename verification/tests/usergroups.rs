use std::cell::RefCell;

use slack_api::call::{outcome, Request, Response};
use slack_api::decode::DecodeError;
use slack_api::usergroups::{
    create, decode_usergroup, disable, enable, list, update, CreateError, CreateRequest,
    CreateResponse, DisableRequest, DisableResponse, EnableRequest, EnableResponse, ListError,
    ListRequest, ListResponse, UpdateError, UpdateRequest, UpdateResponse, Usergroup,
};
use slack_api::SlackWebRequestSender;

struct Sent {
    verb: &'static str,
    url: String,
    params: Vec<(String, String)>,
    headers: usize,
}

struct Stub {
    reply: Result<String, String>,
    sent: RefCell<Vec<Sent>>,
}

impl Stub {
    fn answering(body: &str) -> Stub {
        Stub { reply: Ok(body.to_string()), sent: RefCell::new(Vec::new()) }
    }
}

fn copy(pairs: &[(&str, &str)]) -> Vec<(String, String)> {
    pairs.iter().map(|(n, v)| (n.to_string(), v.to_string())).collect()
}

impl SlackWebRequestSender for Stub {
    type Error = String;

    fn get(&self, method_url: &str, params: &[(&str, &str)]) -> Result<String, String> {
        self.sent.borrow_mut().push(Sent {
            verb: "GET",
            url: method_url.to_string(),
            params: copy(params),
            headers: 0,
        });
        self.reply.clone()
    }

    fn post(
        &self,
        method_url: &str,
        form: &[(&str, &str)],
        headers: &[(&str, &str)],
    ) -> Result<String, String> {
        self.sent.borrow_mut().push(Sent {
            verb: "POST",
            url: method_url.to_string(),
            params: copy(form),
            headers: headers.len(),
        });
        self.reply.clone()
    }
}

fn text(s: &str) -> Option<String> {
    Some(s.to_string())
}

fn both(name: &str, value: &str) -> (String, String) {
    (name.to_string(), value.to_string())
}

const GROUP: &str = r#"{
    "id": "S0615G0KT",
    "team_id": "T060RNRCH",
    "is_usergroup": true,
    "name": "Marketing Team",
    "description": "Marketing gurus, PR experts and product advocates.",
    "handle": "marketing-team",
    "is_external": false,
    "date_create": 1446746793,
    "date_update": 1446746793,
    "date_delete": 0,
    "auto_type": null,
    "created_by": "U060RNRCZ",
    "updated_by": "U060RNRCZ",
    "deleted_by": null,
    "prefs": {"channels": [], "groups": []},
    "users": ["U060RNRCZ", "U060ULRC0"],
    "user_count": "2"
}"#;

fn marketing() -> Usergroup {
    Usergroup {
        id: "S0615G0KT".to_string(),
        team_id: text("T060RNRCH"),
        name: text("Marketing Team"),
        handle: text("marketing-team"),
        description: text("Marketing gurus, PR experts and product advocates."),
        is_external: Some(false),
        date_create: Some(1446746793),
        date_update: Some(1446746793),
        date_delete: Some(0),
        created_by: text("U060RNRCZ"),
        updated_by: text("U060RNRCZ"),
        deleted_by: None,
        users: Some(vec!["U060RNRCZ".to_string(), "U060ULRC0".to_string()]),
    }
}

fn bare(id: &str) -> Usergroup {
    Usergroup {
        id: id.to_string(),
        team_id: None,
        name: None,
        handle: None,
        description: None,
        is_external: None,
        date_create: None,
        date_update: None,
        date_delete: None,
        created_by: None,
        updated_by: None,
        deleted_by: None,
        users: None,
    }
}

#[test]
fn create_params_with_only_the_name() {
    let request = CreateRequest { name: "Team".to_string(), ..CreateRequest::default() };
    assert_eq!(request.params(), vec![("name", "Team".to_string())]);
}

#[test]
fn create_params_with_every_field() {
    let request = CreateRequest {
        channels: text("C1,C2"),
        description: text("about"),
        handle: text("team"),
        include_count: Some(true),
        name: "Team".to_string(),
    };
    assert_eq!(
        request.params(),
        vec![
            ("channels", "C1,C2".to_string()),
            ("description", "about".to_string()),
            ("handle", "team".to_string()),
            ("include_count", "true".to_string()),
            ("name", "Team".to_string()),
        ]
    );
}

#[test]
fn disable_and_enable_params() {
    let off = DisableRequest { include_count: Some(false), usergroup: "S1".to_string() };
    assert_eq!(
        off.params(),
        vec![("include_count", "false".to_string()), ("usergroup", "S1".to_string())]
    );
    let on = EnableRequest { include_count: None, usergroup: "S1".to_string() };
    assert_eq!(on.params(), vec![("usergroup", "S1".to_string())]);
}

#[test]
fn list_params_may_be_empty() {
    assert_eq!(ListRequest::default().params(), Vec::<(&str, String)>::new());
}

#[test]
fn list_params_tell_the_three_flags_apart() {
    let request = ListRequest {
        include_count: Some(true),
        include_disabled: Some(false),
        include_users: Some(true),
    };
    assert_eq!(
        request.params(),
        vec![
            ("include_count", "true".to_string()),
            ("include_disabled", "false".to_string()),
            ("include_users", "true".to_string()),
        ]
    );
    let users = ListRequest { include_users: Some(false), ..ListRequest::default() };
    assert_eq!(users.params(), vec![("include_users", "false".to_string())]);
}

#[test]
fn update_params_name_is_optional_here() {
    let request = UpdateRequest {
        channels: None,
        description: text(""),
        handle: None,
        include_count: None,
        name: None,
        usergroup: "S1".to_string(),
    };
    assert_eq!(
        request.params(),
        vec![("description", String::new()), ("usergroup", "S1".to_string())]
    );
    let renamed = UpdateRequest {
        name: text("New"),
        usergroup: "S1".to_string(),
        ..UpdateRequest::default()
    };
    assert_eq!(
        renamed.params(),
        vec![("name", "New".to_string()), ("usergroup", "S1".to_string())]
    );
}

#[test]
fn usergroup_decodes_with_every_member() {
    let value: serde_json::Value = serde_json::from_str(GROUP).unwrap();
    assert_eq!(decode_usergroup(&value).unwrap(), marketing());
}

#[test]
fn usergroup_needs_only_its_id() {
    let value: serde_json::Value = serde_json::from_str(r#"{"id":"S1"}"#).unwrap();
    assert_eq!(decode_usergroup(&value).unwrap(), bare("S1"));
}

fn no_group(body: &str) {
    let value: serde_json::Value = serde_json::from_str(body).unwrap();
    assert!(
        matches!(decode_usergroup(&value), Err(DecodeError::Shape)),
        "decoded: {}",
        body
    );
}

#[test]
fn usergroup_of_another_shape_is_rejected() {
    no_group("{}");
    no_group("[]");
    no_group("\"S1\"");
    no_group(r#"{"id":null}"#);
    no_group(r#"{"id":7}"#);
    no_group(r#"{"id":"S1","team_id":1}"#);
    no_group(r#"{"id":"S1","name":[]}"#);
    no_group(r#"{"id":"S1","handle":false}"#);
    no_group(r#"{"id":"S1","description":{}}"#);
    no_group(r#"{"id":"S1","is_external":"no"}"#);
    no_group(r#"{"id":"S1","date_create":"1446746793"}"#);
    no_group(r#"{"id":"S1","date_update":-1}"#);
    no_group(r#"{"id":"S1","date_delete":1.5}"#);
    no_group(r#"{"id":"S1","created_by":1}"#);
    no_group(r#"{"id":"S1","updated_by":1}"#);
    no_group(r#"{"id":"S1","deleted_by":1}"#);
    no_group(r#"{"id":"S1","users":"U1"}"#);
    no_group(r#"{"id":"S1","users":["U1",null]}"#);
}

#[test]
fn usergroup_counts_reach_the_largest_u64() {
    let body = r#"{"id":"S1","date_create":18446744073709551615,"date_update":0}"#;
    let value: serde_json::Value = serde_json::from_str(body).unwrap();
    let group = decode_usergroup(&value).unwrap();
    assert_eq!(group.date_create, Some(u64::MAX));
    assert_eq!(group.date_update, Some(0));
    assert_eq!(group.date_delete, None);
    no_group(r#"{"id":"S1","date_create":18446744073709551616}"#);
}

#[test]
fn create_posts_the_form_and_decodes_the_group() {
    let body = format!(r#"{{"ok":true,"usergroup":{}}}"#, GROUP);
    let client = Stub::answering(&body);
    let request = CreateRequest {
        handle: text("marketing-team"),
        name: "Marketing Team".to_string(),
        ..CreateRequest::default()
    };
    assert_eq!(
        create(&client, &request).unwrap(),
        CreateResponse { ok: true, error: None, usergroup: Some(marketing()) }
    );
    let sent = client.sent.borrow();
    assert_eq!(sent.len(), 1);
    assert_eq!(sent[0].verb, "POST");
    assert_eq!(sent[0].url, "https://slack.com/api/usergroups.create");
    assert_eq!(sent[0].params, vec![both("handle", "marketing-team"), both("name", "Marketing Team")]);
    assert_eq!(sent[0].headers, 0);
}

#[test]
fn disable_posts_and_decodes() {
    let client = Stub::answering(r#"{"ok":true,"usergroup":{"id":"S1","date_delete":1446747568}}"#);
    let request = DisableRequest { include_count: None, usergroup: "S1".to_string() };
    let group = Usergroup { date_delete: Some(1446747568), ..bare("S1") };
    assert_eq!(
        disable(&client, &request).unwrap(),
        DisableResponse { ok: true, error: None, usergroup: Some(group) }
    );
    let sent = client.sent.borrow();
    assert_eq!(sent[0].verb, "POST");
    assert_eq!(sent[0].url, "https://slack.com/api/usergroups.disable");
    assert_eq!(sent[0].params, vec![both("usergroup", "S1")]);
}

#[test]
fn enable_posts_and_decodes() {
    let client = Stub::answering(r#"{"ok":true,"usergroup":{"id":"S1","date_delete":0}}"#);
    let request = EnableRequest { include_count: Some(true), usergroup: "S1".to_string() };
    let group = Usergroup { date_delete: Some(0), ..bare("S1") };
    assert_eq!(
        enable(&client, &request).unwrap(),
        EnableResponse { ok: true, error: None, usergroup: Some(group) }
    );
    let sent = client.sent.borrow();
    assert_eq!(sent[0].verb, "POST");
    assert_eq!(sent[0].url, "https://slack.com/api/usergroups.enable");
    assert_eq!(sent[0].params, vec![both("include_count", "true"), both("usergroup", "S1")]);
}

#[test]
fn update_posts_and_decodes() {
    let client = Stub::answering(r#"{"ok":true,"usergroup":{"id":"S1","name":"New"}}"#);
    let request = UpdateRequest {
        name: text("New"),
        usergroup: "S1".to_string(),
        ..UpdateRequest::default()
    };
    let group = Usergroup { name: text("New"), ..bare("S1") };
    assert_eq!(
        update(&client, &request).unwrap(),
        UpdateResponse { ok: true, error: None, usergroup: Some(group) }
    );
    let sent = client.sent.borrow();
    assert_eq!(sent[0].verb, "POST");
    assert_eq!(sent[0].url, "https://slack.com/api/usergroups.update");
    assert_eq!(sent[0].params, vec![both("name", "New"), both("usergroup", "S1")]);
}

#[test]
fn list_gets_and_decodes_the_groups_in_order() {
    let body = format!(r#"{{"ok":true,"usergroups":[{},{{"id":"S2"}},{{"id":"S0"}}]}}"#, GROUP);
    let client = Stub::answering(&body);
    let request = ListRequest { include_users: Some(true), ..ListRequest::default() };
    assert_eq!(
        list(&client, &request).unwrap(),
        ListResponse {
            ok: true,
            error: None,
            usergroups: Some(vec![marketing(), bare("S2"), bare("S0")]),
        }
    );
    let sent = client.sent.borrow();
    assert_eq!(sent[0].verb, "GET");
    assert_eq!(sent[0].url, "https://slack.com/api/usergroups.list");
    assert_eq!(sent[0].params, vec![both("include_users", "true")]);
}

#[test]
fn list_without_groups_and_with_none() {
    assert_eq!(
        outcome::<ListResponse, String>(Ok(r#"{"ok":true,"usergroups":[]}"#.to_string())).unwrap(),
        ListResponse { ok: true, error: None, usergroups: Some(Vec::new()) }
    );
    assert_eq!(
        outcome::<ListResponse, String>(Ok(r#"{"ok":false,"error":"missing_scope"}"#.to_string()))
            .unwrap(),
        ListResponse { ok: false, error: text("missing_scope"), usergroups: None }
    );
}

#[test]
fn list_with_a_group_of_another_shape_is_malformed() {
    let body = r#"{"ok":true,"usergroups":[{"id":"S1"},{"name":"nameless"}]}"#;
    match outcome::<ListResponse, String>(Ok(body.to_string())) {
        Err(ListError::MalformedResponse(raw, DecodeError::Shape)) => assert_eq!(raw, body),
        other => panic!("unexpected: {:?}", other),
    }
    let body = r#"{"ok":true,"usergroups":{"id":"S1"}}"#;
    match outcome::<ListResponse, String>(Ok(body.to_string())) {
        Err(ListError::MalformedResponse(raw, DecodeError::Shape)) => assert_eq!(raw, body),
        other => panic!("unexpected: {:?}", other),
    }
}

#[test]
fn create_semantic_error_is_a_response() {
    let client = Stub::answering(r#"{"ok":false,"error":"name_already_exists"}"#);
    let request = CreateRequest { name: "Team".to_string(), ..CreateRequest::default() };
    assert_eq!(
        create(&client, &request).unwrap(),
        CreateResponse { ok: false, error: text("name_already_exists"), usergroup: None }
    );
}

#[test]
fn create_with_a_group_of_another_shape_is_malformed() {
    let body = r#"{"ok":true,"usergroup":"S1"}"#;
    match outcome::<CreateResponse, String>(Ok(body.to_string())) {
        Err(CreateError::MalformedResponse(raw, DecodeError::Shape)) => assert_eq!(raw, body),
        other => panic!("unexpected: {:?}", other),
    }
}

#[test]
fn usergroups_pass_a_transport_error_on() {
    let client = Stub { reply: Err("dns".to_string()), sent: RefCell::new(Vec::new()) };
    match update(&client, &UpdateRequest::default()) {
        Err(UpdateError::Client(e)) => assert_eq!(e, "dns"),
        other => panic!("unexpected: {:?}", other),
    }
    match list(&client, &ListRequest::default()) {
        Err(ListError::Client(e)) => assert_eq!(e, "dns"),
        other => panic!("unexpected: {:?}", other),
    }
    assert_eq!(client.sent.borrow().len(), 2);
}

#[test]
fn usergroups_keep_a_body_that_is_no_json() {
    let client = Stub::answering("{\"ok\":tru");
    match create(&client, &CreateRequest::default()) {
        Err(CreateError::MalformedResponse(raw, DecodeError::Syntax(_))) => {
            assert_eq!(raw, "{\"ok\":tru")
        }
        other => panic!("unexpected: {:?}", other),
    }
}

#[test]
fn responses_decode_from_a_value() {
    let value: serde_json::Value = serde_json::from_str(r#"{"ok":true,"usergroup":null}"#).unwrap();
    assert_eq!(
        UpdateResponse::decode(&value).unwrap(),
        UpdateResponse { ok: true, error: None, usergroup: None }
    );
}
