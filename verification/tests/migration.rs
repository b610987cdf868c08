use std::cell::RefCell;

use slack_api::call::{outcome, Request, Response};
use slack_api::decode::DecodeError;
use slack_api::get_slack_url_for_method;
use slack_api::migration::{exchange, ExchangeError, ExchangeRequest, ExchangeResponse};
use slack_api::SlackWebRequestSender;

struct Call {
    verb: &'static str,
    url: String,
    params: Vec<(String, String)>,
    headers: Vec<(String, String)>,
}

struct Canned {
    reply: Result<String, String>,
    calls: RefCell<Vec<Call>>,
}

impl Canned {
    fn answering(body: &str) -> Canned {
        Canned { reply: Ok(body.to_string()), calls: RefCell::new(Vec::new()) }
    }

    fn failing(error: &str) -> Canned {
        Canned { reply: Err(error.to_string()), calls: RefCell::new(Vec::new()) }
    }
}

fn owned(pairs: &[(&str, &str)]) -> Vec<(String, String)> {
    pairs.iter().map(|(name, value)| (name.to_string(), value.to_string())).collect()
}

impl SlackWebRequestSender for Canned {
    type Error = String;

    fn get(&self, method_url: &str, params: &[(&str, &str)]) -> Result<String, String> {
        self.calls.borrow_mut().push(Call {
            verb: "GET",
            url: method_url.to_string(),
            params: owned(params),
            headers: Vec::new(),
        });
        self.reply.clone()
    }

    fn post(
        &self,
        method_url: &str,
        form: &[(&str, &str)],
        headers: &[(&str, &str)],
    ) -> Result<String, String> {
        self.calls.borrow_mut().push(Call {
            verb: "POST",
            url: method_url.to_string(),
            params: owned(form),
            headers: owned(headers),
        });
        self.reply.clone()
    }
}

fn users_only() -> ExchangeRequest {
    ExchangeRequest { team_id: None, to_old: None, users: "U1,U2".to_string() }
}

fn pair(name: &str, value: &str) -> (String, String) {
    (name.to_string(), value.to_string())
}

#[test]
fn url_joins_base_and_path() {
    assert_eq!(
        get_slack_url_for_method("/migration.exchange"),
        "https://slack.com/api/migration.exchange"
    );
    assert_eq!(get_slack_url_for_method(""), "https://slack.com/api");
}

#[test]
fn exchange_params_with_only_users() {
    let params = users_only().params();
    assert_eq!(params, vec![("users", "U1,U2".to_string())]);
}

#[test]
fn exchange_params_with_every_field() {
    let request = ExchangeRequest {
        team_id: Some("T1".to_string()),
        to_old: Some(true),
        users: "U1".to_string(),
    };
    assert_eq!(
        request.params(),
        vec![
            ("team_id", "T1".to_string()),
            ("to_old", "true".to_string()),
            ("users", "U1".to_string()),
        ]
    );
}

#[test]
fn exchange_params_send_false_and_empty_text() {
    let request = ExchangeRequest {
        team_id: Some(String::new()),
        to_old: Some(false),
        users: String::new(),
    };
    assert_eq!(
        request.params(),
        vec![
            ("team_id", String::new()),
            ("to_old", "false".to_string()),
            ("users", String::new()),
        ]
    );
}

#[test]
fn exchange_absent_field_has_no_entry() {
    let request =
        ExchangeRequest { team_id: None, to_old: Some(true), users: "U1".to_string() };
    let params = request.params();
    assert!(params.iter().all(|(name, _)| *name != "team_id"));
    assert_eq!(params.iter().filter(|(name, _)| *name == "to_old").count(), 1);
    assert_eq!(params.iter().filter(|(name, _)| *name == "users").count(), 1);
}

#[test]
fn exchange_scenario_decodes_the_canned_answer() {
    let client =
        Canned::answering(r#"{"ok":true,"team_id":"T1","user_id_map":{"U1":"U1X"}}"#);
    let response = exchange(&client, &users_only()).unwrap();
    assert_eq!(
        response,
        ExchangeResponse {
            ok: true,
            error: None,
            team_id: Some("T1".to_string()),
            enterprise_id: None,
            user_id_map: Some(vec![pair("U1", "U1X")]),
            invalid_user_ids: None,
        }
    );
    let calls = client.calls.borrow();
    assert_eq!(calls.len(), 1);
    assert_eq!(calls[0].verb, "GET");
    assert_eq!(calls[0].url, "https://slack.com/api/migration.exchange");
    assert_eq!(calls[0].params, vec![pair("users", "U1,U2")]);
    assert!(calls[0].headers.is_empty());
}

#[test]
fn exchange_scenario_keeps_a_body_that_is_no_json() {
    let client = Canned::answering("not json");
    match exchange(&client, &users_only()) {
        Err(ExchangeError::MalformedResponse(raw, DecodeError::Syntax(_))) => {
            assert_eq!(raw, "not json")
        }
        other => panic!("unexpected: {:?}", other),
    }
}

#[test]
fn exchange_keeps_a_truncated_body() {
    let body = r#"{"ok":true,"team_id":"T1","user_id_m"#;
    match outcome::<ExchangeResponse, String>(Ok(body.to_string())) {
        Err(ExchangeError::MalformedResponse(raw, DecodeError::Syntax(e))) => {
            assert_eq!(raw, body);
            assert!(e.is_eof());
        }
        other => panic!("unexpected: {:?}", other),
    }
}

#[test]
fn exchange_keeps_an_empty_body() {
    match outcome::<ExchangeResponse, String>(Ok(String::new())) {
        Err(ExchangeError::MalformedResponse(raw, DecodeError::Syntax(_))) => {
            assert_eq!(raw, "")
        }
        other => panic!("unexpected: {:?}", other),
    }
}

#[test]
fn exchange_keeps_a_body_with_text_after_the_document() {
    let body = r#"{"ok":true} {"ok":false}"#;
    match outcome::<ExchangeResponse, String>(Ok(body.to_string())) {
        Err(ExchangeError::MalformedResponse(raw, DecodeError::Syntax(_))) => {
            assert_eq!(raw, body)
        }
        other => panic!("unexpected: {:?}", other),
    }
}

#[test]
fn exchange_passes_a_transport_error_on() {
    let client = Canned::failing("connection refused");
    match exchange(&client, &users_only()) {
        Err(ExchangeError::Client(e)) => assert_eq!(e, "connection refused"),
        other => panic!("unexpected: {:?}", other),
    }
    assert_eq!(client.calls.borrow().len(), 1);
}

#[test]
fn exchange_outcome_of_a_transport_error() {
    match outcome::<ExchangeResponse, u32>(Err(7)) {
        Err(ExchangeError::Client(e)) => assert_eq!(e, 7),
        other => panic!("unexpected: {:?}", other),
    }
}

#[test]
fn exchange_semantic_error_is_a_response() {
    let response =
        outcome::<ExchangeResponse, String>(Ok(r#"{"ok":false,"error":"not_authed"}"#.to_string()))
            .unwrap();
    assert!(!response.ok);
    assert_eq!(response.error, Some("not_authed".to_string()));
    assert_eq!(response.team_id, None);
    assert_eq!(response.user_id_map, None);
}

#[test]
fn exchange_reads_every_member() {
    let body = r#"{
        "ok": true,
        "team_id": "T1KR7PE1W",
        "enterprise_id": "E1KQTNXE1",
        "user_id_map": {"U06UBSUN5": "W06M56XJM", "U07AAAAAA": "W07BBBBBB"},
        "invalid_user_ids": ["U21ABZZXY", "U22"],
        "more": [1, 2.5, null]
    }"#;
    let response = outcome::<ExchangeResponse, String>(Ok(body.to_string())).unwrap();
    assert!(response.ok);
    assert_eq!(response.error, None);
    assert_eq!(response.team_id, Some("T1KR7PE1W".to_string()));
    assert_eq!(response.enterprise_id, Some("E1KQTNXE1".to_string()));
    let mut map = response.user_id_map.unwrap();
    map.sort();
    assert_eq!(map, vec![pair("U06UBSUN5", "W06M56XJM"), pair("U07AAAAAA", "W07BBBBBB")]);
    assert_eq!(
        response.invalid_user_ids,
        Some(vec!["U21ABZZXY".to_string(), "U22".to_string()])
    );
}

#[test]
fn exchange_without_ok_counts_as_failed() {
    let response = outcome::<ExchangeResponse, String>(Ok("{}".to_string())).unwrap();
    assert_eq!(
        response,
        ExchangeResponse {
            ok: false,
            error: None,
            team_id: None,
            enterprise_id: None,
            user_id_map: None,
            invalid_user_ids: None,
        }
    );
}

#[test]
fn exchange_null_member_is_absent() {
    let body = r#"{"ok":null,"error":null,"team_id":null,"user_id_map":null,"invalid_user_ids":null}"#;
    let response = outcome::<ExchangeResponse, String>(Ok(body.to_string())).unwrap();
    assert!(!response.ok);
    assert_eq!(response.error, None);
    assert_eq!(response.team_id, None);
    assert_eq!(response.user_id_map, None);
    assert_eq!(response.invalid_user_ids, None);
}

#[test]
fn exchange_empty_collections_stay_empty() {
    let body = r#"{"ok":true,"user_id_map":{},"invalid_user_ids":[]}"#;
    let response = outcome::<ExchangeResponse, String>(Ok(body.to_string())).unwrap();
    assert_eq!(response.user_id_map, Some(Vec::new()));
    assert_eq!(response.invalid_user_ids, Some(Vec::new()));
}

fn shape_error(body: &str) {
    match outcome::<ExchangeResponse, String>(Ok(body.to_string())) {
        Err(ExchangeError::MalformedResponse(raw, DecodeError::Shape)) => assert_eq!(raw, body),
        other => panic!("unexpected for {}: {:?}", body, other),
    }
}

#[test]
fn exchange_rejects_a_document_of_another_shape() {
    shape_error("[]");
    shape_error("null");
    shape_error("\"ok\"");
    shape_error("17");
    shape_error(r#"{"ok":"true"}"#);
    shape_error(r#"{"ok":1}"#);
    shape_error(r#"{"ok":true,"error":false}"#);
    shape_error(r#"{"ok":true,"team_id":12}"#);
    shape_error(r#"{"ok":true,"enterprise_id":{}}"#);
    shape_error(r#"{"ok":true,"user_id_map":["U1"]}"#);
    shape_error(r#"{"ok":true,"user_id_map":{"U1":1}}"#);
    shape_error(r#"{"ok":true,"user_id_map":{"U1":"W1","U2":null}}"#);
    shape_error(r#"{"ok":true,"invalid_user_ids":"U1"}"#);
    shape_error(r#"{"ok":true,"invalid_user_ids":["U1",2]}"#);
}

#[test]
fn exchange_decodes_a_value() {
    let value: serde_json::Value =
        serde_json::from_str(r#"{"ok":true,"team_id":"T1","user_id_map":{"U1":"U1X"}}"#).unwrap();
    let response = ExchangeResponse::decode(&value).unwrap();
    assert!(response.ok);
    assert_eq!(response.team_id, Some("T1".to_string()));
    assert_eq!(response.user_id_map, Some(vec![pair("U1", "U1X")]));
    assert!(matches!(
        ExchangeResponse::decode(&serde_json::Value::String("T1".to_string())),
        Err(DecodeError::Shape)
    ));
}
