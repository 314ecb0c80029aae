use oye::config::Config;
use oye::oye::{
    decode_creation, decode_deletion, decode_listing, decode_service_failure, reminder_from_json,
    reminders_from_json, status_is_error, ClientError, Exchange, Method, OyeClient,
    OyeClientError, Reminder, Request,
};

fn client_at(base: &str) -> OyeClient {
    OyeClient::new(&Config { oye_api_url: base.to_string() })
}

fn reminder(id: &str, description: &str) -> Reminder {
    Reminder { id: id.to_string(), description: description.to_string() }
}

fn response(status: u16, body: &str) -> Exchange {
    Exchange::Response { status, body: body.to_string() }
}

fn parse_error(body: &str) -> String {
    serde_jsonrc::from_str::<serde_jsonrc::Value>(body).unwrap_err().to_string()
}

#[test]
fn new_takes_the_url_of_the_config() {
    assert_eq!(client_at("http://localhost:8080/").base_url, "http://localhost:8080/");
}

#[test]
fn list_request_asks_the_collection() {
    let request = client_at("http://localhost:8080/").list_request();
    assert_eq!(
        request,
        Some(Request {
            method: Method::Get,
            url: "http://localhost:8080/reminder".to_string(),
            body: None,
            timezone: None,
        })
    );
}

#[test]
fn requests_join_the_path_as_a_relative_reference() {
    let under = client_at("http://localhost:8080/api/").list_request().unwrap();
    assert_eq!(under.url, "http://localhost:8080/api/reminder");
    let beside = client_at("http://localhost:8080/api").list_request().unwrap();
    assert_eq!(beside.url, "http://localhost:8080/reminder");
}

#[test]
fn requests_are_none_where_the_base_admits_no_path() {
    let client = client_at("mailto:someone@example.net");
    assert_eq!(client.list_request(), None);
    assert_eq!(client.create_request("call mom", "+02:00"), None);
    assert_eq!(client.delete_request("r1"), None);
    assert_eq!(client_at("not a url").list_request(), None);
}

#[test]
fn get_post_and_delete_differ_in_method_and_body() {
    let client = client_at("http://h/");
    let get = client.get("x").unwrap();
    assert_eq!(get.method, Method::Get);
    assert_eq!(get.url, "http://h/x");
    assert_eq!(get.body, None);
    let post = client.post("x", "payload".to_string()).unwrap();
    assert_eq!(post.method, Method::Post);
    assert_eq!(post.url, "http://h/x");
    assert_eq!(post.body, Some("payload".to_string()));
    assert_eq!(post.timezone, None);
    let delete = client.delete("x/1").unwrap();
    assert_eq!(delete.method, Method::Delete);
    assert_eq!(delete.url, "http://h/x/1");
    assert_eq!(delete.body, None);
}

#[test]
fn create_request_carries_the_utterance_and_the_timezone() {
    let request = client_at("http://localhost:8080/").create_request("call mom", "+02:00");
    assert_eq!(
        request,
        Some(Request {
            method: Method::Post,
            url: "http://localhost:8080/reminder".to_string(),
            body: Some("{\"utterance\":\"call mom\"}".to_string()),
            timezone: Some("+02:00".to_string()),
        })
    );
}

#[test]
fn create_request_escapes_the_utterance() {
    let request = client_at("http://h/").create_request("say \"hi\"\n\\ \u{1}", "-08:00").unwrap();
    assert_eq!(request.body, Some("{\"utterance\":\"say \\\"hi\\\"\\n\\\\ \\u0001\"}".to_string()));
    let body = request.body.unwrap();
    let parsed: serde_jsonrc::Value = serde_jsonrc::from_str(&body).unwrap();
    assert_eq!(parsed.get("utterance").and_then(|u| u.as_str()), Some("say \"hi\"\n\\ \u{1}"));
}

#[test]
fn delete_request_addresses_the_reminder() {
    let request = client_at("http://localhost:8080/").delete_request("r1");
    assert_eq!(
        request,
        Some(Request {
            method: Method::Delete,
            url: "http://localhost:8080/reminder/r1".to_string(),
            body: None,
            timezone: None,
        })
    );
}

#[test]
fn status_is_error_from_400_to_599() {
    assert!(!status_is_error(200));
    assert!(!status_is_error(204));
    assert!(!status_is_error(302));
    assert!(!status_is_error(399));
    assert!(status_is_error(400));
    assert!(status_is_error(404));
    assert!(status_is_error(499));
    assert!(status_is_error(500));
    assert!(status_is_error(599));
    assert!(!status_is_error(600));
}

#[test]
fn get_reminders_returns_the_listed_reminders_in_order() {
    let body = "{\"reminders\":[{\"id\":\"r1\",\"description\":\"buy milk\"},{\"id\":\"r2\",\"description\":\"call mom\"}]}";
    assert_eq!(
        OyeClient::get_reminders(response(200, body)),
        Ok(vec![reminder("r1", "buy milk"), reminder("r2", "call mom")])
    );
}

#[test]
fn get_reminders_returns_an_empty_list() {
    assert_eq!(OyeClient::get_reminders(response(200, "{\"reminders\":[]}")), Ok(vec![]));
}

#[test]
fn get_reminders_keeps_the_fields_as_they_came() {
    let body = "{\"reminders\":[{\"description\":\" 007 \",\"id\":\"007\",\"extra\":1},{\"id\":\"\",\"description\":\"caf\\u00e9 \\\"x\\\"\"}],\"more\":null}";
    assert_eq!(
        OyeClient::get_reminders(response(200, body)),
        Ok(vec![reminder("007", " 007 "), reminder("", "caf\u{e9} \"x\"")])
    );
}

#[test]
fn get_reminders_reads_json_with_comments_and_trailing_commas() {
    let body = "{\n  // the one reminder\n  \"reminders\": [\n    {\"id\": \"r1\", \"description\": \"buy milk\",},\n  ],\n}";
    assert_eq!(OyeClient::get_reminders(response(200, body)), Ok(vec![reminder("r1", "buy milk")]));
}

#[test]
fn get_reminders_reports_the_message_of_an_error_status() {
    assert_eq!(
        OyeClient::get_reminders(response(500, "{\"message\":\"database is down\"}")),
        Err(OyeClientError::FailedToGetReminders(ClientError::ServiceError(
            "database is down".to_string()
        )))
    );
    assert_eq!(
        OyeClient::get_reminders(response(404, "{\"message\":\"\",\"code\":7}")),
        Err(OyeClientError::FailedToGetReminders(ClientError::ServiceError("".to_string())))
    );
}

#[test]
fn get_reminders_reports_a_protocol_error_for_a_malformed_error_body() {
    assert_eq!(
        OyeClient::get_reminders(response(500, "<html>oops</html>")),
        Err(OyeClientError::FailedToGetReminders(ClientError::ProtocolError(parse_error(
            "<html>oops</html>"
        ))))
    );
    assert_eq!(
        OyeClient::get_reminders(response(400, "{\"error\":\"bad\"}")),
        Err(OyeClientError::FailedToGetReminders(ClientError::ProtocolError(
            "missing or malformed field `message`".to_string()
        )))
    );
    assert_eq!(
        OyeClient::get_reminders(response(400, "{\"message\":42}")),
        Err(OyeClientError::FailedToGetReminders(ClientError::ProtocolError(
            "missing or malformed field `message`".to_string()
        )))
    );
}

#[test]
fn get_reminders_does_not_read_a_listing_from_an_error_status() {
    let body = "{\"reminders\":[{\"id\":\"r1\",\"description\":\"buy milk\"}]}";
    assert_eq!(
        OyeClient::get_reminders(response(503, body)),
        Err(OyeClientError::FailedToGetReminders(ClientError::ProtocolError(
            "missing or malformed field `message`".to_string()
        )))
    );
}

#[test]
fn get_reminders_reports_a_protocol_error_for_a_malformed_body() {
    assert_eq!(
        OyeClient::get_reminders(response(200, "<not json>")),
        Err(OyeClientError::FailedToGetReminders(ClientError::ProtocolError(parse_error(
            "<not json>"
        ))))
    );
    assert_eq!(parse_error("<not json>"), "expected value at line 1 column 1");
    let missing = Err(OyeClientError::FailedToGetReminders(ClientError::ProtocolError(
        "missing or malformed field `reminders`".to_string(),
    )));
    assert_eq!(OyeClient::get_reminders(response(200, "{}")), missing);
    assert_eq!(OyeClient::get_reminders(response(200, "[]")), missing);
    assert_eq!(OyeClient::get_reminders(response(200, "{\"reminders\":{}}")), missing);
    assert_eq!(OyeClient::get_reminders(response(200, "{\"reminders\":[{\"id\":\"r1\"}]}")), missing);
    assert_eq!(
        OyeClient::get_reminders(response(
            200,
            "{\"reminders\":[{\"id\":\"r1\",\"description\":\"a\"},{\"id\":2,\"description\":\"b\"}]}"
        )),
        missing
    );
}

#[test]
fn get_reminders_reports_a_transport_failure() {
    assert_eq!(
        OyeClient::get_reminders(Exchange::Failed("connection refused".to_string())),
        Err(OyeClientError::FailedToGetReminders(ClientError::TransportError(
            "connection refused".to_string()
        )))
    );
}

#[test]
fn operations_report_an_unreadable_body() {
    let detail =
        "failed to get body from API response - response status code: 404 Not Found".to_string();
    let unreadable = || Exchange::Unreadable { status_line: "404 Not Found".to_string() };
    assert_eq!(
        OyeClient::get_reminders(unreadable()),
        Err(OyeClientError::FailedToGetReminders(ClientError::TransportError(detail.clone())))
    );
    assert_eq!(
        OyeClient::create_reminder(unreadable()),
        Err(OyeClientError::FailedToCreateReminder(ClientError::TransportError(detail.clone())))
    );
    assert_eq!(
        OyeClient::delete_reminder(unreadable()),
        Err(OyeClientError::FailedToDeleteReminder(ClientError::TransportError(detail)))
    );
}

#[test]
fn create_reminder_returns_the_reminder_of_the_service() {
    let body = "{\"added_reminder\":{\"id\":\"r9\",\"description\":\"call mom at 5\"}}";
    assert_eq!(OyeClient::create_reminder(response(201, body)), Ok(reminder("r9", "call mom at 5")));
}

#[test]
fn create_reminder_reports_the_message_of_an_error_status() {
    assert_eq!(
        OyeClient::create_reminder(response(422, "{\"message\":\"cannot understand\"}")),
        Err(OyeClientError::FailedToCreateReminder(ClientError::ServiceError(
            "cannot understand".to_string()
        )))
    );
}

#[test]
fn create_reminder_reports_protocol_errors() {
    assert_eq!(
        OyeClient::create_reminder(response(500, "")),
        Err(OyeClientError::FailedToCreateReminder(ClientError::ProtocolError(parse_error(""))))
    );
    assert_eq!(
        OyeClient::create_reminder(response(200, "{\"added_reminder\":{\"id\":\"r9\"}}")),
        Err(OyeClientError::FailedToCreateReminder(ClientError::ProtocolError(
            "missing or malformed field `added_reminder`".to_string()
        )))
    );
    assert_eq!(
        OyeClient::create_reminder(response(200, "{\"deleted_reminder\":{\"id\":\"r9\",\"description\":\"x\"}}")),
        Err(OyeClientError::FailedToCreateReminder(ClientError::ProtocolError(
            "missing or malformed field `added_reminder`".to_string()
        )))
    );
    assert_eq!(
        OyeClient::create_reminder(Exchange::Failed("timed out".to_string())),
        Err(OyeClientError::FailedToCreateReminder(ClientError::TransportError(
            "timed out".to_string()
        )))
    );
}

#[test]
fn delete_reminder_returns_the_deleted_reminder_whatever_the_status() {
    let body = "{\"deleted_reminder\":{\"id\":\"r1\",\"description\":\"buy milk\"}}";
    assert_eq!(OyeClient::delete_reminder(response(200, body)), Ok(reminder("r1", "buy milk")));
    assert_eq!(OyeClient::delete_reminder(response(404, body)), Ok(reminder("r1", "buy milk")));
    assert_eq!(OyeClient::delete_reminder(response(500, body)), Ok(reminder("r1", "buy milk")));
}

#[test]
fn delete_reminder_reports_the_raw_body_whatever_the_status() {
    let body = "{\"message\":\"no such reminder\"}";
    let expected = Err(OyeClientError::FailedToDeleteReminder(ClientError::ProtocolError(
        "could not parse response payload. Reason: missing or malformed field `deleted_reminder`. Response: {\"message\":\"no such reminder\"}".to_string(),
    )));
    assert_eq!(OyeClient::delete_reminder(response(404, body)), expected);
    assert_eq!(OyeClient::delete_reminder(response(200, body)), expected);
    assert_eq!(OyeClient::delete_reminder(response(500, body)), expected);
}

#[test]
fn delete_reminder_reports_the_parse_failure_and_the_raw_body() {
    let body = "Internal Server Error";
    let detail = format!(
        "could not parse response payload. Reason: {}. Response: Internal Server Error",
        parse_error(body)
    );
    assert_eq!(
        detail,
        "could not parse response payload. Reason: expected value at line 1 column 1. Response: Internal Server Error"
    );
    assert_eq!(
        OyeClient::delete_reminder(response(500, body)),
        Err(OyeClientError::FailedToDeleteReminder(ClientError::ProtocolError(detail)))
    );
    assert_eq!(
        OyeClient::delete_reminder(Exchange::Failed("dns failure".to_string())),
        Err(OyeClientError::FailedToDeleteReminder(ClientError::TransportError(
            "dns failure".to_string()
        )))
    );
}

#[test]
fn decoders_take_the_parsed_body() {
    let listing = serde_jsonrc::from_str::<serde_jsonrc::Value>(
        "{\"reminders\":[{\"id\":\"r1\",\"description\":\"buy milk\"}]}",
    )
    .map_err(|e| e.to_string());
    assert_eq!(decode_listing(200, listing.clone()), Ok(vec![reminder("r1", "buy milk")]));
    assert_eq!(
        decode_listing(500, listing),
        Err(ClientError::ProtocolError("missing or malformed field `message`".to_string()))
    );
    assert_eq!(
        decode_listing(200, Err("bad".to_string())),
        Err(ClientError::ProtocolError("bad".to_string()))
    );
    assert_eq!(
        decode_creation(200, Err("bad".to_string())),
        Err(ClientError::ProtocolError("bad".to_string()))
    );
    assert_eq!(
        decode_creation(400, Err("bad".to_string())),
        Err(ClientError::ProtocolError("bad".to_string()))
    );
    assert_eq!(
        decode_deletion("raw", Err("bad".to_string())),
        Err(ClientError::ProtocolError(
            "could not parse response payload. Reason: bad. Response: raw".to_string()
        ))
    );
    assert_eq!(
        decode_service_failure(Err("bad".to_string())),
        ClientError::ProtocolError("bad".to_string())
    );
    let mut members = serde_jsonrc::Map::new();
    members.insert("message".to_string(), serde_jsonrc::Value::String("boom".to_string()));
    assert_eq!(
        decode_service_failure(Ok(serde_jsonrc::Value::Object(members))),
        ClientError::ServiceError("boom".to_string())
    );
}

#[test]
fn reminder_from_json_reads_an_object_with_two_strings() {
    let mut members = serde_jsonrc::Map::new();
    members.insert("id".to_string(), serde_jsonrc::Value::String("r1".to_string()));
    assert_eq!(reminder_from_json(&serde_jsonrc::Value::Object(members.clone())), None);
    members.insert("description".to_string(), serde_jsonrc::Value::String("buy milk".to_string()));
    members.insert("done".to_string(), serde_jsonrc::Value::Bool(false));
    assert_eq!(
        reminder_from_json(&serde_jsonrc::Value::Object(members.clone())),
        Some(reminder("r1", "buy milk"))
    );
    members.insert("description".to_string(), serde_jsonrc::Value::Null);
    assert_eq!(reminder_from_json(&serde_jsonrc::Value::Object(members)), None);
    assert_eq!(reminder_from_json(&serde_jsonrc::Value::String("r1".to_string())), None);
    let pair = serde_jsonrc::Value::Array(vec![
        serde_jsonrc::Value::String("r1".to_string()),
        serde_jsonrc::Value::String("buy milk".to_string()),
    ]);
    assert_eq!(reminder_from_json(&pair), None);
}

#[test]
fn reminders_from_json_reads_the_member_reminders() {
    let value: serde_jsonrc::Value =
        serde_jsonrc::from_str("{\"reminders\":[{\"id\":\"a\",\"description\":\"b\"}]}").unwrap();
    assert_eq!(reminders_from_json(&value), Some(vec![reminder("a", "b")]));
    let other: serde_jsonrc::Value = serde_jsonrc::from_str("{\"reminders\":\"none\"}").unwrap();
    assert_eq!(reminders_from_json(&other), None);
}

#[test]
fn errors_are_described_as_debug_writes_them() {
    let error = OyeClientError::FailedToGetReminders(ClientError::ServiceError(
        "say \"please\"\n".to_string(),
    ));
    assert_eq!(error.describe(), "FailedToGetReminders(ServiceError(\"say \\\"please\\\"\\n\"))");
    assert_eq!(error.describe(), format!("{:?}", error));
    let transport =
        OyeClientError::FailedToCreateReminder(ClientError::TransportError("down".to_string()));
    assert_eq!(transport.describe(), "FailedToCreateReminder(TransportError(\"down\"))");
    let protocol =
        OyeClientError::FailedToDeleteReminder(ClientError::ProtocolError("odd".to_string()));
    assert_eq!(protocol.describe(), "FailedToDeleteReminder(ProtocolError(\"odd\"))");
    assert_eq!(protocol.cause(), &ClientError::ProtocolError("odd".to_string()));
    assert_eq!(protocol.cause().describe(), "ProtocolError(\"odd\")");
}

#[test]
fn reminders_are_described_as_debug_writes_them() {
    let r = reminder("r1", "buy \"milk\"");
    assert_eq!(r.describe(), "Reminder { id: \"r1\", description: \"buy \\\"milk\\\"\" }");
    assert_eq!(r.describe(), format!("{:?}", r));
    assert_eq!(r.clone(), r);
}
