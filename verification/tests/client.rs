use datadog_api::authentication::{ValidateRequest, ValidateResponse};
use datadog_api::client::{
    resolve, resolve_value, Call, Client, DatadogError, DatadogErrorResponse, Header, HttpRequest,
    HttpResponse, Method,
};
use datadog_api::dashboards::UpdateDashboardRequest;
use datadog_api::monitors::DeleteMonitorRequest;
use datadog_api::dashboard_lists::{DashboardReference, GetDashboardListItemsResponse};
use datadog_api::json::{DecodeError, JsonMember, JsonNumber, JsonValue};
use datadog_api::logs::SearchResponse;
use datadog_api::monitors::{DeleteMonitorResponse, MonitorsSearchResponse};
use datadog_api::security_monitoring::ListRulesResponse;
use datadog_api::text::path_with_query;

fn client() -> Client {
    Client::new("https://api.datadoghq.com", "0123", "abcd")
}

fn respond(status: u16, body: &str) -> HttpResponse {
    HttpResponse { status, body: body.to_string() }
}

fn auth() -> Vec<Header> {
    vec![
        Header { name: "DD-API-KEY".to_string(), value: "0123".to_string() },
        Header { name: "DD-APPLICATION-KEY".to_string(), value: "abcd".to_string() },
    ]
}

fn api_errors<T: std::fmt::Debug>(result: Result<T, DatadogError>) -> Vec<String> {
    match result {
        Err(DatadogError::Api(response)) => response.errors,
        other => panic!("unexpected outcome: {:?}", other),
    }
}

#[test]
fn client_keeps_host_and_keys() {
    let client = Client::new("https://api.datadoghq.eu", "k", "a");
    assert_eq!("https://api.datadoghq.eu", client.host);
    assert_eq!("k", client.api_key);
    assert_eq!("a", client.application_key);
}

#[test]
fn settings_need_both_keys_and_default_to_the_us_site() {
    let client = Client::from_settings(None, Some("k"), Some("a")).expect("a client");
    assert_eq!(Client::new("https://api.datadoghq.com", "k", "a"), client);
    assert_eq!("https://api.datadoghq.com", datadog_api::DEFAULT_HOST);
    let client = Client::from_settings(Some(datadog_api::EU_HOST), Some("k"), Some("a"));
    assert_eq!(Ok(Client::new("https://api.datadoghq.eu", "k", "a")), client);
    assert_eq!(
        Err(DatadogError::InvalidInput("the API key is missing".to_string())),
        Client::from_settings(Some("h"), None, Some("a"))
    );
    assert_eq!(
        Err(DatadogError::InvalidInput("the API key is missing".to_string())),
        Client::from_settings(None, None, None)
    );
    assert_eq!(
        Err(DatadogError::InvalidInput("the application key is missing".to_string())),
        Client::from_settings(Some("h"), Some("k"), None)
    );
}

#[test]
fn get_request_is_host_and_path_with_both_keys() {
    let request = client().get_raw("/api/v1/validate");
    let expected = HttpRequest {
        method: Method::Get,
        url: "https://api.datadoghq.com/api/v1/validate".to_string(),
        headers: auth(),
        body: None,
    };
    assert_eq!(expected, request);
}

#[test]
fn url_is_built_from_path_identifier_and_query_as_given() {
    let host = "https://api.datadoghq.com";
    let path = path_with_query("/api/v1/dashboard/abc", &vec!["limit=5".to_string()]);
    assert_eq!("/api/v1/dashboard/abc?limit=5", path);
    let request = client().get_raw(&path);
    assert_eq!(format!("{}/api/v1/dashboard/abc?limit=5", host), request.url);
    // Nothing is encoded again, and the parameters keep their order.
    let path = path_with_query(
        "/api/v1/x",
        &vec!["b=2".to_string(), "a=%20 1".to_string(), "c=a&b".to_string()],
    );
    assert_eq!("https://api.datadoghq.com/api/v1/x?b=2&a=%20 1&c=a&b", client().get_raw(&path).url);
    assert_eq!("/api/v1/x", path_with_query("/api/v1/x", &vec![]));
}

#[test]
fn written_bodies_are_sent_as_they_are() {
    let client = client();
    for (request, method) in [
        (client.post_jsonstr("/p", "{\"a\": 1}"), Method::Post),
        (client.put_jsonstr("/p", "{\"a\": 1}"), Method::Put),
        (client.delete_jsonstr("/p", "{\"a\": 1}"), Method::Delete),
    ] {
        let expected = HttpRequest {
            method,
            url: "https://api.datadoghq.com/p".to_string(),
            headers: auth(),
            body: Some("{\"a\": 1}".to_string()),
        };
        assert_eq!(expected, request);
    }
    assert_eq!(
        client.post_jsonstr("/p", "x"),
        client.request(Method::Post, "/p", Some("x".to_string()))
    );
}

#[test]
fn values_are_sent_as_json() {
    let client = client();
    let reference =
        DashboardReference { id: "a\"b".to_string(), _type: "custom_timeboard".to_string() };
    let mut headers = auth();
    headers.push(Header { name: "Content-Type".to_string(), value: "application/json".to_string() });
    for (request, method) in [
        (client.post_json("/p?x=1", &reference), Method::Post),
        (client.put_json("/p?x=1", &reference), Method::Put),
        (client.delete_json("/p?x=1", &reference), Method::Delete),
    ] {
        let expected = HttpRequest {
            method,
            url: "https://api.datadoghq.com/p?x=1".to_string(),
            headers: headers.clone(),
            body: Some("{\"id\":\"a\\\"b\",\"type\":\"custom_timeboard\"}".to_string()),
        };
        assert_eq!(expected, request);
    }
    assert_eq!(
        client.request_json(Method::Put, "/p", "[]".to_string()),
        client.put_json("/p", &Vec::<String>::new())
    );
}

#[test]
fn json_values_are_written_by_kind() {
    let value = JsonValue::Object(vec![
        JsonMember { name: "z".to_string(), value: JsonValue::Null },
        JsonMember { name: "b".to_string(), value: JsonValue::Bool(true) },
        JsonMember { name: "u".to_string(), value: JsonValue::Number(JsonNumber::Unsigned(u64::MAX)) },
        JsonMember { name: "i".to_string(), value: JsonValue::Number(JsonNumber::Signed(i64::MIN)) },
        JsonMember { name: "p".to_string(), value: JsonValue::Number(JsonNumber::Signed(7)) },
        JsonMember { name: "r".to_string(), value: JsonValue::Number(JsonNumber::Real("1.25".to_string())) },
        JsonMember { name: "s".to_string(), value: JsonValue::String("a\nb".to_string()) },
        JsonMember {
            name: "a".to_string(),
            value: JsonValue::Array(vec![JsonValue::Array(vec![]), JsonValue::Object(vec![])]),
        },
        JsonMember { name: "z".to_string(), value: JsonValue::Bool(false) },
    ]);
    let request = client().post_json("/p", &value);
    assert_eq!(
        Some(
            "{\"a\":[[],{}],\"b\":true,\"i\":-9223372036854775808,\"p\":7,\"r\":1.25,\"s\":\"a\\nb\",\
             \"u\":18446744073709551615,\"z\":false}"
                .to_string()
        ),
        request.body
    );
}

#[test]
fn json_values_are_read_by_kind() {
    let body = "{\"n\": null, \"t\": true, \"u\": 18446744073709551615, \"i\": -5, \"r\": 1.50, \
                \"big\": 18446744073709551616, \"s\": \"\\u00e9\", \"a\": [1, [2]], \"o\": {\"k\": {}}}";
    let value = resolve::<JsonValue>(&respond(200, body)).expect("parses");
    let member = |name: &str, value: JsonValue| JsonMember { name: name.to_string(), value };
    let expected = JsonValue::Object(vec![
        member(
            "a",
            JsonValue::Array(vec![
                JsonValue::Number(JsonNumber::Unsigned(1)),
                JsonValue::Array(vec![JsonValue::Number(JsonNumber::Unsigned(2))]),
            ]),
        ),
        member("big", JsonValue::Number(JsonNumber::Real("1.8446744073709552e+19".to_string()))),
        member("i", JsonValue::Number(JsonNumber::Signed(-5))),
        member("n", JsonValue::Null),
        member("o", JsonValue::Object(vec![member("k", JsonValue::Object(vec![]))])),
        member("r", JsonValue::Number(JsonNumber::Real("1.5".to_string()))),
        member("s", JsonValue::String("\u{e9}".to_string())),
        member("t", JsonValue::Bool(true)),
        member("u", JsonValue::Number(JsonNumber::Unsigned(u64::MAX))),
    ]);
    assert_eq!(expected, value);
}

#[test]
fn success_body_decodes_to_the_expected_value() {
    for status in [200, 201, 204, 299] {
        let res = resolve::<ValidateResponse>(&respond(status, "{\"valid\": true}"));
        assert_eq!(Ok(ValidateResponse { valid: true }), res);
        let res = resolve::<DeleteMonitorResponse>(&respond(status, "{\"deleted_monitor_id\": 9}"));
        assert_eq!(Ok(DeleteMonitorResponse { deleted_monitor_id: 9 }), res);
    }
}

#[test]
fn error_status_with_error_body_is_an_api_error() {
    let body = "{\"errors\": [\"boom\"]}";
    for status in [100, 199, 300, 301, 400, 403, 404, 429, 500, 503] {
        assert_eq!(vec!["boom"], api_errors(resolve::<ValidateResponse>(&respond(status, body))));
        assert_eq!(vec!["boom"], api_errors(resolve::<GetDashboardListItemsResponse>(&respond(status, body))));
        assert_eq!(vec!["boom"], api_errors(resolve::<SearchResponse>(&respond(status, body))));
        assert_eq!(vec!["boom"], api_errors(resolve::<MonitorsSearchResponse>(&respond(status, body))));
        assert_eq!(vec!["boom"], api_errors(resolve::<ListRulesResponse>(&respond(status, body))));
        assert_eq!(vec!["boom"], api_errors(resolve::<JsonValue>(&respond(status, body))));
    }
    let body = "{\"errors\": [\"first\", \"second\"], \"request_id\": 5}";
    assert_eq!(vec!["first", "second"], api_errors(resolve::<ValidateResponse>(&respond(404, body))));
    let none: Vec<String> = vec![];
    assert_eq!(none, api_errors(resolve::<ValidateResponse>(&respond(404, "{}"))));
}

#[test]
fn success_status_with_bad_body_is_a_decode_failure() {
    for status in [200, 201, 299] {
        for body in ["", "not json", "{\"valid\": tru", "{\"valid\": true} trailing"] {
            match resolve::<ValidateResponse>(&respond(status, body)) {
                Err(DatadogError::Decode(DecodeError::Syntax(message))) => assert!(!message.is_empty()),
                other => panic!("unexpected outcome for {:?}: {:?}", body, other),
            }
        }
        for body in ["[]", "null", "5", "\"valid\"", "{\"valid\": 1}", "{\"valid\": null}", "{\"valid\": \"true\"}"] {
            assert_eq!(
                Err(DatadogError::Decode(DecodeError::Shape)),
                resolve::<ValidateResponse>(&respond(status, body)),
                "{}",
                body
            );
        }
        // The body of an error is no result, even where it parses.
        assert_eq!(
            Err(DatadogError::Decode(DecodeError::Shape)),
            resolve::<ValidateResponse>(&respond(status, "{\"errors\": [\"boom\"], \"valid\": []}"))
        );
    }
}

#[test]
fn error_status_with_bad_body_is_a_decode_failure() {
    match resolve::<ValidateResponse>(&respond(500, "<html>Bad Gateway</html>")) {
        Err(DatadogError::Decode(DecodeError::Syntax(message))) => {
            assert_eq!("expected value at line 1 column 1", message)
        }
        other => panic!("unexpected outcome: {:?}", other),
    }
    for body in ["[\"boom\"]", "{\"errors\": \"boom\"}", "{\"errors\": [1]}", "{\"errors\": null}"] {
        assert_eq!(
            Err(DatadogError::Decode(DecodeError::Shape)),
            resolve::<ValidateResponse>(&respond(500, body)),
            "{}",
            body
        );
    }
    // A result in the body does not make a failed call succeed.
    let none: Vec<String> = vec![];
    assert_eq!(none, api_errors(resolve::<ValidateResponse>(&respond(500, "{\"valid\": true}"))));
}

#[test]
fn parsed_bodies_resolve_without_the_parser() {
    let parsed = Ok(JsonValue::Object(vec![JsonMember {
        name: "valid".to_string(),
        value: JsonValue::Bool(true),
    }]));
    assert_eq!(Ok(ValidateResponse { valid: true }), resolve_value::<ValidateResponse>(200, &parsed));
    assert_eq!(
        Err(DatadogError::Api(DatadogErrorResponse { errors: vec![] })),
        resolve_value::<ValidateResponse>(300, &parsed)
    );
    assert_eq!(
        Err(DatadogError::Api(DatadogErrorResponse { errors: vec![] })),
        resolve_value::<ValidateResponse>(199, &parsed)
    );
    let failed = Err("EOF while parsing".to_string());
    for status in [200, 404] {
        assert_eq!(
            Err(DatadogError::Decode(DecodeError::Syntax("EOF while parsing".to_string()))),
            resolve_value::<ValidateResponse>(status, &failed)
        );
    }
    let first = JsonValue::Object(vec![
        JsonMember { name: "valid".to_string(), value: JsonValue::Bool(true) },
        JsonMember { name: "valid".to_string(), value: JsonValue::Bool(false) },
    ]);
    assert_eq!(Ok(ValidateResponse { valid: true }), resolve_value::<ValidateResponse>(200, &Ok(first)));
}

#[test]
fn identical_calls_give_equal_outcomes() {
    let first = DashboardReference { id: "a".to_string(), _type: "t".to_string() };
    let second = DashboardReference { id: "a".to_string(), _type: "t".to_string() };
    let one = Client::new("https://h", "k", "a");
    let other = Client::new("https://h", "k", "a");
    assert_eq!(one.post_json("/p", &first), other.post_json("/p", &second));
    let body = "{\"dashboards\": [{\"id\": \"x\"}], \"total\": 1}";
    let a = resolve::<GetDashboardListItemsResponse>(&respond(200, body));
    let b = resolve::<GetDashboardListItemsResponse>(&respond(200, body));
    assert!(a.is_ok());
    assert_eq!(a, b);
    let a = resolve::<GetDashboardListItemsResponse>(&respond(500, "{\"errors\": [\"boom\"]}"));
    let b = resolve::<GetDashboardListItemsResponse>(&respond(500, "{\"errors\": [\"boom\"]}"));
    assert!(a.is_err());
    assert_eq!(a, b);
}

#[test]
fn error_messages_are_shown_one_on_each_line() {
    let response = DatadogErrorResponse { errors: vec!["a".to_string(), "b c".to_string(), "d".to_string()] };
    assert_eq!("a\nb c\nd", response.to_string());
    assert_eq!("boom", DatadogErrorResponse { errors: vec!["boom".to_string()] }.to_string());
    assert_eq!("", DatadogErrorResponse::default().to_string());
}

#[test]
fn calls_tie_requests_to_their_results() {
    let client = client();
    let call = ValidateRequest {};
    assert_eq!(Ok(call.send(&client)), call.request(&client));
    assert_eq!(Ok(ValidateResponse { valid: true }), call.receive(&respond(200, "{\"valid\": true}")));
    assert_eq!(vec!["boom"], api_errors(call.receive(&respond(403, "{\"errors\": [\"boom\"]}"))));
    let call = DeleteMonitorRequest::default().monitor_id(3).force(true);
    assert_eq!(Ok(call.send(&client)), call.request(&client));
    assert_eq!(
        Ok(DeleteMonitorResponse { deleted_monitor_id: 3 }),
        call.receive(&respond(200, "{\"deleted_monitor_id\": 3}"))
    );
    let call = UpdateDashboardRequest::default();
    assert_eq!(
        Err(DatadogError::InvalidInput("dashboard_id must not be empty".to_string())),
        call.request(&client)
    );
    let call = call.dashboard_id("abc");
    assert_eq!(call.send(&client), call.request(&client));
    assert!(call.request(&client).is_ok());
}

#[test]
fn errors_say_what_went_wrong() {
    assert_eq!("connection refused", DatadogError::Transport("connection refused".to_string()).to_string());
    assert_eq!(
        "a\nb",
        DatadogError::Api(DatadogErrorResponse { errors: vec!["a".to_string(), "b".to_string()] })
            .to_string()
    );
    assert_eq!(
        "expected value at line 1 column 1",
        DatadogError::Decode(DecodeError::Syntax("expected value at line 1 column 1".to_string()))
            .to_string()
    );
    assert_eq!("the body has not the expected shape", DatadogError::Decode(DecodeError::Shape).to_string());
    assert_eq!("no id", DatadogError::InvalidInput("no id".to_string()).to_string());
}
