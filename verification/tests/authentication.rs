use datadog_api::authentication::{ValidateRequest, ValidateResponse};
use datadog_api::client::{resolve, Client, DatadogError, HttpResponse, Method};

fn client() -> Client {
    Client::new("https://api.datadoghq.com", "api-key", "app-key")
}

fn respond(status: u16, body: &str) -> HttpResponse {
    HttpResponse { status, body: body.to_string() }
}

#[test]
fn validates_an_api_key() {
    let client = client();
    let req = ValidateRequest {};
    let request = req.send(&client);
    assert_eq!(Method::Get, request.method);
    assert_eq!("https://api.datadoghq.com/api/v1/validate", request.url);
    assert_eq!(None, request.body);
    let res = resolve::<ValidateResponse>(&respond(200, "{\"valid\": true}")).expect("API call failed");
    assert_eq!(true, res.valid);
}

#[test]
fn validate_request_carries_both_keys() {
    let request = ValidateRequest::default().send(&client());
    let headers: Vec<(&str, &str)> =
        request.headers.iter().map(|h| (h.name.as_str(), h.value.as_str())).collect();
    assert_eq!(vec![("DD-API-KEY", "api-key"), ("DD-APPLICATION-KEY", "app-key")], headers);
}

#[test]
fn invalid_api_key_is_an_api_error() {
    let res = resolve::<ValidateResponse>(&respond(403, "{\"errors\": [\"Forbidden\"]}"));
    match res {
        Err(DatadogError::Api(response)) => assert_eq!(vec!["Forbidden".to_string()], response.errors),
        other => panic!("unexpected outcome: {:?}", other),
    }
}

#[test]
fn validate_response_without_the_field_is_not_valid() {
    let res = resolve::<ValidateResponse>(&respond(200, "{}")).expect("API call failed");
    assert_eq!(ValidateResponse { valid: false }, res);
    assert_eq!(ValidateResponse::default(), res);
}
