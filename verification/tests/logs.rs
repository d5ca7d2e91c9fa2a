use datadog_api::client::{resolve, Client, HttpResponse, Method};
use datadog_api::json::{Dictionary, FromJson, JsonNumber, JsonValue, ToJson};
use datadog_api::logs::{
    Data, DataType, Filter, Meta, MetaPage, Options, Page, SearchRequest, SearchResponse, Sort,
    Status, Warning,
};

fn client() -> Client {
    Client::new("https://api.datadoghq.com", "api-key", "app-key")
}

fn respond(status: u16, body: &str) -> HttpResponse {
    HttpResponse { status, body: body.to_string() }
}

const ONE_LOG: &str = "{\"data\": [{\"id\": \"AAAA\", \"type\": \"log\", \"attributes\": \
    {\"service\": \"web\", \"attributes\": {\"duration\": 12}}}], \
    \"meta\": {\"page\": {\"after\": \"cursor-1\"}, \"status\": \"done\", \"elapsed\": 132}}";

#[test]
fn empty_search() {
    let client = client();
    let req = SearchRequest::default();
    let request = req.send(&client);
    assert_eq!(Method::Post, request.method);
    assert_eq!("https://api.datadoghq.com/api/v2/logs/events/search", request.url);
    assert_eq!(Some("{}".to_string()), request.body);
    let res = resolve::<SearchResponse>(&respond(200, ONE_LOG)).expect("API call failed");
    assert_ne!(0, res.data.len());
}

#[test]
fn filtered_search() {
    let client = client();
    let filter = Filter::default()
        .from("now-90d")
        .to("now")
        .indexes(vec!["*".to_string()])
        .query("hello");
    let options = Options::default().timezone("UTC+10:00");
    let req = SearchRequest::default()
        .filter(filter)
        .options(options)
        .sort(Sort::TimestampDesc);
    let request = req.send(&client);
    assert_eq!(
        Some(
            "{\"filter\":{\"from\":\"now-90d\",\"indexes\":[\"*\"],\"query\":\"hello\",\"to\":\"now\"},\
             \"options\":{\"timezone\":\"UTC+10:00\"},\"sort\":\"-timestamp\"}"
                .to_string()
        ),
        request.body
    );
    let res = resolve::<SearchResponse>(&respond(200, ONE_LOG)).expect("API call failed");
    assert_ne!(0, res.data.len());
}

#[test]
fn paginated_search() {
    let client = client();
    let page = Page::default().limit(1);
    let req = SearchRequest::default().page(page);
    let request = req.send(&client);
    assert_eq!(Some("{\"page\":{\"limit\":1}}".to_string()), request.body);
    let res = resolve::<SearchResponse>(&respond(200, ONE_LOG)).expect("API call failed");
    assert_ne!(0, res.data.len());

    if let Some(after) = res.meta.page {
        let next_page = Page::default().limit(1).cursor(&after.after);
        let next_req = SearchRequest::default().page(next_page);
        let next_request = next_req.send(&client);
        assert_eq!(
            Some("{\"page\":{\"cursor\":\"cursor-1\",\"limit\":1}}".to_string()),
            next_request.body
        );
        let next_res = resolve::<SearchResponse>(&respond(200, ONE_LOG)).expect("API call failed");
        assert_ne!(0, next_res.data.len());
    } else {
        panic!("Only a single page of results was found")
    }
}

#[test]
fn search_response_decodes_to_the_expected_value() {
    let res = resolve::<SearchResponse>(&respond(200, ONE_LOG)).expect("API call failed");
    let expected = SearchResponse {
        data: vec![Data {
            attributes: Dictionary {
                entries: vec![
                    (
                        "attributes".to_string(),
                        JsonValue::Object(vec![datadog_api::json::JsonMember {
                            name: "duration".to_string(),
                            value: JsonValue::Number(JsonNumber::Unsigned(12)),
                        }]),
                    ),
                    ("service".to_string(), JsonValue::String("web".to_string())),
                ],
            },
            id: "AAAA".to_string(),
            data_type: Some(DataType::Log),
        }],
        links: Default::default(),
        meta: Meta {
            elapsed: Some(132),
            page: Some(MetaPage { after: "cursor-1".to_string() }),
            request_id: None,
            status: Some(Status::Done),
            warnings: None,
        },
    };
    assert_eq!(expected, res);
}

#[test]
fn log_metadata_may_be_missing_or_null() {
    let res = resolve::<SearchResponse>(&respond(200, "{\"data\": [], \"meta\": {\"elapsed\": null}}"))
        .expect("decodes");
    assert_eq!(Meta::default(), res.meta);
    let res = resolve::<SearchResponse>(&respond(200, "{}")).expect("decodes");
    assert_eq!(SearchResponse::default(), res);
    let body = "{\"meta\": {\"warnings\": [{\"code\": \"w1\", \"title\": \"slow\", \"default\": \"took long\"}]}}";
    let res = resolve::<SearchResponse>(&respond(200, body)).expect("decodes");
    assert_eq!(
        Some(vec![Warning {
            code: "w1".to_string(),
            default: "took long".to_string(),
            title: "slow".to_string()
        }]),
        res.meta.warnings
    );
}

#[test]
fn unknown_log_status_is_a_decode_failure() {
    let res = resolve::<SearchResponse>(&respond(200, "{\"meta\": {\"status\": \"running\"}}"));
    assert!(matches!(
        res,
        Err(datadog_api::DatadogError::Decode(datadog_api::json::DecodeError::Shape))
    ));
    let res = resolve::<SearchResponse>(&respond(200, "{\"meta\": {\"status\": \"timeout\"}}"))
        .expect("decodes");
    assert_eq!(Some(Status::Timeout), res.meta.status);
}

#[test]
fn sort_names_on_the_wire() {
    assert_eq!("timestamp", Sort::TimestampAsc.as_str());
    assert_eq!("-timestamp", Sort::TimestampDesc.as_str());
    assert_eq!(Some(Status::Done), Status::from_name("done"));
    assert_eq!(None, Status::from_name("Done"));
    assert_eq!(Some(DataType::Log), DataType::from_name("log"));
}

#[test]
fn filter_build_gives_the_filter_back() {
    let filter = Filter::default().query("service:web");
    assert_eq!(filter.clone(), filter.build());
    let options = Options::default().time_offset(3600);
    assert_eq!(Some(3600), options.time_offset);
    assert_eq!(None, options.timezone);
}

#[test]
fn logs_are_read_back_as_they_were_written() {
    let res = resolve::<SearchResponse>(&respond(200, ONE_LOG)).expect("decodes");
    assert_eq!(Some(res.clone()), SearchResponse::from_json(&res.to_json()));
    let written = client().post_json("/echo", &res).body.expect("a body");
    assert_eq!(Ok(res), resolve::<SearchResponse>(&respond(200, &written)));
    let request = SearchRequest::default()
        .filter(Filter::default().query("q").indexes(vec![]))
        .page(Page::default().cursor("c"))
        .sort(Sort::TimestampAsc);
    assert_eq!(Some(request.clone()), SearchRequest::from_json(&request.to_json()));
}
