use datadog_api::client::{resolve, Client, DatadogError, HttpResponse, Method};
use datadog_api::json::{DecodeError, Dictionary, FromJson, JsonNumber, ToJson};
use datadog_api::monitors::{
    Aggregation, CreateMonitorRequest, CreateMonitorResponse, DeleteMonitorRequest,
    DeleteMonitorResponse, EditMonitorRequest, EditMonitorResponse, GroupState, Metadata, Monitor,
    MonitorOptions, MonitorType, MonitorsSearchRequest, MonitorsSearchResponse, Notification,
    SearchFacet, SearchFacetName, State, Status, Step, Thresholds, User,
};

fn client() -> Client {
    Client::new("https://api.datadoghq.com", "api-key", "app-key")
}

fn respond(status: u16, body: &str) -> HttpResponse {
    HttpResponse { status, body: body.to_string() }
}

const QUERY: &str = "min(last_4h):sum:meetkunde.kci.aws.s3.bucket_effective_access_is_restricted_appropriately.gauge{is_compliant:true} / sum:meetkunde.kci.aws.s3.bucket_effective_access_is_restricted_appropriately.gauge{*} * 100 < 97";

const ONE_PAGE: &str = "{\"counts\": {\"muted\": [{\"name\": false, \"count\": 1}], \
    \"status\": [{\"name\": \"Alert\", \"count\": 1}], \"tag\": [], \"type\": [{\"name\": \"metric alert\", \"count\": 1}]}, \
    \"metadata\": {\"page\": 1, \"page_count\": 1, \"per_page\": 30, \"total_count\": 1}, \
    \"monitors\": [{\"id\": 55679649, \"name\": \"S3 buckets\", \"classification\": \"metric\", \
    \"creator\": {\"email\": \"jo@example.com\", \"handle\": \"jo\", \"name\": \"Jo\"}, \
    \"last_triggered_ts\": null, \"metrics\": [\"aws.s3.bucket\"], \
    \"notifications\": [{\"handle\": \"ops@example.com\", \"name\": \"Ops\"}], \"org_id\": 12, \
    \"scopes\": [\"*\"], \"status\": \"No Data\", \"tags\": [\"team:security\"], \"type\": \"metric alert\"}]}";

fn monitor_body() -> String {
    "{\"id\": 55679649, \"name\": \"S3 buckets\", \"type\": \"metric alert\", \"overall_state\": \"OK\", \
     \"priority\": 3, \"deleted\": null, \"multi\": true, \"tags\": [\"team:security\"], \
     \"options\": {\"thresholds\": {\"critical\": 97, \"warning\": 98.5}, \"notify_no_data\": true, \
     \"aggregation\": {\"type\": \"count\", \"metric\": \"m\", \"group_by\": \"host\"}}, \
     \"state\": {\"groups\": {\"host:a\": {\"status\": \"Alert\", \"name\": \"S3 buckets\", \"last_triggered_ts\": 5}, \
     \"host:b\": {\"status\": \"Warn\"}}}}"
        .to_string()
}

/// Minimal search for monitors
#[test]
fn test_monitors_search() {
    let client = client();
    let req = MonitorsSearchRequest::default()
        // .query("tags(\"team:security\")");
        .query("security");
    let request = req.send(&client);
    assert_eq!(Method::Get, request.method);
    assert_eq!("https://api.datadoghq.com/api/v1/monitor/search?query=security", request.url);
    assert_eq!(None, request.body);
    let res = resolve::<MonitorsSearchResponse>(&respond(200, ONE_PAGE)).expect("API call failed");
    let expected = Monitor {
        classification: "metric".to_string(),
        creator: User {
            email: "jo@example.com".to_string(),
            handle: "jo".to_string(),
            name: "Jo".to_string(),
        },
        id: 55679649,
        last_triggered_ts: None,
        metrics: vec!["aws.s3.bucket".to_string()],
        name: "S3 buckets".to_string(),
        notifications: vec![Notification {
            handle: "ops@example.com".to_string(),
            name: "Ops".to_string(),
        }],
        org_id: 12,
        scopes: vec!["*".to_string()],
        status: Status::NoData,
        tags: vec!["team:security".to_string()],
        _type: MonitorType::MetricAlert,
    };
    assert_eq!(vec![expected], res.monitors);
    assert_eq!(Metadata { page: 1, page_count: 1, per_page: 30, total_count: 1 }, res.metadata);
    assert_eq!(
        vec![SearchFacet { name: SearchFacetName::Bool(false), count: 1 }],
        res.counts.muted
    );
    assert_eq!(
        vec![SearchFacet { name: SearchFacetName::String("Alert".to_string()), count: 1 }],
        res.counts.status
    );
}

/// Iterable search for monitors
#[test]
fn test_monitors_search_iter() {
    let client = client();
    let req = MonitorsSearchRequest::default().query("security");
    let mut it = req.iter();
    let mut v: Vec<Monitor> = Vec::new();
    let mut calls = 0;
    loop {
        match it.next(&client) {
            Step::Fetch(request) => {
                calls += 1;
                assert_eq!(
                    "https://api.datadoghq.com/api/v1/monitor/search?query=security&page=0",
                    request.url
                );
                it.receive(&respond(200, ONE_PAGE));
            }
            Step::Yield(monitor) => v.push(monitor),
            Step::Fail(error) => panic!("Failed to call .send(): {:?}", error),
            Step::Done => break,
        }
    }
    println!("{}", v.len());
    assert_ne!(0, v.len());
    assert_eq!(1, calls);
}

/// Creates a minimal monitor
#[test]
fn test_create_monitor() {
    let client = client();
    let req = CreateMonitorRequest::default().query(QUERY)._type(MonitorType::MetricAlert);
    let request = req.send(&client);
    assert_eq!(Method::Post, request.method);
    assert_eq!("https://api.datadoghq.com/api/v1/monitor", request.url);
    assert_eq!(Some(format!("{{\"query\":\"{}\",\"type\":\"metric alert\"}}", QUERY)), request.body);
    let res = resolve::<CreateMonitorResponse>(&respond(200, &monitor_body())).expect("API call failed");
    assert_eq!(55679649, res.id);
    assert_eq!(Status::Okay, res.overall_state);
    assert_eq!(Some(3), res.priority);
    assert_eq!(None, res.deleted);
    let options = res.options.expect("options");
    assert_eq!(JsonNumber::Unsigned(97), options.thresholds.critical);
    assert_eq!(JsonNumber::Real("98.5".to_string()), options.thresholds.warning);
    assert_eq!(JsonNumber::Real("0.0".to_string()), options.thresholds.ok);
    assert_eq!(
        Aggregation { group_by: "host".to_string(), metric: "m".to_string(), _type: "count".to_string() },
        options.aggregation
    );
    assert!(options.notify_no_data);
    assert_eq!(
        State {
            groups: Dictionary {
                entries: vec![
                    (
                        "host:a".to_string(),
                        GroupState {
                            last_triggered_ts: 5,
                            name: "S3 buckets".to_string(),
                            status: Status::Alert,
                            ..GroupState::default()
                        }
                    ),
                    ("host:b".to_string(), GroupState { status: Status::Warn, ..GroupState::default() }),
                ]
            }
        },
        res.state
    );
}

/// Edits a minimal monitor
#[test]
fn test_edit_monitor() {
    let client = client();
    let req = EditMonitorRequest::default()
        .monitor_id(55679649)
        .query(QUERY)
        ._type(MonitorType::MetricAlert);
    let request = req.send(&client);
    assert_eq!(Method::Put, request.method);
    assert_eq!("https://api.datadoghq.com/api/v1/monitor/55679649", request.url);
    assert_eq!(Some(format!("{{\"query\":\"{}\",\"type\":\"metric alert\"}}", QUERY)), request.body);
    let res: EditMonitorResponse =
        resolve::<EditMonitorResponse>(&respond(200, &monitor_body())).expect("API call failed");
    assert_eq!(55679649, res.id);
    assert_eq!(MonitorType::MetricAlert, res._type);
}

/// Deletes a monitor
#[test]
fn test_delete_monitor() {
    let client = client();
    let req = DeleteMonitorRequest::default().monitor_id(55680057);
    let request = req.send(&client);
    assert_eq!(Method::Delete, request.method);
    assert_eq!("https://api.datadoghq.com/api/v1/monitor/55680057", request.url);
    assert_eq!(Some("{}".to_string()), request.body);
    let res = resolve::<DeleteMonitorResponse>(&respond(200, "{\"deleted_monitor_id\": 55680057}"))
        .expect("API call failed");
    assert_eq!(55680057, res.deleted_monitor_id);
}

#[test]
fn delete_monitor_with_force() {
    assert_eq!(
        "/api/v1/monitor/7?force=true",
        DeleteMonitorRequest::default().monitor_id(7).force(true).path_and_query()
    );
    assert_eq!(
        "/api/v1/monitor/7?force=false",
        DeleteMonitorRequest::default().monitor_id(7).force(false).path_and_query()
    );
    assert_eq!("/api/v1/monitor/0", DeleteMonitorRequest::default().path_and_query());
}

#[test]
fn monitors_search_query_keeps_the_order_of_its_parameters() {
    let req = MonitorsSearchRequest::default()
        .sort("name,asc")
        .per_page(25)
        .page(3)
        .query("type:metric status:alert");
    assert_eq!(
        "/api/v1/monitor/search?query=type:metric status:alert&page=3&per_page=25&sort=name,asc",
        req.path_and_query()
    );
    assert_eq!("/api/v1/monitor/search?query=", MonitorsSearchRequest::default().path_and_query());
}

#[test]
fn monitor_body_holds_what_is_set() {
    let options = MonitorOptions {
        thresholds: Thresholds {
            critical: JsonNumber::Real("97.5".to_string()),
            warning: JsonNumber::Signed(-1),
            unknown: JsonNumber::Real("not a number".to_string()),
            ..Thresholds::default()
        },
        ..MonitorOptions::default()
    };
    let req = CreateMonitorRequest::default()
        .name("n")
        .message("m")
        .priority(2)
        .tags(vec!["a".to_string(), "b".to_string()])
        .restricted_roles(vec![])
        .options(options);
    let body = req.send(&client()).body.expect("a body");
    assert!(body.starts_with("{\"message\":\"m\",\"name\":\"n\",\"options\":{"), "{}", body);
    assert!(body.ends_with("\"priority\":2,\"query\":\"\",\"restricted_roles\":[],\"tags\":[\"a\",\"b\"],\"type\":\"log alert\"}"), "{}", body);
    assert!(
        body.contains(
            "\"thresholds\":{\"critical\":97.5,\"critical_recovery\":0.0,\"ok\":0.0,\"unknown\":null,\"warning\":-1,\"warning_recovery\":0.0}"
        ),
        "{}",
        body
    );
    assert!(body.contains("\"aggregation\":{\"group_by\":\"\",\"metric\":\"\",\"type\":\"\"}"), "{}", body);
}

#[test]
fn monitor_priority_has_to_fit() {
    let res = resolve::<CreateMonitorResponse>(&respond(200, "{\"priority\": 256}"));
    assert!(matches!(res, Err(DatadogError::Decode(DecodeError::Shape))));
    let res = resolve::<CreateMonitorResponse>(&respond(200, "{\"priority\": 255}")).expect("decodes");
    assert_eq!(Some(255), res.priority);
}

#[test]
fn monitor_states_and_types_on_the_wire() {
    assert_eq!("No Data", Status::NoData.as_str());
    assert_eq!("OK", Status::Okay.as_str());
    assert_eq!(Some(Status::Okay), Status::from_name("OK"));
    assert_eq!(None, Status::from_name("Ok"));
    assert_eq!(Status::Unknown, Status::default());
    assert_eq!(MonitorType::LogAlert, MonitorType::default());
    assert_eq!("trace-analytics alert", MonitorType::TraceAnalyticsAlert.as_str());
    assert_eq!(Some(MonitorType::CiPipelinesAlert), MonitorType::from_name("ci-pipelines alert"));
    assert_eq!(Some(MonitorType::EventV2Alert), MonitorType::from_name("event-v2 alert"));
    assert_eq!(None, MonitorType::from_name("metric_alert"));
    assert_eq!(SearchFacetName::String(String::new()), SearchFacetName::default());
    let res = resolve::<MonitorsSearchResponse>(&respond(200, "{\"counts\": {\"tag\": [{\"name\": 5}]}}"));
    assert!(res.is_err());
}

#[test]
fn monitors_are_read_back_as_they_were_written() {
    let res = resolve::<CreateMonitorResponse>(&respond(200, &monitor_body())).expect("decodes");
    assert_eq!(Some(res.clone()), CreateMonitorResponse::from_json(&res.to_json()));
    let empty = CreateMonitorResponse::default();
    assert_eq!(Some(empty.clone()), CreateMonitorResponse::from_json(&empty.to_json()));
    let page = resolve::<MonitorsSearchResponse>(&respond(200, ONE_PAGE)).expect("decodes");
    assert_eq!(Some(page.clone()), MonitorsSearchResponse::from_json(&page.to_json()));
    let written = client().post_json("/echo", &page).body.expect("a body");
    assert_eq!(Ok(page), resolve::<MonitorsSearchResponse>(&respond(200, &written)));
    let options = MonitorOptions {
        renotify_statuses: vec!["alert".to_string()],
        timeout_h: 24,
        thresholds: Thresholds { ok: JsonNumber::Signed(-2), ..Thresholds::default() },
        ..MonitorOptions::default()
    };
    assert_eq!(Some(options.clone()), MonitorOptions::from_json(&options.to_json()));
    let request = CreateMonitorRequest::default().options(options).priority(1).name("n");
    assert_eq!(Some(request.clone()), CreateMonitorRequest::from_json(&request.to_json()));
    for status in [Status::Alert, Status::Ignored, Status::NoData, Status::Okay, Status::Skipped, Status::Unknown, Status::Warn] {
        assert_eq!(Some(status), Status::from_name(status.as_str()));
        assert_eq!(Some(status), Status::from_json(&status.to_json()));
    }
}
