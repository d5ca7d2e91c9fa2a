use datadog_api::client::{Client, DatadogError, DatadogErrorResponse, HttpRequest, HttpResponse};
use datadog_api::json::DecodeError;
use datadog_api::monitors::{
    Metadata, Monitor, MonitorsSearchIter, MonitorsSearchRequest, MonitorsSearchResponse, Step,
};

fn client() -> Client {
    Client::new("https://api.datadoghq.com", "api-key", "app-key")
}

fn page(number: u64, page_count: u64, names: &[&str]) -> HttpResponse {
    let monitors: Vec<String> = names.iter().map(|n| format!("{{\"name\": \"{}\"}}", n)).collect();
    let body = format!(
        "{{\"metadata\": {{\"page\": {}, \"page_count\": {}, \"per_page\": 2, \"total_count\": 3}}, \"monitors\": [{}]}}",
        number,
        page_count,
        monitors.join(", ")
    );
    HttpResponse { status: 200, body }
}

struct Trace {
    names: Vec<String>,
    fetches: Vec<HttpRequest>,
    failure: Option<DatadogError>,
    done: bool,
}

/// Runs a search against an endpoint that answers with the given responses, in turn.
fn run(request: &MonitorsSearchRequest, responses: Vec<HttpResponse>) -> Trace {
    let client = client();
    let mut it = request.iter();
    let mut responses = responses.into_iter();
    let mut trace = Trace { names: vec![], fetches: vec![], failure: None, done: false };
    loop {
        match it.next(&client) {
            Step::Fetch(request) => {
                trace.fetches.push(request);
                match responses.next() {
                    Some(response) => it.receive(&response),
                    None => return trace,
                }
            }
            Step::Yield(monitor) => trace.names.push(monitor.name),
            Step::Fail(error) => trace.failure = Some(error),
            Step::Done => {
                trace.done = true;
                return trace;
            }
        }
    }
}

fn urls(trace: &Trace) -> Vec<&str> {
    trace.fetches.iter().map(|r| r.url.as_str()).collect()
}

#[test]
fn two_pages_are_yielded_in_order_without_a_further_call() {
    let request = MonitorsSearchRequest::default().query("q");
    let trace = run(
        &request,
        vec![page(1, 2, &["p0i0", "p0i1"]), page(2, 2, &["p1i0"]), page(3, 2, &["never"])],
    );
    assert_eq!(vec!["p0i0", "p0i1", "p1i0"], trace.names);
    assert_eq!(
        vec![
            "https://api.datadoghq.com/api/v1/monitor/search?query=q&page=0",
            "https://api.datadoghq.com/api/v1/monitor/search?query=q&page=1",
        ],
        urls(&trace)
    );
    assert_eq!(None, trace.failure);
    assert!(trace.done);
}

#[test]
fn one_page_takes_one_call() {
    let request = MonitorsSearchRequest::default().query("q");
    let trace = run(&request, vec![page(1, 1, &["only"]), page(2, 1, &["never"])]);
    assert_eq!(vec!["only"], trace.names);
    assert_eq!(1, trace.fetches.len());
    assert!(trace.done);
}

#[test]
fn iteration_goes_on_while_the_page_number_is_below_the_page_count() {
    // An endpoint that counts its pages from 0 is asked once more after its last page.
    let request = MonitorsSearchRequest::default().query("q");
    let trace = run(&request, vec![page(0, 1, &["only"]), page(1, 1, &[])]);
    assert_eq!(vec!["only"], trace.names);
    assert_eq!(2, trace.fetches.len());
    assert!(trace.done);
    let trace = run(
        &request,
        vec![page(0, 2, &["p0i0", "p0i1"]), page(1, 2, &["p1i0"]), page(2, 2, &[])],
    );
    assert_eq!(vec!["p0i0", "p0i1", "p1i0"], trace.names);
    assert_eq!(3, trace.fetches.len());
    assert!(trace.done);
}

#[test]
fn nothing_is_fetched_before_the_first_step() {
    let request = MonitorsSearchRequest::default().query("q").page(4).per_page(10).sort("name,asc");
    let it = request.iter();
    assert_eq!(
        MonitorsSearchIter {
            query: "q".to_string(),
            per_page: Some(10),
            sort: Some("name,asc".to_string()),
            page: 4,
            pending: vec![],
            failure: None,
            finished: false,
        },
        it
    );
}

#[test]
fn iteration_starts_at_the_page_of_the_search_and_keeps_its_other_fields() {
    let request = MonitorsSearchRequest::default().query("q").page(4).per_page(10).sort("name,asc");
    let trace = run(&request, vec![page(4, 6, &["a"]), page(5, 6, &["b"]), page(6, 6, &["c"])]);
    assert_eq!(vec!["a", "b", "c"], trace.names);
    assert_eq!(
        vec![
            "https://api.datadoghq.com/api/v1/monitor/search?query=q&page=4&per_page=10&sort=name,asc",
            "https://api.datadoghq.com/api/v1/monitor/search?query=q&page=5&per_page=10&sort=name,asc",
            "https://api.datadoghq.com/api/v1/monitor/search?query=q&page=6&per_page=10&sort=name,asc",
        ],
        urls(&trace)
    );
    assert!(trace.done);
}

#[test]
fn asking_again_before_an_answer_gives_the_same_request() {
    let client = client();
    let mut it = MonitorsSearchRequest::default().query("q").iter();
    let first = it.next(&client);
    let second = it.next(&client);
    assert!(matches!(first, Step::Fetch(_)));
    assert_eq!(first, second);
}

#[test]
fn api_error_ends_the_iteration() {
    let request = MonitorsSearchRequest::default().query("q");
    let failed = HttpResponse { status: 500, body: "{\"errors\": [\"boom\"]}".to_string() };
    let trace = run(&request, vec![page(1, 3, &["a", "b"]), failed, page(3, 3, &["never"])]);
    assert_eq!(vec!["a", "b"], trace.names);
    assert_eq!(2, trace.fetches.len());
    assert_eq!(
        Some(DatadogError::Api(DatadogErrorResponse { errors: vec!["boom".to_string()] })),
        trace.failure
    );
    assert!(trace.done);
}

#[test]
fn page_that_does_not_decode_ends_the_iteration_without_items() {
    let request = MonitorsSearchRequest::default().query("q");
    let broken = HttpResponse {
        status: 200,
        body: "{\"metadata\": {\"page\": 1, \"page_count\": 1}, \"monitors\": [{\"name\": \"a\"}, {\"name\": 5}]}"
            .to_string(),
    };
    let trace = run(&request, vec![broken]);
    assert!(trace.names.is_empty());
    assert_eq!(1, trace.fetches.len());
    assert_eq!(Some(DatadogError::Decode(DecodeError::Shape)), trace.failure);
    assert!(trace.done);
}

#[test]
fn transport_failure_ends_the_iteration() {
    let client = client();
    let mut it = MonitorsSearchRequest::default().query("q").iter();
    assert!(matches!(it.next(&client), Step::Fetch(_)));
    it.accept(Err(DatadogError::Transport("connection refused".to_string())));
    assert_eq!(Step::Fail(DatadogError::Transport("connection refused".to_string())), it.next(&client));
    assert_eq!(Step::Done, it.next(&client));
    assert_eq!(Step::Done, it.next(&client));
}

#[test]
fn pages_that_were_not_asked_for_are_left_aside() {
    let client = client();
    let mut it = MonitorsSearchRequest::default().query("q").iter();
    let first = MonitorsSearchResponse {
        metadata: Metadata { page: 1, page_count: 1, per_page: 2, total_count: 2 },
        monitors: vec![
            Monitor { name: "a".to_string(), ..Monitor::default() },
            Monitor { name: "b".to_string(), ..Monitor::default() },
        ],
        ..MonitorsSearchResponse::default()
    };
    it.accept(Ok(first.clone()));
    let waiting = it.clone();
    it.accept(Ok(MonitorsSearchResponse {
        monitors: vec![Monitor { name: "c".to_string(), ..Monitor::default() }],
        ..first.clone()
    }));
    assert_eq!(waiting, it);
    it.accept(Err(DatadogError::Transport("late".to_string())));
    assert_eq!(waiting, it);
    assert_eq!(Step::Yield(Monitor { name: "a".to_string(), ..Monitor::default() }), it.next(&client));
    assert_eq!(Step::Yield(Monitor { name: "b".to_string(), ..Monitor::default() }), it.next(&client));
    assert_eq!(Step::Done, it.next(&client));
    it.accept(Ok(first));
    assert_eq!(Step::Done, it.next(&client));
}

#[test]
fn page_number_does_not_grow_beyond_its_type() {
    let client = client();
    let mut it = MonitorsSearchRequest::default().query("q").page(u64::MAX).iter();
    match it.next(&client) {
        Step::Fetch(request) => assert_eq!(
            "https://api.datadoghq.com/api/v1/monitor/search?query=q&page=18446744073709551615",
            request.url
        ),
        other => panic!("unexpected step: {:?}", other),
    }
    it.accept(Ok(MonitorsSearchResponse {
        metadata: Metadata { page: 0, page_count: 9, per_page: 1, total_count: 9 },
        monitors: vec![Monitor::default()],
        ..MonitorsSearchResponse::default()
    }));
    assert_eq!(Step::Yield(Monitor::default()), it.next(&client));
    assert_eq!(Step::Done, it.next(&client));
}
