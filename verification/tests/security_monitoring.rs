use datadog_api::client::{resolve, Client, HttpResponse, Method};
use datadog_api::json::{FromJson, ToJson};
use datadog_api::security_monitoring::{
    Action, AgentRule, Aggregation, Case, Data, DetectionMethod, Filter, ListRulesRequest,
    ListRulesResponse, Meta, MetaPage, NewValueOptions, Options, Query, Status,
};

fn client() -> Client {
    Client::new("https://api.datadoghq.com", "api-key", "app-key")
}

fn respond(status: u16, body: &str) -> HttpResponse {
    HttpResponse { status, body: body.to_string() }
}

fn rules(count: usize) -> String {
    let rules: Vec<String> = (0..count).map(|i| format!("{{\"id\": \"rule-{}\"}}", i)).collect();
    format!("{{\"data\": [{}], \"meta\": {{\"page\": {{\"total_count\": 25}}}}}}", rules.join(", "))
}

#[test]
fn default_list_rules() {
    let client = client();
    let req = ListRulesRequest::default();
    let request = req.send(&client);
    assert_eq!(Method::Get, request.method);
    assert_eq!("https://api.datadoghq.com/api/v2/security_monitoring/rules", request.url);
    let res = resolve::<ListRulesResponse>(&respond(200, &rules(10))).expect("API call failed");
    assert_eq!(10, res.data.len());
}

#[test]
fn paginated_list_rules() {
    let client = client();
    let req = ListRulesRequest::default().page_size(5).page_number(2);
    let request = req.send(&client);
    assert_eq!(
        "https://api.datadoghq.com/api/v2/security_monitoring/rules?page%5Bnumber%5D=2&page%5Bsize%5D=5",
        request.url
    );
    let res = resolve::<ListRulesResponse>(&respond(200, &rules(5))).expect("API call failed");
    assert_eq!(5, res.data.len());
}

#[test]
fn list_rules_query_holds_only_what_is_set() {
    assert_eq!(
        "/api/v2/security_monitoring/rules?page%5Bsize%5D=50",
        ListRulesRequest::default().page_size(50).path_and_query()
    );
    assert_eq!(
        "/api/v2/security_monitoring/rules?page%5Bnumber%5D=-1",
        ListRulesRequest::default().page_number(-1).path_and_query()
    );
}

#[test]
fn rule_decodes_with_its_wire_names() {
    let body = "{\"data\": [{\"id\": \"abc\", \"createdAt\": 1600000000000, \"creationAuthorId\": 7, \
        \"hasExtendedTitle\": true, \"isDefault\": true, \"isDeleted\": false, \"isEnabled\": true, \
        \"updateAuthorId\": -1, \"version\": 3, \"name\": \"Brute force\", \"message\": \"look\", \
        \"tags\": [\"attack\"], \
        \"cases\": [{\"name\": \"high\", \"condition\": \"a > 5\", \"status\": \"critical\", \"notifications\": [\"@ops\"]}], \
        \"filters\": [{\"action\": \"suppress\", \"query\": \"env:dev\"}], \
        \"options\": {\"detectionMethod\": \"new_value\", \"evaluationWindow\": 300, \"keepAlive\": 3600, \
            \"maxSignalDuration\": 86400, \"newValueOptions\": {\"forgetAfter\": 28, \"learningDuration\": 7}}, \
        \"queries\": [{\"agentRule\": {\"agentRuleId\": \"r1\", \"expression\": null}, \"aggregation\": \"cardinality\", \
            \"distinctFields\": [\"@usr.id\"], \"groupByFields\": [\"@ip\"], \"metric\": null, \"name\": \"a\", \"query\": \"@evt.name:login\"}]}], \
        \"meta\": {\"page\": {\"total_count\": 1, \"total_filtered_count\": 1}}}";
    let res = resolve::<ListRulesResponse>(&respond(200, body)).expect("API call failed");
    let expected = ListRulesResponse {
        data: vec![Data {
            cases: vec![Case {
                condition: "a > 5".to_string(),
                name: "high".to_string(),
                notifications: vec!["@ops".to_string()],
                status: Status::Critical,
            }],
            created_at: 1600000000000,
            creation_author_id: 7,
            filters: vec![Filter { action: Action::Suppress, query: "env:dev".to_string() }],
            has_extended_title: true,
            id: "abc".to_string(),
            is_default: true,
            is_deleted: false,
            is_enabled: true,
            message: "look".to_string(),
            name: "Brute force".to_string(),
            options: Options {
                detection_method: DetectionMethod::NewValue,
                evaluation_window: 300,
                keep_alive: 3600,
                max_signal_duration: 86400,
                new_value_options: NewValueOptions { forget_after: 28, learning_duration: 7 },
            },
            queries: vec![Query {
                agent_rule: Some(AgentRule { agent_rule_id: Some("r1".to_string()), expression: None }),
                aggregation: Aggregation::Cardinality,
                distinct_fields: vec!["@usr.id".to_string()],
                group_by_fields: vec!["@ip".to_string()],
                metric: None,
                name: "a".to_string(),
                query: "@evt.name:login".to_string(),
            }],
            tags: vec!["attack".to_string()],
            update_author_id: -1,
            version: 3,
        }],
        meta: Meta { page: Some(MetaPage { total_count: 1, total_filtered_count: 1 }) },
    };
    assert_eq!(expected, res);
}

#[test]
fn rule_numbers_have_to_fit_their_fields() {
    let too_wide = "{\"data\": [{\"options\": {\"evaluationWindow\": 65536}}]}";
    assert!(resolve::<ListRulesResponse>(&respond(200, too_wide)).is_err());
    let fits = "{\"data\": [{\"options\": {\"evaluationWindow\": 65535, \"maxSignalDuration\": 4294967295}}]}";
    let res = resolve::<ListRulesResponse>(&respond(200, fits)).expect("decodes");
    assert_eq!(65535, res.data[0].options.evaluation_window);
    assert_eq!(4294967295, res.data[0].options.max_signal_duration);
    let too_wide = "{\"data\": [{\"options\": {\"newValueOptions\": {\"forgetAfter\": 256}}}]}";
    assert!(resolve::<ListRulesResponse>(&respond(200, too_wide)).is_err());
    let negative = "{\"data\": [{\"options\": {\"keepAlive\": -1}}]}";
    assert!(resolve::<ListRulesResponse>(&respond(200, negative)).is_err());
    let fraction = "{\"data\": [{\"version\": 1.5}]}";
    assert!(resolve::<ListRulesResponse>(&respond(200, fraction)).is_err());
}

#[test]
fn rule_defaults() {
    assert_eq!(Status::Info, Status::default());
    assert_eq!(Action::Require, Action::default());
    assert_eq!(DetectionMethod::Threshold, DetectionMethod::default());
    assert_eq!(Aggregation::Count, Aggregation::default());
    let res = resolve::<ListRulesResponse>(&respond(200, "{\"data\": [{}]}")).expect("decodes");
    assert_eq!(vec![Data::default()], res.data);
    assert_eq!(Some(Aggregation::NewValue), Aggregation::from_name("new_value"));
    assert_eq!(None, Aggregation::from_name("median"));
}

#[test]
fn rules_are_read_back_as_they_were_written() {
    let rule = Data {
        cases: vec![Case { status: Status::High, ..Case::default() }],
        queries: vec![Query { agent_rule: Some(AgentRule::default()), ..Query::default() }],
        version: -4,
        ..Data::default()
    };
    let response = ListRulesResponse { data: vec![rule, Data::default()], meta: Meta::default() };
    assert_eq!(Some(response.clone()), ListRulesResponse::from_json(&response.to_json()));
    let written = client().post_json("/echo", &response).body.expect("a body");
    assert!(written.contains("\"createdAt\":0"), "{}", written);
    assert!(written.contains("\"agentRule\":{\"agentRuleId\":null,\"expression\":null}"), "{}", written);
    assert_eq!(Ok(response), resolve::<ListRulesResponse>(&respond(200, &written)));
}
