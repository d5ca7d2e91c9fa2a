use datadog_api::client::{resolve, Client, DatadogError, HttpResponse, Method};
use datadog_api::dashboards::{
    CreateDashboardRequest, CreateDashboardResponse, Formula, LayoutType, MetricAggregator, Note,
    Query, QueryOption1, QueryValue, ReflowType, Request, RequestAggregator, ResponseFormat,
    TemplateVariable, TextAlign, TickEdge, UpdateDashboardRequest, UpdateDashboardResponse,
    VerticalAlign, Widget, WidgetDefinition, WidgetLayout,
};
use datadog_api::json::{DecodeError, FromJson, JsonValue, ToJson};

fn client() -> Client {
    Client::new("https://api.datadoghq.com", "api-key", "app-key")
}

fn respond(status: u16, body: &str) -> HttpResponse {
    HttpResponse { status, body: body.to_string() }
}

fn note_widget() -> Widget {
    Widget {
        id: None,
        definition: Some(WidgetDefinition::Note(Note {
            content: "__Objective:__ Ensure classified data is adequately protected\n\n__Indicator:__ AWS S3 Bucket contents is effectively hidden from the broader Internet\n\n---\n\nExport CSV of [all assets](https://meetkunde.eng.roktinternal.com/aws/s3/bucket_effective_access_is_restricted_appropriately) | [non-compliant assets](https://meetkunde.eng.roktinternal.com/aws/s3/bucket_effective_access_is_restricted_appropriately?norm=Violated)".to_string(),
            background_color: Some("white".to_string()),
            font_size: Some("14".to_string()),
            text_align: Some(TextAlign::Left),
            vertical_align: Some(VerticalAlign::Top),
            show_tick: Some(false),
            tick_pos: Some("50%".to_string()),
            tick_edge: Some(TickEdge::Left),
            has_padding: Some(true),
        })),
        layout: Some(WidgetLayout {
            is_column_break: None,
            x: 0,
            y: 0,
            width: 10,
            height: 2,
        }),
    }
}

fn query_value_widget() -> Widget {
    Widget {
        id: None,
        definition: Some(WidgetDefinition::QueryValue(QueryValue {
            custom_links: None,
            custom_unit: None,
            text_align: None,
            time: None,
            title: Some("Total".to_string()),
            title_size: Some("16".to_string()),
            title_align: Some(TextAlign::Left),
            requests: Some(vec![Request {
                aggregator: None,
                formulas: Some(vec![Formula { alias: None, formula: "query1".to_string() }]),
                response_format: Some(ResponseFormat::Scalar),
                queries: Some(vec![Query::Option1(QueryOption1 {
                    query: "sum:meetkunde.kci.aws.s3.bucket_effective_access_is_restricted_appropriately.gauge{$team}".to_string(),
                    data_source: "metrics".to_string(),
                    name: "query1".to_string(),
                    aggregator: Some(MetricAggregator::Last),
                })]),
            }]),
            autoscale: Some(false),
            precision: Some(0),
        })),
        layout: Some(WidgetLayout {
            is_column_break: None,
            x: 10,
            y: 0,
            width: 2,
            height: 1,
        }),
    }
}

/// Cretes a dashboard with the minimal amount of settings supported by DD
#[test]
fn test_create_dashboard_empty() {
    let client = client();
    let req = CreateDashboardRequest::default()
        .title("datadog-api-rs: test_create_dashboard_empty")
        .layout_type(LayoutType::Ordered);
    let request = req.send(&client);
    assert_eq!(Method::Post, request.method);
    assert_eq!("https://api.datadoghq.com/api/v1/dashboard", request.url);
    assert_eq!(
        Some(
            "{\"layout_type\":\"ordered\",\"title\":\"datadog-api-rs: test_create_dashboard_empty\",\"widgets\":[]}"
                .to_string()
        ),
        request.body
    );
    let body = "{\"id\": \"abc-def-ghi\", \"title\": \"datadog-api-rs: test_create_dashboard_empty\", \
                \"layout_type\": \"ordered\", \"reflow_type\": \"auto\", \"widgets\": [], \
                \"template_variables\": [{}], \"url\": \"/dashboard/abc-def-ghi\"}";
    let res = resolve::<CreateDashboardResponse>(&respond(200, body)).expect("API call failed");
    let expected = CreateDashboardResponse {
        id: "abc-def-ghi".to_string(),
        title: "datadog-api-rs: test_create_dashboard_empty".to_string(),
        layout_type: LayoutType::Ordered,
        reflow_type: Some(ReflowType::Auto),
        template_variables: Some(vec![TemplateVariable {}]),
        url: "/dashboard/abc-def-ghi".to_string(),
        ..CreateDashboardResponse::default()
    };
    assert_eq!(expected, res);
}

/// Updates a dashboard with the minimal amount of settings supported by DD
#[test]
fn test_update_dashboard_empty() {
    let client = client();
    let req = UpdateDashboardRequest::default()
        .dashboard_id("v2g-k58-bhe")
        .title("datadog-api-rs: test_update_dashboard_empty")
        .layout_type(LayoutType::Ordered);
    let request = req.send(&client).expect("API call failed");
    assert_eq!(Method::Put, request.method);
    assert_eq!("https://api.datadoghq.com/api/v1/dashboard/v2g-k58-bhe", request.url);
    assert_eq!(
        Some(
            "{\"layout_type\":\"ordered\",\"title\":\"datadog-api-rs: test_update_dashboard_empty\",\"widgets\":[]}"
                .to_string()
        ),
        request.body
    );
    let body = "{\"id\": \"v2g-k58-bhe\", \"title\": \"datadog-api-rs: test_update_dashboard_empty\"}";
    let res = resolve::<UpdateDashboardResponse>(&respond(200, body)).expect("API call failed");
    assert_eq!("v2g-k58-bhe", res.id);
    assert_eq!(LayoutType::Ordered, res.layout_type);
}

/// Updates a dashboard with the all settings supported by DD
#[test]
fn test_update_dashboard_complete() {
    let client = client();
    let note = note_widget();
    let queryvalue = query_value_widget();
    let req = UpdateDashboardRequest::default()
        .dashboard_id("v2g-k58-bhe")
        .title("datadog-api-rs: test_update_dashboard_complete")
        .layout_type(LayoutType::Ordered)
        .widgets(vec![note, queryvalue]);
    let request = req.send(&client).expect("API call failed");
    assert_eq!("https://api.datadoghq.com/api/v1/dashboard/v2g-k58-bhe", request.url);
    // The API answers with the dashboard as it is now: the widgets come back as they went.
    let sent = request.body.expect("a body");
    let res = resolve::<UpdateDashboardResponse>(&respond(200, &sent)).expect("API call failed");
    assert_eq!("datadog-api-rs: test_update_dashboard_complete", res.title);
    assert_eq!(vec![note_widget(), query_value_widget()], res.widgets);
    assert!(sent.contains("\"type\":\"note\""));
    assert!(sent.contains("\"type\":\"query_value\""));
    assert!(!sent.contains("dashboard_id"));
    assert!(!sent.contains("v2g-k58-bhe"));
}

#[test]
fn update_without_dashboard_id_is_rejected() {
    let req = UpdateDashboardRequest::default().title("no id");
    match req.send(&client()) {
        Err(DatadogError::InvalidInput(message)) => {
            assert_eq!("dashboard_id must not be empty", message)
        }
        other => panic!("unexpected outcome: {:?}", other),
    }
}

#[test]
fn widget_definition_is_told_apart_by_type() {
    let widget = Widget::default().definition(WidgetDefinition::Note(Note {
        content: "hello".to_string(),
        ..Note::default()
    }));
    assert_eq!(
        JsonValue::Object(vec![member(
            "definition",
            JsonValue::Object(vec![
                member("type", JsonValue::String("note".to_string())),
                member("content", JsonValue::String("hello".to_string())),
            ])
        )]),
        widget.to_json()
    );
    let body = "{\"definition\": {\"type\": \"note\", \"content\": \"hello\"}}";
    let parsed = resolve::<Widget>(&respond(200, body)).expect("decodes");
    assert_eq!(widget, parsed);
    let body = "{\"definition\": {\"type\": \"timeseries\", \"content\": \"hello\"}}";
    assert!(matches!(
        resolve::<Widget>(&respond(200, body)),
        Err(DatadogError::Decode(DecodeError::Shape))
    ));
    let body = "{\"definition\": {\"content\": \"hello\"}}";
    assert!(resolve::<Widget>(&respond(200, body)).is_err());
}

#[test]
fn note_needs_its_content() {
    let body = "{\"definition\": {\"type\": \"note\", \"font_size\": \"14\"}}";
    assert!(matches!(
        resolve::<Widget>(&respond(200, body)),
        Err(DatadogError::Decode(DecodeError::Shape))
    ));
    let body = "{\"definition\": {\"type\": \"query_value\"}}";
    let parsed = resolve::<Widget>(&respond(200, body)).expect("decodes");
    match parsed.definition {
        Some(WidgetDefinition::QueryValue(query_value)) => {
            assert_eq!(None, query_value.title);
            assert_eq!(None, query_value.requests);
        }
        other => panic!("unexpected definition: {:?}", other),
    }
}

#[test]
fn query_needs_its_fields() {
    let full = JsonValue::Object(vec![
        member("data_source", JsonValue::String("metrics".to_string())),
        member("name", JsonValue::String("query1".to_string())),
        member("query", JsonValue::String("avg:system.cpu.user{*}".to_string())),
        member("aggregator", JsonValue::String("l2norm".to_string())),
    ]);
    let expected = Query::Option1(QueryOption1 {
        aggregator: Some(MetricAggregator::Norm),
        data_source: "metrics".to_string(),
        name: "query1".to_string(),
        query: "avg:system.cpu.user{*}".to_string(),
    });
    assert_eq!(Some(expected), Query::from_json(&full));
    let partial = JsonValue::Object(vec![member("name", JsonValue::String("query1".to_string()))]);
    assert_eq!(None, Query::from_json(&partial));
    assert_eq!(None, Query::from_json(&JsonValue::Null));
    // Members come out in the order of the fields; a field that is not set is left out.
    let plain = Query::Option1(QueryOption1 {
        aggregator: None,
        data_source: "metrics".to_string(),
        name: "query1".to_string(),
        query: "avg:system.cpu.user{*}".to_string(),
    });
    assert_eq!(
        JsonValue::Object(vec![
            member("data_source", JsonValue::String("metrics".to_string())),
            member("name", JsonValue::String("query1".to_string())),
            member("query", JsonValue::String("avg:system.cpu.user{*}".to_string())),
        ]),
        plain.to_json()
    );
}

fn member(name: &str, value: JsonValue) -> datadog_api::json::JsonMember {
    datadog_api::json::JsonMember { name: name.to_string(), value }
}

#[test]
fn widget_enums_on_the_wire() {
    assert_eq!("avg", RequestAggregator::Average.as_str());
    assert_eq!("percentile", RequestAggregator::Percentile.as_str());
    assert_eq!(Some(RequestAggregator::Maximum), RequestAggregator::from_name("max"));
    assert_eq!(None, RequestAggregator::from_name("area"));
    assert_eq!(Some(MetricAggregator::Area), MetricAggregator::from_name("area"));
    assert_eq!("l2norm", MetricAggregator::Norm.as_str());
    assert_eq!(Some(TextAlign::Center), TextAlign::from_name("center"));
    assert_eq!(Some(VerticalAlign::Bottom), VerticalAlign::from_name("bottom"));
    assert_eq!(Some(TickEdge::Top), TickEdge::from_name("top"));
    assert_eq!(Some(ResponseFormat::Timeseries), ResponseFormat::from_name("timeseries"));
    assert_eq!(Some(LayoutType::Free), LayoutType::from_name("free"));
    assert_eq!(None, LayoutType::from_name("Free"));
    assert_eq!("fixed", ReflowType::Fixed.as_str());
}

#[test]
fn widget_defaults() {
    assert_eq!(TextAlign::Left, TextAlign::default());
    assert_eq!(VerticalAlign::Top, VerticalAlign::default());
    assert_eq!(RequestAggregator::Average, RequestAggregator::default());
    assert_eq!(MetricAggregator::Average, MetricAggregator::default());
    assert_eq!(TickEdge::Right, TickEdge::default());
    assert_eq!(LayoutType::Ordered, LayoutType::default());
    let note = Note::default();
    assert_eq!("", note.content);
    assert_eq!(None, note.background_color);
    assert_eq!(None, note.tick_edge);
    assert_eq!(Widget { id: None, definition: None, layout: None }, Widget::default());
}

#[test]
fn dashboards_are_read_back_as_they_were_written() {
    let request = CreateDashboardRequest::default()
        .title("t")
        .layout_type(LayoutType::Free)
        .widgets(vec![note_widget(), query_value_widget(), Widget::default()]);
    assert_eq!(Some(request.clone()), CreateDashboardRequest::from_json(&request.to_json()));
    let response = CreateDashboardResponse {
        widgets: vec![query_value_widget()],
        notify_list: Some(vec!["a".to_string()]),
        ..CreateDashboardResponse::default()
    };
    assert_eq!(Some(response.clone()), CreateDashboardResponse::from_json(&response.to_json()));
    let written = client().post_json("/echo", &response).body.expect("a body");
    assert_eq!(Ok(response), resolve::<CreateDashboardResponse>(&respond(200, &written)));
}
