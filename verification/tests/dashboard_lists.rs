use datadog_api::client::{resolve, Client, HttpResponse, Method};
use datadog_api::json::{FromJson, ToJson};
use datadog_api::dashboard_lists::{
    AddDashboardListItemsRequest, AddDashboardListItemsResponse, Author, Dashboard,
    DashboardReference, DeleteDashboardListItemsRequest, DeleteDashboardListItemsResponse,
    GetDashboardListItemsRequest, GetDashboardListItemsResponse,
};

fn client() -> Client {
    Client::new("https://api.datadoghq.com", "api-key", "app-key")
}

fn respond(status: u16, body: &str) -> HttpResponse {
    HttpResponse { status, body: body.to_string() }
}

#[test]
fn dashboard_list_get_items() {
    let client = client();
    let req = GetDashboardListItemsRequest::default().dashboard_list_id(242202);
    let request = req.send(&client);
    assert_eq!(Method::Get, request.method);
    assert_eq!(
        "https://api.datadoghq.com/api/v2/dashboard/lists/manual/242202/dashboards",
        request.url
    );
    let body = "{\"dashboards\": [{\"id\": \"bkt-hmh-j8u\", \"type\": \"custom_timeboard\", \
                \"author\": {\"email\": null, \"handle\": \"jo\", \"name\": \"Jo\"}, \
                \"popularity\": -3, \"is_shared\": true}], \"total\": 1}";
    let res = resolve::<GetDashboardListItemsResponse>(&respond(200, body)).expect("API call failed");
    assert_ne!(0, res.dashboards.len());
    let expected = GetDashboardListItemsResponse {
        dashboards: vec![Dashboard {
            author: Author { email: None, handle: "jo".to_string(), name: "Jo".to_string() },
            id: "bkt-hmh-j8u".to_string(),
            is_shared: true,
            popularity: -3,
            _type: "custom_timeboard".to_string(),
            ..Dashboard::default()
        }],
        total: 1,
    };
    assert_eq!(expected, res);
}

#[test]
fn dashboard_list_delete_items() {
    let client = client();
    let req = DeleteDashboardListItemsRequest::default()
        .dashboard_list_id(242202)
        .dashboards(vec![DashboardReference {
            id: "bkt-hmh-j8u".to_string(),
            _type: "custom_timeboard".to_string(),
        }]);
    let request = req.send(&client);
    assert_eq!(Method::Delete, request.method);
    assert_eq!(
        "https://api.datadoghq.com/api/v2/dashboard/lists/manual/242202/dashboards",
        request.url
    );
    assert_eq!(
        Some("{\"dashboards\":[{\"id\":\"bkt-hmh-j8u\",\"type\":\"custom_timeboard\"}]}".to_string()),
        request.body
    );
    let body = "{\"deleted_dashboards_from_list\": [{\"id\": \"bkt-hmh-j8u\", \"type\": \"custom_timeboard\"}]}";
    let res = resolve::<DeleteDashboardListItemsResponse>(&respond(200, body)).expect("API call failed");
    assert_ne!(0, res.deleted_dashboards_from_list.len());
    assert_eq!(req.dashboards, res.deleted_dashboards_from_list);
}

#[test]
fn dashboard_list_add_items() {
    let client = client();
    let req = AddDashboardListItemsRequest::default()
        .dashboard_list_id(242202)
        .dashboards(vec![DashboardReference {
            id: "bkt-hmh-j8u".to_string(),
            _type: "custom_timeboard".to_string(),
        }]);
    let request = req.send(&client);
    assert_eq!(Method::Post, request.method);
    assert_eq!(
        "https://api.datadoghq.com/api/v2/dashboard/lists/manual/242202/dashboards",
        request.url
    );
    assert_eq!(
        Some("{\"dashboards\":[{\"id\":\"bkt-hmh-j8u\",\"type\":\"custom_timeboard\"}]}".to_string()),
        request.body
    );
    let body = "{\"added_dashboards_to_list\": [{\"id\": \"bkt-hmh-j8u\", \"type\": \"custom_timeboard\"}]}";
    let res = resolve::<AddDashboardListItemsResponse>(&respond(200, body)).expect("API call failed");
    assert_ne!(0, res.added_dashboards_to_list.len());
    assert_eq!(req.dashboards, res.added_dashboards_to_list);
}

#[test]
fn dashboard_list_id_goes_into_the_path_only() {
    let req = AddDashboardListItemsRequest::default().dashboard_list_id(-7);
    assert_eq!("/api/v2/dashboard/lists/manual/-7/dashboards", req.path_and_query());
    let request = req.send(&client());
    assert_eq!(Some("{\"dashboards\":[]}".to_string()), request.body);
    let names: Vec<&str> = request.headers.iter().map(|h| h.name.as_str()).collect();
    assert_eq!(vec!["DD-API-KEY", "DD-APPLICATION-KEY", "Content-Type"], names);
    assert_eq!("application/json", request.headers[2].value);
}

#[test]
fn dashboard_popularity_has_to_fit() {
    let body = "{\"dashboards\": [{\"popularity\": 2147483648}]}";
    assert!(resolve::<GetDashboardListItemsResponse>(&respond(200, body)).is_err());
    let body = "{\"dashboards\": [{\"popularity\": 2147483647}]}";
    let res = resolve::<GetDashboardListItemsResponse>(&respond(200, body)).expect("decodes");
    assert_eq!(2147483647, res.dashboards[0].popularity);
    let body = "{\"dashboards\": [{\"popularity\": -2147483648}]}";
    let res = resolve::<GetDashboardListItemsResponse>(&respond(200, body)).expect("decodes");
    assert_eq!(-2147483648, res.dashboards[0].popularity);
}

#[test]
fn dashboard_lists_are_read_back_as_they_were_written() {
    let response = GetDashboardListItemsResponse {
        dashboards: vec![
            Dashboard { icon: Some("i".to_string()), popularity: -1, ..Dashboard::default() },
            Dashboard::default(),
        ],
        total: 2,
    };
    assert_eq!(Some(response.clone()), GetDashboardListItemsResponse::from_json(&response.to_json()));
    let written = client().post_json("/echo", &response).body.expect("a body");
    assert_eq!(Ok(response), resolve::<GetDashboardListItemsResponse>(&respond(200, &written)));
}
