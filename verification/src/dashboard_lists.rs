//! Dashboard lists: which dashboards a list holds, and adding and removing them.
pub mod wire;

use crate::client::{
    json_request, plain_request, resolve, Call, Client, ClientModel, DatadogErrorModel,
    DatadogResult, HttpRequest, HttpRequestModel, HttpResponse, Method,
};
use crate::json::{empty_list, json_render, ToJson};
use crate::text::{i64_to_string, signed_decimal};
use vstd::prelude::*;

verus! {

/// The path of the dashboards of a dashboard list.
pub open spec fn items_path(dashboard_list_id: i64) -> Seq<char> {
    "/api/v2/dashboard/lists/manual/"@ + signed_decimal(dashboard_list_id as int) + "/dashboards"@
}

/// Writes the path of the dashboards of a dashboard list.
pub fn items_path_of(dashboard_list_id: i64) -> (path: String)
    ensures
        path@ == items_path(dashboard_list_id),
{
    let mut path = String::from_str("/api/v2/dashboard/lists/manual/");
    let id = i64_to_string(dashboard_list_id);
    path.append(id.as_str());
    path.append("/dashboards");
    path
}

/// The creator of a dashboard.
#[derive(Debug, Clone, PartialEq, Eq)]
pub struct Author {
    /// Email of the creator.
    pub email: Option<String>,
    /// Handle of the creator.
    pub handle: String,
    /// Name of the creator.
    pub name: String,
}

/// The model of an `Author`.
pub ghost struct AuthorModel {
    pub email: Option<Seq<char>>,
    pub handle: Seq<char>,
    pub name: Seq<char>,
}

impl View for Author {
    type V = AuthorModel;

    open spec fn view(&self) -> AuthorModel {
        AuthorModel {
            email: self.email.deep_view(),
            handle: self.handle@,
            name: self.name@,
        }
    }
}

impl DeepView for Author {
    type V = AuthorModel;

    open spec fn deep_view(&self) -> AuthorModel {
        self@
    }
}

impl Author {
    /// The model of the value that `default` gives.
    pub open spec fn default_model() -> AuthorModel {
        AuthorModel {
            email: None,
            handle: Seq::empty(),
            name: Seq::empty(),
        }
    }
}

impl Default for Author {
    fn default() -> (r: Author)
        ensures
            r@ == Author::default_model(),
    {
        Author {
            email: None,
            handle: String::new(),
            name: String::new(),
        }
    }
}

/// A dashboard as a dashboard list shows it.
#[derive(Debug, Clone, PartialEq, Eq)]
pub struct Dashboard {
    /// Creator of the dashboard.
    pub author: Author,
    /// Date of creation.
    pub created: String,
    /// URL of the icon.
    pub icon: Option<String>,
    /// ID of the dashboard.
    pub id: String,
    /// Whether the dashboard is among the favorites.
    pub is_favorite: bool,
    /// Whether the dashboard is read only.
    pub is_read_only: bool,
    /// Whether the dashboard is shared publicly.
    pub is_shared: bool,
    /// Date of the last change.
    pub modified: String,
    /// Popularity of the dashboard.
    pub popularity: i32,
    /// Title of the dashboard.
    pub title: String,
    /// The type of the dashboard: `custom_timeboard`, `custom_screenboard`,
    /// `integration_screenboard`, `integration_timeboard` or `host_timeboard`.
    pub _type: String,
    /// URL path of the dashboard.
    pub url: String,
}

/// The model of a `Dashboard`.
pub ghost struct DashboardModel {
    pub author: AuthorModel,
    pub created: Seq<char>,
    pub icon: Option<Seq<char>>,
    pub id: Seq<char>,
    pub is_favorite: bool,
    pub is_read_only: bool,
    pub is_shared: bool,
    pub modified: Seq<char>,
    pub popularity: i32,
    pub title: Seq<char>,
    pub _type: Seq<char>,
    pub url: Seq<char>,
}

impl View for Dashboard {
    type V = DashboardModel;

    open spec fn view(&self) -> DashboardModel {
        DashboardModel {
            author: self.author.deep_view(),
            created: self.created@,
            icon: self.icon.deep_view(),
            id: self.id@,
            is_favorite: self.is_favorite,
            is_read_only: self.is_read_only,
            is_shared: self.is_shared,
            modified: self.modified@,
            popularity: self.popularity,
            title: self.title@,
            _type: self._type@,
            url: self.url@,
        }
    }
}

impl DeepView for Dashboard {
    type V = DashboardModel;

    open spec fn deep_view(&self) -> DashboardModel {
        self@
    }
}

impl Dashboard {
    /// The model of the value that `default` gives.
    pub open spec fn default_model() -> DashboardModel {
        DashboardModel {
            author: Author::default_model(),
            created: Seq::empty(),
            icon: None,
            id: Seq::empty(),
            is_favorite: false,
            is_read_only: false,
            is_shared: false,
            modified: Seq::empty(),
            popularity: 0,
            title: Seq::empty(),
            _type: Seq::empty(),
            url: Seq::empty(),
        }
    }
}

impl Default for Dashboard {
    fn default() -> (r: Dashboard)
        ensures
            r@ == Dashboard::default_model(),
    {
        Dashboard {
            author: Author::default(),
            created: String::new(),
            icon: None,
            id: String::new(),
            is_favorite: false,
            is_read_only: false,
            is_shared: false,
            modified: String::new(),
            popularity: 0,
            title: String::new(),
            _type: String::new(),
            url: String::new(),
        }
    }
}

/// Asks for the dashboards of a dashboard list.
#[derive(Debug, Clone, Copy, PartialEq, Eq)]
pub struct GetDashboardListItemsRequest {
    /// ID of the dashboard list.
    pub dashboard_list_id: i64,
}

impl View for GetDashboardListItemsRequest {
    type V = GetDashboardListItemsRequest;

    open spec fn view(&self) -> GetDashboardListItemsRequest {
        *self
    }
}

impl DeepView for GetDashboardListItemsRequest {
    type V = GetDashboardListItemsRequest;

    open spec fn deep_view(&self) -> GetDashboardListItemsRequest {
        self@
    }
}

impl GetDashboardListItemsRequest {
    /// The model of the value that `default` gives.
    pub open spec fn default_model() -> GetDashboardListItemsRequest {
        GetDashboardListItemsRequest {
            dashboard_list_id: 0,
        }
    }
}

impl Default for GetDashboardListItemsRequest {
    fn default() -> (r: GetDashboardListItemsRequest)
        ensures
            r@ == GetDashboardListItemsRequest::default_model(),
    {
        GetDashboardListItemsRequest {
            dashboard_list_id: 0,
        }
    }
}

impl GetDashboardListItemsRequest {
    /// Sets `dashboard_list_id`.
    pub fn dashboard_list_id(self, dashboard_list_id: i64) -> (r: GetDashboardListItemsRequest)
        ensures
            r == (GetDashboardListItemsRequest { dashboard_list_id, ..self }),
    {
        GetDashboardListItemsRequest { dashboard_list_id: dashboard_list_id }
    }

    /// The path that this request is sent to.
    pub fn path_and_query(&self) -> (path: String)
        ensures
            path@ == items_path(self.dashboard_list_id),
    {
        items_path_of(self.dashboard_list_id)
    }

    /// The request to send.
    pub fn send(&self, client: &Client) -> (request: HttpRequest)
        ensures
            request@ == plain_request(
                client@,
                Method::Get,
                items_path(self.dashboard_list_id),
                None,
            ),
    {
        client.get_raw(self.path_and_query().as_str())
    }
}

impl Call for GetDashboardListItemsRequest {
    type Response = GetDashboardListItemsResponse;

    open spec fn request_model(&self, client: ClientModel) -> Result<
        HttpRequestModel,
        DatadogErrorModel,
    > {
        Ok(plain_request(client, Method::Get, items_path(self.dashboard_list_id), None))
    }

    fn request(&self, client: &Client) -> (r: DatadogResult<HttpRequest>) {
        Ok(self.send(client))
    }

    fn receive(&self, response: &HttpResponse) -> (r: DatadogResult<
        GetDashboardListItemsResponse,
    >) {
        resolve(response)
    }
}

/// The dashboards of a dashboard list.
#[derive(Debug, Clone, PartialEq, Eq)]
pub struct GetDashboardListItemsResponse {
    /// The dashboards in the list.
    pub dashboards: Vec<Dashboard>,
    /// How many dashboards the list holds.
    pub total: u64,
}

/// The model of a `GetDashboardListItemsResponse`.
pub ghost struct GetDashboardListItemsResponseModel {
    pub dashboards: Seq<DashboardModel>,
    pub total: u64,
}

impl View for GetDashboardListItemsResponse {
    type V = GetDashboardListItemsResponseModel;

    open spec fn view(&self) -> GetDashboardListItemsResponseModel {
        GetDashboardListItemsResponseModel {
            dashboards: self.dashboards.deep_view(),
            total: self.total,
        }
    }
}

impl DeepView for GetDashboardListItemsResponse {
    type V = GetDashboardListItemsResponseModel;

    open spec fn deep_view(&self) -> GetDashboardListItemsResponseModel {
        self@
    }
}

impl GetDashboardListItemsResponse {
    /// The model of the value that `default` gives.
    pub open spec fn default_model() -> GetDashboardListItemsResponseModel {
        GetDashboardListItemsResponseModel {
            dashboards: Seq::empty(),
            total: 0,
        }
    }
}

impl Default for GetDashboardListItemsResponse {
    fn default() -> (r: GetDashboardListItemsResponse)
        ensures
            r@ == GetDashboardListItemsResponse::default_model(),
    {
        GetDashboardListItemsResponse {
            dashboards: empty_list(),
            total: 0,
        }
    }
}

/// Names one dashboard by its ID and type.
#[derive(Debug, Clone, PartialEq, Eq)]
pub struct DashboardReference {
    /// ID of the dashboard.
    pub id: String,
    /// The type of the dashboard: `custom_timeboard`, `custom_screenboard`,
    /// `integration_screenboard`, `integration_timeboard` or `host_timeboard`.
    pub _type: String,
}

/// The model of a `DashboardReference`.
pub ghost struct DashboardReferenceModel {
    pub id: Seq<char>,
    pub _type: Seq<char>,
}

impl View for DashboardReference {
    type V = DashboardReferenceModel;

    open spec fn view(&self) -> DashboardReferenceModel {
        DashboardReferenceModel {
            id: self.id@,
            _type: self._type@,
        }
    }
}

impl DeepView for DashboardReference {
    type V = DashboardReferenceModel;

    open spec fn deep_view(&self) -> DashboardReferenceModel {
        self@
    }
}

impl DashboardReference {
    /// The model of the value that `default` gives.
    pub open spec fn default_model() -> DashboardReferenceModel {
        DashboardReferenceModel {
            id: Seq::empty(),
            _type: Seq::empty(),
        }
    }
}

impl Default for DashboardReference {
    fn default() -> (r: DashboardReference)
        ensures
            r@ == DashboardReference::default_model(),
    {
        DashboardReference {
            id: String::new(),
            _type: String::new(),
        }
    }
}

/// Adds dashboards to a dashboard list.
#[derive(Debug, Clone, PartialEq, Eq)]
pub struct AddDashboardListItemsRequest {
    /// ID of the dashboard list. It goes into the path, not into the body.
    pub dashboard_list_id: i64,
    /// The dashboards to add.
    pub dashboards: Vec<DashboardReference>,
}

/// The model of an `AddDashboardListItemsRequest`.
pub ghost struct AddDashboardListItemsRequestModel {
    pub dashboard_list_id: i64,
    pub dashboards: Seq<DashboardReferenceModel>,
}

impl View for AddDashboardListItemsRequest {
    type V = AddDashboardListItemsRequestModel;

    open spec fn view(&self) -> AddDashboardListItemsRequestModel {
        AddDashboardListItemsRequestModel {
            dashboard_list_id: self.dashboard_list_id,
            dashboards: self.dashboards.deep_view(),
        }
    }
}

impl DeepView for AddDashboardListItemsRequest {
    type V = AddDashboardListItemsRequestModel;

    open spec fn deep_view(&self) -> AddDashboardListItemsRequestModel {
        self@
    }
}

impl AddDashboardListItemsRequest {
    /// The model of the value that `default` gives.
    pub open spec fn default_model() -> AddDashboardListItemsRequestModel {
        AddDashboardListItemsRequestModel {
            dashboard_list_id: 0,
            dashboards: Seq::empty(),
        }
    }
}

impl Default for AddDashboardListItemsRequest {
    fn default() -> (r: AddDashboardListItemsRequest)
        ensures
            r@ == AddDashboardListItemsRequest::default_model(),
    {
        AddDashboardListItemsRequest {
            dashboard_list_id: 0,
            dashboards: empty_list(),
        }
    }
}

impl AddDashboardListItemsRequest {
    /// Sets `dashboard_list_id`.
    pub fn dashboard_list_id(self, dashboard_list_id: i64) -> (r: AddDashboardListItemsRequest)
        ensures
            r@ == (AddDashboardListItemsRequestModel { dashboard_list_id, ..self@ }),
    {
        AddDashboardListItemsRequest { dashboard_list_id: dashboard_list_id, ..self }
    }

    /// Sets `dashboards`.
    pub fn dashboards(self, dashboards: Vec<DashboardReference>) -> (r:
        AddDashboardListItemsRequest)
        ensures
            r@ == (AddDashboardListItemsRequestModel {
                dashboards: dashboards.deep_view(),
                ..self@
            }),
    {
        AddDashboardListItemsRequest { dashboards: dashboards, ..self }
    }

    /// The path that this request is sent to.
    pub fn path_and_query(&self) -> (path: String)
        ensures
            path@ == items_path(self.dashboard_list_id),
    {
        items_path_of(self.dashboard_list_id)
    }

    /// The request to send: the dashboards to add are its body.
    pub fn send(&self, client: &Client) -> (request: HttpRequest)
        ensures
            request@ == json_request(
                client@,
                Method::Post,
                items_path(self.dashboard_list_id),
                json_render(Self::encoded(self@)),
            ),
    {
        client.post_json(self.path_and_query().as_str(), self)
    }
}

impl Call for AddDashboardListItemsRequest {
    type Response = AddDashboardListItemsResponse;

    open spec fn request_model(&self, client: ClientModel) -> Result<
        HttpRequestModel,
        DatadogErrorModel,
    > {
        Ok(
            json_request(
                client,
                Method::Post,
                items_path(self.dashboard_list_id),
                json_render(Self::encoded(self@)),
            ),
        )
    }

    fn request(&self, client: &Client) -> (r: DatadogResult<HttpRequest>) {
        Ok(self.send(client))
    }

    fn receive(&self, response: &HttpResponse) -> (r: DatadogResult<
        AddDashboardListItemsResponse,
    >) {
        resolve(response)
    }
}

/// The dashboards that were added to a dashboard list.
#[derive(Debug, Clone, PartialEq, Eq)]
pub struct AddDashboardListItemsResponse {
    /// The dashboards that were added.
    pub added_dashboards_to_list: Vec<DashboardReference>,
}

/// The model of an `AddDashboardListItemsResponse`.
pub ghost struct AddDashboardListItemsResponseModel {
    pub added_dashboards_to_list: Seq<DashboardReferenceModel>,
}

impl View for AddDashboardListItemsResponse {
    type V = AddDashboardListItemsResponseModel;

    open spec fn view(&self) -> AddDashboardListItemsResponseModel {
        AddDashboardListItemsResponseModel {
            added_dashboards_to_list: self.added_dashboards_to_list.deep_view(),
        }
    }
}

impl DeepView for AddDashboardListItemsResponse {
    type V = AddDashboardListItemsResponseModel;

    open spec fn deep_view(&self) -> AddDashboardListItemsResponseModel {
        self@
    }
}

impl AddDashboardListItemsResponse {
    /// The model of the value that `default` gives.
    pub open spec fn default_model() -> AddDashboardListItemsResponseModel {
        AddDashboardListItemsResponseModel {
            added_dashboards_to_list: Seq::empty(),
        }
    }
}

impl Default for AddDashboardListItemsResponse {
    fn default() -> (r: AddDashboardListItemsResponse)
        ensures
            r@ == AddDashboardListItemsResponse::default_model(),
    {
        AddDashboardListItemsResponse {
            added_dashboards_to_list: empty_list(),
        }
    }
}

/// Removes dashboards from a dashboard list.
#[derive(Debug, Clone, PartialEq, Eq)]
pub struct DeleteDashboardListItemsRequest {
    /// ID of the dashboard list. It goes into the path, not into the body.
    pub dashboard_list_id: i64,
    /// The dashboards to remove.
    pub dashboards: Vec<DashboardReference>,
}

/// The model of a `DeleteDashboardListItemsRequest`.
pub ghost struct DeleteDashboardListItemsRequestModel {
    pub dashboard_list_id: i64,
    pub dashboards: Seq<DashboardReferenceModel>,
}

impl View for DeleteDashboardListItemsRequest {
    type V = DeleteDashboardListItemsRequestModel;

    open spec fn view(&self) -> DeleteDashboardListItemsRequestModel {
        DeleteDashboardListItemsRequestModel {
            dashboard_list_id: self.dashboard_list_id,
            dashboards: self.dashboards.deep_view(),
        }
    }
}

impl DeepView for DeleteDashboardListItemsRequest {
    type V = DeleteDashboardListItemsRequestModel;

    open spec fn deep_view(&self) -> DeleteDashboardListItemsRequestModel {
        self@
    }
}

impl DeleteDashboardListItemsRequest {
    /// The model of the value that `default` gives.
    pub open spec fn default_model() -> DeleteDashboardListItemsRequestModel {
        DeleteDashboardListItemsRequestModel {
            dashboard_list_id: 0,
            dashboards: Seq::empty(),
        }
    }
}

impl Default for DeleteDashboardListItemsRequest {
    fn default() -> (r: DeleteDashboardListItemsRequest)
        ensures
            r@ == DeleteDashboardListItemsRequest::default_model(),
    {
        DeleteDashboardListItemsRequest {
            dashboard_list_id: 0,
            dashboards: empty_list(),
        }
    }
}

impl DeleteDashboardListItemsRequest {
    /// Sets `dashboard_list_id`.
    pub fn dashboard_list_id(self, dashboard_list_id: i64) -> (r: DeleteDashboardListItemsRequest)
        ensures
            r@ == (DeleteDashboardListItemsRequestModel { dashboard_list_id, ..self@ }),
    {
        DeleteDashboardListItemsRequest { dashboard_list_id: dashboard_list_id, ..self }
    }

    /// Sets `dashboards`.
    pub fn dashboards(self, dashboards: Vec<DashboardReference>) -> (r:
        DeleteDashboardListItemsRequest)
        ensures
            r@ == (DeleteDashboardListItemsRequestModel {
                dashboards: dashboards.deep_view(),
                ..self@
            }),
    {
        DeleteDashboardListItemsRequest { dashboards: dashboards, ..self }
    }

    /// The path that this request is sent to.
    pub fn path_and_query(&self) -> (path: String)
        ensures
            path@ == items_path(self.dashboard_list_id),
    {
        items_path_of(self.dashboard_list_id)
    }

    /// The request to send: the dashboards to remove are its body.
    pub fn send(&self, client: &Client) -> (request: HttpRequest)
        ensures
            request@ == json_request(
                client@,
                Method::Delete,
                items_path(self.dashboard_list_id),
                json_render(Self::encoded(self@)),
            ),
    {
        client.delete_json(self.path_and_query().as_str(), self)
    }
}

impl Call for DeleteDashboardListItemsRequest {
    type Response = DeleteDashboardListItemsResponse;

    open spec fn request_model(&self, client: ClientModel) -> Result<
        HttpRequestModel,
        DatadogErrorModel,
    > {
        Ok(
            json_request(
                client,
                Method::Delete,
                items_path(self.dashboard_list_id),
                json_render(Self::encoded(self@)),
            ),
        )
    }

    fn request(&self, client: &Client) -> (r: DatadogResult<HttpRequest>) {
        Ok(self.send(client))
    }

    fn receive(&self, response: &HttpResponse) -> (r: DatadogResult<
        DeleteDashboardListItemsResponse,
    >) {
        resolve(response)
    }
}

/// The dashboards that were removed from a dashboard list.
#[derive(Debug, Clone, PartialEq, Eq)]
pub struct DeleteDashboardListItemsResponse {
    /// The dashboards that were removed.
    pub deleted_dashboards_from_list: Vec<DashboardReference>,
}

/// The model of a `DeleteDashboardListItemsResponse`.
pub ghost struct DeleteDashboardListItemsResponseModel {
    pub deleted_dashboards_from_list: Seq<DashboardReferenceModel>,
}

impl View for DeleteDashboardListItemsResponse {
    type V = DeleteDashboardListItemsResponseModel;

    open spec fn view(&self) -> DeleteDashboardListItemsResponseModel {
        DeleteDashboardListItemsResponseModel {
            deleted_dashboards_from_list: self.deleted_dashboards_from_list.deep_view(),
        }
    }
}

impl DeepView for DeleteDashboardListItemsResponse {
    type V = DeleteDashboardListItemsResponseModel;

    open spec fn deep_view(&self) -> DeleteDashboardListItemsResponseModel {
        self@
    }
}

impl DeleteDashboardListItemsResponse {
    /// The model of the value that `default` gives.
    pub open spec fn default_model() -> DeleteDashboardListItemsResponseModel {
        DeleteDashboardListItemsResponseModel {
            deleted_dashboards_from_list: Seq::empty(),
        }
    }
}

impl Default for DeleteDashboardListItemsResponse {
    fn default() -> (r: DeleteDashboardListItemsResponse)
        ensures
            r@ == DeleteDashboardListItemsResponse::default_model(),
    {
        DeleteDashboardListItemsResponse {
            deleted_dashboards_from_list: empty_list(),
        }
    }
}

} // verus!
