//! Monitors watch a metric or a check and notify a team when a threshold is crossed.
pub mod pagination;
pub mod wire;

use crate::client::{
    json_request, plain_request, resolve, Call, Client, ClientModel, DatadogErrorModel,
    DatadogResult, HttpRequest, HttpRequestModel, HttpResponse, Method,
};
use crate::json::{empty_list, json_render, Dictionary, JsonNumber, Num, ToJson};
use crate::text::{
    bool_text, bool_to_string, decimal, path_with_query, same_text, u64_to_string, views,
    with_query,
};
use vstd::prelude::*;

pub use pagination::{MonitorsSearchIter, Step};

verus! {

/// One parameter of a query: the name, an equals sign and the value, each as it is.
pub open spec fn pair(name: Seq<char>, value: Seq<char>) -> Seq<char> {
    name + "="@ + value
}

/// Writes one parameter of a query.
fn write_pair(name: &str, value: &str) -> (text: String)
    ensures
        text@ == pair(name@, value@),
{
    let mut text = String::from_str(name);
    text.append("=");
    text.append(value);
    text
}

/// The parameters of the query of a monitor search: the query, then the page, the page size
/// and the sort order, each only where it is set.
pub open spec fn search_queries(request: MonitorsSearchRequestModel) -> Seq<Seq<char>> {
    let page = match request.page {
        Some(n) => seq![pair("page"@, decimal(n as nat))],
        None => Seq::empty(),
    };
    let per_page = match request.per_page {
        Some(n) => seq![pair("per_page"@, decimal(n as nat))],
        None => Seq::empty(),
    };
    let sort = match request.sort {
        Some(order) => seq![pair("sort"@, order)],
        None => Seq::empty(),
    };
    seq![pair("query"@, request.query)] + page + per_page + sort
}

/// The path and query of a monitor search.
pub open spec fn search_path(request: MonitorsSearchRequestModel) -> Seq<char> {
    with_query("/api/v1/monitor/search"@, search_queries(request))
}

/// The path of one monitor.
pub open spec fn monitor_path(monitor_id: u64) -> Seq<char> {
    "/api/v1/monitor/"@ + decimal(monitor_id as nat)
}

/// Writes the path of one monitor.
fn monitor_path_of(monitor_id: u64) -> (path: String)
    ensures
        path@ == monitor_path(monitor_id),
{
    let mut path = String::from_str("/api/v1/monitor/");
    let id = u64_to_string(monitor_id);
    path.append(id.as_str());
    path
}

/// The path and query of a request that deletes a monitor.
pub open spec fn delete_path(request: DeleteMonitorRequest) -> Seq<char> {
    let force = match request.force {
        Some(b) => seq![pair("force"@, bool_text(b))],
        None => Seq::empty(),
    };
    with_query(monitor_path(request.monitor_id), force)
}

/// Searches the monitors.
#[derive(Debug, Clone, PartialEq, Eq)]
pub struct MonitorsSearchRequest {
    /// The search query: monitor attributes, separated by spaces, such as `type:metric
    /// status:alert`.
    pub query: String,
    /// The page to start from.
    pub page: Option<u64>,
    /// How many monitors a page holds.
    pub per_page: Option<u64>,
    /// The sort order: a field (`name`, `status` or `tags`), a comma and a direction (`asc` or
    /// `desc`), such as `name,asc`.
    pub sort: Option<String>,
}

/// The model of a `MonitorsSearchRequest`.
pub ghost struct MonitorsSearchRequestModel {
    pub query: Seq<char>,
    pub page: Option<u64>,
    pub per_page: Option<u64>,
    pub sort: Option<Seq<char>>,
}

impl View for MonitorsSearchRequest {
    type V = MonitorsSearchRequestModel;

    open spec fn view(&self) -> MonitorsSearchRequestModel {
        MonitorsSearchRequestModel {
            query: self.query@,
            page: self.page,
            per_page: self.per_page,
            sort: self.sort.deep_view(),
        }
    }
}

impl DeepView for MonitorsSearchRequest {
    type V = MonitorsSearchRequestModel;

    open spec fn deep_view(&self) -> MonitorsSearchRequestModel {
        self@
    }
}

impl MonitorsSearchRequest {
    /// The model of the value that `default` gives.
    pub open spec fn default_model() -> MonitorsSearchRequestModel {
        MonitorsSearchRequestModel {
            query: Seq::empty(),
            page: None,
            per_page: None,
            sort: None,
        }
    }
}

impl Default for MonitorsSearchRequest {
    fn default() -> (r: MonitorsSearchRequest)
        ensures
            r@ == MonitorsSearchRequest::default_model(),
    {
        MonitorsSearchRequest {
            query: String::new(),
            page: None,
            per_page: None,
            sort: None,
        }
    }
}

impl MonitorsSearchRequest {
    /// Sets `query`.
    pub fn query(self, query: &str) -> (r: MonitorsSearchRequest)
        ensures
            r@ == (MonitorsSearchRequestModel { query: query@, ..self@ }),
    {
        MonitorsSearchRequest { query: String::from_str(query), ..self }
    }

    /// Sets `page`.
    pub fn page(self, page: u64) -> (r: MonitorsSearchRequest)
        ensures
            r@ == (MonitorsSearchRequestModel { page: Some(page), ..self@ }),
    {
        MonitorsSearchRequest { page: Some(page), ..self }
    }

    /// Sets `per_page`.
    pub fn per_page(self, per_page: u64) -> (r: MonitorsSearchRequest)
        ensures
            r@ == (MonitorsSearchRequestModel { per_page: Some(per_page), ..self@ }),
    {
        MonitorsSearchRequest { per_page: Some(per_page), ..self }
    }

    /// Sets `sort`.
    pub fn sort(self, sort: &str) -> (r: MonitorsSearchRequest)
        ensures
            r@ == (MonitorsSearchRequestModel { sort: Some(sort@), ..self@ }),
    {
        MonitorsSearchRequest { sort: Some(String::from_str(sort)), ..self }
    }

    /// The path and query that this request is sent to.
    pub fn path_and_query(&self) -> (path: String)
        ensures
            path@ == search_path(self@),
    {
        let mut queries: Vec<String> = Vec::new();
        queries.push(write_pair("query", self.query.as_str()));
        if let Some(page) = self.page {
            let number = u64_to_string(page);
            queries.push(write_pair("page", number.as_str()));
        }
        if let Some(per_page) = self.per_page {
            let number = u64_to_string(per_page);
            queries.push(write_pair("per_page", number.as_str()));
        }
        if let Some(sort) = &self.sort {
            queries.push(write_pair("sort", sort.as_str()));
        }
        assert(views(queries@) =~= search_queries(self@));
        path_with_query("/api/v1/monitor/search", &queries)
    }

    /// The request to send.
    pub fn send(&self, client: &Client) -> (request: HttpRequest)
        ensures
            request@ == plain_request(client@, Method::Get, search_path(self@), None),
    {
        client.get_raw(self.path_and_query().as_str())
    }
}

impl Call for MonitorsSearchRequest {
    type Response = MonitorsSearchResponse;

    open spec fn request_model(&self, client: ClientModel) -> Result<
        HttpRequestModel,
        DatadogErrorModel,
    > {
        Ok(plain_request(client, Method::Get, search_path(self@), None))
    }

    fn request(&self, client: &Client) -> (r: DatadogResult<HttpRequest>) {
        Ok(self.send(client))
    }

    fn receive(&self, response: &HttpResponse) -> (r: DatadogResult<MonitorsSearchResponse>) {
        resolve(response)
    }
}

/// The value of a facet: a text, or a truth value.
#[derive(Debug, Clone, PartialEq, Eq)]
pub enum SearchFacetName {
    String(String),
    Bool(bool),
}

/// The model of a `SearchFacetName`.
pub ghost enum SearchFacetNameModel {
    String(Seq<char>),
    Bool(bool),
}

impl View for SearchFacetName {
    type V = SearchFacetNameModel;

    open spec fn view(&self) -> SearchFacetNameModel {
        match self {
            SearchFacetName::String(text) => SearchFacetNameModel::String(text@),
            SearchFacetName::Bool(b) => SearchFacetNameModel::Bool(*b),
        }
    }
}

impl DeepView for SearchFacetName {
    type V = SearchFacetNameModel;

    open spec fn deep_view(&self) -> SearchFacetNameModel {
        self@
    }
}

impl SearchFacetName {
    /// The model of the value that `default` gives.
    pub open spec fn default_model() -> SearchFacetNameModel {
        SearchFacetNameModel::String(Seq::empty())
    }
}

impl Default for SearchFacetName {
    fn default() -> (r: SearchFacetName)
        ensures
            r@ == SearchFacetName::default_model(),
    {
        SearchFacetName::String(String::new())
    }
}

/// One value of a facet, and how many of the monitors that were found have it.
#[derive(Debug, Clone, PartialEq, Eq)]
pub struct SearchFacet {
    /// The value of the facet.
    pub name: SearchFacetName,
    /// How many of the monitors that were found have the value.
    pub count: u64,
}

/// The model of a `SearchFacet`.
pub ghost struct SearchFacetModel {
    pub name: SearchFacetNameModel,
    pub count: u64,
}

impl View for SearchFacet {
    type V = SearchFacetModel;

    open spec fn view(&self) -> SearchFacetModel {
        SearchFacetModel {
            name: self.name.deep_view(),
            count: self.count,
        }
    }
}

impl DeepView for SearchFacet {
    type V = SearchFacetModel;

    open spec fn deep_view(&self) -> SearchFacetModel {
        self@
    }
}

impl SearchFacet {
    /// The model of the value that `default` gives.
    pub open spec fn default_model() -> SearchFacetModel {
        SearchFacetModel {
            name: SearchFacetName::default_model(),
            count: 0,
        }
    }
}

impl Default for SearchFacet {
    fn default() -> (r: SearchFacet)
        ensures
            r@ == SearchFacet::default_model(),
    {
        SearchFacet {
            name: SearchFacetName::default(),
            count: 0,
        }
    }
}

/// The monitors that were found, counted by several facets.
#[derive(Debug, Clone, PartialEq, Eq)]
pub struct SearchFacetCounts {
    /// By whether they are muted.
    pub muted: Vec<SearchFacet>,
    /// By status.
    pub status: Vec<SearchFacet>,
    /// By tag.
    pub tag: Vec<SearchFacet>,
    /// By type.
    pub _type: Vec<SearchFacet>,
}

/// The model of a `SearchFacetCounts`.
pub ghost struct SearchFacetCountsModel {
    pub muted: Seq<SearchFacetModel>,
    pub status: Seq<SearchFacetModel>,
    pub tag: Seq<SearchFacetModel>,
    pub _type: Seq<SearchFacetModel>,
}

impl View for SearchFacetCounts {
    type V = SearchFacetCountsModel;

    open spec fn view(&self) -> SearchFacetCountsModel {
        SearchFacetCountsModel {
            muted: self.muted.deep_view(),
            status: self.status.deep_view(),
            tag: self.tag.deep_view(),
            _type: self._type.deep_view(),
        }
    }
}

impl DeepView for SearchFacetCounts {
    type V = SearchFacetCountsModel;

    open spec fn deep_view(&self) -> SearchFacetCountsModel {
        self@
    }
}

impl SearchFacetCounts {
    /// The model of the value that `default` gives.
    pub open spec fn default_model() -> SearchFacetCountsModel {
        SearchFacetCountsModel {
            muted: Seq::empty(),
            status: Seq::empty(),
            tag: Seq::empty(),
            _type: Seq::empty(),
        }
    }
}

impl Default for SearchFacetCounts {
    fn default() -> (r: SearchFacetCounts)
        ensures
            r@ == SearchFacetCounts::default_model(),
    {
        SearchFacetCounts {
            muted: empty_list(),
            status: empty_list(),
            tag: empty_list(),
            _type: empty_list(),
        }
    }
}

/// Where a page of a search stands among the pages.
#[derive(Debug, Clone, Copy, PartialEq, Eq)]
pub struct Metadata {
    /// The number of this page.
    pub page: u64,
    /// How many pages there are.
    pub page_count: u64,
    /// How many monitors a page holds.
    pub per_page: u64,
    /// How many monitors were found.
    pub total_count: u64,
}

impl View for Metadata {
    type V = Metadata;

    open spec fn view(&self) -> Metadata {
        *self
    }
}

impl DeepView for Metadata {
    type V = Metadata;

    open spec fn deep_view(&self) -> Metadata {
        self@
    }
}

impl Metadata {
    /// The model of the value that `default` gives.
    pub open spec fn default_model() -> Metadata {
        Metadata {
            page: 0,
            page_count: 0,
            per_page: 0,
            total_count: 0,
        }
    }
}

impl Default for Metadata {
    fn default() -> (r: Metadata)
        ensures
            r@ == Metadata::default_model(),
    {
        Metadata {
            page: 0,
            page_count: 0,
            per_page: 0,
            total_count: 0,
        }
    }
}

/// The creator of a monitor.
#[derive(Debug, Clone, PartialEq, Eq)]
pub struct User {
    /// Email of the creator.
    pub email: String,
    /// Handle of the creator.
    pub handle: String,
    /// Name of the creator.
    pub name: String,
}

/// The model of an `User`.
pub ghost struct UserModel {
    pub email: Seq<char>,
    pub handle: Seq<char>,
    pub name: Seq<char>,
}

impl View for User {
    type V = UserModel;

    open spec fn view(&self) -> UserModel {
        UserModel {
            email: self.email@,
            handle: self.handle@,
            name: self.name@,
        }
    }
}

impl DeepView for User {
    type V = UserModel;

    open spec fn deep_view(&self) -> UserModel {
        self@
    }
}

impl User {
    /// The model of the value that `default` gives.
    pub open spec fn default_model() -> UserModel {
        UserModel {
            email: Seq::empty(),
            handle: Seq::empty(),
            name: Seq::empty(),
        }
    }
}

impl Default for User {
    fn default() -> (r: User)
        ensures
            r@ == User::default_model(),
    {
        User {
            email: String::new(),
            handle: String::new(),
            name: String::new(),
        }
    }
}

/// Someone whom a monitor notifies.
#[derive(Debug, Clone, PartialEq, Eq)]
pub struct Notification {
    /// The email address that is notified.
    pub handle: String,
    /// The name of the user who is notified.
    pub name: String,
}

/// The model of a `Notification`.
pub ghost struct NotificationModel {
    pub handle: Seq<char>,
    pub name: Seq<char>,
}

impl View for Notification {
    type V = NotificationModel;

    open spec fn view(&self) -> NotificationModel {
        NotificationModel {
            handle: self.handle@,
            name: self.name@,
        }
    }
}

impl DeepView for Notification {
    type V = NotificationModel;

    open spec fn deep_view(&self) -> NotificationModel {
        self@
    }
}

impl Notification {
    /// The model of the value that `default` gives.
    pub open spec fn default_model() -> NotificationModel {
        NotificationModel {
            handle: Seq::empty(),
            name: Seq::empty(),
        }
    }
}

impl Default for Notification {
    fn default() -> (r: Notification)
        ensures
            r@ == Notification::default_model(),
    {
        Notification {
            handle: String::new(),
            name: String::new(),
        }
    }
}

/// The state of a monitor.
#[derive(Debug, Clone, Copy, PartialEq, Eq)]
pub enum Status {
    Alert,
    Ignored,
    NoData,
    Okay,
    Skipped,
    Unknown,
    Warn,
}

impl View for Status {
    type V = Status;

    open spec fn view(&self) -> Status {
        *self
    }
}

impl DeepView for Status {
    type V = Status;

    open spec fn deep_view(&self) -> Status {
        *self
    }
}

impl Status {
    /// The value that `default` gives.
    pub open spec fn default_model() -> Status {
        Status::Unknown
    }

    /// The name that each variant has on the wire.
    pub open spec fn wire_name(self) -> Seq<char> {
        match self {
            Status::Alert => "Alert"@,
            Status::Ignored => "Ignored"@,
            Status::NoData => "No Data"@,
            Status::Okay => "OK"@,
            Status::Skipped => "Skipped"@,
            Status::Unknown => "Unknown"@,
            Status::Warn => "Warn"@,
        }
    }

    /// The variant that a name on the wire stands for, if it is one of them.
    pub open spec fn from_wire_name(name: Seq<char>) -> Option<Status> {
        if name == "Alert"@ {
            Some(Status::Alert)
        } else if name == "Ignored"@ {
            Some(Status::Ignored)
        } else if name == "No Data"@ {
            Some(Status::NoData)
        } else if name == "OK"@ {
            Some(Status::Okay)
        } else if name == "Skipped"@ {
            Some(Status::Skipped)
        } else if name == "Unknown"@ {
            Some(Status::Unknown)
        } else if name == "Warn"@ {
            Some(Status::Warn)
        } else {
            None
        }
    }

    /// Every variant is found again under its own name: no two variants share one.
    pub proof fn lemma_wire_name_round_trip(self)
        ensures
            Self::from_wire_name(self.wire_name()) == Some(self),
    {
        reveal_strlit("Alert");
        reveal_strlit("Ignored");
        reveal_strlit("No Data");
        reveal_strlit("OK");
        reveal_strlit("Skipped");
        reveal_strlit("Unknown");
        reveal_strlit("Warn");
        assert("Alert"@.len() == 5);
        assert("Ignored"@.len() == 7);
        assert("No Data"@.len() == 7);
        assert("OK"@.len() == 2);
        assert("Skipped"@.len() == 7);
        assert("Unknown"@.len() == 7);
        assert("Warn"@.len() == 4);
        assert("Ignored"@[0] == 'I');
        assert("No Data"@[0] == 'N');
        assert("Skipped"@[0] == 'S');
        assert("Unknown"@[0] == 'U');
    }

    /// The name of this variant on the wire.
    pub fn as_str(&self) -> (name: &'static str)
        ensures
            name@ == self.wire_name(),
    {
        match self {
            Status::Alert => "Alert",
            Status::Ignored => "Ignored",
            Status::NoData => "No Data",
            Status::Okay => "OK",
            Status::Skipped => "Skipped",
            Status::Unknown => "Unknown",
            Status::Warn => "Warn",
        }
    }

    /// Finds the variant that a name on the wire stands for.
    pub fn from_name(name: &str) -> (r: Option<Status>)
        ensures
            r == Self::from_wire_name(name@),
    {
        if same_text(name, "Alert") {
            Some(Status::Alert)
        } else if same_text(name, "Ignored") {
            Some(Status::Ignored)
        } else if same_text(name, "No Data") {
            Some(Status::NoData)
        } else if same_text(name, "OK") {
            Some(Status::Okay)
        } else if same_text(name, "Skipped") {
            Some(Status::Skipped)
        } else if same_text(name, "Unknown") {
            Some(Status::Unknown)
        } else if same_text(name, "Warn") {
            Some(Status::Warn)
        } else {
            None
        }
    }
}

impl Default for Status {
    fn default() -> (r: Status)
        ensures
            r == Status::default_model(),
    {
        Status::Unknown
    }
}

/// The type of a monitor.
#[derive(Debug, Clone, Copy, PartialEq, Eq)]
pub enum MonitorType {
    Composite,
    EventAlert,
    LogAlert,
    MetricAlert,
    ProcessAlert,
    QueryAlert,
    RumAlert,
    ServiceCheck,
    SyntheticsAlert,
    TraceAnalyticsAlert,
    SloAlert,
    EventV2Alert,
    AuditAlert,
    CiPipelinesAlert,
}

impl View for MonitorType {
    type V = MonitorType;

    open spec fn view(&self) -> MonitorType {
        *self
    }
}

impl DeepView for MonitorType {
    type V = MonitorType;

    open spec fn deep_view(&self) -> MonitorType {
        *self
    }
}

impl MonitorType {
    /// The value that `default` gives.
    pub open spec fn default_model() -> MonitorType {
        MonitorType::LogAlert
    }

    /// The name that each variant has on the wire.
    pub open spec fn wire_name(self) -> Seq<char> {
        match self {
            MonitorType::Composite => "composite"@,
            MonitorType::EventAlert => "event alert"@,
            MonitorType::LogAlert => "log alert"@,
            MonitorType::MetricAlert => "metric alert"@,
            MonitorType::ProcessAlert => "process alert"@,
            MonitorType::QueryAlert => "query alert"@,
            MonitorType::RumAlert => "rum alert"@,
            MonitorType::ServiceCheck => "service check"@,
            MonitorType::SyntheticsAlert => "synthetics alert"@,
            MonitorType::TraceAnalyticsAlert => "trace-analytics alert"@,
            MonitorType::SloAlert => "slo alert"@,
            MonitorType::EventV2Alert => "event-v2 alert"@,
            MonitorType::AuditAlert => "audit alert"@,
            MonitorType::CiPipelinesAlert => "ci-pipelines alert"@,
        }
    }

    /// The variant that a name on the wire stands for, if it is one of them.
    pub open spec fn from_wire_name(name: Seq<char>) -> Option<MonitorType> {
        if name == "composite"@ {
            Some(MonitorType::Composite)
        } else if name == "event alert"@ {
            Some(MonitorType::EventAlert)
        } else if name == "log alert"@ {
            Some(MonitorType::LogAlert)
        } else if name == "metric alert"@ {
            Some(MonitorType::MetricAlert)
        } else if name == "process alert"@ {
            Some(MonitorType::ProcessAlert)
        } else if name == "query alert"@ {
            Some(MonitorType::QueryAlert)
        } else if name == "rum alert"@ {
            Some(MonitorType::RumAlert)
        } else if name == "service check"@ {
            Some(MonitorType::ServiceCheck)
        } else if name == "synthetics alert"@ {
            Some(MonitorType::SyntheticsAlert)
        } else if name == "trace-analytics alert"@ {
            Some(MonitorType::TraceAnalyticsAlert)
        } else if name == "slo alert"@ {
            Some(MonitorType::SloAlert)
        } else if name == "event-v2 alert"@ {
            Some(MonitorType::EventV2Alert)
        } else if name == "audit alert"@ {
            Some(MonitorType::AuditAlert)
        } else if name == "ci-pipelines alert"@ {
            Some(MonitorType::CiPipelinesAlert)
        } else {
            None
        }
    }

    /// Every variant is found again under its own name: no two variants share one.
    pub proof fn lemma_wire_name_round_trip(self)
        ensures
            Self::from_wire_name(self.wire_name()) == Some(self),
    {
        reveal_strlit("composite");
        reveal_strlit("event alert");
        reveal_strlit("log alert");
        reveal_strlit("metric alert");
        reveal_strlit("process alert");
        reveal_strlit("query alert");
        reveal_strlit("rum alert");
        reveal_strlit("service check");
        reveal_strlit("synthetics alert");
        reveal_strlit("trace-analytics alert");
        reveal_strlit("slo alert");
        reveal_strlit("event-v2 alert");
        reveal_strlit("audit alert");
        reveal_strlit("ci-pipelines alert");
        assert("composite"@.len() == 9);
        assert("event alert"@.len() == 11);
        assert("log alert"@.len() == 9);
        assert("metric alert"@.len() == 12);
        assert("process alert"@.len() == 13);
        assert("query alert"@.len() == 11);
        assert("rum alert"@.len() == 9);
        assert("service check"@.len() == 13);
        assert("synthetics alert"@.len() == 16);
        assert("trace-analytics alert"@.len() == 21);
        assert("slo alert"@.len() == 9);
        assert("event-v2 alert"@.len() == 14);
        assert("audit alert"@.len() == 11);
        assert("ci-pipelines alert"@.len() == 18);
        assert("composite"@[0] == 'c');
        assert("event alert"@[0] == 'e');
        assert("log alert"@[0] == 'l');
        assert("process alert"@[0] == 'p');
        assert("query alert"@[0] == 'q');
        assert("rum alert"@[0] == 'r');
        assert("service check"@[0] == 's');
        assert("slo alert"@[0] == 's');
        assert("audit alert"@[0] == 'a');
    }

    /// The name of this variant on the wire.
    pub fn as_str(&self) -> (name: &'static str)
        ensures
            name@ == self.wire_name(),
    {
        match self {
            MonitorType::Composite => "composite",
            MonitorType::EventAlert => "event alert",
            MonitorType::LogAlert => "log alert",
            MonitorType::MetricAlert => "metric alert",
            MonitorType::ProcessAlert => "process alert",
            MonitorType::QueryAlert => "query alert",
            MonitorType::RumAlert => "rum alert",
            MonitorType::ServiceCheck => "service check",
            MonitorType::SyntheticsAlert => "synthetics alert",
            MonitorType::TraceAnalyticsAlert => "trace-analytics alert",
            MonitorType::SloAlert => "slo alert",
            MonitorType::EventV2Alert => "event-v2 alert",
            MonitorType::AuditAlert => "audit alert",
            MonitorType::CiPipelinesAlert => "ci-pipelines alert",
        }
    }

    /// Finds the variant that a name on the wire stands for.
    pub fn from_name(name: &str) -> (r: Option<MonitorType>)
        ensures
            r == Self::from_wire_name(name@),
    {
        if same_text(name, "composite") {
            Some(MonitorType::Composite)
        } else if same_text(name, "event alert") {
            Some(MonitorType::EventAlert)
        } else if same_text(name, "log alert") {
            Some(MonitorType::LogAlert)
        } else if same_text(name, "metric alert") {
            Some(MonitorType::MetricAlert)
        } else if same_text(name, "process alert") {
            Some(MonitorType::ProcessAlert)
        } else if same_text(name, "query alert") {
            Some(MonitorType::QueryAlert)
        } else if same_text(name, "rum alert") {
            Some(MonitorType::RumAlert)
        } else if same_text(name, "service check") {
            Some(MonitorType::ServiceCheck)
        } else if same_text(name, "synthetics alert") {
            Some(MonitorType::SyntheticsAlert)
        } else if same_text(name, "trace-analytics alert") {
            Some(MonitorType::TraceAnalyticsAlert)
        } else if same_text(name, "slo alert") {
            Some(MonitorType::SloAlert)
        } else if same_text(name, "event-v2 alert") {
            Some(MonitorType::EventV2Alert)
        } else if same_text(name, "audit alert") {
            Some(MonitorType::AuditAlert)
        } else if same_text(name, "ci-pipelines alert") {
            Some(MonitorType::CiPipelinesAlert)
        } else {
            None
        }
    }
}

impl Default for MonitorType {
    fn default() -> (r: MonitorType)
        ensures
            r == MonitorType::default_model(),
    {
        MonitorType::LogAlert
    }
}

/// A monitor as a search shows it.
#[derive(Debug, Clone, PartialEq, Eq)]
pub struct Monitor {
    /// Classification of the monitor.
    pub classification: String,
    /// The creator of the monitor.
    pub creator: User,
    /// ID of the monitor.
    pub id: u64,
    /// When the monitor triggered last.
    pub last_triggered_ts: Option<u64>,
    /// The metrics that the monitor uses.
    pub metrics: Vec<String>,
    /// Name of the monitor.
    pub name: String,
    /// Whom the monitor notifies.
    pub notifications: Vec<Notification>,
    /// ID of the organization.
    pub org_id: u64,
    /// The scopes that the monitor applies to, such as `host:app2`.
    pub scopes: Vec<String>,
    /// The state of the monitor.
    pub status: Status,
    /// Tags of the monitor.
    pub tags: Vec<String>,
    /// The type of the monitor.
    pub _type: MonitorType,
}

/// The model of a `Monitor`.
pub ghost struct MonitorModel {
    pub classification: Seq<char>,
    pub creator: UserModel,
    pub id: u64,
    pub last_triggered_ts: Option<u64>,
    pub metrics: Seq<Seq<char>>,
    pub name: Seq<char>,
    pub notifications: Seq<NotificationModel>,
    pub org_id: u64,
    pub scopes: Seq<Seq<char>>,
    pub status: Status,
    pub tags: Seq<Seq<char>>,
    pub _type: MonitorType,
}

impl View for Monitor {
    type V = MonitorModel;

    open spec fn view(&self) -> MonitorModel {
        MonitorModel {
            classification: self.classification@,
            creator: self.creator.deep_view(),
            id: self.id,
            last_triggered_ts: self.last_triggered_ts,
            metrics: self.metrics.deep_view(),
            name: self.name@,
            notifications: self.notifications.deep_view(),
            org_id: self.org_id,
            scopes: self.scopes.deep_view(),
            status: self.status,
            tags: self.tags.deep_view(),
            _type: self._type,
        }
    }
}

impl DeepView for Monitor {
    type V = MonitorModel;

    open spec fn deep_view(&self) -> MonitorModel {
        self@
    }
}

impl Monitor {
    /// The model of the value that `default` gives.
    pub open spec fn default_model() -> MonitorModel {
        MonitorModel {
            classification: Seq::empty(),
            creator: User::default_model(),
            id: 0,
            last_triggered_ts: None,
            metrics: Seq::empty(),
            name: Seq::empty(),
            notifications: Seq::empty(),
            org_id: 0,
            scopes: Seq::empty(),
            status: Status::default_model(),
            tags: Seq::empty(),
            _type: MonitorType::default_model(),
        }
    }
}

impl Default for Monitor {
    fn default() -> (r: Monitor)
        ensures
            r@ == Monitor::default_model(),
    {
        Monitor {
            classification: String::new(),
            creator: User::default(),
            id: 0,
            last_triggered_ts: None,
            metrics: empty_list(),
            name: String::new(),
            notifications: empty_list(),
            org_id: 0,
            scopes: empty_list(),
            status: Status::default(),
            tags: empty_list(),
            _type: MonitorType::default(),
        }
    }
}

/// One page of the monitors that a search found.
#[derive(Debug, Clone, PartialEq, Eq)]
pub struct MonitorsSearchResponse {
    /// The monitors that were found, counted by several facets.
    pub counts: SearchFacetCounts,
    /// Where this page stands among the pages.
    pub metadata: Metadata,
    /// The monitors of this page.
    pub monitors: Vec<Monitor>,
}

/// The model of a `MonitorsSearchResponse`.
pub ghost struct MonitorsSearchResponseModel {
    pub counts: SearchFacetCountsModel,
    pub metadata: Metadata,
    pub monitors: Seq<MonitorModel>,
}

impl View for MonitorsSearchResponse {
    type V = MonitorsSearchResponseModel;

    open spec fn view(&self) -> MonitorsSearchResponseModel {
        MonitorsSearchResponseModel {
            counts: self.counts.deep_view(),
            metadata: self.metadata,
            monitors: self.monitors.deep_view(),
        }
    }
}

impl DeepView for MonitorsSearchResponse {
    type V = MonitorsSearchResponseModel;

    open spec fn deep_view(&self) -> MonitorsSearchResponseModel {
        self@
    }
}

impl MonitorsSearchResponse {
    /// The model of the value that `default` gives.
    pub open spec fn default_model() -> MonitorsSearchResponseModel {
        MonitorsSearchResponseModel {
            counts: SearchFacetCounts::default_model(),
            metadata: Metadata::default_model(),
            monitors: Seq::empty(),
        }
    }
}

impl Default for MonitorsSearchResponse {
    fn default() -> (r: MonitorsSearchResponse)
        ensures
            r@ == MonitorsSearchResponse::default_model(),
    {
        MonitorsSearchResponse {
            counts: SearchFacetCounts::default(),
            metadata: Metadata::default(),
            monitors: empty_list(),
        }
    }
}

/// Options of a monitor.
#[derive(Debug, Clone, PartialEq, Eq)]
pub struct MonitorOptions {
    /// How the query of the monitor aggregates.
    pub aggregation: Aggregation,
    /// IDs of the devices that a Synthetics monitor runs on. Deprecated.
    pub device_ids: Vec<String>,
    /// Whether a sample of the logs is sent when a log monitor triggers.
    pub enable_logs_sample: bool,
    /// A message to send with a renotification.
    pub escalation_message: String,
    /// By how many seconds the evaluation is delayed.
    pub evaluation_delay: u64,
    /// Whether a log alert monitor triggers one alert or one for each group.
    pub groupby_simple_monitor: bool,
    /// Whether the tags that triggered are put into the title of a notification.
    pub include_tags: bool,
    /// Whether only the creator and admins may edit the monitor.
    pub locked: bool,
    /// For how many seconds a test has to fail before an alert, 7200 at most.
    pub min_failure_duration: u64,
    /// How many locations have to fail at the same time before an alert, one at least.
    pub min_location_failed: u64,
    /// For how many seconds a new group is not evaluated.
    pub new_group_delay: u64,
    /// For how many seconds a new host is not evaluated. Deprecated: `new_group_delay` takes its
    /// place.
    pub new_host_delay: u64,
    /// After how many minutes without data the monitor notifies.
    pub no_data_timeframe: u64,
    /// Whether the tagged users are notified when the monitor changes.
    pub notify_audit: bool,
    /// Whether the monitor notifies when data stops coming.
    pub notify_no_data: bool,
    /// After how many minutes the monitor notifies again while it is not resolved.
    pub renotify_interval: u64,
    /// How often the monitor notifies again.
    pub renotify_occurrences: u64,
    /// The states in which the monitor notifies again.
    pub renotify_statuses: Vec<String>,
    /// Whether the monitor needs a full window of data before it is evaluated.
    pub require_full_window: bool,
    /// ID of the Synthetics check. Deprecated.
    pub synthetics_check_id: String,
    /// The time windows of an anomaly monitor.
    pub threshold_windows: ThresholdWindows,
    /// The thresholds of the monitor.
    pub thresholds: Thresholds,
    /// After how many hours without data the monitor resolves by itself.
    pub timeout_h: u64,
}

/// The model of a `MonitorOptions`.
pub ghost struct MonitorOptionsModel {
    pub aggregation: AggregationModel,
    pub device_ids: Seq<Seq<char>>,
    pub enable_logs_sample: bool,
    pub escalation_message: Seq<char>,
    pub evaluation_delay: u64,
    pub groupby_simple_monitor: bool,
    pub include_tags: bool,
    pub locked: bool,
    pub min_failure_duration: u64,
    pub min_location_failed: u64,
    pub new_group_delay: u64,
    pub new_host_delay: u64,
    pub no_data_timeframe: u64,
    pub notify_audit: bool,
    pub notify_no_data: bool,
    pub renotify_interval: u64,
    pub renotify_occurrences: u64,
    pub renotify_statuses: Seq<Seq<char>>,
    pub require_full_window: bool,
    pub synthetics_check_id: Seq<char>,
    pub threshold_windows: ThresholdWindowsModel,
    pub thresholds: ThresholdsModel,
    pub timeout_h: u64,
}

impl View for MonitorOptions {
    type V = MonitorOptionsModel;

    open spec fn view(&self) -> MonitorOptionsModel {
        MonitorOptionsModel {
            aggregation: self.aggregation.deep_view(),
            device_ids: self.device_ids.deep_view(),
            enable_logs_sample: self.enable_logs_sample,
            escalation_message: self.escalation_message@,
            evaluation_delay: self.evaluation_delay,
            groupby_simple_monitor: self.groupby_simple_monitor,
            include_tags: self.include_tags,
            locked: self.locked,
            min_failure_duration: self.min_failure_duration,
            min_location_failed: self.min_location_failed,
            new_group_delay: self.new_group_delay,
            new_host_delay: self.new_host_delay,
            no_data_timeframe: self.no_data_timeframe,
            notify_audit: self.notify_audit,
            notify_no_data: self.notify_no_data,
            renotify_interval: self.renotify_interval,
            renotify_occurrences: self.renotify_occurrences,
            renotify_statuses: self.renotify_statuses.deep_view(),
            require_full_window: self.require_full_window,
            synthetics_check_id: self.synthetics_check_id@,
            threshold_windows: self.threshold_windows.deep_view(),
            thresholds: self.thresholds.deep_view(),
            timeout_h: self.timeout_h,
        }
    }
}

impl DeepView for MonitorOptions {
    type V = MonitorOptionsModel;

    open spec fn deep_view(&self) -> MonitorOptionsModel {
        self@
    }
}

impl MonitorOptions {
    /// The model of the value that `default` gives.
    pub open spec fn default_model() -> MonitorOptionsModel {
        MonitorOptionsModel {
            aggregation: Aggregation::default_model(),
            device_ids: Seq::empty(),
            enable_logs_sample: false,
            escalation_message: Seq::empty(),
            evaluation_delay: 0,
            groupby_simple_monitor: false,
            include_tags: false,
            locked: false,
            min_failure_duration: 0,
            min_location_failed: 0,
            new_group_delay: 0,
            new_host_delay: 0,
            no_data_timeframe: 0,
            notify_audit: false,
            notify_no_data: false,
            renotify_interval: 0,
            renotify_occurrences: 0,
            renotify_statuses: Seq::empty(),
            require_full_window: false,
            synthetics_check_id: Seq::empty(),
            threshold_windows: ThresholdWindows::default_model(),
            thresholds: Thresholds::default_model(),
            timeout_h: 0,
        }
    }
}

impl Default for MonitorOptions {
    fn default() -> (r: MonitorOptions)
        ensures
            r@ == MonitorOptions::default_model(),
    {
        MonitorOptions {
            aggregation: Aggregation::default(),
            device_ids: empty_list(),
            enable_logs_sample: false,
            escalation_message: String::new(),
            evaluation_delay: 0,
            groupby_simple_monitor: false,
            include_tags: false,
            locked: false,
            min_failure_duration: 0,
            min_location_failed: 0,
            new_group_delay: 0,
            new_host_delay: 0,
            no_data_timeframe: 0,
            notify_audit: false,
            notify_no_data: false,
            renotify_interval: 0,
            renotify_occurrences: 0,
            renotify_statuses: empty_list(),
            require_full_window: false,
            synthetics_check_id: String::new(),
            threshold_windows: ThresholdWindows::default(),
            thresholds: Thresholds::default(),
            timeout_h: 0,
        }
    }
}

/// How the query of a monitor aggregates.
#[derive(Debug, Clone, PartialEq, Eq)]
pub struct Aggregation {
    /// The group that the monitor is broken down by.
    pub group_by: String,
    /// The name of the metric.
    pub metric: String,
    /// The type of the metric.
    pub _type: String,
}

/// The model of an `Aggregation`.
pub ghost struct AggregationModel {
    pub group_by: Seq<char>,
    pub metric: Seq<char>,
    pub _type: Seq<char>,
}

impl View for Aggregation {
    type V = AggregationModel;

    open spec fn view(&self) -> AggregationModel {
        AggregationModel {
            group_by: self.group_by@,
            metric: self.metric@,
            _type: self._type@,
        }
    }
}

impl DeepView for Aggregation {
    type V = AggregationModel;

    open spec fn deep_view(&self) -> AggregationModel {
        self@
    }
}

impl Aggregation {
    /// The model of the value that `default` gives.
    pub open spec fn default_model() -> AggregationModel {
        AggregationModel {
            group_by: Seq::empty(),
            metric: Seq::empty(),
            _type: Seq::empty(),
        }
    }
}

impl Default for Aggregation {
    fn default() -> (r: Aggregation)
        ensures
            r@ == Aggregation::default_model(),
    {
        Aggregation {
            group_by: String::new(),
            metric: String::new(),
            _type: String::new(),
        }
    }
}

/// The thresholds of a monitor. Each is a number, which need not be whole.
#[derive(Debug, Clone, PartialEq, Eq)]
pub struct Thresholds {
    /// The threshold of the state `CRITICAL`.
    pub critical: JsonNumber,
    /// The threshold at which the state `CRITICAL` ends.
    pub critical_recovery: JsonNumber,
    /// The threshold of the state `OK`.
    pub ok: JsonNumber,
    /// The threshold of the state `UNKNOWN`.
    pub unknown: JsonNumber,
    /// The threshold of the state `WARNING`.
    pub warning: JsonNumber,
    /// The threshold at which the state `WARNING` ends.
    pub warning_recovery: JsonNumber,
}

/// The model of a `Thresholds`.
pub ghost struct ThresholdsModel {
    pub critical: Num,
    pub critical_recovery: Num,
    pub ok: Num,
    pub unknown: Num,
    pub warning: Num,
    pub warning_recovery: Num,
}

impl View for Thresholds {
    type V = ThresholdsModel;

    open spec fn view(&self) -> ThresholdsModel {
        ThresholdsModel {
            critical: self.critical.deep_view(),
            critical_recovery: self.critical_recovery.deep_view(),
            ok: self.ok.deep_view(),
            unknown: self.unknown.deep_view(),
            warning: self.warning.deep_view(),
            warning_recovery: self.warning_recovery.deep_view(),
        }
    }
}

impl DeepView for Thresholds {
    type V = ThresholdsModel;

    open spec fn deep_view(&self) -> ThresholdsModel {
        self@
    }
}

impl Thresholds {
    /// The model of the value that `default` gives.
    pub open spec fn default_model() -> ThresholdsModel {
        ThresholdsModel {
            critical: Num::Real("0.0"@),
            critical_recovery: Num::Real("0.0"@),
            ok: Num::Real("0.0"@),
            unknown: Num::Real("0.0"@),
            warning: Num::Real("0.0"@),
            warning_recovery: Num::Real("0.0"@),
        }
    }
}

impl Default for Thresholds {
    fn default() -> (r: Thresholds)
        ensures
            r@ == Thresholds::default_model(),
    {
        Thresholds {
            critical: JsonNumber::Real(String::from_str("0.0")),
            critical_recovery: JsonNumber::Real(String::from_str("0.0")),
            ok: JsonNumber::Real(String::from_str("0.0")),
            unknown: JsonNumber::Real(String::from_str("0.0")),
            warning: JsonNumber::Real(String::from_str("0.0")),
            warning_recovery: JsonNumber::Real(String::from_str("0.0")),
        }
    }
}

/// The time windows of an anomaly monitor.
#[derive(Debug, Clone, PartialEq, Eq)]
pub struct ThresholdWindows {
    /// How long a metric has to be normal before the alert ends.
    pub recovery_window: String,
    /// How long a metric has to be out of the normal before an alert.
    pub trigger_window: String,
}

/// The model of a `ThresholdWindows`.
pub ghost struct ThresholdWindowsModel {
    pub recovery_window: Seq<char>,
    pub trigger_window: Seq<char>,
}

impl View for ThresholdWindows {
    type V = ThresholdWindowsModel;

    open spec fn view(&self) -> ThresholdWindowsModel {
        ThresholdWindowsModel {
            recovery_window: self.recovery_window@,
            trigger_window: self.trigger_window@,
        }
    }
}

impl DeepView for ThresholdWindows {
    type V = ThresholdWindowsModel;

    open spec fn deep_view(&self) -> ThresholdWindowsModel {
        self@
    }
}

impl ThresholdWindows {
    /// The model of the value that `default` gives.
    pub open spec fn default_model() -> ThresholdWindowsModel {
        ThresholdWindowsModel {
            recovery_window: Seq::empty(),
            trigger_window: Seq::empty(),
        }
    }
}

impl Default for ThresholdWindows {
    fn default() -> (r: ThresholdWindows)
        ensures
            r@ == ThresholdWindows::default_model(),
    {
        ThresholdWindows {
            recovery_window: String::new(),
            trigger_window: String::new(),
        }
    }
}

/// Creates a monitor.
#[derive(Debug, Clone, PartialEq, Eq)]
pub struct CreateMonitorRequest {
    /// A message to send with the notifications of the monitor.
    pub message: Option<String>,
    /// Name of the monitor.
    pub name: Option<String>,
    /// Options of the monitor.
    pub options: Option<MonitorOptions>,
    /// How severe an alert of the monitor is, from 1 (high) to 5 (low).
    pub priority: Option<u8>,
    /// The query of the monitor.
    pub query: String,
    /// IDs of the roles whose members may edit the monitor. Not to be used together with the option
    /// `locked`.
    pub restricted_roles: Option<Vec<String>>,
    /// Tags of the monitor.
    pub tags: Option<Vec<String>>,
    /// The type of the monitor.
    pub _type: MonitorType,
}

/// The model of a `CreateMonitorRequest`.
pub ghost struct CreateMonitorRequestModel {
    pub message: Option<Seq<char>>,
    pub name: Option<Seq<char>>,
    pub options: Option<MonitorOptionsModel>,
    pub priority: Option<u8>,
    pub query: Seq<char>,
    pub restricted_roles: Option<Seq<Seq<char>>>,
    pub tags: Option<Seq<Seq<char>>>,
    pub _type: MonitorType,
}

impl View for CreateMonitorRequest {
    type V = CreateMonitorRequestModel;

    open spec fn view(&self) -> CreateMonitorRequestModel {
        CreateMonitorRequestModel {
            message: self.message.deep_view(),
            name: self.name.deep_view(),
            options: self.options.deep_view(),
            priority: self.priority,
            query: self.query@,
            restricted_roles: self.restricted_roles.deep_view(),
            tags: self.tags.deep_view(),
            _type: self._type,
        }
    }
}

impl DeepView for CreateMonitorRequest {
    type V = CreateMonitorRequestModel;

    open spec fn deep_view(&self) -> CreateMonitorRequestModel {
        self@
    }
}

impl CreateMonitorRequest {
    /// The model of the value that `default` gives.
    pub open spec fn default_model() -> CreateMonitorRequestModel {
        CreateMonitorRequestModel {
            message: None,
            name: None,
            options: None,
            priority: None,
            query: Seq::empty(),
            restricted_roles: None,
            tags: None,
            _type: MonitorType::default_model(),
        }
    }
}

impl Default for CreateMonitorRequest {
    fn default() -> (r: CreateMonitorRequest)
        ensures
            r@ == CreateMonitorRequest::default_model(),
    {
        CreateMonitorRequest {
            message: None,
            name: None,
            options: None,
            priority: None,
            query: String::new(),
            restricted_roles: None,
            tags: None,
            _type: MonitorType::default(),
        }
    }
}

impl CreateMonitorRequest {
    /// Sets `message`.
    pub fn message(self, message: &str) -> (r: CreateMonitorRequest)
        ensures
            r@ == (CreateMonitorRequestModel { message: Some(message@), ..self@ }),
    {
        CreateMonitorRequest { message: Some(String::from_str(message)), ..self }
    }

    /// Sets `name`.
    pub fn name(self, name: &str) -> (r: CreateMonitorRequest)
        ensures
            r@ == (CreateMonitorRequestModel { name: Some(name@), ..self@ }),
    {
        CreateMonitorRequest { name: Some(String::from_str(name)), ..self }
    }

    /// Sets `options`.
    pub fn options(self, options: MonitorOptions) -> (r: CreateMonitorRequest)
        ensures
            r@ == (CreateMonitorRequestModel { options: Some(options.deep_view()), ..self@ }),
    {
        CreateMonitorRequest { options: Some(options), ..self }
    }

    /// Sets `priority`.
    pub fn priority(self, priority: u8) -> (r: CreateMonitorRequest)
        ensures
            r@ == (CreateMonitorRequestModel { priority: Some(priority), ..self@ }),
    {
        CreateMonitorRequest { priority: Some(priority), ..self }
    }

    /// Sets `query`.
    pub fn query(self, query: &str) -> (r: CreateMonitorRequest)
        ensures
            r@ == (CreateMonitorRequestModel { query: query@, ..self@ }),
    {
        CreateMonitorRequest { query: String::from_str(query), ..self }
    }

    /// Sets `restricted_roles`.
    pub fn restricted_roles(self, restricted_roles: Vec<String>) -> (r: CreateMonitorRequest)
        ensures
            r@ == (CreateMonitorRequestModel {
                restricted_roles: Some(restricted_roles.deep_view()),
                ..self@
            }),
    {
        CreateMonitorRequest { restricted_roles: Some(restricted_roles), ..self }
    }

    /// Sets `tags`.
    pub fn tags(self, tags: Vec<String>) -> (r: CreateMonitorRequest)
        ensures
            r@ == (CreateMonitorRequestModel { tags: Some(tags.deep_view()), ..self@ }),
    {
        CreateMonitorRequest { tags: Some(tags), ..self }
    }

    /// Sets `_type`.
    pub fn _type(self, _type: MonitorType) -> (r: CreateMonitorRequest)
        ensures
            r@ == (CreateMonitorRequestModel { _type, ..self@ }),
    {
        CreateMonitorRequest { _type: _type, ..self }
    }

    /// The path that this request is sent to.
    pub fn path_and_query(&self) -> (path: String)
        ensures
            path@ == "/api/v1/monitor"@,
    {
        String::from_str("/api/v1/monitor")
    }

    /// The request to send: the new monitor is its body.
    pub fn send(&self, client: &Client) -> (request: HttpRequest)
        ensures
            request@ == json_request(
                client@,
                Method::Post,
                "/api/v1/monitor"@,
                json_render(Self::encoded(self@)),
            ),
    {
        client.post_json(self.path_and_query().as_str(), self)
    }
}

impl Call for CreateMonitorRequest {
    type Response = CreateMonitorResponse;

    open spec fn request_model(&self, client: ClientModel) -> Result<
        HttpRequestModel,
        DatadogErrorModel,
    > {
        Ok(
            json_request(
                client,
                Method::Post,
                "/api/v1/monitor"@,
                json_render(Self::encoded(self@)),
            ),
        )
    }

    fn request(&self, client: &Client) -> (r: DatadogResult<HttpRequest>) {
        Ok(self.send(client))
    }

    fn receive(&self, response: &HttpResponse) -> (r: DatadogResult<CreateMonitorResponse>) {
        resolve(response)
    }
}

/// A monitor as the API holds it.
#[derive(Debug, Clone, PartialEq, Eq)]
pub struct CreateMonitorResponse {
    /// When the monitor was created.
    pub created: String,
    /// The creator of the monitor.
    pub creator: User,
    /// Classification of the monitor.
    pub classification: String,
    /// When the monitor was deleted. The API leaves it empty.
    pub deleted: Option<String>,
    /// ID of the monitor.
    pub id: u64,
    /// The message that is sent with the notifications.
    pub message: String,
    /// When the monitor was changed last.
    pub modified: String,
    /// Whether the monitor is broken down by groups.
    pub multi: bool,
    /// Name of the monitor.
    pub name: String,
    /// Options of the monitor.
    pub options: Option<MonitorOptions>,
    /// The state of the monitor.
    pub overall_state: Status,
    /// How severe an alert of the monitor is, from 1 (high) to 5 (low).
    pub priority: Option<u8>,
    /// The query of the monitor.
    pub query: String,
    /// IDs of the roles whose members may edit the monitor.
    pub restricted_roles: Option<Vec<String>>,
    /// The states of the groups of the monitor.
    pub state: State,
    /// Tags of the monitor.
    pub tags: Vec<String>,
    /// The type of the monitor.
    pub _type: MonitorType,
}

/// The model of a `CreateMonitorResponse`.
pub ghost struct CreateMonitorResponseModel {
    pub created: Seq<char>,
    pub creator: UserModel,
    pub classification: Seq<char>,
    pub deleted: Option<Seq<char>>,
    pub id: u64,
    pub message: Seq<char>,
    pub modified: Seq<char>,
    pub multi: bool,
    pub name: Seq<char>,
    pub options: Option<MonitorOptionsModel>,
    pub overall_state: Status,
    pub priority: Option<u8>,
    pub query: Seq<char>,
    pub restricted_roles: Option<Seq<Seq<char>>>,
    pub state: StateModel,
    pub tags: Seq<Seq<char>>,
    pub _type: MonitorType,
}

impl View for CreateMonitorResponse {
    type V = CreateMonitorResponseModel;

    open spec fn view(&self) -> CreateMonitorResponseModel {
        CreateMonitorResponseModel {
            created: self.created@,
            creator: self.creator.deep_view(),
            classification: self.classification@,
            deleted: self.deleted.deep_view(),
            id: self.id,
            message: self.message@,
            modified: self.modified@,
            multi: self.multi,
            name: self.name@,
            options: self.options.deep_view(),
            overall_state: self.overall_state,
            priority: self.priority,
            query: self.query@,
            restricted_roles: self.restricted_roles.deep_view(),
            state: self.state.deep_view(),
            tags: self.tags.deep_view(),
            _type: self._type,
        }
    }
}

impl DeepView for CreateMonitorResponse {
    type V = CreateMonitorResponseModel;

    open spec fn deep_view(&self) -> CreateMonitorResponseModel {
        self@
    }
}

impl CreateMonitorResponse {
    /// The model of the value that `default` gives.
    pub open spec fn default_model() -> CreateMonitorResponseModel {
        CreateMonitorResponseModel {
            created: Seq::empty(),
            creator: User::default_model(),
            classification: Seq::empty(),
            deleted: None,
            id: 0,
            message: Seq::empty(),
            modified: Seq::empty(),
            multi: false,
            name: Seq::empty(),
            options: None,
            overall_state: Status::default_model(),
            priority: None,
            query: Seq::empty(),
            restricted_roles: None,
            state: State::default_model(),
            tags: Seq::empty(),
            _type: MonitorType::default_model(),
        }
    }
}

impl Default for CreateMonitorResponse {
    fn default() -> (r: CreateMonitorResponse)
        ensures
            r@ == CreateMonitorResponse::default_model(),
    {
        CreateMonitorResponse {
            created: String::new(),
            creator: User::default(),
            classification: String::new(),
            deleted: None,
            id: 0,
            message: String::new(),
            modified: String::new(),
            multi: false,
            name: String::new(),
            options: None,
            overall_state: Status::default(),
            priority: None,
            query: String::new(),
            restricted_roles: None,
            state: State::default(),
            tags: empty_list(),
            _type: MonitorType::default(),
        }
    }
}

/// The states of the groups of a monitor.
#[derive(Debug, Clone, PartialEq, Eq)]
pub struct State {
    /// The state of each group, under the name of the group: its tags, separated by commas.
    pub groups: Dictionary<GroupState>,
}

/// The model of a `State`.
pub ghost struct StateModel {
    pub groups: Seq<(Seq<char>, GroupStateModel)>,
}

impl View for State {
    type V = StateModel;

    open spec fn view(&self) -> StateModel {
        StateModel {
            groups: self.groups.deep_view(),
        }
    }
}

impl DeepView for State {
    type V = StateModel;

    open spec fn deep_view(&self) -> StateModel {
        self@
    }
}

impl State {
    /// The model of the value that `default` gives.
    pub open spec fn default_model() -> StateModel {
        StateModel {
            groups: Seq::empty(),
        }
    }
}

impl Default for State {
    fn default() -> (r: State)
        ensures
            r@ == State::default_model(),
    {
        State {
            groups: Dictionary::new(),
        }
    }
}

/// The state of one group of a monitor.
#[derive(Debug, Clone, PartialEq, Eq)]
pub struct GroupState {
    /// When the group was without data last.
    pub last_nodata_ts: u64,
    /// When a notification was sent for the group last.
    pub last_notified_ts: u64,
    /// When the group was resolved last.
    pub last_resolved_ts: u64,
    /// When the group triggered last.
    pub last_triggered_ts: u64,
    /// Name of the monitor.
    pub name: String,
    /// The state of the group.
    pub status: Status,
}

/// The model of a `GroupState`.
pub ghost struct GroupStateModel {
    pub last_nodata_ts: u64,
    pub last_notified_ts: u64,
    pub last_resolved_ts: u64,
    pub last_triggered_ts: u64,
    pub name: Seq<char>,
    pub status: Status,
}

impl View for GroupState {
    type V = GroupStateModel;

    open spec fn view(&self) -> GroupStateModel {
        GroupStateModel {
            last_nodata_ts: self.last_nodata_ts,
            last_notified_ts: self.last_notified_ts,
            last_resolved_ts: self.last_resolved_ts,
            last_triggered_ts: self.last_triggered_ts,
            name: self.name@,
            status: self.status,
        }
    }
}

impl DeepView for GroupState {
    type V = GroupStateModel;

    open spec fn deep_view(&self) -> GroupStateModel {
        self@
    }
}

impl GroupState {
    /// The model of the value that `default` gives.
    pub open spec fn default_model() -> GroupStateModel {
        GroupStateModel {
            last_nodata_ts: 0,
            last_notified_ts: 0,
            last_resolved_ts: 0,
            last_triggered_ts: 0,
            name: Seq::empty(),
            status: Status::default_model(),
        }
    }
}

impl Default for GroupState {
    fn default() -> (r: GroupState)
        ensures
            r@ == GroupState::default_model(),
    {
        GroupState {
            last_nodata_ts: 0,
            last_notified_ts: 0,
            last_resolved_ts: 0,
            last_triggered_ts: 0,
            name: String::new(),
            status: Status::default(),
        }
    }
}

/// Changes a monitor.
#[derive(Debug, Clone, PartialEq, Eq)]
pub struct EditMonitorRequest {
    /// ID of the monitor. It goes into the path, not into the body.
    pub monitor_id: u64,
    /// A message to send with the notifications of the monitor.
    pub message: Option<String>,
    /// Name of the monitor.
    pub name: Option<String>,
    /// Options of the monitor.
    pub options: Option<MonitorOptions>,
    /// How severe an alert of the monitor is, from 1 (high) to 5 (low).
    pub priority: Option<u8>,
    /// The query of the monitor.
    pub query: String,
    /// IDs of the roles whose members may edit the monitor. Not to be used together with the option
    /// `locked`.
    pub restricted_roles: Option<Vec<String>>,
    /// Tags of the monitor.
    pub tags: Option<Vec<String>>,
    /// The type of the monitor.
    pub _type: MonitorType,
}

/// The model of an `EditMonitorRequest`.
pub ghost struct EditMonitorRequestModel {
    pub monitor_id: u64,
    pub message: Option<Seq<char>>,
    pub name: Option<Seq<char>>,
    pub options: Option<MonitorOptionsModel>,
    pub priority: Option<u8>,
    pub query: Seq<char>,
    pub restricted_roles: Option<Seq<Seq<char>>>,
    pub tags: Option<Seq<Seq<char>>>,
    pub _type: MonitorType,
}

impl View for EditMonitorRequest {
    type V = EditMonitorRequestModel;

    open spec fn view(&self) -> EditMonitorRequestModel {
        EditMonitorRequestModel {
            monitor_id: self.monitor_id,
            message: self.message.deep_view(),
            name: self.name.deep_view(),
            options: self.options.deep_view(),
            priority: self.priority,
            query: self.query@,
            restricted_roles: self.restricted_roles.deep_view(),
            tags: self.tags.deep_view(),
            _type: self._type,
        }
    }
}

impl DeepView for EditMonitorRequest {
    type V = EditMonitorRequestModel;

    open spec fn deep_view(&self) -> EditMonitorRequestModel {
        self@
    }
}

impl EditMonitorRequest {
    /// The model of the value that `default` gives.
    pub open spec fn default_model() -> EditMonitorRequestModel {
        EditMonitorRequestModel {
            monitor_id: 0,
            message: None,
            name: None,
            options: None,
            priority: None,
            query: Seq::empty(),
            restricted_roles: None,
            tags: None,
            _type: MonitorType::default_model(),
        }
    }
}

impl Default for EditMonitorRequest {
    fn default() -> (r: EditMonitorRequest)
        ensures
            r@ == EditMonitorRequest::default_model(),
    {
        EditMonitorRequest {
            monitor_id: 0,
            message: None,
            name: None,
            options: None,
            priority: None,
            query: String::new(),
            restricted_roles: None,
            tags: None,
            _type: MonitorType::default(),
        }
    }
}

impl EditMonitorRequest {
    /// Sets `monitor_id`.
    pub fn monitor_id(self, monitor_id: u64) -> (r: EditMonitorRequest)
        ensures
            r@ == (EditMonitorRequestModel { monitor_id, ..self@ }),
    {
        EditMonitorRequest { monitor_id: monitor_id, ..self }
    }

    /// Sets `message`.
    pub fn message(self, message: &str) -> (r: EditMonitorRequest)
        ensures
            r@ == (EditMonitorRequestModel { message: Some(message@), ..self@ }),
    {
        EditMonitorRequest { message: Some(String::from_str(message)), ..self }
    }

    /// Sets `name`.
    pub fn name(self, name: &str) -> (r: EditMonitorRequest)
        ensures
            r@ == (EditMonitorRequestModel { name: Some(name@), ..self@ }),
    {
        EditMonitorRequest { name: Some(String::from_str(name)), ..self }
    }

    /// Sets `options`.
    pub fn options(self, options: MonitorOptions) -> (r: EditMonitorRequest)
        ensures
            r@ == (EditMonitorRequestModel { options: Some(options.deep_view()), ..self@ }),
    {
        EditMonitorRequest { options: Some(options), ..self }
    }

    /// Sets `priority`.
    pub fn priority(self, priority: u8) -> (r: EditMonitorRequest)
        ensures
            r@ == (EditMonitorRequestModel { priority: Some(priority), ..self@ }),
    {
        EditMonitorRequest { priority: Some(priority), ..self }
    }

    /// Sets `query`.
    pub fn query(self, query: &str) -> (r: EditMonitorRequest)
        ensures
            r@ == (EditMonitorRequestModel { query: query@, ..self@ }),
    {
        EditMonitorRequest { query: String::from_str(query), ..self }
    }

    /// Sets `restricted_roles`.
    pub fn restricted_roles(self, restricted_roles: Vec<String>) -> (r: EditMonitorRequest)
        ensures
            r@ == (EditMonitorRequestModel {
                restricted_roles: Some(restricted_roles.deep_view()),
                ..self@
            }),
    {
        EditMonitorRequest { restricted_roles: Some(restricted_roles), ..self }
    }

    /// Sets `tags`.
    pub fn tags(self, tags: Vec<String>) -> (r: EditMonitorRequest)
        ensures
            r@ == (EditMonitorRequestModel { tags: Some(tags.deep_view()), ..self@ }),
    {
        EditMonitorRequest { tags: Some(tags), ..self }
    }

    /// Sets `_type`.
    pub fn _type(self, _type: MonitorType) -> (r: EditMonitorRequest)
        ensures
            r@ == (EditMonitorRequestModel { _type, ..self@ }),
    {
        EditMonitorRequest { _type: _type, ..self }
    }

    /// The path that this request is sent to.
    pub fn path_and_query(&self) -> (path: String)
        ensures
            path@ == monitor_path(self.monitor_id),
    {
        monitor_path_of(self.monitor_id)
    }

    /// The request to send: the monitor as it shall be is its body.
    pub fn send(&self, client: &Client) -> (request: HttpRequest)
        ensures
            request@ == json_request(
                client@,
                Method::Put,
                monitor_path(self.monitor_id),
                json_render(Self::encoded(self@)),
            ),
    {
        client.put_json(self.path_and_query().as_str(), self)
    }
}

impl Call for EditMonitorRequest {
    type Response = EditMonitorResponse;

    open spec fn request_model(&self, client: ClientModel) -> Result<
        HttpRequestModel,
        DatadogErrorModel,
    > {
        Ok(
            json_request(
                client,
                Method::Put,
                monitor_path(self.monitor_id),
                json_render(Self::encoded(self@)),
            ),
        )
    }

    fn request(&self, client: &Client) -> (r: DatadogResult<HttpRequest>) {
        Ok(self.send(client))
    }

    fn receive(&self, response: &HttpResponse) -> (r: DatadogResult<EditMonitorResponse>) {
        resolve(response)
    }
}

/// The monitor as it is after a change.
pub type EditMonitorResponse = CreateMonitorResponse;

/// Deletes a monitor.
#[derive(Debug, Clone, Copy, PartialEq, Eq)]
pub struct DeleteMonitorRequest {
    /// ID of the monitor. It goes into the path.
    pub monitor_id: u64,
    /// Whether the monitor is deleted even where something else refers to it, such as an SLO or a
    /// composite monitor. It goes into the query.
    pub force: Option<bool>,
}

impl View for DeleteMonitorRequest {
    type V = DeleteMonitorRequest;

    open spec fn view(&self) -> DeleteMonitorRequest {
        *self
    }
}

impl DeepView for DeleteMonitorRequest {
    type V = DeleteMonitorRequest;

    open spec fn deep_view(&self) -> DeleteMonitorRequest {
        self@
    }
}

impl DeleteMonitorRequest {
    /// The model of the value that `default` gives.
    pub open spec fn default_model() -> DeleteMonitorRequest {
        DeleteMonitorRequest {
            monitor_id: 0,
            force: None,
        }
    }
}

impl Default for DeleteMonitorRequest {
    fn default() -> (r: DeleteMonitorRequest)
        ensures
            r@ == DeleteMonitorRequest::default_model(),
    {
        DeleteMonitorRequest {
            monitor_id: 0,
            force: None,
        }
    }
}

impl DeleteMonitorRequest {
    /// Sets `monitor_id`.
    pub fn monitor_id(self, monitor_id: u64) -> (r: DeleteMonitorRequest)
        ensures
            r == (DeleteMonitorRequest { monitor_id, ..self }),
    {
        DeleteMonitorRequest { monitor_id: monitor_id, ..self }
    }

    /// Sets `force`.
    pub fn force(self, force: bool) -> (r: DeleteMonitorRequest)
        ensures
            r == (DeleteMonitorRequest { force: Some(force), ..self }),
    {
        DeleteMonitorRequest { force: Some(force), ..self }
    }

    /// The path and query that this request is sent to.
    pub fn path_and_query(&self) -> (path: String)
        ensures
            path@ == delete_path(*self),
    {
        let mut queries: Vec<String> = Vec::new();
        if let Some(force) = self.force {
            let flag = bool_to_string(force);
            queries.push(write_pair("force", flag.as_str()));
        }
        let path = monitor_path_of(self.monitor_id);
        assert(views(queries@) =~= match self.force {
            Some(b) => seq![pair("force"@, bool_text(b))],
            None => Seq::empty(),
        });
        path_with_query(path.as_str(), &queries)
    }

    /// The request to send. Its body is an empty object.
    pub fn send(&self, client: &Client) -> (request: HttpRequest)
        ensures
            request@ == json_request(
                client@,
                Method::Delete,
                delete_path(*self),
                json_render(Self::encoded(*self)),
            ),
    {
        client.delete_json(self.path_and_query().as_str(), self)
    }
}

impl Call for DeleteMonitorRequest {
    type Response = DeleteMonitorResponse;

    open spec fn request_model(&self, client: ClientModel) -> Result<
        HttpRequestModel,
        DatadogErrorModel,
    > {
        Ok(
            json_request(
                client,
                Method::Delete,
                delete_path(*self),
                json_render(Self::encoded(*self)),
            ),
        )
    }

    fn request(&self, client: &Client) -> (r: DatadogResult<HttpRequest>) {
        Ok(self.send(client))
    }

    fn receive(&self, response: &HttpResponse) -> (r: DatadogResult<DeleteMonitorResponse>) {
        resolve(response)
    }
}

/// The answer to a request that deletes a monitor.
#[derive(Debug, Clone, Copy, PartialEq, Eq)]
pub struct DeleteMonitorResponse {
    /// ID of the monitor that was deleted.
    pub deleted_monitor_id: u64,
}

impl View for DeleteMonitorResponse {
    type V = DeleteMonitorResponse;

    open spec fn view(&self) -> DeleteMonitorResponse {
        *self
    }
}

impl DeepView for DeleteMonitorResponse {
    type V = DeleteMonitorResponse;

    open spec fn deep_view(&self) -> DeleteMonitorResponse {
        self@
    }
}

impl DeleteMonitorResponse {
    /// The model of the value that `default` gives.
    pub open spec fn default_model() -> DeleteMonitorResponse {
        DeleteMonitorResponse {
            deleted_monitor_id: 0,
        }
    }
}

impl Default for DeleteMonitorResponse {
    fn default() -> (r: DeleteMonitorResponse)
        ensures
            r@ == DeleteMonitorResponse::default_model(),
    {
        DeleteMonitorResponse {
            deleted_monitor_id: 0,
        }
    }
}

} // verus!
