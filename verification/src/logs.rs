//! Log search.
pub mod wire;

use crate::client::{
    json_request, resolve, Call, Client, ClientModel, DatadogErrorModel, DatadogResult, HttpRequest,
    HttpRequestModel, HttpResponse, Method,
};
use crate::json::{empty_list, json_render, Dictionary, Json, JsonValue, ToJson};
use crate::text::same_text;
use vstd::prelude::*;

verus! {

/// The earliest or the latest time of the logs that are asked for: a timestamp, or date math
/// such as `now-15m`.
pub type Time = String;

/// The attributes of a log, each under its name. Which attributes there are is up to the log.
pub type Attributes = Dictionary<JsonValue>;

/// The path of the log search.
pub open spec fn search_path() -> Seq<char> {
    "/api/v2/logs/events/search"@
}

/// Options for the whole query. Give the time offset or the time zone, not both: the API rejects a
/// query with both.
#[derive(Debug, Clone, PartialEq, Eq)]
pub struct Options {
    /// The time offset to apply to the query, in seconds.
    pub time_offset: Option<u64>,
    /// The time zone, as a name or as an offset such as `UTC+03:00`.
    pub timezone: Option<String>,
}

/// The model of an `Options`.
pub ghost struct OptionsModel {
    pub time_offset: Option<u64>,
    pub timezone: Option<Seq<char>>,
}

impl View for Options {
    type V = OptionsModel;

    open spec fn view(&self) -> OptionsModel {
        OptionsModel {
            time_offset: self.time_offset,
            timezone: self.timezone.deep_view(),
        }
    }
}

impl DeepView for Options {
    type V = OptionsModel;

    open spec fn deep_view(&self) -> OptionsModel {
        self@
    }
}

impl Options {
    /// The model of the value that `default` gives.
    pub open spec fn default_model() -> OptionsModel {
        OptionsModel {
            time_offset: None,
            timezone: None,
        }
    }
}

impl Default for Options {
    fn default() -> (r: Options)
        ensures
            r@ == Options::default_model(),
    {
        Options {
            time_offset: None,
            timezone: None,
        }
    }
}

impl Options {
    /// Sets `time_offset`.
    pub fn time_offset(self, time_offset: u64) -> (r: Options)
        ensures
            r@ == (OptionsModel { time_offset: Some(time_offset), ..self@ }),
    {
        Options { time_offset: Some(time_offset), ..self }
    }

    /// Sets `timezone`.
    pub fn timezone(self, timezone: &str) -> (r: Options)
        ensures
            r@ == (OptionsModel { timezone: Some(timezone@), ..self@ }),
    {
        Options { timezone: Some(String::from_str(timezone)), ..self }
    }
}

/// Which part of the matching logs is asked for.
#[derive(Debug, Clone, PartialEq, Eq)]
pub struct Page {
    /// The cursor that the response before this one gave, to go on after it.
    pub cursor: Option<String>,
    /// How many logs the response holds at most.
    pub limit: Option<u32>,
}

/// The model of a `Page`.
pub ghost struct PageModel {
    pub cursor: Option<Seq<char>>,
    pub limit: Option<u32>,
}

impl View for Page {
    type V = PageModel;

    open spec fn view(&self) -> PageModel {
        PageModel {
            cursor: self.cursor.deep_view(),
            limit: self.limit,
        }
    }
}

impl DeepView for Page {
    type V = PageModel;

    open spec fn deep_view(&self) -> PageModel {
        self@
    }
}

impl Page {
    /// The model of the value that `default` gives.
    pub open spec fn default_model() -> PageModel {
        PageModel {
            cursor: None,
            limit: None,
        }
    }
}

impl Default for Page {
    fn default() -> (r: Page)
        ensures
            r@ == Page::default_model(),
    {
        Page {
            cursor: None,
            limit: None,
        }
    }
}

impl Page {
    /// Sets `cursor`.
    pub fn cursor(self, cursor: &str) -> (r: Page)
        ensures
            r@ == (PageModel { cursor: Some(cursor@), ..self@ }),
    {
        Page { cursor: Some(String::from_str(cursor)), ..self }
    }

    /// Sets `limit`.
    pub fn limit(self, limit: u32) -> (r: Page)
        ensures
            r@ == (PageModel { limit: Some(limit), ..self@ }),
    {
        Page { limit: Some(limit), ..self }
    }
}

/// The order of the logs in a response.
#[derive(Debug, Clone, Copy, PartialEq, Eq)]
pub enum Sort {
    /// Oldest first.
    TimestampAsc,
    /// Newest first.
    TimestampDesc,
}

impl View for Sort {
    type V = Sort;

    open spec fn view(&self) -> Sort {
        *self
    }
}

impl DeepView for Sort {
    type V = Sort;

    open spec fn deep_view(&self) -> Sort {
        *self
    }
}

impl Sort {
    /// The name that each variant has on the wire.
    pub open spec fn wire_name(self) -> Seq<char> {
        match self {
            Sort::TimestampAsc => "timestamp"@,
            Sort::TimestampDesc => "-timestamp"@,
        }
    }

    /// The variant that a name on the wire stands for, if it is one of them.
    pub open spec fn from_wire_name(name: Seq<char>) -> Option<Sort> {
        if name == "timestamp"@ {
            Some(Sort::TimestampAsc)
        } else if name == "-timestamp"@ {
            Some(Sort::TimestampDesc)
        } else {
            None
        }
    }

    /// Every variant is found again under its own name: no two variants share one.
    pub proof fn lemma_wire_name_round_trip(self)
        ensures
            Self::from_wire_name(self.wire_name()) == Some(self),
    {
        reveal_strlit("timestamp");
        reveal_strlit("-timestamp");
        assert("timestamp"@.len() == 9);
        assert("-timestamp"@.len() == 10);
    }

    /// The name of this variant on the wire.
    pub fn as_str(&self) -> (name: &'static str)
        ensures
            name@ == self.wire_name(),
    {
        match self {
            Sort::TimestampAsc => "timestamp",
            Sort::TimestampDesc => "-timestamp",
        }
    }

    /// Finds the variant that a name on the wire stands for.
    pub fn from_name(name: &str) -> (r: Option<Sort>)
        ensures
            r == Self::from_wire_name(name@),
    {
        if same_text(name, "timestamp") {
            Some(Sort::TimestampAsc)
        } else if same_text(name, "-timestamp") {
            Some(Sort::TimestampDesc)
        } else {
            None
        }
    }
}

/// Which logs are searched for.
#[derive(Debug, Clone, PartialEq, Eq)]
pub struct Filter {
    /// The earliest time of the logs.
    pub from: Option<String>,
    /// The indexes to search. Without it all indexes are searched.
    pub indexes: Option<Vec<String>>,
    /// The search query, in the log search syntax.
    pub query: Option<String>,
    /// The latest time of the logs.
    pub to: Option<String>,
}

/// The model of a `Filter`.
pub ghost struct FilterModel {
    pub from: Option<Seq<char>>,
    pub indexes: Option<Seq<Seq<char>>>,
    pub query: Option<Seq<char>>,
    pub to: Option<Seq<char>>,
}

impl View for Filter {
    type V = FilterModel;

    open spec fn view(&self) -> FilterModel {
        FilterModel {
            from: self.from.deep_view(),
            indexes: self.indexes.deep_view(),
            query: self.query.deep_view(),
            to: self.to.deep_view(),
        }
    }
}

impl DeepView for Filter {
    type V = FilterModel;

    open spec fn deep_view(&self) -> FilterModel {
        self@
    }
}

impl Filter {
    /// The model of the value that `default` gives.
    pub open spec fn default_model() -> FilterModel {
        FilterModel {
            from: None,
            indexes: None,
            query: None,
            to: None,
        }
    }
}

impl Default for Filter {
    fn default() -> (r: Filter)
        ensures
            r@ == Filter::default_model(),
    {
        Filter {
            from: None,
            indexes: None,
            query: None,
            to: None,
        }
    }
}

impl Filter {
    /// Sets `from`.
    pub fn from(self, from: &str) -> (r: Filter)
        ensures
            r@ == (FilterModel { from: Some(from@), ..self@ }),
    {
        Filter { from: Some(String::from_str(from)), ..self }
    }

    /// Sets `indexes`.
    pub fn indexes(self, indexes: Vec<String>) -> (r: Filter)
        ensures
            r@ == (FilterModel { indexes: Some(indexes.deep_view()), ..self@ }),
    {
        Filter { indexes: Some(indexes), ..self }
    }

    /// Sets `query`.
    pub fn query(self, query: &str) -> (r: Filter)
        ensures
            r@ == (FilterModel { query: Some(query@), ..self@ }),
    {
        Filter { query: Some(String::from_str(query)), ..self }
    }

    /// Sets `to`.
    pub fn to(self, to: &str) -> (r: Filter)
        ensures
            r@ == (FilterModel { to: Some(to@), ..self@ }),
    {
        Filter { to: Some(String::from_str(to)), ..self }
    }

    /// The filter as it is: the end of a chain of setters.
    pub fn build(self) -> (r: Filter)
        ensures
            r == self,
    {
        self
    }
}

/// Searches the logs. The response holds one page of the logs that match.
#[derive(Debug, Clone, PartialEq, Eq)]
pub struct SearchRequest {
    /// Which logs are searched for.
    pub filter: Option<Filter>,
    /// Options for the whole query.
    pub options: Option<Options>,
    /// Which part of the matching logs is asked for.
    pub page: Option<Page>,
    /// The order of the logs.
    pub sort: Option<Sort>,
}

/// The model of a `SearchRequest`.
pub ghost struct SearchRequestModel {
    pub filter: Option<FilterModel>,
    pub options: Option<OptionsModel>,
    pub page: Option<PageModel>,
    pub sort: Option<Sort>,
}

impl View for SearchRequest {
    type V = SearchRequestModel;

    open spec fn view(&self) -> SearchRequestModel {
        SearchRequestModel {
            filter: self.filter.deep_view(),
            options: self.options.deep_view(),
            page: self.page.deep_view(),
            sort: self.sort,
        }
    }
}

impl DeepView for SearchRequest {
    type V = SearchRequestModel;

    open spec fn deep_view(&self) -> SearchRequestModel {
        self@
    }
}

impl SearchRequest {
    /// The model of the value that `default` gives.
    pub open spec fn default_model() -> SearchRequestModel {
        SearchRequestModel {
            filter: None,
            options: None,
            page: None,
            sort: None,
        }
    }
}

impl Default for SearchRequest {
    fn default() -> (r: SearchRequest)
        ensures
            r@ == SearchRequest::default_model(),
    {
        SearchRequest {
            filter: None,
            options: None,
            page: None,
            sort: None,
        }
    }
}

impl SearchRequest {
    /// Sets `filter`.
    pub fn filter(self, filter: Filter) -> (r: SearchRequest)
        ensures
            r@ == (SearchRequestModel { filter: Some(filter.deep_view()), ..self@ }),
    {
        SearchRequest { filter: Some(filter), ..self }
    }

    /// Sets `options`.
    pub fn options(self, options: Options) -> (r: SearchRequest)
        ensures
            r@ == (SearchRequestModel { options: Some(options.deep_view()), ..self@ }),
    {
        SearchRequest { options: Some(options), ..self }
    }

    /// Sets `page`.
    pub fn page(self, page: Page) -> (r: SearchRequest)
        ensures
            r@ == (SearchRequestModel { page: Some(page.deep_view()), ..self@ }),
    {
        SearchRequest { page: Some(page), ..self }
    }

    /// Sets `sort`.
    pub fn sort(self, sort: Sort) -> (r: SearchRequest)
        ensures
            r@ == (SearchRequestModel { sort: Some(sort), ..self@ }),
    {
        SearchRequest { sort: Some(sort), ..self }
    }

    /// The path that this request is sent to.
    pub fn path_and_query(&self) -> (path: String)
        ensures
            path@ == search_path(),
    {
        String::from_str("/api/v2/logs/events/search")
    }

    /// The request to send: the search is its body.
    pub fn send(&self, client: &Client) -> (request: HttpRequest)
        ensures
            request@ == json_request(
                client@,
                Method::Post,
                search_path(),
                json_render(Self::encoded(self@)),
            ),
    {
        client.post_json(self.path_and_query().as_str(), self)
    }
}

impl Call for SearchRequest {
    type Response = SearchResponse;

    open spec fn request_model(&self, client: ClientModel) -> Result<
        HttpRequestModel,
        DatadogErrorModel,
    > {
        Ok(
            json_request(client, Method::Post, search_path(), json_render(Self::encoded(self@))),
        )
    }

    fn request(&self, client: &Client) -> (r: DatadogResult<HttpRequest>) {
        Ok(self.send(client))
    }

    fn receive(&self, response: &HttpResponse) -> (r: DatadogResult<SearchResponse>) {
        resolve(response)
    }
}

/// One log.
#[derive(Debug, Clone, PartialEq, Eq)]
pub struct Data {
    /// The attributes of the log.
    pub attributes: Dictionary<JsonValue>,
    /// ID of the log.
    pub id: String,
    /// The type of the event.
    pub data_type: Option<DataType>,
}

/// The model of a `Data`.
pub ghost struct DataModel {
    pub attributes: Seq<(Seq<char>, Json)>,
    pub id: Seq<char>,
    pub data_type: Option<DataType>,
}

impl View for Data {
    type V = DataModel;

    open spec fn view(&self) -> DataModel {
        DataModel {
            attributes: self.attributes.deep_view(),
            id: self.id@,
            data_type: self.data_type,
        }
    }
}

impl DeepView for Data {
    type V = DataModel;

    open spec fn deep_view(&self) -> DataModel {
        self@
    }
}

impl Data {
    /// The model of the value that `default` gives.
    pub open spec fn default_model() -> DataModel {
        DataModel {
            attributes: Seq::empty(),
            id: Seq::empty(),
            data_type: None,
        }
    }
}

impl Default for Data {
    fn default() -> (r: Data)
        ensures
            r@ == Data::default_model(),
    {
        Data {
            attributes: Dictionary::new(),
            id: String::new(),
            data_type: None,
        }
    }
}

/// The type of an event.
#[derive(Debug, Clone, Copy, PartialEq, Eq)]
pub enum DataType {
    Log,
}

impl View for DataType {
    type V = DataType;

    open spec fn view(&self) -> DataType {
        *self
    }
}

impl DeepView for DataType {
    type V = DataType;

    open spec fn deep_view(&self) -> DataType {
        *self
    }
}

impl DataType {
    /// The name that each variant has on the wire.
    pub open spec fn wire_name(self) -> Seq<char> {
        match self {
            DataType::Log => "log"@,
        }
    }

    /// The variant that a name on the wire stands for, if it is one of them.
    pub open spec fn from_wire_name(name: Seq<char>) -> Option<DataType> {
        if name == "log"@ {
            Some(DataType::Log)
        } else {
            None
        }
    }

    /// Every variant is found again under its own name: no two variants share one.
    pub proof fn lemma_wire_name_round_trip(self)
        ensures
            Self::from_wire_name(self.wire_name()) == Some(self),
    {
        reveal_strlit("log");
    }

    /// The name of this variant on the wire.
    pub fn as_str(&self) -> (name: &'static str)
        ensures
            name@ == self.wire_name(),
    {
        match self {
            DataType::Log => "log",
        }
    }

    /// Finds the variant that a name on the wire stands for.
    pub fn from_name(name: &str) -> (r: Option<DataType>)
        ensures
            r == Self::from_wire_name(name@),
    {
        if same_text(name, "log") {
            Some(DataType::Log)
        } else {
            None
        }
    }
}

/// How a search ended.
#[derive(Debug, Clone, Copy, PartialEq, Eq)]
pub enum Status {
    Done,
    Timeout,
}

impl View for Status {
    type V = Status;

    open spec fn view(&self) -> Status {
        *self
    }
}

impl DeepView for Status {
    type V = Status;

    open spec fn deep_view(&self) -> Status {
        *self
    }
}

impl Status {
    /// The name that each variant has on the wire.
    pub open spec fn wire_name(self) -> Seq<char> {
        match self {
            Status::Done => "done"@,
            Status::Timeout => "timeout"@,
        }
    }

    /// The variant that a name on the wire stands for, if it is one of them.
    pub open spec fn from_wire_name(name: Seq<char>) -> Option<Status> {
        if name == "done"@ {
            Some(Status::Done)
        } else if name == "timeout"@ {
            Some(Status::Timeout)
        } else {
            None
        }
    }

    /// Every variant is found again under its own name: no two variants share one.
    pub proof fn lemma_wire_name_round_trip(self)
        ensures
            Self::from_wire_name(self.wire_name()) == Some(self),
    {
        reveal_strlit("done");
        reveal_strlit("timeout");
        assert("done"@.len() == 4);
        assert("timeout"@.len() == 7);
    }

    /// The name of this variant on the wire.
    pub fn as_str(&self) -> (name: &'static str)
        ensures
            name@ == self.wire_name(),
    {
        match self {
            Status::Done => "done",
            Status::Timeout => "timeout",
        }
    }

    /// Finds the variant that a name on the wire stands for.
    pub fn from_name(name: &str) -> (r: Option<Status>)
        ensures
            r == Self::from_wire_name(name@),
    {
        if same_text(name, "done") {
            Some(Status::Done)
        } else if same_text(name, "timeout") {
            Some(Status::Timeout)
        } else {
            None
        }
    }
}

/// Something that went wrong without failing the search. With a warning, the response may hold only
/// a part of the logs.
#[derive(Debug, Clone, PartialEq, Eq)]
pub struct Warning {
    /// A code for the kind of warning.
    pub code: String,
    /// What went wrong, in detail.
    pub default: String,
    /// What went wrong, in short.
    pub title: String,
}

/// The model of a `Warning`.
pub ghost struct WarningModel {
    pub code: Seq<char>,
    pub default: Seq<char>,
    pub title: Seq<char>,
}

impl View for Warning {
    type V = WarningModel;

    open spec fn view(&self) -> WarningModel {
        WarningModel {
            code: self.code@,
            default: self.default@,
            title: self.title@,
        }
    }
}

impl DeepView for Warning {
    type V = WarningModel;

    open spec fn deep_view(&self) -> WarningModel {
        self@
    }
}

impl Warning {
    /// The model of the value that `default` gives.
    pub open spec fn default_model() -> WarningModel {
        WarningModel {
            code: Seq::empty(),
            default: Seq::empty(),
            title: Seq::empty(),
        }
    }
}

impl Default for Warning {
    fn default() -> (r: Warning)
        ensures
            r@ == Warning::default_model(),
    {
        Warning {
            code: String::new(),
            default: String::new(),
            title: String::new(),
        }
    }
}

/// Where the next page starts.
#[derive(Debug, Clone, PartialEq, Eq)]
pub struct MetaPage {
    /// The cursor for the next page: the same request with this cursor gives the logs that follow.
    pub after: String,
}

/// The model of a `MetaPage`.
pub ghost struct MetaPageModel {
    pub after: Seq<char>,
}

impl View for MetaPage {
    type V = MetaPageModel;

    open spec fn view(&self) -> MetaPageModel {
        MetaPageModel {
            after: self.after@,
        }
    }
}

impl DeepView for MetaPage {
    type V = MetaPageModel;

    open spec fn deep_view(&self) -> MetaPageModel {
        self@
    }
}

impl MetaPage {
    /// The model of the value that `default` gives.
    pub open spec fn default_model() -> MetaPageModel {
        MetaPageModel {
            after: Seq::empty(),
        }
    }
}

impl Default for MetaPage {
    fn default() -> (r: MetaPage)
        ensures
            r@ == MetaPage::default_model(),
    {
        MetaPage {
            after: String::new(),
        }
    }
}

/// Links to other pages.
#[derive(Debug, Clone, PartialEq, Eq)]
pub struct Links {
    /// Link to the next page.
    pub next: String,
}

/// The model of a `Links`.
pub ghost struct LinksModel {
    pub next: Seq<char>,
}

impl View for Links {
    type V = LinksModel;

    open spec fn view(&self) -> LinksModel {
        LinksModel {
            next: self.next@,
        }
    }
}

impl DeepView for Links {
    type V = LinksModel;

    open spec fn deep_view(&self) -> LinksModel {
        self@
    }
}

impl Links {
    /// The model of the value that `default` gives.
    pub open spec fn default_model() -> LinksModel {
        LinksModel {
            next: Seq::empty(),
        }
    }
}

impl Default for Links {
    fn default() -> (r: Links)
        ensures
            r@ == Links::default_model(),
    {
        Links {
            next: String::new(),
        }
    }
}

/// What the API says about a search. Each part may be missing.
#[derive(Debug, Clone, PartialEq, Eq)]
pub struct Meta {
    /// The time that the search took, in milliseconds.
    pub elapsed: Option<u64>,
    /// Where the next page starts.
    pub page: Option<MetaPage>,
    /// ID of the request.
    pub request_id: Option<String>,
    /// How the search ended.
    pub status: Option<Status>,
    /// What went wrong without failing the search.
    pub warnings: Option<Vec<Warning>>,
}

/// The model of a `Meta`.
pub ghost struct MetaModel {
    pub elapsed: Option<u64>,
    pub page: Option<MetaPageModel>,
    pub request_id: Option<Seq<char>>,
    pub status: Option<Status>,
    pub warnings: Option<Seq<WarningModel>>,
}

impl View for Meta {
    type V = MetaModel;

    open spec fn view(&self) -> MetaModel {
        MetaModel {
            elapsed: self.elapsed,
            page: self.page.deep_view(),
            request_id: self.request_id.deep_view(),
            status: self.status,
            warnings: self.warnings.deep_view(),
        }
    }
}

impl DeepView for Meta {
    type V = MetaModel;

    open spec fn deep_view(&self) -> MetaModel {
        self@
    }
}

impl Meta {
    /// The model of the value that `default` gives.
    pub open spec fn default_model() -> MetaModel {
        MetaModel {
            elapsed: None,
            page: None,
            request_id: None,
            status: None,
            warnings: None,
        }
    }
}

impl Default for Meta {
    fn default() -> (r: Meta)
        ensures
            r@ == Meta::default_model(),
    {
        Meta {
            elapsed: None,
            page: None,
            request_id: None,
            status: None,
            warnings: None,
        }
    }
}

/// One page of the logs that match a search.
#[derive(Debug, Clone, PartialEq, Eq)]
pub struct SearchResponse {
    /// The logs.
    pub data: Vec<Data>,
    /// Links to other pages.
    pub links: Links,
    /// What the API says about the search.
    pub meta: Meta,
}

/// The model of a `SearchResponse`.
pub ghost struct SearchResponseModel {
    pub data: Seq<DataModel>,
    pub links: LinksModel,
    pub meta: MetaModel,
}

impl View for SearchResponse {
    type V = SearchResponseModel;

    open spec fn view(&self) -> SearchResponseModel {
        SearchResponseModel {
            data: self.data.deep_view(),
            links: self.links.deep_view(),
            meta: self.meta.deep_view(),
        }
    }
}

impl DeepView for SearchResponse {
    type V = SearchResponseModel;

    open spec fn deep_view(&self) -> SearchResponseModel {
        self@
    }
}

impl SearchResponse {
    /// The model of the value that `default` gives.
    pub open spec fn default_model() -> SearchResponseModel {
        SearchResponseModel {
            data: Seq::empty(),
            links: Links::default_model(),
            meta: Meta::default_model(),
        }
    }
}

impl Default for SearchResponse {
    fn default() -> (r: SearchResponse)
        ensures
            r@ == SearchResponse::default_model(),
    {
        SearchResponse {
            data: empty_list(),
            links: Links::default(),
            meta: Meta::default(),
        }
    }
}

} // verus!
