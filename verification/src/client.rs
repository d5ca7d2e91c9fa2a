//! The transport helper: what is sent for a call, and what a response resolves to.
use crate::json::{
    decoded_items, empty_list, field_or, json_parse, json_render, member, parse_text, read_list,
    render_text, DecodeError, DecodeErrorModel, FromJson, Json, JsonValue, RoundTrip, ToJson,
};
use crate::text::{join, join_strings, views, with_query};
use vstd::prelude::*;

verus! {

/// The body that the API sends with an error status: a list of messages.
#[derive(Debug, Clone, PartialEq, Eq)]
pub struct DatadogErrorResponse {
    /// The messages, in the order of the body.
    pub errors: Vec<String>,
}

/// The model of a `DatadogErrorResponse`.
pub ghost struct DatadogErrorResponseModel {
    pub errors: Seq<Seq<char>>,
}

impl View for DatadogErrorResponse {
    type V = DatadogErrorResponseModel;

    open spec fn view(&self) -> DatadogErrorResponseModel {
        DatadogErrorResponseModel { errors: self.errors.deep_view() }
    }
}

impl DeepView for DatadogErrorResponse {
    type V = DatadogErrorResponseModel;

    open spec fn deep_view(&self) -> DatadogErrorResponseModel {
        self@
    }
}

impl Default for DatadogErrorResponse {
    fn default() -> (r: DatadogErrorResponse)
        ensures
            r@ == (DatadogErrorResponseModel { errors: Seq::empty() }),
    {
        DatadogErrorResponse { errors: empty_list() }
    }
}

impl FromJson for DatadogErrorResponse {
    open spec fn decoded(value: Json) -> Option<DatadogErrorResponseModel> {
        match value {
            Json::Object(members) => {
                let errors = field_or::<Vec<String>>(members, "errors"@, Seq::empty());
                if errors is Some {
                    Some(DatadogErrorResponseModel { errors: errors->0 })
                } else {
                    None
                }
            },
            _ => None,
        }
    }

    fn from_json(value: &JsonValue) -> (r: Option<DatadogErrorResponse>) {
        match value {
            JsonValue::Object(members) => {
                let errors = read_list::<String>(members, "errors")?;
                Some(DatadogErrorResponse { errors })
            },
            _ => None,
        }
    }
}

impl DatadogErrorResponse {
    /// The messages, one on each line.
    pub fn to_string(&self) -> (text: String)
        ensures
            text@ == join(self@.errors, "\n"@),
    {
        proof {
            assert(views(self.errors@) =~= self.errors.deep_view());
        }
        join_strings(&self.errors, "\n")
    }
}

/// Why a call did not give its result.
#[derive(Debug, Clone, PartialEq, Eq)]
pub enum DatadogError {
    /// The request did not reach the API, or no response came back.
    Transport(String),
    /// The API answered with an error status and a list of messages.
    Api(DatadogErrorResponse),
    /// The body of the response is not what its status promises.
    Decode(DecodeError),
    /// The request was rejected before anything was sent.
    InvalidInput(String),
}

/// The model of a `DatadogError`.
pub ghost enum DatadogErrorModel {
    Transport(Seq<char>),
    Api(DatadogErrorResponseModel),
    Decode(DecodeErrorModel),
    InvalidInput(Seq<char>),
}

impl View for DatadogError {
    type V = DatadogErrorModel;

    open spec fn view(&self) -> DatadogErrorModel {
        match self {
            DatadogError::Transport(message) => DatadogErrorModel::Transport(message@),
            DatadogError::Api(response) => DatadogErrorModel::Api(response@),
            DatadogError::Decode(error) => DatadogErrorModel::Decode(error@),
            DatadogError::InvalidInput(message) => DatadogErrorModel::InvalidInput(message@),
        }
    }
}

/// What an error says of itself: the message that it carries, or the messages of the API,
/// one on each line.
pub open spec fn error_text(error: DatadogErrorModel) -> Seq<char> {
    match error {
        DatadogErrorModel::Transport(message) => message,
        DatadogErrorModel::Api(response) => join(response.errors, "\n"@),
        DatadogErrorModel::Decode(DecodeErrorModel::Syntax(message)) => message,
        DatadogErrorModel::Decode(DecodeErrorModel::Shape) => {
            "the body has not the expected shape"@
        },
        DatadogErrorModel::InvalidInput(message) => message,
    }
}

impl DatadogError {
    /// What the error says of itself.
    pub fn to_string(&self) -> (text: String)
        ensures
            text@ == error_text(self@),
    {
        match self {
            DatadogError::Transport(message) => message.clone(),
            DatadogError::Api(response) => response.to_string(),
            DatadogError::Decode(DecodeError::Syntax(message)) => message.clone(),
            DatadogError::Decode(DecodeError::Shape) => String::from_str(
                "the body has not the expected shape",
            ),
            DatadogError::InvalidInput(message) => message.clone(),
        }
    }
}

impl DeepView for DatadogError {
    type V = DatadogErrorModel;

    open spec fn deep_view(&self) -> DatadogErrorModel {
        self@
    }
}

/// What a call gives: its result, or the reason why there is none.
pub type DatadogResult<T> = Result<T, DatadogError>;

/// The model of a `DatadogResult`.
pub open spec fn result_view<T: DeepView>(result: DatadogResult<T>) -> Result<
    T::V,
    DatadogErrorModel,
> {
    match result {
        Ok(value) => Ok(value.deep_view()),
        Err(error) => Err(error@),
    }
}

/// The host of the API and the two keys that every call carries.
#[derive(Debug, Clone, PartialEq, Eq)]
pub struct Client {
    /// The host, with its scheme and without a path, such as `https://api.datadoghq.com`.
    pub host: String,
    /// The API key.
    pub api_key: String,
    /// The application key.
    pub application_key: String,
}

/// The model of a `Client`.
pub ghost struct ClientModel {
    pub host: Seq<char>,
    pub api_key: Seq<char>,
    pub application_key: Seq<char>,
}

impl View for Client {
    type V = ClientModel;

    open spec fn view(&self) -> ClientModel {
        ClientModel {
            host: self.host@,
            api_key: self.api_key@,
            application_key: self.application_key@,
        }
    }
}

impl DeepView for Client {
    type V = ClientModel;

    open spec fn deep_view(&self) -> ClientModel {
        self@
    }
}

/// The host of the API that is taken where no other is named: the US site.
pub const DEFAULT_HOST: &'static str = "https://api.datadoghq.com";

/// The host of the API for the EU site.
pub const EU_HOST: &'static str = "https://api.datadoghq.eu";

/// The client that settings describe, each of which may be missing. Without a host the
/// client is for the default host. Without one of the keys there is no client: the API key
/// is looked for first.
pub open spec fn configured(
    host: Option<Seq<char>>,
    api_key: Option<Seq<char>>,
    application_key: Option<Seq<char>>,
) -> Result<ClientModel, DatadogErrorModel> {
    match (api_key, application_key) {
        (Some(api_key), Some(application_key)) => Ok(
            ClientModel {
                host: match host {
                    Some(host) => host,
                    None => DEFAULT_HOST@,
                },
                api_key,
                application_key,
            },
        ),
        (None, _) => Err(DatadogErrorModel::InvalidInput("the API key is missing"@)),
        (Some(_), None) => Err(DatadogErrorModel::InvalidInput("the application key is missing"@)),
    }
}

/// The characters of a text that may be missing.
pub open spec fn text_view(text: Option<&str>) -> Option<Seq<char>> {
    match text {
        Some(text) => Some(text@),
        None => None,
    }
}

/// The verb of a request.
#[derive(Debug, Clone, Copy, PartialEq, Eq)]
pub enum Method {
    Get,
    Post,
    Put,
    Delete,
}

/// One header of a request.
#[derive(Debug, Clone, PartialEq, Eq)]
pub struct Header {
    /// The name of the header.
    pub name: String,
    /// The value of the header.
    pub value: String,
}

/// A request as it is to be sent.
#[derive(Debug, Clone, PartialEq, Eq)]
pub struct HttpRequest {
    /// The verb.
    pub method: Method,
    /// The whole address: host, path and query.
    pub url: String,
    /// The headers, in the order in which they are to be set.
    pub headers: Vec<Header>,
    /// The body, where the request has one.
    pub body: Option<String>,
}

/// The model of an `HttpRequest`.
pub ghost struct HttpRequestModel {
    pub method: Method,
    pub url: Seq<char>,
    pub headers: Seq<(Seq<char>, Seq<char>)>,
    pub body: Option<Seq<char>>,
}

/// The name and the value of each header, in order.
pub open spec fn headers_view(headers: Seq<Header>) -> Seq<(Seq<char>, Seq<char>)> {
    Seq::new(headers.len(), |i: int| (headers[i].name@, headers[i].value@))
}

impl View for HttpRequest {
    type V = HttpRequestModel;

    open spec fn view(&self) -> HttpRequestModel {
        HttpRequestModel {
            method: self.method,
            url: self.url@,
            headers: headers_view(self.headers@),
            body: self.body.deep_view(),
        }
    }
}

impl DeepView for HttpRequest {
    type V = HttpRequestModel;

    open spec fn deep_view(&self) -> HttpRequestModel {
        self@
    }
}

/// A response as it came back: the status code and the whole body.
#[derive(Debug, Clone, PartialEq, Eq)]
pub struct HttpResponse {
    /// The status code.
    pub status: u16,
    /// The whole body, as text.
    pub body: String,
}

/// Whether a status code is in the success class, 200 to 299.
pub open spec fn is_success(status: u16) -> bool {
    200 <= status < 300
}

/// The two headers that authenticate a call.
pub open spec fn auth_headers(client: ClientModel) -> Seq<(Seq<char>, Seq<char>)> {
    seq![("DD-API-KEY"@, client.api_key), ("DD-APPLICATION-KEY"@, client.application_key)]
}

/// The request for a call whose body, if it has one, is sent as it is.
pub open spec fn plain_request(
    client: ClientModel,
    method: Method,
    path_and_query: Seq<char>,
    body: Option<Seq<char>>,
) -> HttpRequestModel {
    HttpRequestModel {
        method,
        url: client.host + path_and_query,
        headers: auth_headers(client),
        body,
    }
}

/// The request for a call whose body is a JSON text: it is marked as such by a third header.
pub open spec fn json_request(
    client: ClientModel,
    method: Method,
    path_and_query: Seq<char>,
    body: Seq<char>,
) -> HttpRequestModel {
    HttpRequestModel {
        method,
        url: client.host + path_and_query,
        headers: auth_headers(client).push(("Content-Type"@, "application/json"@)),
        body: Some(body),
    }
}

/// What a status and a parsed body resolve to.
pub open spec fn resolved_value<R: FromJson>(
    status: u16,
    parsed: Result<Json, Seq<char>>,
) -> Result<R::V, DatadogErrorModel> {
    match parsed {
        Err(message) => Err(DatadogErrorModel::Decode(DecodeErrorModel::Syntax(message))),
        Ok(value) => if is_success(status) {
            match R::decoded(value) {
                Some(result) => Ok(result),
                None => Err(DatadogErrorModel::Decode(DecodeErrorModel::Shape)),
            }
        } else {
            match DatadogErrorResponse::decoded(value) {
                Some(response) => Err(DatadogErrorModel::Api(response)),
                None => Err(DatadogErrorModel::Decode(DecodeErrorModel::Shape)),
            }
        },
    }
}

/// What a status and a body resolve to.
pub open spec fn resolved<R: FromJson>(status: u16, body: Seq<char>) -> Result<
    R::V,
    DatadogErrorModel,
> {
    resolved_value::<R>(status, json_parse(body))
}

/// The model of a parsed body.
pub open spec fn parsed_view(parsed: Result<JsonValue, String>) -> Result<Json, Seq<char>> {
    match parsed {
        Ok(value) => Ok(value@),
        Err(message) => Err(message@),
    }
}

impl Client {
    /// A client for the API at `host`, with the two keys that authenticate its calls.
    pub fn new(host: &str, api_key: &str, application_key: &str) -> (client: Client)
        ensures
            client@ == (ClientModel {
                host: host@,
                api_key: api_key@,
                application_key: application_key@,
            }),
    {
        Client {
            host: String::from_str(host),
            api_key: String::from_str(api_key),
            application_key: String::from_str(application_key),
        }
    }

    /// The client that settings describe, each of which may be missing: see `configured`.
    pub fn from_settings(
        host: Option<&str>,
        api_key: Option<&str>,
        application_key: Option<&str>,
    ) -> (client: DatadogResult<Client>)
        ensures
            result_view(client) == configured(
                text_view(host),
                text_view(api_key),
                text_view(application_key),
            ),
    {
        match (api_key, application_key) {
            (Some(api_key), Some(application_key)) => {
                let host = match host {
                    Some(host) => host,
                    None => DEFAULT_HOST,
                };
                Ok(Client::new(host, api_key, application_key))
            },
            (None, _) => Err(
                DatadogError::InvalidInput(String::from_str("the API key is missing")),
            ),
            (Some(_), None) => Err(
                DatadogError::InvalidInput(String::from_str("the application key is missing")),
            ),
        }
    }

    /// The address of a call: the host, then the path and query as they are given.
    fn url(&self, path_and_query: &str) -> (url: String)
        ensures
            url@ == self@.host + path_and_query@,
    {
        let mut url = self.host.clone();
        url.append(path_and_query);
        url
    }

    /// The two headers that authenticate a call.
    fn headers(&self) -> (headers: Vec<Header>)
        ensures
            headers_view(headers@) == auth_headers(self@),
    {
        let mut headers: Vec<Header> = Vec::new();
        headers.push(
            Header { name: String::from_str("DD-API-KEY"), value: self.api_key.clone() },
        );
        headers.push(
            Header {
                name: String::from_str("DD-APPLICATION-KEY"),
                value: self.application_key.clone(),
            },
        );
        assert(headers_view(headers@) =~= auth_headers(self@));
        headers
    }

    /// The request for a call whose body, if it has one, is sent as it is.
    pub fn request(&self, method: Method, path_and_query: &str, body: Option<String>) -> (request:
        HttpRequest)
        ensures
            request@ == plain_request(self@, method, path_and_query@, body.deep_view()),
    {
        HttpRequest { method, url: self.url(path_and_query), headers: self.headers(), body }
    }

    /// The request for a call whose body is the given JSON text.
    pub fn request_json(&self, method: Method, path_and_query: &str, body: String) -> (request:
        HttpRequest)
        ensures
            request@ == json_request(self@, method, path_and_query@, body@),
    {
        let mut headers = self.headers();
        headers.push(
            Header {
                name: String::from_str("Content-Type"),
                value: String::from_str("application/json"),
            },
        );
        assert(headers_view(headers@) =~= auth_headers(self@).push(
            ("Content-Type"@, "application/json"@),
        ));
        HttpRequest { method, url: self.url(path_and_query), headers, body: Some(body) }
    }

    /// The request of a GET call.
    pub fn get_raw(&self, path_and_query: &str) -> (request: HttpRequest)
        ensures
            request@ == plain_request(self@, Method::Get, path_and_query@, None),
    {
        self.request(Method::Get, path_and_query, None)
    }

    /// The request of a POST call with a body that the caller has written.
    pub fn post_jsonstr(&self, path_and_query: &str, json_str: &str) -> (request: HttpRequest)
        ensures
            request@ == plain_request(self@, Method::Post, path_and_query@, Some(json_str@)),
    {
        self.request(Method::Post, path_and_query, Some(String::from_str(json_str)))
    }

    /// The request of a POST call with a value as its body.
    pub fn post_json<T: ToJson>(&self, path_and_query: &str, json: &T) -> (request: HttpRequest)
        ensures
            request@ == json_request(
                self@,
                Method::Post,
                path_and_query@,
                json_render(T::encoded(json.deep_view())),
            ),
    {
        self.request_json(Method::Post, path_and_query, render_text(&json.to_json()))
    }

    /// The request of a PUT call with a body that the caller has written.
    pub fn put_jsonstr(&self, path_and_query: &str, json_str: &str) -> (request: HttpRequest)
        ensures
            request@ == plain_request(self@, Method::Put, path_and_query@, Some(json_str@)),
    {
        self.request(Method::Put, path_and_query, Some(String::from_str(json_str)))
    }

    /// The request of a PUT call with a value as its body.
    pub fn put_json<T: ToJson>(&self, path_and_query: &str, json: &T) -> (request: HttpRequest)
        ensures
            request@ == json_request(
                self@,
                Method::Put,
                path_and_query@,
                json_render(T::encoded(json.deep_view())),
            ),
    {
        self.request_json(Method::Put, path_and_query, render_text(&json.to_json()))
    }

    /// The request of a DELETE call with a body that the caller has written.
    pub fn delete_jsonstr(&self, path_and_query: &str, json_str: &str) -> (request: HttpRequest)
        ensures
            request@ == plain_request(self@, Method::Delete, path_and_query@, Some(json_str@)),
    {
        self.request(Method::Delete, path_and_query, Some(String::from_str(json_str)))
    }

    /// The request of a DELETE call with a value as its body.
    pub fn delete_json<T: ToJson>(&self, path_and_query: &str, json: &T) -> (request:
        HttpRequest)
        ensures
            request@ == json_request(
                self@,
                Method::Delete,
                path_and_query@,
                json_render(T::encoded(json.deep_view())),
            ),
    {
        self.request_json(Method::Delete, path_and_query, render_text(&json.to_json()))
    }
}

/// Tests the status class of a response.
pub fn status_is_success(status: u16) -> (ok: bool)
    ensures
        ok == is_success(status),
{
    200 <= status && status < 300
}

/// Resolves a status and a parsed body. With a success status the body is read as the
/// result; with any other it is read as the list of messages of an API error. A body that
/// did not parse, or that has not the shape that its status calls for, is a decode error.
pub fn resolve_value<R: FromJson>(status: u16, parsed: &Result<JsonValue, String>) -> (result:
    DatadogResult<R>)
    ensures
        result_view(result) == resolved_value::<R>(status, parsed_view(*parsed)),
{
    match parsed {
        Err(message) => Err(DatadogError::Decode(DecodeError::Syntax(message.clone()))),
        Ok(value) => {
            if status_is_success(status) {
                match R::from_json(value) {
                    Some(result) => Ok(result),
                    None => Err(DatadogError::Decode(DecodeError::Shape)),
                }
            } else {
                match DatadogErrorResponse::from_json(value) {
                    Some(response) => Err(DatadogError::Api(response)),
                    None => Err(DatadogError::Decode(DecodeError::Shape)),
                }
            }
        },
    }
}

/// Resolves a response: parses its body and hands it on with the status.
pub fn resolve<R: FromJson>(response: &HttpResponse) -> (result: DatadogResult<R>)
    ensures
        result_view(result) == resolved::<R>(response.status, response.body@),
{
    let parsed = parse_text(response.body.as_str());
    resolve_value::<R>(response.status, &parsed)
}

/// A call of the API: a request, and the type of what the API answers with.
pub trait Call {
    /// What the API answers with.
    type Response: FromJson;

    /// The request of this call as `client` sends it, or the reason why nothing is sent.
    spec fn request_model(&self, client: ClientModel) -> Result<
        HttpRequestModel,
        DatadogErrorModel,
    >;

    /// Builds the request of this call.
    fn request(&self, client: &Client) -> (r: DatadogResult<HttpRequest>)
        ensures
            result_view(r) == self.request_model(client@),
    ;

    /// Resolves a response to this call.
    fn receive(&self, response: &HttpResponse) -> (r: DatadogResult<Self::Response>)
        ensures
            result_view(r) == resolved::<Self::Response>(response.status, response.body@),
    ;
}

/// The JSON value of an error body: an object whose member `errors` lists the messages.
pub open spec fn error_body(errors: Seq<Seq<char>>) -> Json {
    Json::Object(seq![("errors"@, Json::Array(error_items(errors)))])
}

/// The messages of an error body, each as a JSON string.
pub open spec fn error_items(errors: Seq<Seq<char>>) -> Seq<Json> {
    Seq::new(errors.len(), |i: int| Json::String(errors[i]))
}

/// A list of JSON strings decodes to the texts that the strings hold.
pub proof fn lemma_strings_decode(errors: Seq<Seq<char>>)
    ensures
        decoded_items::<String>(error_items(errors)) == Some(errors),
    decreases errors.len(),
{
    if errors.len() == 0 {
        assert(errors =~= Seq::empty());
    } else {
        lemma_strings_decode(errors.drop_last());
        assert(error_items(errors).drop_last() =~= error_items(errors.drop_last()));
        assert(errors.drop_last().push(errors.last()) =~= errors);
    }
}

/// With a success status, a body that parses and decodes resolves to the value that it
/// decodes to, whatever the type of the result.
pub proof fn lemma_success_resolves_to_decoded<R: FromJson>(
    status: u16,
    body: Seq<char>,
    value: Json,
    expected: R::V,
)
    requires
        is_success(status),
        json_parse(body) == Ok::<Json, Seq<char>>(value),
        R::decoded(value) == Some(expected),
    ensures
        resolved::<R>(status, body) == Ok::<R::V, DatadogErrorModel>(expected),
{
}

/// With a success status, a body that parses to what a value is written as resolves to
/// that value: to a result equal to the expected one, field by field. It holds of every
/// type that is read back as it was written.
pub proof fn lemma_written_body_resolves<R: RoundTrip>(
    status: u16,
    body: Seq<char>,
    expected: R::V,
)
    requires
        is_success(status),
        json_parse(body) == Ok::<Json, Seq<char>>(R::encoded(expected)),
    ensures
        resolved::<R>(status, body) == Ok::<R::V, DatadogErrorModel>(expected),
{
    R::lemma_round_trip(expected);
}

/// With any other status, a body that lists messages under `errors` resolves to an API
/// error with exactly these messages, whatever the type of the result.
pub proof fn lemma_error_status_resolves_to_api_error<R: FromJson>(
    status: u16,
    body: Seq<char>,
    errors: Seq<Seq<char>>,
)
    requires
        !is_success(status),
        json_parse(body) == Ok::<Json, Seq<char>>(error_body(errors)),
    ensures
        resolved::<R>(status, body) == Err::<R::V, DatadogErrorModel>(
            DatadogErrorModel::Api(DatadogErrorResponseModel { errors }),
        ),
{
    let members = seq![("errors"@, Json::Array(error_items(errors)))];
    assert(member(members, "errors"@) == Some(Json::Array(error_items(errors))));
    lemma_strings_decode(errors);
}

/// With a success status, a body that does not parse, or that parses to a value that does
/// not decode, resolves to a decode error: not to a result, and not to an API error.
pub proof fn lemma_bad_success_body_is_decode_error<R: FromJson>(status: u16, body: Seq<char>)
    requires
        is_success(status),
        json_parse(body) is Err || R::decoded(json_parse(body)->Ok_0) is None,
    ensures
        resolved::<R>(status, body) matches Err(DatadogErrorModel::Decode(_)),
{
}

/// Equal calls give equal outcomes: two requests with the same content, sent by clients
/// with the same content to the same path, are the same request, and equal responses
/// resolve to the same.
pub proof fn lemma_same_call_same_outcome<T: ToJson, R: FromJson>(
    first_client: Client,
    second_client: Client,
    method: Method,
    path_and_query: Seq<char>,
    first: T,
    second: T,
    first_response: HttpResponse,
    second_response: HttpResponse,
)
    requires
        first_client@ == second_client@,
        first.deep_view() == second.deep_view(),
        first_response.status == second_response.status,
        first_response.body@ == second_response.body@,
    ensures
        json_request(
            first_client@,
            method,
            path_and_query,
            json_render(T::encoded(first.deep_view())),
        ) == json_request(
            second_client@,
            method,
            path_and_query,
            json_render(T::encoded(second.deep_view())),
        ),
        resolved::<R>(first_response.status, first_response.body@) == resolved::<R>(
            second_response.status,
            second_response.body@,
        ),
{
}

/// The address of a call is the host, the path, a question mark and the parameters of the
/// query joined by `&`: each part as it was given and in the order given, with nothing
/// encoded a second time.
pub proof fn lemma_url_of_path_with_query(
    client: ClientModel,
    method: Method,
    path: Seq<char>,
    queries: Seq<Seq<char>>,
    body: Option<Seq<char>>,
)
    requires
        queries.len() > 0,
    ensures
        plain_request(client, method, with_query(path, queries), body).url == client.host + path
            + "?"@ + join(queries, "&"@),
{
    assert(client.host + (path + "?"@ + join(queries, "&"@)) =~= client.host + path + "?"@ + join(
        queries,
        "&"@,
    ));
}

} // verus!
