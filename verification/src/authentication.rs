//! Checks that an API key is valid.
pub mod wire;

use crate::client::{
    plain_request, resolve, Call, Client, ClientModel, DatadogErrorModel, DatadogResult,
    HttpRequest, HttpRequestModel, HttpResponse, Method,
};
use vstd::prelude::*;

verus! {

/// Asks whether the API key of the client is valid. An invalid key is answered with status 403.
#[derive(Debug, Clone, Copy, PartialEq, Eq)]
pub struct ValidateRequest {}

impl View for ValidateRequest {
    type V = ValidateRequest;

    open spec fn view(&self) -> ValidateRequest {
        *self
    }
}

impl DeepView for ValidateRequest {
    type V = ValidateRequest;

    open spec fn deep_view(&self) -> ValidateRequest {
        self@
    }
}

impl ValidateRequest {
    /// The model of the value that `default` gives.
    pub open spec fn default_model() -> ValidateRequest {
        ValidateRequest {}
    }
}

impl Default for ValidateRequest {
    fn default() -> (r: ValidateRequest)
        ensures
            r@ == ValidateRequest::default_model(),
    {
        ValidateRequest {}
    }
}

impl ValidateRequest {
    /// The path that this request is sent to.
    pub fn path_and_query(&self) -> (path: String)
        ensures
            path@ == "/api/v1/validate"@,
    {
        String::from_str("/api/v1/validate")
    }

    /// The request to send.
    pub fn send(&self, client: &Client) -> (request: HttpRequest)
        ensures
            request@ == plain_request(client@, Method::Get, "/api/v1/validate"@, None),
    {
        client.get_raw(self.path_and_query().as_str())
    }
}

impl Call for ValidateRequest {
    type Response = ValidateResponse;

    open spec fn request_model(&self, client: ClientModel) -> Result<
        HttpRequestModel,
        DatadogErrorModel,
    > {
        Ok(plain_request(client, Method::Get, "/api/v1/validate"@, None))
    }

    fn request(&self, client: &Client) -> (r: DatadogResult<HttpRequest>) {
        Ok(self.send(client))
    }

    fn receive(&self, response: &HttpResponse) -> (r: DatadogResult<ValidateResponse>) {
        resolve(response)
    }
}

/// The answer to a `ValidateRequest`.
#[derive(Debug, Clone, Copy, PartialEq, Eq)]
pub struct ValidateResponse {
    /// Whether the API key is valid.
    pub valid: bool,
}

impl View for ValidateResponse {
    type V = ValidateResponse;

    open spec fn view(&self) -> ValidateResponse {
        *self
    }
}

impl DeepView for ValidateResponse {
    type V = ValidateResponse;

    open spec fn deep_view(&self) -> ValidateResponse {
        self@
    }
}

impl ValidateResponse {
    /// The model of the value that `default` gives.
    pub open spec fn default_model() -> ValidateResponse {
        ValidateResponse {
            valid: false,
        }
    }
}

impl Default for ValidateResponse {
    fn default() -> (r: ValidateResponse)
        ensures
            r@ == ValidateResponse::default_model(),
    {
        ValidateResponse {
            valid: false,
        }
    }
}

} // verus!
