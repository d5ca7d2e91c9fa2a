//! Dashboards: creating and updating them.
pub mod widgets;
pub mod wire;

use crate::client::{
    json_request, resolve, result_view, Call, Client, ClientModel, DatadogError, DatadogErrorModel,
    DatadogResult, HttpRequest, HttpRequestModel, HttpResponse, Method,
};
use crate::json::{empty_list, json_render, ToJson};
use crate::text::same_text;
use vstd::prelude::*;

use widgets::WidgetDefinitionModel;

pub use widgets::{
    CustomLink, Formula, MetricAggregator, Note, Query, QueryOption1, QueryValue, Request,
    RequestAggregator, ResponseFormat, TextAlign, TickEdge, Time, VerticalAlign,
    WidgetDefinition,
};

verus! {

/// How the widgets of a dashboard are laid out.
#[derive(Debug, Clone, Copy, PartialEq, Eq)]
pub enum LayoutType {
    Ordered,
    Free,
}

impl View for LayoutType {
    type V = LayoutType;

    open spec fn view(&self) -> LayoutType {
        *self
    }
}

impl DeepView for LayoutType {
    type V = LayoutType;

    open spec fn deep_view(&self) -> LayoutType {
        *self
    }
}

impl LayoutType {
    /// The value that `default` gives.
    pub open spec fn default_model() -> LayoutType {
        LayoutType::Ordered
    }

    /// The name that each variant has on the wire.
    pub open spec fn wire_name(self) -> Seq<char> {
        match self {
            LayoutType::Ordered => "ordered"@,
            LayoutType::Free => "free"@,
        }
    }

    /// The variant that a name on the wire stands for, if it is one of them.
    pub open spec fn from_wire_name(name: Seq<char>) -> Option<LayoutType> {
        if name == "ordered"@ {
            Some(LayoutType::Ordered)
        } else if name == "free"@ {
            Some(LayoutType::Free)
        } else {
            None
        }
    }

    /// Every variant is found again under its own name: no two variants share one.
    pub proof fn lemma_wire_name_round_trip(self)
        ensures
            Self::from_wire_name(self.wire_name()) == Some(self),
    {
        reveal_strlit("ordered");
        reveal_strlit("free");
        assert("ordered"@.len() == 7);
        assert("free"@.len() == 4);
    }

    /// The name of this variant on the wire.
    pub fn as_str(&self) -> (name: &'static str)
        ensures
            name@ == self.wire_name(),
    {
        match self {
            LayoutType::Ordered => "ordered",
            LayoutType::Free => "free",
        }
    }

    /// Finds the variant that a name on the wire stands for.
    pub fn from_name(name: &str) -> (r: Option<LayoutType>)
        ensures
            r == Self::from_wire_name(name@),
    {
        if same_text(name, "ordered") {
            Some(LayoutType::Ordered)
        } else if same_text(name, "free") {
            Some(LayoutType::Free)
        } else {
            None
        }
    }
}

impl Default for LayoutType {
    fn default() -> (r: LayoutType)
        ensures
            r == LayoutType::default_model(),
    {
        LayoutType::Ordered
    }
}

/// How the widgets of an ordered dashboard are placed: by the dashboard, or where their layouts
/// say.
#[derive(Debug, Clone, Copy, PartialEq, Eq)]
pub enum ReflowType {
    Auto,
    Fixed,
}

impl View for ReflowType {
    type V = ReflowType;

    open spec fn view(&self) -> ReflowType {
        *self
    }
}

impl DeepView for ReflowType {
    type V = ReflowType;

    open spec fn deep_view(&self) -> ReflowType {
        *self
    }
}

impl ReflowType {
    /// The name that each variant has on the wire.
    pub open spec fn wire_name(self) -> Seq<char> {
        match self {
            ReflowType::Auto => "auto"@,
            ReflowType::Fixed => "fixed"@,
        }
    }

    /// The variant that a name on the wire stands for, if it is one of them.
    pub open spec fn from_wire_name(name: Seq<char>) -> Option<ReflowType> {
        if name == "auto"@ {
            Some(ReflowType::Auto)
        } else if name == "fixed"@ {
            Some(ReflowType::Fixed)
        } else {
            None
        }
    }

    /// Every variant is found again under its own name: no two variants share one.
    pub proof fn lemma_wire_name_round_trip(self)
        ensures
            Self::from_wire_name(self.wire_name()) == Some(self),
    {
        reveal_strlit("auto");
        reveal_strlit("fixed");
        assert("auto"@.len() == 4);
        assert("fixed"@.len() == 5);
    }

    /// The name of this variant on the wire.
    pub fn as_str(&self) -> (name: &'static str)
        ensures
            name@ == self.wire_name(),
    {
        match self {
            ReflowType::Auto => "auto",
            ReflowType::Fixed => "fixed",
        }
    }

    /// Finds the variant that a name on the wire stands for.
    pub fn from_name(name: &str) -> (r: Option<ReflowType>)
        ensures
            r == Self::from_wire_name(name@),
    {
        if same_text(name, "auto") {
            Some(ReflowType::Auto)
        } else if same_text(name, "fixed") {
            Some(ReflowType::Fixed)
        } else {
            None
        }
    }
}

/// A saved view of the template variables of a dashboard.
#[derive(Debug, Clone, Copy, PartialEq, Eq)]
pub struct TemplateVariablePreset {}

impl View for TemplateVariablePreset {
    type V = TemplateVariablePreset;

    open spec fn view(&self) -> TemplateVariablePreset {
        *self
    }
}

impl DeepView for TemplateVariablePreset {
    type V = TemplateVariablePreset;

    open spec fn deep_view(&self) -> TemplateVariablePreset {
        self@
    }
}

impl TemplateVariablePreset {
    /// The model of the value that `default` gives.
    pub open spec fn default_model() -> TemplateVariablePreset {
        TemplateVariablePreset {}
    }
}

impl Default for TemplateVariablePreset {
    fn default() -> (r: TemplateVariablePreset)
        ensures
            r@ == TemplateVariablePreset::default_model(),
    {
        TemplateVariablePreset {}
    }
}

/// A template variable of a dashboard.
#[derive(Debug, Clone, Copy, PartialEq, Eq)]
pub struct TemplateVariable {}

impl View for TemplateVariable {
    type V = TemplateVariable;

    open spec fn view(&self) -> TemplateVariable {
        *self
    }
}

impl DeepView for TemplateVariable {
    type V = TemplateVariable;

    open spec fn deep_view(&self) -> TemplateVariable {
        self@
    }
}

impl TemplateVariable {
    /// The model of the value that `default` gives.
    pub open spec fn default_model() -> TemplateVariable {
        TemplateVariable {}
    }
}

impl Default for TemplateVariable {
    fn default() -> (r: TemplateVariable)
        ensures
            r@ == TemplateVariable::default_model(),
    {
        TemplateVariable {}
    }
}

/// Where a widget is on its dashboard, and how large.
#[derive(Debug, Clone, Copy, PartialEq, Eq)]
pub struct WidgetLayout {
    /// Whether the widget starts a new column.
    pub is_column_break: Option<bool>,
    /// Distance from the left edge.
    pub x: i64,
    /// Distance from the top edge.
    pub y: i64,
    /// Width of the widget.
    pub width: i64,
    /// Height of the widget.
    pub height: i64,
}

impl View for WidgetLayout {
    type V = WidgetLayout;

    open spec fn view(&self) -> WidgetLayout {
        *self
    }
}

impl DeepView for WidgetLayout {
    type V = WidgetLayout;

    open spec fn deep_view(&self) -> WidgetLayout {
        self@
    }
}

impl WidgetLayout {
    /// The model of the value that `default` gives.
    pub open spec fn default_model() -> WidgetLayout {
        WidgetLayout {
            is_column_break: None,
            x: 0,
            y: 0,
            width: 0,
            height: 0,
        }
    }
}

impl Default for WidgetLayout {
    fn default() -> (r: WidgetLayout)
        ensures
            r@ == WidgetLayout::default_model(),
    {
        WidgetLayout {
            is_column_break: None,
            x: 0,
            y: 0,
            width: 0,
            height: 0,
        }
    }
}

/// One widget of a dashboard.
#[derive(Debug, Clone, PartialEq, Eq)]
pub struct Widget {
    /// ID of the widget.
    pub id: Option<i64>,
    /// What the widget shows.
    pub definition: Option<WidgetDefinition>,
    /// Where the widget is.
    pub layout: Option<WidgetLayout>,
}

/// The model of a `Widget`.
pub ghost struct WidgetModel {
    pub id: Option<i64>,
    pub definition: Option<WidgetDefinitionModel>,
    pub layout: Option<WidgetLayout>,
}

impl View for Widget {
    type V = WidgetModel;

    open spec fn view(&self) -> WidgetModel {
        WidgetModel {
            id: self.id,
            definition: self.definition.deep_view(),
            layout: self.layout,
        }
    }
}

impl DeepView for Widget {
    type V = WidgetModel;

    open spec fn deep_view(&self) -> WidgetModel {
        self@
    }
}

impl Widget {
    /// The model of the value that `default` gives.
    pub open spec fn default_model() -> WidgetModel {
        WidgetModel {
            id: None,
            definition: None,
            layout: None,
        }
    }
}

impl Default for Widget {
    fn default() -> (r: Widget)
        ensures
            r@ == Widget::default_model(),
    {
        Widget {
            id: None,
            definition: None,
            layout: None,
        }
    }
}

impl Widget {
    /// Sets `definition`.
    pub fn definition(self, definition: WidgetDefinition) -> (r: Widget)
        ensures
            r@ == (WidgetModel { definition: Some(definition.deep_view()), ..self@ }),
    {
        Widget { definition: Some(definition), ..self }
    }
}

/// Updates a dashboard.
#[derive(Debug, Clone, PartialEq, Eq)]
pub struct UpdateDashboardRequest {
    /// ID of the dashboard. It goes into the path, not into the body.
    pub dashboard_id: String,
    /// Description of the dashboard.
    pub description: Option<String>,
    /// Whether only the author and admins can change the dashboard.
    pub is_read_only: Option<bool>,
    /// Layout type of the dashboard.
    pub layout_type: LayoutType,
    /// Handles of the users to notify when the dashboard changes.
    pub notify_list: Option<Vec<String>>,
    /// How widgets are placed. Set it only with the layout type `ordered`.
    pub reflow_type: Option<ReflowType>,
    /// Roles whose members may edit the dashboard, beside the author.
    pub restricted_roles: Option<Vec<String>>,
    /// Saved views of the template variables.
    pub template_variable_presets: Option<Vec<TemplateVariablePreset>>,
    /// Template variables of the dashboard.
    pub template_variables: Option<Vec<TemplateVariable>>,
    /// Title of the dashboard.
    pub title: String,
    /// The widgets of the dashboard.
    pub widgets: Vec<Widget>,
}

/// The model of an `UpdateDashboardRequest`.
pub ghost struct UpdateDashboardRequestModel {
    pub dashboard_id: Seq<char>,
    pub description: Option<Seq<char>>,
    pub is_read_only: Option<bool>,
    pub layout_type: LayoutType,
    pub notify_list: Option<Seq<Seq<char>>>,
    pub reflow_type: Option<ReflowType>,
    pub restricted_roles: Option<Seq<Seq<char>>>,
    pub template_variable_presets: Option<Seq<TemplateVariablePreset>>,
    pub template_variables: Option<Seq<TemplateVariable>>,
    pub title: Seq<char>,
    pub widgets: Seq<WidgetModel>,
}

impl View for UpdateDashboardRequest {
    type V = UpdateDashboardRequestModel;

    open spec fn view(&self) -> UpdateDashboardRequestModel {
        UpdateDashboardRequestModel {
            dashboard_id: self.dashboard_id@,
            description: self.description.deep_view(),
            is_read_only: self.is_read_only,
            layout_type: self.layout_type,
            notify_list: self.notify_list.deep_view(),
            reflow_type: self.reflow_type,
            restricted_roles: self.restricted_roles.deep_view(),
            template_variable_presets: self.template_variable_presets.deep_view(),
            template_variables: self.template_variables.deep_view(),
            title: self.title@,
            widgets: self.widgets.deep_view(),
        }
    }
}

impl DeepView for UpdateDashboardRequest {
    type V = UpdateDashboardRequestModel;

    open spec fn deep_view(&self) -> UpdateDashboardRequestModel {
        self@
    }
}

impl UpdateDashboardRequest {
    /// The model of the value that `default` gives.
    pub open spec fn default_model() -> UpdateDashboardRequestModel {
        UpdateDashboardRequestModel {
            dashboard_id: Seq::empty(),
            description: None,
            is_read_only: None,
            layout_type: LayoutType::default_model(),
            notify_list: None,
            reflow_type: None,
            restricted_roles: None,
            template_variable_presets: None,
            template_variables: None,
            title: Seq::empty(),
            widgets: Seq::empty(),
        }
    }
}

impl Default for UpdateDashboardRequest {
    fn default() -> (r: UpdateDashboardRequest)
        ensures
            r@ == UpdateDashboardRequest::default_model(),
    {
        UpdateDashboardRequest {
            dashboard_id: String::new(),
            description: None,
            is_read_only: None,
            layout_type: LayoutType::default(),
            notify_list: None,
            reflow_type: None,
            restricted_roles: None,
            template_variable_presets: None,
            template_variables: None,
            title: String::new(),
            widgets: empty_list(),
        }
    }
}

impl UpdateDashboardRequest {
    /// Sets `dashboard_id`.
    pub fn dashboard_id(self, dashboard_id: &str) -> (r: UpdateDashboardRequest)
        ensures
            r@ == (UpdateDashboardRequestModel { dashboard_id: dashboard_id@, ..self@ }),
    {
        UpdateDashboardRequest { dashboard_id: String::from_str(dashboard_id), ..self }
    }

    /// Sets `layout_type`.
    pub fn layout_type(self, layout_type: LayoutType) -> (r: UpdateDashboardRequest)
        ensures
            r@ == (UpdateDashboardRequestModel { layout_type, ..self@ }),
    {
        UpdateDashboardRequest { layout_type: layout_type, ..self }
    }

    /// Sets `title`.
    pub fn title(self, title: &str) -> (r: UpdateDashboardRequest)
        ensures
            r@ == (UpdateDashboardRequestModel { title: title@, ..self@ }),
    {
        UpdateDashboardRequest { title: String::from_str(title), ..self }
    }

    /// Sets `widgets`.
    pub fn widgets(self, widgets: Vec<Widget>) -> (r: UpdateDashboardRequest)
        ensures
            r@ == (UpdateDashboardRequestModel { widgets: widgets.deep_view(), ..self@ }),
    {
        UpdateDashboardRequest { widgets: widgets, ..self }
    }

    /// The path that this request is sent to.
    pub fn path_and_query(&self) -> (path: String)
        ensures
            path@ == dashboard_path(self@.dashboard_id),
    {
        let mut path = String::from_str("/api/v1/dashboard/");
        path.append(self.dashboard_id.as_str());
        path
    }

    /// The request to send: the dashboard as it shall be is its body. A request without a
    /// dashboard ID is rejected.
    pub fn send(&self, client: &Client) -> (request: DatadogResult<HttpRequest>)
        ensures
            result_view(request) == if self@.dashboard_id.len() == 0 {
                Err::<_, DatadogErrorModel>(
                    DatadogErrorModel::InvalidInput("dashboard_id must not be empty"@),
                )
            } else {
                Ok(
                    json_request(
                        client@,
                        Method::Put,
                        dashboard_path(self@.dashboard_id),
                        json_render(Self::encoded(self@)),
                    ),
                )
            },
    {
        if self.dashboard_id.as_str().is_empty() {
            Err(DatadogError::InvalidInput(String::from_str("dashboard_id must not be empty")))
        } else {
            Ok(client.put_json(self.path_and_query().as_str(), self))
        }
    }
}

impl Call for UpdateDashboardRequest {
    type Response = UpdateDashboardResponse;

    open spec fn request_model(&self, client: ClientModel) -> Result<
        HttpRequestModel,
        DatadogErrorModel,
    > {
        if self@.dashboard_id.len() == 0 {
            Err(DatadogErrorModel::InvalidInput("dashboard_id must not be empty"@))
        } else {
            Ok(
                json_request(
                    client,
                    Method::Put,
                    dashboard_path(self@.dashboard_id),
                    json_render(Self::encoded(self@)),
                ),
            )
        }
    }

    fn request(&self, client: &Client) -> (r: DatadogResult<HttpRequest>) {
        self.send(client)
    }

    fn receive(&self, response: &HttpResponse) -> (r: DatadogResult<UpdateDashboardResponse>) {
        resolve(response)
    }
}

/// The dashboard as it is after an update.
#[derive(Debug, Clone, PartialEq, Eq)]
pub struct UpdateDashboardResponse {
    /// Handles of the users to notify when the dashboard changes.
    pub notify_list: Option<Vec<String>>,
    /// Description of the dashboard.
    pub description: Option<String>,
    /// Roles whose members may edit the dashboard, beside the author.
    pub restricted_roles: Option<Vec<String>>,
    /// Name of the author.
    pub author_name: String,
    /// Handle of the author.
    pub author_handle: String,
    /// Template variables of the dashboard.
    pub template_variables: Option<Vec<TemplateVariable>>,
    /// Whether only the author and admins can change the dashboard.
    pub is_read_only: bool,
    /// ID of the dashboard.
    pub id: String,
    /// Title of the dashboard.
    pub title: String,
    /// URL of the dashboard.
    pub url: String,
    /// Date of creation.
    pub created_at: String,
    /// Date of the last change.
    pub modified_at: String,
    /// Layout type of the dashboard.
    pub layout_type: LayoutType,
    /// The widgets of the dashboard.
    pub widgets: Vec<Widget>,
}

/// The model of an `UpdateDashboardResponse`.
pub ghost struct UpdateDashboardResponseModel {
    pub notify_list: Option<Seq<Seq<char>>>,
    pub description: Option<Seq<char>>,
    pub restricted_roles: Option<Seq<Seq<char>>>,
    pub author_name: Seq<char>,
    pub author_handle: Seq<char>,
    pub template_variables: Option<Seq<TemplateVariable>>,
    pub is_read_only: bool,
    pub id: Seq<char>,
    pub title: Seq<char>,
    pub url: Seq<char>,
    pub created_at: Seq<char>,
    pub modified_at: Seq<char>,
    pub layout_type: LayoutType,
    pub widgets: Seq<WidgetModel>,
}

impl View for UpdateDashboardResponse {
    type V = UpdateDashboardResponseModel;

    open spec fn view(&self) -> UpdateDashboardResponseModel {
        UpdateDashboardResponseModel {
            notify_list: self.notify_list.deep_view(),
            description: self.description.deep_view(),
            restricted_roles: self.restricted_roles.deep_view(),
            author_name: self.author_name@,
            author_handle: self.author_handle@,
            template_variables: self.template_variables.deep_view(),
            is_read_only: self.is_read_only,
            id: self.id@,
            title: self.title@,
            url: self.url@,
            created_at: self.created_at@,
            modified_at: self.modified_at@,
            layout_type: self.layout_type,
            widgets: self.widgets.deep_view(),
        }
    }
}

impl DeepView for UpdateDashboardResponse {
    type V = UpdateDashboardResponseModel;

    open spec fn deep_view(&self) -> UpdateDashboardResponseModel {
        self@
    }
}

impl UpdateDashboardResponse {
    /// The model of the value that `default` gives.
    pub open spec fn default_model() -> UpdateDashboardResponseModel {
        UpdateDashboardResponseModel {
            notify_list: None,
            description: None,
            restricted_roles: None,
            author_name: Seq::empty(),
            author_handle: Seq::empty(),
            template_variables: None,
            is_read_only: false,
            id: Seq::empty(),
            title: Seq::empty(),
            url: Seq::empty(),
            created_at: Seq::empty(),
            modified_at: Seq::empty(),
            layout_type: LayoutType::default_model(),
            widgets: Seq::empty(),
        }
    }
}

impl Default for UpdateDashboardResponse {
    fn default() -> (r: UpdateDashboardResponse)
        ensures
            r@ == UpdateDashboardResponse::default_model(),
    {
        UpdateDashboardResponse {
            notify_list: None,
            description: None,
            restricted_roles: None,
            author_name: String::new(),
            author_handle: String::new(),
            template_variables: None,
            is_read_only: false,
            id: String::new(),
            title: String::new(),
            url: String::new(),
            created_at: String::new(),
            modified_at: String::new(),
            layout_type: LayoutType::default(),
            widgets: empty_list(),
        }
    }
}

/// Creates a dashboard.
#[derive(Debug, Clone, PartialEq, Eq)]
pub struct CreateDashboardRequest {
    /// Description of the dashboard.
    pub description: Option<String>,
    /// Whether only the author and admins can change the dashboard.
    pub is_read_only: Option<bool>,
    /// Layout type of the dashboard.
    pub layout_type: LayoutType,
    /// Handles of the users to notify when the dashboard changes.
    pub notify_list: Option<Vec<String>>,
    /// How widgets are placed. Set it only with the layout type `ordered`.
    pub reflow_type: Option<ReflowType>,
    /// Roles whose members may edit the dashboard, beside the author.
    pub restricted_roles: Option<Vec<String>>,
    /// Saved views of the template variables.
    pub template_variable_presets: Option<Vec<TemplateVariablePreset>>,
    /// Template variables of the dashboard.
    pub template_variables: Option<Vec<TemplateVariable>>,
    /// Title of the dashboard.
    pub title: String,
    /// The widgets of the dashboard.
    pub widgets: Vec<Widget>,
}

/// The model of a `CreateDashboardRequest`.
pub ghost struct CreateDashboardRequestModel {
    pub description: Option<Seq<char>>,
    pub is_read_only: Option<bool>,
    pub layout_type: LayoutType,
    pub notify_list: Option<Seq<Seq<char>>>,
    pub reflow_type: Option<ReflowType>,
    pub restricted_roles: Option<Seq<Seq<char>>>,
    pub template_variable_presets: Option<Seq<TemplateVariablePreset>>,
    pub template_variables: Option<Seq<TemplateVariable>>,
    pub title: Seq<char>,
    pub widgets: Seq<WidgetModel>,
}

impl View for CreateDashboardRequest {
    type V = CreateDashboardRequestModel;

    open spec fn view(&self) -> CreateDashboardRequestModel {
        CreateDashboardRequestModel {
            description: self.description.deep_view(),
            is_read_only: self.is_read_only,
            layout_type: self.layout_type,
            notify_list: self.notify_list.deep_view(),
            reflow_type: self.reflow_type,
            restricted_roles: self.restricted_roles.deep_view(),
            template_variable_presets: self.template_variable_presets.deep_view(),
            template_variables: self.template_variables.deep_view(),
            title: self.title@,
            widgets: self.widgets.deep_view(),
        }
    }
}

impl DeepView for CreateDashboardRequest {
    type V = CreateDashboardRequestModel;

    open spec fn deep_view(&self) -> CreateDashboardRequestModel {
        self@
    }
}

impl CreateDashboardRequest {
    /// The model of the value that `default` gives.
    pub open spec fn default_model() -> CreateDashboardRequestModel {
        CreateDashboardRequestModel {
            description: None,
            is_read_only: None,
            layout_type: LayoutType::default_model(),
            notify_list: None,
            reflow_type: None,
            restricted_roles: None,
            template_variable_presets: None,
            template_variables: None,
            title: Seq::empty(),
            widgets: Seq::empty(),
        }
    }
}

impl Default for CreateDashboardRequest {
    fn default() -> (r: CreateDashboardRequest)
        ensures
            r@ == CreateDashboardRequest::default_model(),
    {
        CreateDashboardRequest {
            description: None,
            is_read_only: None,
            layout_type: LayoutType::default(),
            notify_list: None,
            reflow_type: None,
            restricted_roles: None,
            template_variable_presets: None,
            template_variables: None,
            title: String::new(),
            widgets: empty_list(),
        }
    }
}

impl CreateDashboardRequest {
    /// Sets `layout_type`.
    pub fn layout_type(self, layout_type: LayoutType) -> (r: CreateDashboardRequest)
        ensures
            r@ == (CreateDashboardRequestModel { layout_type, ..self@ }),
    {
        CreateDashboardRequest { layout_type: layout_type, ..self }
    }

    /// Sets `title`.
    pub fn title(self, title: &str) -> (r: CreateDashboardRequest)
        ensures
            r@ == (CreateDashboardRequestModel { title: title@, ..self@ }),
    {
        CreateDashboardRequest { title: String::from_str(title), ..self }
    }

    /// Sets `widgets`.
    pub fn widgets(self, widgets: Vec<Widget>) -> (r: CreateDashboardRequest)
        ensures
            r@ == (CreateDashboardRequestModel { widgets: widgets.deep_view(), ..self@ }),
    {
        CreateDashboardRequest { widgets: widgets, ..self }
    }

    /// The path that this request is sent to.
    pub fn path_and_query(&self) -> (path: String)
        ensures
            path@ == "/api/v1/dashboard"@,
    {
        String::from_str("/api/v1/dashboard")
    }

    /// The request to send: the new dashboard is its body.
    pub fn send(&self, client: &Client) -> (request: HttpRequest)
        ensures
            request@ == json_request(
                client@,
                Method::Post,
                "/api/v1/dashboard"@,
                json_render(Self::encoded(self@)),
            ),
    {
        client.post_json(self.path_and_query().as_str(), self)
    }
}

impl Call for CreateDashboardRequest {
    type Response = CreateDashboardResponse;

    open spec fn request_model(&self, client: ClientModel) -> Result<
        HttpRequestModel,
        DatadogErrorModel,
    > {
        Ok(
            json_request(
                client,
                Method::Post,
                "/api/v1/dashboard"@,
                json_render(Self::encoded(self@)),
            ),
        )
    }

    fn request(&self, client: &Client) -> (r: DatadogResult<HttpRequest>) {
        Ok(self.send(client))
    }

    fn receive(&self, response: &HttpResponse) -> (r: DatadogResult<CreateDashboardResponse>) {
        resolve(response)
    }
}

/// The dashboard that was created.
#[derive(Debug, Clone, PartialEq, Eq)]
pub struct CreateDashboardResponse {
    /// Handle of the author.
    pub author_handle: String,
    /// Date of creation.
    pub created_at: String,
    /// Description of the dashboard.
    pub description: Option<String>,
    /// ID of the dashboard.
    pub id: String,
    /// Whether only the author and admins can change the dashboard.
    pub is_read_only: bool,
    /// Layout type of the dashboard.
    pub layout_type: LayoutType,
    /// Date of the last change.
    pub modified_at: String,
    /// Handles of the users to notify when the dashboard changes.
    pub notify_list: Option<Vec<String>>,
    /// How widgets are placed.
    pub reflow_type: Option<ReflowType>,
    /// Roles whose members may edit the dashboard, beside the author.
    pub restricted_roles: Option<Vec<String>>,
    /// Saved views of the template variables.
    pub template_variable_presets: Option<Vec<TemplateVariablePreset>>,
    /// Template variables of the dashboard.
    pub template_variables: Option<Vec<TemplateVariable>>,
    /// Title of the dashboard.
    pub title: String,
    /// URL of the dashboard.
    pub url: String,
    /// The widgets of the dashboard.
    pub widgets: Vec<Widget>,
}

/// The model of a `CreateDashboardResponse`.
pub ghost struct CreateDashboardResponseModel {
    pub author_handle: Seq<char>,
    pub created_at: Seq<char>,
    pub description: Option<Seq<char>>,
    pub id: Seq<char>,
    pub is_read_only: bool,
    pub layout_type: LayoutType,
    pub modified_at: Seq<char>,
    pub notify_list: Option<Seq<Seq<char>>>,
    pub reflow_type: Option<ReflowType>,
    pub restricted_roles: Option<Seq<Seq<char>>>,
    pub template_variable_presets: Option<Seq<TemplateVariablePreset>>,
    pub template_variables: Option<Seq<TemplateVariable>>,
    pub title: Seq<char>,
    pub url: Seq<char>,
    pub widgets: Seq<WidgetModel>,
}

impl View for CreateDashboardResponse {
    type V = CreateDashboardResponseModel;

    open spec fn view(&self) -> CreateDashboardResponseModel {
        CreateDashboardResponseModel {
            author_handle: self.author_handle@,
            created_at: self.created_at@,
            description: self.description.deep_view(),
            id: self.id@,
            is_read_only: self.is_read_only,
            layout_type: self.layout_type,
            modified_at: self.modified_at@,
            notify_list: self.notify_list.deep_view(),
            reflow_type: self.reflow_type,
            restricted_roles: self.restricted_roles.deep_view(),
            template_variable_presets: self.template_variable_presets.deep_view(),
            template_variables: self.template_variables.deep_view(),
            title: self.title@,
            url: self.url@,
            widgets: self.widgets.deep_view(),
        }
    }
}

impl DeepView for CreateDashboardResponse {
    type V = CreateDashboardResponseModel;

    open spec fn deep_view(&self) -> CreateDashboardResponseModel {
        self@
    }
}

impl CreateDashboardResponse {
    /// The model of the value that `default` gives.
    pub open spec fn default_model() -> CreateDashboardResponseModel {
        CreateDashboardResponseModel {
            author_handle: Seq::empty(),
            created_at: Seq::empty(),
            description: None,
            id: Seq::empty(),
            is_read_only: false,
            layout_type: LayoutType::default_model(),
            modified_at: Seq::empty(),
            notify_list: None,
            reflow_type: None,
            restricted_roles: None,
            template_variable_presets: None,
            template_variables: None,
            title: Seq::empty(),
            url: Seq::empty(),
            widgets: Seq::empty(),
        }
    }
}

impl Default for CreateDashboardResponse {
    fn default() -> (r: CreateDashboardResponse)
        ensures
            r@ == CreateDashboardResponse::default_model(),
    {
        CreateDashboardResponse {
            author_handle: String::new(),
            created_at: String::new(),
            description: None,
            id: String::new(),
            is_read_only: false,
            layout_type: LayoutType::default(),
            modified_at: String::new(),
            notify_list: None,
            reflow_type: None,
            restricted_roles: None,
            template_variable_presets: None,
            template_variables: None,
            title: String::new(),
            url: String::new(),
            widgets: empty_list(),
        }
    }
}

/// The path of one dashboard.
pub open spec fn dashboard_path(dashboard_id: Seq<char>) -> Seq<char> {
    "/api/v1/dashboard/"@ + dashboard_id
}

} // verus!
