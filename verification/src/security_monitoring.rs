//! Security monitoring: the detection rules.
pub mod wire;

use crate::client::{
    plain_request, resolve, Call, Client, ClientModel, DatadogErrorModel, DatadogResult,
    HttpRequest, HttpRequestModel, HttpResponse, Method,
};
use crate::json::empty_list;
use crate::text::{
    form_encode, form_encoded, i64_to_string, lemma_form_keeps_signed_decimal, path_with_query,
    same_text, signed_decimal, views, with_query,
};
use vstd::prelude::*;

verus! {

/// One parameter of a query: the name, an equals sign and the value, each as it is.
pub open spec fn pair(name: Seq<char>, value: Seq<char>) -> Seq<char> {
    name + "="@ + value
}

/// The parameters of the query of a `ListRulesRequest`: the page number before the page
/// size, each only where it is set. The names are `page[number]` and `page[size]`, with the
/// brackets encoded as a form encodes them.
pub open spec fn rules_queries(request: ListRulesRequest) -> Seq<Seq<char>> {
    let number = match request.page_number {
        Some(n) => seq![pair("page%5Bnumber%5D"@, signed_decimal(n as int))],
        None => Seq::empty(),
    };
    let size = match request.page_size {
        Some(n) => seq![pair("page%5Bsize%5D"@, signed_decimal(n as int))],
        None => Seq::empty(),
    };
    number + size
}

/// The path and query of a `ListRulesRequest`.
pub open spec fn rules_path(request: ListRulesRequest) -> Seq<char> {
    with_query("/api/v2/security_monitoring/rules"@, rules_queries(request))
}

/// What a form makes of the names of the two parameters.
pub proof fn lemma_encoded_names()
    ensures
        vstd::utf8::is_ascii_chars("page[number]"@),
        vstd::utf8::is_ascii_chars("page[size]"@),
        form_encoded("page[number]"@) == "page%5Bnumber%5D"@,
        form_encoded("page[size]"@) == "page%5Bsize%5D"@,
{
    reveal_strlit("page[number]");
    reveal_strlit("page[size]");
    reveal_strlit("page%5Bnumber%5D");
    reveal_strlit("page%5Bsize%5D");
    reveal_with_fuel(form_encoded, 13);
    assert(form_encoded("page[number]"@) =~= "page%5Bnumber%5D"@);
    assert(form_encoded("page[size]"@) =~= "page%5Bsize%5D"@);
}

/// Writes one parameter of a query, with name and value encoded as a form encodes them.
fn write_pair(name: &str, value: i32) -> (text: String)
    requires
        vstd::utf8::is_ascii_chars(name@),
    ensures
        text@ == pair(form_encoded(name@), signed_decimal(value as int)),
{
    let mut text = form_encode(name);
    text.append("=");
    let number = i64_to_string(value as i64);
    proof {
        lemma_form_keeps_signed_decimal(value as int);
    }
    let encoded = form_encode(number.as_str());
    text.append(encoded.as_str());
    text
}

/// Asks for a page of the detection rules.
#[derive(Debug, Clone, Copy, PartialEq, Eq)]
pub struct ListRulesRequest {
    /// How many rules a page holds.
    pub page_size: Option<i32>,
    /// Which page is asked for.
    pub page_number: Option<i32>,
}

impl View for ListRulesRequest {
    type V = ListRulesRequest;

    open spec fn view(&self) -> ListRulesRequest {
        *self
    }
}

impl DeepView for ListRulesRequest {
    type V = ListRulesRequest;

    open spec fn deep_view(&self) -> ListRulesRequest {
        self@
    }
}

impl ListRulesRequest {
    /// The model of the value that `default` gives.
    pub open spec fn default_model() -> ListRulesRequest {
        ListRulesRequest {
            page_size: None,
            page_number: None,
        }
    }
}

impl Default for ListRulesRequest {
    fn default() -> (r: ListRulesRequest)
        ensures
            r@ == ListRulesRequest::default_model(),
    {
        ListRulesRequest {
            page_size: None,
            page_number: None,
        }
    }
}

impl ListRulesRequest {
    /// Sets `page_size`.
    pub fn page_size(self, page_size: i32) -> (r: ListRulesRequest)
        ensures
            r == (ListRulesRequest { page_size: Some(page_size), ..self }),
    {
        ListRulesRequest { page_size: Some(page_size), ..self }
    }

    /// Sets `page_number`.
    pub fn page_number(self, page_number: i32) -> (r: ListRulesRequest)
        ensures
            r == (ListRulesRequest { page_number: Some(page_number), ..self }),
    {
        ListRulesRequest { page_number: Some(page_number), ..self }
    }

    /// The path and query that this request is sent to.
    pub fn path_and_query(&self) -> (path: String)
        ensures
            path@ == rules_path(*self),
    {
        let mut queries: Vec<String> = Vec::new();
        proof {
            lemma_encoded_names();
        }
        if let Some(page_number) = self.page_number {
            queries.push(write_pair("page[number]", page_number));
        }
        if let Some(page_size) = self.page_size {
            queries.push(write_pair("page[size]", page_size));
        }
        assert(views(queries@) =~= rules_queries(*self));
        path_with_query("/api/v2/security_monitoring/rules", &queries)
    }

    /// The request to send.
    pub fn send(&self, client: &Client) -> (request: HttpRequest)
        ensures
            request@ == plain_request(client@, Method::Get, rules_path(*self), None),
    {
        client.get_raw(self.path_and_query().as_str())
    }
}

impl Call for ListRulesRequest {
    type Response = ListRulesResponse;

    open spec fn request_model(&self, client: ClientModel) -> Result<
        HttpRequestModel,
        DatadogErrorModel,
    > {
        Ok(plain_request(client, Method::Get, rules_path(*self), None))
    }

    fn request(&self, client: &Client) -> (r: DatadogResult<HttpRequest>) {
        Ok(self.send(client))
    }

    fn receive(&self, response: &HttpResponse) -> (r: DatadogResult<ListRulesResponse>) {
        resolve(response)
    }
}

/// How severe a security signal is.
#[derive(Debug, Clone, Copy, PartialEq, Eq)]
pub enum Status {
    Info,
    Low,
    Medium,
    High,
    Critical,
}

impl View for Status {
    type V = Status;

    open spec fn view(&self) -> Status {
        *self
    }
}

impl DeepView for Status {
    type V = Status;

    open spec fn deep_view(&self) -> Status {
        *self
    }
}

impl Status {
    /// The value that `default` gives.
    pub open spec fn default_model() -> Status {
        Status::Info
    }

    /// The name that each variant has on the wire.
    pub open spec fn wire_name(self) -> Seq<char> {
        match self {
            Status::Info => "info"@,
            Status::Low => "low"@,
            Status::Medium => "medium"@,
            Status::High => "high"@,
            Status::Critical => "critical"@,
        }
    }

    /// The variant that a name on the wire stands for, if it is one of them.
    pub open spec fn from_wire_name(name: Seq<char>) -> Option<Status> {
        if name == "info"@ {
            Some(Status::Info)
        } else if name == "low"@ {
            Some(Status::Low)
        } else if name == "medium"@ {
            Some(Status::Medium)
        } else if name == "high"@ {
            Some(Status::High)
        } else if name == "critical"@ {
            Some(Status::Critical)
        } else {
            None
        }
    }

    /// Every variant is found again under its own name: no two variants share one.
    pub proof fn lemma_wire_name_round_trip(self)
        ensures
            Self::from_wire_name(self.wire_name()) == Some(self),
    {
        reveal_strlit("info");
        reveal_strlit("low");
        reveal_strlit("medium");
        reveal_strlit("high");
        reveal_strlit("critical");
        assert("info"@.len() == 4);
        assert("low"@.len() == 3);
        assert("medium"@.len() == 6);
        assert("high"@.len() == 4);
        assert("critical"@.len() == 8);
        assert("info"@[0] == 'i');
        assert("high"@[0] == 'h');
    }

    /// The name of this variant on the wire.
    pub fn as_str(&self) -> (name: &'static str)
        ensures
            name@ == self.wire_name(),
    {
        match self {
            Status::Info => "info",
            Status::Low => "low",
            Status::Medium => "medium",
            Status::High => "high",
            Status::Critical => "critical",
        }
    }

    /// Finds the variant that a name on the wire stands for.
    pub fn from_name(name: &str) -> (r: Option<Status>)
        ensures
            r == Self::from_wire_name(name@),
    {
        if same_text(name, "info") {
            Some(Status::Info)
        } else if same_text(name, "low") {
            Some(Status::Low)
        } else if same_text(name, "medium") {
            Some(Status::Medium)
        } else if same_text(name, "high") {
            Some(Status::High)
        } else if same_text(name, "critical") {
            Some(Status::Critical)
        } else {
            None
        }
    }
}

impl Default for Status {
    fn default() -> (r: Status)
        ensures
            r == Status::default_model(),
    {
        Status::Info
    }
}

/// One case of a rule: when it holds, a signal is made.
#[derive(Debug, Clone, PartialEq, Eq)]
pub struct Case {
    /// When the case holds: a condition over the counts of the queries of the rule, with `>`, `>=`,
    /// `&&` and `||`.
    pub condition: String,
    /// Name of the case.
    pub name: String,
    /// Who is notified when the case makes a signal.
    pub notifications: Vec<String>,
    /// How severe the signal is.
    pub status: Status,
}

/// The model of a `Case`.
pub ghost struct CaseModel {
    pub condition: Seq<char>,
    pub name: Seq<char>,
    pub notifications: Seq<Seq<char>>,
    pub status: Status,
}

impl View for Case {
    type V = CaseModel;

    open spec fn view(&self) -> CaseModel {
        CaseModel {
            condition: self.condition@,
            name: self.name@,
            notifications: self.notifications.deep_view(),
            status: self.status,
        }
    }
}

impl DeepView for Case {
    type V = CaseModel;

    open spec fn deep_view(&self) -> CaseModel {
        self@
    }
}

impl Case {
    /// The model of the value that `default` gives.
    pub open spec fn default_model() -> CaseModel {
        CaseModel {
            condition: Seq::empty(),
            name: Seq::empty(),
            notifications: Seq::empty(),
            status: Status::default_model(),
        }
    }
}

impl Default for Case {
    fn default() -> (r: Case)
        ensures
            r@ == Case::default_model(),
    {
        Case {
            condition: String::new(),
            name: String::new(),
            notifications: empty_list(),
            status: Status::default(),
        }
    }
}

/// What a filter does with the events that it matches.
#[derive(Debug, Clone, Copy, PartialEq, Eq)]
pub enum Action {
    Require,
    Suppress,
}

impl View for Action {
    type V = Action;

    open spec fn view(&self) -> Action {
        *self
    }
}

impl DeepView for Action {
    type V = Action;

    open spec fn deep_view(&self) -> Action {
        *self
    }
}

impl Action {
    /// The value that `default` gives.
    pub open spec fn default_model() -> Action {
        Action::Require
    }

    /// The name that each variant has on the wire.
    pub open spec fn wire_name(self) -> Seq<char> {
        match self {
            Action::Require => "require"@,
            Action::Suppress => "suppress"@,
        }
    }

    /// The variant that a name on the wire stands for, if it is one of them.
    pub open spec fn from_wire_name(name: Seq<char>) -> Option<Action> {
        if name == "require"@ {
            Some(Action::Require)
        } else if name == "suppress"@ {
            Some(Action::Suppress)
        } else {
            None
        }
    }

    /// Every variant is found again under its own name: no two variants share one.
    pub proof fn lemma_wire_name_round_trip(self)
        ensures
            Self::from_wire_name(self.wire_name()) == Some(self),
    {
        reveal_strlit("require");
        reveal_strlit("suppress");
        assert("require"@.len() == 7);
        assert("suppress"@.len() == 8);
    }

    /// The name of this variant on the wire.
    pub fn as_str(&self) -> (name: &'static str)
        ensures
            name@ == self.wire_name(),
    {
        match self {
            Action::Require => "require",
            Action::Suppress => "suppress",
        }
    }

    /// Finds the variant that a name on the wire stands for.
    pub fn from_name(name: &str) -> (r: Option<Action>)
        ensures
            r == Self::from_wire_name(name@),
    {
        if same_text(name, "require") {
            Some(Action::Require)
        } else if same_text(name, "suppress") {
            Some(Action::Suppress)
        } else {
            None
        }
    }
}

impl Default for Action {
    fn default() -> (r: Action)
        ensures
            r == Action::default_model(),
    {
        Action::Require
    }
}

/// A query that events are held against before the rule sees them.
#[derive(Debug, Clone, PartialEq, Eq)]
pub struct Filter {
    /// What the filter does with the events that it matches.
    pub action: Action,
    /// The query that picks the events.
    pub query: String,
}

/// The model of a `Filter`.
pub ghost struct FilterModel {
    pub action: Action,
    pub query: Seq<char>,
}

impl View for Filter {
    type V = FilterModel;

    open spec fn view(&self) -> FilterModel {
        FilterModel {
            action: self.action,
            query: self.query@,
        }
    }
}

impl DeepView for Filter {
    type V = FilterModel;

    open spec fn deep_view(&self) -> FilterModel {
        self@
    }
}

impl Filter {
    /// The model of the value that `default` gives.
    pub open spec fn default_model() -> FilterModel {
        FilterModel {
            action: Action::default_model(),
            query: Seq::empty(),
        }
    }
}

impl Default for Filter {
    fn default() -> (r: Filter)
        ensures
            r@ == Filter::default_model(),
    {
        Filter {
            action: Action::default(),
            query: String::new(),
        }
    }
}

/// Options of a rule that detects new values.
#[derive(Debug, Clone, Copy, PartialEq, Eq)]
pub struct NewValueOptions {
    /// After how many days a value that was learned is forgotten: 1, 2, 7, 14, 21 or 28.
    pub forget_after: u8,
    /// For how many days values are learned before new ones make signals: 0, 1 or 7.
    pub learning_duration: u8,
}

impl View for NewValueOptions {
    type V = NewValueOptions;

    open spec fn view(&self) -> NewValueOptions {
        *self
    }
}

impl DeepView for NewValueOptions {
    type V = NewValueOptions;

    open spec fn deep_view(&self) -> NewValueOptions {
        self@
    }
}

impl NewValueOptions {
    /// The model of the value that `default` gives.
    pub open spec fn default_model() -> NewValueOptions {
        NewValueOptions {
            forget_after: 0,
            learning_duration: 0,
        }
    }
}

impl Default for NewValueOptions {
    fn default() -> (r: NewValueOptions)
        ensures
            r@ == NewValueOptions::default_model(),
    {
        NewValueOptions {
            forget_after: 0,
            learning_duration: 0,
        }
    }
}

/// How a rule detects.
#[derive(Debug, Clone, Copy, PartialEq, Eq)]
pub enum DetectionMethod {
    Threshold,
    NewValue,
    AnomalyDetection,
}

impl View for DetectionMethod {
    type V = DetectionMethod;

    open spec fn view(&self) -> DetectionMethod {
        *self
    }
}

impl DeepView for DetectionMethod {
    type V = DetectionMethod;

    open spec fn deep_view(&self) -> DetectionMethod {
        *self
    }
}

impl DetectionMethod {
    /// The value that `default` gives.
    pub open spec fn default_model() -> DetectionMethod {
        DetectionMethod::Threshold
    }

    /// The name that each variant has on the wire.
    pub open spec fn wire_name(self) -> Seq<char> {
        match self {
            DetectionMethod::Threshold => "threshold"@,
            DetectionMethod::NewValue => "new_value"@,
            DetectionMethod::AnomalyDetection => "anomaly_detection"@,
        }
    }

    /// The variant that a name on the wire stands for, if it is one of them.
    pub open spec fn from_wire_name(name: Seq<char>) -> Option<DetectionMethod> {
        if name == "threshold"@ {
            Some(DetectionMethod::Threshold)
        } else if name == "new_value"@ {
            Some(DetectionMethod::NewValue)
        } else if name == "anomaly_detection"@ {
            Some(DetectionMethod::AnomalyDetection)
        } else {
            None
        }
    }

    /// Every variant is found again under its own name: no two variants share one.
    pub proof fn lemma_wire_name_round_trip(self)
        ensures
            Self::from_wire_name(self.wire_name()) == Some(self),
    {
        reveal_strlit("threshold");
        reveal_strlit("new_value");
        reveal_strlit("anomaly_detection");
        assert("threshold"@.len() == 9);
        assert("new_value"@.len() == 9);
        assert("anomaly_detection"@.len() == 17);
        assert("threshold"@[0] == 't');
        assert("new_value"@[0] == 'n');
    }

    /// The name of this variant on the wire.
    pub fn as_str(&self) -> (name: &'static str)
        ensures
            name@ == self.wire_name(),
    {
        match self {
            DetectionMethod::Threshold => "threshold",
            DetectionMethod::NewValue => "new_value",
            DetectionMethod::AnomalyDetection => "anomaly_detection",
        }
    }

    /// Finds the variant that a name on the wire stands for.
    pub fn from_name(name: &str) -> (r: Option<DetectionMethod>)
        ensures
            r == Self::from_wire_name(name@),
    {
        if same_text(name, "threshold") {
            Some(DetectionMethod::Threshold)
        } else if same_text(name, "new_value") {
            Some(DetectionMethod::NewValue)
        } else if same_text(name, "anomaly_detection") {
            Some(DetectionMethod::AnomalyDetection)
        } else {
            None
        }
    }
}

impl Default for DetectionMethod {
    fn default() -> (r: DetectionMethod)
        ensures
            r == DetectionMethod::default_model(),
    {
        DetectionMethod::Threshold
    }
}

/// Options of a rule.
#[derive(Debug, Clone, Copy, PartialEq, Eq)]
pub struct Options {
    /// How the rule detects.
    pub detection_method: DetectionMethod,
    /// The length in seconds of the sliding window in which a case has to hold.
    pub evaluation_window: u16,
    /// For how many seconds a signal stays open after the last match.
    pub keep_alive: u16,
    /// After how many seconds a signal is closed, whatever matches.
    pub max_signal_duration: u32,
    /// Options of a rule that detects new values.
    pub new_value_options: NewValueOptions,
}

impl View for Options {
    type V = Options;

    open spec fn view(&self) -> Options {
        *self
    }
}

impl DeepView for Options {
    type V = Options;

    open spec fn deep_view(&self) -> Options {
        self@
    }
}

impl Options {
    /// The model of the value that `default` gives.
    pub open spec fn default_model() -> Options {
        Options {
            detection_method: DetectionMethod::default_model(),
            evaluation_window: 0,
            keep_alive: 0,
            max_signal_duration: 0,
            new_value_options: NewValueOptions::default_model(),
        }
    }
}

impl Default for Options {
    fn default() -> (r: Options)
        ensures
            r@ == Options::default_model(),
    {
        Options {
            detection_method: DetectionMethod::default(),
            evaluation_window: 0,
            keep_alive: 0,
            max_signal_duration: 0,
            new_value_options: NewValueOptions::default(),
        }
    }
}

/// A rule that the agent runs.
#[derive(Debug, Clone, PartialEq, Eq)]
pub struct AgentRule {
    /// ID of the agent rule.
    pub agent_rule_id: Option<String>,
    /// The expression that says which activity the agent collects.
    pub expression: Option<String>,
}

/// The model of an `AgentRule`.
pub ghost struct AgentRuleModel {
    pub agent_rule_id: Option<Seq<char>>,
    pub expression: Option<Seq<char>>,
}

impl View for AgentRule {
    type V = AgentRuleModel;

    open spec fn view(&self) -> AgentRuleModel {
        AgentRuleModel {
            agent_rule_id: self.agent_rule_id.deep_view(),
            expression: self.expression.deep_view(),
        }
    }
}

impl DeepView for AgentRule {
    type V = AgentRuleModel;

    open spec fn deep_view(&self) -> AgentRuleModel {
        self@
    }
}

impl AgentRule {
    /// The model of the value that `default` gives.
    pub open spec fn default_model() -> AgentRuleModel {
        AgentRuleModel {
            agent_rule_id: None,
            expression: None,
        }
    }
}

impl Default for AgentRule {
    fn default() -> (r: AgentRule)
        ensures
            r@ == AgentRule::default_model(),
    {
        AgentRule {
            agent_rule_id: None,
            expression: None,
        }
    }
}

/// How the events of a query are counted.
#[derive(Debug, Clone, Copy, PartialEq, Eq)]
pub enum Aggregation {
    Count,
    Cardinality,
    Sum,
    Max,
    NewValue,
}

impl View for Aggregation {
    type V = Aggregation;

    open spec fn view(&self) -> Aggregation {
        *self
    }
}

impl DeepView for Aggregation {
    type V = Aggregation;

    open spec fn deep_view(&self) -> Aggregation {
        *self
    }
}

impl Aggregation {
    /// The value that `default` gives.
    pub open spec fn default_model() -> Aggregation {
        Aggregation::Count
    }

    /// The name that each variant has on the wire.
    pub open spec fn wire_name(self) -> Seq<char> {
        match self {
            Aggregation::Count => "count"@,
            Aggregation::Cardinality => "cardinality"@,
            Aggregation::Sum => "sum"@,
            Aggregation::Max => "max"@,
            Aggregation::NewValue => "new_value"@,
        }
    }

    /// The variant that a name on the wire stands for, if it is one of them.
    pub open spec fn from_wire_name(name: Seq<char>) -> Option<Aggregation> {
        if name == "count"@ {
            Some(Aggregation::Count)
        } else if name == "cardinality"@ {
            Some(Aggregation::Cardinality)
        } else if name == "sum"@ {
            Some(Aggregation::Sum)
        } else if name == "max"@ {
            Some(Aggregation::Max)
        } else if name == "new_value"@ {
            Some(Aggregation::NewValue)
        } else {
            None
        }
    }

    /// Every variant is found again under its own name: no two variants share one.
    pub proof fn lemma_wire_name_round_trip(self)
        ensures
            Self::from_wire_name(self.wire_name()) == Some(self),
    {
        reveal_strlit("count");
        reveal_strlit("cardinality");
        reveal_strlit("sum");
        reveal_strlit("max");
        reveal_strlit("new_value");
        assert("count"@.len() == 5);
        assert("cardinality"@.len() == 11);
        assert("sum"@.len() == 3);
        assert("max"@.len() == 3);
        assert("new_value"@.len() == 9);
        assert("sum"@[0] == 's');
        assert("max"@[0] == 'm');
    }

    /// The name of this variant on the wire.
    pub fn as_str(&self) -> (name: &'static str)
        ensures
            name@ == self.wire_name(),
    {
        match self {
            Aggregation::Count => "count",
            Aggregation::Cardinality => "cardinality",
            Aggregation::Sum => "sum",
            Aggregation::Max => "max",
            Aggregation::NewValue => "new_value",
        }
    }

    /// Finds the variant that a name on the wire stands for.
    pub fn from_name(name: &str) -> (r: Option<Aggregation>)
        ensures
            r == Self::from_wire_name(name@),
    {
        if same_text(name, "count") {
            Some(Aggregation::Count)
        } else if same_text(name, "cardinality") {
            Some(Aggregation::Cardinality)
        } else if same_text(name, "sum") {
            Some(Aggregation::Sum)
        } else if same_text(name, "max") {
            Some(Aggregation::Max)
        } else if same_text(name, "new_value") {
            Some(Aggregation::NewValue)
        } else {
            None
        }
    }
}

impl Default for Aggregation {
    fn default() -> (r: Aggregation)
        ensures
            r == Aggregation::default_model(),
    {
        Aggregation::Count
    }
}

/// One query of a rule.
#[derive(Debug, Clone, PartialEq, Eq)]
pub struct Query {
    /// The agent rule of the query.
    pub agent_rule: Option<AgentRule>,
    /// How the events are counted.
    pub aggregation: Aggregation,
    /// The fields whose distinct values are counted.
    pub distinct_fields: Vec<String>,
    /// The fields to group by.
    pub group_by_fields: Vec<String>,
    /// The field that a sum or a maximum is taken of.
    pub metric: Option<String>,
    /// Name of the query.
    pub name: String,
    /// The query that picks the logs.
    pub query: String,
}

/// The model of a `Query`.
pub ghost struct QueryModel {
    pub agent_rule: Option<AgentRuleModel>,
    pub aggregation: Aggregation,
    pub distinct_fields: Seq<Seq<char>>,
    pub group_by_fields: Seq<Seq<char>>,
    pub metric: Option<Seq<char>>,
    pub name: Seq<char>,
    pub query: Seq<char>,
}

impl View for Query {
    type V = QueryModel;

    open spec fn view(&self) -> QueryModel {
        QueryModel {
            agent_rule: self.agent_rule.deep_view(),
            aggregation: self.aggregation,
            distinct_fields: self.distinct_fields.deep_view(),
            group_by_fields: self.group_by_fields.deep_view(),
            metric: self.metric.deep_view(),
            name: self.name@,
            query: self.query@,
        }
    }
}

impl DeepView for Query {
    type V = QueryModel;

    open spec fn deep_view(&self) -> QueryModel {
        self@
    }
}

impl Query {
    /// The model of the value that `default` gives.
    pub open spec fn default_model() -> QueryModel {
        QueryModel {
            agent_rule: None,
            aggregation: Aggregation::default_model(),
            distinct_fields: Seq::empty(),
            group_by_fields: Seq::empty(),
            metric: None,
            name: Seq::empty(),
            query: Seq::empty(),
        }
    }
}

impl Default for Query {
    fn default() -> (r: Query)
        ensures
            r@ == Query::default_model(),
    {
        Query {
            agent_rule: None,
            aggregation: Aggregation::default(),
            distinct_fields: empty_list(),
            group_by_fields: empty_list(),
            metric: None,
            name: String::new(),
            query: String::new(),
        }
    }
}

/// One detection rule.
#[derive(Debug, Clone, PartialEq, Eq)]
pub struct Data {
    /// The cases of the rule.
    pub cases: Vec<Case>,
    /// When the rule was made, in milliseconds.
    pub created_at: i64,
    /// ID of the user who made the rule.
    pub creation_author_id: i64,
    /// The filters of the rule.
    pub filters: Vec<Filter>,
    /// Whether the title of a notification names the values that were grouped by.
    pub has_extended_title: bool,
    /// ID of the rule.
    pub id: String,
    /// Whether the rule is there from the start.
    pub is_default: bool,
    /// Whether the rule was deleted.
    pub is_deleted: bool,
    /// Whether the rule is switched on.
    pub is_enabled: bool,
    /// The message of the signals.
    pub message: String,
    /// Name of the rule.
    pub name: String,
    /// Options of the rule.
    pub options: Options,
    /// The queries of the rule.
    pub queries: Vec<Query>,
    /// The tags of the signals.
    pub tags: Vec<String>,
    /// ID of the user who changed the rule last.
    pub update_author_id: i64,
    /// Version of the rule.
    pub version: i64,
}

/// The model of a `Data`.
pub ghost struct DataModel {
    pub cases: Seq<CaseModel>,
    pub created_at: i64,
    pub creation_author_id: i64,
    pub filters: Seq<FilterModel>,
    pub has_extended_title: bool,
    pub id: Seq<char>,
    pub is_default: bool,
    pub is_deleted: bool,
    pub is_enabled: bool,
    pub message: Seq<char>,
    pub name: Seq<char>,
    pub options: Options,
    pub queries: Seq<QueryModel>,
    pub tags: Seq<Seq<char>>,
    pub update_author_id: i64,
    pub version: i64,
}

impl View for Data {
    type V = DataModel;

    open spec fn view(&self) -> DataModel {
        DataModel {
            cases: self.cases.deep_view(),
            created_at: self.created_at,
            creation_author_id: self.creation_author_id,
            filters: self.filters.deep_view(),
            has_extended_title: self.has_extended_title,
            id: self.id@,
            is_default: self.is_default,
            is_deleted: self.is_deleted,
            is_enabled: self.is_enabled,
            message: self.message@,
            name: self.name@,
            options: self.options,
            queries: self.queries.deep_view(),
            tags: self.tags.deep_view(),
            update_author_id: self.update_author_id,
            version: self.version,
        }
    }
}

impl DeepView for Data {
    type V = DataModel;

    open spec fn deep_view(&self) -> DataModel {
        self@
    }
}

impl Data {
    /// The model of the value that `default` gives.
    pub open spec fn default_model() -> DataModel {
        DataModel {
            cases: Seq::empty(),
            created_at: 0,
            creation_author_id: 0,
            filters: Seq::empty(),
            has_extended_title: false,
            id: Seq::empty(),
            is_default: false,
            is_deleted: false,
            is_enabled: false,
            message: Seq::empty(),
            name: Seq::empty(),
            options: Options::default_model(),
            queries: Seq::empty(),
            tags: Seq::empty(),
            update_author_id: 0,
            version: 0,
        }
    }
}

impl Default for Data {
    fn default() -> (r: Data)
        ensures
            r@ == Data::default_model(),
    {
        Data {
            cases: empty_list(),
            created_at: 0,
            creation_author_id: 0,
            filters: empty_list(),
            has_extended_title: false,
            id: String::new(),
            is_default: false,
            is_deleted: false,
            is_enabled: false,
            message: String::new(),
            name: String::new(),
            options: Options::default(),
            queries: empty_list(),
            tags: empty_list(),
            update_author_id: 0,
            version: 0,
        }
    }
}

/// Counts of the rules.
#[derive(Debug, Clone, Copy, PartialEq, Eq)]
pub struct MetaPage {
    /// How many rules there are.
    pub total_count: i64,
    /// How many rules match the filter.
    pub total_filtered_count: i64,
}

impl View for MetaPage {
    type V = MetaPage;

    open spec fn view(&self) -> MetaPage {
        *self
    }
}

impl DeepView for MetaPage {
    type V = MetaPage;

    open spec fn deep_view(&self) -> MetaPage {
        self@
    }
}

impl MetaPage {
    /// The model of the value that `default` gives.
    pub open spec fn default_model() -> MetaPage {
        MetaPage {
            total_count: 0,
            total_filtered_count: 0,
        }
    }
}

impl Default for MetaPage {
    fn default() -> (r: MetaPage)
        ensures
            r@ == MetaPage::default_model(),
    {
        MetaPage {
            total_count: 0,
            total_filtered_count: 0,
        }
    }
}

/// What the API says about a list of rules.
#[derive(Debug, Clone, Copy, PartialEq, Eq)]
pub struct Meta {
    /// Counts of the rules.
    pub page: Option<MetaPage>,
}

impl View for Meta {
    type V = Meta;

    open spec fn view(&self) -> Meta {
        *self
    }
}

impl DeepView for Meta {
    type V = Meta;

    open spec fn deep_view(&self) -> Meta {
        self@
    }
}

impl Meta {
    /// The model of the value that `default` gives.
    pub open spec fn default_model() -> Meta {
        Meta {
            page: None,
        }
    }
}

impl Default for Meta {
    fn default() -> (r: Meta)
        ensures
            r@ == Meta::default_model(),
    {
        Meta {
            page: None,
        }
    }
}

/// One page of the detection rules.
#[derive(Debug, Clone, PartialEq, Eq)]
pub struct ListRulesResponse {
    /// The rules.
    pub data: Vec<Data>,
    /// What the API says about the list.
    pub meta: Meta,
}

/// The model of a `ListRulesResponse`.
pub ghost struct ListRulesResponseModel {
    pub data: Seq<DataModel>,
    pub meta: Meta,
}

impl View for ListRulesResponse {
    type V = ListRulesResponseModel;

    open spec fn view(&self) -> ListRulesResponseModel {
        ListRulesResponseModel {
            data: self.data.deep_view(),
            meta: self.meta,
        }
    }
}

impl DeepView for ListRulesResponse {
    type V = ListRulesResponseModel;

    open spec fn deep_view(&self) -> ListRulesResponseModel {
        self@
    }
}

impl ListRulesResponse {
    /// The model of the value that `default` gives.
    pub open spec fn default_model() -> ListRulesResponseModel {
        ListRulesResponseModel {
            data: Seq::empty(),
            meta: Meta::default_model(),
        }
    }
}

impl Default for ListRulesResponse {
    fn default() -> (r: ListRulesResponse)
        ensures
            r@ == ListRulesResponse::default_model(),
    {
        ListRulesResponse {
            data: empty_list(),
            meta: Meta::default(),
        }
    }
}

} // verus!
