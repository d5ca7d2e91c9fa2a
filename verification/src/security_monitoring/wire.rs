//! How the values of `security_monitoring` are written as JSON and read from it.
use crate::json::{
    entry, field_or, group_member_lookup, members_view, no_members, put, read_list, read_or,
    FromJson, Json, JsonValue, RoundTrip, ToJson,
};
use crate::security_monitoring::{
    Action, AgentRule, AgentRuleModel, Aggregation, Case, CaseModel, Data, DataModel,
    DetectionMethod, Filter, FilterModel, ListRulesResponse, ListRulesResponseModel, Meta, MetaPage,
    NewValueOptions, Options, Query, QueryModel, Status,
};
use vstd::prelude::*;

verus! {

impl FromJson for Status {
    open spec fn decoded(value: Json) -> Option<Status> {
        match value {
            Json::String(name) => Self::from_wire_name(name),
            _ => None,
        }
    }

    fn from_json(value: &JsonValue) -> (r: Option<Status>) {
        match value {
            JsonValue::String(name) => Self::from_name(name.as_str()),
            _ => None,
        }
    }
}

impl ToJson for Status {
    open spec fn encoded(model: Status) -> Json {
        Json::String(model.wire_name())
    }

    fn to_json(&self) -> (r: JsonValue) {
        JsonValue::String(String::from_str(self.as_str()))
    }
}

impl RoundTrip for Status {
    proof fn lemma_round_trip(model: Status) {
        model.lemma_wire_name_round_trip();
    }
}

impl FromJson for Case {
    open spec fn decoded(value: Json) -> Option<CaseModel> {
        match value {
            Json::Object(members) => {
                let condition = field_or::<String>(members, "condition"@, Seq::empty());
                let name = field_or::<String>(members, "name"@, Seq::empty());
                let notifications = field_or::<Vec<String>>(
                    members,
                    "notifications"@,
                    Seq::empty(),
                );
                let status = field_or::<Status>(members, "status"@, Status::default_model());
                if condition is Some && name is Some && notifications is Some && status is Some {
                    Some(
                        CaseModel {
                            condition: condition->0,
                            name: name->0,
                            notifications: notifications->0,
                            status: status->0,
                        },
                    )
                } else {
                    None
                }
            },
            _ => None,
        }
    }

    fn from_json(value: &JsonValue) -> (r: Option<Case>) {
        match value {
            JsonValue::Object(members) => {
                let condition = read_or::<String>(members, "condition", String::new())?;
                let name = read_or::<String>(members, "name", String::new())?;
                let notifications = read_list::<String>(members, "notifications")?;
                let status = read_or::<Status>(members, "status", Status::default())?;
                Some(Case { condition, name, notifications, status })
            },
            _ => None,
        }
    }
}

impl ToJson for Case {
    open spec fn encoded(model: CaseModel) -> Json {
        Json::Object(
            entry::<String>("condition"@, model.condition)
                + entry::<String>("name"@, model.name)
                + entry::<Vec<String>>("notifications"@, model.notifications)
                + entry::<Status>("status"@, model.status),
        )
    }

    fn to_json(&self) -> (r: JsonValue) {
        let mut members = no_members();
        put::<String>(&mut members, "condition", &self.condition);
        put::<String>(&mut members, "name", &self.name);
        put::<Vec<String>>(&mut members, "notifications", &self.notifications);
        put::<Status>(&mut members, "status", &self.status);
        proof {
            assert(members_view(members@) =~= Self::encoded(self@)->Object_0);
        }
        JsonValue::Object(members)
    }
}

impl RoundTrip for Case {
    proof fn lemma_round_trip(model: CaseModel) {
        reveal_strlit("condition");
        reveal_strlit("name");
        reveal_strlit("notifications");
        reveal_strlit("status");
        assert("condition"@.len() == 9);
        assert("name"@.len() == 4);
        assert("notifications"@.len() == 13);
        assert("status"@.len() == 6);
        let members = Self::encoded(model)->Object_0;
        assert(field_or::<String>(members, "condition"@, Seq::empty()) == Some(
            model.condition,
        )) by {
            broadcast use group_member_lookup;
        }
        assert(field_or::<String>(members, "name"@, Seq::empty()) == Some(model.name)) by {
            broadcast use group_member_lookup;
        }
        assert(field_or::<Vec<String>>(members, "notifications"@, Seq::empty()) == Some(
            model.notifications,
        )) by {
            broadcast use group_member_lookup;
            Vec::<String>::lemma_round_trip(model.notifications);
        }
        assert(field_or::<Status>(members, "status"@, Status::default_model()) == Some(
            model.status,
        )) by {
            broadcast use group_member_lookup;
            Status::lemma_round_trip(model.status);
        }
    }
}

impl FromJson for Action {
    open spec fn decoded(value: Json) -> Option<Action> {
        match value {
            Json::String(name) => Self::from_wire_name(name),
            _ => None,
        }
    }

    fn from_json(value: &JsonValue) -> (r: Option<Action>) {
        match value {
            JsonValue::String(name) => Self::from_name(name.as_str()),
            _ => None,
        }
    }
}

impl ToJson for Action {
    open spec fn encoded(model: Action) -> Json {
        Json::String(model.wire_name())
    }

    fn to_json(&self) -> (r: JsonValue) {
        JsonValue::String(String::from_str(self.as_str()))
    }
}

impl RoundTrip for Action {
    proof fn lemma_round_trip(model: Action) {
        model.lemma_wire_name_round_trip();
    }
}

impl FromJson for Filter {
    open spec fn decoded(value: Json) -> Option<FilterModel> {
        match value {
            Json::Object(members) => {
                let action = field_or::<Action>(members, "action"@, Action::default_model());
                let query = field_or::<String>(members, "query"@, Seq::empty());
                if action is Some && query is Some {
                    Some(
                        FilterModel {
                            action: action->0,
                            query: query->0,
                        },
                    )
                } else {
                    None
                }
            },
            _ => None,
        }
    }

    fn from_json(value: &JsonValue) -> (r: Option<Filter>) {
        match value {
            JsonValue::Object(members) => {
                let action = read_or::<Action>(members, "action", Action::default())?;
                let query = read_or::<String>(members, "query", String::new())?;
                Some(Filter { action, query })
            },
            _ => None,
        }
    }
}

impl ToJson for Filter {
    open spec fn encoded(model: FilterModel) -> Json {
        Json::Object(
            entry::<Action>("action"@, model.action)
                + entry::<String>("query"@, model.query),
        )
    }

    fn to_json(&self) -> (r: JsonValue) {
        let mut members = no_members();
        put::<Action>(&mut members, "action", &self.action);
        put::<String>(&mut members, "query", &self.query);
        proof {
            assert(members_view(members@) =~= Self::encoded(self@)->Object_0);
        }
        JsonValue::Object(members)
    }
}

impl RoundTrip for Filter {
    proof fn lemma_round_trip(model: FilterModel) {
        reveal_strlit("action");
        reveal_strlit("query");
        assert("action"@.len() == 6);
        assert("query"@.len() == 5);
        let members = Self::encoded(model)->Object_0;
        assert(field_or::<Action>(members, "action"@, Action::default_model()) == Some(
            model.action,
        )) by {
            broadcast use group_member_lookup;
            Action::lemma_round_trip(model.action);
        }
        assert(field_or::<String>(members, "query"@, Seq::empty()) == Some(model.query)) by {
            broadcast use group_member_lookup;
        }
    }
}

impl FromJson for NewValueOptions {
    open spec fn decoded(value: Json) -> Option<NewValueOptions> {
        match value {
            Json::Object(members) => {
                let forget_after = field_or::<u8>(members, "forgetAfter"@, 0);
                let learning_duration = field_or::<u8>(members, "learningDuration"@, 0);
                if forget_after is Some && learning_duration is Some {
                    Some(
                        NewValueOptions {
                            forget_after: forget_after->0,
                            learning_duration: learning_duration->0,
                        },
                    )
                } else {
                    None
                }
            },
            _ => None,
        }
    }

    fn from_json(value: &JsonValue) -> (r: Option<NewValueOptions>) {
        match value {
            JsonValue::Object(members) => {
                let forget_after = read_or::<u8>(members, "forgetAfter", 0)?;
                let learning_duration = read_or::<u8>(members, "learningDuration", 0)?;
                Some(NewValueOptions { forget_after, learning_duration })
            },
            _ => None,
        }
    }
}

impl ToJson for NewValueOptions {
    open spec fn encoded(model: NewValueOptions) -> Json {
        Json::Object(
            entry::<u8>("forgetAfter"@, model.forget_after)
                + entry::<u8>("learningDuration"@, model.learning_duration),
        )
    }

    fn to_json(&self) -> (r: JsonValue) {
        let mut members = no_members();
        put::<u8>(&mut members, "forgetAfter", &self.forget_after);
        put::<u8>(&mut members, "learningDuration", &self.learning_duration);
        proof {
            assert(members_view(members@) =~= Self::encoded(self@)->Object_0);
        }
        JsonValue::Object(members)
    }
}

impl RoundTrip for NewValueOptions {
    proof fn lemma_round_trip(model: NewValueOptions) {
        reveal_strlit("forgetAfter");
        reveal_strlit("learningDuration");
        assert("forgetAfter"@.len() == 11);
        assert("learningDuration"@.len() == 16);
        let members = Self::encoded(model)->Object_0;
        assert(field_or::<u8>(members, "forgetAfter"@, 0) == Some(model.forget_after)) by {
            broadcast use group_member_lookup;
        }
        assert(field_or::<u8>(members, "learningDuration"@, 0) == Some(
            model.learning_duration,
        )) by {
            broadcast use group_member_lookup;
        }
    }
}

impl FromJson for DetectionMethod {
    open spec fn decoded(value: Json) -> Option<DetectionMethod> {
        match value {
            Json::String(name) => Self::from_wire_name(name),
            _ => None,
        }
    }

    fn from_json(value: &JsonValue) -> (r: Option<DetectionMethod>) {
        match value {
            JsonValue::String(name) => Self::from_name(name.as_str()),
            _ => None,
        }
    }
}

impl ToJson for DetectionMethod {
    open spec fn encoded(model: DetectionMethod) -> Json {
        Json::String(model.wire_name())
    }

    fn to_json(&self) -> (r: JsonValue) {
        JsonValue::String(String::from_str(self.as_str()))
    }
}

impl RoundTrip for DetectionMethod {
    proof fn lemma_round_trip(model: DetectionMethod) {
        model.lemma_wire_name_round_trip();
    }
}

impl FromJson for Options {
    open spec fn decoded(value: Json) -> Option<Options> {
        match value {
            Json::Object(members) => {
                let detection_method = field_or::<DetectionMethod>(
                    members,
                    "detectionMethod"@,
                    DetectionMethod::default_model(),
                );
                let evaluation_window = field_or::<u16>(members, "evaluationWindow"@, 0);
                let keep_alive = field_or::<u16>(members, "keepAlive"@, 0);
                let max_signal_duration = field_or::<u32>(members, "maxSignalDuration"@, 0);
                let new_value_options = field_or::<NewValueOptions>(
                    members,
                    "newValueOptions"@,
                    NewValueOptions::default_model(),
                );
                if detection_method is Some
                    && evaluation_window is Some
                    && keep_alive is Some
                    && max_signal_duration is Some
                    && new_value_options is Some {
                    Some(
                        Options {
                            detection_method: detection_method->0,
                            evaluation_window: evaluation_window->0,
                            keep_alive: keep_alive->0,
                            max_signal_duration: max_signal_duration->0,
                            new_value_options: new_value_options->0,
                        },
                    )
                } else {
                    None
                }
            },
            _ => None,
        }
    }

    fn from_json(value: &JsonValue) -> (r: Option<Options>) {
        match value {
            JsonValue::Object(members) => {
                let detection_method = read_or::<DetectionMethod>(
                    members,
                    "detectionMethod",
                    DetectionMethod::default(),
                )?;
                let evaluation_window = read_or::<u16>(members, "evaluationWindow", 0)?;
                let keep_alive = read_or::<u16>(members, "keepAlive", 0)?;
                let max_signal_duration = read_or::<u32>(members, "maxSignalDuration", 0)?;
                let new_value_options = read_or::<NewValueOptions>(
                    members,
                    "newValueOptions",
                    NewValueOptions::default(),
                )?;
                Some(
                    Options {
                        detection_method,
                        evaluation_window,
                        keep_alive,
                        max_signal_duration,
                        new_value_options,
                    },
                )
            },
            _ => None,
        }
    }
}

impl ToJson for Options {
    open spec fn encoded(model: Options) -> Json {
        Json::Object(
            entry::<DetectionMethod>("detectionMethod"@, model.detection_method)
                + entry::<u16>("evaluationWindow"@, model.evaluation_window)
                + entry::<u16>("keepAlive"@, model.keep_alive)
                + entry::<u32>("maxSignalDuration"@, model.max_signal_duration)
                + entry::<NewValueOptions>("newValueOptions"@, model.new_value_options),
        )
    }

    fn to_json(&self) -> (r: JsonValue) {
        let mut members = no_members();
        put::<DetectionMethod>(&mut members, "detectionMethod", &self.detection_method);
        put::<u16>(&mut members, "evaluationWindow", &self.evaluation_window);
        put::<u16>(&mut members, "keepAlive", &self.keep_alive);
        put::<u32>(&mut members, "maxSignalDuration", &self.max_signal_duration);
        put::<NewValueOptions>(&mut members, "newValueOptions", &self.new_value_options);
        proof {
            assert(members_view(members@) =~= Self::encoded(self@)->Object_0);
        }
        JsonValue::Object(members)
    }
}

impl RoundTrip for Options {
    proof fn lemma_round_trip(model: Options) {
        reveal_strlit("detectionMethod");
        reveal_strlit("evaluationWindow");
        reveal_strlit("keepAlive");
        reveal_strlit("maxSignalDuration");
        reveal_strlit("newValueOptions");
        assert("detectionMethod"@.len() == 15);
        assert("evaluationWindow"@.len() == 16);
        assert("keepAlive"@.len() == 9);
        assert("maxSignalDuration"@.len() == 17);
        assert("newValueOptions"@.len() == 15);
        assert("detectionMethod"@[0] == 'd');
        assert("newValueOptions"@[0] == 'n');
        let members = Self::encoded(model)->Object_0;
        assert(field_or::<DetectionMethod>(
            members,
            "detectionMethod"@,
            DetectionMethod::default_model(),
        ) == Some(model.detection_method)) by {
            broadcast use group_member_lookup;
            DetectionMethod::lemma_round_trip(model.detection_method);
        }
        assert(field_or::<u16>(members, "evaluationWindow"@, 0) == Some(
            model.evaluation_window,
        )) by {
            broadcast use group_member_lookup;
        }
        assert(field_or::<u16>(members, "keepAlive"@, 0) == Some(model.keep_alive)) by {
            broadcast use group_member_lookup;
        }
        assert(field_or::<u32>(members, "maxSignalDuration"@, 0) == Some(
            model.max_signal_duration,
        )) by {
            broadcast use group_member_lookup;
        }
        assert(field_or::<NewValueOptions>(
            members,
            "newValueOptions"@,
            NewValueOptions::default_model(),
        ) == Some(model.new_value_options)) by {
            broadcast use group_member_lookup;
            NewValueOptions::lemma_round_trip(model.new_value_options);
        }
    }
}

impl FromJson for AgentRule {
    open spec fn decoded(value: Json) -> Option<AgentRuleModel> {
        match value {
            Json::Object(members) => {
                let agent_rule_id = field_or::<Option<String>>(members, "agentRuleId"@, None);
                let expression = field_or::<Option<String>>(members, "expression"@, None);
                if agent_rule_id is Some && expression is Some {
                    Some(
                        AgentRuleModel {
                            agent_rule_id: agent_rule_id->0,
                            expression: expression->0,
                        },
                    )
                } else {
                    None
                }
            },
            _ => None,
        }
    }

    fn from_json(value: &JsonValue) -> (r: Option<AgentRule>) {
        match value {
            JsonValue::Object(members) => {
                let agent_rule_id = read_or::<Option<String>>(members, "agentRuleId", None)?;
                let expression = read_or::<Option<String>>(members, "expression", None)?;
                Some(AgentRule { agent_rule_id, expression })
            },
            _ => None,
        }
    }
}

impl ToJson for AgentRule {
    open spec fn encoded(model: AgentRuleModel) -> Json {
        Json::Object(
            entry::<Option<String>>("agentRuleId"@, model.agent_rule_id)
                + entry::<Option<String>>("expression"@, model.expression),
        )
    }

    fn to_json(&self) -> (r: JsonValue) {
        let mut members = no_members();
        put::<Option<String>>(&mut members, "agentRuleId", &self.agent_rule_id);
        put::<Option<String>>(&mut members, "expression", &self.expression);
        proof {
            assert(members_view(members@) =~= Self::encoded(self@)->Object_0);
        }
        JsonValue::Object(members)
    }
}

impl RoundTrip for AgentRule {
    proof fn lemma_round_trip(model: AgentRuleModel) {
        reveal_strlit("agentRuleId");
        reveal_strlit("expression");
        assert("agentRuleId"@.len() == 11);
        assert("expression"@.len() == 10);
        let members = Self::encoded(model)->Object_0;
        assert(field_or::<Option<String>>(members, "agentRuleId"@, None) == Some(
            model.agent_rule_id,
        )) by {
            broadcast use group_member_lookup;
        }
        assert(field_or::<Option<String>>(members, "expression"@, None) == Some(
            model.expression,
        )) by {
            broadcast use group_member_lookup;
        }
    }
}

impl FromJson for Aggregation {
    open spec fn decoded(value: Json) -> Option<Aggregation> {
        match value {
            Json::String(name) => Self::from_wire_name(name),
            _ => None,
        }
    }

    fn from_json(value: &JsonValue) -> (r: Option<Aggregation>) {
        match value {
            JsonValue::String(name) => Self::from_name(name.as_str()),
            _ => None,
        }
    }
}

impl ToJson for Aggregation {
    open spec fn encoded(model: Aggregation) -> Json {
        Json::String(model.wire_name())
    }

    fn to_json(&self) -> (r: JsonValue) {
        JsonValue::String(String::from_str(self.as_str()))
    }
}

impl RoundTrip for Aggregation {
    proof fn lemma_round_trip(model: Aggregation) {
        model.lemma_wire_name_round_trip();
    }
}

impl FromJson for Query {
    open spec fn decoded(value: Json) -> Option<QueryModel> {
        match value {
            Json::Object(members) => {
                let agent_rule = field_or::<Option<AgentRule>>(members, "agentRule"@, None);
                let aggregation = field_or::<Aggregation>(
                    members,
                    "aggregation"@,
                    Aggregation::default_model(),
                );
                let distinct_fields = field_or::<Vec<String>>(
                    members,
                    "distinctFields"@,
                    Seq::empty(),
                );
                let group_by_fields = field_or::<Vec<String>>(
                    members,
                    "groupByFields"@,
                    Seq::empty(),
                );
                let metric = field_or::<Option<String>>(members, "metric"@, None);
                let name = field_or::<String>(members, "name"@, Seq::empty());
                let query = field_or::<String>(members, "query"@, Seq::empty());
                if agent_rule is Some
                    && aggregation is Some
                    && distinct_fields is Some
                    && group_by_fields is Some
                    && metric is Some
                    && name is Some
                    && query is Some {
                    Some(
                        QueryModel {
                            agent_rule: agent_rule->0,
                            aggregation: aggregation->0,
                            distinct_fields: distinct_fields->0,
                            group_by_fields: group_by_fields->0,
                            metric: metric->0,
                            name: name->0,
                            query: query->0,
                        },
                    )
                } else {
                    None
                }
            },
            _ => None,
        }
    }

    fn from_json(value: &JsonValue) -> (r: Option<Query>) {
        match value {
            JsonValue::Object(members) => {
                let agent_rule = read_or::<Option<AgentRule>>(members, "agentRule", None)?;
                let aggregation = read_or::<Aggregation>(
                    members,
                    "aggregation",
                    Aggregation::default(),
                )?;
                let distinct_fields = read_list::<String>(members, "distinctFields")?;
                let group_by_fields = read_list::<String>(members, "groupByFields")?;
                let metric = read_or::<Option<String>>(members, "metric", None)?;
                let name = read_or::<String>(members, "name", String::new())?;
                let query = read_or::<String>(members, "query", String::new())?;
                Some(
                    Query {
                        agent_rule,
                        aggregation,
                        distinct_fields,
                        group_by_fields,
                        metric,
                        name,
                        query,
                    },
                )
            },
            _ => None,
        }
    }
}

impl ToJson for Query {
    open spec fn encoded(model: QueryModel) -> Json {
        Json::Object(
            entry::<Option<AgentRule>>("agentRule"@, model.agent_rule)
                + entry::<Aggregation>("aggregation"@, model.aggregation)
                + entry::<Vec<String>>("distinctFields"@, model.distinct_fields)
                + entry::<Vec<String>>("groupByFields"@, model.group_by_fields)
                + entry::<Option<String>>("metric"@, model.metric)
                + entry::<String>("name"@, model.name)
                + entry::<String>("query"@, model.query),
        )
    }

    fn to_json(&self) -> (r: JsonValue) {
        let mut members = no_members();
        put::<Option<AgentRule>>(&mut members, "agentRule", &self.agent_rule);
        put::<Aggregation>(&mut members, "aggregation", &self.aggregation);
        put::<Vec<String>>(&mut members, "distinctFields", &self.distinct_fields);
        put::<Vec<String>>(&mut members, "groupByFields", &self.group_by_fields);
        put::<Option<String>>(&mut members, "metric", &self.metric);
        put::<String>(&mut members, "name", &self.name);
        put::<String>(&mut members, "query", &self.query);
        proof {
            assert(members_view(members@) =~= Self::encoded(self@)->Object_0);
        }
        JsonValue::Object(members)
    }
}

impl RoundTrip for Query {
    proof fn lemma_round_trip(model: QueryModel) {
        reveal_strlit("agentRule");
        reveal_strlit("aggregation");
        reveal_strlit("distinctFields");
        reveal_strlit("groupByFields");
        reveal_strlit("metric");
        reveal_strlit("name");
        reveal_strlit("query");
        assert("agentRule"@.len() == 9);
        assert("aggregation"@.len() == 11);
        assert("distinctFields"@.len() == 14);
        assert("groupByFields"@.len() == 13);
        assert("metric"@.len() == 6);
        assert("name"@.len() == 4);
        assert("query"@.len() == 5);
        let members = Self::encoded(model)->Object_0;
        assert(field_or::<Option<AgentRule>>(members, "agentRule"@, None) == Some(
            model.agent_rule,
        )) by {
            broadcast use group_member_lookup;
            if let Some(x) = model.agent_rule {
                AgentRule::lemma_round_trip(x);
            }
        }
        assert(field_or::<Aggregation>(
            members,
            "aggregation"@,
            Aggregation::default_model(),
        ) == Some(model.aggregation)) by {
            broadcast use group_member_lookup;
            Aggregation::lemma_round_trip(model.aggregation);
        }
        assert(field_or::<Vec<String>>(members, "distinctFields"@, Seq::empty()) == Some(
            model.distinct_fields,
        )) by {
            broadcast use group_member_lookup;
            Vec::<String>::lemma_round_trip(model.distinct_fields);
        }
        assert(field_or::<Vec<String>>(members, "groupByFields"@, Seq::empty()) == Some(
            model.group_by_fields,
        )) by {
            broadcast use group_member_lookup;
            Vec::<String>::lemma_round_trip(model.group_by_fields);
        }
        assert(field_or::<Option<String>>(members, "metric"@, None) == Some(model.metric)) by {
            broadcast use group_member_lookup;
        }
        assert(field_or::<String>(members, "name"@, Seq::empty()) == Some(model.name)) by {
            broadcast use group_member_lookup;
        }
        assert(field_or::<String>(members, "query"@, Seq::empty()) == Some(model.query)) by {
            broadcast use group_member_lookup;
        }
    }
}

impl FromJson for Data {
    open spec fn decoded(value: Json) -> Option<DataModel> {
        match value {
            Json::Object(members) => {
                let cases = field_or::<Vec<Case>>(members, "cases"@, Seq::empty());
                let created_at = field_or::<i64>(members, "createdAt"@, 0);
                let creation_author_id = field_or::<i64>(members, "creationAuthorId"@, 0);
                let filters = field_or::<Vec<Filter>>(members, "filters"@, Seq::empty());
                let has_extended_title = field_or::<bool>(members, "hasExtendedTitle"@, false);
                let id = field_or::<String>(members, "id"@, Seq::empty());
                let is_default = field_or::<bool>(members, "isDefault"@, false);
                let is_deleted = field_or::<bool>(members, "isDeleted"@, false);
                let is_enabled = field_or::<bool>(members, "isEnabled"@, false);
                let message = field_or::<String>(members, "message"@, Seq::empty());
                let name = field_or::<String>(members, "name"@, Seq::empty());
                let options = field_or::<Options>(members, "options"@, Options::default_model());
                let queries = field_or::<Vec<Query>>(members, "queries"@, Seq::empty());
                let tags = field_or::<Vec<String>>(members, "tags"@, Seq::empty());
                let update_author_id = field_or::<i64>(members, "updateAuthorId"@, 0);
                let version = field_or::<i64>(members, "version"@, 0);
                if cases is Some
                    && created_at is Some
                    && creation_author_id is Some
                    && filters is Some
                    && has_extended_title is Some
                    && id is Some
                    && is_default is Some
                    && is_deleted is Some
                    && is_enabled is Some
                    && message is Some
                    && name is Some
                    && options is Some
                    && queries is Some
                    && tags is Some
                    && update_author_id is Some
                    && version is Some {
                    Some(
                        DataModel {
                            cases: cases->0,
                            created_at: created_at->0,
                            creation_author_id: creation_author_id->0,
                            filters: filters->0,
                            has_extended_title: has_extended_title->0,
                            id: id->0,
                            is_default: is_default->0,
                            is_deleted: is_deleted->0,
                            is_enabled: is_enabled->0,
                            message: message->0,
                            name: name->0,
                            options: options->0,
                            queries: queries->0,
                            tags: tags->0,
                            update_author_id: update_author_id->0,
                            version: version->0,
                        },
                    )
                } else {
                    None
                }
            },
            _ => None,
        }
    }

    fn from_json(value: &JsonValue) -> (r: Option<Data>) {
        match value {
            JsonValue::Object(members) => {
                let cases = read_list::<Case>(members, "cases")?;
                let created_at = read_or::<i64>(members, "createdAt", 0)?;
                let creation_author_id = read_or::<i64>(members, "creationAuthorId", 0)?;
                let filters = read_list::<Filter>(members, "filters")?;
                let has_extended_title = read_or::<bool>(members, "hasExtendedTitle", false)?;
                let id = read_or::<String>(members, "id", String::new())?;
                let is_default = read_or::<bool>(members, "isDefault", false)?;
                let is_deleted = read_or::<bool>(members, "isDeleted", false)?;
                let is_enabled = read_or::<bool>(members, "isEnabled", false)?;
                let message = read_or::<String>(members, "message", String::new())?;
                let name = read_or::<String>(members, "name", String::new())?;
                let options = read_or::<Options>(members, "options", Options::default())?;
                let queries = read_list::<Query>(members, "queries")?;
                let tags = read_list::<String>(members, "tags")?;
                let update_author_id = read_or::<i64>(members, "updateAuthorId", 0)?;
                let version = read_or::<i64>(members, "version", 0)?;
                Some(
                    Data {
                        cases,
                        created_at,
                        creation_author_id,
                        filters,
                        has_extended_title,
                        id,
                        is_default,
                        is_deleted,
                        is_enabled,
                        message,
                        name,
                        options,
                        queries,
                        tags,
                        update_author_id,
                        version,
                    },
                )
            },
            _ => None,
        }
    }
}

impl ToJson for Data {
    open spec fn encoded(model: DataModel) -> Json {
        Json::Object(
            entry::<Vec<Case>>("cases"@, model.cases)
                + entry::<i64>("createdAt"@, model.created_at)
                + entry::<i64>("creationAuthorId"@, model.creation_author_id)
                + entry::<Vec<Filter>>("filters"@, model.filters)
                + entry::<bool>("hasExtendedTitle"@, model.has_extended_title)
                + entry::<String>("id"@, model.id)
                + entry::<bool>("isDefault"@, model.is_default)
                + entry::<bool>("isDeleted"@, model.is_deleted)
                + entry::<bool>("isEnabled"@, model.is_enabled)
                + entry::<String>("message"@, model.message)
                + entry::<String>("name"@, model.name)
                + entry::<Options>("options"@, model.options)
                + entry::<Vec<Query>>("queries"@, model.queries)
                + entry::<Vec<String>>("tags"@, model.tags)
                + entry::<i64>("updateAuthorId"@, model.update_author_id)
                + entry::<i64>("version"@, model.version),
        )
    }

    fn to_json(&self) -> (r: JsonValue) {
        let mut members = no_members();
        put::<Vec<Case>>(&mut members, "cases", &self.cases);
        put::<i64>(&mut members, "createdAt", &self.created_at);
        put::<i64>(&mut members, "creationAuthorId", &self.creation_author_id);
        put::<Vec<Filter>>(&mut members, "filters", &self.filters);
        put::<bool>(&mut members, "hasExtendedTitle", &self.has_extended_title);
        put::<String>(&mut members, "id", &self.id);
        put::<bool>(&mut members, "isDefault", &self.is_default);
        put::<bool>(&mut members, "isDeleted", &self.is_deleted);
        put::<bool>(&mut members, "isEnabled", &self.is_enabled);
        put::<String>(&mut members, "message", &self.message);
        put::<String>(&mut members, "name", &self.name);
        put::<Options>(&mut members, "options", &self.options);
        put::<Vec<Query>>(&mut members, "queries", &self.queries);
        put::<Vec<String>>(&mut members, "tags", &self.tags);
        put::<i64>(&mut members, "updateAuthorId", &self.update_author_id);
        put::<i64>(&mut members, "version", &self.version);
        proof {
            assert(members_view(members@) =~= Self::encoded(self@)->Object_0);
        }
        JsonValue::Object(members)
    }
}

impl RoundTrip for Data {
    proof fn lemma_round_trip(model: DataModel) {
        reveal_strlit("cases");
        reveal_strlit("createdAt");
        reveal_strlit("creationAuthorId");
        reveal_strlit("filters");
        reveal_strlit("hasExtendedTitle");
        reveal_strlit("id");
        reveal_strlit("isDefault");
        reveal_strlit("isDeleted");
        reveal_strlit("isEnabled");
        reveal_strlit("message");
        reveal_strlit("name");
        reveal_strlit("options");
        reveal_strlit("queries");
        reveal_strlit("tags");
        reveal_strlit("updateAuthorId");
        reveal_strlit("version");
        assert("cases"@.len() == 5);
        assert("createdAt"@.len() == 9);
        assert("creationAuthorId"@.len() == 16);
        assert("filters"@.len() == 7);
        assert("hasExtendedTitle"@.len() == 16);
        assert("id"@.len() == 2);
        assert("isDefault"@.len() == 9);
        assert("isDeleted"@.len() == 9);
        assert("isEnabled"@.len() == 9);
        assert("message"@.len() == 7);
        assert("name"@.len() == 4);
        assert("options"@.len() == 7);
        assert("queries"@.len() == 7);
        assert("tags"@.len() == 4);
        assert("updateAuthorId"@.len() == 14);
        assert("version"@.len() == 7);
        assert("createdAt"@[0] == 'c');
        assert("creationAuthorId"@[0] == 'c');
        assert("filters"@[0] == 'f');
        assert("hasExtendedTitle"@[0] == 'h');
        assert("isDefault"@[0] == 'i');
        assert("isDefault"@[2] == 'D');
        assert("isDefault"@[4] == 'f');
        assert("isDeleted"@[0] == 'i');
        assert("isDeleted"@[2] == 'D');
        assert("isDeleted"@[4] == 'l');
        assert("isEnabled"@[0] == 'i');
        assert("isEnabled"@[2] == 'E');
        assert("message"@[0] == 'm');
        assert("name"@[0] == 'n');
        assert("options"@[0] == 'o');
        assert("queries"@[0] == 'q');
        assert("tags"@[0] == 't');
        assert("version"@[0] == 'v');
        let members = Self::encoded(model)->Object_0;
        assert(field_or::<Vec<Case>>(members, "cases"@, Seq::empty()) == Some(model.cases)) by {
            broadcast use group_member_lookup;
            Vec::<Case>::lemma_round_trip(model.cases);
        }
        assert(field_or::<i64>(members, "createdAt"@, 0) == Some(model.created_at)) by {
            broadcast use group_member_lookup;
        }
        assert(field_or::<i64>(members, "creationAuthorId"@, 0) == Some(
            model.creation_author_id,
        )) by {
            broadcast use group_member_lookup;
        }
        assert(field_or::<Vec<Filter>>(members, "filters"@, Seq::empty()) == Some(
            model.filters,
        )) by {
            broadcast use group_member_lookup;
            Vec::<Filter>::lemma_round_trip(model.filters);
        }
        assert(field_or::<bool>(members, "hasExtendedTitle"@, false) == Some(
            model.has_extended_title,
        )) by {
            broadcast use group_member_lookup;
        }
        assert(field_or::<String>(members, "id"@, Seq::empty()) == Some(model.id)) by {
            broadcast use group_member_lookup;
        }
        assert(field_or::<bool>(members, "isDefault"@, false) == Some(model.is_default)) by {
            broadcast use group_member_lookup;
        }
        assert(field_or::<bool>(members, "isDeleted"@, false) == Some(model.is_deleted)) by {
            broadcast use group_member_lookup;
        }
        assert(field_or::<bool>(members, "isEnabled"@, false) == Some(model.is_enabled)) by {
            broadcast use group_member_lookup;
        }
        assert(field_or::<String>(members, "message"@, Seq::empty()) == Some(model.message)) by {
            broadcast use group_member_lookup;
        }
        assert(field_or::<String>(members, "name"@, Seq::empty()) == Some(model.name)) by {
            broadcast use group_member_lookup;
        }
        assert(field_or::<Options>(members, "options"@, Options::default_model()) == Some(
            model.options,
        )) by {
            broadcast use group_member_lookup;
            Options::lemma_round_trip(model.options);
        }
        assert(field_or::<Vec<Query>>(members, "queries"@, Seq::empty()) == Some(
            model.queries,
        )) by {
            broadcast use group_member_lookup;
            Vec::<Query>::lemma_round_trip(model.queries);
        }
        assert(field_or::<Vec<String>>(members, "tags"@, Seq::empty()) == Some(model.tags)) by {
            broadcast use group_member_lookup;
            Vec::<String>::lemma_round_trip(model.tags);
        }
        assert(field_or::<i64>(members, "updateAuthorId"@, 0) == Some(model.update_author_id)) by {
            broadcast use group_member_lookup;
        }
        assert(field_or::<i64>(members, "version"@, 0) == Some(model.version)) by {
            broadcast use group_member_lookup;
        }
    }
}

impl FromJson for MetaPage {
    open spec fn decoded(value: Json) -> Option<MetaPage> {
        match value {
            Json::Object(members) => {
                let total_count = field_or::<i64>(members, "total_count"@, 0);
                let total_filtered_count = field_or::<i64>(members, "total_filtered_count"@, 0);
                if total_count is Some && total_filtered_count is Some {
                    Some(
                        MetaPage {
                            total_count: total_count->0,
                            total_filtered_count: total_filtered_count->0,
                        },
                    )
                } else {
                    None
                }
            },
            _ => None,
        }
    }

    fn from_json(value: &JsonValue) -> (r: Option<MetaPage>) {
        match value {
            JsonValue::Object(members) => {
                let total_count = read_or::<i64>(members, "total_count", 0)?;
                let total_filtered_count = read_or::<i64>(members, "total_filtered_count", 0)?;
                Some(MetaPage { total_count, total_filtered_count })
            },
            _ => None,
        }
    }
}

impl ToJson for MetaPage {
    open spec fn encoded(model: MetaPage) -> Json {
        Json::Object(
            entry::<i64>("total_count"@, model.total_count)
                + entry::<i64>("total_filtered_count"@, model.total_filtered_count),
        )
    }

    fn to_json(&self) -> (r: JsonValue) {
        let mut members = no_members();
        put::<i64>(&mut members, "total_count", &self.total_count);
        put::<i64>(&mut members, "total_filtered_count", &self.total_filtered_count);
        proof {
            assert(members_view(members@) =~= Self::encoded(self@)->Object_0);
        }
        JsonValue::Object(members)
    }
}

impl RoundTrip for MetaPage {
    proof fn lemma_round_trip(model: MetaPage) {
        reveal_strlit("total_count");
        reveal_strlit("total_filtered_count");
        assert("total_count"@.len() == 11);
        assert("total_filtered_count"@.len() == 20);
        let members = Self::encoded(model)->Object_0;
        assert(field_or::<i64>(members, "total_count"@, 0) == Some(model.total_count)) by {
            broadcast use group_member_lookup;
        }
        assert(field_or::<i64>(members, "total_filtered_count"@, 0) == Some(
            model.total_filtered_count,
        )) by {
            broadcast use group_member_lookup;
        }
    }
}

impl FromJson for Meta {
    open spec fn decoded(value: Json) -> Option<Meta> {
        match value {
            Json::Object(members) => {
                let page = field_or::<Option<MetaPage>>(members, "page"@, None);
                if page is Some {
                    Some(
                        Meta {
                            page: page->0,
                        },
                    )
                } else {
                    None
                }
            },
            _ => None,
        }
    }

    fn from_json(value: &JsonValue) -> (r: Option<Meta>) {
        match value {
            JsonValue::Object(members) => {
                let page = read_or::<Option<MetaPage>>(members, "page", None)?;
                Some(Meta { page })
            },
            _ => None,
        }
    }
}

impl ToJson for Meta {
    open spec fn encoded(model: Meta) -> Json {
        Json::Object(entry::<Option<MetaPage>>("page"@, model.page))
    }

    fn to_json(&self) -> (r: JsonValue) {
        let mut members = no_members();
        put::<Option<MetaPage>>(&mut members, "page", &self.page);
        proof {
            assert(members_view(members@) =~= Self::encoded(self@)->Object_0);
        }
        JsonValue::Object(members)
    }
}

impl RoundTrip for Meta {
    proof fn lemma_round_trip(model: Meta) {
        let members = Self::encoded(model)->Object_0;
        assert(field_or::<Option<MetaPage>>(members, "page"@, None) == Some(model.page)) by {
            broadcast use group_member_lookup;
            if let Some(x) = model.page {
                MetaPage::lemma_round_trip(x);
            }
        }
    }
}

impl FromJson for ListRulesResponse {
    open spec fn decoded(value: Json) -> Option<ListRulesResponseModel> {
        match value {
            Json::Object(members) => {
                let data = field_or::<Vec<Data>>(members, "data"@, Seq::empty());
                let meta = field_or::<Meta>(members, "meta"@, Meta::default_model());
                if data is Some && meta is Some {
                    Some(
                        ListRulesResponseModel {
                            data: data->0,
                            meta: meta->0,
                        },
                    )
                } else {
                    None
                }
            },
            _ => None,
        }
    }

    fn from_json(value: &JsonValue) -> (r: Option<ListRulesResponse>) {
        match value {
            JsonValue::Object(members) => {
                let data = read_list::<Data>(members, "data")?;
                let meta = read_or::<Meta>(members, "meta", Meta::default())?;
                Some(ListRulesResponse { data, meta })
            },
            _ => None,
        }
    }
}

impl ToJson for ListRulesResponse {
    open spec fn encoded(model: ListRulesResponseModel) -> Json {
        Json::Object(entry::<Vec<Data>>("data"@, model.data) + entry::<Meta>("meta"@, model.meta))
    }

    fn to_json(&self) -> (r: JsonValue) {
        let mut members = no_members();
        put::<Vec<Data>>(&mut members, "data", &self.data);
        put::<Meta>(&mut members, "meta", &self.meta);
        proof {
            assert(members_view(members@) =~= Self::encoded(self@)->Object_0);
        }
        JsonValue::Object(members)
    }
}

impl RoundTrip for ListRulesResponse {
    proof fn lemma_round_trip(model: ListRulesResponseModel) {
        reveal_strlit("data");
        reveal_strlit("meta");
        assert("data"@[0] == 'd');
        assert("meta"@[0] == 'm');
        let members = Self::encoded(model)->Object_0;
        assert(field_or::<Vec<Data>>(members, "data"@, Seq::empty()) == Some(model.data)) by {
            broadcast use group_member_lookup;
            Vec::<Data>::lemma_round_trip(model.data);
        }
        assert(field_or::<Meta>(members, "meta"@, Meta::default_model()) == Some(model.meta)) by {
            broadcast use group_member_lookup;
            Meta::lemma_round_trip(model.meta);
        }
    }
}

} // verus!
