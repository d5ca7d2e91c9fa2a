//! How the values of `monitors` are written as JSON and read from it.
use crate::json::{
    entry, field_or, group_member_lookup, members_view, no_members, optional_entry, put,
    put_optional, read_list, read_or, Dictionary, FromJson, Json, JsonNumber, JsonValue, Num,
    RoundTrip, ToJson,
};
use crate::monitors::{
    Aggregation, AggregationModel, CreateMonitorRequest, CreateMonitorRequestModel,
    CreateMonitorResponse, CreateMonitorResponseModel, DeleteMonitorRequest, DeleteMonitorResponse,
    EditMonitorRequest, EditMonitorRequestModel, GroupState, GroupStateModel, Metadata, Monitor,
    MonitorModel, MonitorOptions, MonitorOptionsModel, MonitorType, MonitorsSearchResponse,
    MonitorsSearchResponseModel, Notification, NotificationModel, SearchFacet, SearchFacetCounts,
    SearchFacetCountsModel, SearchFacetModel, SearchFacetName, SearchFacetNameModel, State,
    StateModel, Status, ThresholdWindows, ThresholdWindowsModel, Thresholds, ThresholdsModel, User,
    UserModel,
};
use vstd::prelude::*;

verus! {

impl FromJson for SearchFacetName {
    open spec fn decoded(value: Json) -> Option<SearchFacetNameModel> {
        match value {
            Json::String(text) => Some(SearchFacetNameModel::String(text)),
            Json::Bool(b) => Some(SearchFacetNameModel::Bool(b)),
            _ => None,
        }
    }

    fn from_json(value: &JsonValue) -> (r: Option<SearchFacetName>) {
        match value {
            JsonValue::String(text) => Some(SearchFacetName::String(text.clone())),
            JsonValue::Bool(b) => Some(SearchFacetName::Bool(*b)),
            _ => None,
        }
    }
}

impl ToJson for SearchFacetName {
    open spec fn encoded(model: SearchFacetNameModel) -> Json {
        match model {
            SearchFacetNameModel::String(text) => Json::String(text),
            SearchFacetNameModel::Bool(b) => Json::Bool(b),
        }
    }

    fn to_json(&self) -> (r: JsonValue) {
        match self {
            SearchFacetName::String(text) => JsonValue::String(text.clone()),
            SearchFacetName::Bool(b) => JsonValue::Bool(*b),
        }
    }
}

impl RoundTrip for SearchFacetName {
    proof fn lemma_round_trip(model: SearchFacetNameModel) {
    }
}

impl FromJson for SearchFacet {
    open spec fn decoded(value: Json) -> Option<SearchFacetModel> {
        match value {
            Json::Object(members) => {
                let name = field_or::<SearchFacetName>(
                    members,
                    "name"@,
                    SearchFacetName::default_model(),
                );
                let count = field_or::<u64>(members, "count"@, 0);
                if name is Some && count is Some {
                    Some(
                        SearchFacetModel {
                            name: name->0,
                            count: count->0,
                        },
                    )
                } else {
                    None
                }
            },
            _ => None,
        }
    }

    fn from_json(value: &JsonValue) -> (r: Option<SearchFacet>) {
        match value {
            JsonValue::Object(members) => {
                let name = read_or::<SearchFacetName>(members, "name", SearchFacetName::default())?;
                let count = read_or::<u64>(members, "count", 0)?;
                Some(SearchFacet { name, count })
            },
            _ => None,
        }
    }
}

impl ToJson for SearchFacet {
    open spec fn encoded(model: SearchFacetModel) -> Json {
        Json::Object(
            entry::<SearchFacetName>("name"@, model.name)
                + entry::<u64>("count"@, model.count),
        )
    }

    fn to_json(&self) -> (r: JsonValue) {
        let mut members = no_members();
        put::<SearchFacetName>(&mut members, "name", &self.name);
        put::<u64>(&mut members, "count", &self.count);
        proof {
            assert(members_view(members@) =~= Self::encoded(self@)->Object_0);
        }
        JsonValue::Object(members)
    }
}

impl RoundTrip for SearchFacet {
    proof fn lemma_round_trip(model: SearchFacetModel) {
        reveal_strlit("name");
        reveal_strlit("count");
        assert("name"@.len() == 4);
        assert("count"@.len() == 5);
        let members = Self::encoded(model)->Object_0;
        assert(field_or::<SearchFacetName>(
            members,
            "name"@,
            SearchFacetName::default_model(),
        ) == Some(model.name)) by {
            broadcast use group_member_lookup;
            SearchFacetName::lemma_round_trip(model.name);
        }
        assert(field_or::<u64>(members, "count"@, 0) == Some(model.count)) by {
            broadcast use group_member_lookup;
        }
    }
}

impl FromJson for SearchFacetCounts {
    open spec fn decoded(value: Json) -> Option<SearchFacetCountsModel> {
        match value {
            Json::Object(members) => {
                let muted = field_or::<Vec<SearchFacet>>(members, "muted"@, Seq::empty());
                let status = field_or::<Vec<SearchFacet>>(members, "status"@, Seq::empty());
                let tag = field_or::<Vec<SearchFacet>>(members, "tag"@, Seq::empty());
                let _type = field_or::<Vec<SearchFacet>>(members, "type"@, Seq::empty());
                if muted is Some && status is Some && tag is Some && _type is Some {
                    Some(
                        SearchFacetCountsModel {
                            muted: muted->0,
                            status: status->0,
                            tag: tag->0,
                            _type: _type->0,
                        },
                    )
                } else {
                    None
                }
            },
            _ => None,
        }
    }

    fn from_json(value: &JsonValue) -> (r: Option<SearchFacetCounts>) {
        match value {
            JsonValue::Object(members) => {
                let muted = read_list::<SearchFacet>(members, "muted")?;
                let status = read_list::<SearchFacet>(members, "status")?;
                let tag = read_list::<SearchFacet>(members, "tag")?;
                let _type = read_list::<SearchFacet>(members, "type")?;
                Some(SearchFacetCounts { muted, status, tag, _type })
            },
            _ => None,
        }
    }
}

impl ToJson for SearchFacetCounts {
    open spec fn encoded(model: SearchFacetCountsModel) -> Json {
        Json::Object(
            entry::<Vec<SearchFacet>>("muted"@, model.muted)
                + entry::<Vec<SearchFacet>>("status"@, model.status)
                + entry::<Vec<SearchFacet>>("tag"@, model.tag)
                + entry::<Vec<SearchFacet>>("type"@, model._type),
        )
    }

    fn to_json(&self) -> (r: JsonValue) {
        let mut members = no_members();
        put::<Vec<SearchFacet>>(&mut members, "muted", &self.muted);
        put::<Vec<SearchFacet>>(&mut members, "status", &self.status);
        put::<Vec<SearchFacet>>(&mut members, "tag", &self.tag);
        put::<Vec<SearchFacet>>(&mut members, "type", &self._type);
        proof {
            assert(members_view(members@) =~= Self::encoded(self@)->Object_0);
        }
        JsonValue::Object(members)
    }
}

impl RoundTrip for SearchFacetCounts {
    proof fn lemma_round_trip(model: SearchFacetCountsModel) {
        reveal_strlit("muted");
        reveal_strlit("status");
        reveal_strlit("tag");
        reveal_strlit("type");
        assert("muted"@.len() == 5);
        assert("status"@.len() == 6);
        assert("tag"@.len() == 3);
        assert("type"@.len() == 4);
        let members = Self::encoded(model)->Object_0;
        assert(field_or::<Vec<SearchFacet>>(members, "muted"@, Seq::empty()) == Some(
            model.muted,
        )) by {
            broadcast use group_member_lookup;
            Vec::<SearchFacet>::lemma_round_trip(model.muted);
        }
        assert(field_or::<Vec<SearchFacet>>(members, "status"@, Seq::empty()) == Some(
            model.status,
        )) by {
            broadcast use group_member_lookup;
            Vec::<SearchFacet>::lemma_round_trip(model.status);
        }
        assert(field_or::<Vec<SearchFacet>>(members, "tag"@, Seq::empty()) == Some(model.tag)) by {
            broadcast use group_member_lookup;
            Vec::<SearchFacet>::lemma_round_trip(model.tag);
        }
        assert(field_or::<Vec<SearchFacet>>(members, "type"@, Seq::empty()) == Some(
            model._type,
        )) by {
            broadcast use group_member_lookup;
            Vec::<SearchFacet>::lemma_round_trip(model._type);
        }
    }
}

impl FromJson for Metadata {
    open spec fn decoded(value: Json) -> Option<Metadata> {
        match value {
            Json::Object(members) => {
                let page = field_or::<u64>(members, "page"@, 0);
                let page_count = field_or::<u64>(members, "page_count"@, 0);
                let per_page = field_or::<u64>(members, "per_page"@, 0);
                let total_count = field_or::<u64>(members, "total_count"@, 0);
                if page is Some && page_count is Some && per_page is Some && total_count is Some {
                    Some(
                        Metadata {
                            page: page->0,
                            page_count: page_count->0,
                            per_page: per_page->0,
                            total_count: total_count->0,
                        },
                    )
                } else {
                    None
                }
            },
            _ => None,
        }
    }

    fn from_json(value: &JsonValue) -> (r: Option<Metadata>) {
        match value {
            JsonValue::Object(members) => {
                let page = read_or::<u64>(members, "page", 0)?;
                let page_count = read_or::<u64>(members, "page_count", 0)?;
                let per_page = read_or::<u64>(members, "per_page", 0)?;
                let total_count = read_or::<u64>(members, "total_count", 0)?;
                Some(Metadata { page, page_count, per_page, total_count })
            },
            _ => None,
        }
    }
}

impl ToJson for Metadata {
    open spec fn encoded(model: Metadata) -> Json {
        Json::Object(
            entry::<u64>("page"@, model.page)
                + entry::<u64>("page_count"@, model.page_count)
                + entry::<u64>("per_page"@, model.per_page)
                + entry::<u64>("total_count"@, model.total_count),
        )
    }

    fn to_json(&self) -> (r: JsonValue) {
        let mut members = no_members();
        put::<u64>(&mut members, "page", &self.page);
        put::<u64>(&mut members, "page_count", &self.page_count);
        put::<u64>(&mut members, "per_page", &self.per_page);
        put::<u64>(&mut members, "total_count", &self.total_count);
        proof {
            assert(members_view(members@) =~= Self::encoded(self@)->Object_0);
        }
        JsonValue::Object(members)
    }
}

impl RoundTrip for Metadata {
    proof fn lemma_round_trip(model: Metadata) {
        reveal_strlit("page");
        reveal_strlit("page_count");
        reveal_strlit("per_page");
        reveal_strlit("total_count");
        assert("page"@.len() == 4);
        assert("page_count"@.len() == 10);
        assert("per_page"@.len() == 8);
        assert("total_count"@.len() == 11);
        let members = Self::encoded(model)->Object_0;
        assert(field_or::<u64>(members, "page"@, 0) == Some(model.page)) by {
            broadcast use group_member_lookup;
        }
        assert(field_or::<u64>(members, "page_count"@, 0) == Some(model.page_count)) by {
            broadcast use group_member_lookup;
        }
        assert(field_or::<u64>(members, "per_page"@, 0) == Some(model.per_page)) by {
            broadcast use group_member_lookup;
        }
        assert(field_or::<u64>(members, "total_count"@, 0) == Some(model.total_count)) by {
            broadcast use group_member_lookup;
        }
    }
}

impl FromJson for User {
    open spec fn decoded(value: Json) -> Option<UserModel> {
        match value {
            Json::Object(members) => {
                let email = field_or::<String>(members, "email"@, Seq::empty());
                let handle = field_or::<String>(members, "handle"@, Seq::empty());
                let name = field_or::<String>(members, "name"@, Seq::empty());
                if email is Some && handle is Some && name is Some {
                    Some(
                        UserModel {
                            email: email->0,
                            handle: handle->0,
                            name: name->0,
                        },
                    )
                } else {
                    None
                }
            },
            _ => None,
        }
    }

    fn from_json(value: &JsonValue) -> (r: Option<User>) {
        match value {
            JsonValue::Object(members) => {
                let email = read_or::<String>(members, "email", String::new())?;
                let handle = read_or::<String>(members, "handle", String::new())?;
                let name = read_or::<String>(members, "name", String::new())?;
                Some(User { email, handle, name })
            },
            _ => None,
        }
    }
}

impl ToJson for User {
    open spec fn encoded(model: UserModel) -> Json {
        Json::Object(
            entry::<String>("email"@, model.email)
                + entry::<String>("handle"@, model.handle)
                + entry::<String>("name"@, model.name),
        )
    }

    fn to_json(&self) -> (r: JsonValue) {
        let mut members = no_members();
        put::<String>(&mut members, "email", &self.email);
        put::<String>(&mut members, "handle", &self.handle);
        put::<String>(&mut members, "name", &self.name);
        proof {
            assert(members_view(members@) =~= Self::encoded(self@)->Object_0);
        }
        JsonValue::Object(members)
    }
}

impl RoundTrip for User {
    proof fn lemma_round_trip(model: UserModel) {
        reveal_strlit("email");
        reveal_strlit("handle");
        reveal_strlit("name");
        assert("email"@.len() == 5);
        assert("handle"@.len() == 6);
        assert("name"@.len() == 4);
        let members = Self::encoded(model)->Object_0;
        assert(field_or::<String>(members, "email"@, Seq::empty()) == Some(model.email)) by {
            broadcast use group_member_lookup;
        }
        assert(field_or::<String>(members, "handle"@, Seq::empty()) == Some(model.handle)) by {
            broadcast use group_member_lookup;
        }
        assert(field_or::<String>(members, "name"@, Seq::empty()) == Some(model.name)) by {
            broadcast use group_member_lookup;
        }
    }
}

impl FromJson for Notification {
    open spec fn decoded(value: Json) -> Option<NotificationModel> {
        match value {
            Json::Object(members) => {
                let handle = field_or::<String>(members, "handle"@, Seq::empty());
                let name = field_or::<String>(members, "name"@, Seq::empty());
                if handle is Some && name is Some {
                    Some(
                        NotificationModel {
                            handle: handle->0,
                            name: name->0,
                        },
                    )
                } else {
                    None
                }
            },
            _ => None,
        }
    }

    fn from_json(value: &JsonValue) -> (r: Option<Notification>) {
        match value {
            JsonValue::Object(members) => {
                let handle = read_or::<String>(members, "handle", String::new())?;
                let name = read_or::<String>(members, "name", String::new())?;
                Some(Notification { handle, name })
            },
            _ => None,
        }
    }
}

impl ToJson for Notification {
    open spec fn encoded(model: NotificationModel) -> Json {
        Json::Object(
            entry::<String>("handle"@, model.handle)
                + entry::<String>("name"@, model.name),
        )
    }

    fn to_json(&self) -> (r: JsonValue) {
        let mut members = no_members();
        put::<String>(&mut members, "handle", &self.handle);
        put::<String>(&mut members, "name", &self.name);
        proof {
            assert(members_view(members@) =~= Self::encoded(self@)->Object_0);
        }
        JsonValue::Object(members)
    }
}

impl RoundTrip for Notification {
    proof fn lemma_round_trip(model: NotificationModel) {
        reveal_strlit("handle");
        reveal_strlit("name");
        assert("handle"@.len() == 6);
        assert("name"@.len() == 4);
        let members = Self::encoded(model)->Object_0;
        assert(field_or::<String>(members, "handle"@, Seq::empty()) == Some(model.handle)) by {
            broadcast use group_member_lookup;
        }
        assert(field_or::<String>(members, "name"@, Seq::empty()) == Some(model.name)) by {
            broadcast use group_member_lookup;
        }
    }
}

impl FromJson for Status {
    open spec fn decoded(value: Json) -> Option<Status> {
        match value {
            Json::String(name) => Self::from_wire_name(name),
            _ => None,
        }
    }

    fn from_json(value: &JsonValue) -> (r: Option<Status>) {
        match value {
            JsonValue::String(name) => Self::from_name(name.as_str()),
            _ => None,
        }
    }
}

impl ToJson for Status {
    open spec fn encoded(model: Status) -> Json {
        Json::String(model.wire_name())
    }

    fn to_json(&self) -> (r: JsonValue) {
        JsonValue::String(String::from_str(self.as_str()))
    }
}

impl RoundTrip for Status {
    proof fn lemma_round_trip(model: Status) {
        model.lemma_wire_name_round_trip();
    }
}

impl FromJson for MonitorType {
    open spec fn decoded(value: Json) -> Option<MonitorType> {
        match value {
            Json::String(name) => Self::from_wire_name(name),
            _ => None,
        }
    }

    fn from_json(value: &JsonValue) -> (r: Option<MonitorType>) {
        match value {
            JsonValue::String(name) => Self::from_name(name.as_str()),
            _ => None,
        }
    }
}

impl ToJson for MonitorType {
    open spec fn encoded(model: MonitorType) -> Json {
        Json::String(model.wire_name())
    }

    fn to_json(&self) -> (r: JsonValue) {
        JsonValue::String(String::from_str(self.as_str()))
    }
}

impl RoundTrip for MonitorType {
    proof fn lemma_round_trip(model: MonitorType) {
        model.lemma_wire_name_round_trip();
    }
}

impl FromJson for Monitor {
    open spec fn decoded(value: Json) -> Option<MonitorModel> {
        match value {
            Json::Object(members) => {
                let classification = field_or::<String>(members, "classification"@, Seq::empty());
                let creator = field_or::<User>(members, "creator"@, User::default_model());
                let id = field_or::<u64>(members, "id"@, 0);
                let last_triggered_ts = field_or::<Option<u64>>(
                    members,
                    "last_triggered_ts"@,
                    None,
                );
                let metrics = field_or::<Vec<String>>(members, "metrics"@, Seq::empty());
                let name = field_or::<String>(members, "name"@, Seq::empty());
                let notifications = field_or::<Vec<Notification>>(
                    members,
                    "notifications"@,
                    Seq::empty(),
                );
                let org_id = field_or::<u64>(members, "org_id"@, 0);
                let scopes = field_or::<Vec<String>>(members, "scopes"@, Seq::empty());
                let status = field_or::<Status>(members, "status"@, Status::default_model());
                let tags = field_or::<Vec<String>>(members, "tags"@, Seq::empty());
                let _type = field_or::<MonitorType>(members, "type"@, MonitorType::default_model());
                if classification is Some
                    && creator is Some
                    && id is Some
                    && last_triggered_ts is Some
                    && metrics is Some
                    && name is Some
                    && notifications is Some
                    && org_id is Some
                    && scopes is Some
                    && status is Some
                    && tags is Some
                    && _type is Some {
                    Some(
                        MonitorModel {
                            classification: classification->0,
                            creator: creator->0,
                            id: id->0,
                            last_triggered_ts: last_triggered_ts->0,
                            metrics: metrics->0,
                            name: name->0,
                            notifications: notifications->0,
                            org_id: org_id->0,
                            scopes: scopes->0,
                            status: status->0,
                            tags: tags->0,
                            _type: _type->0,
                        },
                    )
                } else {
                    None
                }
            },
            _ => None,
        }
    }

    fn from_json(value: &JsonValue) -> (r: Option<Monitor>) {
        match value {
            JsonValue::Object(members) => {
                let classification = read_or::<String>(members, "classification", String::new())?;
                let creator = read_or::<User>(members, "creator", User::default())?;
                let id = read_or::<u64>(members, "id", 0)?;
                let last_triggered_ts = read_or::<Option<u64>>(members, "last_triggered_ts", None)?;
                let metrics = read_list::<String>(members, "metrics")?;
                let name = read_or::<String>(members, "name", String::new())?;
                let notifications = read_list::<Notification>(members, "notifications")?;
                let org_id = read_or::<u64>(members, "org_id", 0)?;
                let scopes = read_list::<String>(members, "scopes")?;
                let status = read_or::<Status>(members, "status", Status::default())?;
                let tags = read_list::<String>(members, "tags")?;
                let _type = read_or::<MonitorType>(members, "type", MonitorType::default())?;
                Some(
                    Monitor {
                        classification,
                        creator,
                        id,
                        last_triggered_ts,
                        metrics,
                        name,
                        notifications,
                        org_id,
                        scopes,
                        status,
                        tags,
                        _type,
                    },
                )
            },
            _ => None,
        }
    }
}

impl ToJson for Monitor {
    open spec fn encoded(model: MonitorModel) -> Json {
        Json::Object(
            entry::<String>("classification"@, model.classification)
                + entry::<User>("creator"@, model.creator)
                + entry::<u64>("id"@, model.id)
                + entry::<Option<u64>>("last_triggered_ts"@, model.last_triggered_ts)
                + entry::<Vec<String>>("metrics"@, model.metrics)
                + entry::<String>("name"@, model.name)
                + entry::<Vec<Notification>>("notifications"@, model.notifications)
                + entry::<u64>("org_id"@, model.org_id)
                + entry::<Vec<String>>("scopes"@, model.scopes)
                + entry::<Status>("status"@, model.status)
                + entry::<Vec<String>>("tags"@, model.tags)
                + entry::<MonitorType>("type"@, model._type),
        )
    }

    fn to_json(&self) -> (r: JsonValue) {
        let mut members = no_members();
        put::<String>(&mut members, "classification", &self.classification);
        put::<User>(&mut members, "creator", &self.creator);
        put::<u64>(&mut members, "id", &self.id);
        put::<Option<u64>>(&mut members, "last_triggered_ts", &self.last_triggered_ts);
        put::<Vec<String>>(&mut members, "metrics", &self.metrics);
        put::<String>(&mut members, "name", &self.name);
        put::<Vec<Notification>>(&mut members, "notifications", &self.notifications);
        put::<u64>(&mut members, "org_id", &self.org_id);
        put::<Vec<String>>(&mut members, "scopes", &self.scopes);
        put::<Status>(&mut members, "status", &self.status);
        put::<Vec<String>>(&mut members, "tags", &self.tags);
        put::<MonitorType>(&mut members, "type", &self._type);
        proof {
            assert(members_view(members@) =~= Self::encoded(self@)->Object_0);
        }
        JsonValue::Object(members)
    }
}

impl RoundTrip for Monitor {
    proof fn lemma_round_trip(model: MonitorModel) {
        reveal_strlit("classification");
        reveal_strlit("creator");
        reveal_strlit("id");
        reveal_strlit("last_triggered_ts");
        reveal_strlit("metrics");
        reveal_strlit("name");
        reveal_strlit("notifications");
        reveal_strlit("org_id");
        reveal_strlit("scopes");
        reveal_strlit("status");
        reveal_strlit("tags");
        reveal_strlit("type");
        assert("classification"@.len() == 14);
        assert("creator"@.len() == 7);
        assert("id"@.len() == 2);
        assert("last_triggered_ts"@.len() == 17);
        assert("metrics"@.len() == 7);
        assert("name"@.len() == 4);
        assert("notifications"@.len() == 13);
        assert("org_id"@.len() == 6);
        assert("scopes"@.len() == 6);
        assert("status"@.len() == 6);
        assert("tags"@.len() == 4);
        assert("type"@.len() == 4);
        assert("creator"@[0] == 'c');
        assert("metrics"@[0] == 'm');
        assert("name"@[0] == 'n');
        assert("org_id"@[0] == 'o');
        assert("scopes"@[0] == 's');
        assert("scopes"@[1] == 'c');
        assert("status"@[0] == 's');
        assert("status"@[1] == 't');
        assert("tags"@[0] == 't');
        assert("tags"@[1] == 'a');
        assert("type"@[0] == 't');
        assert("type"@[1] == 'y');
        let members = Self::encoded(model)->Object_0;
        assert(field_or::<String>(members, "classification"@, Seq::empty()) == Some(
            model.classification,
        )) by {
            broadcast use group_member_lookup;
        }
        assert(field_or::<User>(members, "creator"@, User::default_model()) == Some(
            model.creator,
        )) by {
            broadcast use group_member_lookup;
            User::lemma_round_trip(model.creator);
        }
        assert(field_or::<u64>(members, "id"@, 0) == Some(model.id)) by {
            broadcast use group_member_lookup;
        }
        assert(field_or::<Option<u64>>(members, "last_triggered_ts"@, None) == Some(
            model.last_triggered_ts,
        )) by {
            broadcast use group_member_lookup;
        }
        assert(field_or::<Vec<String>>(members, "metrics"@, Seq::empty()) == Some(
            model.metrics,
        )) by {
            broadcast use group_member_lookup;
            Vec::<String>::lemma_round_trip(model.metrics);
        }
        assert(field_or::<String>(members, "name"@, Seq::empty()) == Some(model.name)) by {
            broadcast use group_member_lookup;
        }
        assert(field_or::<Vec<Notification>>(members, "notifications"@, Seq::empty()) == Some(
            model.notifications,
        )) by {
            broadcast use group_member_lookup;
            Vec::<Notification>::lemma_round_trip(model.notifications);
        }
        assert(field_or::<u64>(members, "org_id"@, 0) == Some(model.org_id)) by {
            broadcast use group_member_lookup;
        }
        assert(field_or::<Vec<String>>(members, "scopes"@, Seq::empty()) == Some(model.scopes)) by {
            broadcast use group_member_lookup;
            Vec::<String>::lemma_round_trip(model.scopes);
        }
        assert(field_or::<Status>(members, "status"@, Status::default_model()) == Some(
            model.status,
        )) by {
            broadcast use group_member_lookup;
            Status::lemma_round_trip(model.status);
        }
        assert(field_or::<Vec<String>>(members, "tags"@, Seq::empty()) == Some(model.tags)) by {
            broadcast use group_member_lookup;
            Vec::<String>::lemma_round_trip(model.tags);
        }
        assert(field_or::<MonitorType>(members, "type"@, MonitorType::default_model()) == Some(
            model._type,
        )) by {
            broadcast use group_member_lookup;
            MonitorType::lemma_round_trip(model._type);
        }
    }
}

impl FromJson for MonitorsSearchResponse {
    open spec fn decoded(value: Json) -> Option<MonitorsSearchResponseModel> {
        match value {
            Json::Object(members) => {
                let counts = field_or::<SearchFacetCounts>(
                    members,
                    "counts"@,
                    SearchFacetCounts::default_model(),
                );
                let metadata = field_or::<Metadata>(
                    members,
                    "metadata"@,
                    Metadata::default_model(),
                );
                let monitors = field_or::<Vec<Monitor>>(members, "monitors"@, Seq::empty());
                if counts is Some && metadata is Some && monitors is Some {
                    Some(
                        MonitorsSearchResponseModel {
                            counts: counts->0,
                            metadata: metadata->0,
                            monitors: monitors->0,
                        },
                    )
                } else {
                    None
                }
            },
            _ => None,
        }
    }

    fn from_json(value: &JsonValue) -> (r: Option<MonitorsSearchResponse>) {
        match value {
            JsonValue::Object(members) => {
                let counts = read_or::<SearchFacetCounts>(
                    members,
                    "counts",
                    SearchFacetCounts::default(),
                )?;
                let metadata = read_or::<Metadata>(members, "metadata", Metadata::default())?;
                let monitors = read_list::<Monitor>(members, "monitors")?;
                Some(MonitorsSearchResponse { counts, metadata, monitors })
            },
            _ => None,
        }
    }
}

impl ToJson for MonitorsSearchResponse {
    open spec fn encoded(model: MonitorsSearchResponseModel) -> Json {
        Json::Object(
            entry::<SearchFacetCounts>("counts"@, model.counts)
                + entry::<Metadata>("metadata"@, model.metadata)
                + entry::<Vec<Monitor>>("monitors"@, model.monitors),
        )
    }

    fn to_json(&self) -> (r: JsonValue) {
        let mut members = no_members();
        put::<SearchFacetCounts>(&mut members, "counts", &self.counts);
        put::<Metadata>(&mut members, "metadata", &self.metadata);
        put::<Vec<Monitor>>(&mut members, "monitors", &self.monitors);
        proof {
            assert(members_view(members@) =~= Self::encoded(self@)->Object_0);
        }
        JsonValue::Object(members)
    }
}

impl RoundTrip for MonitorsSearchResponse {
    proof fn lemma_round_trip(model: MonitorsSearchResponseModel) {
        reveal_strlit("counts");
        reveal_strlit("metadata");
        reveal_strlit("monitors");
        assert("counts"@.len() == 6);
        assert("metadata"@.len() == 8);
        assert("monitors"@.len() == 8);
        assert("metadata"@[1] == 'e');
        assert("monitors"@[1] == 'o');
        let members = Self::encoded(model)->Object_0;
        assert(field_or::<SearchFacetCounts>(
            members,
            "counts"@,
            SearchFacetCounts::default_model(),
        ) == Some(model.counts)) by {
            broadcast use group_member_lookup;
            SearchFacetCounts::lemma_round_trip(model.counts);
        }
        assert(field_or::<Metadata>(members, "metadata"@, Metadata::default_model()) == Some(
            model.metadata,
        )) by {
            broadcast use group_member_lookup;
            Metadata::lemma_round_trip(model.metadata);
        }
        assert(field_or::<Vec<Monitor>>(members, "monitors"@, Seq::empty()) == Some(
            model.monitors,
        )) by {
            broadcast use group_member_lookup;
            Vec::<Monitor>::lemma_round_trip(model.monitors);
        }
    }
}

impl FromJson for MonitorOptions {
    open spec fn decoded(value: Json) -> Option<MonitorOptionsModel> {
        match value {
            Json::Object(members) => {
                let aggregation = field_or::<Aggregation>(
                    members,
                    "aggregation"@,
                    Aggregation::default_model(),
                );
                let device_ids = field_or::<Vec<String>>(members, "device_ids"@, Seq::empty());
                let enable_logs_sample = field_or::<bool>(members, "enable_logs_sample"@, false);
                let escalation_message = field_or::<String>(
                    members,
                    "escalation_message"@,
                    Seq::empty(),
                );
                let evaluation_delay = field_or::<u64>(members, "evaluation_delay"@, 0);
                let groupby_simple_monitor = field_or::<bool>(
                    members,
                    "groupby_simple_monitor"@,
                    false,
                );
                let include_tags = field_or::<bool>(members, "include_tags"@, false);
                let locked = field_or::<bool>(members, "locked"@, false);
                let min_failure_duration = field_or::<u64>(members, "min_failure_duration"@, 0);
                let min_location_failed = field_or::<u64>(members, "min_location_failed"@, 0);
                let new_group_delay = field_or::<u64>(members, "new_group_delay"@, 0);
                let new_host_delay = field_or::<u64>(members, "new_host_delay"@, 0);
                let no_data_timeframe = field_or::<u64>(members, "no_data_timeframe"@, 0);
                let notify_audit = field_or::<bool>(members, "notify_audit"@, false);
                let notify_no_data = field_or::<bool>(members, "notify_no_data"@, false);
                let renotify_interval = field_or::<u64>(members, "renotify_interval"@, 0);
                let renotify_occurrences = field_or::<u64>(members, "renotify_occurrences"@, 0);
                let renotify_statuses = field_or::<Vec<String>>(
                    members,
                    "renotify_statuses"@,
                    Seq::empty(),
                );
                let require_full_window = field_or::<bool>(members, "require_full_window"@, false);
                let synthetics_check_id = field_or::<String>(
                    members,
                    "synthetics_check_id"@,
                    Seq::empty(),
                );
                let threshold_windows = field_or::<ThresholdWindows>(
                    members,
                    "threshold_windows"@,
                    ThresholdWindows::default_model(),
                );
                let thresholds = field_or::<Thresholds>(
                    members,
                    "thresholds"@,
                    Thresholds::default_model(),
                );
                let timeout_h = field_or::<u64>(members, "timeout_h"@, 0);
                if aggregation is Some
                    && device_ids is Some
                    && enable_logs_sample is Some
                    && escalation_message is Some
                    && evaluation_delay is Some
                    && groupby_simple_monitor is Some
                    && include_tags is Some
                    && locked is Some
                    && min_failure_duration is Some
                    && min_location_failed is Some
                    && new_group_delay is Some
                    && new_host_delay is Some
                    && no_data_timeframe is Some
                    && notify_audit is Some
                    && notify_no_data is Some
                    && renotify_interval is Some
                    && renotify_occurrences is Some
                    && renotify_statuses is Some
                    && require_full_window is Some
                    && synthetics_check_id is Some
                    && threshold_windows is Some
                    && thresholds is Some
                    && timeout_h is Some {
                    Some(
                        MonitorOptionsModel {
                            aggregation: aggregation->0,
                            device_ids: device_ids->0,
                            enable_logs_sample: enable_logs_sample->0,
                            escalation_message: escalation_message->0,
                            evaluation_delay: evaluation_delay->0,
                            groupby_simple_monitor: groupby_simple_monitor->0,
                            include_tags: include_tags->0,
                            locked: locked->0,
                            min_failure_duration: min_failure_duration->0,
                            min_location_failed: min_location_failed->0,
                            new_group_delay: new_group_delay->0,
                            new_host_delay: new_host_delay->0,
                            no_data_timeframe: no_data_timeframe->0,
                            notify_audit: notify_audit->0,
                            notify_no_data: notify_no_data->0,
                            renotify_interval: renotify_interval->0,
                            renotify_occurrences: renotify_occurrences->0,
                            renotify_statuses: renotify_statuses->0,
                            require_full_window: require_full_window->0,
                            synthetics_check_id: synthetics_check_id->0,
                            threshold_windows: threshold_windows->0,
                            thresholds: thresholds->0,
                            timeout_h: timeout_h->0,
                        },
                    )
                } else {
                    None
                }
            },
            _ => None,
        }
    }

    fn from_json(value: &JsonValue) -> (r: Option<MonitorOptions>) {
        match value {
            JsonValue::Object(members) => {
                let aggregation = read_or::<Aggregation>(
                    members,
                    "aggregation",
                    Aggregation::default(),
                )?;
                let device_ids = read_list::<String>(members, "device_ids")?;
                let enable_logs_sample = read_or::<bool>(members, "enable_logs_sample", false)?;
                let escalation_message = read_or::<String>(
                    members,
                    "escalation_message",
                    String::new(),
                )?;
                let evaluation_delay = read_or::<u64>(members, "evaluation_delay", 0)?;
                let groupby_simple_monitor = read_or::<bool>(
                    members,
                    "groupby_simple_monitor",
                    false,
                )?;
                let include_tags = read_or::<bool>(members, "include_tags", false)?;
                let locked = read_or::<bool>(members, "locked", false)?;
                let min_failure_duration = read_or::<u64>(members, "min_failure_duration", 0)?;
                let min_location_failed = read_or::<u64>(members, "min_location_failed", 0)?;
                let new_group_delay = read_or::<u64>(members, "new_group_delay", 0)?;
                let new_host_delay = read_or::<u64>(members, "new_host_delay", 0)?;
                let no_data_timeframe = read_or::<u64>(members, "no_data_timeframe", 0)?;
                let notify_audit = read_or::<bool>(members, "notify_audit", false)?;
                let notify_no_data = read_or::<bool>(members, "notify_no_data", false)?;
                let renotify_interval = read_or::<u64>(members, "renotify_interval", 0)?;
                let renotify_occurrences = read_or::<u64>(members, "renotify_occurrences", 0)?;
                let renotify_statuses = read_list::<String>(members, "renotify_statuses")?;
                let require_full_window = read_or::<bool>(members, "require_full_window", false)?;
                let synthetics_check_id = read_or::<String>(
                    members,
                    "synthetics_check_id",
                    String::new(),
                )?;
                let threshold_windows = read_or::<ThresholdWindows>(
                    members,
                    "threshold_windows",
                    ThresholdWindows::default(),
                )?;
                let thresholds = read_or::<Thresholds>(
                    members,
                    "thresholds",
                    Thresholds::default(),
                )?;
                let timeout_h = read_or::<u64>(members, "timeout_h", 0)?;
                Some(
                    MonitorOptions {
                        aggregation,
                        device_ids,
                        enable_logs_sample,
                        escalation_message,
                        evaluation_delay,
                        groupby_simple_monitor,
                        include_tags,
                        locked,
                        min_failure_duration,
                        min_location_failed,
                        new_group_delay,
                        new_host_delay,
                        no_data_timeframe,
                        notify_audit,
                        notify_no_data,
                        renotify_interval,
                        renotify_occurrences,
                        renotify_statuses,
                        require_full_window,
                        synthetics_check_id,
                        threshold_windows,
                        thresholds,
                        timeout_h,
                    },
                )
            },
            _ => None,
        }
    }
}

impl ToJson for MonitorOptions {
    open spec fn encoded(model: MonitorOptionsModel) -> Json {
        Json::Object(
            entry::<Aggregation>("aggregation"@, model.aggregation)
                + entry::<Vec<String>>("device_ids"@, model.device_ids)
                + entry::<bool>("enable_logs_sample"@, model.enable_logs_sample)
                + entry::<String>("escalation_message"@, model.escalation_message)
                + entry::<u64>("evaluation_delay"@, model.evaluation_delay)
                + entry::<bool>("groupby_simple_monitor"@, model.groupby_simple_monitor)
                + entry::<bool>("include_tags"@, model.include_tags)
                + entry::<bool>("locked"@, model.locked)
                + entry::<u64>("min_failure_duration"@, model.min_failure_duration)
                + entry::<u64>("min_location_failed"@, model.min_location_failed)
                + entry::<u64>("new_group_delay"@, model.new_group_delay)
                + entry::<u64>("new_host_delay"@, model.new_host_delay)
                + entry::<u64>("no_data_timeframe"@, model.no_data_timeframe)
                + entry::<bool>("notify_audit"@, model.notify_audit)
                + entry::<bool>("notify_no_data"@, model.notify_no_data)
                + entry::<u64>("renotify_interval"@, model.renotify_interval)
                + entry::<u64>("renotify_occurrences"@, model.renotify_occurrences)
                + entry::<Vec<String>>("renotify_statuses"@, model.renotify_statuses)
                + entry::<bool>("require_full_window"@, model.require_full_window)
                + entry::<String>("synthetics_check_id"@, model.synthetics_check_id)
                + entry::<ThresholdWindows>("threshold_windows"@, model.threshold_windows)
                + entry::<Thresholds>("thresholds"@, model.thresholds)
                + entry::<u64>("timeout_h"@, model.timeout_h),
        )
    }

    fn to_json(&self) -> (r: JsonValue) {
        let mut members = no_members();
        put::<Aggregation>(&mut members, "aggregation", &self.aggregation);
        put::<Vec<String>>(&mut members, "device_ids", &self.device_ids);
        put::<bool>(&mut members, "enable_logs_sample", &self.enable_logs_sample);
        put::<String>(&mut members, "escalation_message", &self.escalation_message);
        put::<u64>(&mut members, "evaluation_delay", &self.evaluation_delay);
        put::<bool>(&mut members, "groupby_simple_monitor", &self.groupby_simple_monitor);
        put::<bool>(&mut members, "include_tags", &self.include_tags);
        put::<bool>(&mut members, "locked", &self.locked);
        put::<u64>(&mut members, "min_failure_duration", &self.min_failure_duration);
        put::<u64>(&mut members, "min_location_failed", &self.min_location_failed);
        put::<u64>(&mut members, "new_group_delay", &self.new_group_delay);
        put::<u64>(&mut members, "new_host_delay", &self.new_host_delay);
        put::<u64>(&mut members, "no_data_timeframe", &self.no_data_timeframe);
        put::<bool>(&mut members, "notify_audit", &self.notify_audit);
        put::<bool>(&mut members, "notify_no_data", &self.notify_no_data);
        put::<u64>(&mut members, "renotify_interval", &self.renotify_interval);
        put::<u64>(&mut members, "renotify_occurrences", &self.renotify_occurrences);
        put::<Vec<String>>(&mut members, "renotify_statuses", &self.renotify_statuses);
        put::<bool>(&mut members, "require_full_window", &self.require_full_window);
        put::<String>(&mut members, "synthetics_check_id", &self.synthetics_check_id);
        put::<ThresholdWindows>(&mut members, "threshold_windows", &self.threshold_windows);
        put::<Thresholds>(&mut members, "thresholds", &self.thresholds);
        put::<u64>(&mut members, "timeout_h", &self.timeout_h);
        proof {
            assert(members_view(members@) =~= Self::encoded(self@)->Object_0);
        }
        JsonValue::Object(members)
    }
}

impl RoundTrip for MonitorOptions {
    #[verifier::rlimit(40)]
    proof fn lemma_round_trip(model: MonitorOptionsModel) {
        reveal_strlit("aggregation");
        reveal_strlit("device_ids");
        reveal_strlit("enable_logs_sample");
        reveal_strlit("escalation_message");
        reveal_strlit("evaluation_delay");
        reveal_strlit("groupby_simple_monitor");
        reveal_strlit("include_tags");
        reveal_strlit("locked");
        reveal_strlit("min_failure_duration");
        reveal_strlit("min_location_failed");
        reveal_strlit("new_group_delay");
        reveal_strlit("new_host_delay");
        reveal_strlit("no_data_timeframe");
        reveal_strlit("notify_audit");
        reveal_strlit("notify_no_data");
        reveal_strlit("renotify_interval");
        reveal_strlit("renotify_occurrences");
        reveal_strlit("renotify_statuses");
        reveal_strlit("require_full_window");
        reveal_strlit("synthetics_check_id");
        reveal_strlit("threshold_windows");
        reveal_strlit("thresholds");
        reveal_strlit("timeout_h");
        assert("aggregation"@.len() == 11);
        assert("device_ids"@.len() == 10);
        assert("enable_logs_sample"@.len() == 18);
        assert("escalation_message"@.len() == 18);
        assert("evaluation_delay"@.len() == 16);
        assert("groupby_simple_monitor"@.len() == 22);
        assert("include_tags"@.len() == 12);
        assert("locked"@.len() == 6);
        assert("min_failure_duration"@.len() == 20);
        assert("min_location_failed"@.len() == 19);
        assert("new_group_delay"@.len() == 15);
        assert("new_host_delay"@.len() == 14);
        assert("no_data_timeframe"@.len() == 17);
        assert("notify_audit"@.len() == 12);
        assert("notify_no_data"@.len() == 14);
        assert("renotify_interval"@.len() == 17);
        assert("renotify_occurrences"@.len() == 20);
        assert("renotify_statuses"@.len() == 17);
        assert("require_full_window"@.len() == 19);
        assert("synthetics_check_id"@.len() == 19);
        assert("threshold_windows"@.len() == 17);
        assert("thresholds"@.len() == 10);
        assert("timeout_h"@.len() == 9);
        assert("device_ids"@[0] == 'd');
        assert("enable_logs_sample"@[1] == 'n');
        assert("escalation_message"@[1] == 's');
        assert("include_tags"@[0] == 'i');
        assert("min_failure_duration"@[0] == 'm');
        assert("min_location_failed"@[0] == 'm');
        assert("new_host_delay"@[1] == 'e');
        assert("no_data_timeframe"@[0] == 'n');
        assert("notify_audit"@[0] == 'n');
        assert("notify_no_data"@[1] == 'o');
        assert("renotify_interval"@[0] == 'r');
        assert("renotify_interval"@[9] == 'i');
        assert("renotify_occurrences"@[0] == 'r');
        assert("renotify_statuses"@[0] == 'r');
        assert("renotify_statuses"@[9] == 's');
        assert("require_full_window"@[0] == 'r');
        assert("synthetics_check_id"@[0] == 's');
        assert("threshold_windows"@[0] == 't');
        assert("thresholds"@[0] == 't');
        let members = Self::encoded(model)->Object_0;
        assert(field_or::<Aggregation>(
            members,
            "aggregation"@,
            Aggregation::default_model(),
        ) == Some(model.aggregation)) by {
            broadcast use group_member_lookup;
            Aggregation::lemma_round_trip(model.aggregation);
        }
        assert(field_or::<Vec<String>>(members, "device_ids"@, Seq::empty()) == Some(
            model.device_ids,
        )) by {
            broadcast use group_member_lookup;
            Vec::<String>::lemma_round_trip(model.device_ids);
        }
        assert(field_or::<bool>(members, "enable_logs_sample"@, false) == Some(
            model.enable_logs_sample,
        )) by {
            broadcast use group_member_lookup;
        }
        assert(field_or::<String>(members, "escalation_message"@, Seq::empty()) == Some(
            model.escalation_message,
        )) by {
            broadcast use group_member_lookup;
        }
        assert(field_or::<u64>(members, "evaluation_delay"@, 0) == Some(
            model.evaluation_delay,
        )) by {
            broadcast use group_member_lookup;
        }
        assert(field_or::<bool>(members, "groupby_simple_monitor"@, false) == Some(
            model.groupby_simple_monitor,
        )) by {
            broadcast use group_member_lookup;
        }
        assert(field_or::<bool>(members, "include_tags"@, false) == Some(model.include_tags)) by {
            broadcast use group_member_lookup;
        }
        assert(field_or::<bool>(members, "locked"@, false) == Some(model.locked)) by {
            broadcast use group_member_lookup;
        }
        assert(field_or::<u64>(members, "min_failure_duration"@, 0) == Some(
            model.min_failure_duration,
        )) by {
            broadcast use group_member_lookup;
        }
        assert(field_or::<u64>(members, "min_location_failed"@, 0) == Some(
            model.min_location_failed,
        )) by {
            broadcast use group_member_lookup;
        }
        assert(field_or::<u64>(members, "new_group_delay"@, 0) == Some(model.new_group_delay)) by {
            broadcast use group_member_lookup;
        }
        assert(field_or::<u64>(members, "new_host_delay"@, 0) == Some(model.new_host_delay)) by {
            broadcast use group_member_lookup;
        }
        assert(field_or::<u64>(members, "no_data_timeframe"@, 0) == Some(
            model.no_data_timeframe,
        )) by {
            broadcast use group_member_lookup;
        }
        assert(field_or::<bool>(members, "notify_audit"@, false) == Some(model.notify_audit)) by {
            broadcast use group_member_lookup;
        }
        assert(field_or::<bool>(members, "notify_no_data"@, false) == Some(
            model.notify_no_data,
        )) by {
            broadcast use group_member_lookup;
        }
        assert(field_or::<u64>(members, "renotify_interval"@, 0) == Some(
            model.renotify_interval,
        )) by {
            broadcast use group_member_lookup;
        }
        assert(field_or::<u64>(members, "renotify_occurrences"@, 0) == Some(
            model.renotify_occurrences,
        )) by {
            broadcast use group_member_lookup;
        }
        assert(field_or::<Vec<String>>(members, "renotify_statuses"@, Seq::empty()) == Some(
            model.renotify_statuses,
        )) by {
            broadcast use group_member_lookup;
            Vec::<String>::lemma_round_trip(model.renotify_statuses);
        }
        assert(field_or::<bool>(members, "require_full_window"@, false) == Some(
            model.require_full_window,
        )) by {
            broadcast use group_member_lookup;
        }
        assert(field_or::<String>(members, "synthetics_check_id"@, Seq::empty()) == Some(
            model.synthetics_check_id,
        )) by {
            broadcast use group_member_lookup;
        }
        assert(field_or::<ThresholdWindows>(
            members,
            "threshold_windows"@,
            ThresholdWindows::default_model(),
        ) == Some(model.threshold_windows)) by {
            broadcast use group_member_lookup;
            ThresholdWindows::lemma_round_trip(model.threshold_windows);
        }
        assert(field_or::<Thresholds>(members, "thresholds"@, Thresholds::default_model()) == Some(
            model.thresholds,
        )) by {
            broadcast use group_member_lookup;
            Thresholds::lemma_round_trip(model.thresholds);
        }
        assert(field_or::<u64>(members, "timeout_h"@, 0) == Some(model.timeout_h)) by {
            broadcast use group_member_lookup;
        }
    }
}

impl FromJson for Aggregation {
    open spec fn decoded(value: Json) -> Option<AggregationModel> {
        match value {
            Json::Object(members) => {
                let group_by = field_or::<String>(members, "group_by"@, Seq::empty());
                let metric = field_or::<String>(members, "metric"@, Seq::empty());
                let _type = field_or::<String>(members, "type"@, Seq::empty());
                if group_by is Some && metric is Some && _type is Some {
                    Some(
                        AggregationModel {
                            group_by: group_by->0,
                            metric: metric->0,
                            _type: _type->0,
                        },
                    )
                } else {
                    None
                }
            },
            _ => None,
        }
    }

    fn from_json(value: &JsonValue) -> (r: Option<Aggregation>) {
        match value {
            JsonValue::Object(members) => {
                let group_by = read_or::<String>(members, "group_by", String::new())?;
                let metric = read_or::<String>(members, "metric", String::new())?;
                let _type = read_or::<String>(members, "type", String::new())?;
                Some(Aggregation { group_by, metric, _type })
            },
            _ => None,
        }
    }
}

impl ToJson for Aggregation {
    open spec fn encoded(model: AggregationModel) -> Json {
        Json::Object(
            entry::<String>("group_by"@, model.group_by)
                + entry::<String>("metric"@, model.metric)
                + entry::<String>("type"@, model._type),
        )
    }

    fn to_json(&self) -> (r: JsonValue) {
        let mut members = no_members();
        put::<String>(&mut members, "group_by", &self.group_by);
        put::<String>(&mut members, "metric", &self.metric);
        put::<String>(&mut members, "type", &self._type);
        proof {
            assert(members_view(members@) =~= Self::encoded(self@)->Object_0);
        }
        JsonValue::Object(members)
    }
}

impl RoundTrip for Aggregation {
    proof fn lemma_round_trip(model: AggregationModel) {
        reveal_strlit("group_by");
        reveal_strlit("metric");
        reveal_strlit("type");
        assert("group_by"@.len() == 8);
        assert("metric"@.len() == 6);
        assert("type"@.len() == 4);
        let members = Self::encoded(model)->Object_0;
        assert(field_or::<String>(members, "group_by"@, Seq::empty()) == Some(model.group_by)) by {
            broadcast use group_member_lookup;
        }
        assert(field_or::<String>(members, "metric"@, Seq::empty()) == Some(model.metric)) by {
            broadcast use group_member_lookup;
        }
        assert(field_or::<String>(members, "type"@, Seq::empty()) == Some(model._type)) by {
            broadcast use group_member_lookup;
        }
    }
}

impl FromJson for Thresholds {
    open spec fn decoded(value: Json) -> Option<ThresholdsModel> {
        match value {
            Json::Object(members) => {
                let critical = field_or::<JsonNumber>(members, "critical"@, Num::Real("0.0"@));
                let critical_recovery = field_or::<JsonNumber>(
                    members,
                    "critical_recovery"@,
                    Num::Real("0.0"@),
                );
                let ok = field_or::<JsonNumber>(members, "ok"@, Num::Real("0.0"@));
                let unknown = field_or::<JsonNumber>(members, "unknown"@, Num::Real("0.0"@));
                let warning = field_or::<JsonNumber>(members, "warning"@, Num::Real("0.0"@));
                let warning_recovery = field_or::<JsonNumber>(
                    members,
                    "warning_recovery"@,
                    Num::Real("0.0"@),
                );
                if critical is Some
                    && critical_recovery is Some
                    && ok is Some
                    && unknown is Some
                    && warning is Some
                    && warning_recovery is Some {
                    Some(
                        ThresholdsModel {
                            critical: critical->0,
                            critical_recovery: critical_recovery->0,
                            ok: ok->0,
                            unknown: unknown->0,
                            warning: warning->0,
                            warning_recovery: warning_recovery->0,
                        },
                    )
                } else {
                    None
                }
            },
            _ => None,
        }
    }

    fn from_json(value: &JsonValue) -> (r: Option<Thresholds>) {
        match value {
            JsonValue::Object(members) => {
                let critical = read_or::<JsonNumber>(
                    members,
                    "critical",
                    JsonNumber::Real(String::from_str("0.0")),
                )?;
                let critical_recovery = read_or::<JsonNumber>(
                    members,
                    "critical_recovery",
                    JsonNumber::Real(String::from_str("0.0")),
                )?;
                let ok = read_or::<JsonNumber>(
                    members,
                    "ok",
                    JsonNumber::Real(String::from_str("0.0")),
                )?;
                let unknown = read_or::<JsonNumber>(
                    members,
                    "unknown",
                    JsonNumber::Real(String::from_str("0.0")),
                )?;
                let warning = read_or::<JsonNumber>(
                    members,
                    "warning",
                    JsonNumber::Real(String::from_str("0.0")),
                )?;
                let warning_recovery = read_or::<JsonNumber>(
                    members,
                    "warning_recovery",
                    JsonNumber::Real(String::from_str("0.0")),
                )?;
                Some(
                    Thresholds {
                        critical,
                        critical_recovery,
                        ok,
                        unknown,
                        warning,
                        warning_recovery,
                    },
                )
            },
            _ => None,
        }
    }
}

impl ToJson for Thresholds {
    open spec fn encoded(model: ThresholdsModel) -> Json {
        Json::Object(
            entry::<JsonNumber>("critical"@, model.critical)
                + entry::<JsonNumber>("critical_recovery"@, model.critical_recovery)
                + entry::<JsonNumber>("ok"@, model.ok)
                + entry::<JsonNumber>("unknown"@, model.unknown)
                + entry::<JsonNumber>("warning"@, model.warning)
                + entry::<JsonNumber>("warning_recovery"@, model.warning_recovery),
        )
    }

    fn to_json(&self) -> (r: JsonValue) {
        let mut members = no_members();
        put::<JsonNumber>(&mut members, "critical", &self.critical);
        put::<JsonNumber>(&mut members, "critical_recovery", &self.critical_recovery);
        put::<JsonNumber>(&mut members, "ok", &self.ok);
        put::<JsonNumber>(&mut members, "unknown", &self.unknown);
        put::<JsonNumber>(&mut members, "warning", &self.warning);
        put::<JsonNumber>(&mut members, "warning_recovery", &self.warning_recovery);
        proof {
            assert(members_view(members@) =~= Self::encoded(self@)->Object_0);
        }
        JsonValue::Object(members)
    }
}

impl RoundTrip for Thresholds {
    proof fn lemma_round_trip(model: ThresholdsModel) {
        reveal_strlit("critical");
        reveal_strlit("critical_recovery");
        reveal_strlit("ok");
        reveal_strlit("unknown");
        reveal_strlit("warning");
        reveal_strlit("warning_recovery");
        assert("critical"@.len() == 8);
        assert("critical_recovery"@.len() == 17);
        assert("ok"@.len() == 2);
        assert("unknown"@.len() == 7);
        assert("warning"@.len() == 7);
        assert("warning_recovery"@.len() == 16);
        assert("unknown"@[0] == 'u');
        assert("warning"@[0] == 'w');
        let members = Self::encoded(model)->Object_0;
        assert(field_or::<JsonNumber>(members, "critical"@, Num::Real("0.0"@)) == Some(
            model.critical,
        )) by {
            broadcast use group_member_lookup;
        }
        assert(field_or::<JsonNumber>(members, "critical_recovery"@, Num::Real("0.0"@)) == Some(
            model.critical_recovery,
        )) by {
            broadcast use group_member_lookup;
        }
        assert(field_or::<JsonNumber>(members, "ok"@, Num::Real("0.0"@)) == Some(model.ok)) by {
            broadcast use group_member_lookup;
        }
        assert(field_or::<JsonNumber>(members, "unknown"@, Num::Real("0.0"@)) == Some(
            model.unknown,
        )) by {
            broadcast use group_member_lookup;
        }
        assert(field_or::<JsonNumber>(members, "warning"@, Num::Real("0.0"@)) == Some(
            model.warning,
        )) by {
            broadcast use group_member_lookup;
        }
        assert(field_or::<JsonNumber>(members, "warning_recovery"@, Num::Real("0.0"@)) == Some(
            model.warning_recovery,
        )) by {
            broadcast use group_member_lookup;
        }
    }
}

impl FromJson for ThresholdWindows {
    open spec fn decoded(value: Json) -> Option<ThresholdWindowsModel> {
        match value {
            Json::Object(members) => {
                let recovery_window = field_or::<String>(members, "recovery_window"@, Seq::empty());
                let trigger_window = field_or::<String>(members, "trigger_window"@, Seq::empty());
                if recovery_window is Some && trigger_window is Some {
                    Some(
                        ThresholdWindowsModel {
                            recovery_window: recovery_window->0,
                            trigger_window: trigger_window->0,
                        },
                    )
                } else {
                    None
                }
            },
            _ => None,
        }
    }

    fn from_json(value: &JsonValue) -> (r: Option<ThresholdWindows>) {
        match value {
            JsonValue::Object(members) => {
                let recovery_window = read_or::<String>(members, "recovery_window", String::new())?;
                let trigger_window = read_or::<String>(members, "trigger_window", String::new())?;
                Some(ThresholdWindows { recovery_window, trigger_window })
            },
            _ => None,
        }
    }
}

impl ToJson for ThresholdWindows {
    open spec fn encoded(model: ThresholdWindowsModel) -> Json {
        Json::Object(
            entry::<String>("recovery_window"@, model.recovery_window)
                + entry::<String>("trigger_window"@, model.trigger_window),
        )
    }

    fn to_json(&self) -> (r: JsonValue) {
        let mut members = no_members();
        put::<String>(&mut members, "recovery_window", &self.recovery_window);
        put::<String>(&mut members, "trigger_window", &self.trigger_window);
        proof {
            assert(members_view(members@) =~= Self::encoded(self@)->Object_0);
        }
        JsonValue::Object(members)
    }
}

impl RoundTrip for ThresholdWindows {
    proof fn lemma_round_trip(model: ThresholdWindowsModel) {
        reveal_strlit("recovery_window");
        reveal_strlit("trigger_window");
        assert("recovery_window"@.len() == 15);
        assert("trigger_window"@.len() == 14);
        let members = Self::encoded(model)->Object_0;
        assert(field_or::<String>(members, "recovery_window"@, Seq::empty()) == Some(
            model.recovery_window,
        )) by {
            broadcast use group_member_lookup;
        }
        assert(field_or::<String>(members, "trigger_window"@, Seq::empty()) == Some(
            model.trigger_window,
        )) by {
            broadcast use group_member_lookup;
        }
    }
}

impl FromJson for CreateMonitorRequest {
    open spec fn decoded(value: Json) -> Option<CreateMonitorRequestModel> {
        match value {
            Json::Object(members) => {
                let message = field_or::<Option<String>>(members, "message"@, None);
                let name = field_or::<Option<String>>(members, "name"@, None);
                let options = field_or::<Option<MonitorOptions>>(members, "options"@, None);
                let priority = field_or::<Option<u8>>(members, "priority"@, None);
                let query = field_or::<String>(members, "query"@, Seq::empty());
                let restricted_roles = field_or::<Option<Vec<String>>>(
                    members,
                    "restricted_roles"@,
                    None,
                );
                let tags = field_or::<Option<Vec<String>>>(members, "tags"@, None);
                let _type = field_or::<MonitorType>(members, "type"@, MonitorType::default_model());
                if message is Some
                    && name is Some
                    && options is Some
                    && priority is Some
                    && query is Some
                    && restricted_roles is Some
                    && tags is Some
                    && _type is Some {
                    Some(
                        CreateMonitorRequestModel {
                            message: message->0,
                            name: name->0,
                            options: options->0,
                            priority: priority->0,
                            query: query->0,
                            restricted_roles: restricted_roles->0,
                            tags: tags->0,
                            _type: _type->0,
                        },
                    )
                } else {
                    None
                }
            },
            _ => None,
        }
    }

    fn from_json(value: &JsonValue) -> (r: Option<CreateMonitorRequest>) {
        match value {
            JsonValue::Object(members) => {
                let message = read_or::<Option<String>>(members, "message", None)?;
                let name = read_or::<Option<String>>(members, "name", None)?;
                let options = read_or::<Option<MonitorOptions>>(members, "options", None)?;
                let priority = read_or::<Option<u8>>(members, "priority", None)?;
                let query = read_or::<String>(members, "query", String::new())?;
                let restricted_roles = read_or::<Option<Vec<String>>>(
                    members,
                    "restricted_roles",
                    None,
                )?;
                let tags = read_or::<Option<Vec<String>>>(members, "tags", None)?;
                let _type = read_or::<MonitorType>(members, "type", MonitorType::default())?;
                Some(
                    CreateMonitorRequest {
                        message,
                        name,
                        options,
                        priority,
                        query,
                        restricted_roles,
                        tags,
                        _type,
                    },
                )
            },
            _ => None,
        }
    }
}

impl ToJson for CreateMonitorRequest {
    open spec fn encoded(model: CreateMonitorRequestModel) -> Json {
        Json::Object(
            optional_entry::<String>("message"@, model.message)
                + optional_entry::<String>("name"@, model.name)
                + optional_entry::<MonitorOptions>("options"@, model.options)
                + optional_entry::<u8>("priority"@, model.priority)
                + entry::<String>("query"@, model.query)
                + optional_entry::<Vec<String>>("restricted_roles"@, model.restricted_roles)
                + optional_entry::<Vec<String>>("tags"@, model.tags)
                + entry::<MonitorType>("type"@, model._type),
        )
    }

    fn to_json(&self) -> (r: JsonValue) {
        let mut members = no_members();
        put_optional::<String>(&mut members, "message", &self.message);
        put_optional::<String>(&mut members, "name", &self.name);
        put_optional::<MonitorOptions>(&mut members, "options", &self.options);
        put_optional::<u8>(&mut members, "priority", &self.priority);
        put::<String>(&mut members, "query", &self.query);
        put_optional::<Vec<String>>(&mut members, "restricted_roles", &self.restricted_roles);
        put_optional::<Vec<String>>(&mut members, "tags", &self.tags);
        put::<MonitorType>(&mut members, "type", &self._type);
        proof {
            assert(members_view(members@) =~= Self::encoded(self@)->Object_0);
        }
        JsonValue::Object(members)
    }
}

impl RoundTrip for CreateMonitorRequest {
    proof fn lemma_round_trip(model: CreateMonitorRequestModel) {
        reveal_strlit("message");
        reveal_strlit("name");
        reveal_strlit("options");
        reveal_strlit("priority");
        reveal_strlit("query");
        reveal_strlit("restricted_roles");
        reveal_strlit("tags");
        reveal_strlit("type");
        assert("message"@.len() == 7);
        assert("name"@.len() == 4);
        assert("options"@.len() == 7);
        assert("priority"@.len() == 8);
        assert("query"@.len() == 5);
        assert("restricted_roles"@.len() == 16);
        assert("tags"@.len() == 4);
        assert("type"@.len() == 4);
        assert("message"@[0] == 'm');
        assert("name"@[0] == 'n');
        assert("options"@[0] == 'o');
        assert("tags"@[0] == 't');
        assert("tags"@[1] == 'a');
        assert("type"@[0] == 't');
        assert("type"@[1] == 'y');
        let members = Self::encoded(model)->Object_0;
        assert(field_or::<Option<String>>(members, "message"@, None) == Some(model.message)) by {
            broadcast use group_member_lookup;
        }
        assert(field_or::<Option<String>>(members, "name"@, None) == Some(model.name)) by {
            broadcast use group_member_lookup;
        }
        assert(field_or::<Option<MonitorOptions>>(members, "options"@, None) == Some(
            model.options,
        )) by {
            broadcast use group_member_lookup;
            if let Some(x) = model.options {
                MonitorOptions::lemma_round_trip(x);
            }
        }
        assert(field_or::<Option<u8>>(members, "priority"@, None) == Some(model.priority)) by {
            broadcast use group_member_lookup;
        }
        assert(field_or::<String>(members, "query"@, Seq::empty()) == Some(model.query)) by {
            broadcast use group_member_lookup;
        }
        assert(field_or::<Option<Vec<String>>>(members, "restricted_roles"@, None) == Some(
            model.restricted_roles,
        )) by {
            broadcast use group_member_lookup;
            if let Some(x) = model.restricted_roles {
                Vec::<String>::lemma_round_trip(x);
            }
        }
        assert(field_or::<Option<Vec<String>>>(members, "tags"@, None) == Some(model.tags)) by {
            broadcast use group_member_lookup;
            if let Some(x) = model.tags {
                Vec::<String>::lemma_round_trip(x);
            }
        }
        assert(field_or::<MonitorType>(members, "type"@, MonitorType::default_model()) == Some(
            model._type,
        )) by {
            broadcast use group_member_lookup;
            MonitorType::lemma_round_trip(model._type);
        }
    }
}

impl FromJson for CreateMonitorResponse {
    open spec fn decoded(value: Json) -> Option<CreateMonitorResponseModel> {
        match value {
            Json::Object(members) => {
                let created = field_or::<String>(members, "created"@, Seq::empty());
                let creator = field_or::<User>(members, "creator"@, User::default_model());
                let classification = field_or::<String>(members, "classification"@, Seq::empty());
                let deleted = field_or::<Option<String>>(members, "deleted"@, None);
                let id = field_or::<u64>(members, "id"@, 0);
                let message = field_or::<String>(members, "message"@, Seq::empty());
                let modified = field_or::<String>(members, "modified"@, Seq::empty());
                let multi = field_or::<bool>(members, "multi"@, false);
                let name = field_or::<String>(members, "name"@, Seq::empty());
                let options = field_or::<Option<MonitorOptions>>(members, "options"@, None);
                let overall_state = field_or::<Status>(
                    members,
                    "overall_state"@,
                    Status::default_model(),
                );
                let priority = field_or::<Option<u8>>(members, "priority"@, None);
                let query = field_or::<String>(members, "query"@, Seq::empty());
                let restricted_roles = field_or::<Option<Vec<String>>>(
                    members,
                    "restricted_roles"@,
                    None,
                );
                let state = field_or::<State>(members, "state"@, State::default_model());
                let tags = field_or::<Vec<String>>(members, "tags"@, Seq::empty());
                let _type = field_or::<MonitorType>(members, "type"@, MonitorType::default_model());
                if created is Some
                    && creator is Some
                    && classification is Some
                    && deleted is Some
                    && id is Some
                    && message is Some
                    && modified is Some
                    && multi is Some
                    && name is Some
                    && options is Some
                    && overall_state is Some
                    && priority is Some
                    && query is Some
                    && restricted_roles is Some
                    && state is Some
                    && tags is Some
                    && _type is Some {
                    Some(
                        CreateMonitorResponseModel {
                            created: created->0,
                            creator: creator->0,
                            classification: classification->0,
                            deleted: deleted->0,
                            id: id->0,
                            message: message->0,
                            modified: modified->0,
                            multi: multi->0,
                            name: name->0,
                            options: options->0,
                            overall_state: overall_state->0,
                            priority: priority->0,
                            query: query->0,
                            restricted_roles: restricted_roles->0,
                            state: state->0,
                            tags: tags->0,
                            _type: _type->0,
                        },
                    )
                } else {
                    None
                }
            },
            _ => None,
        }
    }

    fn from_json(value: &JsonValue) -> (r: Option<CreateMonitorResponse>) {
        match value {
            JsonValue::Object(members) => {
                let created = read_or::<String>(members, "created", String::new())?;
                let creator = read_or::<User>(members, "creator", User::default())?;
                let classification = read_or::<String>(members, "classification", String::new())?;
                let deleted = read_or::<Option<String>>(members, "deleted", None)?;
                let id = read_or::<u64>(members, "id", 0)?;
                let message = read_or::<String>(members, "message", String::new())?;
                let modified = read_or::<String>(members, "modified", String::new())?;
                let multi = read_or::<bool>(members, "multi", false)?;
                let name = read_or::<String>(members, "name", String::new())?;
                let options = read_or::<Option<MonitorOptions>>(members, "options", None)?;
                let overall_state = read_or::<Status>(members, "overall_state", Status::default())?;
                let priority = read_or::<Option<u8>>(members, "priority", None)?;
                let query = read_or::<String>(members, "query", String::new())?;
                let restricted_roles = read_or::<Option<Vec<String>>>(
                    members,
                    "restricted_roles",
                    None,
                )?;
                let state = read_or::<State>(members, "state", State::default())?;
                let tags = read_list::<String>(members, "tags")?;
                let _type = read_or::<MonitorType>(members, "type", MonitorType::default())?;
                Some(
                    CreateMonitorResponse {
                        created,
                        creator,
                        classification,
                        deleted,
                        id,
                        message,
                        modified,
                        multi,
                        name,
                        options,
                        overall_state,
                        priority,
                        query,
                        restricted_roles,
                        state,
                        tags,
                        _type,
                    },
                )
            },
            _ => None,
        }
    }
}

impl ToJson for CreateMonitorResponse {
    open spec fn encoded(model: CreateMonitorResponseModel) -> Json {
        Json::Object(
            entry::<String>("created"@, model.created)
                + entry::<User>("creator"@, model.creator)
                + entry::<String>("classification"@, model.classification)
                + entry::<Option<String>>("deleted"@, model.deleted)
                + entry::<u64>("id"@, model.id)
                + entry::<String>("message"@, model.message)
                + entry::<String>("modified"@, model.modified)
                + entry::<bool>("multi"@, model.multi)
                + entry::<String>("name"@, model.name)
                + entry::<Option<MonitorOptions>>("options"@, model.options)
                + entry::<Status>("overall_state"@, model.overall_state)
                + entry::<Option<u8>>("priority"@, model.priority)
                + entry::<String>("query"@, model.query)
                + entry::<Option<Vec<String>>>("restricted_roles"@, model.restricted_roles)
                + entry::<State>("state"@, model.state)
                + entry::<Vec<String>>("tags"@, model.tags)
                + entry::<MonitorType>("type"@, model._type),
        )
    }

    fn to_json(&self) -> (r: JsonValue) {
        let mut members = no_members();
        put::<String>(&mut members, "created", &self.created);
        put::<User>(&mut members, "creator", &self.creator);
        put::<String>(&mut members, "classification", &self.classification);
        put::<Option<String>>(&mut members, "deleted", &self.deleted);
        put::<u64>(&mut members, "id", &self.id);
        put::<String>(&mut members, "message", &self.message);
        put::<String>(&mut members, "modified", &self.modified);
        put::<bool>(&mut members, "multi", &self.multi);
        put::<String>(&mut members, "name", &self.name);
        put::<Option<MonitorOptions>>(&mut members, "options", &self.options);
        put::<Status>(&mut members, "overall_state", &self.overall_state);
        put::<Option<u8>>(&mut members, "priority", &self.priority);
        put::<String>(&mut members, "query", &self.query);
        put::<Option<Vec<String>>>(&mut members, "restricted_roles", &self.restricted_roles);
        put::<State>(&mut members, "state", &self.state);
        put::<Vec<String>>(&mut members, "tags", &self.tags);
        put::<MonitorType>(&mut members, "type", &self._type);
        proof {
            assert(members_view(members@) =~= Self::encoded(self@)->Object_0);
        }
        JsonValue::Object(members)
    }
}

impl RoundTrip for CreateMonitorResponse {
    proof fn lemma_round_trip(model: CreateMonitorResponseModel) {
        reveal_strlit("created");
        reveal_strlit("creator");
        reveal_strlit("classification");
        reveal_strlit("deleted");
        reveal_strlit("id");
        reveal_strlit("message");
        reveal_strlit("modified");
        reveal_strlit("multi");
        reveal_strlit("name");
        reveal_strlit("options");
        reveal_strlit("overall_state");
        reveal_strlit("priority");
        reveal_strlit("query");
        reveal_strlit("restricted_roles");
        reveal_strlit("state");
        reveal_strlit("tags");
        reveal_strlit("type");
        assert("created"@.len() == 7);
        assert("creator"@.len() == 7);
        assert("classification"@.len() == 14);
        assert("deleted"@.len() == 7);
        assert("id"@.len() == 2);
        assert("message"@.len() == 7);
        assert("modified"@.len() == 8);
        assert("multi"@.len() == 5);
        assert("name"@.len() == 4);
        assert("options"@.len() == 7);
        assert("overall_state"@.len() == 13);
        assert("priority"@.len() == 8);
        assert("query"@.len() == 5);
        assert("restricted_roles"@.len() == 16);
        assert("state"@.len() == 5);
        assert("tags"@.len() == 4);
        assert("type"@.len() == 4);
        assert("created"@[0] == 'c');
        assert("created"@[5] == 'e');
        assert("creator"@[0] == 'c');
        assert("creator"@[5] == 'o');
        assert("deleted"@[0] == 'd');
        assert("message"@[0] == 'm');
        assert("modified"@[0] == 'm');
        assert("multi"@[0] == 'm');
        assert("name"@[0] == 'n');
        assert("options"@[0] == 'o');
        assert("priority"@[0] == 'p');
        assert("query"@[0] == 'q');
        assert("state"@[0] == 's');
        assert("tags"@[0] == 't');
        assert("tags"@[1] == 'a');
        assert("type"@[0] == 't');
        assert("type"@[1] == 'y');
        let members = Self::encoded(model)->Object_0;
        assert(field_or::<String>(members, "created"@, Seq::empty()) == Some(model.created)) by {
            broadcast use group_member_lookup;
        }
        assert(field_or::<User>(members, "creator"@, User::default_model()) == Some(
            model.creator,
        )) by {
            broadcast use group_member_lookup;
            User::lemma_round_trip(model.creator);
        }
        assert(field_or::<String>(members, "classification"@, Seq::empty()) == Some(
            model.classification,
        )) by {
            broadcast use group_member_lookup;
        }
        assert(field_or::<Option<String>>(members, "deleted"@, None) == Some(model.deleted)) by {
            broadcast use group_member_lookup;
        }
        assert(field_or::<u64>(members, "id"@, 0) == Some(model.id)) by {
            broadcast use group_member_lookup;
        }
        assert(field_or::<String>(members, "message"@, Seq::empty()) == Some(model.message)) by {
            broadcast use group_member_lookup;
        }
        assert(field_or::<String>(members, "modified"@, Seq::empty()) == Some(model.modified)) by {
            broadcast use group_member_lookup;
        }
        assert(field_or::<bool>(members, "multi"@, false) == Some(model.multi)) by {
            broadcast use group_member_lookup;
        }
        assert(field_or::<String>(members, "name"@, Seq::empty()) == Some(model.name)) by {
            broadcast use group_member_lookup;
        }
        assert(field_or::<Option<MonitorOptions>>(members, "options"@, None) == Some(
            model.options,
        )) by {
            broadcast use group_member_lookup;
            if let Some(x) = model.options {
                MonitorOptions::lemma_round_trip(x);
            }
        }
        assert(field_or::<Status>(members, "overall_state"@, Status::default_model()) == Some(
            model.overall_state,
        )) by {
            broadcast use group_member_lookup;
            Status::lemma_round_trip(model.overall_state);
        }
        assert(field_or::<Option<u8>>(members, "priority"@, None) == Some(model.priority)) by {
            broadcast use group_member_lookup;
        }
        assert(field_or::<String>(members, "query"@, Seq::empty()) == Some(model.query)) by {
            broadcast use group_member_lookup;
        }
        assert(field_or::<Option<Vec<String>>>(members, "restricted_roles"@, None) == Some(
            model.restricted_roles,
        )) by {
            broadcast use group_member_lookup;
            if let Some(x) = model.restricted_roles {
                Vec::<String>::lemma_round_trip(x);
            }
        }
        assert(field_or::<State>(members, "state"@, State::default_model()) == Some(
            model.state,
        )) by {
            broadcast use group_member_lookup;
            State::lemma_round_trip(model.state);
        }
        assert(field_or::<Vec<String>>(members, "tags"@, Seq::empty()) == Some(model.tags)) by {
            broadcast use group_member_lookup;
            Vec::<String>::lemma_round_trip(model.tags);
        }
        assert(field_or::<MonitorType>(members, "type"@, MonitorType::default_model()) == Some(
            model._type,
        )) by {
            broadcast use group_member_lookup;
            MonitorType::lemma_round_trip(model._type);
        }
    }
}

impl FromJson for State {
    open spec fn decoded(value: Json) -> Option<StateModel> {
        match value {
            Json::Object(members) => {
                let groups = field_or::<Dictionary<GroupState>>(members, "groups"@, Seq::empty());
                if groups is Some {
                    Some(
                        StateModel {
                            groups: groups->0,
                        },
                    )
                } else {
                    None
                }
            },
            _ => None,
        }
    }

    fn from_json(value: &JsonValue) -> (r: Option<State>) {
        match value {
            JsonValue::Object(members) => {
                let groups = read_or::<Dictionary<GroupState>>(
                    members,
                    "groups",
                    Dictionary::new(),
                )?;
                Some(State { groups })
            },
            _ => None,
        }
    }
}

impl ToJson for State {
    open spec fn encoded(model: StateModel) -> Json {
        Json::Object(entry::<Dictionary<GroupState>>("groups"@, model.groups))
    }

    fn to_json(&self) -> (r: JsonValue) {
        let mut members = no_members();
        put::<Dictionary<GroupState>>(&mut members, "groups", &self.groups);
        proof {
            assert(members_view(members@) =~= Self::encoded(self@)->Object_0);
        }
        JsonValue::Object(members)
    }
}

impl RoundTrip for State {
    proof fn lemma_round_trip(model: StateModel) {
        let members = Self::encoded(model)->Object_0;
        assert(field_or::<Dictionary<GroupState>>(members, "groups"@, Seq::empty()) == Some(
            model.groups,
        )) by {
            broadcast use group_member_lookup;
            Dictionary::<GroupState>::lemma_round_trip(model.groups);
        }
    }
}

impl FromJson for GroupState {
    open spec fn decoded(value: Json) -> Option<GroupStateModel> {
        match value {
            Json::Object(members) => {
                let last_nodata_ts = field_or::<u64>(members, "last_nodata_ts"@, 0);
                let last_notified_ts = field_or::<u64>(members, "last_notified_ts"@, 0);
                let last_resolved_ts = field_or::<u64>(members, "last_resolved_ts"@, 0);
                let last_triggered_ts = field_or::<u64>(members, "last_triggered_ts"@, 0);
                let name = field_or::<String>(members, "name"@, Seq::empty());
                let status = field_or::<Status>(members, "status"@, Status::default_model());
                if last_nodata_ts is Some
                    && last_notified_ts is Some
                    && last_resolved_ts is Some
                    && last_triggered_ts is Some
                    && name is Some
                    && status is Some {
                    Some(
                        GroupStateModel {
                            last_nodata_ts: last_nodata_ts->0,
                            last_notified_ts: last_notified_ts->0,
                            last_resolved_ts: last_resolved_ts->0,
                            last_triggered_ts: last_triggered_ts->0,
                            name: name->0,
                            status: status->0,
                        },
                    )
                } else {
                    None
                }
            },
            _ => None,
        }
    }

    fn from_json(value: &JsonValue) -> (r: Option<GroupState>) {
        match value {
            JsonValue::Object(members) => {
                let last_nodata_ts = read_or::<u64>(members, "last_nodata_ts", 0)?;
                let last_notified_ts = read_or::<u64>(members, "last_notified_ts", 0)?;
                let last_resolved_ts = read_or::<u64>(members, "last_resolved_ts", 0)?;
                let last_triggered_ts = read_or::<u64>(members, "last_triggered_ts", 0)?;
                let name = read_or::<String>(members, "name", String::new())?;
                let status = read_or::<Status>(members, "status", Status::default())?;
                Some(
                    GroupState {
                        last_nodata_ts,
                        last_notified_ts,
                        last_resolved_ts,
                        last_triggered_ts,
                        name,
                        status,
                    },
                )
            },
            _ => None,
        }
    }
}

impl ToJson for GroupState {
    open spec fn encoded(model: GroupStateModel) -> Json {
        Json::Object(
            entry::<u64>("last_nodata_ts"@, model.last_nodata_ts)
                + entry::<u64>("last_notified_ts"@, model.last_notified_ts)
                + entry::<u64>("last_resolved_ts"@, model.last_resolved_ts)
                + entry::<u64>("last_triggered_ts"@, model.last_triggered_ts)
                + entry::<String>("name"@, model.name)
                + entry::<Status>("status"@, model.status),
        )
    }

    fn to_json(&self) -> (r: JsonValue) {
        let mut members = no_members();
        put::<u64>(&mut members, "last_nodata_ts", &self.last_nodata_ts);
        put::<u64>(&mut members, "last_notified_ts", &self.last_notified_ts);
        put::<u64>(&mut members, "last_resolved_ts", &self.last_resolved_ts);
        put::<u64>(&mut members, "last_triggered_ts", &self.last_triggered_ts);
        put::<String>(&mut members, "name", &self.name);
        put::<Status>(&mut members, "status", &self.status);
        proof {
            assert(members_view(members@) =~= Self::encoded(self@)->Object_0);
        }
        JsonValue::Object(members)
    }
}

impl RoundTrip for GroupState {
    proof fn lemma_round_trip(model: GroupStateModel) {
        reveal_strlit("last_nodata_ts");
        reveal_strlit("last_notified_ts");
        reveal_strlit("last_resolved_ts");
        reveal_strlit("last_triggered_ts");
        reveal_strlit("name");
        reveal_strlit("status");
        assert("last_nodata_ts"@.len() == 14);
        assert("last_notified_ts"@.len() == 16);
        assert("last_resolved_ts"@.len() == 16);
        assert("last_triggered_ts"@.len() == 17);
        assert("name"@.len() == 4);
        assert("status"@.len() == 6);
        assert("last_notified_ts"@[5] == 'n');
        assert("last_resolved_ts"@[5] == 'r');
        let members = Self::encoded(model)->Object_0;
        assert(field_or::<u64>(members, "last_nodata_ts"@, 0) == Some(model.last_nodata_ts)) by {
            broadcast use group_member_lookup;
        }
        assert(field_or::<u64>(members, "last_notified_ts"@, 0) == Some(
            model.last_notified_ts,
        )) by {
            broadcast use group_member_lookup;
        }
        assert(field_or::<u64>(members, "last_resolved_ts"@, 0) == Some(
            model.last_resolved_ts,
        )) by {
            broadcast use group_member_lookup;
        }
        assert(field_or::<u64>(members, "last_triggered_ts"@, 0) == Some(
            model.last_triggered_ts,
        )) by {
            broadcast use group_member_lookup;
        }
        assert(field_or::<String>(members, "name"@, Seq::empty()) == Some(model.name)) by {
            broadcast use group_member_lookup;
        }
        assert(field_or::<Status>(members, "status"@, Status::default_model()) == Some(
            model.status,
        )) by {
            broadcast use group_member_lookup;
            Status::lemma_round_trip(model.status);
        }
    }
}

impl ToJson for EditMonitorRequest {
    open spec fn encoded(model: EditMonitorRequestModel) -> Json {
        Json::Object(
            optional_entry::<String>("message"@, model.message)
                + optional_entry::<String>("name"@, model.name)
                + optional_entry::<MonitorOptions>("options"@, model.options)
                + optional_entry::<u8>("priority"@, model.priority)
                + entry::<String>("query"@, model.query)
                + optional_entry::<Vec<String>>("restricted_roles"@, model.restricted_roles)
                + optional_entry::<Vec<String>>("tags"@, model.tags)
                + entry::<MonitorType>("type"@, model._type),
        )
    }

    fn to_json(&self) -> (r: JsonValue) {
        let mut members = no_members();
        put_optional::<String>(&mut members, "message", &self.message);
        put_optional::<String>(&mut members, "name", &self.name);
        put_optional::<MonitorOptions>(&mut members, "options", &self.options);
        put_optional::<u8>(&mut members, "priority", &self.priority);
        put::<String>(&mut members, "query", &self.query);
        put_optional::<Vec<String>>(&mut members, "restricted_roles", &self.restricted_roles);
        put_optional::<Vec<String>>(&mut members, "tags", &self.tags);
        put::<MonitorType>(&mut members, "type", &self._type);
        proof {
            assert(members_view(members@) =~= Self::encoded(self@)->Object_0);
        }
        JsonValue::Object(members)
    }
}

impl ToJson for DeleteMonitorRequest {
    open spec fn encoded(model: DeleteMonitorRequest) -> Json {
        Json::Object(Seq::empty())
    }

    fn to_json(&self) -> (r: JsonValue) {
        JsonValue::Object(no_members())
    }
}

impl FromJson for DeleteMonitorResponse {
    open spec fn decoded(value: Json) -> Option<DeleteMonitorResponse> {
        match value {
            Json::Object(members) => {
                let deleted_monitor_id = field_or::<u64>(members, "deleted_monitor_id"@, 0);
                if deleted_monitor_id is Some {
                    Some(
                        DeleteMonitorResponse {
                            deleted_monitor_id: deleted_monitor_id->0,
                        },
                    )
                } else {
                    None
                }
            },
            _ => None,
        }
    }

    fn from_json(value: &JsonValue) -> (r: Option<DeleteMonitorResponse>) {
        match value {
            JsonValue::Object(members) => {
                let deleted_monitor_id = read_or::<u64>(members, "deleted_monitor_id", 0)?;
                Some(DeleteMonitorResponse { deleted_monitor_id })
            },
            _ => None,
        }
    }
}

impl ToJson for DeleteMonitorResponse {
    open spec fn encoded(model: DeleteMonitorResponse) -> Json {
        Json::Object(entry::<u64>("deleted_monitor_id"@, model.deleted_monitor_id))
    }

    fn to_json(&self) -> (r: JsonValue) {
        let mut members = no_members();
        put::<u64>(&mut members, "deleted_monitor_id", &self.deleted_monitor_id);
        proof {
            assert(members_view(members@) =~= Self::encoded(self@)->Object_0);
        }
        JsonValue::Object(members)
    }
}

impl RoundTrip for DeleteMonitorResponse {
    proof fn lemma_round_trip(model: DeleteMonitorResponse) {
        let members = Self::encoded(model)->Object_0;
        assert(field_or::<u64>(members, "deleted_monitor_id"@, 0) == Some(
            model.deleted_monitor_id,
        )) by {
            broadcast use group_member_lookup;
        }
    }
}

} // verus!
