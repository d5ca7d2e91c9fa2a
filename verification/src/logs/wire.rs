//! How the values of `logs` are written as JSON and read from it.
use crate::json::{
    entry, field_or, group_member_lookup, members_view, no_members, optional_entry, put,
    put_optional, read_list, read_or, Dictionary, FromJson, Json, JsonValue, RoundTrip, ToJson,
};
use crate::logs::{
    Data, DataModel, DataType, Filter, FilterModel, Links, LinksModel, Meta, MetaModel, MetaPage,
    MetaPageModel, Options, OptionsModel, Page, PageModel, SearchRequest, SearchRequestModel,
    SearchResponse, SearchResponseModel, Sort, Status, Warning, WarningModel,
};
use vstd::prelude::*;

verus! {

impl FromJson for Options {
    open spec fn decoded(value: Json) -> Option<OptionsModel> {
        match value {
            Json::Object(members) => {
                let time_offset = field_or::<Option<u64>>(members, "time_offset"@, None);
                let timezone = field_or::<Option<String>>(members, "timezone"@, None);
                if time_offset is Some && timezone is Some {
                    Some(
                        OptionsModel {
                            time_offset: time_offset->0,
                            timezone: timezone->0,
                        },
                    )
                } else {
                    None
                }
            },
            _ => None,
        }
    }

    fn from_json(value: &JsonValue) -> (r: Option<Options>) {
        match value {
            JsonValue::Object(members) => {
                let time_offset = read_or::<Option<u64>>(members, "time_offset", None)?;
                let timezone = read_or::<Option<String>>(members, "timezone", None)?;
                Some(Options { time_offset, timezone })
            },
            _ => None,
        }
    }
}

impl ToJson for Options {
    open spec fn encoded(model: OptionsModel) -> Json {
        Json::Object(
            optional_entry::<u64>("time_offset"@, model.time_offset)
                + optional_entry::<String>("timezone"@, model.timezone),
        )
    }

    fn to_json(&self) -> (r: JsonValue) {
        let mut members = no_members();
        put_optional::<u64>(&mut members, "time_offset", &self.time_offset);
        put_optional::<String>(&mut members, "timezone", &self.timezone);
        proof {
            assert(members_view(members@) =~= Self::encoded(self@)->Object_0);
        }
        JsonValue::Object(members)
    }
}

impl RoundTrip for Options {
    proof fn lemma_round_trip(model: OptionsModel) {
        reveal_strlit("time_offset");
        reveal_strlit("timezone");
        assert("time_offset"@.len() == 11);
        assert("timezone"@.len() == 8);
        let members = Self::encoded(model)->Object_0;
        assert(field_or::<Option<u64>>(members, "time_offset"@, None) == Some(
            model.time_offset,
        )) by {
            broadcast use group_member_lookup;
        }
        assert(field_or::<Option<String>>(members, "timezone"@, None) == Some(model.timezone)) by {
            broadcast use group_member_lookup;
        }
    }
}

impl FromJson for Page {
    open spec fn decoded(value: Json) -> Option<PageModel> {
        match value {
            Json::Object(members) => {
                let cursor = field_or::<Option<String>>(members, "cursor"@, None);
                let limit = field_or::<Option<u32>>(members, "limit"@, None);
                if cursor is Some && limit is Some {
                    Some(
                        PageModel {
                            cursor: cursor->0,
                            limit: limit->0,
                        },
                    )
                } else {
                    None
                }
            },
            _ => None,
        }
    }

    fn from_json(value: &JsonValue) -> (r: Option<Page>) {
        match value {
            JsonValue::Object(members) => {
                let cursor = read_or::<Option<String>>(members, "cursor", None)?;
                let limit = read_or::<Option<u32>>(members, "limit", None)?;
                Some(Page { cursor, limit })
            },
            _ => None,
        }
    }
}

impl ToJson for Page {
    open spec fn encoded(model: PageModel) -> Json {
        Json::Object(
            optional_entry::<String>("cursor"@, model.cursor)
                + optional_entry::<u32>("limit"@, model.limit),
        )
    }

    fn to_json(&self) -> (r: JsonValue) {
        let mut members = no_members();
        put_optional::<String>(&mut members, "cursor", &self.cursor);
        put_optional::<u32>(&mut members, "limit", &self.limit);
        proof {
            assert(members_view(members@) =~= Self::encoded(self@)->Object_0);
        }
        JsonValue::Object(members)
    }
}

impl RoundTrip for Page {
    proof fn lemma_round_trip(model: PageModel) {
        reveal_strlit("cursor");
        reveal_strlit("limit");
        assert("cursor"@.len() == 6);
        assert("limit"@.len() == 5);
        let members = Self::encoded(model)->Object_0;
        assert(field_or::<Option<String>>(members, "cursor"@, None) == Some(model.cursor)) by {
            broadcast use group_member_lookup;
        }
        assert(field_or::<Option<u32>>(members, "limit"@, None) == Some(model.limit)) by {
            broadcast use group_member_lookup;
        }
    }
}

impl FromJson for Sort {
    open spec fn decoded(value: Json) -> Option<Sort> {
        match value {
            Json::String(name) => Self::from_wire_name(name),
            _ => None,
        }
    }

    fn from_json(value: &JsonValue) -> (r: Option<Sort>) {
        match value {
            JsonValue::String(name) => Self::from_name(name.as_str()),
            _ => None,
        }
    }
}

impl ToJson for Sort {
    open spec fn encoded(model: Sort) -> Json {
        Json::String(model.wire_name())
    }

    fn to_json(&self) -> (r: JsonValue) {
        JsonValue::String(String::from_str(self.as_str()))
    }
}

impl RoundTrip for Sort {
    proof fn lemma_round_trip(model: Sort) {
        model.lemma_wire_name_round_trip();
    }
}

impl FromJson for Filter {
    open spec fn decoded(value: Json) -> Option<FilterModel> {
        match value {
            Json::Object(members) => {
                let from = field_or::<Option<String>>(members, "from"@, None);
                let indexes = field_or::<Option<Vec<String>>>(members, "indexes"@, None);
                let query = field_or::<Option<String>>(members, "query"@, None);
                let to = field_or::<Option<String>>(members, "to"@, None);
                if from is Some && indexes is Some && query is Some && to is Some {
                    Some(
                        FilterModel {
                            from: from->0,
                            indexes: indexes->0,
                            query: query->0,
                            to: to->0,
                        },
                    )
                } else {
                    None
                }
            },
            _ => None,
        }
    }

    fn from_json(value: &JsonValue) -> (r: Option<Filter>) {
        match value {
            JsonValue::Object(members) => {
                let from = read_or::<Option<String>>(members, "from", None)?;
                let indexes = read_or::<Option<Vec<String>>>(members, "indexes", None)?;
                let query = read_or::<Option<String>>(members, "query", None)?;
                let to = read_or::<Option<String>>(members, "to", None)?;
                Some(Filter { from, indexes, query, to })
            },
            _ => None,
        }
    }
}

impl ToJson for Filter {
    open spec fn encoded(model: FilterModel) -> Json {
        Json::Object(
            optional_entry::<String>("from"@, model.from)
                + optional_entry::<Vec<String>>("indexes"@, model.indexes)
                + optional_entry::<String>("query"@, model.query)
                + optional_entry::<String>("to"@, model.to),
        )
    }

    fn to_json(&self) -> (r: JsonValue) {
        let mut members = no_members();
        put_optional::<String>(&mut members, "from", &self.from);
        put_optional::<Vec<String>>(&mut members, "indexes", &self.indexes);
        put_optional::<String>(&mut members, "query", &self.query);
        put_optional::<String>(&mut members, "to", &self.to);
        proof {
            assert(members_view(members@) =~= Self::encoded(self@)->Object_0);
        }
        JsonValue::Object(members)
    }
}

impl RoundTrip for Filter {
    proof fn lemma_round_trip(model: FilterModel) {
        reveal_strlit("from");
        reveal_strlit("indexes");
        reveal_strlit("query");
        reveal_strlit("to");
        assert("from"@.len() == 4);
        assert("indexes"@.len() == 7);
        assert("query"@.len() == 5);
        assert("to"@.len() == 2);
        let members = Self::encoded(model)->Object_0;
        assert(field_or::<Option<String>>(members, "from"@, None) == Some(model.from)) by {
            broadcast use group_member_lookup;
        }
        assert(field_or::<Option<Vec<String>>>(members, "indexes"@, None) == Some(
            model.indexes,
        )) by {
            broadcast use group_member_lookup;
            if let Some(x) = model.indexes {
                Vec::<String>::lemma_round_trip(x);
            }
        }
        assert(field_or::<Option<String>>(members, "query"@, None) == Some(model.query)) by {
            broadcast use group_member_lookup;
        }
        assert(field_or::<Option<String>>(members, "to"@, None) == Some(model.to)) by {
            broadcast use group_member_lookup;
        }
    }
}

impl FromJson for SearchRequest {
    open spec fn decoded(value: Json) -> Option<SearchRequestModel> {
        match value {
            Json::Object(members) => {
                let filter = field_or::<Option<Filter>>(members, "filter"@, None);
                let options = field_or::<Option<Options>>(members, "options"@, None);
                let page = field_or::<Option<Page>>(members, "page"@, None);
                let sort = field_or::<Option<Sort>>(members, "sort"@, None);
                if filter is Some && options is Some && page is Some && sort is Some {
                    Some(
                        SearchRequestModel {
                            filter: filter->0,
                            options: options->0,
                            page: page->0,
                            sort: sort->0,
                        },
                    )
                } else {
                    None
                }
            },
            _ => None,
        }
    }

    fn from_json(value: &JsonValue) -> (r: Option<SearchRequest>) {
        match value {
            JsonValue::Object(members) => {
                let filter = read_or::<Option<Filter>>(members, "filter", None)?;
                let options = read_or::<Option<Options>>(members, "options", None)?;
                let page = read_or::<Option<Page>>(members, "page", None)?;
                let sort = read_or::<Option<Sort>>(members, "sort", None)?;
                Some(SearchRequest { filter, options, page, sort })
            },
            _ => None,
        }
    }
}

impl ToJson for SearchRequest {
    open spec fn encoded(model: SearchRequestModel) -> Json {
        Json::Object(
            optional_entry::<Filter>("filter"@, model.filter)
                + optional_entry::<Options>("options"@, model.options)
                + optional_entry::<Page>("page"@, model.page)
                + optional_entry::<Sort>("sort"@, model.sort),
        )
    }

    fn to_json(&self) -> (r: JsonValue) {
        let mut members = no_members();
        put_optional::<Filter>(&mut members, "filter", &self.filter);
        put_optional::<Options>(&mut members, "options", &self.options);
        put_optional::<Page>(&mut members, "page", &self.page);
        put_optional::<Sort>(&mut members, "sort", &self.sort);
        proof {
            assert(members_view(members@) =~= Self::encoded(self@)->Object_0);
        }
        JsonValue::Object(members)
    }
}

impl RoundTrip for SearchRequest {
    proof fn lemma_round_trip(model: SearchRequestModel) {
        reveal_strlit("filter");
        reveal_strlit("options");
        reveal_strlit("page");
        reveal_strlit("sort");
        assert("filter"@.len() == 6);
        assert("options"@.len() == 7);
        assert("page"@.len() == 4);
        assert("sort"@.len() == 4);
        assert("page"@[0] == 'p');
        assert("sort"@[0] == 's');
        let members = Self::encoded(model)->Object_0;
        assert(field_or::<Option<Filter>>(members, "filter"@, None) == Some(model.filter)) by {
            broadcast use group_member_lookup;
            if let Some(x) = model.filter {
                Filter::lemma_round_trip(x);
            }
        }
        assert(field_or::<Option<Options>>(members, "options"@, None) == Some(model.options)) by {
            broadcast use group_member_lookup;
            if let Some(x) = model.options {
                Options::lemma_round_trip(x);
            }
        }
        assert(field_or::<Option<Page>>(members, "page"@, None) == Some(model.page)) by {
            broadcast use group_member_lookup;
            if let Some(x) = model.page {
                Page::lemma_round_trip(x);
            }
        }
        assert(field_or::<Option<Sort>>(members, "sort"@, None) == Some(model.sort)) by {
            broadcast use group_member_lookup;
            if let Some(x) = model.sort {
                Sort::lemma_round_trip(x);
            }
        }
    }
}

impl FromJson for Data {
    open spec fn decoded(value: Json) -> Option<DataModel> {
        match value {
            Json::Object(members) => {
                let attributes = field_or::<Dictionary<JsonValue>>(
                    members,
                    "attributes"@,
                    Seq::empty(),
                );
                let id = field_or::<String>(members, "id"@, Seq::empty());
                let data_type = field_or::<Option<DataType>>(members, "type"@, None);
                if attributes is Some && id is Some && data_type is Some {
                    Some(
                        DataModel {
                            attributes: attributes->0,
                            id: id->0,
                            data_type: data_type->0,
                        },
                    )
                } else {
                    None
                }
            },
            _ => None,
        }
    }

    fn from_json(value: &JsonValue) -> (r: Option<Data>) {
        match value {
            JsonValue::Object(members) => {
                let attributes = read_or::<Dictionary<JsonValue>>(
                    members,
                    "attributes",
                    Dictionary::new(),
                )?;
                let id = read_or::<String>(members, "id", String::new())?;
                let data_type = read_or::<Option<DataType>>(members, "type", None)?;
                Some(Data { attributes, id, data_type })
            },
            _ => None,
        }
    }
}

impl ToJson for Data {
    open spec fn encoded(model: DataModel) -> Json {
        Json::Object(
            entry::<Dictionary<JsonValue>>("attributes"@, model.attributes)
                + entry::<String>("id"@, model.id)
                + optional_entry::<DataType>("type"@, model.data_type),
        )
    }

    fn to_json(&self) -> (r: JsonValue) {
        let mut members = no_members();
        put::<Dictionary<JsonValue>>(&mut members, "attributes", &self.attributes);
        put::<String>(&mut members, "id", &self.id);
        put_optional::<DataType>(&mut members, "type", &self.data_type);
        proof {
            assert(members_view(members@) =~= Self::encoded(self@)->Object_0);
        }
        JsonValue::Object(members)
    }
}

impl RoundTrip for Data {
    proof fn lemma_round_trip(model: DataModel) {
        reveal_strlit("attributes");
        reveal_strlit("id");
        reveal_strlit("type");
        assert("attributes"@.len() == 10);
        assert("id"@.len() == 2);
        assert("type"@.len() == 4);
        let members = Self::encoded(model)->Object_0;
        assert(field_or::<Dictionary<JsonValue>>(members, "attributes"@, Seq::empty()) == Some(
            model.attributes,
        )) by {
            broadcast use group_member_lookup;
            Dictionary::<JsonValue>::lemma_round_trip(model.attributes);
        }
        assert(field_or::<String>(members, "id"@, Seq::empty()) == Some(model.id)) by {
            broadcast use group_member_lookup;
        }
        assert(field_or::<Option<DataType>>(members, "type"@, None) == Some(model.data_type)) by {
            broadcast use group_member_lookup;
            if let Some(x) = model.data_type {
                DataType::lemma_round_trip(x);
            }
        }
    }
}

impl FromJson for DataType {
    open spec fn decoded(value: Json) -> Option<DataType> {
        match value {
            Json::String(name) => Self::from_wire_name(name),
            _ => None,
        }
    }

    fn from_json(value: &JsonValue) -> (r: Option<DataType>) {
        match value {
            JsonValue::String(name) => Self::from_name(name.as_str()),
            _ => None,
        }
    }
}

impl ToJson for DataType {
    open spec fn encoded(model: DataType) -> Json {
        Json::String(model.wire_name())
    }

    fn to_json(&self) -> (r: JsonValue) {
        JsonValue::String(String::from_str(self.as_str()))
    }
}

impl RoundTrip for DataType {
    proof fn lemma_round_trip(model: DataType) {
        model.lemma_wire_name_round_trip();
    }
}

impl FromJson for Status {
    open spec fn decoded(value: Json) -> Option<Status> {
        match value {
            Json::String(name) => Self::from_wire_name(name),
            _ => None,
        }
    }

    fn from_json(value: &JsonValue) -> (r: Option<Status>) {
        match value {
            JsonValue::String(name) => Self::from_name(name.as_str()),
            _ => None,
        }
    }
}

impl ToJson for Status {
    open spec fn encoded(model: Status) -> Json {
        Json::String(model.wire_name())
    }

    fn to_json(&self) -> (r: JsonValue) {
        JsonValue::String(String::from_str(self.as_str()))
    }
}

impl RoundTrip for Status {
    proof fn lemma_round_trip(model: Status) {
        model.lemma_wire_name_round_trip();
    }
}

impl FromJson for Warning {
    open spec fn decoded(value: Json) -> Option<WarningModel> {
        match value {
            Json::Object(members) => {
                let code = field_or::<String>(members, "code"@, Seq::empty());
                let default = field_or::<String>(members, "default"@, Seq::empty());
                let title = field_or::<String>(members, "title"@, Seq::empty());
                if code is Some && default is Some && title is Some {
                    Some(
                        WarningModel {
                            code: code->0,
                            default: default->0,
                            title: title->0,
                        },
                    )
                } else {
                    None
                }
            },
            _ => None,
        }
    }

    fn from_json(value: &JsonValue) -> (r: Option<Warning>) {
        match value {
            JsonValue::Object(members) => {
                let code = read_or::<String>(members, "code", String::new())?;
                let default = read_or::<String>(members, "default", String::new())?;
                let title = read_or::<String>(members, "title", String::new())?;
                Some(Warning { code, default, title })
            },
            _ => None,
        }
    }
}

impl ToJson for Warning {
    open spec fn encoded(model: WarningModel) -> Json {
        Json::Object(
            entry::<String>("code"@, model.code)
                + entry::<String>("default"@, model.default)
                + entry::<String>("title"@, model.title),
        )
    }

    fn to_json(&self) -> (r: JsonValue) {
        let mut members = no_members();
        put::<String>(&mut members, "code", &self.code);
        put::<String>(&mut members, "default", &self.default);
        put::<String>(&mut members, "title", &self.title);
        proof {
            assert(members_view(members@) =~= Self::encoded(self@)->Object_0);
        }
        JsonValue::Object(members)
    }
}

impl RoundTrip for Warning {
    proof fn lemma_round_trip(model: WarningModel) {
        reveal_strlit("code");
        reveal_strlit("default");
        reveal_strlit("title");
        assert("code"@.len() == 4);
        assert("default"@.len() == 7);
        assert("title"@.len() == 5);
        let members = Self::encoded(model)->Object_0;
        assert(field_or::<String>(members, "code"@, Seq::empty()) == Some(model.code)) by {
            broadcast use group_member_lookup;
        }
        assert(field_or::<String>(members, "default"@, Seq::empty()) == Some(model.default)) by {
            broadcast use group_member_lookup;
        }
        assert(field_or::<String>(members, "title"@, Seq::empty()) == Some(model.title)) by {
            broadcast use group_member_lookup;
        }
    }
}

impl FromJson for MetaPage {
    open spec fn decoded(value: Json) -> Option<MetaPageModel> {
        match value {
            Json::Object(members) => {
                let after = field_or::<String>(members, "after"@, Seq::empty());
                if after is Some {
                    Some(
                        MetaPageModel {
                            after: after->0,
                        },
                    )
                } else {
                    None
                }
            },
            _ => None,
        }
    }

    fn from_json(value: &JsonValue) -> (r: Option<MetaPage>) {
        match value {
            JsonValue::Object(members) => {
                let after = read_or::<String>(members, "after", String::new())?;
                Some(MetaPage { after })
            },
            _ => None,
        }
    }
}

impl ToJson for MetaPage {
    open spec fn encoded(model: MetaPageModel) -> Json {
        Json::Object(entry::<String>("after"@, model.after))
    }

    fn to_json(&self) -> (r: JsonValue) {
        let mut members = no_members();
        put::<String>(&mut members, "after", &self.after);
        proof {
            assert(members_view(members@) =~= Self::encoded(self@)->Object_0);
        }
        JsonValue::Object(members)
    }
}

impl RoundTrip for MetaPage {
    proof fn lemma_round_trip(model: MetaPageModel) {
        let members = Self::encoded(model)->Object_0;
        assert(field_or::<String>(members, "after"@, Seq::empty()) == Some(model.after)) by {
            broadcast use group_member_lookup;
        }
    }
}

impl FromJson for Links {
    open spec fn decoded(value: Json) -> Option<LinksModel> {
        match value {
            Json::Object(members) => {
                let next = field_or::<String>(members, "next"@, Seq::empty());
                if next is Some {
                    Some(
                        LinksModel {
                            next: next->0,
                        },
                    )
                } else {
                    None
                }
            },
            _ => None,
        }
    }

    fn from_json(value: &JsonValue) -> (r: Option<Links>) {
        match value {
            JsonValue::Object(members) => {
                let next = read_or::<String>(members, "next", String::new())?;
                Some(Links { next })
            },
            _ => None,
        }
    }
}

impl ToJson for Links {
    open spec fn encoded(model: LinksModel) -> Json {
        Json::Object(entry::<String>("next"@, model.next))
    }

    fn to_json(&self) -> (r: JsonValue) {
        let mut members = no_members();
        put::<String>(&mut members, "next", &self.next);
        proof {
            assert(members_view(members@) =~= Self::encoded(self@)->Object_0);
        }
        JsonValue::Object(members)
    }
}

impl RoundTrip for Links {
    proof fn lemma_round_trip(model: LinksModel) {
        let members = Self::encoded(model)->Object_0;
        assert(field_or::<String>(members, "next"@, Seq::empty()) == Some(model.next)) by {
            broadcast use group_member_lookup;
        }
    }
}

impl FromJson for Meta {
    open spec fn decoded(value: Json) -> Option<MetaModel> {
        match value {
            Json::Object(members) => {
                let elapsed = field_or::<Option<u64>>(members, "elapsed"@, None);
                let page = field_or::<Option<MetaPage>>(members, "page"@, None);
                let request_id = field_or::<Option<String>>(members, "request_id"@, None);
                let status = field_or::<Option<Status>>(members, "status"@, None);
                let warnings = field_or::<Option<Vec<Warning>>>(members, "warnings"@, None);
                if elapsed is Some
                    && page is Some
                    && request_id is Some
                    && status is Some
                    && warnings is Some {
                    Some(
                        MetaModel {
                            elapsed: elapsed->0,
                            page: page->0,
                            request_id: request_id->0,
                            status: status->0,
                            warnings: warnings->0,
                        },
                    )
                } else {
                    None
                }
            },
            _ => None,
        }
    }

    fn from_json(value: &JsonValue) -> (r: Option<Meta>) {
        match value {
            JsonValue::Object(members) => {
                let elapsed = read_or::<Option<u64>>(members, "elapsed", None)?;
                let page = read_or::<Option<MetaPage>>(members, "page", None)?;
                let request_id = read_or::<Option<String>>(members, "request_id", None)?;
                let status = read_or::<Option<Status>>(members, "status", None)?;
                let warnings = read_or::<Option<Vec<Warning>>>(members, "warnings", None)?;
                Some(Meta { elapsed, page, request_id, status, warnings })
            },
            _ => None,
        }
    }
}

impl ToJson for Meta {
    open spec fn encoded(model: MetaModel) -> Json {
        Json::Object(
            entry::<Option<u64>>("elapsed"@, model.elapsed)
                + entry::<Option<MetaPage>>("page"@, model.page)
                + entry::<Option<String>>("request_id"@, model.request_id)
                + entry::<Option<Status>>("status"@, model.status)
                + entry::<Option<Vec<Warning>>>("warnings"@, model.warnings),
        )
    }

    fn to_json(&self) -> (r: JsonValue) {
        let mut members = no_members();
        put::<Option<u64>>(&mut members, "elapsed", &self.elapsed);
        put::<Option<MetaPage>>(&mut members, "page", &self.page);
        put::<Option<String>>(&mut members, "request_id", &self.request_id);
        put::<Option<Status>>(&mut members, "status", &self.status);
        put::<Option<Vec<Warning>>>(&mut members, "warnings", &self.warnings);
        proof {
            assert(members_view(members@) =~= Self::encoded(self@)->Object_0);
        }
        JsonValue::Object(members)
    }
}

impl RoundTrip for Meta {
    proof fn lemma_round_trip(model: MetaModel) {
        reveal_strlit("elapsed");
        reveal_strlit("page");
        reveal_strlit("request_id");
        reveal_strlit("status");
        reveal_strlit("warnings");
        assert("elapsed"@.len() == 7);
        assert("page"@.len() == 4);
        assert("request_id"@.len() == 10);
        assert("status"@.len() == 6);
        assert("warnings"@.len() == 8);
        let members = Self::encoded(model)->Object_0;
        assert(field_or::<Option<u64>>(members, "elapsed"@, None) == Some(model.elapsed)) by {
            broadcast use group_member_lookup;
        }
        assert(field_or::<Option<MetaPage>>(members, "page"@, None) == Some(model.page)) by {
            broadcast use group_member_lookup;
            if let Some(x) = model.page {
                MetaPage::lemma_round_trip(x);
            }
        }
        assert(field_or::<Option<String>>(members, "request_id"@, None) == Some(
            model.request_id,
        )) by {
            broadcast use group_member_lookup;
        }
        assert(field_or::<Option<Status>>(members, "status"@, None) == Some(model.status)) by {
            broadcast use group_member_lookup;
            if let Some(x) = model.status {
                Status::lemma_round_trip(x);
            }
        }
        assert(field_or::<Option<Vec<Warning>>>(members, "warnings"@, None) == Some(
            model.warnings,
        )) by {
            broadcast use group_member_lookup;
            if let Some(x) = model.warnings {
                Vec::<Warning>::lemma_round_trip(x);
            }
        }
    }
}

impl FromJson for SearchResponse {
    open spec fn decoded(value: Json) -> Option<SearchResponseModel> {
        match value {
            Json::Object(members) => {
                let data = field_or::<Vec<Data>>(members, "data"@, Seq::empty());
                let links = field_or::<Links>(members, "links"@, Links::default_model());
                let meta = field_or::<Meta>(members, "meta"@, Meta::default_model());
                if data is Some && links is Some && meta is Some {
                    Some(
                        SearchResponseModel {
                            data: data->0,
                            links: links->0,
                            meta: meta->0,
                        },
                    )
                } else {
                    None
                }
            },
            _ => None,
        }
    }

    fn from_json(value: &JsonValue) -> (r: Option<SearchResponse>) {
        match value {
            JsonValue::Object(members) => {
                let data = read_list::<Data>(members, "data")?;
                let links = read_or::<Links>(members, "links", Links::default())?;
                let meta = read_or::<Meta>(members, "meta", Meta::default())?;
                Some(SearchResponse { data, links, meta })
            },
            _ => None,
        }
    }
}

impl ToJson for SearchResponse {
    open spec fn encoded(model: SearchResponseModel) -> Json {
        Json::Object(
            entry::<Vec<Data>>("data"@, model.data)
                + entry::<Links>("links"@, model.links)
                + entry::<Meta>("meta"@, model.meta),
        )
    }

    fn to_json(&self) -> (r: JsonValue) {
        let mut members = no_members();
        put::<Vec<Data>>(&mut members, "data", &self.data);
        put::<Links>(&mut members, "links", &self.links);
        put::<Meta>(&mut members, "meta", &self.meta);
        proof {
            assert(members_view(members@) =~= Self::encoded(self@)->Object_0);
        }
        JsonValue::Object(members)
    }
}

impl RoundTrip for SearchResponse {
    proof fn lemma_round_trip(model: SearchResponseModel) {
        reveal_strlit("data");
        reveal_strlit("links");
        reveal_strlit("meta");
        assert("data"@.len() == 4);
        assert("links"@.len() == 5);
        assert("meta"@.len() == 4);
        assert("data"@[0] == 'd');
        assert("meta"@[0] == 'm');
        let members = Self::encoded(model)->Object_0;
        assert(field_or::<Vec<Data>>(members, "data"@, Seq::empty()) == Some(model.data)) by {
            broadcast use group_member_lookup;
            Vec::<Data>::lemma_round_trip(model.data);
        }
        assert(field_or::<Links>(members, "links"@, Links::default_model()) == Some(
            model.links,
        )) by {
            broadcast use group_member_lookup;
            Links::lemma_round_trip(model.links);
        }
        assert(field_or::<Meta>(members, "meta"@, Meta::default_model()) == Some(model.meta)) by {
            broadcast use group_member_lookup;
            Meta::lemma_round_trip(model.meta);
        }
    }
}

} // verus!
