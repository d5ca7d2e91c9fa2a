//! How the values of `dashboard_lists` are written as JSON and read from it.
use crate::dashboard_lists::{
    AddDashboardListItemsRequest, AddDashboardListItemsRequestModel, AddDashboardListItemsResponse,
    AddDashboardListItemsResponseModel, Author, AuthorModel, Dashboard, DashboardModel,
    DashboardReference, DashboardReferenceModel, DeleteDashboardListItemsRequest,
    DeleteDashboardListItemsRequestModel, DeleteDashboardListItemsResponse,
    DeleteDashboardListItemsResponseModel, GetDashboardListItemsResponse,
    GetDashboardListItemsResponseModel,
};
use crate::json::{
    entry, field_or, group_member_lookup, members_view, no_members, put, read_list, read_or,
    FromJson, Json, JsonValue, RoundTrip, ToJson,
};
use vstd::prelude::*;

verus! {

impl FromJson for Author {
    open spec fn decoded(value: Json) -> Option<AuthorModel> {
        match value {
            Json::Object(members) => {
                let email = field_or::<Option<String>>(members, "email"@, None);
                let handle = field_or::<String>(members, "handle"@, Seq::empty());
                let name = field_or::<String>(members, "name"@, Seq::empty());
                if email is Some && handle is Some && name is Some {
                    Some(
                        AuthorModel {
                            email: email->0,
                            handle: handle->0,
                            name: name->0,
                        },
                    )
                } else {
                    None
                }
            },
            _ => None,
        }
    }

    fn from_json(value: &JsonValue) -> (r: Option<Author>) {
        match value {
            JsonValue::Object(members) => {
                let email = read_or::<Option<String>>(members, "email", None)?;
                let handle = read_or::<String>(members, "handle", String::new())?;
                let name = read_or::<String>(members, "name", String::new())?;
                Some(Author { email, handle, name })
            },
            _ => None,
        }
    }
}

impl ToJson for Author {
    open spec fn encoded(model: AuthorModel) -> Json {
        Json::Object(
            entry::<Option<String>>("email"@, model.email)
                + entry::<String>("handle"@, model.handle)
                + entry::<String>("name"@, model.name),
        )
    }

    fn to_json(&self) -> (r: JsonValue) {
        let mut members = no_members();
        put::<Option<String>>(&mut members, "email", &self.email);
        put::<String>(&mut members, "handle", &self.handle);
        put::<String>(&mut members, "name", &self.name);
        proof {
            assert(members_view(members@) =~= Self::encoded(self@)->Object_0);
        }
        JsonValue::Object(members)
    }
}

impl RoundTrip for Author {
    proof fn lemma_round_trip(model: AuthorModel) {
        reveal_strlit("email");
        reveal_strlit("handle");
        reveal_strlit("name");
        assert("email"@.len() == 5);
        assert("handle"@.len() == 6);
        assert("name"@.len() == 4);
        let members = Self::encoded(model)->Object_0;
        assert(field_or::<Option<String>>(members, "email"@, None) == Some(model.email)) by {
            broadcast use group_member_lookup;
        }
        assert(field_or::<String>(members, "handle"@, Seq::empty()) == Some(model.handle)) by {
            broadcast use group_member_lookup;
        }
        assert(field_or::<String>(members, "name"@, Seq::empty()) == Some(model.name)) by {
            broadcast use group_member_lookup;
        }
    }
}

impl FromJson for Dashboard {
    open spec fn decoded(value: Json) -> Option<DashboardModel> {
        match value {
            Json::Object(members) => {
                let author = field_or::<Author>(members, "author"@, Author::default_model());
                let created = field_or::<String>(members, "created"@, Seq::empty());
                let icon = field_or::<Option<String>>(members, "icon"@, None);
                let id = field_or::<String>(members, "id"@, Seq::empty());
                let is_favorite = field_or::<bool>(members, "is_favorite"@, false);
                let is_read_only = field_or::<bool>(members, "is_read_only"@, false);
                let is_shared = field_or::<bool>(members, "is_shared"@, false);
                let modified = field_or::<String>(members, "modified"@, Seq::empty());
                let popularity = field_or::<i32>(members, "popularity"@, 0);
                let title = field_or::<String>(members, "title"@, Seq::empty());
                let _type = field_or::<String>(members, "type"@, Seq::empty());
                let url = field_or::<String>(members, "url"@, Seq::empty());
                if author is Some
                    && created is Some
                    && icon is Some
                    && id is Some
                    && is_favorite is Some
                    && is_read_only is Some
                    && is_shared is Some
                    && modified is Some
                    && popularity is Some
                    && title is Some
                    && _type is Some
                    && url is Some {
                    Some(
                        DashboardModel {
                            author: author->0,
                            created: created->0,
                            icon: icon->0,
                            id: id->0,
                            is_favorite: is_favorite->0,
                            is_read_only: is_read_only->0,
                            is_shared: is_shared->0,
                            modified: modified->0,
                            popularity: popularity->0,
                            title: title->0,
                            _type: _type->0,
                            url: url->0,
                        },
                    )
                } else {
                    None
                }
            },
            _ => None,
        }
    }

    fn from_json(value: &JsonValue) -> (r: Option<Dashboard>) {
        match value {
            JsonValue::Object(members) => {
                let author = read_or::<Author>(members, "author", Author::default())?;
                let created = read_or::<String>(members, "created", String::new())?;
                let icon = read_or::<Option<String>>(members, "icon", None)?;
                let id = read_or::<String>(members, "id", String::new())?;
                let is_favorite = read_or::<bool>(members, "is_favorite", false)?;
                let is_read_only = read_or::<bool>(members, "is_read_only", false)?;
                let is_shared = read_or::<bool>(members, "is_shared", false)?;
                let modified = read_or::<String>(members, "modified", String::new())?;
                let popularity = read_or::<i32>(members, "popularity", 0)?;
                let title = read_or::<String>(members, "title", String::new())?;
                let _type = read_or::<String>(members, "type", String::new())?;
                let url = read_or::<String>(members, "url", String::new())?;
                Some(
                    Dashboard {
                        author,
                        created,
                        icon,
                        id,
                        is_favorite,
                        is_read_only,
                        is_shared,
                        modified,
                        popularity,
                        title,
                        _type,
                        url,
                    },
                )
            },
            _ => None,
        }
    }
}

impl ToJson for Dashboard {
    open spec fn encoded(model: DashboardModel) -> Json {
        Json::Object(
            entry::<Author>("author"@, model.author)
                + entry::<String>("created"@, model.created)
                + entry::<Option<String>>("icon"@, model.icon)
                + entry::<String>("id"@, model.id)
                + entry::<bool>("is_favorite"@, model.is_favorite)
                + entry::<bool>("is_read_only"@, model.is_read_only)
                + entry::<bool>("is_shared"@, model.is_shared)
                + entry::<String>("modified"@, model.modified)
                + entry::<i32>("popularity"@, model.popularity)
                + entry::<String>("title"@, model.title)
                + entry::<String>("type"@, model._type)
                + entry::<String>("url"@, model.url),
        )
    }

    fn to_json(&self) -> (r: JsonValue) {
        let mut members = no_members();
        put::<Author>(&mut members, "author", &self.author);
        put::<String>(&mut members, "created", &self.created);
        put::<Option<String>>(&mut members, "icon", &self.icon);
        put::<String>(&mut members, "id", &self.id);
        put::<bool>(&mut members, "is_favorite", &self.is_favorite);
        put::<bool>(&mut members, "is_read_only", &self.is_read_only);
        put::<bool>(&mut members, "is_shared", &self.is_shared);
        put::<String>(&mut members, "modified", &self.modified);
        put::<i32>(&mut members, "popularity", &self.popularity);
        put::<String>(&mut members, "title", &self.title);
        put::<String>(&mut members, "type", &self._type);
        put::<String>(&mut members, "url", &self.url);
        proof {
            assert(members_view(members@) =~= Self::encoded(self@)->Object_0);
        }
        JsonValue::Object(members)
    }
}

impl RoundTrip for Dashboard {
    proof fn lemma_round_trip(model: DashboardModel) {
        reveal_strlit("author");
        reveal_strlit("created");
        reveal_strlit("icon");
        reveal_strlit("id");
        reveal_strlit("is_favorite");
        reveal_strlit("is_read_only");
        reveal_strlit("is_shared");
        reveal_strlit("modified");
        reveal_strlit("popularity");
        reveal_strlit("title");
        reveal_strlit("type");
        reveal_strlit("url");
        assert("author"@.len() == 6);
        assert("created"@.len() == 7);
        assert("icon"@.len() == 4);
        assert("id"@.len() == 2);
        assert("is_favorite"@.len() == 11);
        assert("is_read_only"@.len() == 12);
        assert("is_shared"@.len() == 9);
        assert("modified"@.len() == 8);
        assert("popularity"@.len() == 10);
        assert("title"@.len() == 5);
        assert("type"@.len() == 4);
        assert("url"@.len() == 3);
        assert("icon"@[0] == 'i');
        assert("type"@[0] == 't');
        let members = Self::encoded(model)->Object_0;
        assert(field_or::<Author>(members, "author"@, Author::default_model()) == Some(
            model.author,
        )) by {
            broadcast use group_member_lookup;
            Author::lemma_round_trip(model.author);
        }
        assert(field_or::<String>(members, "created"@, Seq::empty()) == Some(model.created)) by {
            broadcast use group_member_lookup;
        }
        assert(field_or::<Option<String>>(members, "icon"@, None) == Some(model.icon)) by {
            broadcast use group_member_lookup;
        }
        assert(field_or::<String>(members, "id"@, Seq::empty()) == Some(model.id)) by {
            broadcast use group_member_lookup;
        }
        assert(field_or::<bool>(members, "is_favorite"@, false) == Some(model.is_favorite)) by {
            broadcast use group_member_lookup;
        }
        assert(field_or::<bool>(members, "is_read_only"@, false) == Some(model.is_read_only)) by {
            broadcast use group_member_lookup;
        }
        assert(field_or::<bool>(members, "is_shared"@, false) == Some(model.is_shared)) by {
            broadcast use group_member_lookup;
        }
        assert(field_or::<String>(members, "modified"@, Seq::empty()) == Some(model.modified)) by {
            broadcast use group_member_lookup;
        }
        assert(field_or::<i32>(members, "popularity"@, 0) == Some(model.popularity)) by {
            broadcast use group_member_lookup;
        }
        assert(field_or::<String>(members, "title"@, Seq::empty()) == Some(model.title)) by {
            broadcast use group_member_lookup;
        }
        assert(field_or::<String>(members, "type"@, Seq::empty()) == Some(model._type)) by {
            broadcast use group_member_lookup;
        }
        assert(field_or::<String>(members, "url"@, Seq::empty()) == Some(model.url)) by {
            broadcast use group_member_lookup;
        }
    }
}

impl FromJson for GetDashboardListItemsResponse {
    open spec fn decoded(value: Json) -> Option<GetDashboardListItemsResponseModel> {
        match value {
            Json::Object(members) => {
                let dashboards = field_or::<Vec<Dashboard>>(members, "dashboards"@, Seq::empty());
                let total = field_or::<u64>(members, "total"@, 0);
                if dashboards is Some && total is Some {
                    Some(
                        GetDashboardListItemsResponseModel {
                            dashboards: dashboards->0,
                            total: total->0,
                        },
                    )
                } else {
                    None
                }
            },
            _ => None,
        }
    }

    fn from_json(value: &JsonValue) -> (r: Option<GetDashboardListItemsResponse>) {
        match value {
            JsonValue::Object(members) => {
                let dashboards = read_list::<Dashboard>(members, "dashboards")?;
                let total = read_or::<u64>(members, "total", 0)?;
                Some(GetDashboardListItemsResponse { dashboards, total })
            },
            _ => None,
        }
    }
}

impl ToJson for GetDashboardListItemsResponse {
    open spec fn encoded(model: GetDashboardListItemsResponseModel) -> Json {
        Json::Object(
            entry::<Vec<Dashboard>>("dashboards"@, model.dashboards)
                + entry::<u64>("total"@, model.total),
        )
    }

    fn to_json(&self) -> (r: JsonValue) {
        let mut members = no_members();
        put::<Vec<Dashboard>>(&mut members, "dashboards", &self.dashboards);
        put::<u64>(&mut members, "total", &self.total);
        proof {
            assert(members_view(members@) =~= Self::encoded(self@)->Object_0);
        }
        JsonValue::Object(members)
    }
}

impl RoundTrip for GetDashboardListItemsResponse {
    proof fn lemma_round_trip(model: GetDashboardListItemsResponseModel) {
        reveal_strlit("dashboards");
        reveal_strlit("total");
        assert("dashboards"@.len() == 10);
        assert("total"@.len() == 5);
        let members = Self::encoded(model)->Object_0;
        assert(field_or::<Vec<Dashboard>>(members, "dashboards"@, Seq::empty()) == Some(
            model.dashboards,
        )) by {
            broadcast use group_member_lookup;
            Vec::<Dashboard>::lemma_round_trip(model.dashboards);
        }
        assert(field_or::<u64>(members, "total"@, 0) == Some(model.total)) by {
            broadcast use group_member_lookup;
        }
    }
}

impl FromJson for DashboardReference {
    open spec fn decoded(value: Json) -> Option<DashboardReferenceModel> {
        match value {
            Json::Object(members) => {
                let id = field_or::<String>(members, "id"@, Seq::empty());
                let _type = field_or::<String>(members, "type"@, Seq::empty());
                if id is Some && _type is Some {
                    Some(
                        DashboardReferenceModel {
                            id: id->0,
                            _type: _type->0,
                        },
                    )
                } else {
                    None
                }
            },
            _ => None,
        }
    }

    fn from_json(value: &JsonValue) -> (r: Option<DashboardReference>) {
        match value {
            JsonValue::Object(members) => {
                let id = read_or::<String>(members, "id", String::new())?;
                let _type = read_or::<String>(members, "type", String::new())?;
                Some(DashboardReference { id, _type })
            },
            _ => None,
        }
    }
}

impl ToJson for DashboardReference {
    open spec fn encoded(model: DashboardReferenceModel) -> Json {
        Json::Object(entry::<String>("id"@, model.id) + entry::<String>("type"@, model._type))
    }

    fn to_json(&self) -> (r: JsonValue) {
        let mut members = no_members();
        put::<String>(&mut members, "id", &self.id);
        put::<String>(&mut members, "type", &self._type);
        proof {
            assert(members_view(members@) =~= Self::encoded(self@)->Object_0);
        }
        JsonValue::Object(members)
    }
}

impl RoundTrip for DashboardReference {
    proof fn lemma_round_trip(model: DashboardReferenceModel) {
        reveal_strlit("id");
        reveal_strlit("type");
        assert("id"@.len() == 2);
        assert("type"@.len() == 4);
        let members = Self::encoded(model)->Object_0;
        assert(field_or::<String>(members, "id"@, Seq::empty()) == Some(model.id)) by {
            broadcast use group_member_lookup;
        }
        assert(field_or::<String>(members, "type"@, Seq::empty()) == Some(model._type)) by {
            broadcast use group_member_lookup;
        }
    }
}

impl ToJson for AddDashboardListItemsRequest {
    open spec fn encoded(model: AddDashboardListItemsRequestModel) -> Json {
        Json::Object(entry::<Vec<DashboardReference>>("dashboards"@, model.dashboards))
    }

    fn to_json(&self) -> (r: JsonValue) {
        let mut members = no_members();
        put::<Vec<DashboardReference>>(&mut members, "dashboards", &self.dashboards);
        proof {
            assert(members_view(members@) =~= Self::encoded(self@)->Object_0);
        }
        JsonValue::Object(members)
    }
}

impl FromJson for AddDashboardListItemsResponse {
    open spec fn decoded(value: Json) -> Option<AddDashboardListItemsResponseModel> {
        match value {
            Json::Object(members) => {
                let added_dashboards_to_list = field_or::<Vec<DashboardReference>>(
                    members,
                    "added_dashboards_to_list"@,
                    Seq::empty(),
                );
                if added_dashboards_to_list is Some {
                    Some(
                        AddDashboardListItemsResponseModel {
                            added_dashboards_to_list: added_dashboards_to_list->0,
                        },
                    )
                } else {
                    None
                }
            },
            _ => None,
        }
    }

    fn from_json(value: &JsonValue) -> (r: Option<AddDashboardListItemsResponse>) {
        match value {
            JsonValue::Object(members) => {
                let added_dashboards_to_list = read_list::<DashboardReference>(
                    members,
                    "added_dashboards_to_list",
                )?;
                Some(AddDashboardListItemsResponse { added_dashboards_to_list })
            },
            _ => None,
        }
    }
}

impl ToJson for AddDashboardListItemsResponse {
    open spec fn encoded(model: AddDashboardListItemsResponseModel) -> Json {
        Json::Object(
            entry::<Vec<DashboardReference>>(
                "added_dashboards_to_list"@,
                model.added_dashboards_to_list,
            ),
        )
    }

    fn to_json(&self) -> (r: JsonValue) {
        let mut members = no_members();
        put::<Vec<DashboardReference>>(
            &mut members,
            "added_dashboards_to_list",
            &self.added_dashboards_to_list,
        );
        proof {
            assert(members_view(members@) =~= Self::encoded(self@)->Object_0);
        }
        JsonValue::Object(members)
    }
}

impl RoundTrip for AddDashboardListItemsResponse {
    proof fn lemma_round_trip(model: AddDashboardListItemsResponseModel) {
        let members = Self::encoded(model)->Object_0;
        assert(field_or::<Vec<DashboardReference>>(
            members,
            "added_dashboards_to_list"@,
            Seq::empty(),
        ) == Some(model.added_dashboards_to_list)) by {
            broadcast use group_member_lookup;
            Vec::<DashboardReference>::lemma_round_trip(model.added_dashboards_to_list);
        }
    }
}

impl ToJson for DeleteDashboardListItemsRequest {
    open spec fn encoded(model: DeleteDashboardListItemsRequestModel) -> Json {
        Json::Object(entry::<Vec<DashboardReference>>("dashboards"@, model.dashboards))
    }

    fn to_json(&self) -> (r: JsonValue) {
        let mut members = no_members();
        put::<Vec<DashboardReference>>(&mut members, "dashboards", &self.dashboards);
        proof {
            assert(members_view(members@) =~= Self::encoded(self@)->Object_0);
        }
        JsonValue::Object(members)
    }
}

impl FromJson for DeleteDashboardListItemsResponse {
    open spec fn decoded(value: Json) -> Option<DeleteDashboardListItemsResponseModel> {
        match value {
            Json::Object(members) => {
                let deleted_dashboards_from_list = field_or::<Vec<DashboardReference>>(
                    members,
                    "deleted_dashboards_from_list"@,
                    Seq::empty(),
                );
                if deleted_dashboards_from_list is Some {
                    Some(
                        DeleteDashboardListItemsResponseModel {
                            deleted_dashboards_from_list: deleted_dashboards_from_list->0,
                        },
                    )
                } else {
                    None
                }
            },
            _ => None,
        }
    }

    fn from_json(value: &JsonValue) -> (r: Option<DeleteDashboardListItemsResponse>) {
        match value {
            JsonValue::Object(members) => {
                let deleted_dashboards_from_list = read_list::<DashboardReference>(
                    members,
                    "deleted_dashboards_from_list",
                )?;
                Some(DeleteDashboardListItemsResponse { deleted_dashboards_from_list })
            },
            _ => None,
        }
    }
}

impl ToJson for DeleteDashboardListItemsResponse {
    open spec fn encoded(model: DeleteDashboardListItemsResponseModel) -> Json {
        Json::Object(
            entry::<Vec<DashboardReference>>(
                "deleted_dashboards_from_list"@,
                model.deleted_dashboards_from_list,
            ),
        )
    }

    fn to_json(&self) -> (r: JsonValue) {
        let mut members = no_members();
        put::<Vec<DashboardReference>>(
            &mut members,
            "deleted_dashboards_from_list",
            &self.deleted_dashboards_from_list,
        );
        proof {
            assert(members_view(members@) =~= Self::encoded(self@)->Object_0);
        }
        JsonValue::Object(members)
    }
}

impl RoundTrip for DeleteDashboardListItemsResponse {
    proof fn lemma_round_trip(model: DeleteDashboardListItemsResponseModel) {
        let members = Self::encoded(model)->Object_0;
        assert(field_or::<Vec<DashboardReference>>(
            members,
            "deleted_dashboards_from_list"@,
            Seq::empty(),
        ) == Some(model.deleted_dashboards_from_list)) by {
            broadcast use group_member_lookup;
            Vec::<DashboardReference>::lemma_round_trip(model.deleted_dashboards_from_list);
        }
    }
}

} // verus!
