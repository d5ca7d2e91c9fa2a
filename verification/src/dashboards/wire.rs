//! How the values of `dashboards` are written as JSON and read from it.
use crate::dashboards::{
    CreateDashboardRequest, CreateDashboardRequestModel, CreateDashboardResponse,
    CreateDashboardResponseModel, LayoutType, ReflowType, TemplateVariable, TemplateVariablePreset,
    UpdateDashboardRequest, UpdateDashboardRequestModel, UpdateDashboardResponse,
    UpdateDashboardResponseModel, Widget, WidgetLayout, WidgetModel,
};
use crate::dashboards::widgets::WidgetDefinition;
use crate::json::{
    entry, field_or, group_member_lookup, members_view, no_members, optional_entry, put,
    put_optional, read_list, read_or, FromJson, Json, JsonValue, RoundTrip, ToJson,
};
use vstd::prelude::*;

verus! {

impl FromJson for LayoutType {
    open spec fn decoded(value: Json) -> Option<LayoutType> {
        match value {
            Json::String(name) => Self::from_wire_name(name),
            _ => None,
        }
    }

    fn from_json(value: &JsonValue) -> (r: Option<LayoutType>) {
        match value {
            JsonValue::String(name) => Self::from_name(name.as_str()),
            _ => None,
        }
    }
}

impl ToJson for LayoutType {
    open spec fn encoded(model: LayoutType) -> Json {
        Json::String(model.wire_name())
    }

    fn to_json(&self) -> (r: JsonValue) {
        JsonValue::String(String::from_str(self.as_str()))
    }
}

impl RoundTrip for LayoutType {
    proof fn lemma_round_trip(model: LayoutType) {
        model.lemma_wire_name_round_trip();
    }
}

impl FromJson for ReflowType {
    open spec fn decoded(value: Json) -> Option<ReflowType> {
        match value {
            Json::String(name) => Self::from_wire_name(name),
            _ => None,
        }
    }

    fn from_json(value: &JsonValue) -> (r: Option<ReflowType>) {
        match value {
            JsonValue::String(name) => Self::from_name(name.as_str()),
            _ => None,
        }
    }
}

impl ToJson for ReflowType {
    open spec fn encoded(model: ReflowType) -> Json {
        Json::String(model.wire_name())
    }

    fn to_json(&self) -> (r: JsonValue) {
        JsonValue::String(String::from_str(self.as_str()))
    }
}

impl RoundTrip for ReflowType {
    proof fn lemma_round_trip(model: ReflowType) {
        model.lemma_wire_name_round_trip();
    }
}

impl FromJson for TemplateVariablePreset {
    open spec fn decoded(value: Json) -> Option<TemplateVariablePreset> {
        match value {
            Json::Object(_) => Some(TemplateVariablePreset {}),
            _ => None,
        }
    }

    fn from_json(value: &JsonValue) -> (r: Option<TemplateVariablePreset>) {
        match value {
            JsonValue::Object(_) => Some(TemplateVariablePreset {}),
            _ => None,
        }
    }
}

impl ToJson for TemplateVariablePreset {
    open spec fn encoded(model: TemplateVariablePreset) -> Json {
        Json::Object(Seq::empty())
    }

    fn to_json(&self) -> (r: JsonValue) {
        JsonValue::Object(no_members())
    }
}

impl RoundTrip for TemplateVariablePreset {
    proof fn lemma_round_trip(model: TemplateVariablePreset) {
    }
}

impl FromJson for TemplateVariable {
    open spec fn decoded(value: Json) -> Option<TemplateVariable> {
        match value {
            Json::Object(_) => Some(TemplateVariable {}),
            _ => None,
        }
    }

    fn from_json(value: &JsonValue) -> (r: Option<TemplateVariable>) {
        match value {
            JsonValue::Object(_) => Some(TemplateVariable {}),
            _ => None,
        }
    }
}

impl ToJson for TemplateVariable {
    open spec fn encoded(model: TemplateVariable) -> Json {
        Json::Object(Seq::empty())
    }

    fn to_json(&self) -> (r: JsonValue) {
        JsonValue::Object(no_members())
    }
}

impl RoundTrip for TemplateVariable {
    proof fn lemma_round_trip(model: TemplateVariable) {
    }
}

impl FromJson for WidgetLayout {
    open spec fn decoded(value: Json) -> Option<WidgetLayout> {
        match value {
            Json::Object(members) => {
                let is_column_break = field_or::<Option<bool>>(members, "is_column_break"@, None);
                let x = field_or::<i64>(members, "x"@, 0);
                let y = field_or::<i64>(members, "y"@, 0);
                let width = field_or::<i64>(members, "width"@, 0);
                let height = field_or::<i64>(members, "height"@, 0);
                if is_column_break is Some
                    && x is Some
                    && y is Some
                    && width is Some
                    && height is Some {
                    Some(
                        WidgetLayout {
                            is_column_break: is_column_break->0,
                            x: x->0,
                            y: y->0,
                            width: width->0,
                            height: height->0,
                        },
                    )
                } else {
                    None
                }
            },
            _ => None,
        }
    }

    fn from_json(value: &JsonValue) -> (r: Option<WidgetLayout>) {
        match value {
            JsonValue::Object(members) => {
                let is_column_break = read_or::<Option<bool>>(members, "is_column_break", None)?;
                let x = read_or::<i64>(members, "x", 0)?;
                let y = read_or::<i64>(members, "y", 0)?;
                let width = read_or::<i64>(members, "width", 0)?;
                let height = read_or::<i64>(members, "height", 0)?;
                Some(WidgetLayout { is_column_break, x, y, width, height })
            },
            _ => None,
        }
    }
}

impl ToJson for WidgetLayout {
    open spec fn encoded(model: WidgetLayout) -> Json {
        Json::Object(
            optional_entry::<bool>("is_column_break"@, model.is_column_break)
                + entry::<i64>("x"@, model.x)
                + entry::<i64>("y"@, model.y)
                + entry::<i64>("width"@, model.width)
                + entry::<i64>("height"@, model.height),
        )
    }

    fn to_json(&self) -> (r: JsonValue) {
        let mut members = no_members();
        put_optional::<bool>(&mut members, "is_column_break", &self.is_column_break);
        put::<i64>(&mut members, "x", &self.x);
        put::<i64>(&mut members, "y", &self.y);
        put::<i64>(&mut members, "width", &self.width);
        put::<i64>(&mut members, "height", &self.height);
        proof {
            assert(members_view(members@) =~= Self::encoded(self@)->Object_0);
        }
        JsonValue::Object(members)
    }
}

impl RoundTrip for WidgetLayout {
    proof fn lemma_round_trip(model: WidgetLayout) {
        reveal_strlit("is_column_break");
        reveal_strlit("x");
        reveal_strlit("y");
        reveal_strlit("width");
        reveal_strlit("height");
        assert("is_column_break"@.len() == 15);
        assert("x"@.len() == 1);
        assert("y"@.len() == 1);
        assert("width"@.len() == 5);
        assert("height"@.len() == 6);
        assert("x"@[0] == 'x');
        assert("y"@[0] == 'y');
        let members = Self::encoded(model)->Object_0;
        assert(field_or::<Option<bool>>(members, "is_column_break"@, None) == Some(
            model.is_column_break,
        )) by {
            broadcast use group_member_lookup;
        }
        assert(field_or::<i64>(members, "x"@, 0) == Some(model.x)) by {
            broadcast use group_member_lookup;
        }
        assert(field_or::<i64>(members, "y"@, 0) == Some(model.y)) by {
            broadcast use group_member_lookup;
        }
        assert(field_or::<i64>(members, "width"@, 0) == Some(model.width)) by {
            broadcast use group_member_lookup;
        }
        assert(field_or::<i64>(members, "height"@, 0) == Some(model.height)) by {
            broadcast use group_member_lookup;
        }
    }
}

impl FromJson for Widget {
    open spec fn decoded(value: Json) -> Option<WidgetModel> {
        match value {
            Json::Object(members) => {
                let id = field_or::<Option<i64>>(members, "id"@, None);
                let definition = field_or::<Option<WidgetDefinition>>(members, "definition"@, None);
                let layout = field_or::<Option<WidgetLayout>>(members, "layout"@, None);
                if id is Some && definition is Some && layout is Some {
                    Some(
                        WidgetModel {
                            id: id->0,
                            definition: definition->0,
                            layout: layout->0,
                        },
                    )
                } else {
                    None
                }
            },
            _ => None,
        }
    }

    fn from_json(value: &JsonValue) -> (r: Option<Widget>) {
        match value {
            JsonValue::Object(members) => {
                let id = read_or::<Option<i64>>(members, "id", None)?;
                let definition = read_or::<Option<WidgetDefinition>>(members, "definition", None)?;
                let layout = read_or::<Option<WidgetLayout>>(members, "layout", None)?;
                Some(Widget { id, definition, layout })
            },
            _ => None,
        }
    }
}

impl ToJson for Widget {
    open spec fn encoded(model: WidgetModel) -> Json {
        Json::Object(
            optional_entry::<i64>("id"@, model.id)
                + optional_entry::<WidgetDefinition>("definition"@, model.definition)
                + optional_entry::<WidgetLayout>("layout"@, model.layout),
        )
    }

    fn to_json(&self) -> (r: JsonValue) {
        let mut members = no_members();
        put_optional::<i64>(&mut members, "id", &self.id);
        put_optional::<WidgetDefinition>(&mut members, "definition", &self.definition);
        put_optional::<WidgetLayout>(&mut members, "layout", &self.layout);
        proof {
            assert(members_view(members@) =~= Self::encoded(self@)->Object_0);
        }
        JsonValue::Object(members)
    }
}

impl RoundTrip for Widget {
    proof fn lemma_round_trip(model: WidgetModel) {
        reveal_strlit("id");
        reveal_strlit("definition");
        reveal_strlit("layout");
        assert("id"@.len() == 2);
        assert("definition"@.len() == 10);
        assert("layout"@.len() == 6);
        let members = Self::encoded(model)->Object_0;
        assert(field_or::<Option<i64>>(members, "id"@, None) == Some(model.id)) by {
            broadcast use group_member_lookup;
        }
        assert(field_or::<Option<WidgetDefinition>>(members, "definition"@, None) == Some(
            model.definition,
        )) by {
            broadcast use group_member_lookup;
            if let Some(x) = model.definition {
                WidgetDefinition::lemma_round_trip(x);
            }
        }
        assert(field_or::<Option<WidgetLayout>>(members, "layout"@, None) == Some(
            model.layout,
        )) by {
            broadcast use group_member_lookup;
            if let Some(x) = model.layout {
                WidgetLayout::lemma_round_trip(x);
            }
        }
    }
}

impl ToJson for UpdateDashboardRequest {
    open spec fn encoded(model: UpdateDashboardRequestModel) -> Json {
        Json::Object(
            optional_entry::<String>("description"@, model.description)
                + optional_entry::<bool>("is_read_only"@, model.is_read_only)
                + entry::<LayoutType>("layout_type"@, model.layout_type)
                + optional_entry::<Vec<String>>("notify_list"@, model.notify_list)
                + optional_entry::<ReflowType>("reflow_type"@, model.reflow_type)
                + optional_entry::<Vec<String>>("restricted_roles"@, model.restricted_roles)
                + optional_entry::<Vec<TemplateVariablePreset>>(
                    "template_variable_presets"@,
                    model.template_variable_presets,
                )
                + optional_entry::<Vec<TemplateVariable>>(
                    "template_variables"@,
                    model.template_variables,
                )
                + entry::<String>("title"@, model.title)
                + entry::<Vec<Widget>>("widgets"@, model.widgets),
        )
    }

    fn to_json(&self) -> (r: JsonValue) {
        let mut members = no_members();
        put_optional::<String>(&mut members, "description", &self.description);
        put_optional::<bool>(&mut members, "is_read_only", &self.is_read_only);
        put::<LayoutType>(&mut members, "layout_type", &self.layout_type);
        put_optional::<Vec<String>>(&mut members, "notify_list", &self.notify_list);
        put_optional::<ReflowType>(&mut members, "reflow_type", &self.reflow_type);
        put_optional::<Vec<String>>(&mut members, "restricted_roles", &self.restricted_roles);
        put_optional::<Vec<TemplateVariablePreset>>(
            &mut members,
            "template_variable_presets",
            &self.template_variable_presets,
        );
        put_optional::<Vec<TemplateVariable>>(
            &mut members,
            "template_variables",
            &self.template_variables,
        );
        put::<String>(&mut members, "title", &self.title);
        put::<Vec<Widget>>(&mut members, "widgets", &self.widgets);
        proof {
            assert(members_view(members@) =~= Self::encoded(self@)->Object_0);
        }
        JsonValue::Object(members)
    }
}

impl FromJson for UpdateDashboardResponse {
    open spec fn decoded(value: Json) -> Option<UpdateDashboardResponseModel> {
        match value {
            Json::Object(members) => {
                let notify_list = field_or::<Option<Vec<String>>>(members, "notify_list"@, None);
                let description = field_or::<Option<String>>(members, "description"@, None);
                let restricted_roles = field_or::<Option<Vec<String>>>(
                    members,
                    "restricted_roles"@,
                    None,
                );
                let author_name = field_or::<String>(members, "author_name"@, Seq::empty());
                let author_handle = field_or::<String>(members, "author_handle"@, Seq::empty());
                let template_variables = field_or::<Option<Vec<TemplateVariable>>>(
                    members,
                    "template_variables"@,
                    None,
                );
                let is_read_only = field_or::<bool>(members, "is_read_only"@, false);
                let id = field_or::<String>(members, "id"@, Seq::empty());
                let title = field_or::<String>(members, "title"@, Seq::empty());
                let url = field_or::<String>(members, "url"@, Seq::empty());
                let created_at = field_or::<String>(members, "created_at"@, Seq::empty());
                let modified_at = field_or::<String>(members, "modified_at"@, Seq::empty());
                let layout_type = field_or::<LayoutType>(
                    members,
                    "layout_type"@,
                    LayoutType::default_model(),
                );
                let widgets = field_or::<Vec<Widget>>(members, "widgets"@, Seq::empty());
                if notify_list is Some
                    && description is Some
                    && restricted_roles is Some
                    && author_name is Some
                    && author_handle is Some
                    && template_variables is Some
                    && is_read_only is Some
                    && id is Some
                    && title is Some
                    && url is Some
                    && created_at is Some
                    && modified_at is Some
                    && layout_type is Some
                    && widgets is Some {
                    Some(
                        UpdateDashboardResponseModel {
                            notify_list: notify_list->0,
                            description: description->0,
                            restricted_roles: restricted_roles->0,
                            author_name: author_name->0,
                            author_handle: author_handle->0,
                            template_variables: template_variables->0,
                            is_read_only: is_read_only->0,
                            id: id->0,
                            title: title->0,
                            url: url->0,
                            created_at: created_at->0,
                            modified_at: modified_at->0,
                            layout_type: layout_type->0,
                            widgets: widgets->0,
                        },
                    )
                } else {
                    None
                }
            },
            _ => None,
        }
    }

    fn from_json(value: &JsonValue) -> (r: Option<UpdateDashboardResponse>) {
        match value {
            JsonValue::Object(members) => {
                let notify_list = read_or::<Option<Vec<String>>>(members, "notify_list", None)?;
                let description = read_or::<Option<String>>(members, "description", None)?;
                let restricted_roles = read_or::<Option<Vec<String>>>(
                    members,
                    "restricted_roles",
                    None,
                )?;
                let author_name = read_or::<String>(members, "author_name", String::new())?;
                let author_handle = read_or::<String>(members, "author_handle", String::new())?;
                let template_variables = read_or::<Option<Vec<TemplateVariable>>>(
                    members,
                    "template_variables",
                    None,
                )?;
                let is_read_only = read_or::<bool>(members, "is_read_only", false)?;
                let id = read_or::<String>(members, "id", String::new())?;
                let title = read_or::<String>(members, "title", String::new())?;
                let url = read_or::<String>(members, "url", String::new())?;
                let created_at = read_or::<String>(members, "created_at", String::new())?;
                let modified_at = read_or::<String>(members, "modified_at", String::new())?;
                let layout_type = read_or::<LayoutType>(
                    members,
                    "layout_type",
                    LayoutType::default(),
                )?;
                let widgets = read_list::<Widget>(members, "widgets")?;
                Some(
                    UpdateDashboardResponse {
                        notify_list,
                        description,
                        restricted_roles,
                        author_name,
                        author_handle,
                        template_variables,
                        is_read_only,
                        id,
                        title,
                        url,
                        created_at,
                        modified_at,
                        layout_type,
                        widgets,
                    },
                )
            },
            _ => None,
        }
    }
}

impl ToJson for UpdateDashboardResponse {
    open spec fn encoded(model: UpdateDashboardResponseModel) -> Json {
        Json::Object(
            entry::<Option<Vec<String>>>("notify_list"@, model.notify_list)
                + entry::<Option<String>>("description"@, model.description)
                + entry::<Option<Vec<String>>>("restricted_roles"@, model.restricted_roles)
                + entry::<String>("author_name"@, model.author_name)
                + entry::<String>("author_handle"@, model.author_handle)
                + entry::<Option<Vec<TemplateVariable>>>(
                    "template_variables"@,
                    model.template_variables,
                )
                + entry::<bool>("is_read_only"@, model.is_read_only)
                + entry::<String>("id"@, model.id)
                + entry::<String>("title"@, model.title)
                + entry::<String>("url"@, model.url)
                + entry::<String>("created_at"@, model.created_at)
                + entry::<String>("modified_at"@, model.modified_at)
                + entry::<LayoutType>("layout_type"@, model.layout_type)
                + entry::<Vec<Widget>>("widgets"@, model.widgets),
        )
    }

    fn to_json(&self) -> (r: JsonValue) {
        let mut members = no_members();
        put::<Option<Vec<String>>>(&mut members, "notify_list", &self.notify_list);
        put::<Option<String>>(&mut members, "description", &self.description);
        put::<Option<Vec<String>>>(&mut members, "restricted_roles", &self.restricted_roles);
        put::<String>(&mut members, "author_name", &self.author_name);
        put::<String>(&mut members, "author_handle", &self.author_handle);
        put::<Option<Vec<TemplateVariable>>>(
            &mut members,
            "template_variables",
            &self.template_variables,
        );
        put::<bool>(&mut members, "is_read_only", &self.is_read_only);
        put::<String>(&mut members, "id", &self.id);
        put::<String>(&mut members, "title", &self.title);
        put::<String>(&mut members, "url", &self.url);
        put::<String>(&mut members, "created_at", &self.created_at);
        put::<String>(&mut members, "modified_at", &self.modified_at);
        put::<LayoutType>(&mut members, "layout_type", &self.layout_type);
        put::<Vec<Widget>>(&mut members, "widgets", &self.widgets);
        proof {
            assert(members_view(members@) =~= Self::encoded(self@)->Object_0);
        }
        JsonValue::Object(members)
    }
}

impl RoundTrip for UpdateDashboardResponse {
    proof fn lemma_round_trip(model: UpdateDashboardResponseModel) {
        reveal_strlit("notify_list");
        reveal_strlit("description");
        reveal_strlit("restricted_roles");
        reveal_strlit("author_name");
        reveal_strlit("author_handle");
        reveal_strlit("template_variables");
        reveal_strlit("is_read_only");
        reveal_strlit("id");
        reveal_strlit("title");
        reveal_strlit("url");
        reveal_strlit("created_at");
        reveal_strlit("modified_at");
        reveal_strlit("layout_type");
        reveal_strlit("widgets");
        assert("notify_list"@.len() == 11);
        assert("description"@.len() == 11);
        assert("restricted_roles"@.len() == 16);
        assert("author_name"@.len() == 11);
        assert("author_handle"@.len() == 13);
        assert("template_variables"@.len() == 18);
        assert("is_read_only"@.len() == 12);
        assert("id"@.len() == 2);
        assert("title"@.len() == 5);
        assert("url"@.len() == 3);
        assert("created_at"@.len() == 10);
        assert("modified_at"@.len() == 11);
        assert("layout_type"@.len() == 11);
        assert("widgets"@.len() == 7);
        assert("notify_list"@[0] == 'n');
        assert("description"@[0] == 'd');
        assert("author_name"@[0] == 'a');
        assert("modified_at"@[0] == 'm');
        assert("layout_type"@[0] == 'l');
        let members = Self::encoded(model)->Object_0;
        assert(field_or::<Option<Vec<String>>>(members, "notify_list"@, None) == Some(
            model.notify_list,
        )) by {
            broadcast use group_member_lookup;
            if let Some(x) = model.notify_list {
                Vec::<String>::lemma_round_trip(x);
            }
        }
        assert(field_or::<Option<String>>(members, "description"@, None) == Some(
            model.description,
        )) by {
            broadcast use group_member_lookup;
        }
        assert(field_or::<Option<Vec<String>>>(members, "restricted_roles"@, None) == Some(
            model.restricted_roles,
        )) by {
            broadcast use group_member_lookup;
            if let Some(x) = model.restricted_roles {
                Vec::<String>::lemma_round_trip(x);
            }
        }
        assert(field_or::<String>(members, "author_name"@, Seq::empty()) == Some(
            model.author_name,
        )) by {
            broadcast use group_member_lookup;
        }
        assert(field_or::<String>(members, "author_handle"@, Seq::empty()) == Some(
            model.author_handle,
        )) by {
            broadcast use group_member_lookup;
        }
        assert(field_or::<Option<Vec<TemplateVariable>>>(
            members,
            "template_variables"@,
            None,
        ) == Some(model.template_variables)) by {
            broadcast use group_member_lookup;
            if let Some(x) = model.template_variables {
                Vec::<TemplateVariable>::lemma_round_trip(x);
            }
        }
        assert(field_or::<bool>(members, "is_read_only"@, false) == Some(model.is_read_only)) by {
            broadcast use group_member_lookup;
        }
        assert(field_or::<String>(members, "id"@, Seq::empty()) == Some(model.id)) by {
            broadcast use group_member_lookup;
        }
        assert(field_or::<String>(members, "title"@, Seq::empty()) == Some(model.title)) by {
            broadcast use group_member_lookup;
        }
        assert(field_or::<String>(members, "url"@, Seq::empty()) == Some(model.url)) by {
            broadcast use group_member_lookup;
        }
        assert(field_or::<String>(members, "created_at"@, Seq::empty()) == Some(
            model.created_at,
        )) by {
            broadcast use group_member_lookup;
        }
        assert(field_or::<String>(members, "modified_at"@, Seq::empty()) == Some(
            model.modified_at,
        )) by {
            broadcast use group_member_lookup;
        }
        assert(field_or::<LayoutType>(members, "layout_type"@, LayoutType::default_model()) == Some(
            model.layout_type,
        )) by {
            broadcast use group_member_lookup;
            LayoutType::lemma_round_trip(model.layout_type);
        }
        assert(field_or::<Vec<Widget>>(members, "widgets"@, Seq::empty()) == Some(
            model.widgets,
        )) by {
            broadcast use group_member_lookup;
            Vec::<Widget>::lemma_round_trip(model.widgets);
        }
    }
}

impl FromJson for CreateDashboardRequest {
    open spec fn decoded(value: Json) -> Option<CreateDashboardRequestModel> {
        match value {
            Json::Object(members) => {
                let description = field_or::<Option<String>>(members, "description"@, None);
                let is_read_only = field_or::<Option<bool>>(members, "is_read_only"@, None);
                let layout_type = field_or::<LayoutType>(
                    members,
                    "layout_type"@,
                    LayoutType::default_model(),
                );
                let notify_list = field_or::<Option<Vec<String>>>(members, "notify_list"@, None);
                let reflow_type = field_or::<Option<ReflowType>>(members, "reflow_type"@, None);
                let restricted_roles = field_or::<Option<Vec<String>>>(
                    members,
                    "restricted_roles"@,
                    None,
                );
                let template_variable_presets = field_or::<Option<Vec<TemplateVariablePreset>>>(
                    members,
                    "template_variable_presets"@,
                    None,
                );
                let template_variables = field_or::<Option<Vec<TemplateVariable>>>(
                    members,
                    "template_variables"@,
                    None,
                );
                let title = field_or::<String>(members, "title"@, Seq::empty());
                let widgets = field_or::<Vec<Widget>>(members, "widgets"@, Seq::empty());
                if description is Some
                    && is_read_only is Some
                    && layout_type is Some
                    && notify_list is Some
                    && reflow_type is Some
                    && restricted_roles is Some
                    && template_variable_presets is Some
                    && template_variables is Some
                    && title is Some
                    && widgets is Some {
                    Some(
                        CreateDashboardRequestModel {
                            description: description->0,
                            is_read_only: is_read_only->0,
                            layout_type: layout_type->0,
                            notify_list: notify_list->0,
                            reflow_type: reflow_type->0,
                            restricted_roles: restricted_roles->0,
                            template_variable_presets: template_variable_presets->0,
                            template_variables: template_variables->0,
                            title: title->0,
                            widgets: widgets->0,
                        },
                    )
                } else {
                    None
                }
            },
            _ => None,
        }
    }

    fn from_json(value: &JsonValue) -> (r: Option<CreateDashboardRequest>) {
        match value {
            JsonValue::Object(members) => {
                let description = read_or::<Option<String>>(members, "description", None)?;
                let is_read_only = read_or::<Option<bool>>(members, "is_read_only", None)?;
                let layout_type = read_or::<LayoutType>(
                    members,
                    "layout_type",
                    LayoutType::default(),
                )?;
                let notify_list = read_or::<Option<Vec<String>>>(members, "notify_list", None)?;
                let reflow_type = read_or::<Option<ReflowType>>(members, "reflow_type", None)?;
                let restricted_roles = read_or::<Option<Vec<String>>>(
                    members,
                    "restricted_roles",
                    None,
                )?;
                let template_variable_presets = read_or::<Option<Vec<TemplateVariablePreset>>>(
                    members,
                    "template_variable_presets",
                    None,
                )?;
                let template_variables = read_or::<Option<Vec<TemplateVariable>>>(
                    members,
                    "template_variables",
                    None,
                )?;
                let title = read_or::<String>(members, "title", String::new())?;
                let widgets = read_list::<Widget>(members, "widgets")?;
                Some(
                    CreateDashboardRequest {
                        description,
                        is_read_only,
                        layout_type,
                        notify_list,
                        reflow_type,
                        restricted_roles,
                        template_variable_presets,
                        template_variables,
                        title,
                        widgets,
                    },
                )
            },
            _ => None,
        }
    }
}

impl ToJson for CreateDashboardRequest {
    open spec fn encoded(model: CreateDashboardRequestModel) -> Json {
        Json::Object(
            optional_entry::<String>("description"@, model.description)
                + optional_entry::<bool>("is_read_only"@, model.is_read_only)
                + entry::<LayoutType>("layout_type"@, model.layout_type)
                + optional_entry::<Vec<String>>("notify_list"@, model.notify_list)
                + optional_entry::<ReflowType>("reflow_type"@, model.reflow_type)
                + optional_entry::<Vec<String>>("restricted_roles"@, model.restricted_roles)
                + optional_entry::<Vec<TemplateVariablePreset>>(
                    "template_variable_presets"@,
                    model.template_variable_presets,
                )
                + optional_entry::<Vec<TemplateVariable>>(
                    "template_variables"@,
                    model.template_variables,
                )
                + entry::<String>("title"@, model.title)
                + entry::<Vec<Widget>>("widgets"@, model.widgets),
        )
    }

    fn to_json(&self) -> (r: JsonValue) {
        let mut members = no_members();
        put_optional::<String>(&mut members, "description", &self.description);
        put_optional::<bool>(&mut members, "is_read_only", &self.is_read_only);
        put::<LayoutType>(&mut members, "layout_type", &self.layout_type);
        put_optional::<Vec<String>>(&mut members, "notify_list", &self.notify_list);
        put_optional::<ReflowType>(&mut members, "reflow_type", &self.reflow_type);
        put_optional::<Vec<String>>(&mut members, "restricted_roles", &self.restricted_roles);
        put_optional::<Vec<TemplateVariablePreset>>(
            &mut members,
            "template_variable_presets",
            &self.template_variable_presets,
        );
        put_optional::<Vec<TemplateVariable>>(
            &mut members,
            "template_variables",
            &self.template_variables,
        );
        put::<String>(&mut members, "title", &self.title);
        put::<Vec<Widget>>(&mut members, "widgets", &self.widgets);
        proof {
            assert(members_view(members@) =~= Self::encoded(self@)->Object_0);
        }
        JsonValue::Object(members)
    }
}

impl RoundTrip for CreateDashboardRequest {
    proof fn lemma_round_trip(model: CreateDashboardRequestModel) {
        reveal_strlit("description");
        reveal_strlit("is_read_only");
        reveal_strlit("layout_type");
        reveal_strlit("notify_list");
        reveal_strlit("reflow_type");
        reveal_strlit("restricted_roles");
        reveal_strlit("template_variable_presets");
        reveal_strlit("template_variables");
        reveal_strlit("title");
        reveal_strlit("widgets");
        assert("description"@.len() == 11);
        assert("is_read_only"@.len() == 12);
        assert("layout_type"@.len() == 11);
        assert("notify_list"@.len() == 11);
        assert("reflow_type"@.len() == 11);
        assert("restricted_roles"@.len() == 16);
        assert("template_variable_presets"@.len() == 25);
        assert("template_variables"@.len() == 18);
        assert("title"@.len() == 5);
        assert("widgets"@.len() == 7);
        assert("description"@[0] == 'd');
        assert("layout_type"@[0] == 'l');
        assert("notify_list"@[0] == 'n');
        assert("reflow_type"@[0] == 'r');
        let members = Self::encoded(model)->Object_0;
        assert(field_or::<Option<String>>(members, "description"@, None) == Some(
            model.description,
        )) by {
            broadcast use group_member_lookup;
        }
        assert(field_or::<Option<bool>>(members, "is_read_only"@, None) == Some(
            model.is_read_only,
        )) by {
            broadcast use group_member_lookup;
        }
        assert(field_or::<LayoutType>(members, "layout_type"@, LayoutType::default_model()) == Some(
            model.layout_type,
        )) by {
            broadcast use group_member_lookup;
            LayoutType::lemma_round_trip(model.layout_type);
        }
        assert(field_or::<Option<Vec<String>>>(members, "notify_list"@, None) == Some(
            model.notify_list,
        )) by {
            broadcast use group_member_lookup;
            if let Some(x) = model.notify_list {
                Vec::<String>::lemma_round_trip(x);
            }
        }
        assert(field_or::<Option<ReflowType>>(members, "reflow_type"@, None) == Some(
            model.reflow_type,
        )) by {
            broadcast use group_member_lookup;
            if let Some(x) = model.reflow_type {
                ReflowType::lemma_round_trip(x);
            }
        }
        assert(field_or::<Option<Vec<String>>>(members, "restricted_roles"@, None) == Some(
            model.restricted_roles,
        )) by {
            broadcast use group_member_lookup;
            if let Some(x) = model.restricted_roles {
                Vec::<String>::lemma_round_trip(x);
            }
        }
        assert(field_or::<Option<Vec<TemplateVariablePreset>>>(
            members,
            "template_variable_presets"@,
            None,
        ) == Some(model.template_variable_presets)) by {
            broadcast use group_member_lookup;
            if let Some(x) = model.template_variable_presets {
                Vec::<TemplateVariablePreset>::lemma_round_trip(x);
            }
        }
        assert(field_or::<Option<Vec<TemplateVariable>>>(
            members,
            "template_variables"@,
            None,
        ) == Some(model.template_variables)) by {
            broadcast use group_member_lookup;
            if let Some(x) = model.template_variables {
                Vec::<TemplateVariable>::lemma_round_trip(x);
            }
        }
        assert(field_or::<String>(members, "title"@, Seq::empty()) == Some(model.title)) by {
            broadcast use group_member_lookup;
        }
        assert(field_or::<Vec<Widget>>(members, "widgets"@, Seq::empty()) == Some(
            model.widgets,
        )) by {
            broadcast use group_member_lookup;
            Vec::<Widget>::lemma_round_trip(model.widgets);
        }
    }
}

impl FromJson for CreateDashboardResponse {
    open spec fn decoded(value: Json) -> Option<CreateDashboardResponseModel> {
        match value {
            Json::Object(members) => {
                let author_handle = field_or::<String>(members, "author_handle"@, Seq::empty());
                let created_at = field_or::<String>(members, "created_at"@, Seq::empty());
                let description = field_or::<Option<String>>(members, "description"@, None);
                let id = field_or::<String>(members, "id"@, Seq::empty());
                let is_read_only = field_or::<bool>(members, "is_read_only"@, false);
                let layout_type = field_or::<LayoutType>(
                    members,
                    "layout_type"@,
                    LayoutType::default_model(),
                );
                let modified_at = field_or::<String>(members, "modified_at"@, Seq::empty());
                let notify_list = field_or::<Option<Vec<String>>>(members, "notify_list"@, None);
                let reflow_type = field_or::<Option<ReflowType>>(members, "reflow_type"@, None);
                let restricted_roles = field_or::<Option<Vec<String>>>(
                    members,
                    "restricted_roles"@,
                    None,
                );
                let template_variable_presets = field_or::<Option<Vec<TemplateVariablePreset>>>(
                    members,
                    "template_variable_presets"@,
                    None,
                );
                let template_variables = field_or::<Option<Vec<TemplateVariable>>>(
                    members,
                    "template_variables"@,
                    None,
                );
                let title = field_or::<String>(members, "title"@, Seq::empty());
                let url = field_or::<String>(members, "url"@, Seq::empty());
                let widgets = field_or::<Vec<Widget>>(members, "widgets"@, Seq::empty());
                if author_handle is Some
                    && created_at is Some
                    && description is Some
                    && id is Some
                    && is_read_only is Some
                    && layout_type is Some
                    && modified_at is Some
                    && notify_list is Some
                    && reflow_type is Some
                    && restricted_roles is Some
                    && template_variable_presets is Some
                    && template_variables is Some
                    && title is Some
                    && url is Some
                    && widgets is Some {
                    Some(
                        CreateDashboardResponseModel {
                            author_handle: author_handle->0,
                            created_at: created_at->0,
                            description: description->0,
                            id: id->0,
                            is_read_only: is_read_only->0,
                            layout_type: layout_type->0,
                            modified_at: modified_at->0,
                            notify_list: notify_list->0,
                            reflow_type: reflow_type->0,
                            restricted_roles: restricted_roles->0,
                            template_variable_presets: template_variable_presets->0,
                            template_variables: template_variables->0,
                            title: title->0,
                            url: url->0,
                            widgets: widgets->0,
                        },
                    )
                } else {
                    None
                }
            },
            _ => None,
        }
    }

    fn from_json(value: &JsonValue) -> (r: Option<CreateDashboardResponse>) {
        match value {
            JsonValue::Object(members) => {
                let author_handle = read_or::<String>(members, "author_handle", String::new())?;
                let created_at = read_or::<String>(members, "created_at", String::new())?;
                let description = read_or::<Option<String>>(members, "description", None)?;
                let id = read_or::<String>(members, "id", String::new())?;
                let is_read_only = read_or::<bool>(members, "is_read_only", false)?;
                let layout_type = read_or::<LayoutType>(
                    members,
                    "layout_type",
                    LayoutType::default(),
                )?;
                let modified_at = read_or::<String>(members, "modified_at", String::new())?;
                let notify_list = read_or::<Option<Vec<String>>>(members, "notify_list", None)?;
                let reflow_type = read_or::<Option<ReflowType>>(members, "reflow_type", None)?;
                let restricted_roles = read_or::<Option<Vec<String>>>(
                    members,
                    "restricted_roles",
                    None,
                )?;
                let template_variable_presets = read_or::<Option<Vec<TemplateVariablePreset>>>(
                    members,
                    "template_variable_presets",
                    None,
                )?;
                let template_variables = read_or::<Option<Vec<TemplateVariable>>>(
                    members,
                    "template_variables",
                    None,
                )?;
                let title = read_or::<String>(members, "title", String::new())?;
                let url = read_or::<String>(members, "url", String::new())?;
                let widgets = read_list::<Widget>(members, "widgets")?;
                Some(
                    CreateDashboardResponse {
                        author_handle,
                        created_at,
                        description,
                        id,
                        is_read_only,
                        layout_type,
                        modified_at,
                        notify_list,
                        reflow_type,
                        restricted_roles,
                        template_variable_presets,
                        template_variables,
                        title,
                        url,
                        widgets,
                    },
                )
            },
            _ => None,
        }
    }
}

impl ToJson for CreateDashboardResponse {
    open spec fn encoded(model: CreateDashboardResponseModel) -> Json {
        Json::Object(
            entry::<String>("author_handle"@, model.author_handle)
                + entry::<String>("created_at"@, model.created_at)
                + entry::<Option<String>>("description"@, model.description)
                + entry::<String>("id"@, model.id)
                + entry::<bool>("is_read_only"@, model.is_read_only)
                + entry::<LayoutType>("layout_type"@, model.layout_type)
                + entry::<String>("modified_at"@, model.modified_at)
                + entry::<Option<Vec<String>>>("notify_list"@, model.notify_list)
                + entry::<Option<ReflowType>>("reflow_type"@, model.reflow_type)
                + entry::<Option<Vec<String>>>("restricted_roles"@, model.restricted_roles)
                + entry::<Option<Vec<TemplateVariablePreset>>>(
                    "template_variable_presets"@,
                    model.template_variable_presets,
                )
                + entry::<Option<Vec<TemplateVariable>>>(
                    "template_variables"@,
                    model.template_variables,
                )
                + entry::<String>("title"@, model.title)
                + entry::<String>("url"@, model.url)
                + entry::<Vec<Widget>>("widgets"@, model.widgets),
        )
    }

    fn to_json(&self) -> (r: JsonValue) {
        let mut members = no_members();
        put::<String>(&mut members, "author_handle", &self.author_handle);
        put::<String>(&mut members, "created_at", &self.created_at);
        put::<Option<String>>(&mut members, "description", &self.description);
        put::<String>(&mut members, "id", &self.id);
        put::<bool>(&mut members, "is_read_only", &self.is_read_only);
        put::<LayoutType>(&mut members, "layout_type", &self.layout_type);
        put::<String>(&mut members, "modified_at", &self.modified_at);
        put::<Option<Vec<String>>>(&mut members, "notify_list", &self.notify_list);
        put::<Option<ReflowType>>(&mut members, "reflow_type", &self.reflow_type);
        put::<Option<Vec<String>>>(&mut members, "restricted_roles", &self.restricted_roles);
        put::<Option<Vec<TemplateVariablePreset>>>(
            &mut members,
            "template_variable_presets",
            &self.template_variable_presets,
        );
        put::<Option<Vec<TemplateVariable>>>(
            &mut members,
            "template_variables",
            &self.template_variables,
        );
        put::<String>(&mut members, "title", &self.title);
        put::<String>(&mut members, "url", &self.url);
        put::<Vec<Widget>>(&mut members, "widgets", &self.widgets);
        proof {
            assert(members_view(members@) =~= Self::encoded(self@)->Object_0);
        }
        JsonValue::Object(members)
    }
}

impl RoundTrip for CreateDashboardResponse {
    proof fn lemma_round_trip(model: CreateDashboardResponseModel) {
        reveal_strlit("author_handle");
        reveal_strlit("created_at");
        reveal_strlit("description");
        reveal_strlit("id");
        reveal_strlit("is_read_only");
        reveal_strlit("layout_type");
        reveal_strlit("modified_at");
        reveal_strlit("notify_list");
        reveal_strlit("reflow_type");
        reveal_strlit("restricted_roles");
        reveal_strlit("template_variable_presets");
        reveal_strlit("template_variables");
        reveal_strlit("title");
        reveal_strlit("url");
        reveal_strlit("widgets");
        assert("author_handle"@.len() == 13);
        assert("created_at"@.len() == 10);
        assert("description"@.len() == 11);
        assert("id"@.len() == 2);
        assert("is_read_only"@.len() == 12);
        assert("layout_type"@.len() == 11);
        assert("modified_at"@.len() == 11);
        assert("notify_list"@.len() == 11);
        assert("reflow_type"@.len() == 11);
        assert("restricted_roles"@.len() == 16);
        assert("template_variable_presets"@.len() == 25);
        assert("template_variables"@.len() == 18);
        assert("title"@.len() == 5);
        assert("url"@.len() == 3);
        assert("widgets"@.len() == 7);
        assert("description"@[0] == 'd');
        assert("layout_type"@[0] == 'l');
        assert("modified_at"@[0] == 'm');
        assert("notify_list"@[0] == 'n');
        assert("reflow_type"@[0] == 'r');
        let members = Self::encoded(model)->Object_0;
        assert(field_or::<String>(members, "author_handle"@, Seq::empty()) == Some(
            model.author_handle,
        )) by {
            broadcast use group_member_lookup;
        }
        assert(field_or::<String>(members, "created_at"@, Seq::empty()) == Some(
            model.created_at,
        )) by {
            broadcast use group_member_lookup;
        }
        assert(field_or::<Option<String>>(members, "description"@, None) == Some(
            model.description,
        )) by {
            broadcast use group_member_lookup;
        }
        assert(field_or::<String>(members, "id"@, Seq::empty()) == Some(model.id)) by {
            broadcast use group_member_lookup;
        }
        assert(field_or::<bool>(members, "is_read_only"@, false) == Some(model.is_read_only)) by {
            broadcast use group_member_lookup;
        }
        assert(field_or::<LayoutType>(members, "layout_type"@, LayoutType::default_model()) == Some(
            model.layout_type,
        )) by {
            broadcast use group_member_lookup;
            LayoutType::lemma_round_trip(model.layout_type);
        }
        assert(field_or::<String>(members, "modified_at"@, Seq::empty()) == Some(
            model.modified_at,
        )) by {
            broadcast use group_member_lookup;
        }
        assert(field_or::<Option<Vec<String>>>(members, "notify_list"@, None) == Some(
            model.notify_list,
        )) by {
            broadcast use group_member_lookup;
            if let Some(x) = model.notify_list {
                Vec::<String>::lemma_round_trip(x);
            }
        }
        assert(field_or::<Option<ReflowType>>(members, "reflow_type"@, None) == Some(
            model.reflow_type,
        )) by {
            broadcast use group_member_lookup;
            if let Some(x) = model.reflow_type {
                ReflowType::lemma_round_trip(x);
            }
        }
        assert(field_or::<Option<Vec<String>>>(members, "restricted_roles"@, None) == Some(
            model.restricted_roles,
        )) by {
            broadcast use group_member_lookup;
            if let Some(x) = model.restricted_roles {
                Vec::<String>::lemma_round_trip(x);
            }
        }
        assert(field_or::<Option<Vec<TemplateVariablePreset>>>(
            members,
            "template_variable_presets"@,
            None,
        ) == Some(model.template_variable_presets)) by {
            broadcast use group_member_lookup;
            if let Some(x) = model.template_variable_presets {
                Vec::<TemplateVariablePreset>::lemma_round_trip(x);
            }
        }
        assert(field_or::<Option<Vec<TemplateVariable>>>(
            members,
            "template_variables"@,
            None,
        ) == Some(model.template_variables)) by {
            broadcast use group_member_lookup;
            if let Some(x) = model.template_variables {
                Vec::<TemplateVariable>::lemma_round_trip(x);
            }
        }
        assert(field_or::<String>(members, "title"@, Seq::empty()) == Some(model.title)) by {
            broadcast use group_member_lookup;
        }
        assert(field_or::<String>(members, "url"@, Seq::empty()) == Some(model.url)) by {
            broadcast use group_member_lookup;
        }
        assert(field_or::<Vec<Widget>>(members, "widgets"@, Seq::empty()) == Some(
            model.widgets,
        )) by {
            broadcast use group_member_lookup;
            Vec::<Widget>::lemma_round_trip(model.widgets);
        }
    }
}

} // verus!
