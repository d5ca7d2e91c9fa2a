//! How the values of `widgets` are written as JSON and read from it.
use crate::dashboards::widgets::{
    CustomLink, Formula, FormulaModel, MetricAggregator, Note, NoteModel, Query, QueryModel,
    QueryOption1, QueryOption1Model, QueryValue, QueryValueModel, Request, RequestAggregator,
    RequestModel, ResponseFormat, TextAlign, TickEdge, Time, TimeModel, VerticalAlign,
    WidgetDefinition, WidgetDefinitionModel,
};
use crate::json::{
    entry, field, field_or, get_member, group_member_lookup, lemma_members_view, member,
    members_view, no_members, optional_entry, put, put_optional, read, read_or, FromJson, Json,
    JsonMember, JsonValue, RoundTrip, ToJson,
};
use crate::text::same_text;
use vstd::prelude::*;

verus! {

/// An object with the member `type` put before its own members. A value that is no object
/// stays as it is.
pub open spec fn tagged(tag: Seq<char>, body: Json) -> Json {
    match body {
        Json::Object(members) => Json::Object(entry::<String>("type"@, tag) + members),
        _ => body,
    }
}

/// Puts the member `type` before the members of an object.
fn tag_object(tag: &str, body: JsonValue) -> (r: JsonValue)
    ensures
        r@ == tagged(tag@, body@),
{
    match body {
        JsonValue::Object(members) => {
            let mut members = members;
            let ghost before = members@;
            let first = JsonMember {
                name: String::from_str("type"),
                value: JsonValue::String(String::from_str(tag)),
            };
            members.insert(0, first);
            proof {
                lemma_members_view(before);
                lemma_members_view(members@);
                assert(members_view(members@) =~= entry::<String>("type"@, tag@) + members_view(
                    before,
                ));
            }
            JsonValue::Object(members)
        },
        other => other,
    }
}

impl FromJson for WidgetDefinition {
    open spec fn decoded(value: Json) -> Option<WidgetDefinitionModel> {
        match value {
            Json::Object(members) => match member(members, "type"@) {
                Some(Json::String(tag)) => if tag == "note"@ {
                    match Note::decoded(value) {
                        Some(note) => Some(WidgetDefinitionModel::Note(note)),
                        None => None,
                    }
                } else if tag == "query_value"@ {
                    match QueryValue::decoded(value) {
                        Some(query_value) => Some(WidgetDefinitionModel::QueryValue(query_value)),
                        None => None,
                    }
                } else {
                    None
                },
                _ => None,
            },
            _ => None,
        }
    }

    fn from_json(value: &JsonValue) -> (r: Option<WidgetDefinition>) {
        match value {
            JsonValue::Object(members) => match get_member(members, "type") {
                Some(JsonValue::String(tag)) => if same_text(tag.as_str(), "note") {
                    match Note::from_json(value) {
                        Some(note) => Some(WidgetDefinition::Note(note)),
                        None => None,
                    }
                } else if same_text(tag.as_str(), "query_value") {
                    match QueryValue::from_json(value) {
                        Some(query_value) => Some(WidgetDefinition::QueryValue(query_value)),
                        None => None,
                    }
                } else {
                    None
                },
                _ => None,
            },
            _ => None,
        }
    }
}

impl ToJson for WidgetDefinition {
    open spec fn encoded(model: WidgetDefinitionModel) -> Json {
        match model {
            WidgetDefinitionModel::Note(note) => tagged("note"@, Note::encoded(note)),
            WidgetDefinitionModel::QueryValue(query_value) => tagged(
                "query_value"@,
                QueryValue::encoded(query_value),
            ),
        }
    }

    fn to_json(&self) -> (r: JsonValue) {
        match self {
            WidgetDefinition::Note(note) => tag_object("note", note.to_json()),
            WidgetDefinition::QueryValue(query_value) => tag_object(
                "query_value",
                query_value.to_json(),
            ),
        }
    }
}

impl RoundTrip for WidgetDefinition {
    proof fn lemma_round_trip(model: WidgetDefinitionModel) {
        broadcast use group_member_lookup;
        reveal_strlit("note");
        reveal_strlit("query_value");
        assert("note"@.len() == 4);
        assert("query_value"@.len() == 11);
        match model {
            WidgetDefinitionModel::Note(note) => {
                Note::lemma_round_trip_tagged(note, "note"@);
            },
            WidgetDefinitionModel::QueryValue(query_value) => {
                QueryValue::lemma_round_trip_tagged(query_value, "query_value"@);
            },
        }
    }
}

impl FromJson for TextAlign {
    open spec fn decoded(value: Json) -> Option<TextAlign> {
        match value {
            Json::String(name) => Self::from_wire_name(name),
            _ => None,
        }
    }

    fn from_json(value: &JsonValue) -> (r: Option<TextAlign>) {
        match value {
            JsonValue::String(name) => Self::from_name(name.as_str()),
            _ => None,
        }
    }
}

impl ToJson for TextAlign {
    open spec fn encoded(model: TextAlign) -> Json {
        Json::String(model.wire_name())
    }

    fn to_json(&self) -> (r: JsonValue) {
        JsonValue::String(String::from_str(self.as_str()))
    }
}

impl RoundTrip for TextAlign {
    proof fn lemma_round_trip(model: TextAlign) {
        model.lemma_wire_name_round_trip();
    }
}

impl FromJson for VerticalAlign {
    open spec fn decoded(value: Json) -> Option<VerticalAlign> {
        match value {
            Json::String(name) => Self::from_wire_name(name),
            _ => None,
        }
    }

    fn from_json(value: &JsonValue) -> (r: Option<VerticalAlign>) {
        match value {
            JsonValue::String(name) => Self::from_name(name.as_str()),
            _ => None,
        }
    }
}

impl ToJson for VerticalAlign {
    open spec fn encoded(model: VerticalAlign) -> Json {
        Json::String(model.wire_name())
    }

    fn to_json(&self) -> (r: JsonValue) {
        JsonValue::String(String::from_str(self.as_str()))
    }
}

impl RoundTrip for VerticalAlign {
    proof fn lemma_round_trip(model: VerticalAlign) {
        model.lemma_wire_name_round_trip();
    }
}

impl FromJson for RequestAggregator {
    open spec fn decoded(value: Json) -> Option<RequestAggregator> {
        match value {
            Json::String(name) => Self::from_wire_name(name),
            _ => None,
        }
    }

    fn from_json(value: &JsonValue) -> (r: Option<RequestAggregator>) {
        match value {
            JsonValue::String(name) => Self::from_name(name.as_str()),
            _ => None,
        }
    }
}

impl ToJson for RequestAggregator {
    open spec fn encoded(model: RequestAggregator) -> Json {
        Json::String(model.wire_name())
    }

    fn to_json(&self) -> (r: JsonValue) {
        JsonValue::String(String::from_str(self.as_str()))
    }
}

impl RoundTrip for RequestAggregator {
    proof fn lemma_round_trip(model: RequestAggregator) {
        model.lemma_wire_name_round_trip();
    }
}

impl FromJson for MetricAggregator {
    open spec fn decoded(value: Json) -> Option<MetricAggregator> {
        match value {
            Json::String(name) => Self::from_wire_name(name),
            _ => None,
        }
    }

    fn from_json(value: &JsonValue) -> (r: Option<MetricAggregator>) {
        match value {
            JsonValue::String(name) => Self::from_name(name.as_str()),
            _ => None,
        }
    }
}

impl ToJson for MetricAggregator {
    open spec fn encoded(model: MetricAggregator) -> Json {
        Json::String(model.wire_name())
    }

    fn to_json(&self) -> (r: JsonValue) {
        JsonValue::String(String::from_str(self.as_str()))
    }
}

impl RoundTrip for MetricAggregator {
    proof fn lemma_round_trip(model: MetricAggregator) {
        model.lemma_wire_name_round_trip();
    }
}

impl FromJson for Note {
    open spec fn decoded(value: Json) -> Option<NoteModel> {
        match value {
            Json::Object(members) => {
                let background_color = field_or::<Option<String>>(
                    members,
                    "background_color"@,
                    None,
                );
                let content = field::<String>(members, "content"@);
                let font_size = field_or::<Option<String>>(members, "font_size"@, None);
                let has_padding = field_or::<Option<bool>>(members, "has_padding"@, None);
                let show_tick = field_or::<Option<bool>>(members, "show_tick"@, None);
                let text_align = field_or::<Option<TextAlign>>(members, "text_align"@, None);
                let tick_edge = field_or::<Option<TickEdge>>(members, "tick_edge"@, None);
                let tick_pos = field_or::<Option<String>>(members, "tick_pos"@, None);
                let vertical_align = field_or::<Option<VerticalAlign>>(
                    members,
                    "vertical_align"@,
                    None,
                );
                if background_color is Some
                    && content is Some
                    && font_size is Some
                    && has_padding is Some
                    && show_tick is Some
                    && text_align is Some
                    && tick_edge is Some
                    && tick_pos is Some
                    && vertical_align is Some {
                    Some(
                        NoteModel {
                            background_color: background_color->0,
                            content: content->0,
                            font_size: font_size->0,
                            has_padding: has_padding->0,
                            show_tick: show_tick->0,
                            text_align: text_align->0,
                            tick_edge: tick_edge->0,
                            tick_pos: tick_pos->0,
                            vertical_align: vertical_align->0,
                        },
                    )
                } else {
                    None
                }
            },
            _ => None,
        }
    }

    fn from_json(value: &JsonValue) -> (r: Option<Note>) {
        match value {
            JsonValue::Object(members) => {
                let background_color = read_or::<Option<String>>(
                    members,
                    "background_color",
                    None,
                )?;
                let content = read::<String>(members, "content")?;
                let font_size = read_or::<Option<String>>(members, "font_size", None)?;
                let has_padding = read_or::<Option<bool>>(members, "has_padding", None)?;
                let show_tick = read_or::<Option<bool>>(members, "show_tick", None)?;
                let text_align = read_or::<Option<TextAlign>>(members, "text_align", None)?;
                let tick_edge = read_or::<Option<TickEdge>>(members, "tick_edge", None)?;
                let tick_pos = read_or::<Option<String>>(members, "tick_pos", None)?;
                let vertical_align = read_or::<Option<VerticalAlign>>(
                    members,
                    "vertical_align",
                    None,
                )?;
                Some(
                    Note {
                        background_color,
                        content,
                        font_size,
                        has_padding,
                        show_tick,
                        text_align,
                        tick_edge,
                        tick_pos,
                        vertical_align,
                    },
                )
            },
            _ => None,
        }
    }
}

impl ToJson for Note {
    open spec fn encoded(model: NoteModel) -> Json {
        Json::Object(
            optional_entry::<String>("background_color"@, model.background_color)
                + entry::<String>("content"@, model.content)
                + optional_entry::<String>("font_size"@, model.font_size)
                + optional_entry::<bool>("has_padding"@, model.has_padding)
                + optional_entry::<bool>("show_tick"@, model.show_tick)
                + optional_entry::<TextAlign>("text_align"@, model.text_align)
                + optional_entry::<TickEdge>("tick_edge"@, model.tick_edge)
                + optional_entry::<String>("tick_pos"@, model.tick_pos)
                + optional_entry::<VerticalAlign>("vertical_align"@, model.vertical_align),
        )
    }

    fn to_json(&self) -> (r: JsonValue) {
        let mut members = no_members();
        put_optional::<String>(&mut members, "background_color", &self.background_color);
        put::<String>(&mut members, "content", &self.content);
        put_optional::<String>(&mut members, "font_size", &self.font_size);
        put_optional::<bool>(&mut members, "has_padding", &self.has_padding);
        put_optional::<bool>(&mut members, "show_tick", &self.show_tick);
        put_optional::<TextAlign>(&mut members, "text_align", &self.text_align);
        put_optional::<TickEdge>(&mut members, "tick_edge", &self.tick_edge);
        put_optional::<String>(&mut members, "tick_pos", &self.tick_pos);
        put_optional::<VerticalAlign>(&mut members, "vertical_align", &self.vertical_align);
        proof {
            assert(members_view(members@) =~= Self::encoded(self@)->Object_0);
        }
        JsonValue::Object(members)
    }
}

impl RoundTrip for Note {
    proof fn lemma_round_trip(model: NoteModel) {
        reveal_strlit("background_color");
        reveal_strlit("content");
        reveal_strlit("font_size");
        reveal_strlit("has_padding");
        reveal_strlit("show_tick");
        reveal_strlit("text_align");
        reveal_strlit("tick_edge");
        reveal_strlit("tick_pos");
        reveal_strlit("vertical_align");
        assert("background_color"@.len() == 16);
        assert("content"@.len() == 7);
        assert("font_size"@.len() == 9);
        assert("has_padding"@.len() == 11);
        assert("show_tick"@.len() == 9);
        assert("text_align"@.len() == 10);
        assert("tick_edge"@.len() == 9);
        assert("tick_pos"@.len() == 8);
        assert("vertical_align"@.len() == 14);
        assert("font_size"@[0] == 'f');
        assert("show_tick"@[0] == 's');
        assert("tick_edge"@[0] == 't');
        let members = Self::encoded(model)->Object_0;
        assert(field_or::<Option<String>>(members, "background_color"@, None) == Some(
            model.background_color,
        )) by {
            broadcast use group_member_lookup;
        }
        assert(field::<String>(members, "content"@) == Some(model.content)) by {
            broadcast use group_member_lookup;
        }
        assert(field_or::<Option<String>>(members, "font_size"@, None) == Some(
            model.font_size,
        )) by {
            broadcast use group_member_lookup;
        }
        assert(field_or::<Option<bool>>(members, "has_padding"@, None) == Some(
            model.has_padding,
        )) by {
            broadcast use group_member_lookup;
        }
        assert(field_or::<Option<bool>>(members, "show_tick"@, None) == Some(model.show_tick)) by {
            broadcast use group_member_lookup;
        }
        assert(field_or::<Option<TextAlign>>(members, "text_align"@, None) == Some(
            model.text_align,
        )) by {
            broadcast use group_member_lookup;
            if let Some(x) = model.text_align {
                TextAlign::lemma_round_trip(x);
            }
        }
        assert(field_or::<Option<TickEdge>>(members, "tick_edge"@, None) == Some(
            model.tick_edge,
        )) by {
            broadcast use group_member_lookup;
            if let Some(x) = model.tick_edge {
                TickEdge::lemma_round_trip(x);
            }
        }
        assert(field_or::<Option<String>>(members, "tick_pos"@, None) == Some(model.tick_pos)) by {
            broadcast use group_member_lookup;
        }
        assert(field_or::<Option<VerticalAlign>>(members, "vertical_align"@, None) == Some(
            model.vertical_align,
        )) by {
            broadcast use group_member_lookup;
            if let Some(x) = model.vertical_align {
                VerticalAlign::lemma_round_trip(x);
            }
        }
    }
}

impl Note {
    /// A value is read back as it was written also where the member `type` stands before its own
    /// members.
    pub proof fn lemma_round_trip_tagged(model: NoteModel, tag: Seq<char>)
        ensures
            Note::decoded(tagged(tag, Note::encoded(model))) == Some(model),
    {
        reveal_strlit("type");
        reveal_strlit("background_color");
        reveal_strlit("content");
        reveal_strlit("font_size");
        reveal_strlit("has_padding");
        reveal_strlit("show_tick");
        reveal_strlit("text_align");
        reveal_strlit("tick_edge");
        reveal_strlit("tick_pos");
        reveal_strlit("vertical_align");
        assert("type"@.len() == 4);
        assert("background_color"@.len() == 16);
        assert("content"@.len() == 7);
        assert("font_size"@.len() == 9);
        assert("has_padding"@.len() == 11);
        assert("show_tick"@.len() == 9);
        assert("text_align"@.len() == 10);
        assert("tick_edge"@.len() == 9);
        assert("tick_pos"@.len() == 8);
        assert("vertical_align"@.len() == 14);
        assert("font_size"@[0] == 'f');
        assert("show_tick"@[0] == 's');
        assert("tick_edge"@[0] == 't');
        let members = tagged(tag, Self::encoded(model))->Object_0;
        assert(field_or::<Option<String>>(members, "background_color"@, None) == Some(
            model.background_color,
        )) by {
            broadcast use group_member_lookup;
        }
        assert(field::<String>(members, "content"@) == Some(model.content)) by {
            broadcast use group_member_lookup;
        }
        assert(field_or::<Option<String>>(members, "font_size"@, None) == Some(
            model.font_size,
        )) by {
            broadcast use group_member_lookup;
        }
        assert(field_or::<Option<bool>>(members, "has_padding"@, None) == Some(
            model.has_padding,
        )) by {
            broadcast use group_member_lookup;
        }
        assert(field_or::<Option<bool>>(members, "show_tick"@, None) == Some(model.show_tick)) by {
            broadcast use group_member_lookup;
        }
        assert(field_or::<Option<TextAlign>>(members, "text_align"@, None) == Some(
            model.text_align,
        )) by {
            broadcast use group_member_lookup;
            if let Some(x) = model.text_align {
                TextAlign::lemma_round_trip(x);
            }
        }
        assert(field_or::<Option<TickEdge>>(members, "tick_edge"@, None) == Some(
            model.tick_edge,
        )) by {
            broadcast use group_member_lookup;
            if let Some(x) = model.tick_edge {
                TickEdge::lemma_round_trip(x);
            }
        }
        assert(field_or::<Option<String>>(members, "tick_pos"@, None) == Some(model.tick_pos)) by {
            broadcast use group_member_lookup;
        }
        assert(field_or::<Option<VerticalAlign>>(members, "vertical_align"@, None) == Some(
            model.vertical_align,
        )) by {
            broadcast use group_member_lookup;
            if let Some(x) = model.vertical_align {
                VerticalAlign::lemma_round_trip(x);
            }
        }
    }
}

impl FromJson for CustomLink {
    open spec fn decoded(value: Json) -> Option<CustomLink> {
        match value {
            Json::Object(members) => {
                let is_hidden = field_or::<Option<bool>>(members, "is_hidden"@, None);
                let label = field_or::<Option<bool>>(members, "label"@, None);
                let link = field_or::<Option<bool>>(members, "link"@, None);
                let override_label = field_or::<Option<bool>>(members, "override_label"@, None);
                if is_hidden is Some && label is Some && link is Some && override_label is Some {
                    Some(
                        CustomLink {
                            is_hidden: is_hidden->0,
                            label: label->0,
                            link: link->0,
                            override_label: override_label->0,
                        },
                    )
                } else {
                    None
                }
            },
            _ => None,
        }
    }

    fn from_json(value: &JsonValue) -> (r: Option<CustomLink>) {
        match value {
            JsonValue::Object(members) => {
                let is_hidden = read_or::<Option<bool>>(members, "is_hidden", None)?;
                let label = read_or::<Option<bool>>(members, "label", None)?;
                let link = read_or::<Option<bool>>(members, "link", None)?;
                let override_label = read_or::<Option<bool>>(members, "override_label", None)?;
                Some(CustomLink { is_hidden, label, link, override_label })
            },
            _ => None,
        }
    }
}

impl ToJson for CustomLink {
    open spec fn encoded(model: CustomLink) -> Json {
        Json::Object(
            optional_entry::<bool>("is_hidden"@, model.is_hidden)
                + optional_entry::<bool>("label"@, model.label)
                + optional_entry::<bool>("link"@, model.link)
                + optional_entry::<bool>("override_label"@, model.override_label),
        )
    }

    fn to_json(&self) -> (r: JsonValue) {
        let mut members = no_members();
        put_optional::<bool>(&mut members, "is_hidden", &self.is_hidden);
        put_optional::<bool>(&mut members, "label", &self.label);
        put_optional::<bool>(&mut members, "link", &self.link);
        put_optional::<bool>(&mut members, "override_label", &self.override_label);
        proof {
            assert(members_view(members@) =~= Self::encoded(self@)->Object_0);
        }
        JsonValue::Object(members)
    }
}

impl RoundTrip for CustomLink {
    proof fn lemma_round_trip(model: CustomLink) {
        reveal_strlit("is_hidden");
        reveal_strlit("label");
        reveal_strlit("link");
        reveal_strlit("override_label");
        assert("is_hidden"@.len() == 9);
        assert("label"@.len() == 5);
        assert("link"@.len() == 4);
        assert("override_label"@.len() == 14);
        let members = Self::encoded(model)->Object_0;
        assert(field_or::<Option<bool>>(members, "is_hidden"@, None) == Some(model.is_hidden)) by {
            broadcast use group_member_lookup;
        }
        assert(field_or::<Option<bool>>(members, "label"@, None) == Some(model.label)) by {
            broadcast use group_member_lookup;
        }
        assert(field_or::<Option<bool>>(members, "link"@, None) == Some(model.link)) by {
            broadcast use group_member_lookup;
        }
        assert(field_or::<Option<bool>>(members, "override_label"@, None) == Some(
            model.override_label,
        )) by {
            broadcast use group_member_lookup;
        }
    }
}

impl FromJson for Time {
    open spec fn decoded(value: Json) -> Option<TimeModel> {
        match value {
            Json::Object(members) => {
                let live_span = field_or::<Option<String>>(members, "live_span"@, None);
                if live_span is Some {
                    Some(
                        TimeModel {
                            live_span: live_span->0,
                        },
                    )
                } else {
                    None
                }
            },
            _ => None,
        }
    }

    fn from_json(value: &JsonValue) -> (r: Option<Time>) {
        match value {
            JsonValue::Object(members) => {
                let live_span = read_or::<Option<String>>(members, "live_span", None)?;
                Some(Time { live_span })
            },
            _ => None,
        }
    }
}

impl ToJson for Time {
    open spec fn encoded(model: TimeModel) -> Json {
        Json::Object(optional_entry::<String>("live_span"@, model.live_span))
    }

    fn to_json(&self) -> (r: JsonValue) {
        let mut members = no_members();
        put_optional::<String>(&mut members, "live_span", &self.live_span);
        proof {
            assert(members_view(members@) =~= Self::encoded(self@)->Object_0);
        }
        JsonValue::Object(members)
    }
}

impl RoundTrip for Time {
    proof fn lemma_round_trip(model: TimeModel) {
        let members = Self::encoded(model)->Object_0;
        assert(field_or::<Option<String>>(members, "live_span"@, None) == Some(
            model.live_span,
        )) by {
            broadcast use group_member_lookup;
        }
    }
}

impl FromJson for Formula {
    open spec fn decoded(value: Json) -> Option<FormulaModel> {
        match value {
            Json::Object(members) => {
                let alias = field_or::<Option<String>>(members, "alias"@, None);
                let formula = field::<String>(members, "formula"@);
                if alias is Some && formula is Some {
                    Some(
                        FormulaModel {
                            alias: alias->0,
                            formula: formula->0,
                        },
                    )
                } else {
                    None
                }
            },
            _ => None,
        }
    }

    fn from_json(value: &JsonValue) -> (r: Option<Formula>) {
        match value {
            JsonValue::Object(members) => {
                let alias = read_or::<Option<String>>(members, "alias", None)?;
                let formula = read::<String>(members, "formula")?;
                Some(Formula { alias, formula })
            },
            _ => None,
        }
    }
}

impl ToJson for Formula {
    open spec fn encoded(model: FormulaModel) -> Json {
        Json::Object(
            optional_entry::<String>("alias"@, model.alias)
                + entry::<String>("formula"@, model.formula),
        )
    }

    fn to_json(&self) -> (r: JsonValue) {
        let mut members = no_members();
        put_optional::<String>(&mut members, "alias", &self.alias);
        put::<String>(&mut members, "formula", &self.formula);
        proof {
            assert(members_view(members@) =~= Self::encoded(self@)->Object_0);
        }
        JsonValue::Object(members)
    }
}

impl RoundTrip for Formula {
    proof fn lemma_round_trip(model: FormulaModel) {
        reveal_strlit("alias");
        reveal_strlit("formula");
        assert("alias"@.len() == 5);
        assert("formula"@.len() == 7);
        let members = Self::encoded(model)->Object_0;
        assert(field_or::<Option<String>>(members, "alias"@, None) == Some(model.alias)) by {
            broadcast use group_member_lookup;
        }
        assert(field::<String>(members, "formula"@) == Some(model.formula)) by {
            broadcast use group_member_lookup;
        }
    }
}

impl FromJson for TickEdge {
    open spec fn decoded(value: Json) -> Option<TickEdge> {
        match value {
            Json::String(name) => Self::from_wire_name(name),
            _ => None,
        }
    }

    fn from_json(value: &JsonValue) -> (r: Option<TickEdge>) {
        match value {
            JsonValue::String(name) => Self::from_name(name.as_str()),
            _ => None,
        }
    }
}

impl ToJson for TickEdge {
    open spec fn encoded(model: TickEdge) -> Json {
        Json::String(model.wire_name())
    }

    fn to_json(&self) -> (r: JsonValue) {
        JsonValue::String(String::from_str(self.as_str()))
    }
}

impl RoundTrip for TickEdge {
    proof fn lemma_round_trip(model: TickEdge) {
        model.lemma_wire_name_round_trip();
    }
}

impl FromJson for Query {
    open spec fn decoded(value: Json) -> Option<QueryModel> {
        match QueryOption1::decoded(value) {
            Some(query) => Some(QueryModel::Option1(query)),
            None => None,
        }
    }

    fn from_json(value: &JsonValue) -> (r: Option<Query>) {
        match QueryOption1::from_json(value) {
            Some(query) => Some(Query::Option1(query)),
            None => None,
        }
    }
}

impl ToJson for Query {
    open spec fn encoded(model: QueryModel) -> Json {
        match model {
            QueryModel::Option1(query) => QueryOption1::encoded(query),
        }
    }

    fn to_json(&self) -> (r: JsonValue) {
        match self {
            Query::Option1(query) => query.to_json(),
        }
    }
}

impl RoundTrip for Query {
    proof fn lemma_round_trip(model: QueryModel) {
        match model {
            QueryModel::Option1(query) => {
                QueryOption1::lemma_round_trip(query);
            },
        }
    }
}

impl FromJson for QueryOption1 {
    open spec fn decoded(value: Json) -> Option<QueryOption1Model> {
        match value {
            Json::Object(members) => {
                let aggregator = field_or::<Option<MetricAggregator>>(members, "aggregator"@, None);
                let data_source = field::<String>(members, "data_source"@);
                let name = field::<String>(members, "name"@);
                let query = field::<String>(members, "query"@);
                if aggregator is Some && data_source is Some && name is Some && query is Some {
                    Some(
                        QueryOption1Model {
                            aggregator: aggregator->0,
                            data_source: data_source->0,
                            name: name->0,
                            query: query->0,
                        },
                    )
                } else {
                    None
                }
            },
            _ => None,
        }
    }

    fn from_json(value: &JsonValue) -> (r: Option<QueryOption1>) {
        match value {
            JsonValue::Object(members) => {
                let aggregator = read_or::<Option<MetricAggregator>>(members, "aggregator", None)?;
                let data_source = read::<String>(members, "data_source")?;
                let name = read::<String>(members, "name")?;
                let query = read::<String>(members, "query")?;
                Some(QueryOption1 { aggregator, data_source, name, query })
            },
            _ => None,
        }
    }
}

impl ToJson for QueryOption1 {
    open spec fn encoded(model: QueryOption1Model) -> Json {
        Json::Object(
            optional_entry::<MetricAggregator>("aggregator"@, model.aggregator)
                + entry::<String>("data_source"@, model.data_source)
                + entry::<String>("name"@, model.name)
                + entry::<String>("query"@, model.query),
        )
    }

    fn to_json(&self) -> (r: JsonValue) {
        let mut members = no_members();
        put_optional::<MetricAggregator>(&mut members, "aggregator", &self.aggregator);
        put::<String>(&mut members, "data_source", &self.data_source);
        put::<String>(&mut members, "name", &self.name);
        put::<String>(&mut members, "query", &self.query);
        proof {
            assert(members_view(members@) =~= Self::encoded(self@)->Object_0);
        }
        JsonValue::Object(members)
    }
}

impl RoundTrip for QueryOption1 {
    proof fn lemma_round_trip(model: QueryOption1Model) {
        reveal_strlit("aggregator");
        reveal_strlit("data_source");
        reveal_strlit("name");
        reveal_strlit("query");
        assert("aggregator"@.len() == 10);
        assert("data_source"@.len() == 11);
        assert("name"@.len() == 4);
        assert("query"@.len() == 5);
        let members = Self::encoded(model)->Object_0;
        assert(field_or::<Option<MetricAggregator>>(members, "aggregator"@, None) == Some(
            model.aggregator,
        )) by {
            broadcast use group_member_lookup;
            if let Some(x) = model.aggregator {
                MetricAggregator::lemma_round_trip(x);
            }
        }
        assert(field::<String>(members, "data_source"@) == Some(model.data_source)) by {
            broadcast use group_member_lookup;
        }
        assert(field::<String>(members, "name"@) == Some(model.name)) by {
            broadcast use group_member_lookup;
        }
        assert(field::<String>(members, "query"@) == Some(model.query)) by {
            broadcast use group_member_lookup;
        }
    }
}

impl FromJson for ResponseFormat {
    open spec fn decoded(value: Json) -> Option<ResponseFormat> {
        match value {
            Json::String(name) => Self::from_wire_name(name),
            _ => None,
        }
    }

    fn from_json(value: &JsonValue) -> (r: Option<ResponseFormat>) {
        match value {
            JsonValue::String(name) => Self::from_name(name.as_str()),
            _ => None,
        }
    }
}

impl ToJson for ResponseFormat {
    open spec fn encoded(model: ResponseFormat) -> Json {
        Json::String(model.wire_name())
    }

    fn to_json(&self) -> (r: JsonValue) {
        JsonValue::String(String::from_str(self.as_str()))
    }
}

impl RoundTrip for ResponseFormat {
    proof fn lemma_round_trip(model: ResponseFormat) {
        model.lemma_wire_name_round_trip();
    }
}

impl FromJson for Request {
    open spec fn decoded(value: Json) -> Option<RequestModel> {
        match value {
            Json::Object(members) => {
                let aggregator = field_or::<Option<RequestAggregator>>(
                    members,
                    "aggregator"@,
                    None,
                );
                let formulas = field_or::<Option<Vec<Formula>>>(members, "formulas"@, None);
                let queries = field_or::<Option<Vec<Query>>>(members, "queries"@, None);
                let response_format = field_or::<Option<ResponseFormat>>(
                    members,
                    "response_format"@,
                    None,
                );
                if aggregator is Some
                    && formulas is Some
                    && queries is Some
                    && response_format is Some {
                    Some(
                        RequestModel {
                            aggregator: aggregator->0,
                            formulas: formulas->0,
                            queries: queries->0,
                            response_format: response_format->0,
                        },
                    )
                } else {
                    None
                }
            },
            _ => None,
        }
    }

    fn from_json(value: &JsonValue) -> (r: Option<Request>) {
        match value {
            JsonValue::Object(members) => {
                let aggregator = read_or::<Option<RequestAggregator>>(members, "aggregator", None)?;
                let formulas = read_or::<Option<Vec<Formula>>>(members, "formulas", None)?;
                let queries = read_or::<Option<Vec<Query>>>(members, "queries", None)?;
                let response_format = read_or::<Option<ResponseFormat>>(
                    members,
                    "response_format",
                    None,
                )?;
                Some(Request { aggregator, formulas, queries, response_format })
            },
            _ => None,
        }
    }
}

impl ToJson for Request {
    open spec fn encoded(model: RequestModel) -> Json {
        Json::Object(
            optional_entry::<RequestAggregator>("aggregator"@, model.aggregator)
                + optional_entry::<Vec<Formula>>("formulas"@, model.formulas)
                + optional_entry::<Vec<Query>>("queries"@, model.queries)
                + optional_entry::<ResponseFormat>("response_format"@, model.response_format),
        )
    }

    fn to_json(&self) -> (r: JsonValue) {
        let mut members = no_members();
        put_optional::<RequestAggregator>(&mut members, "aggregator", &self.aggregator);
        put_optional::<Vec<Formula>>(&mut members, "formulas", &self.formulas);
        put_optional::<Vec<Query>>(&mut members, "queries", &self.queries);
        put_optional::<ResponseFormat>(&mut members, "response_format", &self.response_format);
        proof {
            assert(members_view(members@) =~= Self::encoded(self@)->Object_0);
        }
        JsonValue::Object(members)
    }
}

impl RoundTrip for Request {
    proof fn lemma_round_trip(model: RequestModel) {
        reveal_strlit("aggregator");
        reveal_strlit("formulas");
        reveal_strlit("queries");
        reveal_strlit("response_format");
        assert("aggregator"@.len() == 10);
        assert("formulas"@.len() == 8);
        assert("queries"@.len() == 7);
        assert("response_format"@.len() == 15);
        let members = Self::encoded(model)->Object_0;
        assert(field_or::<Option<RequestAggregator>>(members, "aggregator"@, None) == Some(
            model.aggregator,
        )) by {
            broadcast use group_member_lookup;
            if let Some(x) = model.aggregator {
                RequestAggregator::lemma_round_trip(x);
            }
        }
        assert(field_or::<Option<Vec<Formula>>>(members, "formulas"@, None) == Some(
            model.formulas,
        )) by {
            broadcast use group_member_lookup;
            if let Some(x) = model.formulas {
                Vec::<Formula>::lemma_round_trip(x);
            }
        }
        assert(field_or::<Option<Vec<Query>>>(members, "queries"@, None) == Some(
            model.queries,
        )) by {
            broadcast use group_member_lookup;
            if let Some(x) = model.queries {
                Vec::<Query>::lemma_round_trip(x);
            }
        }
        assert(field_or::<Option<ResponseFormat>>(members, "response_format"@, None) == Some(
            model.response_format,
        )) by {
            broadcast use group_member_lookup;
            if let Some(x) = model.response_format {
                ResponseFormat::lemma_round_trip(x);
            }
        }
    }
}

impl FromJson for QueryValue {
    open spec fn decoded(value: Json) -> Option<QueryValueModel> {
        match value {
            Json::Object(members) => {
                let autoscale = field_or::<Option<bool>>(members, "autoscale"@, None);
                let custom_links = field_or::<Option<Vec<CustomLink>>>(
                    members,
                    "custom_links"@,
                    None,
                );
                let custom_unit = field_or::<Option<String>>(members, "custom_unit"@, None);
                let precision = field_or::<Option<i64>>(members, "precision"@, None);
                let requests = field_or::<Option<Vec<Request>>>(members, "requests"@, None);
                let text_align = field_or::<Option<TextAlign>>(members, "text_align"@, None);
                let time = field_or::<Option<Time>>(members, "time"@, None);
                let title = field_or::<Option<String>>(members, "title"@, None);
                let title_align = field_or::<Option<TextAlign>>(members, "title_align"@, None);
                let title_size = field_or::<Option<String>>(members, "title_size"@, None);
                if autoscale is Some
                    && custom_links is Some
                    && custom_unit is Some
                    && precision is Some
                    && requests is Some
                    && text_align is Some
                    && time is Some
                    && title is Some
                    && title_align is Some
                    && title_size is Some {
                    Some(
                        QueryValueModel {
                            autoscale: autoscale->0,
                            custom_links: custom_links->0,
                            custom_unit: custom_unit->0,
                            precision: precision->0,
                            requests: requests->0,
                            text_align: text_align->0,
                            time: time->0,
                            title: title->0,
                            title_align: title_align->0,
                            title_size: title_size->0,
                        },
                    )
                } else {
                    None
                }
            },
            _ => None,
        }
    }

    fn from_json(value: &JsonValue) -> (r: Option<QueryValue>) {
        match value {
            JsonValue::Object(members) => {
                let autoscale = read_or::<Option<bool>>(members, "autoscale", None)?;
                let custom_links = read_or::<Option<Vec<CustomLink>>>(
                    members,
                    "custom_links",
                    None,
                )?;
                let custom_unit = read_or::<Option<String>>(members, "custom_unit", None)?;
                let precision = read_or::<Option<i64>>(members, "precision", None)?;
                let requests = read_or::<Option<Vec<Request>>>(members, "requests", None)?;
                let text_align = read_or::<Option<TextAlign>>(members, "text_align", None)?;
                let time = read_or::<Option<Time>>(members, "time", None)?;
                let title = read_or::<Option<String>>(members, "title", None)?;
                let title_align = read_or::<Option<TextAlign>>(members, "title_align", None)?;
                let title_size = read_or::<Option<String>>(members, "title_size", None)?;
                Some(
                    QueryValue {
                        autoscale,
                        custom_links,
                        custom_unit,
                        precision,
                        requests,
                        text_align,
                        time,
                        title,
                        title_align,
                        title_size,
                    },
                )
            },
            _ => None,
        }
    }
}

impl ToJson for QueryValue {
    open spec fn encoded(model: QueryValueModel) -> Json {
        Json::Object(
            optional_entry::<bool>("autoscale"@, model.autoscale)
                + optional_entry::<Vec<CustomLink>>("custom_links"@, model.custom_links)
                + optional_entry::<String>("custom_unit"@, model.custom_unit)
                + optional_entry::<i64>("precision"@, model.precision)
                + optional_entry::<Vec<Request>>("requests"@, model.requests)
                + optional_entry::<TextAlign>("text_align"@, model.text_align)
                + optional_entry::<Time>("time"@, model.time)
                + optional_entry::<String>("title"@, model.title)
                + optional_entry::<TextAlign>("title_align"@, model.title_align)
                + optional_entry::<String>("title_size"@, model.title_size),
        )
    }

    fn to_json(&self) -> (r: JsonValue) {
        let mut members = no_members();
        put_optional::<bool>(&mut members, "autoscale", &self.autoscale);
        put_optional::<Vec<CustomLink>>(&mut members, "custom_links", &self.custom_links);
        put_optional::<String>(&mut members, "custom_unit", &self.custom_unit);
        put_optional::<i64>(&mut members, "precision", &self.precision);
        put_optional::<Vec<Request>>(&mut members, "requests", &self.requests);
        put_optional::<TextAlign>(&mut members, "text_align", &self.text_align);
        put_optional::<Time>(&mut members, "time", &self.time);
        put_optional::<String>(&mut members, "title", &self.title);
        put_optional::<TextAlign>(&mut members, "title_align", &self.title_align);
        put_optional::<String>(&mut members, "title_size", &self.title_size);
        proof {
            assert(members_view(members@) =~= Self::encoded(self@)->Object_0);
        }
        JsonValue::Object(members)
    }
}

impl RoundTrip for QueryValue {
    proof fn lemma_round_trip(model: QueryValueModel) {
        reveal_strlit("autoscale");
        reveal_strlit("custom_links");
        reveal_strlit("custom_unit");
        reveal_strlit("precision");
        reveal_strlit("requests");
        reveal_strlit("text_align");
        reveal_strlit("time");
        reveal_strlit("title");
        reveal_strlit("title_align");
        reveal_strlit("title_size");
        assert("autoscale"@.len() == 9);
        assert("custom_links"@.len() == 12);
        assert("custom_unit"@.len() == 11);
        assert("precision"@.len() == 9);
        assert("requests"@.len() == 8);
        assert("text_align"@.len() == 10);
        assert("time"@.len() == 4);
        assert("title"@.len() == 5);
        assert("title_align"@.len() == 11);
        assert("title_size"@.len() == 10);
        assert("autoscale"@[0] == 'a');
        assert("custom_unit"@[0] == 'c');
        assert("precision"@[0] == 'p');
        assert("text_align"@[1] == 'e');
        assert("title_align"@[0] == 't');
        assert("title_size"@[1] == 'i');
        let members = Self::encoded(model)->Object_0;
        assert(field_or::<Option<bool>>(members, "autoscale"@, None) == Some(model.autoscale)) by {
            broadcast use group_member_lookup;
        }
        assert(field_or::<Option<Vec<CustomLink>>>(members, "custom_links"@, None) == Some(
            model.custom_links,
        )) by {
            broadcast use group_member_lookup;
            if let Some(x) = model.custom_links {
                Vec::<CustomLink>::lemma_round_trip(x);
            }
        }
        assert(field_or::<Option<String>>(members, "custom_unit"@, None) == Some(
            model.custom_unit,
        )) by {
            broadcast use group_member_lookup;
        }
        assert(field_or::<Option<i64>>(members, "precision"@, None) == Some(model.precision)) by {
            broadcast use group_member_lookup;
        }
        assert(field_or::<Option<Vec<Request>>>(members, "requests"@, None) == Some(
            model.requests,
        )) by {
            broadcast use group_member_lookup;
            if let Some(x) = model.requests {
                Vec::<Request>::lemma_round_trip(x);
            }
        }
        assert(field_or::<Option<TextAlign>>(members, "text_align"@, None) == Some(
            model.text_align,
        )) by {
            broadcast use group_member_lookup;
            if let Some(x) = model.text_align {
                TextAlign::lemma_round_trip(x);
            }
        }
        assert(field_or::<Option<Time>>(members, "time"@, None) == Some(model.time)) by {
            broadcast use group_member_lookup;
            if let Some(x) = model.time {
                Time::lemma_round_trip(x);
            }
        }
        assert(field_or::<Option<String>>(members, "title"@, None) == Some(model.title)) by {
            broadcast use group_member_lookup;
        }
        assert(field_or::<Option<TextAlign>>(members, "title_align"@, None) == Some(
            model.title_align,
        )) by {
            broadcast use group_member_lookup;
            if let Some(x) = model.title_align {
                TextAlign::lemma_round_trip(x);
            }
        }
        assert(field_or::<Option<String>>(members, "title_size"@, None) == Some(
            model.title_size,
        )) by {
            broadcast use group_member_lookup;
        }
    }
}

impl QueryValue {
    /// A value is read back as it was written also where the member `type` stands before its own
    /// members.
    pub proof fn lemma_round_trip_tagged(model: QueryValueModel, tag: Seq<char>)
        ensures
            QueryValue::decoded(tagged(tag, QueryValue::encoded(model))) == Some(model),
    {
        reveal_strlit("type");
        reveal_strlit("autoscale");
        reveal_strlit("custom_links");
        reveal_strlit("custom_unit");
        reveal_strlit("precision");
        reveal_strlit("requests");
        reveal_strlit("text_align");
        reveal_strlit("time");
        reveal_strlit("title");
        reveal_strlit("title_align");
        reveal_strlit("title_size");
        assert("type"@.len() == 4);
        assert("autoscale"@.len() == 9);
        assert("custom_links"@.len() == 12);
        assert("custom_unit"@.len() == 11);
        assert("precision"@.len() == 9);
        assert("requests"@.len() == 8);
        assert("text_align"@.len() == 10);
        assert("time"@.len() == 4);
        assert("title"@.len() == 5);
        assert("title_align"@.len() == 11);
        assert("title_size"@.len() == 10);
        assert("type"@[1] == 'y');
        assert("autoscale"@[0] == 'a');
        assert("custom_unit"@[0] == 'c');
        assert("precision"@[0] == 'p');
        assert("text_align"@[1] == 'e');
        assert("time"@[1] == 'i');
        assert("title_align"@[0] == 't');
        assert("title_size"@[1] == 'i');
        let members = tagged(tag, Self::encoded(model))->Object_0;
        assert(field_or::<Option<bool>>(members, "autoscale"@, None) == Some(model.autoscale)) by {
            broadcast use group_member_lookup;
        }
        assert(field_or::<Option<Vec<CustomLink>>>(members, "custom_links"@, None) == Some(
            model.custom_links,
        )) by {
            broadcast use group_member_lookup;
            if let Some(x) = model.custom_links {
                Vec::<CustomLink>::lemma_round_trip(x);
            }
        }
        assert(field_or::<Option<String>>(members, "custom_unit"@, None) == Some(
            model.custom_unit,
        )) by {
            broadcast use group_member_lookup;
        }
        assert(field_or::<Option<i64>>(members, "precision"@, None) == Some(model.precision)) by {
            broadcast use group_member_lookup;
        }
        assert(field_or::<Option<Vec<Request>>>(members, "requests"@, None) == Some(
            model.requests,
        )) by {
            broadcast use group_member_lookup;
            if let Some(x) = model.requests {
                Vec::<Request>::lemma_round_trip(x);
            }
        }
        assert(field_or::<Option<TextAlign>>(members, "text_align"@, None) == Some(
            model.text_align,
        )) by {
            broadcast use group_member_lookup;
            if let Some(x) = model.text_align {
                TextAlign::lemma_round_trip(x);
            }
        }
        assert(field_or::<Option<Time>>(members, "time"@, None) == Some(model.time)) by {
            broadcast use group_member_lookup;
            if let Some(x) = model.time {
                Time::lemma_round_trip(x);
            }
        }
        assert(field_or::<Option<String>>(members, "title"@, None) == Some(model.title)) by {
            broadcast use group_member_lookup;
        }
        assert(field_or::<Option<TextAlign>>(members, "title_align"@, None) == Some(
            model.title_align,
        )) by {
            broadcast use group_member_lookup;
            if let Some(x) = model.title_align {
                TextAlign::lemma_round_trip(x);
            }
        }
        assert(field_or::<Option<String>>(members, "title_size"@, None) == Some(
            model.title_size,
        )) by {
            broadcast use group_member_lookup;
        }
    }
}

} // verus!
