//! The widgets of a dashboard.
pub mod wire;

use crate::text::same_text;
use vstd::prelude::*;

verus! {

/// What a widget shows. On the wire the member `type` tells the kinds apart.
#[derive(Debug, Clone, PartialEq, Eq)]
pub enum WidgetDefinition {
    /// A note: `type` is `note`.
    Note(Note),
    /// A query value: `type` is `query_value`.
    QueryValue(QueryValue),
}

/// The model of a `WidgetDefinition`.
pub ghost enum WidgetDefinitionModel {
    Note(NoteModel),
    QueryValue(QueryValueModel),
}

impl View for WidgetDefinition {
    type V = WidgetDefinitionModel;

    open spec fn view(&self) -> WidgetDefinitionModel {
        match self {
            WidgetDefinition::Note(note) => WidgetDefinitionModel::Note(note@),
            WidgetDefinition::QueryValue(query_value) => WidgetDefinitionModel::QueryValue(
                query_value@,
            ),
        }
    }
}

impl DeepView for WidgetDefinition {
    type V = WidgetDefinitionModel;

    open spec fn deep_view(&self) -> WidgetDefinitionModel {
        self@
    }
}

/// How a text is aligned from left to right.
#[derive(Debug, Clone, Copy, PartialEq, Eq)]
pub enum TextAlign {
    Center,
    Left,
    Right,
}

impl View for TextAlign {
    type V = TextAlign;

    open spec fn view(&self) -> TextAlign {
        *self
    }
}

impl DeepView for TextAlign {
    type V = TextAlign;

    open spec fn deep_view(&self) -> TextAlign {
        *self
    }
}

impl TextAlign {
    /// The value that `default` gives.
    pub open spec fn default_model() -> TextAlign {
        TextAlign::Left
    }

    /// The name that each variant has on the wire.
    pub open spec fn wire_name(self) -> Seq<char> {
        match self {
            TextAlign::Center => "center"@,
            TextAlign::Left => "left"@,
            TextAlign::Right => "right"@,
        }
    }

    /// The variant that a name on the wire stands for, if it is one of them.
    pub open spec fn from_wire_name(name: Seq<char>) -> Option<TextAlign> {
        if name == "center"@ {
            Some(TextAlign::Center)
        } else if name == "left"@ {
            Some(TextAlign::Left)
        } else if name == "right"@ {
            Some(TextAlign::Right)
        } else {
            None
        }
    }

    /// Every variant is found again under its own name: no two variants share one.
    pub proof fn lemma_wire_name_round_trip(self)
        ensures
            Self::from_wire_name(self.wire_name()) == Some(self),
    {
        reveal_strlit("center");
        reveal_strlit("left");
        reveal_strlit("right");
        assert("center"@.len() == 6);
        assert("left"@.len() == 4);
        assert("right"@.len() == 5);
    }

    /// The name of this variant on the wire.
    pub fn as_str(&self) -> (name: &'static str)
        ensures
            name@ == self.wire_name(),
    {
        match self {
            TextAlign::Center => "center",
            TextAlign::Left => "left",
            TextAlign::Right => "right",
        }
    }

    /// Finds the variant that a name on the wire stands for.
    pub fn from_name(name: &str) -> (r: Option<TextAlign>)
        ensures
            r == Self::from_wire_name(name@),
    {
        if same_text(name, "center") {
            Some(TextAlign::Center)
        } else if same_text(name, "left") {
            Some(TextAlign::Left)
        } else if same_text(name, "right") {
            Some(TextAlign::Right)
        } else {
            None
        }
    }
}

impl Default for TextAlign {
    fn default() -> (r: TextAlign)
        ensures
            r == TextAlign::default_model(),
    {
        TextAlign::Left
    }
}

/// How a text is aligned from top to bottom.
#[derive(Debug, Clone, Copy, PartialEq, Eq)]
pub enum VerticalAlign {
    Top,
    Center,
    Bottom,
}

impl View for VerticalAlign {
    type V = VerticalAlign;

    open spec fn view(&self) -> VerticalAlign {
        *self
    }
}

impl DeepView for VerticalAlign {
    type V = VerticalAlign;

    open spec fn deep_view(&self) -> VerticalAlign {
        *self
    }
}

impl VerticalAlign {
    /// The value that `default` gives.
    pub open spec fn default_model() -> VerticalAlign {
        VerticalAlign::Top
    }

    /// The name that each variant has on the wire.
    pub open spec fn wire_name(self) -> Seq<char> {
        match self {
            VerticalAlign::Top => "top"@,
            VerticalAlign::Center => "center"@,
            VerticalAlign::Bottom => "bottom"@,
        }
    }

    /// The variant that a name on the wire stands for, if it is one of them.
    pub open spec fn from_wire_name(name: Seq<char>) -> Option<VerticalAlign> {
        if name == "top"@ {
            Some(VerticalAlign::Top)
        } else if name == "center"@ {
            Some(VerticalAlign::Center)
        } else if name == "bottom"@ {
            Some(VerticalAlign::Bottom)
        } else {
            None
        }
    }

    /// Every variant is found again under its own name: no two variants share one.
    pub proof fn lemma_wire_name_round_trip(self)
        ensures
            Self::from_wire_name(self.wire_name()) == Some(self),
    {
        reveal_strlit("top");
        reveal_strlit("center");
        reveal_strlit("bottom");
        assert("top"@.len() == 3);
        assert("center"@.len() == 6);
        assert("bottom"@.len() == 6);
        assert("center"@[0] == 'c');
        assert("bottom"@[0] == 'b');
    }

    /// The name of this variant on the wire.
    pub fn as_str(&self) -> (name: &'static str)
        ensures
            name@ == self.wire_name(),
    {
        match self {
            VerticalAlign::Top => "top",
            VerticalAlign::Center => "center",
            VerticalAlign::Bottom => "bottom",
        }
    }

    /// Finds the variant that a name on the wire stands for.
    pub fn from_name(name: &str) -> (r: Option<VerticalAlign>)
        ensures
            r == Self::from_wire_name(name@),
    {
        if same_text(name, "top") {
            Some(VerticalAlign::Top)
        } else if same_text(name, "center") {
            Some(VerticalAlign::Center)
        } else if same_text(name, "bottom") {
            Some(VerticalAlign::Bottom)
        } else {
            None
        }
    }
}

impl Default for VerticalAlign {
    fn default() -> (r: VerticalAlign)
        ensures
            r == VerticalAlign::default_model(),
    {
        VerticalAlign::Top
    }
}

/// How the values of a request are brought down to one.
#[derive(Debug, Clone, Copy, PartialEq, Eq)]
pub enum RequestAggregator {
    /// The average of the values.
    Average,
    /// The least of the values.
    Minimum,
    /// The greatest of the values.
    Maximum,
    /// The sum of the values.
    Sum,
    /// The last value.
    Last,
    /// A percentile of the values.
    Percentile,
}

impl View for RequestAggregator {
    type V = RequestAggregator;

    open spec fn view(&self) -> RequestAggregator {
        *self
    }
}

impl DeepView for RequestAggregator {
    type V = RequestAggregator;

    open spec fn deep_view(&self) -> RequestAggregator {
        *self
    }
}

impl RequestAggregator {
    /// The value that `default` gives.
    pub open spec fn default_model() -> RequestAggregator {
        RequestAggregator::Average
    }

    /// The name that each variant has on the wire.
    pub open spec fn wire_name(self) -> Seq<char> {
        match self {
            RequestAggregator::Average => "avg"@,
            RequestAggregator::Minimum => "min"@,
            RequestAggregator::Maximum => "max"@,
            RequestAggregator::Sum => "sum"@,
            RequestAggregator::Last => "last"@,
            RequestAggregator::Percentile => "percentile"@,
        }
    }

    /// The variant that a name on the wire stands for, if it is one of them.
    pub open spec fn from_wire_name(name: Seq<char>) -> Option<RequestAggregator> {
        if name == "avg"@ {
            Some(RequestAggregator::Average)
        } else if name == "min"@ {
            Some(RequestAggregator::Minimum)
        } else if name == "max"@ {
            Some(RequestAggregator::Maximum)
        } else if name == "sum"@ {
            Some(RequestAggregator::Sum)
        } else if name == "last"@ {
            Some(RequestAggregator::Last)
        } else if name == "percentile"@ {
            Some(RequestAggregator::Percentile)
        } else {
            None
        }
    }

    /// Every variant is found again under its own name: no two variants share one.
    pub proof fn lemma_wire_name_round_trip(self)
        ensures
            Self::from_wire_name(self.wire_name()) == Some(self),
    {
        reveal_strlit("avg");
        reveal_strlit("min");
        reveal_strlit("max");
        reveal_strlit("sum");
        reveal_strlit("last");
        reveal_strlit("percentile");
        assert("avg"@.len() == 3);
        assert("min"@.len() == 3);
        assert("max"@.len() == 3);
        assert("sum"@.len() == 3);
        assert("last"@.len() == 4);
        assert("percentile"@.len() == 10);
        assert("avg"@[0] == 'a');
        assert("min"@[0] == 'm');
        assert("min"@[1] == 'i');
        assert("max"@[0] == 'm');
        assert("max"@[1] == 'a');
        assert("sum"@[0] == 's');
    }

    /// The name of this variant on the wire.
    pub fn as_str(&self) -> (name: &'static str)
        ensures
            name@ == self.wire_name(),
    {
        match self {
            RequestAggregator::Average => "avg",
            RequestAggregator::Minimum => "min",
            RequestAggregator::Maximum => "max",
            RequestAggregator::Sum => "sum",
            RequestAggregator::Last => "last",
            RequestAggregator::Percentile => "percentile",
        }
    }

    /// Finds the variant that a name on the wire stands for.
    pub fn from_name(name: &str) -> (r: Option<RequestAggregator>)
        ensures
            r == Self::from_wire_name(name@),
    {
        if same_text(name, "avg") {
            Some(RequestAggregator::Average)
        } else if same_text(name, "min") {
            Some(RequestAggregator::Minimum)
        } else if same_text(name, "max") {
            Some(RequestAggregator::Maximum)
        } else if same_text(name, "sum") {
            Some(RequestAggregator::Sum)
        } else if same_text(name, "last") {
            Some(RequestAggregator::Last)
        } else if same_text(name, "percentile") {
            Some(RequestAggregator::Percentile)
        } else {
            None
        }
    }
}

impl Default for RequestAggregator {
    fn default() -> (r: RequestAggregator)
        ensures
            r == RequestAggregator::default_model(),
    {
        RequestAggregator::Average
    }
}

/// How the values of a metrics query are brought down to one.
#[derive(Debug, Clone, Copy, PartialEq, Eq)]
pub enum MetricAggregator {
    /// The average of the values.
    Average,
    /// The least of the values.
    Minimum,
    /// The greatest of the values.
    Maximum,
    /// The sum of the values.
    Sum,
    /// The last value.
    Last,
    /// The signed area under the curve, which can be negative.
    Area,
    /// The norm of the series, which is never negative.
    Norm,
    /// A percentile of the values.
    Percentile,
}

impl View for MetricAggregator {
    type V = MetricAggregator;

    open spec fn view(&self) -> MetricAggregator {
        *self
    }
}

impl DeepView for MetricAggregator {
    type V = MetricAggregator;

    open spec fn deep_view(&self) -> MetricAggregator {
        *self
    }
}

impl MetricAggregator {
    /// The value that `default` gives.
    pub open spec fn default_model() -> MetricAggregator {
        MetricAggregator::Average
    }

    /// The name that each variant has on the wire.
    pub open spec fn wire_name(self) -> Seq<char> {
        match self {
            MetricAggregator::Average => "avg"@,
            MetricAggregator::Minimum => "min"@,
            MetricAggregator::Maximum => "max"@,
            MetricAggregator::Sum => "sum"@,
            MetricAggregator::Last => "last"@,
            MetricAggregator::Area => "area"@,
            MetricAggregator::Norm => "l2norm"@,
            MetricAggregator::Percentile => "percentile"@,
        }
    }

    /// The variant that a name on the wire stands for, if it is one of them.
    pub open spec fn from_wire_name(name: Seq<char>) -> Option<MetricAggregator> {
        if name == "avg"@ {
            Some(MetricAggregator::Average)
        } else if name == "min"@ {
            Some(MetricAggregator::Minimum)
        } else if name == "max"@ {
            Some(MetricAggregator::Maximum)
        } else if name == "sum"@ {
            Some(MetricAggregator::Sum)
        } else if name == "last"@ {
            Some(MetricAggregator::Last)
        } else if name == "area"@ {
            Some(MetricAggregator::Area)
        } else if name == "l2norm"@ {
            Some(MetricAggregator::Norm)
        } else if name == "percentile"@ {
            Some(MetricAggregator::Percentile)
        } else {
            None
        }
    }

    /// Every variant is found again under its own name: no two variants share one.
    pub proof fn lemma_wire_name_round_trip(self)
        ensures
            Self::from_wire_name(self.wire_name()) == Some(self),
    {
        reveal_strlit("avg");
        reveal_strlit("min");
        reveal_strlit("max");
        reveal_strlit("sum");
        reveal_strlit("last");
        reveal_strlit("area");
        reveal_strlit("l2norm");
        reveal_strlit("percentile");
        assert("avg"@.len() == 3);
        assert("min"@.len() == 3);
        assert("max"@.len() == 3);
        assert("sum"@.len() == 3);
        assert("last"@.len() == 4);
        assert("area"@.len() == 4);
        assert("l2norm"@.len() == 6);
        assert("percentile"@.len() == 10);
        assert("avg"@[0] == 'a');
        assert("min"@[0] == 'm');
        assert("min"@[1] == 'i');
        assert("max"@[0] == 'm');
        assert("max"@[1] == 'a');
        assert("sum"@[0] == 's');
        assert("last"@[0] == 'l');
        assert("area"@[0] == 'a');
    }

    /// The name of this variant on the wire.
    pub fn as_str(&self) -> (name: &'static str)
        ensures
            name@ == self.wire_name(),
    {
        match self {
            MetricAggregator::Average => "avg",
            MetricAggregator::Minimum => "min",
            MetricAggregator::Maximum => "max",
            MetricAggregator::Sum => "sum",
            MetricAggregator::Last => "last",
            MetricAggregator::Area => "area",
            MetricAggregator::Norm => "l2norm",
            MetricAggregator::Percentile => "percentile",
        }
    }

    /// Finds the variant that a name on the wire stands for.
    pub fn from_name(name: &str) -> (r: Option<MetricAggregator>)
        ensures
            r == Self::from_wire_name(name@),
    {
        if same_text(name, "avg") {
            Some(MetricAggregator::Average)
        } else if same_text(name, "min") {
            Some(MetricAggregator::Minimum)
        } else if same_text(name, "max") {
            Some(MetricAggregator::Maximum)
        } else if same_text(name, "sum") {
            Some(MetricAggregator::Sum)
        } else if same_text(name, "last") {
            Some(MetricAggregator::Last)
        } else if same_text(name, "area") {
            Some(MetricAggregator::Area)
        } else if same_text(name, "l2norm") {
            Some(MetricAggregator::Norm)
        } else if same_text(name, "percentile") {
            Some(MetricAggregator::Percentile)
        } else {
            None
        }
    }
}

impl Default for MetricAggregator {
    fn default() -> (r: MetricAggregator)
        ensures
            r == MetricAggregator::default_model(),
    {
        MetricAggregator::Average
    }
}

/// A widget that shows a text.
#[derive(Debug, Clone, PartialEq, Eq)]
pub struct Note {
    /// Background color of the note.
    pub background_color: Option<String>,
    /// The text of the note.
    pub content: String,
    /// Size of the text.
    pub font_size: Option<String>,
    /// Whether there is room around the text.
    pub has_padding: Option<bool>,
    /// Whether a tick is shown.
    pub show_tick: Option<bool>,
    /// How the text is aligned from left to right.
    pub text_align: Option<TextAlign>,
    /// The edge that the tick is on.
    pub tick_edge: Option<TickEdge>,
    /// Where on its edge the tick is.
    pub tick_pos: Option<String>,
    /// How the text is aligned from top to bottom.
    pub vertical_align: Option<VerticalAlign>,
}

/// The model of a `Note`.
pub ghost struct NoteModel {
    pub background_color: Option<Seq<char>>,
    pub content: Seq<char>,
    pub font_size: Option<Seq<char>>,
    pub has_padding: Option<bool>,
    pub show_tick: Option<bool>,
    pub text_align: Option<TextAlign>,
    pub tick_edge: Option<TickEdge>,
    pub tick_pos: Option<Seq<char>>,
    pub vertical_align: Option<VerticalAlign>,
}

impl View for Note {
    type V = NoteModel;

    open spec fn view(&self) -> NoteModel {
        NoteModel {
            background_color: self.background_color.deep_view(),
            content: self.content@,
            font_size: self.font_size.deep_view(),
            has_padding: self.has_padding,
            show_tick: self.show_tick,
            text_align: self.text_align,
            tick_edge: self.tick_edge,
            tick_pos: self.tick_pos.deep_view(),
            vertical_align: self.vertical_align,
        }
    }
}

impl DeepView for Note {
    type V = NoteModel;

    open spec fn deep_view(&self) -> NoteModel {
        self@
    }
}

impl Note {
    /// The model of the value that `default` gives.
    pub open spec fn default_model() -> NoteModel {
        NoteModel {
            background_color: None,
            content: Seq::empty(),
            font_size: None,
            has_padding: None,
            show_tick: None,
            text_align: None,
            tick_edge: None,
            tick_pos: None,
            vertical_align: None,
        }
    }
}

impl Default for Note {
    fn default() -> (r: Note)
        ensures
            r@ == Note::default_model(),
    {
        Note {
            background_color: None,
            content: String::new(),
            font_size: None,
            has_padding: None,
            show_tick: None,
            text_align: None,
            tick_edge: None,
            tick_pos: None,
            vertical_align: None,
        }
    }
}

/// A link in the context menu of a widget.
#[derive(Debug, Clone, Copy, PartialEq, Eq)]
pub struct CustomLink {
    /// Whether the link is hidden.
    pub is_hidden: Option<bool>,
    /// The label of the link.
    pub label: Option<bool>,
    /// The URL of the link.
    pub link: Option<bool>,
    /// The ID of the built-in link that this one replaces.
    pub override_label: Option<bool>,
}

impl View for CustomLink {
    type V = CustomLink;

    open spec fn view(&self) -> CustomLink {
        *self
    }
}

impl DeepView for CustomLink {
    type V = CustomLink;

    open spec fn deep_view(&self) -> CustomLink {
        self@
    }
}

/// The time span that a widget shows.
#[derive(Debug, Clone, PartialEq, Eq)]
pub struct Time {
    /// The span, such as `1h`, `1d` or `1mo`. Which spans there are depends on the widget.
    pub live_span: Option<String>,
}

/// The model of a `Time`.
pub ghost struct TimeModel {
    pub live_span: Option<Seq<char>>,
}

impl View for Time {
    type V = TimeModel;

    open spec fn view(&self) -> TimeModel {
        TimeModel {
            live_span: self.live_span.deep_view(),
        }
    }
}

impl DeepView for Time {
    type V = TimeModel;

    open spec fn deep_view(&self) -> TimeModel {
        self@
    }
}

/// A formula over the queries of a request.
#[derive(Debug, Clone, PartialEq, Eq)]
pub struct Formula {
    /// Another name for the expression.
    pub alias: Option<String>,
    /// The expression, built from queries, formulas and functions.
    pub formula: String,
}

/// The model of a `Formula`.
pub ghost struct FormulaModel {
    pub alias: Option<Seq<char>>,
    pub formula: Seq<char>,
}

impl View for Formula {
    type V = FormulaModel;

    open spec fn view(&self) -> FormulaModel {
        FormulaModel {
            alias: self.alias.deep_view(),
            formula: self.formula@,
        }
    }
}

impl DeepView for Formula {
    type V = FormulaModel;

    open spec fn deep_view(&self) -> FormulaModel {
        self@
    }
}

/// The edge of a note that its tick is on.
#[derive(Debug, Clone, Copy, PartialEq, Eq)]
pub enum TickEdge {
    Bottom,
    Left,
    Right,
    Top,
}

impl View for TickEdge {
    type V = TickEdge;

    open spec fn view(&self) -> TickEdge {
        *self
    }
}

impl DeepView for TickEdge {
    type V = TickEdge;

    open spec fn deep_view(&self) -> TickEdge {
        *self
    }
}

impl TickEdge {
    /// The value that `default` gives.
    pub open spec fn default_model() -> TickEdge {
        TickEdge::Right
    }

    /// The name that each variant has on the wire.
    pub open spec fn wire_name(self) -> Seq<char> {
        match self {
            TickEdge::Bottom => "bottom"@,
            TickEdge::Left => "left"@,
            TickEdge::Right => "right"@,
            TickEdge::Top => "top"@,
        }
    }

    /// The variant that a name on the wire stands for, if it is one of them.
    pub open spec fn from_wire_name(name: Seq<char>) -> Option<TickEdge> {
        if name == "bottom"@ {
            Some(TickEdge::Bottom)
        } else if name == "left"@ {
            Some(TickEdge::Left)
        } else if name == "right"@ {
            Some(TickEdge::Right)
        } else if name == "top"@ {
            Some(TickEdge::Top)
        } else {
            None
        }
    }

    /// Every variant is found again under its own name: no two variants share one.
    pub proof fn lemma_wire_name_round_trip(self)
        ensures
            Self::from_wire_name(self.wire_name()) == Some(self),
    {
        reveal_strlit("bottom");
        reveal_strlit("left");
        reveal_strlit("right");
        reveal_strlit("top");
        assert("bottom"@.len() == 6);
        assert("left"@.len() == 4);
        assert("right"@.len() == 5);
        assert("top"@.len() == 3);
    }

    /// The name of this variant on the wire.
    pub fn as_str(&self) -> (name: &'static str)
        ensures
            name@ == self.wire_name(),
    {
        match self {
            TickEdge::Bottom => "bottom",
            TickEdge::Left => "left",
            TickEdge::Right => "right",
            TickEdge::Top => "top",
        }
    }

    /// Finds the variant that a name on the wire stands for.
    pub fn from_name(name: &str) -> (r: Option<TickEdge>)
        ensures
            r == Self::from_wire_name(name@),
    {
        if same_text(name, "bottom") {
            Some(TickEdge::Bottom)
        } else if same_text(name, "left") {
            Some(TickEdge::Left)
        } else if same_text(name, "right") {
            Some(TickEdge::Right)
        } else if same_text(name, "top") {
            Some(TickEdge::Top)
        } else {
            None
        }
    }
}

impl Default for TickEdge {
    fn default() -> (r: TickEdge)
        ensures
            r == TickEdge::default_model(),
    {
        TickEdge::Right
    }
}

/// A query whose result is shown or used in formulas. On the wire it is the query itself,
/// with nothing to tell its kind.
#[derive(Debug, Clone, PartialEq, Eq)]
pub enum Query {
    /// A metrics query.
    Option1(QueryOption1),
}

/// The model of a `Query`.
pub ghost enum QueryModel {
    Option1(QueryOption1Model),
}

impl View for Query {
    type V = QueryModel;

    open spec fn view(&self) -> QueryModel {
        match self {
            Query::Option1(query) => QueryModel::Option1(query@),
        }
    }
}

impl DeepView for Query {
    type V = QueryModel;

    open spec fn deep_view(&self) -> QueryModel {
        self@
    }
}

/// A metrics query for formulas and functions.
#[derive(Debug, Clone, PartialEq, Eq)]
pub struct QueryOption1 {
    /// How the values are brought down to one.
    pub aggregator: Option<MetricAggregator>,
    /// Where the data comes from: `metrics`.
    pub data_source: String,
    /// The name of the query in formulas.
    pub name: String,
    /// The metrics query.
    pub query: String,
}

/// The model of a `QueryOption1`.
pub ghost struct QueryOption1Model {
    pub aggregator: Option<MetricAggregator>,
    pub data_source: Seq<char>,
    pub name: Seq<char>,
    pub query: Seq<char>,
}

impl View for QueryOption1 {
    type V = QueryOption1Model;

    open spec fn view(&self) -> QueryOption1Model {
        QueryOption1Model {
            aggregator: self.aggregator,
            data_source: self.data_source@,
            name: self.name@,
            query: self.query@,
        }
    }
}

impl DeepView for QueryOption1 {
    type V = QueryOption1Model;

    open spec fn deep_view(&self) -> QueryOption1Model {
        self@
    }
}

/// Whether a request gives a series over time or one value.
#[derive(Debug, Clone, Copy, PartialEq, Eq)]
pub enum ResponseFormat {
    Timeseries,
    Scalar,
}

impl View for ResponseFormat {
    type V = ResponseFormat;

    open spec fn view(&self) -> ResponseFormat {
        *self
    }
}

impl DeepView for ResponseFormat {
    type V = ResponseFormat;

    open spec fn deep_view(&self) -> ResponseFormat {
        *self
    }
}

impl ResponseFormat {
    /// The name that each variant has on the wire.
    pub open spec fn wire_name(self) -> Seq<char> {
        match self {
            ResponseFormat::Timeseries => "timeseries"@,
            ResponseFormat::Scalar => "scalar"@,
        }
    }

    /// The variant that a name on the wire stands for, if it is one of them.
    pub open spec fn from_wire_name(name: Seq<char>) -> Option<ResponseFormat> {
        if name == "timeseries"@ {
            Some(ResponseFormat::Timeseries)
        } else if name == "scalar"@ {
            Some(ResponseFormat::Scalar)
        } else {
            None
        }
    }

    /// Every variant is found again under its own name: no two variants share one.
    pub proof fn lemma_wire_name_round_trip(self)
        ensures
            Self::from_wire_name(self.wire_name()) == Some(self),
    {
        reveal_strlit("timeseries");
        reveal_strlit("scalar");
        assert("timeseries"@.len() == 10);
        assert("scalar"@.len() == 6);
    }

    /// The name of this variant on the wire.
    pub fn as_str(&self) -> (name: &'static str)
        ensures
            name@ == self.wire_name(),
    {
        match self {
            ResponseFormat::Timeseries => "timeseries",
            ResponseFormat::Scalar => "scalar",
        }
    }

    /// Finds the variant that a name on the wire stands for.
    pub fn from_name(name: &str) -> (r: Option<ResponseFormat>)
        ensures
            r == Self::from_wire_name(name@),
    {
        if same_text(name, "timeseries") {
            Some(ResponseFormat::Timeseries)
        } else if same_text(name, "scalar") {
            Some(ResponseFormat::Scalar)
        } else {
            None
        }
    }
}

/// One request of a query value widget.
#[derive(Debug, Clone, PartialEq, Eq)]
pub struct Request {
    /// How the values are brought down to one.
    pub aggregator: Option<RequestAggregator>,
    /// Formulas over the queries.
    pub formulas: Option<Vec<Formula>>,
    /// Queries whose results are shown or used in formulas.
    pub queries: Option<Vec<Query>>,
    /// Whether the request gives a series or one value.
    pub response_format: Option<ResponseFormat>,
}

/// The model of a `Request`.
pub ghost struct RequestModel {
    pub aggregator: Option<RequestAggregator>,
    pub formulas: Option<Seq<FormulaModel>>,
    pub queries: Option<Seq<QueryModel>>,
    pub response_format: Option<ResponseFormat>,
}

impl View for Request {
    type V = RequestModel;

    open spec fn view(&self) -> RequestModel {
        RequestModel {
            aggregator: self.aggregator,
            formulas: self.formulas.deep_view(),
            queries: self.queries.deep_view(),
            response_format: self.response_format,
        }
    }
}

impl DeepView for Request {
    type V = RequestModel;

    open spec fn deep_view(&self) -> RequestModel {
        self@
    }
}

/// A widget that shows one value of a query.
#[derive(Debug, Clone, PartialEq, Eq)]
pub struct QueryValue {
    /// Whether the value is scaled to a fitting unit.
    pub autoscale: Option<bool>,
    /// Links in the context menu.
    pub custom_links: Option<Vec<CustomLink>>,
    /// A unit to show with the value.
    pub custom_unit: Option<String>,
    /// How many decimals are shown. Without it the value is shown as it is.
    pub precision: Option<i64>,
    /// The requests of the widget.
    pub requests: Option<Vec<Request>>,
    /// How the value is aligned.
    pub text_align: Option<TextAlign>,
    /// The time span of the widget.
    pub time: Option<Time>,
    /// Title of the widget.
    pub title: Option<String>,
    /// How the title is aligned.
    pub title_align: Option<TextAlign>,
    /// Size of the title.
    pub title_size: Option<String>,
}

/// The model of a `QueryValue`.
pub ghost struct QueryValueModel {
    pub autoscale: Option<bool>,
    pub custom_links: Option<Seq<CustomLink>>,
    pub custom_unit: Option<Seq<char>>,
    pub precision: Option<i64>,
    pub requests: Option<Seq<RequestModel>>,
    pub text_align: Option<TextAlign>,
    pub time: Option<TimeModel>,
    pub title: Option<Seq<char>>,
    pub title_align: Option<TextAlign>,
    pub title_size: Option<Seq<char>>,
}

impl View for QueryValue {
    type V = QueryValueModel;

    open spec fn view(&self) -> QueryValueModel {
        QueryValueModel {
            autoscale: self.autoscale,
            custom_links: self.custom_links.deep_view(),
            custom_unit: self.custom_unit.deep_view(),
            precision: self.precision,
            requests: self.requests.deep_view(),
            text_align: self.text_align,
            time: self.time.deep_view(),
            title: self.title.deep_view(),
            title_align: self.title_align,
            title_size: self.title_size.deep_view(),
        }
    }
}

impl DeepView for QueryValue {
    type V = QueryValueModel;

    open spec fn deep_view(&self) -> QueryValueModel {
        self@
    }
}

} // verus!
