//! JSON values, and the texts that they are read from and written to.
use vstd::prelude::*;

verus! {

/// The mathematical model of a JSON number.
pub ghost enum Num {
    /// A whole number.
    Int(int),
    /// Any other number, by its decimal text, such as `0.5` or `1e-7`.
    Real(Seq<char>),
}

/// The mathematical model of a JSON value. The members of an object are in the order in
/// which they stand.
pub ghost enum Json {
    Null,
    Bool(bool),
    Number(Num),
    String(Seq<char>),
    Array(Seq<Json>),
    Object(Seq<(Seq<char>, Json)>),
}

/// A JSON number. A whole number is held as such, as far as 64 bits hold it. Any other
/// number is held as its decimal text: the library does not compute with it.
#[derive(Debug, PartialEq, Eq)]
pub enum JsonNumber {
    /// A whole number that is not negative.
    Unsigned(u64),
    /// A whole number with a sign.
    Signed(i64),
    /// Any other number, held as its decimal text, such as `0.5` or `1e-7`.
    Real(String),
}

impl View for JsonNumber {
    type V = Num;

    open spec fn view(&self) -> Num {
        match self {
            JsonNumber::Unsigned(n) => Num::Int(*n as int),
            JsonNumber::Signed(n) => Num::Int(*n as int),
            JsonNumber::Real(text) => Num::Real(text@),
        }
    }
}

impl DeepView for JsonNumber {
    type V = Num;

    open spec fn deep_view(&self) -> Num {
        self@
    }
}

impl Clone for JsonNumber {
    fn clone(&self) -> (r: JsonNumber)
        ensures
            r@ == self@,
    {
        match self {
            JsonNumber::Unsigned(n) => JsonNumber::Unsigned(*n),
            JsonNumber::Signed(n) => JsonNumber::Signed(*n),
            JsonNumber::Real(text) => JsonNumber::Real(text.clone()),
        }
    }
}

/// A JSON value.
#[derive(Debug, PartialEq, Eq)]
pub enum JsonValue {
    Null,
    Bool(bool),
    Number(JsonNumber),
    String(String),
    Array(Vec<JsonValue>),
    Object(Vec<JsonMember>),
}

/// One named member of a JSON object.
#[derive(Debug, PartialEq, Eq)]
pub struct JsonMember {
    pub name: String,
    pub value: JsonValue,
}

impl View for JsonValue {
    type V = Json;

    open spec fn view(&self) -> Json
        decreases self,
    {
        match self {
            JsonValue::Null => Json::Null,
            JsonValue::Bool(b) => Json::Bool(*b),
            JsonValue::Number(n) => Json::Number(n@),
            JsonValue::String(s) => Json::String(s@),
            JsonValue::Array(items) => Json::Array(items_view(items@)),
            JsonValue::Object(members) => Json::Object(members_view(members@)),
        }
    }
}

impl DeepView for JsonValue {
    type V = Json;

    open spec fn deep_view(&self) -> Json {
        self@
    }
}

/// The views of the items of an array, in order.
pub open spec fn items_view(items: Seq<JsonValue>) -> Seq<Json>
    decreases items,
{
    if items.len() == 0 {
        Seq::empty()
    } else {
        items_view(items.drop_last()).push(items.last()@)
    }
}

/// The name and the view of each member of an object, in order.
pub open spec fn members_view(members: Seq<JsonMember>) -> Seq<(Seq<char>, Json)>
    decreases members,
{
    if members.len() == 0 {
        Seq::empty()
    } else {
        members_view(members.drop_last()).push((members.last().name@, members.last().value@))
    }
}

/// `items_view` keeps the length and views each item in its place.
pub proof fn lemma_items_view(items: Seq<JsonValue>)
    ensures
        items_view(items).len() == items.len(),
        forall|i: int| 0 <= i < items.len() ==> (#[trigger] items_view(items)[i]) == items[i]@,
    decreases items.len(),
{
    if items.len() > 0 {
        lemma_items_view(items.drop_last());
        assert(items_view(items) == items_view(items.drop_last()).push(items.last()@));
    } else {
        assert(items_view(items) == Seq::<Json>::empty());
    }
}

/// `members_view` keeps the length and views each member in its place.
pub proof fn lemma_members_view(members: Seq<JsonMember>)
    ensures
        members_view(members).len() == members.len(),
        forall|i: int|
            0 <= i < members.len() ==> (#[trigger] members_view(members)[i]) == (
                members[i].name@,
                members[i].value@,
            ),
    decreases members.len(),
{
    if members.len() > 0 {
        lemma_members_view(members.drop_last());
        assert(members_view(members) == members_view(members.drop_last()).push(
            (members.last().name@, members.last().value@),
        ));
    } else {
        assert(members_view(members) == Seq::<(Seq<char>, Json)>::empty());
    }
}

impl Clone for JsonValue {
    fn clone(&self) -> (r: JsonValue)
        ensures
            r@ == self@,
        decreases self,
    {
        match self {
            JsonValue::Null => JsonValue::Null,
            JsonValue::Bool(b) => JsonValue::Bool(*b),
            JsonValue::Number(n) => JsonValue::Number(n.clone()),
            JsonValue::String(s) => JsonValue::String(s.clone()),
            JsonValue::Array(items) => {
                let mut out: Vec<JsonValue> = Vec::new();
                let mut i: usize = 0;
                while i < items.len()
                    invariant
                        *self == JsonValue::Array(*items),
                        i <= items.len(),
                        out@.len() == i,
                        forall|k: int| 0 <= k < i ==> out@[k]@ == items@[k]@,
                    decreases items.len() - i,
                {
                    assert(decreases_to!(self => self->Array_0));
                    out.push(items[i].clone());
                    i += 1;
                }
                proof {
                    lemma_items_view(out@);
                    lemma_items_view(items@);
                    assert(items_view(out@) =~= items_view(items@));
                }
                JsonValue::Array(out)
            },
            JsonValue::Object(members) => {
                let mut out: Vec<JsonMember> = Vec::new();
                let mut i: usize = 0;
                while i < members.len()
                    invariant
                        *self == JsonValue::Object(*members),
                        i <= members.len(),
                        out@.len() == i,
                        forall|k: int|
                            0 <= k < i ==> out@[k].name@ == members@[k].name@ && out@[k].value@
                                == members@[k].value@,
                    decreases members.len() - i,
                {
                    assert(decreases_to!(self => self->Object_0));
                    out.push(
                        JsonMember {
                            name: members[i].name.clone(),
                            value: members[i].value.clone(),
                        },
                    );
                    i += 1;
                }
                proof {
                    lemma_members_view(out@);
                    lemma_members_view(members@);
                    assert(members_view(out@) =~= members_view(members@));
                }
                JsonValue::Object(out)
            },
        }
    }
}

/// The value stored under `key` in `members`, taking the first member of that name.
pub open spec fn member(members: Seq<(Seq<char>, Json)>, key: Seq<char>) -> Option<Json>
    decreases members.len(),
{
    if members.len() == 0 {
        None
    } else if members[0].0 == key {
        Some(members[0].1)
    } else {
        member(members.drop_first(), key)
    }
}

/// Looks a member up by name; the first member of that name is the one found.
pub fn get_member<'a>(members: &'a Vec<JsonMember>, key: &str) -> (found: Option<&'a JsonValue>)
    ensures
        match found {
            Some(value) => member(members_view(members@), key@) == Some(value@),
            None => member(members_view(members@), key@) is None,
        },
{
    let wanted = String::from_str(key);
    let ghost all = members_view(members@);
    proof {
        lemma_members_view(members@);
        assert(all.skip(0) =~= all);
    }
    let mut i: usize = 0;
    while i < members.len()
        invariant
            i <= members.len(),
            wanted@ == key@,
            all == members_view(members@),
            all.len() == members.len(),
            forall|k: int|
                0 <= k < members.len() ==> (#[trigger] all[k]) == (
                    members[k].name@,
                    members[k].value@,
                ),
            member(all, key@) == member(all.skip(i as int), key@),
        decreases members.len() - i,
    {
        let ghost rest = all.skip(i as int);
        assert(rest[0] == all[i as int]);
        assert(rest.drop_first() =~= all.skip(i + 1));
        if members[i].name == wanted {
            return Some(&members[i].value);
        }
        i += 1;
    }
    None
}

/// `serde_json::Value`, of which nothing is known here: values of it only pass between
/// `serde_json` and the conversions below.
#[verifier::external_type_specification]
#[verifier::external_body]
pub struct ExSerdeValue(serde_json::Value);

/// `serde_json::Number`, of which nothing is known here either.
#[verifier::external_type_specification]
#[verifier::external_body]
pub struct ExSerdeNumber(serde_json::Number);

/// What `serde_json::from_str` makes of a text when it is asked for a `serde_json::Value`:
/// the value it reads, or the message of the error it reports.
pub uninterp spec fn json_parse(text: Seq<char>) -> Result<Json, Seq<char>>;

/// The text that `serde_json::to_string` writes for a value.
pub uninterp spec fn json_render(value: Json) -> Seq<char>;

/// Reads a text with `serde_json::from_str`, which gives a `serde_json::Value` or an error;
/// the value is handed on as a `JsonValue`, the error as its message. Nothing is claimed of
/// what comes out for which text: the contract only names the outcome, which depends on the
/// text alone.
#[verifier::external_body]
pub(crate) fn parse_text(text: &str) -> (r: Result<JsonValue, String>)
    ensures
        match r {
            Ok(value) => json_parse(text@) == Ok::<Json, Seq<char>>(value@),
            Err(message) => json_parse(text@) == Err::<Json, Seq<char>>(message@),
        },
{
    match serde_json::from_str::<serde_json::Value>(text) {
        Ok(value) => Ok(value_from_serde(value)),
        Err(error) => Err(error.to_string()),
    }
}

/// Writes a value with `serde_json::to_string`, to which it is handed as a
/// `serde_json::Value`. On such a value `to_string` does not fail. Nothing is claimed of the
/// text: the contract only names it, and it depends on the value alone.
#[verifier::external_body]
pub(crate) fn render_text(value: &JsonValue) -> (text: String)
    ensures
        text@ == json_render(value@),
{
    match serde_json::to_string(&value_to_serde(value)) {
        Ok(text) => text,
        Err(_) => String::new(),
    }
}

/// Moves a `serde_json::Value` into a `JsonValue`, variant by variant. The members of an
/// object come in the order in which `serde_json::Map` hands them out.
#[verifier::external_body]
fn value_from_serde(value: serde_json::Value) -> JsonValue {
    match value {
        serde_json::Value::Null => JsonValue::Null,
        serde_json::Value::Bool(b) => JsonValue::Bool(b),
        serde_json::Value::Number(n) => JsonValue::Number(number_from_serde(&n)),
        serde_json::Value::String(s) => JsonValue::String(s),
        serde_json::Value::Array(items) => JsonValue::Array(
            items.into_iter().map(value_from_serde).collect(),
        ),
        serde_json::Value::Object(members) => JsonValue::Object(
            members
                .into_iter()
                .map(|(name, v)| JsonMember { name, value: value_from_serde(v) })
                .collect(),
        ),
    }
}

/// Moves a `serde_json::Number` into a `JsonNumber`: `as_u64` gives `Unsigned`, else `as_i64`
/// gives `Signed`, and what is left is held as the text that the number displays as.
#[verifier::external_body]
fn number_from_serde(n: &serde_json::Number) -> JsonNumber {
    match (n.as_u64(), n.as_i64()) {
        (Some(u), _) => JsonNumber::Unsigned(u),
        (None, Some(i)) => JsonNumber::Signed(i),
        (None, None) => JsonNumber::Real(n.to_string()),
    }
}

/// Copies a `JsonValue` into a `serde_json::Value`, variant by variant. Of two members with
/// one name the later one stays, as `serde_json::Map` has it.
#[verifier::external_body]
fn value_to_serde(value: &JsonValue) -> serde_json::Value {
    match value {
        JsonValue::Null => serde_json::Value::Null,
        JsonValue::Bool(b) => serde_json::Value::Bool(*b),
        JsonValue::Number(n) => number_to_serde(n),
        JsonValue::String(s) => serde_json::Value::String(s.clone()),
        JsonValue::Array(items) => serde_json::Value::Array(
            items.iter().map(value_to_serde).collect(),
        ),
        JsonValue::Object(members) => serde_json::Value::Object(
            members.iter().map(|m| (m.name.clone(), value_to_serde(&m.value))).collect(),
        ),
    }
}

/// Copies a `JsonNumber` into a `serde_json::Value`. The text of a `Real` is read back with
/// `serde_json::from_str`; a text that is no number gives `null`, which is also what
/// `serde_json` writes for a number that it cannot hold.
#[verifier::external_body]
fn number_to_serde(n: &JsonNumber) -> serde_json::Value {
    match n {
        JsonNumber::Unsigned(u) => serde_json::Value::from(*u),
        JsonNumber::Signed(i) => serde_json::Value::from(*i),
        JsonNumber::Real(text) => match serde_json::from_str::<serde_json::Number>(text) {
            Ok(number) => serde_json::Value::Number(number),
            Err(_) => serde_json::Value::Null,
        },
    }
}

/// The reason why a text could not be decoded.
#[derive(Debug, Clone, PartialEq, Eq)]
pub enum DecodeError {
    /// The text is not JSON. The message is the parser's.
    Syntax(String),
    /// The text is JSON, but not of the shape that was expected.
    Shape,
}

/// The model of a `DecodeError`.
pub ghost enum DecodeErrorModel {
    Syntax(Seq<char>),
    Shape,
}

impl View for DecodeError {
    type V = DecodeErrorModel;

    open spec fn view(&self) -> DecodeErrorModel {
        match self {
            DecodeError::Syntax(message) => DecodeErrorModel::Syntax(message@),
            DecodeError::Shape => DecodeErrorModel::Shape,
        }
    }
}

} // verus!
