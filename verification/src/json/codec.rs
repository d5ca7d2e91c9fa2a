//! Reading values of the library from JSON values and writing them as such.
use crate::json::value::{
    items_view, lemma_items_view, lemma_members_view, members_view, Json, JsonMember, JsonNumber,
    JsonValue, Num,
};
use vstd::prelude::*;

verus! {

/// Types that can be read from a JSON value.
pub trait FromJson: Sized + DeepView {
    /// What a JSON value decodes to, or `None` where it has not the shape of this type.
    spec fn decoded(value: Json) -> Option<Self::V>;

    /// Reads a value of this type from a JSON value.
    fn from_json(value: &JsonValue) -> (r: Option<Self>)
        ensures
            r.deep_view() == Self::decoded(value@),
    ;
}

/// Types that can be written as a JSON value.
pub trait ToJson: DeepView {
    /// The JSON value that stands for a value of this type.
    spec fn encoded(model: Self::V) -> Json;

    /// Writes this value as a JSON value.
    fn to_json(&self) -> (r: JsonValue)
        ensures
            r@ == Self::encoded(self.deep_view()),
    ;
}

/// The whole number that a JSON value holds, where it is one within the given bounds.
pub open spec fn whole_number(value: Json, low: int, high: int) -> Option<int> {
    match value {
        Json::Number(Num::Int(n)) => if low <= n <= high {
            Some(n)
        } else {
            None
        },
        _ => None,
    }
}

impl FromJson for bool {
    open spec fn decoded(value: Json) -> Option<bool> {
        match value {
            Json::Bool(b) => Some(b),
            _ => None,
        }
    }

    fn from_json(value: &JsonValue) -> (r: Option<bool>) {
        match value {
            JsonValue::Bool(b) => Some(*b),
            _ => None,
        }
    }
}

impl ToJson for bool {
    open spec fn encoded(model: bool) -> Json {
        Json::Bool(model)
    }

    fn to_json(&self) -> (r: JsonValue) {
        JsonValue::Bool(*self)
    }
}

impl FromJson for u64 {
    open spec fn decoded(value: Json) -> Option<u64> {
        match whole_number(value, 0, u64::MAX as int) {
            Some(n) => Some(n as u64),
            None => None,
        }
    }

    fn from_json(value: &JsonValue) -> (r: Option<u64>) {
        match value {
            JsonValue::Number(JsonNumber::Unsigned(n)) => Some(*n),
            JsonValue::Number(JsonNumber::Signed(n)) => if *n >= 0 {
                Some(*n as u64)
            } else {
                None
            },
            _ => None,
        }
    }
}

impl ToJson for u64 {
    open spec fn encoded(model: u64) -> Json {
        Json::Number(Num::Int(model as int))
    }

    fn to_json(&self) -> (r: JsonValue) {
        JsonValue::Number(JsonNumber::Unsigned(*self))
    }
}

impl FromJson for u8 {
    open spec fn decoded(value: Json) -> Option<u8> {
        match whole_number(value, 0, u8::MAX as int) {
            Some(n) => Some(n as u8),
            None => None,
        }
    }

    fn from_json(value: &JsonValue) -> (r: Option<u8>) {
        match value {
            JsonValue::Number(JsonNumber::Unsigned(n)) => if *n <= 255 {
                Some(*n as u8)
            } else {
                None
            },
            JsonValue::Number(JsonNumber::Signed(n)) => if 0 <= *n && *n <= 255 {
                Some(*n as u8)
            } else {
                None
            },
            _ => None,
        }
    }
}

impl ToJson for u8 {
    open spec fn encoded(model: u8) -> Json {
        Json::Number(Num::Int(model as int))
    }

    fn to_json(&self) -> (r: JsonValue) {
        JsonValue::Number(JsonNumber::Unsigned(*self as u64))
    }
}

impl FromJson for u16 {
    open spec fn decoded(value: Json) -> Option<u16> {
        match whole_number(value, 0, u16::MAX as int) {
            Some(n) => Some(n as u16),
            None => None,
        }
    }

    fn from_json(value: &JsonValue) -> (r: Option<u16>) {
        match value {
            JsonValue::Number(JsonNumber::Unsigned(n)) => if *n <= 65535 {
                Some(*n as u16)
            } else {
                None
            },
            JsonValue::Number(JsonNumber::Signed(n)) => if 0 <= *n && *n <= 65535 {
                Some(*n as u16)
            } else {
                None
            },
            _ => None,
        }
    }
}

impl ToJson for u16 {
    open spec fn encoded(model: u16) -> Json {
        Json::Number(Num::Int(model as int))
    }

    fn to_json(&self) -> (r: JsonValue) {
        JsonValue::Number(JsonNumber::Unsigned(*self as u64))
    }
}

impl FromJson for u32 {
    open spec fn decoded(value: Json) -> Option<u32> {
        match whole_number(value, 0, u32::MAX as int) {
            Some(n) => Some(n as u32),
            None => None,
        }
    }

    fn from_json(value: &JsonValue) -> (r: Option<u32>) {
        match value {
            JsonValue::Number(JsonNumber::Unsigned(n)) => if *n <= 4294967295 {
                Some(*n as u32)
            } else {
                None
            },
            JsonValue::Number(JsonNumber::Signed(n)) => if 0 <= *n && *n <= 4294967295 {
                Some(*n as u32)
            } else {
                None
            },
            _ => None,
        }
    }
}

impl ToJson for u32 {
    open spec fn encoded(model: u32) -> Json {
        Json::Number(Num::Int(model as int))
    }

    fn to_json(&self) -> (r: JsonValue) {
        JsonValue::Number(JsonNumber::Unsigned(*self as u64))
    }
}

impl FromJson for i32 {
    open spec fn decoded(value: Json) -> Option<i32> {
        match whole_number(value, i32::MIN as int, i32::MAX as int) {
            Some(n) => Some(n as i32),
            None => None,
        }
    }

    fn from_json(value: &JsonValue) -> (r: Option<i32>) {
        match value {
            JsonValue::Number(JsonNumber::Unsigned(n)) => if *n <= 2147483647 {
                Some(*n as i32)
            } else {
                None
            },
            JsonValue::Number(JsonNumber::Signed(n)) => if -2147483648 <= *n && *n <= 2147483647 {
                Some(*n as i32)
            } else {
                None
            },
            _ => None,
        }
    }
}

impl ToJson for i32 {
    open spec fn encoded(model: i32) -> Json {
        Json::Number(Num::Int(model as int))
    }

    fn to_json(&self) -> (r: JsonValue) {
        JsonValue::Number(JsonNumber::Signed(*self as i64))
    }
}

impl FromJson for i64 {
    open spec fn decoded(value: Json) -> Option<i64> {
        match whole_number(value, i64::MIN as int, i64::MAX as int) {
            Some(n) => Some(n as i64),
            None => None,
        }
    }

    fn from_json(value: &JsonValue) -> (r: Option<i64>) {
        match value {
            JsonValue::Number(JsonNumber::Unsigned(n)) => if *n <= 9223372036854775807 {
                Some(*n as i64)
            } else {
                None
            },
            JsonValue::Number(JsonNumber::Signed(n)) => if -9223372036854775808 <= *n && *n
                <= 9223372036854775807 {
                Some(*n as i64)
            } else {
                None
            },
            _ => None,
        }
    }
}

impl ToJson for i64 {
    open spec fn encoded(model: i64) -> Json {
        Json::Number(Num::Int(model as int))
    }

    fn to_json(&self) -> (r: JsonValue) {
        JsonValue::Number(JsonNumber::Signed(*self as i64))
    }
}

impl FromJson for JsonNumber {
    open spec fn decoded(value: Json) -> Option<Num> {
        match value {
            Json::Number(n) => Some(n),
            _ => None,
        }
    }

    fn from_json(value: &JsonValue) -> (r: Option<JsonNumber>) {
        match value {
            JsonValue::Number(n) => Some(n.clone()),
            _ => None,
        }
    }
}

impl ToJson for JsonNumber {
    open spec fn encoded(model: Num) -> Json {
        Json::Number(model)
    }

    fn to_json(&self) -> (r: JsonValue) {
        JsonValue::Number(self.clone())
    }
}

impl FromJson for String {
    open spec fn decoded(value: Json) -> Option<Seq<char>> {
        match value {
            Json::String(s) => Some(s),
            _ => None,
        }
    }

    fn from_json(value: &JsonValue) -> (r: Option<String>) {
        match value {
            JsonValue::String(s) => Some(s.clone()),
            _ => None,
        }
    }
}

impl ToJson for String {
    open spec fn encoded(model: Seq<char>) -> Json {
        Json::String(model)
    }

    fn to_json(&self) -> (r: JsonValue) {
        JsonValue::String(self.clone())
    }
}

impl<T: FromJson> FromJson for Option<T> {
    open spec fn decoded(value: Json) -> Option<Option<T::V>> {
        match value {
            Json::Null => Some(None),
            _ => match T::decoded(value) {
                Some(x) => Some(Some(x)),
                None => None,
            },
        }
    }

    fn from_json(value: &JsonValue) -> (r: Option<Option<T>>) {
        match value {
            JsonValue::Null => Some(None),
            _ => match T::from_json(value) {
                Some(x) => Some(Some(x)),
                None => None,
            },
        }
    }
}

impl<T: ToJson> ToJson for Option<T> {
    open spec fn encoded(model: Option<T::V>) -> Json {
        match model {
            Some(x) => T::encoded(x),
            None => Json::Null,
        }
    }

    fn to_json(&self) -> (r: JsonValue) {
        match self {
            Some(x) => x.to_json(),
            None => JsonValue::Null,
        }
    }
}

/// What a sequence of JSON values decodes to, item by item: `None` where one item does not
/// decode.
pub open spec fn decoded_items<T: FromJson>(items: Seq<Json>) -> Option<Seq<T::V>>
    decreases items.len(),
{
    if items.len() == 0 {
        Some(Seq::empty())
    } else {
        match (decoded_items::<T>(items.drop_last()), T::decoded(items.last())) {
            (Some(front), Some(last)) => Some(front.push(last)),
            _ => None,
        }
    }
}

impl<T: FromJson> FromJson for Vec<T> {
    open spec fn decoded(value: Json) -> Option<Seq<T::V>> {
        match value {
            Json::Array(items) => decoded_items::<T>(items),
            _ => None,
        }
    }

    fn from_json(value: &JsonValue) -> (r: Option<Vec<T>>) {
        match value {
            JsonValue::Array(items) => {
                let mut out: Vec<T> = Vec::new();
                let mut i: usize = 0;
                proof {
                    lemma_items_view(items@);
                    assert(items_view(items@).take(0) =~= Seq::<Json>::empty());
                    assert(out.deep_view() =~= Seq::<T::V>::empty());
                }
                while i < items.len()
                    invariant
                        *value == JsonValue::Array(*items),
                        i <= items.len(),
                        items_view(items@).len() == items.len(),
                        forall|k: int|
                            0 <= k < items.len() ==> (#[trigger] items_view(items@)[k])
                                == items[k]@,
                        decoded_items::<T>(items_view(items@).take(i as int)) == Some(
                            out.deep_view(),
                        ),
                    decreases items.len() - i,
                {
                    let ghost before = items_view(items@).take(i as int);
                    let ghost after = items_view(items@).take(i + 1);
                    let ghost old_out = out.deep_view();
                    proof {
                        assert(after.drop_last() =~= before);
                        assert(after.last() == items[i as int]@);
                    }
                    match T::from_json(&items[i]) {
                        Some(x) => {
                            out.push(x);
                            proof {
                                assert(out.deep_view() =~= old_out.push(x.deep_view()));
                            }
                        },
                        None => {
                            proof {
                                assert(T::decoded(after.last()) is None);
                                assert(decoded_items::<T>(after) is None);
                                lemma_decoded_items_prefix::<T>(items_view(items@), i + 1);
                            }
                            return None;
                        },
                    }
                    i += 1;
                }
                proof {
                    assert(items_view(items@).take(items.len() as int) =~= items_view(items@));
                }
                Some(out)
            },
            _ => None,
        }
    }
}

/// Where a prefix of a sequence does not decode, the sequence does not decode.
pub proof fn lemma_decoded_items_prefix<T: FromJson>(items: Seq<Json>, n: int)
    requires
        0 <= n <= items.len(),
        decoded_items::<T>(items.take(n)) is None,
    ensures
        decoded_items::<T>(items) is None,
    decreases items.len(),
{
    if n < items.len() {
        assert(items.drop_last().take(n) =~= items.take(n));
        lemma_decoded_items_prefix::<T>(items.drop_last(), n);
    } else {
        assert(items.take(n) =~= items);
    }
}

/// The JSON values that stand for a sequence of values, item by item.
pub open spec fn encoded_items<T: ToJson>(models: Seq<T::V>) -> Seq<Json> {
    Seq::new(models.len(), |i: int| T::encoded(models[i]))
}

impl<T: ToJson> ToJson for Vec<T> {
    open spec fn encoded(model: Seq<T::V>) -> Json {
        Json::Array(encoded_items::<T>(model))
    }

    fn to_json(&self) -> (r: JsonValue) {
        let mut out: Vec<JsonValue> = Vec::new();
        let mut i: usize = 0;
        while i < self.len()
            invariant
                i <= self.len(),
                out@.len() == i,
                forall|k: int|
                    0 <= k < i ==> (#[trigger] out@[k])@ == T::encoded(self@[k].deep_view()),
            decreases self.len() - i,
        {
            out.push(self[i].to_json());
            i += 1;
        }
        proof {
            lemma_items_view(out@);
            assert(items_view(out@) =~= encoded_items::<T>(self.deep_view()));
        }
        JsonValue::Array(out)
    }
}

impl FromJson for JsonValue {
    open spec fn decoded(value: Json) -> Option<Json> {
        Some(value)
    }

    fn from_json(value: &JsonValue) -> (r: Option<JsonValue>) {
        Some(value.clone())
    }
}

impl ToJson for JsonValue {
    open spec fn encoded(model: Json) -> Json {
        model
    }

    fn to_json(&self) -> (r: JsonValue) {
        self.clone()
    }
}

/// A mapping from names to values, in the order in which the names were met.
#[derive(Debug, Clone, PartialEq, Eq)]
pub struct Dictionary<T> {
    pub entries: Vec<(String, T)>,
}

impl<T: DeepView> DeepView for Dictionary<T> {
    type V = Seq<(Seq<char>, T::V)>;

    open spec fn deep_view(&self) -> Seq<(Seq<char>, T::V)> {
        self.entries.deep_view()
    }
}

impl<T: DeepView> Dictionary<T> {
    /// A dictionary without entries.
    pub fn new() -> (dictionary: Dictionary<T>)
        ensures
            dictionary.deep_view() == Seq::<(Seq<char>, T::V)>::empty(),
    {
        let entries: Vec<(String, T)> = Vec::new();
        assert(entries.deep_view() =~= Seq::<(Seq<char>, T::V)>::empty());
        Dictionary { entries }
    }
}

/// What the members of an object decode to, each under its name: `None` where one value
/// does not decode.
pub open spec fn decoded_members<T: FromJson>(members: Seq<(Seq<char>, Json)>) -> Option<
    Seq<(Seq<char>, T::V)>,
>
    decreases members.len(),
{
    if members.len() == 0 {
        Some(Seq::empty())
    } else {
        match (decoded_members::<T>(members.drop_last()), T::decoded(members.last().1)) {
            (Some(front), Some(last)) => Some(front.push((members.last().0, last))),
            _ => None,
        }
    }
}

/// Where a prefix of the members does not decode, the members do not decode.
pub proof fn lemma_decoded_members_prefix<T: FromJson>(members: Seq<(Seq<char>, Json)>, n: int)
    requires
        0 <= n <= members.len(),
        decoded_members::<T>(members.take(n)) is None,
    ensures
        decoded_members::<T>(members) is None,
    decreases members.len(),
{
    if n < members.len() {
        assert(members.drop_last().take(n) =~= members.take(n));
        lemma_decoded_members_prefix::<T>(members.drop_last(), n);
    } else {
        assert(members.take(n) =~= members);
    }
}

impl<T: FromJson> FromJson for Dictionary<T> {
    open spec fn decoded(value: Json) -> Option<Seq<(Seq<char>, T::V)>> {
        match value {
            Json::Object(members) => decoded_members::<T>(members),
            _ => None,
        }
    }

    fn from_json(value: &JsonValue) -> (r: Option<Dictionary<T>>) {
        match value {
            JsonValue::Object(members) => {
                let mut entries: Vec<(String, T)> = Vec::new();
                let mut i: usize = 0;
                let ghost all = members_view(members@);
                proof {
                    lemma_members_view(members@);
                    assert(all.take(0) =~= Seq::<(Seq<char>, Json)>::empty());
                    assert(entries.deep_view() =~= Seq::<(Seq<char>, T::V)>::empty());
                }
                while i < members.len()
                    invariant
                        *value == JsonValue::Object(*members),
                        i <= members.len(),
                        all == members_view(members@),
                        all.len() == members.len(),
                        forall|k: int|
                            0 <= k < members.len() ==> (#[trigger] all[k]) == (
                                members[k].name@,
                                members[k].value@,
                            ),
                        decoded_members::<T>(all.take(i as int)) == Some(entries.deep_view()),
                    decreases members.len() - i,
                {
                    let ghost before = all.take(i as int);
                    let ghost after = all.take(i + 1);
                    let ghost old_entries = entries.deep_view();
                    proof {
                        assert(after.drop_last() =~= before);
                        assert(after.last() == all[i as int]);
                    }
                    match T::from_json(&members[i].value) {
                        Some(x) => {
                            let name = members[i].name.clone();
                            let ghost pair = (name@, x.deep_view());
                            entries.push((name, x));
                            proof {
                                assert(entries.deep_view() =~= old_entries.push(pair));
                            }
                        },
                        None => {
                            proof {
                                assert(T::decoded(after.last().1) is None);
                                assert(decoded_members::<T>(after) is None);
                                lemma_decoded_members_prefix::<T>(all, i + 1);
                            }
                            return None;
                        },
                    }
                    i += 1;
                }
                proof {
                    assert(all.take(members.len() as int) =~= all);
                }
                Some(Dictionary { entries })
            },
            _ => None,
        }
    }
}

/// The members that stand for the entries of a dictionary, each under its name.
pub open spec fn encoded_members<T: ToJson>(entries: Seq<(Seq<char>, T::V)>) -> Seq<
    (Seq<char>, Json),
> {
    Seq::new(entries.len(), |i: int| (entries[i].0, T::encoded(entries[i].1)))
}

impl<T: ToJson> ToJson for Dictionary<T> {
    open spec fn encoded(model: Seq<(Seq<char>, T::V)>) -> Json {
        Json::Object(encoded_members::<T>(model))
    }

    fn to_json(&self) -> (r: JsonValue) {
        let mut members: Vec<JsonMember> = Vec::new();
        let mut i: usize = 0;
        while i < self.entries.len()
            invariant
                i <= self.entries.len(),
                members@.len() == i,
                forall|k: int|
                    0 <= k < i ==> (#[trigger] members@[k]).name@ == self.entries@[k].0@
                        && members@[k].value@ == T::encoded(self.entries@[k].1.deep_view()),
            decreases self.entries.len() - i,
        {
            let name = self.entries[i].0.clone();
            let value = self.entries[i].1.to_json();
            members.push(JsonMember { name, value });
            i += 1;
        }
        proof {
            lemma_members_view(members@);
            assert(members_view(members@) =~= encoded_members::<T>(self.deep_view()));
        }
        JsonValue::Object(members)
    }
}

/// Types whose values are read back as they were written.
pub trait RoundTrip: FromJson + ToJson {
    /// Reading what was written for a value gives the value back.
    proof fn lemma_round_trip(model: Self::V)
        ensures
            Self::decoded(Self::encoded(model)) == Some(model),
    ;
}

impl RoundTrip for bool {
    proof fn lemma_round_trip(model: bool) {
    }
}

impl RoundTrip for u8 {
    proof fn lemma_round_trip(model: u8) {
    }
}

impl RoundTrip for u16 {
    proof fn lemma_round_trip(model: u16) {
    }
}

impl RoundTrip for u32 {
    proof fn lemma_round_trip(model: u32) {
    }
}

impl RoundTrip for u64 {
    proof fn lemma_round_trip(model: u64) {
    }
}

impl RoundTrip for i32 {
    proof fn lemma_round_trip(model: i32) {
    }
}

impl RoundTrip for i64 {
    proof fn lemma_round_trip(model: i64) {
    }
}

impl RoundTrip for String {
    proof fn lemma_round_trip(model: Seq<char>) {
    }
}

impl RoundTrip for JsonNumber {
    proof fn lemma_round_trip(model: Num) {
    }
}

impl RoundTrip for JsonValue {
    proof fn lemma_round_trip(model: Json) {
    }
}

impl<T: RoundTrip> RoundTrip for Vec<T> {
    proof fn lemma_round_trip(model: Seq<T::V>)
        decreases model.len(),
    {
        let items = encoded_items::<T>(model);
        if model.len() == 0 {
            assert(model =~= Seq::empty());
        } else {
            Self::lemma_round_trip(model.drop_last());
            assert(items.drop_last() =~= encoded_items::<T>(model.drop_last()));
            T::lemma_round_trip(model.last());
            assert(model.drop_last().push(model.last()) =~= model);
        }
    }
}

impl<T: RoundTrip> RoundTrip for Dictionary<T> {
    proof fn lemma_round_trip(model: Seq<(Seq<char>, T::V)>)
        decreases model.len(),
    {
        let members = encoded_members::<T>(model);
        if model.len() == 0 {
            assert(model =~= Seq::empty());
        } else {
            Self::lemma_round_trip(model.drop_last());
            assert(members.drop_last() =~= encoded_members::<T>(model.drop_last()));
            T::lemma_round_trip(model.last().1);
            assert(model.drop_last().push(model.last()) =~= model);
        }
    }
}

} // verus!
