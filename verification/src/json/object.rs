//! The members of a JSON object: reading them by name and writing them one by one.
use crate::json::codec::{FromJson, ToJson};
use crate::json::value::{get_member, member, members_view, Json, JsonMember};
use vstd::prelude::*;

verus! {

/// What the member `key` of an object decodes to. A member that is missing does not decode.
pub open spec fn field<T: FromJson>(members: Seq<(Seq<char>, Json)>, key: Seq<char>) -> Option<
    T::V,
> {
    match member(members, key) {
        Some(value) => T::decoded(value),
        None => None,
    }
}

/// What the member `key` of an object decodes to, with `default` standing in for a member
/// that is missing.
pub open spec fn field_or<T: FromJson>(
    members: Seq<(Seq<char>, Json)>,
    key: Seq<char>,
    default: T::V,
) -> Option<T::V> {
    match member(members, key) {
        Some(value) => T::decoded(value),
        None => Some(default),
    }
}

/// Reads the member `key`, which has to be there.
pub fn read<T: FromJson>(members: &Vec<JsonMember>, key: &str) -> (r: Option<T>)
    ensures
        r.deep_view() == field::<T>(members_view(members@), key@),
{
    match get_member(members, key) {
        Some(value) => T::from_json(value),
        None => None,
    }
}

/// Reads the member `key`, or takes `default` where the object has no such member.
pub fn read_or<T: FromJson>(members: &Vec<JsonMember>, key: &str, default: T) -> (r: Option<T>)
    ensures
        r.deep_view() == field_or::<T>(members_view(members@), key@, default.deep_view()),
{
    match get_member(members, key) {
        Some(value) => T::from_json(value),
        None => Some(default),
    }
}

/// Reads the member `key` as a list, or takes the empty list where the object has no such
/// member.
pub fn read_list<T: FromJson>(members: &Vec<JsonMember>, key: &str) -> (r: Option<Vec<T>>)
    ensures
        r.deep_view() == field_or::<Vec<T>>(members_view(members@), key@, Seq::empty()),
{
    let default: Vec<T> = Vec::new();
    assert(default.deep_view() =~= Seq::<T::V>::empty());
    read_or::<Vec<T>>(members, key, default)
}

/// One member of an object: the name and the encoded value.
pub open spec fn entry<T: ToJson>(key: Seq<char>, model: T::V) -> Seq<(Seq<char>, Json)> {
    seq![(key, T::encoded(model))]
}

/// The member for a value that may be absent: none for `None`.
pub open spec fn optional_entry<T: ToJson>(key: Seq<char>, model: Option<T::V>) -> Seq<
    (Seq<char>, Json),
> {
    match model {
        Some(x) => seq![(key, T::encoded(x))],
        None => Seq::empty(),
    }
}

/// Appends the member `key` with the encoded value.
pub fn put<T: ToJson>(members: &mut Vec<JsonMember>, key: &str, value: &T)
    ensures
        members_view(final(members)@) == members_view(old(members)@) + entry::<T>(
            key@,
            value.deep_view(),
        ),
{
    let member = JsonMember { name: String::from_str(key), value: value.to_json() };
    members.push(member);
    proof {
        assert(members@.drop_last() =~= old(members)@);
        assert(members_view(members@) =~= members_view(old(members)@) + entry::<T>(
            key@,
            value.deep_view(),
        ));
    }
}

/// Appends the member `key` where the value is there; appends nothing for `None`.
pub fn put_optional<T: ToJson>(members: &mut Vec<JsonMember>, key: &str, value: &Option<T>)
    ensures
        members_view(final(members)@) == members_view(old(members)@) + optional_entry::<T>(
            key@,
            value.deep_view(),
        ),
{
    match value {
        Some(x) => {
            put::<T>(members, key, x);
        },
        None => {
            assert(members_view(members@) =~= members_view(old(members)@) + optional_entry::<T>(
                key@,
                value.deep_view(),
            ));
        },
    }
}

/// A list with nothing in it.
pub fn empty_list<T: DeepView>() -> (list: Vec<T>)
    ensures
        list@.len() == 0,
        list.deep_view() == Seq::<T::V>::empty(),
{
    let list: Vec<T> = Vec::new();
    assert(list.deep_view() =~= Seq::<T::V>::empty());
    list
}

/// The members of an object that has none yet.
pub fn no_members() -> (members: Vec<JsonMember>)
    ensures
        members_view(members@) == Seq::<(Seq<char>, Json)>::empty(),
{
    Vec::new()
}

/// Looking a member up in two lists put together: the first list is searched first.
pub broadcast proof fn lemma_member_of_both(
    front: Seq<(Seq<char>, Json)>,
    back: Seq<(Seq<char>, Json)>,
    key: Seq<char>,
)
    ensures
        #[trigger] member(front + back, key) == match member(front, key) {
            Some(value) => Some(value),
            None => member(back, key),
        },
    decreases front.len(),
{
    if front.len() == 0 {
        assert(front + back =~= back);
    } else {
        assert((front + back).drop_first() =~= front.drop_first() + back);
        assert((front + back)[0] == front[0]);
        lemma_member_of_both(front.drop_first(), back, key);
    }
}

/// Looking a member up in the list that one entry makes: it is found under its own name and
/// under no other.
pub broadcast proof fn lemma_member_of_entry<T: ToJson>(
    name: Seq<char>,
    model: T::V,
    key: Seq<char>,
)
    ensures
        name == key ==> (#[trigger] member(entry::<T>(name, model), key)) == Some(
            T::encoded(model),
        ),
        name != key ==> member(entry::<T>(name, model), key) is None,
{
    let one = entry::<T>(name, model);
    assert(member(one.drop_first(), key) is None);
}

/// Looking a member up in the list that an entry makes that may be absent: it is found
/// under its own name where it is there, and under no other.
pub broadcast proof fn lemma_member_of_optional_entry<T: ToJson>(
    name: Seq<char>,
    model: Option<T::V>,
    key: Seq<char>,
)
    ensures
        name == key && model is Some ==> (#[trigger] member(
            optional_entry::<T>(name, model),
            key,
        )) == Some(T::encoded(model->0)),
        name != key || model is None ==> member(optional_entry::<T>(name, model), key) is None,
{
    let one = optional_entry::<T>(name, model);
    if model is Some {
        assert(member(one.drop_first(), key) is None);
    }
}

pub broadcast group group_member_lookup {
    lemma_member_of_both,
    lemma_member_of_entry,
    lemma_member_of_optional_entry,
}

} // verus!
