//! JSON as the library sees it: values, the traits that read and write the types of the
//! library, and the members of objects.
//!
//! Texts are read and written by `serde_json`. What it makes of a text, and the text that
//! it writes for a value, are not spelled out here: they have a name each, `json_parse`
//! and `json_render`, and all that the library states of them is that they depend on
//! nothing but what they are applied to.
pub mod codec;
pub mod object;
pub mod value;

pub use codec::{
    decoded_items, decoded_members, encoded_items, encoded_members, lemma_decoded_items_prefix,
    lemma_decoded_members_prefix, whole_number, Dictionary, FromJson, RoundTrip, ToJson,
};
pub use object::{
    empty_list, entry, field, field_or, group_member_lookup, lemma_member_of_both,
    lemma_member_of_entry, lemma_member_of_optional_entry, no_members, optional_entry, put,
    put_optional, read, read_list, read_or,
};
pub(crate) use value::{parse_text, render_text};
pub use value::{
    get_member, items_view, json_parse, json_render, lemma_items_view, lemma_members_view, member,
    members_view, DecodeError, DecodeErrorModel, Json, JsonMember, JsonNumber, JsonValue, Num,
};
