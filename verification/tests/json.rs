use datadog_api::json::{
    empty_list, get_member, no_members, put, put_optional, read, read_list, read_or, DecodeError,
    Dictionary, FromJson, JsonMember, JsonNumber, JsonValue, ToJson,
};

fn member(name: &str, value: JsonValue) -> JsonMember {
    JsonMember { name: name.to_string(), value }
}

fn whole(n: i64) -> JsonValue {
    if n >= 0 {
        JsonValue::Number(JsonNumber::Unsigned(n as u64))
    } else {
        JsonValue::Number(JsonNumber::Signed(n))
    }
}

#[test]
fn members_are_found_by_name() {
    let members = vec![
        member("a", whole(1)),
        member("b", whole(2)),
        member("a", whole(3)),
        member("", JsonValue::Null),
    ];
    assert_eq!(Some(&whole(1)), get_member(&members, "a"));
    assert_eq!(Some(&whole(2)), get_member(&members, "b"));
    assert_eq!(Some(&JsonValue::Null), get_member(&members, ""));
    assert_eq!(None, get_member(&members, "c"));
    assert_eq!(None, get_member(&members, "A"));
    assert_eq!(None, get_member(&vec![], "a"));
}

#[test]
fn missing_members_take_the_default_or_fail() {
    let members = vec![member("n", whole(5)), member("s", JsonValue::String("x".to_string()))];
    assert_eq!(Some(5u64), read::<u64>(&members, "n"));
    assert_eq!(None, read::<u64>(&members, "m"));
    assert_eq!(None, read::<u64>(&members, "s"));
    assert_eq!(Some(5u64), read_or::<u64>(&members, "n", 9));
    assert_eq!(Some(9u64), read_or::<u64>(&members, "m", 9));
    assert_eq!(None, read_or::<u64>(&members, "s", 9));
    assert_eq!(Some(None), read_or::<Option<String>>(&members, "m", None));
    assert_eq!(Some(Some("x".to_string())), read_or::<Option<String>>(&members, "s", None));
    assert_eq!(Some(vec![]), read_list::<String>(&members, "m"));
    assert_eq!(None, read_list::<String>(&members, "s"));
}

#[test]
fn whole_numbers_are_read_within_their_bounds() {
    assert_eq!(Some(0u8), u8::from_json(&whole(0)));
    assert_eq!(Some(255u8), u8::from_json(&whole(255)));
    assert_eq!(None, u8::from_json(&whole(256)));
    assert_eq!(None, u8::from_json(&whole(-1)));
    assert_eq!(Some(65535u16), u16::from_json(&whole(65535)));
    assert_eq!(None, u16::from_json(&whole(65536)));
    assert_eq!(Some(4294967295u32), u32::from_json(&whole(4294967295)));
    assert_eq!(None, u32::from_json(&whole(4294967296)));
    assert_eq!(Some(u64::MAX), u64::from_json(&JsonValue::Number(JsonNumber::Unsigned(u64::MAX))));
    assert_eq!(Some(7u64), u64::from_json(&JsonValue::Number(JsonNumber::Signed(7))));
    assert_eq!(None, u64::from_json(&whole(-1)));
    assert_eq!(Some(i32::MIN), i32::from_json(&whole(-2147483648)));
    assert_eq!(Some(i32::MAX), i32::from_json(&whole(2147483647)));
    assert_eq!(None, i32::from_json(&whole(2147483648)));
    assert_eq!(None, i32::from_json(&whole(-2147483649)));
    assert_eq!(Some(i64::MIN), i64::from_json(&whole(i64::MIN)));
    assert_eq!(Some(i64::MAX), i64::from_json(&whole(i64::MAX)));
    assert_eq!(None, i64::from_json(&JsonValue::Number(JsonNumber::Unsigned(9223372036854775808))));
    let real = JsonValue::Number(JsonNumber::Real("1.0".to_string()));
    assert_eq!(None, u64::from_json(&real));
    assert_eq!(None, i64::from_json(&real));
    assert_eq!(None, u64::from_json(&JsonValue::String("1".to_string())));
    assert_eq!(Some(JsonNumber::Real("1.0".to_string())), JsonNumber::from_json(&real));
    assert_eq!(None, JsonNumber::from_json(&JsonValue::Null));
}

#[test]
fn whole_numbers_are_written_with_their_sign() {
    assert_eq!(whole(255), 255u8.to_json());
    assert_eq!(whole(65535), 65535u16.to_json());
    assert_eq!(whole(7), 7u32.to_json());
    assert_eq!(JsonValue::Number(JsonNumber::Unsigned(u64::MAX)), u64::MAX.to_json());
    assert_eq!(JsonValue::Number(JsonNumber::Signed(-3)), (-3i32).to_json());
    assert_eq!(JsonValue::Number(JsonNumber::Signed(3)), 3i64.to_json());
    assert_eq!(JsonValue::Bool(true), true.to_json());
    assert_eq!(JsonValue::String("x".to_string()), "x".to_string().to_json());
}

#[test]
fn absent_values_are_null() {
    assert_eq!(Some(None), Option::<u64>::from_json(&JsonValue::Null));
    assert_eq!(Some(Some(4u64)), Option::<u64>::from_json(&whole(4)));
    assert_eq!(None, Option::<u64>::from_json(&JsonValue::Bool(true)));
    assert_eq!(JsonValue::Null, Option::<bool>::None.to_json());
    assert_eq!(JsonValue::Bool(false), Some(false).to_json());
}

#[test]
fn lists_are_read_item_by_item() {
    let list = JsonValue::Array(vec![whole(1), whole(2), whole(3)]);
    assert_eq!(Some(vec![1u64, 2, 3]), Vec::<u64>::from_json(&list));
    assert_eq!(Some(vec![]), Vec::<u64>::from_json(&JsonValue::Array(vec![])));
    let mixed = JsonValue::Array(vec![whole(1), JsonValue::Null, whole(3)]);
    assert_eq!(None, Vec::<u64>::from_json(&mixed));
    assert_eq!(Some(vec![Some(1u64), None, Some(3)]), Vec::<Option<u64>>::from_json(&mixed));
    assert_eq!(None, Vec::<u64>::from_json(&JsonValue::Object(vec![])));
    assert_eq!(list, vec![1u64, 2, 3].to_json());
    let nested = vec![vec!["a".to_string()], vec![]];
    assert_eq!(Some(nested.clone()), Vec::<Vec<String>>::from_json(&nested.to_json()));
    let none: Vec<u64> = empty_list();
    assert!(none.is_empty());
}

#[test]
fn dictionaries_keep_names_and_order() {
    let object = JsonValue::Object(vec![member("b", whole(2)), member("a", whole(1))]);
    let expected = Dictionary { entries: vec![("b".to_string(), 2u64), ("a".to_string(), 1u64)] };
    assert_eq!(Some(expected.clone()), Dictionary::<u64>::from_json(&object));
    assert_eq!(object, expected.to_json());
    let bad = JsonValue::Object(vec![member("b", whole(2)), member("a", JsonValue::Null)]);
    assert_eq!(None, Dictionary::<u64>::from_json(&bad));
    assert_eq!(None, Dictionary::<u64>::from_json(&JsonValue::Array(vec![])));
    assert_eq!(Dictionary { entries: vec![] }, Dictionary::<u64>::new());
}

#[test]
fn objects_are_written_member_by_member() {
    let mut members = no_members();
    assert!(members.is_empty());
    put::<u64>(&mut members, "a", &1);
    put_optional::<String>(&mut members, "b", &None);
    put_optional::<String>(&mut members, "c", &Some("x".to_string()));
    put::<Option<bool>>(&mut members, "d", &None);
    assert_eq!(
        vec![
            member("a", whole(1)),
            member("c", JsonValue::String("x".to_string())),
            member("d", JsonValue::Null)
        ],
        members
    );
}

#[test]
fn values_are_copied_whole() {
    let value = JsonValue::Object(vec![
        member("a", JsonValue::Array(vec![whole(1), JsonValue::Number(JsonNumber::Real("2.5".to_string()))])),
        member("b", JsonValue::Object(vec![member("c", JsonValue::String("d".to_string()))])),
    ]);
    assert_eq!(value, value.clone());
    assert_eq!(Some(value.clone()), JsonValue::from_json(&value));
    assert_eq!(value, value.to_json());
    let number = JsonNumber::Real("2.5".to_string());
    assert_eq!(number, number.clone());
    assert_eq!(DecodeError::Shape, DecodeError::Shape.clone());
}
