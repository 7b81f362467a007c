use restream::json::{position_of, read_members, text_of};

#[test]
fn members_of_an_object_are_listed_with_their_strings() {
    let members = read_members(r#"{"type":"auth.success","data":{"a":1},"n":3,"s":"x"}"#).unwrap();
    assert_eq!(members.len(), 4);
    assert_eq!(text_of(&members, "type"), Some("auth.success".to_string()));
    assert_eq!(text_of(&members, "s"), Some("x".to_string()));
    assert_eq!(text_of(&members, "data"), None);
    assert_eq!(text_of(&members, "n"), None);
    assert_eq!(text_of(&members, "missing"), None);
    assert!(position_of(&members, "data").is_some());
    assert!(position_of(&members, "n").is_some());
    assert!(position_of(&members, "missing").is_none());
}

#[test]
fn member_names_and_strings_are_unescaped() {
    let members = read_members(r#"{"type":"a\"b\né"}"#).unwrap();
    assert_eq!(members.len(), 1);
    assert_eq!(members[0].name, "type");
    assert_eq!(text_of(&members, "type"), Some("a\"b\né".to_string()));
}

#[test]
fn values_that_are_no_objects_have_no_members() {
    for text in ["[1,2]", "\"type\"", "3", "true", "null", "  {}  "] {
        let members = read_members(text).unwrap();
        assert!(members.is_empty());
    }
}

#[test]
fn text_that_is_no_json_is_refused() {
    for text in ["", "{", "{\"type\":}", "type", "{'type':'x'}", "{\"a\":1} trailing"] {
        assert!(read_members(text).is_none());
    }
}

#[test]
fn null_and_nested_members_hold_no_string() {
    let members = read_members(r#"{"type":null,"other":["x"],"flag":true}"#).unwrap();
    assert_eq!(members.len(), 3);
    for member in &members {
        assert!(member.text.is_none());
    }
}

#[test]
fn lookup_is_by_the_whole_name() {
    let members = read_members(r#"{"typ":"a","types":"b","Type":"c"}"#).unwrap();
    assert_eq!(text_of(&members, "type"), None);
    assert_eq!(text_of(&members, "typ"), Some("a".to_string()));
    assert_eq!(text_of(&members, "types"), Some("b".to_string()));
    assert_eq!(text_of(&members, "Type"), Some("c".to_string()));
}

#[test]
fn repeated_member_counts_once_with_its_last_value() {
    let members = read_members(r#"{"type":"first","type":"second"}"#).unwrap();
    assert_eq!(members.len(), 1);
    assert_eq!(text_of(&members, "type"), Some("second".to_string()));
}
