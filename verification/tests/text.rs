use charybdis_core::keys::key_lists_differ;
use charybdis_core::schema::{Column, SchemaObject};
use charybdis_core::text::{
    chars_of, contains_str, join_strings, normalize_type, remove_spaces, replace_str, string_of, to_snake_case, trim_str,
};

fn strings(v: &[&str]) -> Vec<String> {
    v.iter().map(|s| s.to_string()).collect()
}

#[test]
fn joining() {
    assert_eq!(join_strings(&strings(&["a", "b", "c"]), ", "), "a, b, c");
    assert_eq!(join_strings(&strings(&["a"]), ", "), "a");
    assert_eq!(join_strings(&vec![], ", "), "");
}

#[test]
fn snake_case() {
    assert_eq!(to_snake_case("UsersByUsername"), "users_by_username");
    assert_eq!(to_snake_case("Post"), "post");
    assert_eq!(to_snake_case("already_snake"), "already_snake");
    assert_eq!(to_snake_case(""), "");
}

#[test]
fn replacing_and_trimming() {
    assert_eq!(replace_str("WITH a AND WITH b", "WITH", ""), " a AND  b");
    assert_eq!(replace_str("aaa", "aa", "b"), "ba");
    assert_eq!(trim_str("  \n\t x y \u{3000}"), "x y");
    assert_eq!(trim_str("   "), "");
    assert_eq!(remove_spaces("map < text, int >"), "map<text,int>");
    assert_eq!(normalize_type("FROZEN< Address >"), "frozen<address>");
    assert!(contains_str("Option<List<Uuid>>", "List"));
    assert!(!contains_str("Text", "Set"));
    assert!(contains_str("x", ""));
}

#[test]
fn chars_round_trip() {
    let v = chars_of("héllo");
    assert_eq!(v.len(), 5);
    assert_eq!(string_of(&v), "héllo");
}

#[test]
fn key_lists_compare_as_multisets() {
    assert!(!key_lists_differ(&strings(&["a", "b"]), &strings(&["b", "a"])));
    assert!(key_lists_differ(&strings(&["a", "a"]), &strings(&["a", "b"])));
    assert!(key_lists_differ(&strings(&["a"]), &strings(&["a", "a"])));
    assert!(!key_lists_differ(&vec![], &vec![]));
}

#[test]
fn fields_clause() {
    let s = SchemaObject {
        fields: vec![
            Column { name: "id".to_string(), cql_type: "uuid".to_string(), is_static: false },
            Column { name: "n".to_string(), cql_type: "int".to_string(), is_static: true },
        ],
        ..SchemaObject::empty()
    };
    assert_eq!(s.create_fields_clause(), "    id uuid,\n    n int STATIC");
    assert_eq!(s.field_names(), vec!["id", "n"]);
}
