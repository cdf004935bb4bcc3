use resourcespace_client::api::metadata::node_ref_text;
use resourcespace_client::api::resource::{data_json, metadata_json};
use resourcespace_client::api::search::FetchRows;
use resourcespace_client::api::system::{scalar_as_string, Scalar};
use resourcespace_client::api::{dec_strings, FieldValue, List, SortOrder};
use resourcespace_client::json::{json_object_text, json_u32_array, JsonValue};
use resourcespace_client::text::{
    contains_char, eq_ignore_ascii_case_exec, i64_to_dec, join, starts_with_exec, str_equal,
};
use resourcespace_client::wire::{bool_digit_exec, encode_query, push_bytes, Params, WireValue};

#[test]
fn wire_texts_of_values() {
    assert_eq!(FetchRows::limit(25).to_wire(), "25");
    assert_eq!(FetchRows::page(0, 100).to_wire(), "0,100");
    assert_eq!(SortOrder::Asc.to_wire(), "asc");
    assert_eq!(SortOrder::Desc.to_wire(), "desc");
    assert_eq!(List::from_strs(&["FD", "e"]).to_wire(), "FD,e");
    assert_eq!(List::new(vec![9u32]).to_wire(), "9");
    assert_eq!(true.to_wire(), "true");
    assert_eq!((-5i8).to_wire(), "-5");
    assert_eq!(bool_digit_exec(true), "1");
    assert_eq!(bool_digit_exec(false), "0");
    assert_eq!(FieldValue::nodes(List::new(vec![4, 5])).to_wire(), "4,5");
}

#[test]
fn node_ref_is_id_or_null() {
    assert_eq!(node_ref_text(None), "NULL");
    assert_eq!(node_ref_text(Some(0)), "0");
    assert_eq!(node_ref_text(Some(4294967295)), "4294967295");
}

#[test]
fn json_texts() {
    assert_eq!(json_u32_array(&vec![]), "[]");
    assert_eq!(json_u32_array(&vec![7]), "[7]");
    assert_eq!(Some(3u32).to_json(), "3");
    assert_eq!(None::<u32>.to_json(), "null");
    assert_eq!(List::from_strs(&["a", "b,c"]).to_json(), "\"a,b,c\"");
    let mut members = Params::new();
    members.push_text("k", "1".to_string());
    members.push_text("q\"", "null".to_string());
    assert_eq!(json_object_text(&members), "{\"k\":1,\"q\\\"\":null}");
    assert_eq!(json_object_text(&Params::new()), "{}");
    assert_eq!(metadata_json(&vec![]), "{}");
    assert_eq!(
        metadata_json(&vec![(3, FieldValue::text("x\\y".to_string()))]),
        "{\"3\":\"x\\\\y\"}"
    );
    assert_eq!(data_json(&vec![("title".to_string(), "a\tb".to_string())]), "{\"title\":\"a\\tb\"}");
}

#[test]
fn bytes_are_indexed_parameters() {
    let mut p = Params::new();
    push_bytes(&mut p, "d", &vec![0, 255, 10]);
    assert_eq!(encode_query(&p), "d%5B0%5D=0&d%5B1%5D=255&d%5B2%5D=10");
    let mut e = Params::new();
    push_bytes(&mut e, "d", &vec![]);
    assert_eq!(encode_query(&e), "d=");
}

#[test]
fn params_copy_and_get() {
    let mut p = Params::new();
    p.push_text("a", "1".to_string());
    p.push("b", &2u32);
    p.push_opt("c", &None::<String>);
    p.push_opt("d", &Some("x".to_string()));
    p.push_flag("e", true);
    p.push_opt_flag("f", Some(false));
    p.push_opt_flag("g", None);
    let q = p.copy();
    assert_eq!(q, p);
    assert_eq!(q.len(), 5);
    assert_eq!(q.get(4), ("f", "0"));
    assert_eq!(encode_query(&q), "a=1&b=2&d=x&e=1&f=0");
}

#[test]
fn text_helpers() {
    assert!(str_equal("abc", "abc"));
    assert!(!str_equal("abc", "abd"));
    assert!(!str_equal("ab", "abc"));
    assert!(starts_with_exec("FAILED: x", "FAILED:"));
    assert!(!starts_with_exec("FAIL", "FAILED:"));
    assert!(contains_char("a,b", ','));
    assert!(!contains_char("ab", ','));
    assert!(eq_ignore_ascii_case_exec("FaLsE", "false"));
    assert!(!eq_ignore_ascii_case_exec("falsey", "false"));
    assert_eq!(i64_to_dec(-9223372036854775808), "-9223372036854775808");
    assert_eq!(i64_to_dec(0), "0");
    assert_eq!(join(&vec!["a".to_string(), "b".to_string()], ", "), "a, b");
    assert_eq!(join(&vec![], ","), "");
    let d = dec_strings(&[1, 20]);
    assert_eq!(d, vec!["1".to_string(), "20".to_string()]);
}

#[test]
fn status_info_as_text() {
    assert_eq!(scalar_as_string(Scalar::Text("ok".to_string())), Some("ok".to_string()));
    assert_eq!(scalar_as_string(Scalar::Number("12".to_string())), Some("12".to_string()));
    assert_eq!(scalar_as_string(Scalar::Bool(false)), Some("false".to_string()));
    assert_eq!(scalar_as_string(Scalar::Other), None);
}
