use resourcespace_client::api::collection::{SaveCollectionColdata, SaveCollectionRequest, ShowHideCollectionRequest};
use resourcespace_client::api::metadata::{
    FieldIdentifier, GetFieldOptionsRequest, GetNodesRequest, GetResourceTypeFieldsRequest, SetNodeRequest,
    ToggleActiveStatesForNodesRequest, UpdateFieldRequest,
};
use resourcespace_client::api::plugin::{ConsentManagerBatchLinkUnlink, ConsentManagerSaveFile};
use resourcespace_client::api::resource::{
    CreateResourceRequest, GetResourcePathRequest, PutResourceDataRequest, UploadMultipartRequest,
};
use resourcespace_client::api::search::{DoSearchRequest, FetchRows, SearchGetPreviewsRequest};
use resourcespace_client::api::system::GetDailyStatSummaryRequest;
use resourcespace_client::api::user::{profile_image_from_url, SaveUserData, SaveUserRequest};
use resourcespace_client::api::{ApiParams, FieldValue, List, SortOrder};
use resourcespace_client::wire::{encode_query, Params};
use resourcespace_client::Error;

fn pairs(p: &Params) -> Vec<(String, String)> {
    p.entries.clone()
}

fn kv(items: &[(&str, &str)]) -> Vec<(String, String)> {
    items.iter().map(|(k, v)| (k.to_string(), v.to_string())).collect()
}

#[test]
fn field_value_text_is_sent_as_is() {
    let v = FieldValue::text("Testing, comma in text field".to_string());
    assert_eq!(v.to_wire_string(), "Testing, comma in text field");
}

#[test]
fn field_value_keywords_quote_those_with_commas() {
    let v = FieldValue::keywords(List::from_strs(&["Doe, John", "Smith, Jane"]));
    assert_eq!(v.to_wire_string(), "\"Doe, John\",\"Smith, Jane\"");
    let w = FieldValue::keywords(List::from_strs(&["red", "Doe, John", "blue"]));
    assert_eq!(w.to_wire_string(), "red,\"Doe, John\",blue");
}

#[test]
fn field_value_single_keyword() {
    let v = FieldValue::keywords(List::one("red".to_string()));
    assert_eq!(v.to_wire_string(), "red");
}

#[test]
fn field_value_nodes_are_comma_joined() {
    let v = FieldValue::nodes(List::new(vec![1, 22, 333]));
    assert_eq!(v.to_wire_string(), "1,22,333");
    let e = FieldValue::nodes(List::new(vec![]));
    assert_eq!(e.to_wire_string(), "");
}

#[test]
fn update_field_text_with_comma() {
    let r = UpdateFieldRequest::new(
        42,
        FieldIdentifier::shortname("title".to_string()),
        FieldValue::text("Testing, comma in text field".to_string()),
    );
    assert_eq!(
        pairs(&r.to_params()),
        kv(&[("resource", "42"), ("field", "title"), ("value", "Testing, comma in text field")])
    );
}

#[test]
fn update_field_keyword_with_comma() {
    let r = UpdateFieldRequest::new(
        7,
        FieldIdentifier::shortname("a keywords field".to_string()),
        FieldValue::keywords(List::from_strs(&["Doe, John", "Smith, Jane"])),
    );
    assert_eq!(
        pairs(&r.to_params()),
        kv(&[
            ("resource", "7"),
            ("field", "a keywords field"),
            ("value", "\"Doe, John\",\"Smith, Jane\""),
        ])
    );
}

#[test]
fn update_field_nodes_send_nodevalues() {
    let r = UpdateFieldRequest::new(5, FieldIdentifier::id(72), FieldValue::nodes(List::new(vec![3, 4])));
    assert_eq!(
        pairs(&r.to_params()),
        kv(&[("resource", "5"), ("field", "72"), ("value", "3,4"), ("nodevalues", "true")])
    );
}

#[test]
fn create_resource_with_keyword_metadata() {
    let r = CreateResourceRequest::new(1).metadata(vec![
        (8, FieldValue::text("Comma, testing".to_string())),
        (97, FieldValue::keywords(List::from_strs(&["Doe, John", "Smith, Jane"]))),
    ]);
    assert_eq!(
        pairs(&r.to_params()),
        kv(&[
            ("resource_type", "1"),
            ("metadata", "{\"8\":\"Comma, testing\",\"97\":\"\\\"Doe, John\\\",\\\"Smith, Jane\\\"\"}"),
        ])
    );
}

#[test]
fn keyword_fields_filter() {
    let r = GetResourceTypeFieldsRequest::new().field_type_ids(List::new(vec![9]));
    assert_eq!(pairs(&r.to_params()), kv(&[("by_types", "9")]));
    let all = GetResourceTypeFieldsRequest::new();
    assert_eq!(pairs(&all.to_params()), kv(&[]));
}

#[test]
fn create_resource_switches_are_digits() {
    let r = CreateResourceRequest::new(2)
        .archive(-2)
        .no_exif(true)
        .autorotate(false)
        .url("https://x.test/a.jpg".to_string());
    assert_eq!(
        pairs(&r.to_params()),
        kv(&[
            ("resource_type", "2"),
            ("archive", "-2"),
            ("url", "https://x.test/a.jpg"),
            ("no_exif", "1"),
            ("autorotate", "0"),
        ])
    );
}

#[test]
fn set_node_without_id_sends_null() {
    let r = SetNodeRequest::new(None, 12, "Red".to_string());
    assert_eq!(
        pairs(&r.to_params()),
        kv(&[("ref", "NULL"), ("resource_type_field", "12"), ("name", "Red")])
    );
    let u = SetNodeRequest::new(Some(99), 12, "Red".to_string()).returnexisting(true).order_by(3);
    assert_eq!(
        pairs(&u.to_params()),
        kv(&[
            ("ref", "99"),
            ("resource_type_field", "12"),
            ("name", "Red"),
            ("order_by", "3"),
            ("returnexisting", "true"),
        ])
    );
}

#[test]
fn get_nodes_keeps_declared_order() {
    let r = GetNodesRequest::new(3).rows(10).parent(2).recursive(false).name("x".to_string());
    assert_eq!(
        pairs(&r.to_params()),
        kv(&[("ref", "3"), ("parent", "2"), ("recursive", "false"), ("rows", "10"), ("name", "x")])
    );
}

#[test]
fn setter_changes_only_its_field() {
    let a = GetNodesRequest::new(3).rows(10);
    let b = a.clone().offset(4);
    assert_eq!(b.rows, Some(10));
    assert_eq!(b.offset, Some(4));
    assert_eq!(b.field_id, a.field_id);
    assert_eq!(b.parent, None);
}

#[test]
fn get_field_options_by_id_or_shortname() {
    let a = GetFieldOptionsRequest::new(FieldIdentifier::id(72)).nodeinfo(true);
    assert_eq!(pairs(&a.to_params()), kv(&[("ref", "72"), ("nodeinfo", "true")]));
    let b = GetFieldOptionsRequest::new(FieldIdentifier::shortname("title".to_string()));
    assert_eq!(pairs(&b.to_params()), kv(&[("ref", "title")]));
}

#[test]
fn toggle_active_states_sends_json_array() {
    let r = ToggleActiveStatesForNodesRequest::new(List::new(vec![1, 2, 3]));
    assert_eq!(pairs(&r.to_params()), kv(&[("refs", "[1,2,3]")]));
}

#[test]
fn save_collection_coldata_nulls_and_switches() {
    let c = SaveCollectionColdata::new().name("Trip".to_string()).allow_changes(true).parent(4);
    let r = SaveCollectionRequest::new(11, c);
    assert_eq!(
        pairs(&r.to_params()),
        kv(&[
            ("ref", "11"),
            (
                "coldata",
                "{\"keywords\":null,\"allow_changes\":1,\"users\":null,\"name\":\"Trip\",\"type\":null,\"parent\":4,\"thumbnail_selection_method\":null,\"bg_img_resource_ref\":null}"
            ),
        ])
    );
}

#[test]
fn save_collection_coldata_lists_are_strings() {
    let c = SaveCollectionColdata::new()
        .keywords(List::from_strs(&["a", "b"]))
        .kind(3)
        .public(false);
    let r = SaveCollectionRequest::new(1, c);
    assert_eq!(
        r.to_params().entries[1].1,
        "{\"keywords\":\"a,b\",\"users\":null,\"name\":null,\"public\":0,\"type\":3,\"parent\":null,\"thumbnail_selection_method\":null,\"bg_img_resource_ref\":null}"
    );
}

#[test]
fn save_user_data_leaves_out_unset() {
    let d = SaveUserData::new()
        .username("bob".to_string())
        .suggest(true)
        .approved(false)
        .fullname("Bob \"B\" Smith\n".to_string());
    let r = SaveUserRequest::new(9, d);
    assert_eq!(
        pairs(&r.to_params()),
        kv(&[
            ("ref", "9"),
            ("data", "{\"username\":\"bob\",\"fullname\":\"Bob \\\"B\\\" Smith\\n\",\"suggest\":true,\"approved\":0}"),
        ])
    );
}

#[test]
fn show_hide_collection_sends_digit() {
    let r = ShowHideCollectionRequest::new(4, true, 2);
    assert_eq!(pairs(&r.to_params()), kv(&[("collection", "4"), ("show", "1"), ("user", "2")]));
}

#[test]
fn do_search_with_page_and_sort() {
    let r = DoSearchRequest::new("landscape".to_string())
        .restypes(List::new(vec![1, 2]))
        .fetchrows(FetchRows::page(10, 20))
        .sort(SortOrder::Desc)
        .archive(0);
    assert_eq!(
        pairs(&r.to_params()),
        kv(&[
            ("search", "landscape"),
            ("restypes", "1,2"),
            ("archive", "0"),
            ("fetchrows", "10,20"),
            ("sort", "desc"),
        ])
    );
}

#[test]
fn search_get_previews_sizes() {
    let r = SearchGetPreviewsRequest::new("!collection5".to_string())
        .getsizes(List::from_strs(&["thm", "pre"]))
        .fetchrows(FetchRows::limit(5))
        .sort(SortOrder::Asc);
    assert_eq!(
        pairs(&r.to_params()),
        kv(&[("search", "!collection5"), ("fetchrows", "5"), ("sort", "asc"), ("getsizes", "thm,pre")])
    );
}

#[test]
fn resource_path_switches() {
    let r = GetResourcePathRequest::new(8)
        .size("thm".to_string())
        .generate(true)
        .alternative(-1)
        .write_metadata(false);
    assert_eq!(
        pairs(&r.to_params()),
        kv(&[
            ("ref", "8"),
            ("size", "thm"),
            ("generate", "1"),
            ("alternative", "-1"),
            ("write_metadata", "false"),
        ])
    );
}

#[test]
fn upload_multipart_required_switches() {
    let r = UploadMultipartRequest::new(3, false, true).previewonly(true);
    assert_eq!(
        pairs(&r.to_params()),
        kv(&[("ref", "3"), ("no_exif", "0"), ("revert", "1"), ("previewonly", "true")])
    );
}

#[test]
fn put_resource_data_json_object() {
    let r = PutResourceDataRequest::new(
        5,
        vec![("file_extension".to_string(), "jpg".to_string()), ("archive".to_string(), "0".to_string())],
    );
    assert_eq!(
        pairs(&r.to_params()),
        kv(&[("resource", "5"), ("data", "{\"file_extension\":\"jpg\",\"archive\":\"0\"}")])
    );
}

#[test]
fn consent_save_file_bytes_are_indexed() {
    let r = ConsentManagerSaveFile::new(2, "a.pdf".to_string(), vec![37, 80]);
    assert_eq!(
        pairs(&r.to_params()),
        kv(&[("consent", "2"), ("filename", "a.pdf"), ("filedata[0]", "37"), ("filedata[1]", "80")])
    );
    let e = ConsentManagerSaveFile::new(2, "a.pdf".to_string(), vec![]);
    assert_eq!(pairs(&e.to_params()), kv(&[("consent", "2"), ("filename", "a.pdf"), ("filedata", "")]));
    let q = encode_query(&r.to_params());
    assert_eq!(q, "consent=2&filename=a.pdf&filedata%5B0%5D=37&filedata%5B1%5D=80");
}

#[test]
fn batch_link_unlink_digit() {
    let r = ConsentManagerBatchLinkUnlink::new(1, 2, false);
    assert_eq!(pairs(&r.to_params()), kv(&[("consent", "1"), ("collection", "2"), ("unlink", "0")]));
}

#[test]
fn daily_stat_days_range() {
    assert!(GetDailyStatSummaryRequest::new().validate().is_ok());
    assert!(GetDailyStatSummaryRequest::new().days(1).validate().is_ok());
    assert!(GetDailyStatSummaryRequest::new().days(365).validate().is_ok());
    match GetDailyStatSummaryRequest::new().days(0).validate() {
        Err(Error::Validation(m)) => assert_eq!(
            m,
            "days: Validation error: range [{\"min\": Number(1), \"max\": Number(365), \"value\": Number(0)}]"
        ),
        _ => panic!("expected a validation error"),
    }
    assert!(matches!(
        GetDailyStatSummaryRequest::new().days(366).validate(),
        Err(Error::Validation(_))
    ));
}

#[test]
fn profile_image_empty_is_none() {
    assert_eq!(profile_image_from_url(String::new()), None);
    assert_eq!(
        profile_image_from_url("https://x.test/p.jpg".to_string()),
        Some("https://x.test/p.jpg".to_string())
    );
}

#[test]
fn list_keeps_values() {
    let l = List::new(vec![4, 5]);
    assert_eq!(l.as_slice(), &[4, 5]);
    assert_eq!(l.into_inner(), vec![4, 5]);
    assert_eq!(List::one(7).into_inner(), vec![7]);
}

#[test]
fn from_conversions() {
    assert_eq!(FieldIdentifier::from(72u32), FieldIdentifier::Id(72));
    assert_eq!(FieldIdentifier::from("title".to_string()), FieldIdentifier::Shortname("title".to_string()));
    assert_eq!(FieldValue::from("hello".to_string()), FieldValue::Text("hello".to_string()));
    assert_eq!(FieldValue::from(vec![1u32, 2, 3]).to_wire_string(), "1,2,3");
    assert_eq!(
        FieldValue::from(vec!["Doe, John".to_string(), "red".to_string()]).to_wire_string(),
        "\"Doe, John\",red"
    );
    assert_eq!(FieldValue::from(List::new(vec![5u32])), FieldValue::Nodes(List::new(vec![5])));
    assert_eq!(List::from(vec![1u32, 2]).into_inner(), vec![1, 2]);
}
