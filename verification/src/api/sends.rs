//! What each request sends: for every request, under the name of each of
//! its parameters, the value of its own field, once, and nothing for an
//! option that is not set. `to_params` gives exactly `spec_params`, so these
//! are statements about what a call sends.

use vstd::prelude::*;

use crate::api::collection::{AddResourceToCollectionRequest, RemoveResourceFromCollectionRequest, CreateCollectionRequest, DeleteCollectionRequest, SearchPublicCollectionsRequest, GetCollectionRequest, SaveCollectionRequest, SaveCollectionColdata, ShowHideCollectionRequest, SendCollectionToAdminRequest, GetFeaturedCollectionsRequest, DeleteResourcesInCollectionRequest, GetCollectionsResourceCountRequest};
use crate::api::message::GetUserMessageRequest;
use crate::api::metadata::{GetFieldOptionsRequest, GetNodeIdRequest, GetNodesRequest, AddResourceNodesRequest, AddResourceNodesMultiRequest, SetNodeRequest, GetResourceTypeFieldsRequest, CreateResourceTypeFieldRequest};
use crate::api::plugin::{ConsentManagerGetConsents, LicenseManagerGetLicenses, ConsentManagerGetConsent, ConsentManagerDeleteConsent, ConsentManagerBatchLinkUnlink, ConsentManagerLinkConsent, ConsentManagerUnlinkConsent, ConsentManagerCreateConsent, ConsentManagerUpdateConsent, ConsentManagerGetAllConsents, ConsentManagerGetAllConsentsByCollection, ConsentManagerSaveFile, FacesSetNode};
use crate::api::resource::{AddAlternativeFileRequest, CopyResourceRequest, DeleteAlternativeFile, DeleteResourceRequest, GetAlternativeFilesRequest, GetEditAccessRequest, GetRelatedResourcesRequest, GetResourceAccessRequest, GetResourceAllImageSizesRequest, DeleteCommentRequest, GetResourceCommentsRequest, GetResourceDataRequest, GetResourceFieldDataRequest, GetResourceLogRequest, GetResourcePathRequest, RelateAllResourcesRequest, ReplaceResourceFileRequest, ResourceFileReadonlyRequest, ResourceLogLastRowsRequest, UploadFileRequest, UploadFileByUrlRequest, UploadMultipartRequest, UpdateRelatedResourceRequest, UpdateResourceTypeRequest, GetResourceCollectionsRequest, ValidateUploadUrlRequest};
use crate::api::search::{DoSearchRequest, SearchGetPreviewsRequest};
use crate::api::system::{GetSystemStatusRequest, DoReportRequest, GetDailyStatSummaryRequest};
use crate::api::user::{CheckpermRequest, GetProfileImageRequest, GetUsersRequest, GetUsersByPermissionRequest, MarkEmailAsInvalidRequest, NewUserRequest, SaveUserRequest, SaveUserData};
use crate::api::ApiParams;
use crate::json::{dec_items, json_object, json_quote};
use crate::text::{spec_dec, spec_dec_int, spec_join, string_views};
use crate::wire::{bool_digit, bool_word, group_values_of, lemma_keys_differ, values_of, WireValue};
use crate::api::field_value_wire;
use crate::api::metadata::{ToggleActiveStatesForNodesRequest, UpdateFieldRequest};
use crate::api::resource::{data_members, metadata_members, CreateResourceRequest, PutResourceDataRequest};
use crate::json::json_array;
use crate::text::lemma_dec_all_digits;
use crate::wire::{byte_params, indexed_key, lemma_byte_params_sent, ParamView};

verus! {

// ---------------------------------------------------------------------------
// collection
// ---------------------------------------------------------------------------

/// What a [`AddResourceToCollectionRequest`] sends: every parameter once, under its own
/// name, with the value of its own field; an option that is not set is
/// not sent at all.
pub proof fn lemma_add_resource_to_collection_request_sends_fields(r: AddResourceToCollectionRequest)
    ensures
        values_of(r.spec_params(), "resource"@) == seq![spec_dec(r.resource as nat)],
        values_of(r.spec_params(), "collection"@) == seq![spec_dec(r.collection as nat)],
        values_of(r.spec_params(), "search"@) == (match r.search { Some(v) => seq![v@], None => Seq::empty() }),
{
    broadcast use group_values_of;
    reveal_strlit("resource");
    reveal_strlit("collection");
    reveal_strlit("search");
    assert("resource"@.len() == 8);
    assert("collection"@.len() == 10);
    assert("search"@.len() == 6);
}

/// What a [`RemoveResourceFromCollectionRequest`] sends: every parameter once, under its own
/// name, with the value of its own field; an option that is not set is
/// not sent at all.
pub proof fn lemma_remove_resource_from_collection_request_sends_fields(r: RemoveResourceFromCollectionRequest)
    ensures
        values_of(r.spec_params(), "resource"@) == seq![spec_dec(r.resource as nat)],
        values_of(r.spec_params(), "collection"@) == seq![spec_dec(r.collection as nat)],
{
    broadcast use group_values_of;
    reveal_strlit("resource");
    reveal_strlit("collection");
    assert("resource"@.len() == 8);
    assert("collection"@.len() == 10);
}

/// What a [`CreateCollectionRequest`] sends: every parameter once, under its own
/// name, with the value of its own field; an option that is not set is
/// not sent at all.
pub proof fn lemma_create_collection_request_sends_fields(r: CreateCollectionRequest)
    ensures
        values_of(r.spec_params(), "name"@) == seq![r.name@],
        values_of(r.spec_params(), "forupload"@) == (match r.forupload { Some(b) => seq![bool_digit(b)], None => Seq::empty() }),
{
    broadcast use group_values_of;
    reveal_strlit("name");
    reveal_strlit("forupload");
    assert("name"@.len() == 4);
    assert("forupload"@.len() == 9);
}

/// What a [`DeleteCollectionRequest`] sends: every parameter once, under its own
/// name, with the value of its own field; an option that is not set is
/// not sent at all.
pub proof fn lemma_delete_collection_request_sends_fields(r: DeleteCollectionRequest)
    ensures
        values_of(r.spec_params(), "ref"@) == seq![spec_dec(r.collection as nat)],
{
    broadcast use group_values_of;
    reveal_strlit("ref");
    assert("ref"@.len() == 3);
}

/// What a [`SearchPublicCollectionsRequest`] sends: every parameter once, under its own
/// name, with the value of its own field; an option that is not set is
/// not sent at all.
pub proof fn lemma_search_public_collections_request_sends_fields(r: SearchPublicCollectionsRequest)
    ensures
        values_of(r.spec_params(), "search"@) == (match r.search { Some(v) => seq![v@], None => Seq::empty() }),
        values_of(r.spec_params(), "order_by"@) == (match r.order_by { Some(v) => seq![v@], None => Seq::empty() }),
        values_of(r.spec_params(), "sort"@) == (match r.sort { Some(v) => seq![v.wire()], None => Seq::empty() }),
        values_of(r.spec_params(), "exclude_themes"@) == (match r.exclude_themes { Some(b) => seq![bool_digit(b)], None => Seq::empty() }),
        values_of(r.spec_params(), "exclude_public"@) == (match r.exclude_public { Some(b) => seq![bool_digit(b)], None => Seq::empty() }),
{
    broadcast use group_values_of;
    reveal_strlit("search");
    reveal_strlit("order_by");
    reveal_strlit("sort");
    reveal_strlit("exclude_themes");
    reveal_strlit("exclude_public");
    assert("search"@.len() == 6);
    assert("order_by"@.len() == 8);
    assert("sort"@.len() == 4);
    assert("exclude_themes"@.len() == 14);
    assert("exclude_public"@.len() == 14);
    assert("exclude_themes"@[8] == 't' && "exclude_public"@[8] == 'p');
    lemma_keys_differ("exclude_themes"@, "exclude_public"@, 8);
}

/// What a [`GetCollectionRequest`] sends: every parameter once, under its own
/// name, with the value of its own field; an option that is not set is
/// not sent at all.
pub proof fn lemma_get_collection_request_sends_fields(r: GetCollectionRequest)
    ensures
        values_of(r.spec_params(), "ref"@) == seq![spec_dec(r.collection_id as nat)],
{
    broadcast use group_values_of;
    reveal_strlit("ref");
    assert("ref"@.len() == 3);
}

/// What a [`SaveCollectionRequest`] sends: every parameter once, under its own
/// name, with the value of its own field; an option that is not set is
/// not sent at all.
pub proof fn lemma_save_collection_request_sends_fields(r: SaveCollectionRequest)
    ensures
        values_of(r.spec_params(), "ref"@) == seq![spec_dec(r.collection_id as nat)],
        values_of(r.spec_params(), "coldata"@) == seq![json_object(r.coldata.spec_fields())],
{
    broadcast use group_values_of;
    reveal_strlit("ref");
    reveal_strlit("coldata");
    assert("ref"@.len() == 3);
    assert("coldata"@.len() == 7);
}

/// What the JSON object of a [`SaveCollectionColdata`] holds: every field once, under
/// its own name, with its own value.
#[verifier::rlimit(50)]
pub proof fn lemma_save_collection_coldata_sends_fields(r: SaveCollectionColdata)
    ensures
        values_of(r.spec_fields(), "keywords"@) == (match r.keywords { Some(v) => seq![json_quote(spec_join(string_views(v@), seq![',']))], None => seq!["null"@] }),
        values_of(r.spec_fields(), "allow_changes"@) == (match r.allow_changes { Some(b) => seq![bool_digit(b)], None => Seq::empty() }),
        values_of(r.spec_fields(), "users"@) == (match r.users { Some(v) => seq![json_quote(spec_join(string_views(v@), seq![',']))], None => seq!["null"@] }),
        values_of(r.spec_fields(), "name"@) == (match r.name { Some(v) => seq![json_quote(v@)], None => seq!["null"@] }),
        values_of(r.spec_fields(), "public"@) == (match r.public { Some(b) => seq![bool_digit(b)], None => Seq::empty() }),
        values_of(r.spec_fields(), "type"@) == (match r.kind { Some(v) => seq![spec_dec(v as nat)], None => seq!["null"@] }),
        values_of(r.spec_fields(), "parent"@) == (match r.parent { Some(v) => seq![spec_dec(v as nat)], None => seq!["null"@] }),
        values_of(r.spec_fields(), "force_featured_collection_type"@) == (match r.force_featured_collection_type { Some(b) => seq![bool_digit(b)], None => Seq::empty() }),
        values_of(r.spec_fields(), "thumbnail_selection_method"@) == (match r.thumbnail_selection_method { Some(v) => seq![spec_dec(v as nat)], None => seq!["null"@] }),
        values_of(r.spec_fields(), "bg_img_resource_ref"@) == (match r.bg_img_resource_ref { Some(v) => seq![spec_dec(v as nat)], None => seq!["null"@] }),
{
    broadcast use group_values_of;
    reveal_strlit("keywords");
    reveal_strlit("allow_changes");
    reveal_strlit("users");
    reveal_strlit("name");
    reveal_strlit("public");
    reveal_strlit("type");
    reveal_strlit("parent");
    reveal_strlit("force_featured_collection_type");
    reveal_strlit("thumbnail_selection_method");
    reveal_strlit("bg_img_resource_ref");
    assert("keywords"@.len() == 8);
    assert("allow_changes"@.len() == 13);
    assert("users"@.len() == 5);
    assert("name"@.len() == 4);
    assert("public"@.len() == 6);
    assert("type"@.len() == 4);
    assert("parent"@.len() == 6);
    assert("force_featured_collection_type"@.len() == 30);
    assert("thumbnail_selection_method"@.len() == 26);
    assert("bg_img_resource_ref"@.len() == 19);
    assert("name"@[0] == 'n' && "type"@[0] == 't');
    lemma_keys_differ("name"@, "type"@, 0);
    assert("public"@[1] == 'u' && "parent"@[1] == 'a');
    lemma_keys_differ("public"@, "parent"@, 1);
}

/// What a [`ShowHideCollectionRequest`] sends: every parameter once, under its own
/// name, with the value of its own field; an option that is not set is
/// not sent at all.
pub proof fn lemma_show_hide_collection_request_sends_fields(r: ShowHideCollectionRequest)
    ensures
        values_of(r.spec_params(), "collection"@) == seq![spec_dec(r.collection as nat)],
        values_of(r.spec_params(), "show"@) == seq![bool_digit(r.show)],
        values_of(r.spec_params(), "user"@) == seq![spec_dec(r.user as nat)],
{
    broadcast use group_values_of;
    reveal_strlit("collection");
    reveal_strlit("show");
    reveal_strlit("user");
    assert("collection"@.len() == 10);
    assert("show"@.len() == 4);
    assert("user"@.len() == 4);
    assert("show"@[0] == 's' && "user"@[0] == 'u');
    lemma_keys_differ("show"@, "user"@, 0);
}

/// What a [`SendCollectionToAdminRequest`] sends: every parameter once, under its own
/// name, with the value of its own field; an option that is not set is
/// not sent at all.
pub proof fn lemma_send_collection_to_admin_request_sends_fields(r: SendCollectionToAdminRequest)
    ensures
        values_of(r.spec_params(), "collection"@) == seq![spec_dec(r.collection as nat)],
{
    broadcast use group_values_of;
    reveal_strlit("collection");
    assert("collection"@.len() == 10);
}

/// What a [`GetFeaturedCollectionsRequest`] sends: every parameter once, under its own
/// name, with the value of its own field; an option that is not set is
/// not sent at all.
pub proof fn lemma_get_featured_collections_request_sends_fields(r: GetFeaturedCollectionsRequest)
    ensures
        values_of(r.spec_params(), "parent"@) == seq![spec_dec(r.parent as nat)],
{
    broadcast use group_values_of;
    reveal_strlit("parent");
    assert("parent"@.len() == 6);
}

/// What a [`DeleteResourcesInCollectionRequest`] sends: every parameter once, under its own
/// name, with the value of its own field; an option that is not set is
/// not sent at all.
pub proof fn lemma_delete_resources_in_collection_request_sends_fields(r: DeleteResourcesInCollectionRequest)
    ensures
        values_of(r.spec_params(), "collection"@) == seq![spec_dec(r.collection as nat)],
{
    broadcast use group_values_of;
    reveal_strlit("collection");
    assert("collection"@.len() == 10);
}

/// What a [`GetCollectionsResourceCountRequest`] sends: every parameter once, under its own
/// name, with the value of its own field; an option that is not set is
/// not sent at all.
pub proof fn lemma_get_collections_resource_count_request_sends_fields(r: GetCollectionsResourceCountRequest)
    ensures
        values_of(r.spec_params(), "refs"@) == seq![spec_join(dec_items(r.collection_ids@), seq![','])],
{
    broadcast use group_values_of;
    reveal_strlit("refs");
    assert("refs"@.len() == 4);
}

// ---------------------------------------------------------------------------
// message
// ---------------------------------------------------------------------------

/// What a [`GetUserMessageRequest`] sends: every parameter once, under its own
/// name, with the value of its own field; an option that is not set is
/// not sent at all.
pub proof fn lemma_get_user_message_request_sends_fields(r: GetUserMessageRequest)
    ensures
        values_of(r.spec_params(), "ref"@) == seq![spec_dec(r.message_id as nat)],
{
    broadcast use group_values_of;
    reveal_strlit("ref");
    assert("ref"@.len() == 3);
}

// ---------------------------------------------------------------------------
// metadata
// ---------------------------------------------------------------------------

/// What a [`GetFieldOptionsRequest`] sends: every parameter once, under its own
/// name, with the value of its own field; an option that is not set is
/// not sent at all.
pub proof fn lemma_get_field_options_request_sends_fields(r: GetFieldOptionsRequest)
    ensures
        values_of(r.spec_params(), "ref"@) == seq![r.field.wire()],
        values_of(r.spec_params(), "nodeinfo"@) == (match r.nodeinfo { Some(v) => seq![bool_word(v)], None => Seq::empty() }),
{
    broadcast use group_values_of;
    reveal_strlit("ref");
    reveal_strlit("nodeinfo");
    assert("ref"@.len() == 3);
    assert("nodeinfo"@.len() == 8);
}

/// What a [`GetNodeIdRequest`] sends: every parameter once, under its own
/// name, with the value of its own field; an option that is not set is
/// not sent at all.
pub proof fn lemma_get_node_id_request_sends_fields(r: GetNodeIdRequest)
    ensures
        values_of(r.spec_params(), "value"@) == seq![r.value@],
        values_of(r.spec_params(), "resource_type_field"@) == seq![spec_dec(r.resource_type_field as nat)],
{
    broadcast use group_values_of;
    reveal_strlit("value");
    reveal_strlit("resource_type_field");
    assert("value"@.len() == 5);
    assert("resource_type_field"@.len() == 19);
}

/// What a [`GetNodesRequest`] sends: every parameter once, under its own
/// name, with the value of its own field; an option that is not set is
/// not sent at all.
#[verifier::rlimit(50)]
pub proof fn lemma_get_nodes_request_sends_fields(r: GetNodesRequest)
    ensures
        values_of(r.spec_params(), "ref"@) == seq![spec_dec(r.field_id as nat)],
        values_of(r.spec_params(), "parent"@) == (match r.parent { Some(v) => seq![spec_dec(v as nat)], None => Seq::empty() }),
        values_of(r.spec_params(), "recursive"@) == (match r.recursive { Some(v) => seq![bool_word(v)], None => Seq::empty() }),
        values_of(r.spec_params(), "offset"@) == (match r.offset { Some(v) => seq![spec_dec(v as nat)], None => Seq::empty() }),
        values_of(r.spec_params(), "rows"@) == (match r.rows { Some(v) => seq![spec_dec(v as nat)], None => Seq::empty() }),
        values_of(r.spec_params(), "name"@) == (match r.name { Some(v) => seq![v@], None => Seq::empty() }),
        values_of(r.spec_params(), "use_count"@) == (match r.use_count { Some(v) => seq![bool_word(v)], None => Seq::empty() }),
        values_of(r.spec_params(), "order_by_translated_name"@) == (match r.order_by_translated_name { Some(v) => seq![bool_word(v)], None => Seq::empty() }),
{
    broadcast use group_values_of;
    reveal_strlit("ref");
    reveal_strlit("parent");
    reveal_strlit("recursive");
    reveal_strlit("offset");
    reveal_strlit("rows");
    reveal_strlit("name");
    reveal_strlit("use_count");
    reveal_strlit("order_by_translated_name");
    assert("ref"@.len() == 3);
    assert("parent"@.len() == 6);
    assert("recursive"@.len() == 9);
    assert("offset"@.len() == 6);
    assert("rows"@.len() == 4);
    assert("name"@.len() == 4);
    assert("use_count"@.len() == 9);
    assert("order_by_translated_name"@.len() == 24);
    assert("parent"@[0] == 'p' && "offset"@[0] == 'o');
    lemma_keys_differ("parent"@, "offset"@, 0);
    assert("recursive"@[0] == 'r' && "use_count"@[0] == 'u');
    lemma_keys_differ("recursive"@, "use_count"@, 0);
    assert("rows"@[0] == 'r' && "name"@[0] == 'n');
    lemma_keys_differ("rows"@, "name"@, 0);
}

/// What a [`AddResourceNodesRequest`] sends: every parameter once, under its own
/// name, with the value of its own field; an option that is not set is
/// not sent at all.
pub proof fn lemma_add_resource_nodes_request_sends_fields(r: AddResourceNodesRequest)
    ensures
        values_of(r.spec_params(), "resource"@) == seq![spec_dec(r.resource as nat)],
        values_of(r.spec_params(), "nodestring"@) == seq![spec_join(dec_items(r.nodestring@), seq![','])],
{
    broadcast use group_values_of;
    reveal_strlit("resource");
    reveal_strlit("nodestring");
    assert("resource"@.len() == 8);
    assert("nodestring"@.len() == 10);
}

/// What a [`AddResourceNodesMultiRequest`] sends: every parameter once, under its own
/// name, with the value of its own field; an option that is not set is
/// not sent at all.
pub proof fn lemma_add_resource_nodes_multi_request_sends_fields(r: AddResourceNodesMultiRequest)
    ensures
        values_of(r.spec_params(), "resources"@) == seq![spec_join(dec_items(r.resource_id@), seq![','])],
        values_of(r.spec_params(), "nodestring"@) == seq![spec_join(dec_items(r.node_ids@), seq![','])],
{
    broadcast use group_values_of;
    reveal_strlit("resources");
    reveal_strlit("nodestring");
    assert("resources"@.len() == 9);
    assert("nodestring"@.len() == 10);
}

/// What a [`SetNodeRequest`] sends: every parameter once, under its own
/// name, with the value of its own field; an option that is not set is
/// not sent at all.
pub proof fn lemma_set_node_request_sends_fields(r: SetNodeRequest)
    ensures
        values_of(r.spec_params(), "ref"@) == (match r.node_id { Some(n) => seq![spec_dec(n as nat)], None => seq![seq!['N', 'U', 'L', 'L']] }),
        values_of(r.spec_params(), "resource_type_field"@) == seq![spec_dec(r.resource_type_field as nat)],
        values_of(r.spec_params(), "name"@) == seq![r.name@],
        values_of(r.spec_params(), "parent"@) == (match r.parent { Some(v) => seq![v@], None => Seq::empty() }),
        values_of(r.spec_params(), "order_by"@) == (match r.order_by { Some(v) => seq![spec_dec(v as nat)], None => Seq::empty() }),
        values_of(r.spec_params(), "returnexisting"@) == (match r.returnexisting { Some(v) => seq![bool_word(v)], None => Seq::empty() }),
{
    broadcast use group_values_of;
    reveal_strlit("ref");
    reveal_strlit("resource_type_field");
    reveal_strlit("name");
    reveal_strlit("parent");
    reveal_strlit("order_by");
    reveal_strlit("returnexisting");
    assert("ref"@.len() == 3);
    assert("resource_type_field"@.len() == 19);
    assert("name"@.len() == 4);
    assert("parent"@.len() == 6);
    assert("order_by"@.len() == 8);
    assert("returnexisting"@.len() == 14);
}

/// What a [`GetResourceTypeFieldsRequest`] sends: every parameter once, under its own
/// name, with the value of its own field; an option that is not set is
/// not sent at all.
pub proof fn lemma_get_resource_type_fields_request_sends_fields(r: GetResourceTypeFieldsRequest)
    ensures
        values_of(r.spec_params(), "by_resource_types"@) == (match r.resource_type_ids { Some(v) => seq![spec_join(dec_items(v@), seq![','])], None => Seq::empty() }),
        values_of(r.spec_params(), "find"@) == (match r.find { Some(v) => seq![v@], None => Seq::empty() }),
        values_of(r.spec_params(), "by_types"@) == (match r.field_type_ids { Some(v) => seq![spec_join(dec_items(v@), seq![','])], None => Seq::empty() }),
{
    broadcast use group_values_of;
    reveal_strlit("by_resource_types");
    reveal_strlit("find");
    reveal_strlit("by_types");
    assert("by_resource_types"@.len() == 17);
    assert("find"@.len() == 4);
    assert("by_types"@.len() == 8);
}

/// What a [`CreateResourceTypeFieldRequest`] sends: every parameter once, under its own
/// name, with the value of its own field; an option that is not set is
/// not sent at all.
pub proof fn lemma_create_resource_type_field_request_sends_fields(r: CreateResourceTypeFieldRequest)
    ensures
        values_of(r.spec_params(), "name"@) == seq![r.name@],
        values_of(r.spec_params(), "resource_types"@) == seq![spec_join(dec_items(r.resource_type_ids@), seq![','])],
        values_of(r.spec_params(), "type"@) == seq![r.kind@],
{
    broadcast use group_values_of;
    reveal_strlit("name");
    reveal_strlit("resource_types");
    reveal_strlit("type");
    assert("name"@.len() == 4);
    assert("resource_types"@.len() == 14);
    assert("type"@.len() == 4);
    assert("name"@[0] == 'n' && "type"@[0] == 't');
    lemma_keys_differ("name"@, "type"@, 0);
}

/// What a [`ToggleActiveStatesForNodesRequest`] sends: the nodes once,
/// under `refs`, as a JSON array of their ids.
pub proof fn lemma_toggle_active_states_for_nodes_request_sends_fields(
    r: ToggleActiveStatesForNodesRequest,
)
    ensures
        values_of(r.spec_params(), "refs"@) == seq![json_array(dec_items(r.node_ids@))],
{
    broadcast use group_values_of;

}

/// What an [`UpdateFieldRequest`] sends: the resource, the field and the
/// value's text once each under their own names, and `nodevalues=true`
/// exactly when the value is a list of node ids.
pub proof fn lemma_update_field_request_sends_fields(r: UpdateFieldRequest)
    ensures
        values_of(r.spec_params(), "resource"@) == seq![spec_dec(r.resource as nat)],
        values_of(r.spec_params(), "field"@) == seq![r.field.wire()],
        values_of(r.spec_params(), "value"@) == seq![field_value_wire(r.value)],
        values_of(r.spec_params(), "nodevalues"@) == (if r.value is Nodes {
            seq!["true"@]
        } else {
            Seq::<Seq<char>>::empty()
        }),
{
    broadcast use group_values_of;

    reveal_strlit("resource");
    reveal_strlit("field");
    reveal_strlit("value");
    reveal_strlit("nodevalues");
    assert("resource"@.len() == 8);
    assert("field"@.len() == 5);
    assert("value"@.len() == 5);
    assert("nodevalues"@.len() == 10);
    assert("field"@[0] == 'f' && "value"@[0] == 'v');
    lemma_keys_differ("field"@, "value"@, 0);
    assert(values_of(Seq::<ParamView>::empty(), "resource"@) == Seq::<Seq<char>>::empty());
    assert(values_of(Seq::<ParamView>::empty(), "field"@) == Seq::<Seq<char>>::empty());
    assert(values_of(Seq::<ParamView>::empty(), "value"@) == Seq::<Seq<char>>::empty());
    assert(values_of(Seq::<ParamView>::empty(), "nodevalues"@) == Seq::<Seq<char>>::empty());
}

// ---------------------------------------------------------------------------
// plugin
// ---------------------------------------------------------------------------

/// What a [`ConsentManagerGetConsents`] sends: every parameter once, under its own
/// name, with the value of its own field; an option that is not set is
/// not sent at all.
pub proof fn lemma_consent_manager_get_consents_sends_fields(r: ConsentManagerGetConsents)
    ensures
        values_of(r.spec_params(), "ref"@) == seq![spec_dec(r.resource as nat)],
{
    broadcast use group_values_of;
    reveal_strlit("ref");
    assert("ref"@.len() == 3);
}

/// What a [`LicenseManagerGetLicenses`] sends: every parameter once, under its own
/// name, with the value of its own field; an option that is not set is
/// not sent at all.
pub proof fn lemma_license_manager_get_licenses_sends_fields(r: LicenseManagerGetLicenses)
    ensures
        values_of(r.spec_params(), "resource"@) == seq![spec_dec(r.resource as nat)],
{
    broadcast use group_values_of;
    reveal_strlit("resource");
    assert("resource"@.len() == 8);
}

/// What a [`ConsentManagerGetConsent`] sends: every parameter once, under its own
/// name, with the value of its own field; an option that is not set is
/// not sent at all.
pub proof fn lemma_consent_manager_get_consent_sends_fields(r: ConsentManagerGetConsent)
    ensures
        values_of(r.spec_params(), "consent"@) == seq![spec_dec(r.consent as nat)],
{
    broadcast use group_values_of;
    reveal_strlit("consent");
    assert("consent"@.len() == 7);
}

/// What a [`ConsentManagerDeleteConsent`] sends: every parameter once, under its own
/// name, with the value of its own field; an option that is not set is
/// not sent at all.
pub proof fn lemma_consent_manager_delete_consent_sends_fields(r: ConsentManagerDeleteConsent)
    ensures
        values_of(r.spec_params(), "ref"@) == seq![spec_dec(r.consent as nat)],
{
    broadcast use group_values_of;
    reveal_strlit("ref");
    assert("ref"@.len() == 3);
}

/// What a [`ConsentManagerBatchLinkUnlink`] sends: every parameter once, under its own
/// name, with the value of its own field; an option that is not set is
/// not sent at all.
pub proof fn lemma_consent_manager_batch_link_unlink_sends_fields(r: ConsentManagerBatchLinkUnlink)
    ensures
        values_of(r.spec_params(), "consent"@) == seq![spec_dec(r.consent as nat)],
        values_of(r.spec_params(), "collection"@) == seq![spec_dec(r.collection as nat)],
        values_of(r.spec_params(), "unlink"@) == seq![bool_digit(r.unlink)],
{
    broadcast use group_values_of;
    reveal_strlit("consent");
    reveal_strlit("collection");
    reveal_strlit("unlink");
    assert("consent"@.len() == 7);
    assert("collection"@.len() == 10);
    assert("unlink"@.len() == 6);
}

/// What a [`ConsentManagerLinkConsent`] sends: every parameter once, under its own
/// name, with the value of its own field; an option that is not set is
/// not sent at all.
pub proof fn lemma_consent_manager_link_consent_sends_fields(r: ConsentManagerLinkConsent)
    ensures
        values_of(r.spec_params(), "consent"@) == seq![spec_dec(r.consent as nat)],
        values_of(r.spec_params(), "resource"@) == seq![spec_dec(r.resource as nat)],
{
    broadcast use group_values_of;
    reveal_strlit("consent");
    reveal_strlit("resource");
    assert("consent"@.len() == 7);
    assert("resource"@.len() == 8);
}

/// What a [`ConsentManagerUnlinkConsent`] sends: every parameter once, under its own
/// name, with the value of its own field; an option that is not set is
/// not sent at all.
pub proof fn lemma_consent_manager_unlink_consent_sends_fields(r: ConsentManagerUnlinkConsent)
    ensures
        values_of(r.spec_params(), "consent"@) == seq![spec_dec(r.consent as nat)],
        values_of(r.spec_params(), "resource"@) == seq![spec_dec(r.resource as nat)],
{
    broadcast use group_values_of;
    reveal_strlit("consent");
    reveal_strlit("resource");
    assert("consent"@.len() == 7);
    assert("resource"@.len() == 8);
}

/// What a [`ConsentManagerCreateConsent`] sends: every parameter once, under its own
/// name, with the value of its own field; an option that is not set is
/// not sent at all.
pub proof fn lemma_consent_manager_create_consent_sends_fields(r: ConsentManagerCreateConsent)
    ensures
        values_of(r.spec_params(), "name"@) == seq![r.name@],
        values_of(r.spec_params(), "email"@) == seq![r.email@],
        values_of(r.spec_params(), "telephone"@) == seq![r.telephone@],
        values_of(r.spec_params(), "consent_usage"@) == seq![r.consent_usage@],
        values_of(r.spec_params(), "notes"@) == (match r.notes { Some(v) => seq![v@], None => Seq::empty() }),
        values_of(r.spec_params(), "expires"@) == (match r.expires { Some(v) => seq![v@], None => Seq::empty() }),
{
    broadcast use group_values_of;
    reveal_strlit("name");
    reveal_strlit("email");
    reveal_strlit("telephone");
    reveal_strlit("consent_usage");
    reveal_strlit("notes");
    reveal_strlit("expires");
    assert("name"@.len() == 4);
    assert("email"@.len() == 5);
    assert("telephone"@.len() == 9);
    assert("consent_usage"@.len() == 13);
    assert("notes"@.len() == 5);
    assert("expires"@.len() == 7);
    assert("email"@[0] == 'e' && "notes"@[0] == 'n');
    lemma_keys_differ("email"@, "notes"@, 0);
}

/// What a [`ConsentManagerUpdateConsent`] sends: every parameter once, under its own
/// name, with the value of its own field; an option that is not set is
/// not sent at all.
pub proof fn lemma_consent_manager_update_consent_sends_fields(r: ConsentManagerUpdateConsent)
    ensures
        values_of(r.spec_params(), "consent"@) == seq![spec_dec(r.consent as nat)],
        values_of(r.spec_params(), "name"@) == seq![r.name@],
        values_of(r.spec_params(), "email"@) == seq![r.email@],
        values_of(r.spec_params(), "telephone"@) == seq![r.telephone@],
        values_of(r.spec_params(), "consent_usage"@) == seq![r.consent_usage@],
        values_of(r.spec_params(), "notes"@) == (match r.notes { Some(v) => seq![v@], None => Seq::empty() }),
        values_of(r.spec_params(), "expires"@) == (match r.expires { Some(v) => seq![v@], None => Seq::empty() }),
{
    broadcast use group_values_of;
    reveal_strlit("consent");
    reveal_strlit("name");
    reveal_strlit("email");
    reveal_strlit("telephone");
    reveal_strlit("consent_usage");
    reveal_strlit("notes");
    reveal_strlit("expires");
    assert("consent"@.len() == 7);
    assert("name"@.len() == 4);
    assert("email"@.len() == 5);
    assert("telephone"@.len() == 9);
    assert("consent_usage"@.len() == 13);
    assert("notes"@.len() == 5);
    assert("expires"@.len() == 7);
    assert("consent"@[0] == 'c' && "expires"@[0] == 'e');
    lemma_keys_differ("consent"@, "expires"@, 0);
    assert("email"@[0] == 'e' && "notes"@[0] == 'n');
    lemma_keys_differ("email"@, "notes"@, 0);
}

/// What a [`ConsentManagerGetAllConsents`] sends: every parameter once, under its own
/// name, with the value of its own field; an option that is not set is
/// not sent at all.
pub proof fn lemma_consent_manager_get_all_consents_sends_fields(r: ConsentManagerGetAllConsents)
    ensures
        values_of(r.spec_params(), "findtext"@) == (match r.findtext { Some(v) => seq![v@], None => Seq::empty() }),
{
    broadcast use group_values_of;
    reveal_strlit("findtext");
    assert("findtext"@.len() == 8);
}

/// What a [`ConsentManagerGetAllConsentsByCollection`] sends: every parameter once, under its own
/// name, with the value of its own field; an option that is not set is
/// not sent at all.
pub proof fn lemma_consent_manager_get_all_consents_by_collection_sends_fields(r: ConsentManagerGetAllConsentsByCollection)
    ensures
        values_of(r.spec_params(), "collection"@) == seq![spec_dec(r.collection as nat)],
{
    broadcast use group_values_of;
    reveal_strlit("collection");
    assert("collection"@.len() == 10);
}

/// What a [`FacesSetNode`] sends: every parameter once, under its own
/// name, with the value of its own field; an option that is not set is
/// not sent at all.
pub proof fn lemma_faces_set_node_sends_fields(r: FacesSetNode)
    ensures
        values_of(r.spec_params(), "resource"@) == seq![spec_dec(r.resource as nat)],
        values_of(r.spec_params(), "face"@) == seq![spec_dec(r.face as nat)],
        values_of(r.spec_params(), "node"@) == seq![spec_dec(r.node as nat)],
{
    broadcast use group_values_of;
    reveal_strlit("resource");
    reveal_strlit("face");
    reveal_strlit("node");
    assert("resource"@.len() == 8);
    assert("face"@.len() == 4);
    assert("node"@.len() == 4);
    assert("face"@[0] == 'f' && "node"@[0] == 'n');
    lemma_keys_differ("face"@, "node"@, 0);
}

/// What a [`ConsentManagerSaveFile`] sends: the consent and the file name
/// once each; the `i`-th byte of the file under `filedata[i]`, once; and a
/// bare `filedata` with an empty value only when the file is empty.
pub proof fn lemma_consent_manager_save_file_sends_fields(r: ConsentManagerSaveFile)
    ensures
        values_of(r.spec_params(), "consent"@) == seq![spec_dec(r.consent as nat)],
        values_of(r.spec_params(), "filename"@) == seq![r.filename@],
        values_of(r.spec_params(), "filedata"@) == (if r.filedata@.len() == 0 {
            seq![Seq::<char>::empty()]
        } else {
            Seq::<Seq<char>>::empty()
        }),
        forall|i: int|
            0 <= i < r.filedata@.len() ==> #[trigger] values_of(
                r.spec_params(),
                indexed_key("filedata"@, i as nat),
            ) == seq![spec_dec(r.filedata@[i] as nat)],
{
    broadcast use group_values_of;

    reveal_strlit("consent");
    reveal_strlit("filename");
    reveal_strlit("filedata");
    assert("consent"@.len() == 7);
    assert("filename"@.len() == 8);
    assert("filedata"@.len() == 8);
    assert("filename"@[4] == 'n' && "filedata"@[4] == 'd');
    lemma_keys_differ("consent"@, "filename"@, 0);
    lemma_keys_differ("consent"@, "filedata"@, 0);
    lemma_keys_differ("filename"@, "filedata"@, 4);
    lemma_byte_params_sent("filedata"@, r.filedata@);
    assert(values_of(byte_params("filedata"@, r.filedata@), "consent"@) == Seq::<Seq<char>>::empty());
    assert(values_of(byte_params("filedata"@, r.filedata@), "filename"@) == Seq::<Seq<char>>::empty());
    assert forall|i: int| 0 <= i < r.filedata@.len() implies #[trigger] values_of(
        r.spec_params(),
        indexed_key("filedata"@, i as nat),
    ) == seq![spec_dec(r.filedata@[i] as nat)] by {
        let k = indexed_key("filedata"@, i as nat);
        lemma_dec_all_digits(i as nat);
        lemma_keys_differ("consent"@, k, 0);
        lemma_keys_differ("filename"@, k, 0);
        assert(values_of(byte_params("filedata"@, r.filedata@), k) == seq![spec_dec(r.filedata@[i] as nat)]);
    }
}

// ---------------------------------------------------------------------------
// resource
// ---------------------------------------------------------------------------

/// What a [`AddAlternativeFileRequest`] sends: every parameter once, under its own
/// name, with the value of its own field; an option that is not set is
/// not sent at all.
#[verifier::rlimit(50)]
pub proof fn lemma_add_alternative_file_request_sends_fields(r: AddAlternativeFileRequest)
    ensures
        values_of(r.spec_params(), "resource"@) == seq![spec_dec(r.resource as nat)],
        values_of(r.spec_params(), "name"@) == seq![r.name@],
        values_of(r.spec_params(), "description"@) == (match r.description { Some(v) => seq![v@], None => Seq::empty() }),
        values_of(r.spec_params(), "file_name"@) == (match r.file_name { Some(v) => seq![v@], None => Seq::empty() }),
        values_of(r.spec_params(), "file_extension"@) == (match r.file_extension { Some(v) => seq![v@], None => Seq::empty() }),
        values_of(r.spec_params(), "file_size"@) == (match r.file_size { Some(v) => seq![spec_dec(v as nat)], None => Seq::empty() }),
        values_of(r.spec_params(), "alt_type"@) == (match r.alt_type { Some(v) => seq![v@], None => Seq::empty() }),
        values_of(r.spec_params(), "file"@) == (match r.file { Some(v) => seq![v@], None => Seq::empty() }),
{
    broadcast use group_values_of;
    reveal_strlit("resource");
    reveal_strlit("name");
    reveal_strlit("description");
    reveal_strlit("file_name");
    reveal_strlit("file_extension");
    reveal_strlit("file_size");
    reveal_strlit("alt_type");
    reveal_strlit("file");
    assert("resource"@.len() == 8);
    assert("name"@.len() == 4);
    assert("description"@.len() == 11);
    assert("file_name"@.len() == 9);
    assert("file_extension"@.len() == 14);
    assert("file_size"@.len() == 9);
    assert("alt_type"@.len() == 8);
    assert("file"@.len() == 4);
    assert("resource"@[0] == 'r' && "alt_type"@[0] == 'a');
    lemma_keys_differ("resource"@, "alt_type"@, 0);
    assert("name"@[0] == 'n' && "file"@[0] == 'f');
    lemma_keys_differ("name"@, "file"@, 0);
    assert("file_name"@[5] == 'n' && "file_size"@[5] == 's');
    lemma_keys_differ("file_name"@, "file_size"@, 5);
}

/// What a [`CopyResourceRequest`] sends: every parameter once, under its own
/// name, with the value of its own field; an option that is not set is
/// not sent at all.
pub proof fn lemma_copy_resource_request_sends_fields(r: CopyResourceRequest)
    ensures
        values_of(r.spec_params(), "from"@) == seq![spec_dec(r.resource_id as nat)],
        values_of(r.spec_params(), "resource_type"@) == (match r.resource_type { Some(v) => seq![spec_dec(v as nat)], None => Seq::empty() }),
{
    broadcast use group_values_of;
    reveal_strlit("from");
    reveal_strlit("resource_type");
    assert("from"@.len() == 4);
    assert("resource_type"@.len() == 13);
}

/// What a [`DeleteAlternativeFile`] sends: every parameter once, under its own
/// name, with the value of its own field; an option that is not set is
/// not sent at all.
pub proof fn lemma_delete_alternative_file_sends_fields(r: DeleteAlternativeFile)
    ensures
        values_of(r.spec_params(), "resource"@) == seq![spec_dec(r.resource as nat)],
        values_of(r.spec_params(), "ref"@) == seq![spec_dec(r.alternative_file_id as nat)],
{
    broadcast use group_values_of;
    reveal_strlit("resource");
    reveal_strlit("ref");
    assert("resource"@.len() == 8);
    assert("ref"@.len() == 3);
}

/// What a [`DeleteResourceRequest`] sends: every parameter once, under its own
/// name, with the value of its own field; an option that is not set is
/// not sent at all.
pub proof fn lemma_delete_resource_request_sends_fields(r: DeleteResourceRequest)
    ensures
        values_of(r.spec_params(), "resource"@) == seq![spec_dec(r.resource as nat)],
{
    broadcast use group_values_of;
    reveal_strlit("resource");
    assert("resource"@.len() == 8);
}

/// What a [`GetAlternativeFilesRequest`] sends: every parameter once, under its own
/// name, with the value of its own field; an option that is not set is
/// not sent at all.
pub proof fn lemma_get_alternative_files_request_sends_fields(r: GetAlternativeFilesRequest)
    ensures
        values_of(r.spec_params(), "resource"@) == seq![spec_dec(r.resource as nat)],
        values_of(r.spec_params(), "order_by"@) == (match r.orderby { Some(v) => seq![v@], None => Seq::empty() }),
        values_of(r.spec_params(), "sort"@) == (match r.sort { Some(v) => seq![v.wire()], None => Seq::empty() }),
        values_of(r.spec_params(), "type"@) == (match r.kind { Some(v) => seq![v@], None => Seq::empty() }),
{
    broadcast use group_values_of;
    reveal_strlit("resource");
    reveal_strlit("order_by");
    reveal_strlit("sort");
    reveal_strlit("type");
    assert("resource"@.len() == 8);
    assert("order_by"@.len() == 8);
    assert("sort"@.len() == 4);
    assert("type"@.len() == 4);
    assert("resource"@[0] == 'r' && "order_by"@[0] == 'o');
    lemma_keys_differ("resource"@, "order_by"@, 0);
    assert("sort"@[0] == 's' && "type"@[0] == 't');
    lemma_keys_differ("sort"@, "type"@, 0);
}

/// What a [`GetEditAccessRequest`] sends: every parameter once, under its own
/// name, with the value of its own field; an option that is not set is
/// not sent at all.
pub proof fn lemma_get_edit_access_request_sends_fields(r: GetEditAccessRequest)
    ensures
        values_of(r.spec_params(), "resource"@) == seq![spec_dec(r.resource as nat)],
{
    broadcast use group_values_of;
    reveal_strlit("resource");
    assert("resource"@.len() == 8);
}

/// What a [`GetRelatedResourcesRequest`] sends: every parameter once, under its own
/// name, with the value of its own field; an option that is not set is
/// not sent at all.
pub proof fn lemma_get_related_resources_request_sends_fields(r: GetRelatedResourcesRequest)
    ensures
        values_of(r.spec_params(), "ref"@) == seq![spec_dec(r.resource_id as nat)],
{
    broadcast use group_values_of;
    reveal_strlit("ref");
    assert("ref"@.len() == 3);
}

/// What a [`GetResourceAccessRequest`] sends: every parameter once, under its own
/// name, with the value of its own field; an option that is not set is
/// not sent at all.
pub proof fn lemma_get_resource_access_request_sends_fields(r: GetResourceAccessRequest)
    ensures
        values_of(r.spec_params(), "resource"@) == seq![spec_dec(r.resource as nat)],
{
    broadcast use group_values_of;
    reveal_strlit("resource");
    assert("resource"@.len() == 8);
}

/// What a [`GetResourceAllImageSizesRequest`] sends: every parameter once, under its own
/// name, with the value of its own field; an option that is not set is
/// not sent at all.
pub proof fn lemma_get_resource_all_image_sizes_request_sends_fields(r: GetResourceAllImageSizesRequest)
    ensures
        values_of(r.spec_params(), "resource"@) == seq![spec_dec(r.resource as nat)],
{
    broadcast use group_values_of;
    reveal_strlit("resource");
    assert("resource"@.len() == 8);
}

/// What a [`DeleteCommentRequest`] sends: every parameter once, under its own
/// name, with the value of its own field; an option that is not set is
/// not sent at all.
pub proof fn lemma_delete_comment_request_sends_fields(r: DeleteCommentRequest)
    ensures
        values_of(r.spec_params(), "comment_ref"@) == seq![spec_dec(r.comment_ref as nat)],
{
    broadcast use group_values_of;
    reveal_strlit("comment_ref");
    assert("comment_ref"@.len() == 11);
}

/// What a [`GetResourceCommentsRequest`] sends: every parameter once, under its own
/// name, with the value of its own field; an option that is not set is
/// not sent at all.
pub proof fn lemma_get_resource_comments_request_sends_fields(r: GetResourceCommentsRequest)
    ensures
        values_of(r.spec_params(), "resource_ref"@) == seq![spec_dec(r.resource_id as nat)],
        values_of(r.spec_params(), "flat_view"@) == (match r.flat_view { Some(v) => seq![bool_word(v)], None => Seq::empty() }),
{
    broadcast use group_values_of;
    reveal_strlit("resource_ref");
    reveal_strlit("flat_view");
    assert("resource_ref"@.len() == 12);
    assert("flat_view"@.len() == 9);
}

/// What a [`GetResourceDataRequest`] sends: every parameter once, under its own
/// name, with the value of its own field; an option that is not set is
/// not sent at all.
pub proof fn lemma_get_resource_data_request_sends_fields(r: GetResourceDataRequest)
    ensures
        values_of(r.spec_params(), "resource"@) == seq![spec_dec(r.resource as nat)],
{
    broadcast use group_values_of;
    reveal_strlit("resource");
    assert("resource"@.len() == 8);
}

/// What a [`GetResourceFieldDataRequest`] sends: every parameter once, under its own
/// name, with the value of its own field; an option that is not set is
/// not sent at all.
pub proof fn lemma_get_resource_field_data_request_sends_fields(r: GetResourceFieldDataRequest)
    ensures
        values_of(r.spec_params(), "resource"@) == seq![spec_dec(r.resource as nat)],
{
    broadcast use group_values_of;
    reveal_strlit("resource");
    assert("resource"@.len() == 8);
}

/// What a [`GetResourceLogRequest`] sends: every parameter once, under its own
/// name, with the value of its own field; an option that is not set is
/// not sent at all.
pub proof fn lemma_get_resource_log_request_sends_fields(r: GetResourceLogRequest)
    ensures
        values_of(r.spec_params(), "resource"@) == seq![spec_dec(r.resource as nat)],
        values_of(r.spec_params(), "fetchrows"@) == (match r.fetchrows { Some(v) => seq![spec_dec(v as nat)], None => Seq::empty() }),
{
    broadcast use group_values_of;
    reveal_strlit("resource");
    reveal_strlit("fetchrows");
    assert("resource"@.len() == 8);
    assert("fetchrows"@.len() == 9);
}

/// What a [`GetResourcePathRequest`] sends: every parameter once, under its own
/// name, with the value of its own field; an option that is not set is
/// not sent at all.
#[verifier::rlimit(50)]
pub proof fn lemma_get_resource_path_request_sends_fields(r: GetResourcePathRequest)
    ensures
        values_of(r.spec_params(), "ref"@) == seq![spec_dec(r.resource_id as nat)],
        values_of(r.spec_params(), "size"@) == (match r.size { Some(v) => seq![v@], None => Seq::empty() }),
        values_of(r.spec_params(), "generate"@) == (match r.generate { Some(b) => seq![bool_digit(b)], None => Seq::empty() }),
        values_of(r.spec_params(), "extension"@) == (match r.extension { Some(v) => seq![v@], None => Seq::empty() }),
        values_of(r.spec_params(), "page"@) == (match r.page { Some(v) => seq![spec_dec(v as nat)], None => Seq::empty() }),
        values_of(r.spec_params(), "watermarked"@) == (match r.watermarked { Some(b) => seq![bool_digit(b)], None => Seq::empty() }),
        values_of(r.spec_params(), "alternative"@) == (match r.alternative { Some(v) => seq![spec_dec_int(v as int)], None => Seq::empty() }),
        values_of(r.spec_params(), "write_metadata"@) == (match r.write_metadata { Some(v) => seq![bool_word(v)], None => Seq::empty() }),
{
    broadcast use group_values_of;
    reveal_strlit("ref");
    reveal_strlit("size");
    reveal_strlit("generate");
    reveal_strlit("extension");
    reveal_strlit("page");
    reveal_strlit("watermarked");
    reveal_strlit("alternative");
    reveal_strlit("write_metadata");
    assert("ref"@.len() == 3);
    assert("size"@.len() == 4);
    assert("generate"@.len() == 8);
    assert("extension"@.len() == 9);
    assert("page"@.len() == 4);
    assert("watermarked"@.len() == 11);
    assert("alternative"@.len() == 11);
    assert("write_metadata"@.len() == 14);
    assert("size"@[0] == 's' && "page"@[0] == 'p');
    lemma_keys_differ("size"@, "page"@, 0);
    assert("watermarked"@[0] == 'w' && "alternative"@[0] == 'a');
    lemma_keys_differ("watermarked"@, "alternative"@, 0);
}

/// What a [`RelateAllResourcesRequest`] sends: every parameter once, under its own
/// name, with the value of its own field; an option that is not set is
/// not sent at all.
pub proof fn lemma_relate_all_resources_request_sends_fields(r: RelateAllResourcesRequest)
    ensures
        values_of(r.spec_params(), "related"@) == seq![spec_join(dec_items(r.related@), seq![','])],
{
    broadcast use group_values_of;
    reveal_strlit("related");
    assert("related"@.len() == 7);
}

/// What a [`ReplaceResourceFileRequest`] sends: every parameter once, under its own
/// name, with the value of its own field; an option that is not set is
/// not sent at all.
pub proof fn lemma_replace_resource_file_request_sends_fields(r: ReplaceResourceFileRequest)
    ensures
        values_of(r.spec_params(), "ref"@) == seq![spec_dec(r.resource as nat)],
        values_of(r.spec_params(), "file_location"@) == seq![r.file_location@],
        values_of(r.spec_params(), "no_exif"@) == (match r.no_exif { Some(b) => seq![bool_digit(b)], None => Seq::empty() }),
        values_of(r.spec_params(), "autorotate"@) == (match r.autorotate { Some(b) => seq![bool_digit(b)], None => Seq::empty() }),
        values_of(r.spec_params(), "keep_original"@) == (match r.keep_original { Some(b) => seq![bool_digit(b)], None => Seq::empty() }),
{
    broadcast use group_values_of;
    reveal_strlit("ref");
    reveal_strlit("file_location");
    reveal_strlit("no_exif");
    reveal_strlit("autorotate");
    reveal_strlit("keep_original");
    assert("ref"@.len() == 3);
    assert("file_location"@.len() == 13);
    assert("no_exif"@.len() == 7);
    assert("autorotate"@.len() == 10);
    assert("keep_original"@.len() == 13);
    assert("file_location"@[0] == 'f' && "keep_original"@[0] == 'k');
    lemma_keys_differ("file_location"@, "keep_original"@, 0);
}

/// What a [`ResourceFileReadonlyRequest`] sends: every parameter once, under its own
/// name, with the value of its own field; an option that is not set is
/// not sent at all.
pub proof fn lemma_resource_file_readonly_request_sends_fields(r: ResourceFileReadonlyRequest)
    ensures
        values_of(r.spec_params(), "ref"@) == seq![spec_dec(r.resource_id as nat)],
{
    broadcast use group_values_of;
    reveal_strlit("ref");
    assert("ref"@.len() == 3);
}

/// What a [`ResourceLogLastRowsRequest`] sends: every parameter once, under its own
/// name, with the value of its own field; an option that is not set is
/// not sent at all.
pub proof fn lemma_resource_log_last_rows_request_sends_fields(r: ResourceLogLastRowsRequest)
    ensures
        values_of(r.spec_params(), "minref"@) == (match r.minref { Some(v) => seq![spec_dec(v as nat)], None => Seq::empty() }),
        values_of(r.spec_params(), "days"@) == (match r.days { Some(v) => seq![spec_dec(v as nat)], None => Seq::empty() }),
        values_of(r.spec_params(), "maxrecords"@) == (match r.maxrecords { Some(v) => seq![spec_dec(v as nat)], None => Seq::empty() }),
        values_of(r.spec_params(), "field"@) == (match r.field_ids { Some(v) => seq![spec_join(dec_items(v@), seq![','])], None => Seq::empty() }),
        values_of(r.spec_params(), "log_code"@) == (match r.log_code { Some(v) => seq![spec_join(string_views(v@), seq![','])], None => Seq::empty() }),
{
    broadcast use group_values_of;
    reveal_strlit("minref");
    reveal_strlit("days");
    reveal_strlit("maxrecords");
    reveal_strlit("field");
    reveal_strlit("log_code");
    assert("minref"@.len() == 6);
    assert("days"@.len() == 4);
    assert("maxrecords"@.len() == 10);
    assert("field"@.len() == 5);
    assert("log_code"@.len() == 8);
}

/// What a [`UploadFileRequest`] sends: every parameter once, under its own
/// name, with the value of its own field; an option that is not set is
/// not sent at all.
pub proof fn lemma_upload_file_request_sends_fields(r: UploadFileRequest)
    ensures
        values_of(r.spec_params(), "ref"@) == seq![spec_dec(r.resource_id as nat)],
        values_of(r.spec_params(), "no_exif"@) == (match r.no_exif { Some(b) => seq![bool_digit(b)], None => Seq::empty() }),
        values_of(r.spec_params(), "revert"@) == (match r.revert { Some(b) => seq![bool_digit(b)], None => Seq::empty() }),
        values_of(r.spec_params(), "autorotate"@) == (match r.autorotate { Some(b) => seq![bool_digit(b)], None => Seq::empty() }),
        values_of(r.spec_params(), "file_path"@) == (match r.file_path { Some(v) => seq![v@], None => Seq::empty() }),
{
    broadcast use group_values_of;
    reveal_strlit("ref");
    reveal_strlit("no_exif");
    reveal_strlit("revert");
    reveal_strlit("autorotate");
    reveal_strlit("file_path");
    assert("ref"@.len() == 3);
    assert("no_exif"@.len() == 7);
    assert("revert"@.len() == 6);
    assert("autorotate"@.len() == 10);
    assert("file_path"@.len() == 9);
}

/// What a [`UploadFileByUrlRequest`] sends: every parameter once, under its own
/// name, with the value of its own field; an option that is not set is
/// not sent at all.
pub proof fn lemma_upload_file_by_url_request_sends_fields(r: UploadFileByUrlRequest)
    ensures
        values_of(r.spec_params(), "ref"@) == seq![spec_dec(r.resource_id as nat)],
        values_of(r.spec_params(), "no_exif"@) == (match r.no_exif { Some(b) => seq![bool_digit(b)], None => Seq::empty() }),
        values_of(r.spec_params(), "revert"@) == (match r.revert { Some(b) => seq![bool_digit(b)], None => Seq::empty() }),
        values_of(r.spec_params(), "autorotate"@) == (match r.autorotate { Some(b) => seq![bool_digit(b)], None => Seq::empty() }),
        values_of(r.spec_params(), "url"@) == (match r.url { Some(v) => seq![v@], None => Seq::empty() }),
{
    broadcast use group_values_of;
    reveal_strlit("ref");
    reveal_strlit("no_exif");
    reveal_strlit("revert");
    reveal_strlit("autorotate");
    reveal_strlit("url");
    assert("ref"@.len() == 3);
    assert("no_exif"@.len() == 7);
    assert("revert"@.len() == 6);
    assert("autorotate"@.len() == 10);
    assert("url"@.len() == 3);
    assert("ref"@[0] == 'r' && "url"@[0] == 'u');
    lemma_keys_differ("ref"@, "url"@, 0);
}

/// What a [`UploadMultipartRequest`] sends: every parameter once, under its own
/// name, with the value of its own field; an option that is not set is
/// not sent at all.
pub proof fn lemma_upload_multipart_request_sends_fields(r: UploadMultipartRequest)
    ensures
        values_of(r.spec_params(), "ref"@) == seq![spec_dec(r.resource_id as nat)],
        values_of(r.spec_params(), "no_exif"@) == seq![bool_digit(r.no_exif)],
        values_of(r.spec_params(), "revert"@) == seq![bool_digit(r.revert)],
        values_of(r.spec_params(), "previewonly"@) == (match r.previewonly { Some(v) => seq![bool_word(v)], None => Seq::empty() }),
        values_of(r.spec_params(), "alternative"@) == (match r.alternative { Some(v) => seq![spec_dec(v as nat)], None => Seq::empty() }),
        values_of(r.spec_params(), "autorotate"@) == (match r.autorotate { Some(b) => seq![bool_digit(b)], None => Seq::empty() }),
{
    broadcast use group_values_of;
    reveal_strlit("ref");
    reveal_strlit("no_exif");
    reveal_strlit("revert");
    reveal_strlit("previewonly");
    reveal_strlit("alternative");
    reveal_strlit("autorotate");
    assert("ref"@.len() == 3);
    assert("no_exif"@.len() == 7);
    assert("revert"@.len() == 6);
    assert("previewonly"@.len() == 11);
    assert("alternative"@.len() == 11);
    assert("autorotate"@.len() == 10);
    assert("previewonly"@[0] == 'p' && "alternative"@[0] == 'a');
    lemma_keys_differ("previewonly"@, "alternative"@, 0);
}

/// What a [`UpdateRelatedResourceRequest`] sends: every parameter once, under its own
/// name, with the value of its own field; an option that is not set is
/// not sent at all.
pub proof fn lemma_update_related_resource_request_sends_fields(r: UpdateRelatedResourceRequest)
    ensures
        values_of(r.spec_params(), "ref"@) == seq![spec_dec(r.resource_id as nat)],
        values_of(r.spec_params(), "related"@) == seq![spec_join(dec_items(r.related@), seq![','])],
        values_of(r.spec_params(), "add"@) == (match r.add { Some(b) => seq![bool_digit(b)], None => Seq::empty() }),
{
    broadcast use group_values_of;
    reveal_strlit("ref");
    reveal_strlit("related");
    reveal_strlit("add");
    assert("ref"@.len() == 3);
    assert("related"@.len() == 7);
    assert("add"@.len() == 3);
    assert("ref"@[0] == 'r' && "add"@[0] == 'a');
    lemma_keys_differ("ref"@, "add"@, 0);
}

/// What a [`UpdateResourceTypeRequest`] sends: every parameter once, under its own
/// name, with the value of its own field; an option that is not set is
/// not sent at all.
pub proof fn lemma_update_resource_type_request_sends_fields(r: UpdateResourceTypeRequest)
    ensures
        values_of(r.spec_params(), "resource"@) == seq![spec_dec(r.resource as nat)],
        values_of(r.spec_params(), "type"@) == seq![spec_dec(r.resourcetype as nat)],
{
    broadcast use group_values_of;
    reveal_strlit("resource");
    reveal_strlit("type");
    assert("resource"@.len() == 8);
    assert("type"@.len() == 4);
}

/// What a [`GetResourceCollectionsRequest`] sends: every parameter once, under its own
/// name, with the value of its own field; an option that is not set is
/// not sent at all.
pub proof fn lemma_get_resource_collections_request_sends_fields(r: GetResourceCollectionsRequest)
    ensures
        values_of(r.spec_params(), "ref"@) == seq![spec_dec(r.resource_id as nat)],
{
    broadcast use group_values_of;
    reveal_strlit("ref");
    assert("ref"@.len() == 3);
}

/// What a [`ValidateUploadUrlRequest`] sends: every parameter once, under its own
/// name, with the value of its own field; an option that is not set is
/// not sent at all.
pub proof fn lemma_validate_upload_url_request_sends_fields(r: ValidateUploadUrlRequest)
    ensures
        values_of(r.spec_params(), "url"@) == seq![r.url@],
{
    broadcast use group_values_of;
    reveal_strlit("url");
    assert("url"@.len() == 3);
}

/// What a [`CreateResourceRequest`] sends: every parameter once, under its
/// own name, with the value of its own field (each switch as the digit of
/// its own value, the field values as a JSON object); an option that is
/// not set is not sent at all.
#[verifier::rlimit(50)]
pub proof fn lemma_create_resource_request_sends_fields(r: CreateResourceRequest)
    ensures
        values_of(r.spec_params(), "resource_type"@) == seq![spec_dec(r.resource_type as nat)],
        values_of(r.spec_params(), "archive"@) == (match r.archive {
            Some(v) => seq![spec_dec_int(v as int)],
            None => Seq::empty(),
        }),
        values_of(r.spec_params(), "url"@) == (match r.url {
            Some(v) => seq![v@],
            None => Seq::empty(),
        }),
        values_of(r.spec_params(), "no_exif"@) == (match r.no_exif {
            Some(b) => seq![bool_digit(b)],
            None => Seq::empty(),
        }),
        values_of(r.spec_params(), "revert"@) == (match r.revert {
            Some(b) => seq![bool_digit(b)],
            None => Seq::empty(),
        }),
        values_of(r.spec_params(), "autorotate"@) == (match r.autorotate {
            Some(b) => seq![bool_digit(b)],
            None => Seq::empty(),
        }),
        values_of(r.spec_params(), "metadata"@) == (match r.metadata {
            Some(m) => seq![json_object(metadata_members(m@))],
            None => Seq::empty(),
        }),
{
    broadcast use group_values_of;

    reveal_strlit("resource_type");
    reveal_strlit("archive");
    reveal_strlit("url");
    reveal_strlit("no_exif");
    reveal_strlit("revert");
    reveal_strlit("autorotate");
    reveal_strlit("metadata");
    assert("resource_type"@.len() == 13);
    assert("archive"@.len() == 7);
    assert("url"@.len() == 3);
    assert("no_exif"@.len() == 7);
    assert("revert"@.len() == 6);
    assert("autorotate"@.len() == 10);
    assert("metadata"@.len() == 8);
    assert("archive"@[0] == 'a' && "no_exif"@[0] == 'n');
    lemma_keys_differ("archive"@, "no_exif"@, 0);
}

/// What a [`PutResourceDataRequest`] sends: the resource once, and the
/// columns once, under `data`, as a JSON object of their new values.
pub proof fn lemma_put_resource_data_request_sends_fields(r: PutResourceDataRequest)
    ensures
        values_of(r.spec_params(), "resource"@) == seq![spec_dec(r.resource as nat)],
        values_of(r.spec_params(), "data"@) == seq![json_object(data_members(r.data@))],
{
    broadcast use group_values_of;

    reveal_strlit("resource");
    reveal_strlit("data");
    assert("resource"@.len() == 8);
    assert("data"@.len() == 4);
}

// ---------------------------------------------------------------------------
// search
// ---------------------------------------------------------------------------

/// What a [`DoSearchRequest`] sends: every parameter once, under its own
/// name, with the value of its own field; an option that is not set is
/// not sent at all.
pub proof fn lemma_do_search_request_sends_fields(r: DoSearchRequest)
    ensures
        values_of(r.spec_params(), "search"@) == seq![r.search@],
        values_of(r.spec_params(), "restypes"@) == (match r.restypes { Some(v) => seq![spec_join(dec_items(v@), seq![','])], None => Seq::empty() }),
        values_of(r.spec_params(), "order_by"@) == (match r.order_by { Some(v) => seq![v@], None => Seq::empty() }),
        values_of(r.spec_params(), "archive"@) == (match r.archive { Some(v) => seq![spec_dec_int(v as int)], None => Seq::empty() }),
        values_of(r.spec_params(), "fetchrows"@) == (match r.fetchrows { Some(v) => seq![v.wire()], None => Seq::empty() }),
        values_of(r.spec_params(), "sort"@) == (match r.sort { Some(v) => seq![v.wire()], None => Seq::empty() }),
        values_of(r.spec_params(), "offset"@) == (match r.offset { Some(v) => seq![spec_dec(v as nat)], None => Seq::empty() }),
{
    broadcast use group_values_of;
    reveal_strlit("search");
    reveal_strlit("restypes");
    reveal_strlit("order_by");
    reveal_strlit("archive");
    reveal_strlit("fetchrows");
    reveal_strlit("sort");
    reveal_strlit("offset");
    assert("search"@.len() == 6);
    assert("restypes"@.len() == 8);
    assert("order_by"@.len() == 8);
    assert("archive"@.len() == 7);
    assert("fetchrows"@.len() == 9);
    assert("sort"@.len() == 4);
    assert("offset"@.len() == 6);
    assert("search"@[0] == 's' && "offset"@[0] == 'o');
    lemma_keys_differ("search"@, "offset"@, 0);
    assert("restypes"@[0] == 'r' && "order_by"@[0] == 'o');
    lemma_keys_differ("restypes"@, "order_by"@, 0);
}

/// What a [`SearchGetPreviewsRequest`] sends: every parameter once, under its own
/// name, with the value of its own field; an option that is not set is
/// not sent at all.
#[verifier::rlimit(50)]
pub proof fn lemma_search_get_previews_request_sends_fields(r: SearchGetPreviewsRequest)
    ensures
        values_of(r.spec_params(), "search"@) == seq![r.search@],
        values_of(r.spec_params(), "restypes"@) == (match r.restypes { Some(v) => seq![spec_join(dec_items(v@), seq![','])], None => Seq::empty() }),
        values_of(r.spec_params(), "order_by"@) == (match r.order_by { Some(v) => seq![v@], None => Seq::empty() }),
        values_of(r.spec_params(), "archive"@) == (match r.archive { Some(v) => seq![spec_dec_int(v as int)], None => Seq::empty() }),
        values_of(r.spec_params(), "fetchrows"@) == (match r.fetchrows { Some(v) => seq![v.wire()], None => Seq::empty() }),
        values_of(r.spec_params(), "sort"@) == (match r.sort { Some(v) => seq![v.wire()], None => Seq::empty() }),
        values_of(r.spec_params(), "recent_search_daylimit"@) == (match r.recent_search_daylimit { Some(v) => seq![v@], None => Seq::empty() }),
        values_of(r.spec_params(), "getsizes"@) == (match r.getsizes { Some(v) => seq![spec_join(string_views(v@), seq![','])], None => Seq::empty() }),
        values_of(r.spec_params(), "previewext"@) == (match r.previewext { Some(v) => seq![v@], None => Seq::empty() }),
{
    broadcast use group_values_of;
    reveal_strlit("search");
    reveal_strlit("restypes");
    reveal_strlit("order_by");
    reveal_strlit("archive");
    reveal_strlit("fetchrows");
    reveal_strlit("sort");
    reveal_strlit("recent_search_daylimit");
    reveal_strlit("getsizes");
    reveal_strlit("previewext");
    assert("search"@.len() == 6);
    assert("restypes"@.len() == 8);
    assert("order_by"@.len() == 8);
    assert("archive"@.len() == 7);
    assert("fetchrows"@.len() == 9);
    assert("sort"@.len() == 4);
    assert("recent_search_daylimit"@.len() == 22);
    assert("getsizes"@.len() == 8);
    assert("previewext"@.len() == 10);
    assert("restypes"@[0] == 'r' && "order_by"@[0] == 'o');
    lemma_keys_differ("restypes"@, "order_by"@, 0);
    assert("restypes"@[0] == 'r' && "getsizes"@[0] == 'g');
    lemma_keys_differ("restypes"@, "getsizes"@, 0);
    assert("order_by"@[0] == 'o' && "getsizes"@[0] == 'g');
    lemma_keys_differ("order_by"@, "getsizes"@, 0);
}

// ---------------------------------------------------------------------------
// system
// ---------------------------------------------------------------------------

/// What a [`GetSystemStatusRequest`] sends: every parameter once, under its own
/// name, with the value of its own field; an option that is not set is
/// not sent at all.
pub proof fn lemma_get_system_status_request_sends_fields(r: GetSystemStatusRequest)
    ensures
        values_of(r.spec_params(), "basic"@) == (match r.basic { Some(b) => seq![bool_digit(b)], None => Seq::empty() }),
{
    broadcast use group_values_of;
    reveal_strlit("basic");
    assert("basic"@.len() == 5);
}

/// What a [`DoReportRequest`] sends: every parameter once, under its own
/// name, with the value of its own field; an option that is not set is
/// not sent at all.
pub proof fn lemma_do_report_request_sends_fields(r: DoReportRequest)
    ensures
        values_of(r.spec_params(), "report_ref"@) == seq![spec_dec(r.report_ref as nat)],
        values_of(r.spec_params(), "from_date"@) == (match r.from_date { Some(v) => seq![v@], None => Seq::empty() }),
        values_of(r.spec_params(), "to_date"@) == (match r.to_date { Some(v) => seq![v@], None => Seq::empty() }),
{
    broadcast use group_values_of;
    reveal_strlit("report_ref");
    reveal_strlit("from_date");
    reveal_strlit("to_date");
    assert("report_ref"@.len() == 10);
    assert("from_date"@.len() == 9);
    assert("to_date"@.len() == 7);
}

/// What a [`GetDailyStatSummaryRequest`] sends: every parameter once, under its own
/// name, with the value of its own field; an option that is not set is
/// not sent at all.
pub proof fn lemma_get_daily_stat_summary_request_sends_fields(r: GetDailyStatSummaryRequest)
    ensures
        values_of(r.spec_params(), "days"@) == (match r.days { Some(v) => seq![spec_dec(v as nat)], None => Seq::empty() }),
{
    broadcast use group_values_of;
    reveal_strlit("days");
    assert("days"@.len() == 4);
}

// ---------------------------------------------------------------------------
// user
// ---------------------------------------------------------------------------

/// What a [`CheckpermRequest`] sends: every parameter once, under its own
/// name, with the value of its own field; an option that is not set is
/// not sent at all.
pub proof fn lemma_checkperm_request_sends_fields(r: CheckpermRequest)
    ensures
        values_of(r.spec_params(), "perm"@) == seq![r.perm@],
{
    broadcast use group_values_of;
    reveal_strlit("perm");
    assert("perm"@.len() == 4);
}

/// What a [`GetProfileImageRequest`] sends: every parameter once, under its own
/// name, with the value of its own field; an option that is not set is
/// not sent at all.
pub proof fn lemma_get_profile_image_request_sends_fields(r: GetProfileImageRequest)
    ensures
        values_of(r.spec_params(), "param1"@) == seq![spec_dec(r.user as nat)],
{
    broadcast use group_values_of;
    reveal_strlit("param1");
    assert("param1"@.len() == 6);
}

/// What a [`GetUsersRequest`] sends: every parameter once, under its own
/// name, with the value of its own field; an option that is not set is
/// not sent at all.
pub proof fn lemma_get_users_request_sends_fields(r: GetUsersRequest)
    ensures
        values_of(r.spec_params(), "find"@) == (match r.find { Some(v) => seq![v@], None => Seq::empty() }),
        values_of(r.spec_params(), "exact_username_match"@) == (match r.exact_username_match { Some(v) => seq![bool_word(v)], None => Seq::empty() }),
{
    broadcast use group_values_of;
    reveal_strlit("find");
    reveal_strlit("exact_username_match");
    assert("find"@.len() == 4);
    assert("exact_username_match"@.len() == 20);
}

/// What a [`GetUsersByPermissionRequest`] sends: every parameter once, under its own
/// name, with the value of its own field; an option that is not set is
/// not sent at all.
pub proof fn lemma_get_users_by_permission_request_sends_fields(r: GetUsersByPermissionRequest)
    ensures
        values_of(r.spec_params(), "permissions"@) == seq![spec_join(string_views(r.permissions@), seq![','])],
{
    broadcast use group_values_of;
    reveal_strlit("permissions");
    assert("permissions"@.len() == 11);
}

/// What a [`MarkEmailAsInvalidRequest`] sends: every parameter once, under its own
/// name, with the value of its own field; an option that is not set is
/// not sent at all.
pub proof fn lemma_mark_email_as_invalid_request_sends_fields(r: MarkEmailAsInvalidRequest)
    ensures
        values_of(r.spec_params(), "email"@) == seq![r.email@],
{
    broadcast use group_values_of;
    reveal_strlit("email");
    assert("email"@.len() == 5);
}

/// What a [`NewUserRequest`] sends: every parameter once, under its own
/// name, with the value of its own field; an option that is not set is
/// not sent at all.
pub proof fn lemma_new_user_request_sends_fields(r: NewUserRequest)
    ensures
        values_of(r.spec_params(), "username"@) == seq![r.username@],
        values_of(r.spec_params(), "usergroup"@) == (match r.usergroup { Some(v) => seq![spec_dec(v as nat)], None => Seq::empty() }),
{
    broadcast use group_values_of;
    reveal_strlit("username");
    reveal_strlit("usergroup");
    assert("username"@.len() == 8);
    assert("usergroup"@.len() == 9);
}

/// What a [`SaveUserRequest`] sends: every parameter once, under its own
/// name, with the value of its own field; an option that is not set is
/// not sent at all.
pub proof fn lemma_save_user_request_sends_fields(r: SaveUserRequest)
    ensures
        values_of(r.spec_params(), "ref"@) == seq![spec_dec(r.user_id as nat)],
        values_of(r.spec_params(), "data"@) == seq![json_object(r.data.spec_fields())],
{
    broadcast use group_values_of;
    reveal_strlit("ref");
    reveal_strlit("data");
    assert("ref"@.len() == 3);
    assert("data"@.len() == 4);
}

/// What the JSON object of a [`SaveUserData`] holds: every field once, under
/// its own name, with its own value.
#[verifier::rlimit(100)]
pub proof fn lemma_save_user_data_sends_fields(r: SaveUserData)
    ensures
        values_of(r.spec_fields(), "username"@) == (match r.username { Some(v) => seq![json_quote(v@)], None => Seq::empty() }),
        values_of(r.spec_fields(), "password"@) == (match r.password { Some(v) => seq![json_quote(v@)], None => Seq::empty() }),
        values_of(r.spec_fields(), "fullname"@) == (match r.fullname { Some(v) => seq![json_quote(v@)], None => Seq::empty() }),
        values_of(r.spec_fields(), "email"@) == (match r.email { Some(v) => seq![json_quote(v@)], None => Seq::empty() }),
        values_of(r.spec_fields(), "usergroup"@) == (match r.usergroup { Some(v) => seq![spec_dec(v as nat)], None => Seq::empty() }),
        values_of(r.spec_fields(), "ip_restrict"@) == (match r.ip_restrict { Some(v) => seq![json_quote(v@)], None => Seq::empty() }),
        values_of(r.spec_fields(), "comments"@) == (match r.comments { Some(v) => seq![json_quote(v@)], None => Seq::empty() }),
        values_of(r.spec_fields(), "suggest"@) == (match r.suggest { Some(v) => seq![bool_word(v)], None => Seq::empty() }),
        values_of(r.spec_fields(), "emailresetlink"@) == (match r.emailresetlink { Some(v) => seq![bool_word(v)], None => Seq::empty() }),
        values_of(r.spec_fields(), "approved"@) == (match r.approved { Some(b) => seq![bool_digit(b)], None => Seq::empty() }),
        values_of(r.spec_fields(), "expires"@) == (match r.expires { Some(v) => seq![json_quote(v@)], None => Seq::empty() }),
{
    broadcast use group_values_of;
    reveal_strlit("username");
    reveal_strlit("password");
    reveal_strlit("fullname");
    reveal_strlit("email");
    reveal_strlit("usergroup");
    reveal_strlit("ip_restrict");
    reveal_strlit("comments");
    reveal_strlit("suggest");
    reveal_strlit("emailresetlink");
    reveal_strlit("approved");
    reveal_strlit("expires");
    assert("username"@.len() == 8);
    assert("password"@.len() == 8);
    assert("fullname"@.len() == 8);
    assert("email"@.len() == 5);
    assert("usergroup"@.len() == 9);
    assert("ip_restrict"@.len() == 11);
    assert("comments"@.len() == 8);
    assert("suggest"@.len() == 7);
    assert("emailresetlink"@.len() == 14);
    assert("approved"@.len() == 8);
    assert("expires"@.len() == 7);
    assert("username"@[0] == 'u' && "password"@[0] == 'p');
    lemma_keys_differ("username"@, "password"@, 0);
    assert("username"@[0] == 'u' && "fullname"@[0] == 'f');
    lemma_keys_differ("username"@, "fullname"@, 0);
    assert("username"@[0] == 'u' && "comments"@[0] == 'c');
    lemma_keys_differ("username"@, "comments"@, 0);
    assert("username"@[0] == 'u' && "approved"@[0] == 'a');
    lemma_keys_differ("username"@, "approved"@, 0);
    assert("password"@[0] == 'p' && "fullname"@[0] == 'f');
    lemma_keys_differ("password"@, "fullname"@, 0);
    assert("password"@[0] == 'p' && "comments"@[0] == 'c');
    lemma_keys_differ("password"@, "comments"@, 0);
    assert("password"@[0] == 'p' && "approved"@[0] == 'a');
    lemma_keys_differ("password"@, "approved"@, 0);
    assert("fullname"@[0] == 'f' && "comments"@[0] == 'c');
    lemma_keys_differ("fullname"@, "comments"@, 0);
    assert("fullname"@[0] == 'f' && "approved"@[0] == 'a');
    lemma_keys_differ("fullname"@, "approved"@, 0);
    assert("comments"@[0] == 'c' && "approved"@[0] == 'a');
    lemma_keys_differ("comments"@, "approved"@, 0);
    assert("suggest"@[0] == 's' && "expires"@[0] == 'e');
    lemma_keys_differ("suggest"@, "expires"@, 0);
}

} // verus!
