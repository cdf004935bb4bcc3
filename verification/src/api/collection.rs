//! Collections: requests and replies.

use vstd::prelude::*;

use crate::api::{ApiParams, List, SortOrder};
use crate::json::{json_object, json_object_text, JsonValue};
use crate::wire::{bool_digit, opt_flag, opt_param, opt_wire, param, ParamView, Params, WireValue};

verus! {

/// A collection, as `get_user_collections`, `get_collection` and
/// `search_public_collections` report it.
#[derive(Clone, Debug, Default, PartialEq)]
pub struct Collection {
    pub collection_id: u32,
    pub name: Option<String>,
    pub user: u32,
    pub username: Option<String>,
    pub fullname: Option<String>,
    pub created: Option<String>,
    pub kind: u8,
    pub public: bool,
    pub allow_changes: bool,
    pub cant_delete: bool,
    pub count: Option<u32>,
    pub keywords: Option<String>,
    pub description: Option<String>,
    pub parent: Option<u32>,
    pub savedsearch: Option<u32>,
    pub bg_img_resource_ref: Option<u32>,
    pub thumbnail_selection_method: Option<u32>,
    pub order_by: u32,
    pub session_id: Option<u32>,
    pub home_page_image: Option<u32>,
    pub home_page_publish: Option<u32>,
    pub home_page_text: Option<String>,
    pub groups: Option<String>,
    pub users: Option<String>,
    pub request_feedback: Option<u32>,
    pub is_featured_collection_category: Option<u32>,
}

/// A featured collection, as `get_featured_collections` reports it.
#[derive(Clone, Debug, Default, PartialEq)]
pub struct FeaturedCollection {
    pub collection_id: u32,
    pub name: Option<String>,
    pub created: Option<String>,
    pub kind: u8,
    pub parent: Option<u32>,
    pub has_children: bool,
    pub has_resources: bool,
    pub order_by: u32,
    pub savedsearch: Option<u32>,
    pub bg_img_resource_ref: Option<u32>,
    pub thumbnail_selection_method: Option<u32>,
}

/// Parameters of `add_resource_to_collection`.
#[non_exhaustive]
#[derive(Clone, Debug, PartialEq)]
pub struct AddResourceToCollectionRequest {
    /// The resource to add.
    pub resource: u32,
    /// The collection to add it to.
    pub collection: u32,
    /// A search whose results are added as well.
    pub search: Option<String>,
}

impl AddResourceToCollectionRequest {
    /// A request with the given parameters; the optional ones are left unset.
    pub fn new(resource: u32, collection: u32) -> (r: Self)
        ensures
            r == (Self { resource, collection, search: None }),
    {
        Self { resource, collection, search: None }
    }

    /// Sets [`Self::search`].
    pub fn search(self, search: String) -> (r: Self)
        ensures
            r == (Self { search: Some(search), ..self }),
    {
        Self { search: Some(search), ..self }
    }
}

impl ApiParams for AddResourceToCollectionRequest {
    open spec fn spec_params(&self) -> Seq<ParamView> {
        param("resource"@, self.resource.wire())
            + param("collection"@, self.collection.wire())
            + opt_param("search"@, opt_wire(self.search))
    }

    fn to_params(&self) -> (r: Params) {
        let mut p = Params::new();
        p.push("resource", &self.resource);
        p.push("collection", &self.collection);
        p.push_opt("search", &self.search);
        p
    }
}

/// Parameters of `remove_resource_from_collection`.
#[non_exhaustive]
#[derive(Clone, Debug, PartialEq)]
pub struct RemoveResourceFromCollectionRequest {
    /// The resource to remove.
    pub resource: u32,
    /// The collection to remove it from.
    pub collection: u32,
}

impl RemoveResourceFromCollectionRequest {
    /// A request with the given parameters.
    pub fn new(resource: u32, collection: u32) -> (r: Self)
        ensures
            r == (Self { resource, collection }),
    {
        Self { resource, collection }
    }
}

impl ApiParams for RemoveResourceFromCollectionRequest {
    open spec fn spec_params(&self) -> Seq<ParamView> {
        param("resource"@, self.resource.wire())
            + param("collection"@, self.collection.wire())
    }

    fn to_params(&self) -> (r: Params) {
        let mut p = Params::new();
        p.push("resource", &self.resource);
        p.push("collection", &self.collection);
        p
    }
}

/// Parameters of `create_collection`.
#[non_exhaustive]
#[derive(Clone, Debug, PartialEq)]
pub struct CreateCollectionRequest {
    /// The name of the new collection.
    pub name: String,
    /// Whether the collection is meant for uploads.
    pub forupload: Option<bool>,
}

impl CreateCollectionRequest {
    /// A request with the given parameters; the optional ones are left unset.
    pub fn new(name: String) -> (r: Self)
        ensures
            r == (Self { name, forupload: None }),
    {
        Self { name, forupload: None }
    }

    /// Sets [`Self::forupload`].
    pub fn forupload(self, forupload: bool) -> (r: Self)
        ensures
            r == (Self { forupload: Some(forupload), ..self }),
    {
        Self { forupload: Some(forupload), ..self }
    }
}

impl ApiParams for CreateCollectionRequest {
    open spec fn spec_params(&self) -> Seq<ParamView> {
        param("name"@, self.name.wire())
            + opt_param("forupload"@, opt_flag(self.forupload))
    }

    fn to_params(&self) -> (r: Params) {
        let mut p = Params::new();
        p.push("name", &self.name);
        p.push_opt_flag("forupload", self.forupload);
        p
    }
}

/// Parameters of `delete_collection`.
#[non_exhaustive]
#[derive(Clone, Debug, PartialEq)]
pub struct DeleteCollectionRequest {
    /// The collection to delete.
    pub collection: u32,
}

impl DeleteCollectionRequest {
    /// A request with the given parameters.
    pub fn new(collection: u32) -> (r: Self)
        ensures
            r == (Self { collection }),
    {
        Self { collection }
    }
}

impl ApiParams for DeleteCollectionRequest {
    open spec fn spec_params(&self) -> Seq<ParamView> {
        param("ref"@, self.collection.wire())
    }

    fn to_params(&self) -> (r: Params) {
        let mut p = Params::new();
        p.push("ref", &self.collection);
        p
    }
}

/// Parameters of `search_public_collections`.
#[non_exhaustive]
#[derive(Clone, Debug, PartialEq)]
pub struct SearchPublicCollectionsRequest {
    /// Search text to match collections against.
    pub search: Option<String>,
    /// Column to order by.
    pub order_by: Option<String>,
    /// Sort direction.
    pub sort: Option<SortOrder>,
    /// Whether to leave out featured collections.
    pub exclude_themes: Option<bool>,
    /// Whether to leave out public collections.
    pub exclude_public: Option<bool>,
}

impl SearchPublicCollectionsRequest {
    /// A request with no filter.
    pub fn new() -> (r: Self)
        ensures
            r == (Self {
                search: None,
                order_by: None,
                sort: None,
                exclude_themes: None,
                exclude_public: None,
            }),
    {
        Self {
            search: None,
            order_by: None,
            sort: None,
            exclude_themes: None,
            exclude_public: None,
        }
    }

    /// Sets [`Self::search`].
    pub fn search(self, search: String) -> (r: Self)
        ensures
            r == (Self { search: Some(search), ..self }),
    {
        Self { search: Some(search), ..self }
    }

    /// Sets [`Self::order_by`].
    pub fn order_by(self, order_by: String) -> (r: Self)
        ensures
            r == (Self { order_by: Some(order_by), ..self }),
    {
        Self { order_by: Some(order_by), ..self }
    }

    /// Sets [`Self::sort`].
    pub fn sort(self, sort: SortOrder) -> (r: Self)
        ensures
            r == (Self { sort: Some(sort), ..self }),
    {
        Self { sort: Some(sort), ..self }
    }

    /// Sets [`Self::exclude_themes`].
    pub fn exclude_themes(self, exclude_themes: bool) -> (r: Self)
        ensures
            r == (Self { exclude_themes: Some(exclude_themes), ..self }),
    {
        Self { exclude_themes: Some(exclude_themes), ..self }
    }

    /// Sets [`Self::exclude_public`].
    pub fn exclude_public(self, exclude_public: bool) -> (r: Self)
        ensures
            r == (Self { exclude_public: Some(exclude_public), ..self }),
    {
        Self { exclude_public: Some(exclude_public), ..self }
    }
}

impl Default for SearchPublicCollectionsRequest {
    fn default() -> (r: Self)
        ensures
            r == (Self {
                search: None,
                order_by: None,
                sort: None,
                exclude_themes: None,
                exclude_public: None,
            }),
    {
        Self::new()
    }
}

impl ApiParams for SearchPublicCollectionsRequest {
    open spec fn spec_params(&self) -> Seq<ParamView> {
        opt_param("search"@, opt_wire(self.search))
            + opt_param("order_by"@, opt_wire(self.order_by))
            + opt_param("sort"@, opt_wire(self.sort))
            + opt_param("exclude_themes"@, opt_flag(self.exclude_themes))
            + opt_param("exclude_public"@, opt_flag(self.exclude_public))
    }

    fn to_params(&self) -> (r: Params) {
        let mut p = Params::new();
        p.push_opt("search", &self.search);
        p.push_opt("order_by", &self.order_by);
        p.push_opt("sort", &self.sort);
        p.push_opt_flag("exclude_themes", self.exclude_themes);
        p.push_opt_flag("exclude_public", self.exclude_public);
        p
    }
}

/// Parameters of `get_collection`.
#[non_exhaustive]
#[derive(Clone, Debug, PartialEq)]
pub struct GetCollectionRequest {
    /// The collection to fetch.
    pub collection_id: u32,
}

impl GetCollectionRequest {
    /// A request with the given parameters.
    pub fn new(collection_id: u32) -> (r: Self)
        ensures
            r == (Self { collection_id }),
    {
        Self { collection_id }
    }
}

impl ApiParams for GetCollectionRequest {
    open spec fn spec_params(&self) -> Seq<ParamView> {
        param("ref"@, self.collection_id.wire())
    }

    fn to_params(&self) -> (r: Params) {
        let mut p = Params::new();
        p.push("ref", &self.collection_id);
        p
    }
}

/// Parameters of `save_collection`: new values for a collection's properties.
#[non_exhaustive]
#[derive(Clone, Debug, PartialEq)]
pub struct SaveCollectionRequest {
    /// The collection to update.
    pub collection_id: u32,
    /// The properties to set; sent as a JSON object.
    pub coldata: SaveCollectionColdata,
}

impl SaveCollectionRequest {
    /// A request with the given parameters.
    pub fn new(collection_id: u32, coldata: SaveCollectionColdata) -> (r: Self)
        ensures
            r == (Self { collection_id, coldata }),
    {
        Self { collection_id, coldata }
    }
}

impl ApiParams for SaveCollectionRequest {
    open spec fn spec_params(&self) -> Seq<ParamView> {
        param("ref"@, self.collection_id.wire())
            + param("coldata"@, self.coldata.json())
    }

    fn to_params(&self) -> (r: Params) {
        let mut p = Params::new();
        p.push("ref", &self.collection_id);
        p.push_text("coldata", self.coldata.to_json());
        p
    }
}

/// The properties `save_collection` sets. An unset property is sent as JSON `null`, but for the switches, which are left out.
#[non_exhaustive]
#[derive(Clone, Debug, PartialEq)]
pub struct SaveCollectionColdata {
    /// Keywords of the collection.
    pub keywords: Option<List<String>>,
    /// Whether other users may change the collection.
    pub allow_changes: Option<bool>,
    /// Users the collection is shared with.
    pub users: Option<List<String>>,
    /// The collection's name.
    pub name: Option<String>,
    /// Whether the collection is public.
    pub public: Option<bool>,
    /// The collection type.
    pub kind: Option<u8>,
    /// Parent featured collection.
    pub parent: Option<u32>,
    /// Whether to force the featured collection type.
    pub force_featured_collection_type: Option<bool>,
    /// How the thumbnail is picked.
    pub thumbnail_selection_method: Option<u32>,
    /// Resource whose image is the background.
    pub bg_img_resource_ref: Option<u32>,
}

impl SaveCollectionColdata {
    /// Properties with nothing set.
    pub fn new() -> (r: Self)
        ensures
            r == (Self {
                keywords: None,
                allow_changes: None,
                users: None,
                name: None,
                public: None,
                kind: None,
                parent: None,
                force_featured_collection_type: None,
                thumbnail_selection_method: None,
                bg_img_resource_ref: None,
            }),
    {
        Self {
            keywords: None,
            allow_changes: None,
            users: None,
            name: None,
            public: None,
            kind: None,
            parent: None,
            force_featured_collection_type: None,
            thumbnail_selection_method: None,
            bg_img_resource_ref: None,
        }
    }

    /// Sets [`Self::keywords`].
    pub fn keywords(self, keywords: List<String>) -> (r: Self)
        ensures
            r == (Self { keywords: Some(keywords), ..self }),
    {
        Self { keywords: Some(keywords), ..self }
    }

    /// Sets [`Self::allow_changes`].
    pub fn allow_changes(self, allow_changes: bool) -> (r: Self)
        ensures
            r == (Self { allow_changes: Some(allow_changes), ..self }),
    {
        Self { allow_changes: Some(allow_changes), ..self }
    }

    /// Sets [`Self::users`].
    pub fn users(self, users: List<String>) -> (r: Self)
        ensures
            r == (Self { users: Some(users), ..self }),
    {
        Self { users: Some(users), ..self }
    }

    /// Sets [`Self::name`].
    pub fn name(self, name: String) -> (r: Self)
        ensures
            r == (Self { name: Some(name), ..self }),
    {
        Self { name: Some(name), ..self }
    }

    /// Sets [`Self::public`].
    pub fn public(self, public: bool) -> (r: Self)
        ensures
            r == (Self { public: Some(public), ..self }),
    {
        Self { public: Some(public), ..self }
    }

    /// Sets [`Self::kind`].
    pub fn kind(self, kind: u8) -> (r: Self)
        ensures
            r == (Self { kind: Some(kind), ..self }),
    {
        Self { kind: Some(kind), ..self }
    }

    /// Sets [`Self::parent`].
    pub fn parent(self, parent: u32) -> (r: Self)
        ensures
            r == (Self { parent: Some(parent), ..self }),
    {
        Self { parent: Some(parent), ..self }
    }

    /// Sets [`Self::force_featured_collection_type`].
    pub fn force_featured_collection_type(self, force_featured_collection_type: bool) -> (r: Self)
        ensures
            r == (Self { force_featured_collection_type: Some(force_featured_collection_type), ..self }),
    {
        Self { force_featured_collection_type: Some(force_featured_collection_type), ..self }
    }

    /// Sets [`Self::thumbnail_selection_method`].
    pub fn thumbnail_selection_method(self, thumbnail_selection_method: u32) -> (r: Self)
        ensures
            r == (Self { thumbnail_selection_method: Some(thumbnail_selection_method), ..self }),
    {
        Self { thumbnail_selection_method: Some(thumbnail_selection_method), ..self }
    }

    /// Sets [`Self::bg_img_resource_ref`].
    pub fn bg_img_resource_ref(self, bg_img_resource_ref: u32) -> (r: Self)
        ensures
            r == (Self { bg_img_resource_ref: Some(bg_img_resource_ref), ..self }),
    {
        Self { bg_img_resource_ref: Some(bg_img_resource_ref), ..self }
    }
}

impl Default for SaveCollectionColdata {
    fn default() -> (r: Self)
        ensures
            r == (Self {
                keywords: None,
                allow_changes: None,
                users: None,
                name: None,
                public: None,
                kind: None,
                parent: None,
                force_featured_collection_type: None,
                thumbnail_selection_method: None,
                bg_img_resource_ref: None,
            }),
    {
        Self::new()
    }
}

impl SaveCollectionColdata {
    /// The members of the JSON object, in order.
    pub open spec fn spec_fields(&self) -> Seq<ParamView> {
        param("keywords"@, self.keywords.json())
            + opt_param("allow_changes"@, opt_flag(self.allow_changes))
            + param("users"@, self.users.json())
            + param("name"@, self.name.json())
            + opt_param("public"@, opt_flag(self.public))
            + param("type"@, self.kind.json())
            + param("parent"@, self.parent.json())
            + opt_param("force_featured_collection_type"@, opt_flag(self.force_featured_collection_type))
            + param("thumbnail_selection_method"@, self.thumbnail_selection_method.json())
            + param("bg_img_resource_ref"@, self.bg_img_resource_ref.json())
    }
}

impl JsonValue for SaveCollectionColdata {
    open spec fn json(&self) -> Seq<char> {
        json_object(self.spec_fields())
    }

    fn to_json(&self) -> (r: String) {
        let mut p = Params::new();
        p.push_text("keywords", self.keywords.to_json());
        p.push_opt_flag("allow_changes", self.allow_changes);
        p.push_text("users", self.users.to_json());
        p.push_text("name", self.name.to_json());
        p.push_opt_flag("public", self.public);
        p.push_text("type", self.kind.to_json());
        p.push_text("parent", self.parent.to_json());
        p.push_opt_flag("force_featured_collection_type", self.force_featured_collection_type);
        p.push_text("thumbnail_selection_method", self.thumbnail_selection_method.to_json());
        p.push_text("bg_img_resource_ref", self.bg_img_resource_ref.to_json());
        assert(p@ =~= self.spec_fields());
        json_object_text(&p)
    }
}

/// Parameters of `show_hide_collection`.
#[non_exhaustive]
#[derive(Clone, Debug, PartialEq)]
pub struct ShowHideCollectionRequest {
    /// The collection to show or hide.
    pub collection: u32,
    /// Whether to show it; sent as `1` or `0`.
    pub show: bool,
    /// The user whose drop-down it appears in.
    pub user: u32,
}

impl ShowHideCollectionRequest {
    /// A request with the given parameters.
    pub fn new(collection: u32, show: bool, user: u32) -> (r: Self)
        ensures
            r == (Self { collection, show, user }),
    {
        Self { collection, show, user }
    }
}

impl ApiParams for ShowHideCollectionRequest {
    open spec fn spec_params(&self) -> Seq<ParamView> {
        param("collection"@, self.collection.wire())
            + param("show"@, bool_digit(self.show))
            + param("user"@, self.user.wire())
    }

    fn to_params(&self) -> (r: Params) {
        let mut p = Params::new();
        p.push("collection", &self.collection);
        p.push_flag("show", self.show);
        p.push("user", &self.user);
        p
    }
}

/// Parameters of `send_collection_to_admin`.
#[non_exhaustive]
#[derive(Clone, Debug, PartialEq)]
pub struct SendCollectionToAdminRequest {
    /// The collection to send.
    pub collection: u32,
}

impl SendCollectionToAdminRequest {
    /// A request with the given parameters.
    pub fn new(collection: u32) -> (r: Self)
        ensures
            r == (Self { collection }),
    {
        Self { collection }
    }
}

impl ApiParams for SendCollectionToAdminRequest {
    open spec fn spec_params(&self) -> Seq<ParamView> {
        param("collection"@, self.collection.wire())
    }

    fn to_params(&self) -> (r: Params) {
        let mut p = Params::new();
        p.push("collection", &self.collection);
        p
    }
}

/// Parameters of `get_featured_collections`.
#[non_exhaustive]
#[derive(Clone, Debug, PartialEq)]
pub struct GetFeaturedCollectionsRequest {
    /// The parent featured collection; `0` for the top level.
    pub parent: u32,
}

impl GetFeaturedCollectionsRequest {
    /// A request with the given parameters.
    pub fn new(parent: u32) -> (r: Self)
        ensures
            r == (Self { parent }),
    {
        Self { parent }
    }
}

impl ApiParams for GetFeaturedCollectionsRequest {
    open spec fn spec_params(&self) -> Seq<ParamView> {
        param("parent"@, self.parent.wire())
    }

    fn to_params(&self) -> (r: Params) {
        let mut p = Params::new();
        p.push("parent", &self.parent);
        p
    }
}

/// Parameters of `delete_resources_in_collection`.
#[non_exhaustive]
#[derive(Clone, Debug, PartialEq)]
pub struct DeleteResourcesInCollectionRequest {
    /// The collection whose resources are deleted.
    pub collection: u32,
}

impl DeleteResourcesInCollectionRequest {
    /// A request with the given parameters.
    pub fn new(collection: u32) -> (r: Self)
        ensures
            r == (Self { collection }),
    {
        Self { collection }
    }
}

impl ApiParams for DeleteResourcesInCollectionRequest {
    open spec fn spec_params(&self) -> Seq<ParamView> {
        param("collection"@, self.collection.wire())
    }

    fn to_params(&self) -> (r: Params) {
        let mut p = Params::new();
        p.push("collection", &self.collection);
        p
    }
}

/// Parameters of `get_collections_resource_count`.
#[non_exhaustive]
#[derive(Clone, Debug, PartialEq)]
pub struct GetCollectionsResourceCountRequest {
    /// The collections to count.
    pub collection_ids: List<u32>,
}

impl GetCollectionsResourceCountRequest {
    /// A request with the given parameters.
    pub fn new(collection_ids: List<u32>) -> (r: Self)
        ensures
            r == (Self { collection_ids }),
    {
        Self { collection_ids }
    }
}

impl ApiParams for GetCollectionsResourceCountRequest {
    open spec fn spec_params(&self) -> Seq<ParamView> {
        param("refs"@, self.collection_ids.wire())
    }

    fn to_params(&self) -> (r: Params) {
        let mut p = Params::new();
        p.push("refs", &self.collection_ids);
        p
    }
}

} // verus!
