//! Resources, their files and their log: requests and replies.

use vstd::prelude::*;

use crate::api::{field_value_wire, ApiParams, FieldValue, List, SortOrder};
use crate::json::{json_object, json_object_text, json_quote, json_string};
use crate::text::{spec_dec, u64_to_dec};
use crate::wire::{bool_digit, opt_flag, opt_param, opt_wire, param, ParamView, Params, WireValue};

verus! {

/// An alternative file of a resource, as `get_alternative_files` reports it.
#[derive(Clone, Debug, Default, PartialEq)]
pub struct AlternativeFile {
    pub alternative_id: u32,
    pub name: String,
    pub description: Option<String>,
    pub file_name: Option<String>,
    pub file_extension: Option<String>,
    pub file_size: Option<u64>,
    pub alt_type: Option<String>,
    pub creation_date: Option<String>,
}

/// A collection a resource is in, as `get_resource_collections` reports it.
#[derive(Clone, Debug, Default, PartialEq)]
pub struct ResourceCollection {
    pub collection_id: u32,
    pub name: Option<String>,
    pub description: Option<String>,
}

/// One generated size of a resource's image, as
/// `get_resource_all_image_sizes` reports it.
#[derive(Clone, Debug, Default, PartialEq)]
pub struct ImageSize {
    /// Size code, e.g. `original`, `thm`, `scr`.
    pub size_code: String,
    /// Direct download URL.
    pub url: String,
    pub width: Option<u32>,
    pub height: Option<u32>,
    pub extension: Option<String>,
    /// Human-readable size, formatted by the server for display.
    pub filesize: Option<String>,
}

/// No key occurs twice.
pub open spec fn distinct_keys<K, V>(entries: Seq<(K, V)>) -> bool {
    forall|i: int, j: int|
        0 <= i < j < entries.len() ==> #[trigger] entries[i].0 != #[trigger] entries[j].0
}

/// The members of the `metadata` object of `create_resource`: each field id
/// as a key, the field value's text as a JSON string.
pub open spec fn metadata_members(m: Seq<(u32, FieldValue)>) -> Seq<ParamView> {
    m.map_values(|e: (u32, FieldValue)| (spec_dec(e.0 as nat), json_quote(field_value_wire(e.1))))
}

/// Writes the `metadata` object of `create_resource`.
pub fn metadata_json(m: &Vec<(u32, FieldValue)>) -> (r: String)
    ensures
        r@ == json_object(metadata_members(m@)),
{
    let mut p = Params::new();
    let n = m.len();
    let mut i: usize = 0;
    while i < n
        invariant
            i <= n,
            n == m@.len(),
            p@ =~= metadata_members(m@.take(i as int)),
        decreases n - i,
    {
        let (id, value) = &m[i];
        let key = u64_to_dec(*id as u64);
        let wire = value.to_wire_string();
        let text = json_string(wire.as_str());
        p.push_text(key.as_str(), text);
        assert(metadata_members(m@.take(i + 1)) =~= metadata_members(m@.take(i as int)).push(
            (spec_dec(m@[i as int].0 as nat), json_quote(field_value_wire(m@[i as int].1))),
        ));
        i = i + 1;
    }
    assert(m@.take(n as int) =~= m@);
    json_object_text(&p)
}

/// The members of the `data` object of `put_resource_data`: each column
/// name as a key, its value as a JSON string.
pub open spec fn data_members(d: Seq<(String, String)>) -> Seq<ParamView> {
    d.map_values(|e: (String, String)| (e.0@, json_quote(e.1@)))
}

/// Writes the `data` object of `put_resource_data`.
pub fn data_json(d: &Vec<(String, String)>) -> (r: String)
    ensures
        r@ == json_object(data_members(d@)),
{
    let mut p = Params::new();
    let n = d.len();
    let mut i: usize = 0;
    while i < n
        invariant
            i <= n,
            n == d@.len(),
            p@ =~= data_members(d@.take(i as int)),
        decreases n - i,
    {
        let (k, v) = &d[i];
        let text = json_string(v.as_str());
        p.push_text(k.as_str(), text);
        assert(data_members(d@.take(i + 1)) =~= data_members(d@.take(i as int)).push(
            (d@[i as int].0@, json_quote(d@[i as int].1@)),
        ));
        i = i + 1;
    }
    assert(d@.take(n as int) =~= d@);
    json_object_text(&p)
}

/// The `metadata` parameter of `create_resource`, when there is one.
pub open spec fn opt_metadata(m: Option<Vec<(u32, FieldValue)>>) -> Option<Seq<char>> {
    match m {
        Some(v) => Some(json_object(metadata_members(v@))),
        None => None,
    }
}

/// Parameters of `create_resource`.
#[non_exhaustive]
#[derive(Clone, Debug, PartialEq)]
pub struct CreateResourceRequest {
    /// The resource type of the new resource.
    pub resource_type: u32,
    /// Initial archive state: 0 live, 1 archived, 2 deleted.
    pub archive: Option<i16>,
    /// URL of a remote file to attach.
    pub url: Option<String>,
    /// Whether to skip reading EXIF data.
    pub no_exif: Option<bool>,
    /// Whether to revert to the original file.
    pub revert: Option<bool>,
    /// Whether to rotate by EXIF orientation.
    pub autorotate: Option<bool>,
    /// Field values to set, by field id; sent as a JSON object.
    pub metadata: Option<Vec<(u32, FieldValue)>>,
}

impl CreateResourceRequest {
    /// A request for a resource of the given type; every optional parameter
    /// is left unset.
    pub fn new(resource_type: u32) -> (r: Self)
        ensures
            r == (Self {
                resource_type,
                archive: None,
                url: None,
                no_exif: None,
                revert: None,
                autorotate: None,
                metadata: None,
            }),
    {
        Self {
            resource_type,
            archive: None,
            url: None,
            no_exif: None,
            revert: None,
            autorotate: None,
            metadata: None,
        }
    }

    /// Sets [`Self::archive`].
    pub fn archive(self, archive: i16) -> (r: Self)
        ensures
            r == (Self { archive: Some(archive), ..self }),
    {
        Self { archive: Some(archive), ..self }
    }

    /// Sets [`Self::url`].
    pub fn url(self, url: String) -> (r: Self)
        ensures
            r == (Self { url: Some(url), ..self }),
    {
        Self { url: Some(url), ..self }
    }

    /// Sets [`Self::no_exif`].
    pub fn no_exif(self, no_exif: bool) -> (r: Self)
        ensures
            r == (Self { no_exif: Some(no_exif), ..self }),
    {
        Self { no_exif: Some(no_exif), ..self }
    }

    /// Sets [`Self::revert`].
    pub fn revert(self, revert: bool) -> (r: Self)
        ensures
            r == (Self { revert: Some(revert), ..self }),
    {
        Self { revert: Some(revert), ..self }
    }

    /// Sets [`Self::autorotate`].
    pub fn autorotate(self, autorotate: bool) -> (r: Self)
        ensures
            r == (Self { autorotate: Some(autorotate), ..self }),
    {
        Self { autorotate: Some(autorotate), ..self }
    }

    /// Sets [`Self::metadata`]: one value per field id.
    pub fn metadata(self, metadata: Vec<(u32, FieldValue)>) -> (r: Self)
        requires
            distinct_keys(metadata@),
        ensures
            r == (Self { metadata: Some(metadata), ..self }),
    {
        Self { metadata: Some(metadata), ..self }
    }
}

impl ApiParams for CreateResourceRequest {
    open spec fn spec_params(&self) -> Seq<ParamView> {
        param("resource_type"@, self.resource_type.wire())
            + opt_param("archive"@, opt_wire(self.archive))
            + opt_param("url"@, opt_wire(self.url))
            + opt_param("no_exif"@, opt_flag(self.no_exif))
            + opt_param("revert"@, opt_flag(self.revert))
            + opt_param("autorotate"@, opt_flag(self.autorotate))
            + opt_param("metadata"@, opt_metadata(self.metadata))
    }

    fn to_params(&self) -> (r: Params) {
        let mut p = Params::new();
        p.push("resource_type", &self.resource_type);
        p.push_opt("archive", &self.archive);
        p.push_opt("url", &self.url);
        p.push_opt_flag("no_exif", self.no_exif);
        p.push_opt_flag("revert", self.revert);
        p.push_opt_flag("autorotate", self.autorotate);
        match &self.metadata {
            Some(m) => p.push_text("metadata", metadata_json(m)),
            None => {},
        }
        p
    }
}

/// Parameters of `put_resource_data`: new values for a resource's own
/// columns.
#[non_exhaustive]
#[derive(Clone, Debug, PartialEq)]
pub struct PutResourceDataRequest {
    /// The resource to update.
    pub resource: u32,
    /// Column names and their new values; sent as a JSON object.
    pub data: Vec<(String, String)>,
}

impl PutResourceDataRequest {
    /// A request that sets the given columns of `resource`, one value per
    /// column.
    pub fn new(resource: u32, data: Vec<(String, String)>) -> (r: Self)
        requires
            distinct_keys(data@),
        ensures
            r == (Self { resource, data }),
    {
        Self { resource, data }
    }
}

impl ApiParams for PutResourceDataRequest {
    open spec fn spec_params(&self) -> Seq<ParamView> {
        param("resource"@, self.resource.wire()) + param("data"@, json_object(data_members(self.data@)))
    }

    fn to_params(&self) -> (r: Params) {
        let mut p = Params::new();
        p.push("resource", &self.resource);
        p.push_text("data", data_json(&self.data));
        p
    }
}

/// Parameters of `add_alternative_file`.
#[non_exhaustive]
#[derive(Clone, Debug, PartialEq)]
pub struct AddAlternativeFileRequest {
    /// The resource to attach the file to.
    pub resource: u32,
    /// Display name of the alternative file.
    pub name: String,
    /// Description of the file.
    pub description: Option<String>,
    /// Original file name.
    pub file_name: Option<String>,
    /// File extension, e.g. `pdf`.
    pub file_extension: Option<String>,
    /// Size in bytes.
    pub file_size: Option<u64>,
    /// Alternative type, used to group files.
    pub alt_type: Option<String>,
    /// Server path or public URL of the file.
    pub file: Option<String>,
}

impl AddAlternativeFileRequest {
    /// A request with the given parameters; the optional ones are left unset.
    pub fn new(resource: u32, name: String) -> (r: Self)
        ensures
            r == (Self {
                resource,
                name,
                description: None,
                file_name: None,
                file_extension: None,
                file_size: None,
                alt_type: None,
                file: None,
            }),
    {
        Self {
            resource,
            name,
            description: None,
            file_name: None,
            file_extension: None,
            file_size: None,
            alt_type: None,
            file: None,
        }
    }

    /// Sets [`Self::description`].
    pub fn description(self, description: String) -> (r: Self)
        ensures
            r == (Self { description: Some(description), ..self }),
    {
        Self { description: Some(description), ..self }
    }

    /// Sets [`Self::file_name`].
    pub fn file_name(self, file_name: String) -> (r: Self)
        ensures
            r == (Self { file_name: Some(file_name), ..self }),
    {
        Self { file_name: Some(file_name), ..self }
    }

    /// Sets [`Self::file_extension`].
    pub fn file_extension(self, file_extension: String) -> (r: Self)
        ensures
            r == (Self { file_extension: Some(file_extension), ..self }),
    {
        Self { file_extension: Some(file_extension), ..self }
    }

    /// Sets [`Self::file_size`].
    pub fn file_size(self, file_size: u64) -> (r: Self)
        ensures
            r == (Self { file_size: Some(file_size), ..self }),
    {
        Self { file_size: Some(file_size), ..self }
    }

    /// Sets [`Self::alt_type`].
    pub fn alt_type(self, alt_type: String) -> (r: Self)
        ensures
            r == (Self { alt_type: Some(alt_type), ..self }),
    {
        Self { alt_type: Some(alt_type), ..self }
    }

    /// Sets [`Self::file`].
    pub fn file(self, file: String) -> (r: Self)
        ensures
            r == (Self { file: Some(file), ..self }),
    {
        Self { file: Some(file), ..self }
    }
}

impl ApiParams for AddAlternativeFileRequest {
    open spec fn spec_params(&self) -> Seq<ParamView> {
        param("resource"@, self.resource.wire())
            + param("name"@, self.name.wire())
            + opt_param("description"@, opt_wire(self.description))
            + opt_param("file_name"@, opt_wire(self.file_name))
            + opt_param("file_extension"@, opt_wire(self.file_extension))
            + opt_param("file_size"@, opt_wire(self.file_size))
            + opt_param("alt_type"@, opt_wire(self.alt_type))
            + opt_param("file"@, opt_wire(self.file))
    }

    fn to_params(&self) -> (r: Params) {
        let mut p = Params::new();
        p.push("resource", &self.resource);
        p.push("name", &self.name);
        p.push_opt("description", &self.description);
        p.push_opt("file_name", &self.file_name);
        p.push_opt("file_extension", &self.file_extension);
        p.push_opt("file_size", &self.file_size);
        p.push_opt("alt_type", &self.alt_type);
        p.push_opt("file", &self.file);
        p
    }
}

/// Parameters of `copy_resource`.
#[non_exhaustive]
#[derive(Clone, Debug, PartialEq)]
pub struct CopyResourceRequest {
    /// The resource to copy.
    pub resource_id: u32,
    /// Resource type of the copy; the source's when unset.
    pub resource_type: Option<u32>,
}

impl CopyResourceRequest {
    /// A request with the given parameters; the optional ones are left unset.
    pub fn new(resource_id: u32) -> (r: Self)
        ensures
            r == (Self { resource_id, resource_type: None }),
    {
        Self { resource_id, resource_type: None }
    }

    /// Sets [`Self::resource_type`].
    pub fn resource_type(self, resource_type: u32) -> (r: Self)
        ensures
            r == (Self { resource_type: Some(resource_type), ..self }),
    {
        Self { resource_type: Some(resource_type), ..self }
    }
}

impl ApiParams for CopyResourceRequest {
    open spec fn spec_params(&self) -> Seq<ParamView> {
        param("from"@, self.resource_id.wire())
            + opt_param("resource_type"@, opt_wire(self.resource_type))
    }

    fn to_params(&self) -> (r: Params) {
        let mut p = Params::new();
        p.push("from", &self.resource_id);
        p.push_opt("resource_type", &self.resource_type);
        p
    }
}

/// Parameters of `delete_alternative_file`.
#[non_exhaustive]
#[derive(Clone, Debug, PartialEq)]
pub struct DeleteAlternativeFile {
    /// The resource the file belongs to.
    pub resource: u32,
    /// The alternative file to delete.
    pub alternative_file_id: u32,
}

impl DeleteAlternativeFile {
    /// A request with the given parameters.
    pub fn new(resource: u32, alternative_file_id: u32) -> (r: Self)
        ensures
            r == (Self { resource, alternative_file_id }),
    {
        Self { resource, alternative_file_id }
    }
}

impl ApiParams for DeleteAlternativeFile {
    open spec fn spec_params(&self) -> Seq<ParamView> {
        param("resource"@, self.resource.wire())
            + param("ref"@, self.alternative_file_id.wire())
    }

    fn to_params(&self) -> (r: Params) {
        let mut p = Params::new();
        p.push("resource", &self.resource);
        p.push("ref", &self.alternative_file_id);
        p
    }
}

/// Parameters of `delete_resource`.
#[non_exhaustive]
#[derive(Clone, Debug, PartialEq)]
pub struct DeleteResourceRequest {
    /// The resource to delete.
    pub resource: u32,
}

impl DeleteResourceRequest {
    /// A request with the given parameters.
    pub fn new(resource: u32) -> (r: Self)
        ensures
            r == (Self { resource }),
    {
        Self { resource }
    }
}

impl ApiParams for DeleteResourceRequest {
    open spec fn spec_params(&self) -> Seq<ParamView> {
        param("resource"@, self.resource.wire())
    }

    fn to_params(&self) -> (r: Params) {
        let mut p = Params::new();
        p.push("resource", &self.resource);
        p
    }
}

/// Parameters of `get_alternative_files`.
#[non_exhaustive]
#[derive(Clone, Debug, PartialEq)]
pub struct GetAlternativeFilesRequest {
    /// The resource whose files are listed.
    pub resource: u32,
    /// Column to order by.
    pub orderby: Option<String>,
    /// Sort direction.
    pub sort: Option<SortOrder>,
    /// Only files of this alternative type.
    pub kind: Option<String>,
}

impl GetAlternativeFilesRequest {
    /// A request with the given parameters; the optional ones are left unset.
    pub fn new(resource: u32) -> (r: Self)
        ensures
            r == (Self {
                resource,
                orderby: None,
                sort: None,
                kind: None,
            }),
    {
        Self {
            resource,
            orderby: None,
            sort: None,
            kind: None,
        }
    }

    /// Sets [`Self::orderby`].
    pub fn orderby(self, orderby: String) -> (r: Self)
        ensures
            r == (Self { orderby: Some(orderby), ..self }),
    {
        Self { orderby: Some(orderby), ..self }
    }

    /// Sets [`Self::sort`].
    pub fn sort(self, sort: SortOrder) -> (r: Self)
        ensures
            r == (Self { sort: Some(sort), ..self }),
    {
        Self { sort: Some(sort), ..self }
    }

    /// Sets [`Self::kind`].
    pub fn kind(self, kind: String) -> (r: Self)
        ensures
            r == (Self { kind: Some(kind), ..self }),
    {
        Self { kind: Some(kind), ..self }
    }
}

impl ApiParams for GetAlternativeFilesRequest {
    open spec fn spec_params(&self) -> Seq<ParamView> {
        param("resource"@, self.resource.wire())
            + opt_param("order_by"@, opt_wire(self.orderby))
            + opt_param("sort"@, opt_wire(self.sort))
            + opt_param("type"@, opt_wire(self.kind))
    }

    fn to_params(&self) -> (r: Params) {
        let mut p = Params::new();
        p.push("resource", &self.resource);
        p.push_opt("order_by", &self.orderby);
        p.push_opt("sort", &self.sort);
        p.push_opt("type", &self.kind);
        p
    }
}

/// Parameters of `get_edit_access`.
#[non_exhaustive]
#[derive(Clone, Debug, PartialEq)]
pub struct GetEditAccessRequest {
    /// The resource to check.
    pub resource: u32,
}

impl GetEditAccessRequest {
    /// A request with the given parameters.
    pub fn new(resource: u32) -> (r: Self)
        ensures
            r == (Self { resource }),
    {
        Self { resource }
    }
}

impl ApiParams for GetEditAccessRequest {
    open spec fn spec_params(&self) -> Seq<ParamView> {
        param("resource"@, self.resource.wire())
    }

    fn to_params(&self) -> (r: Params) {
        let mut p = Params::new();
        p.push("resource", &self.resource);
        p
    }
}

/// Parameters of `get_related_resources`.
#[non_exhaustive]
#[derive(Clone, Debug, PartialEq)]
pub struct GetRelatedResourcesRequest {
    /// The resource whose relations are listed.
    pub resource_id: u32,
}

impl GetRelatedResourcesRequest {
    /// A request with the given parameters.
    pub fn new(resource_id: u32) -> (r: Self)
        ensures
            r == (Self { resource_id }),
    {
        Self { resource_id }
    }
}

impl ApiParams for GetRelatedResourcesRequest {
    open spec fn spec_params(&self) -> Seq<ParamView> {
        param("ref"@, self.resource_id.wire())
    }

    fn to_params(&self) -> (r: Params) {
        let mut p = Params::new();
        p.push("ref", &self.resource_id);
        p
    }
}

/// Parameters of `get_resource_access`.
#[non_exhaustive]
#[derive(Clone, Debug, PartialEq)]
pub struct GetResourceAccessRequest {
    /// The resource to check.
    pub resource: u32,
}

impl GetResourceAccessRequest {
    /// A request with the given parameters.
    pub fn new(resource: u32) -> (r: Self)
        ensures
            r == (Self { resource }),
    {
        Self { resource }
    }
}

impl ApiParams for GetResourceAccessRequest {
    open spec fn spec_params(&self) -> Seq<ParamView> {
        param("resource"@, self.resource.wire())
    }

    fn to_params(&self) -> (r: Params) {
        let mut p = Params::new();
        p.push("resource", &self.resource);
        p
    }
}

/// Parameters of `get_resource_all_image_sizes`.
#[non_exhaustive]
#[derive(Clone, Debug, PartialEq)]
pub struct GetResourceAllImageSizesRequest {
    /// The resource whose sizes are listed.
    pub resource: u32,
}

impl GetResourceAllImageSizesRequest {
    /// A request with the given parameters.
    pub fn new(resource: u32) -> (r: Self)
        ensures
            r == (Self { resource }),
    {
        Self { resource }
    }
}

impl ApiParams for GetResourceAllImageSizesRequest {
    open spec fn spec_params(&self) -> Seq<ParamView> {
        param("resource"@, self.resource.wire())
    }

    fn to_params(&self) -> (r: Params) {
        let mut p = Params::new();
        p.push("resource", &self.resource);
        p
    }
}

/// Parameters of `delete_comment`.
#[non_exhaustive]
#[derive(Clone, Debug, PartialEq)]
pub struct DeleteCommentRequest {
    /// The comment to delete.
    pub comment_ref: u32,
}

impl DeleteCommentRequest {
    /// A request with the given parameters.
    pub fn new(comment_ref: u32) -> (r: Self)
        ensures
            r == (Self { comment_ref }),
    {
        Self { comment_ref }
    }
}

impl ApiParams for DeleteCommentRequest {
    open spec fn spec_params(&self) -> Seq<ParamView> {
        param("comment_ref"@, self.comment_ref.wire())
    }

    fn to_params(&self) -> (r: Params) {
        let mut p = Params::new();
        p.push("comment_ref", &self.comment_ref);
        p
    }
}

/// Parameters of `get_resource_comments`.
#[non_exhaustive]
#[derive(Clone, Debug, PartialEq)]
pub struct GetResourceCommentsRequest {
    /// The resource whose comments are listed.
    pub resource_id: u32,
    /// Whether to list comments flat rather than threaded.
    pub flat_view: Option<bool>,
}

impl GetResourceCommentsRequest {
    /// A request with the given parameters; the optional ones are left unset.
    pub fn new(resource_id: u32) -> (r: Self)
        ensures
            r == (Self { resource_id, flat_view: None }),
    {
        Self { resource_id, flat_view: None }
    }

    /// Sets [`Self::flat_view`].
    pub fn flat_view(self, flat_view: bool) -> (r: Self)
        ensures
            r == (Self { flat_view: Some(flat_view), ..self }),
    {
        Self { flat_view: Some(flat_view), ..self }
    }
}

impl ApiParams for GetResourceCommentsRequest {
    open spec fn spec_params(&self) -> Seq<ParamView> {
        param("resource_ref"@, self.resource_id.wire())
            + opt_param("flat_view"@, opt_wire(self.flat_view))
    }

    fn to_params(&self) -> (r: Params) {
        let mut p = Params::new();
        p.push("resource_ref", &self.resource_id);
        p.push_opt("flat_view", &self.flat_view);
        p
    }
}

/// Parameters of `get_resource_data`.
#[non_exhaustive]
#[derive(Clone, Debug, PartialEq)]
pub struct GetResourceDataRequest {
    /// The resource to fetch.
    pub resource: u32,
}

impl GetResourceDataRequest {
    /// A request with the given parameters.
    pub fn new(resource: u32) -> (r: Self)
        ensures
            r == (Self { resource }),
    {
        Self { resource }
    }
}

impl ApiParams for GetResourceDataRequest {
    open spec fn spec_params(&self) -> Seq<ParamView> {
        param("resource"@, self.resource.wire())
    }

    fn to_params(&self) -> (r: Params) {
        let mut p = Params::new();
        p.push("resource", &self.resource);
        p
    }
}

/// Parameters of `get_resource_field_data`.
#[non_exhaustive]
#[derive(Clone, Debug, PartialEq)]
pub struct GetResourceFieldDataRequest {
    /// The resource whose field data is fetched.
    pub resource: u32,
}

impl GetResourceFieldDataRequest {
    /// A request with the given parameters.
    pub fn new(resource: u32) -> (r: Self)
        ensures
            r == (Self { resource }),
    {
        Self { resource }
    }
}

impl ApiParams for GetResourceFieldDataRequest {
    open spec fn spec_params(&self) -> Seq<ParamView> {
        param("resource"@, self.resource.wire())
    }

    fn to_params(&self) -> (r: Params) {
        let mut p = Params::new();
        p.push("resource", &self.resource);
        p
    }
}

/// Parameters of `get_resource_log`.
#[non_exhaustive]
#[derive(Clone, Debug, PartialEq)]
pub struct GetResourceLogRequest {
    /// The resource whose log is listed.
    pub resource: u32,
    /// Largest number of rows to return.
    pub fetchrows: Option<u32>,
}

impl GetResourceLogRequest {
    /// A request with the given parameters; the optional ones are left unset.
    pub fn new(resource: u32) -> (r: Self)
        ensures
            r == (Self { resource, fetchrows: None }),
    {
        Self { resource, fetchrows: None }
    }

    /// Sets [`Self::fetchrows`].
    pub fn fetchrows(self, fetchrows: u32) -> (r: Self)
        ensures
            r == (Self { fetchrows: Some(fetchrows), ..self }),
    {
        Self { fetchrows: Some(fetchrows), ..self }
    }
}

impl ApiParams for GetResourceLogRequest {
    open spec fn spec_params(&self) -> Seq<ParamView> {
        param("resource"@, self.resource.wire())
            + opt_param("fetchrows"@, opt_wire(self.fetchrows))
    }

    fn to_params(&self) -> (r: Params) {
        let mut p = Params::new();
        p.push("resource", &self.resource);
        p.push_opt("fetchrows", &self.fetchrows);
        p
    }
}

/// Parameters of `get_resource_path`: the download URL of a resource's file.
#[non_exhaustive]
#[derive(Clone, Debug, PartialEq)]
pub struct GetResourcePathRequest {
    /// The resource.
    pub resource_id: u32,
    /// Preview size, e.g. `thm`; the original file when unset.
    pub size: Option<String>,
    /// Whether to generate a missing preview.
    pub generate: Option<bool>,
    /// File extension of the URL.
    pub extension: Option<String>,
    /// Page of a multi-page file.
    pub page: Option<u32>,
    /// Whether to return the watermarked file.
    pub watermarked: Option<bool>,
    /// Alternative file, or `-1` for the original.
    pub alternative: Option<i32>,
    /// Whether to embed metadata into the file first.
    pub write_metadata: Option<bool>,
}

impl GetResourcePathRequest {
    /// A request with the given parameters; the optional ones are left unset.
    pub fn new(resource_id: u32) -> (r: Self)
        ensures
            r == (Self {
                resource_id,
                size: None,
                generate: None,
                extension: None,
                page: None,
                watermarked: None,
                alternative: None,
                write_metadata: None,
            }),
    {
        Self {
            resource_id,
            size: None,
            generate: None,
            extension: None,
            page: None,
            watermarked: None,
            alternative: None,
            write_metadata: None,
        }
    }

    /// Sets [`Self::size`].
    pub fn size(self, size: String) -> (r: Self)
        ensures
            r == (Self { size: Some(size), ..self }),
    {
        Self { size: Some(size), ..self }
    }

    /// Sets [`Self::generate`].
    pub fn generate(self, generate: bool) -> (r: Self)
        ensures
            r == (Self { generate: Some(generate), ..self }),
    {
        Self { generate: Some(generate), ..self }
    }

    /// Sets [`Self::extension`].
    pub fn extension(self, extension: String) -> (r: Self)
        ensures
            r == (Self { extension: Some(extension), ..self }),
    {
        Self { extension: Some(extension), ..self }
    }

    /// Sets [`Self::page`].
    pub fn page(self, page: u32) -> (r: Self)
        ensures
            r == (Self { page: Some(page), ..self }),
    {
        Self { page: Some(page), ..self }
    }

    /// Sets [`Self::watermarked`].
    pub fn watermarked(self, watermarked: bool) -> (r: Self)
        ensures
            r == (Self { watermarked: Some(watermarked), ..self }),
    {
        Self { watermarked: Some(watermarked), ..self }
    }

    /// Sets [`Self::alternative`].
    pub fn alternative(self, alternative: i32) -> (r: Self)
        ensures
            r == (Self { alternative: Some(alternative), ..self }),
    {
        Self { alternative: Some(alternative), ..self }
    }

    /// Sets [`Self::write_metadata`].
    pub fn write_metadata(self, write_metadata: bool) -> (r: Self)
        ensures
            r == (Self { write_metadata: Some(write_metadata), ..self }),
    {
        Self { write_metadata: Some(write_metadata), ..self }
    }
}

impl ApiParams for GetResourcePathRequest {
    open spec fn spec_params(&self) -> Seq<ParamView> {
        param("ref"@, self.resource_id.wire())
            + opt_param("size"@, opt_wire(self.size))
            + opt_param("generate"@, opt_flag(self.generate))
            + opt_param("extension"@, opt_wire(self.extension))
            + opt_param("page"@, opt_wire(self.page))
            + opt_param("watermarked"@, opt_flag(self.watermarked))
            + opt_param("alternative"@, opt_wire(self.alternative))
            + opt_param("write_metadata"@, opt_wire(self.write_metadata))
    }

    fn to_params(&self) -> (r: Params) {
        let mut p = Params::new();
        p.push("ref", &self.resource_id);
        p.push_opt("size", &self.size);
        p.push_opt_flag("generate", self.generate);
        p.push_opt("extension", &self.extension);
        p.push_opt("page", &self.page);
        p.push_opt_flag("watermarked", self.watermarked);
        p.push_opt("alternative", &self.alternative);
        p.push_opt("write_metadata", &self.write_metadata);
        p
    }
}

/// Parameters of `relate_all_resources`.
#[non_exhaustive]
#[derive(Clone, Debug, PartialEq)]
pub struct RelateAllResourcesRequest {
    /// The resources to relate to each other.
    pub related: List<u32>,
}

impl RelateAllResourcesRequest {
    /// A request with the given parameters.
    pub fn new(related: List<u32>) -> (r: Self)
        ensures
            r == (Self { related }),
    {
        Self { related }
    }
}

impl ApiParams for RelateAllResourcesRequest {
    open spec fn spec_params(&self) -> Seq<ParamView> {
        param("related"@, self.related.wire())
    }

    fn to_params(&self) -> (r: Params) {
        let mut p = Params::new();
        p.push("related", &self.related);
        p
    }
}

/// Parameters of `replace_resource_file`.
#[non_exhaustive]
#[derive(Clone, Debug, PartialEq)]
pub struct ReplaceResourceFileRequest {
    /// The resource whose file is replaced.
    pub resource: u32,
    /// Server path or public URL of the new file.
    pub file_location: String,
    /// Whether to skip reading EXIF data.
    pub no_exif: Option<bool>,
    /// Whether to rotate by EXIF orientation.
    pub autorotate: Option<bool>,
    /// Whether to keep the old file as an alternative.
    pub keep_original: Option<bool>,
}

impl ReplaceResourceFileRequest {
    /// A request with the given parameters; the optional ones are left unset.
    pub fn new(resource: u32, file_location: String) -> (r: Self)
        ensures
            r == (Self {
                resource,
                file_location,
                no_exif: None,
                autorotate: None,
                keep_original: None,
            }),
    {
        Self {
            resource,
            file_location,
            no_exif: None,
            autorotate: None,
            keep_original: None,
        }
    }

    /// Sets [`Self::no_exif`].
    pub fn no_exif(self, no_exif: bool) -> (r: Self)
        ensures
            r == (Self { no_exif: Some(no_exif), ..self }),
    {
        Self { no_exif: Some(no_exif), ..self }
    }

    /// Sets [`Self::autorotate`].
    pub fn autorotate(self, autorotate: bool) -> (r: Self)
        ensures
            r == (Self { autorotate: Some(autorotate), ..self }),
    {
        Self { autorotate: Some(autorotate), ..self }
    }

    /// Sets [`Self::keep_original`].
    pub fn keep_original(self, keep_original: bool) -> (r: Self)
        ensures
            r == (Self { keep_original: Some(keep_original), ..self }),
    {
        Self { keep_original: Some(keep_original), ..self }
    }
}

impl ApiParams for ReplaceResourceFileRequest {
    open spec fn spec_params(&self) -> Seq<ParamView> {
        param("ref"@, self.resource.wire())
            + param("file_location"@, self.file_location.wire())
            + opt_param("no_exif"@, opt_flag(self.no_exif))
            + opt_param("autorotate"@, opt_flag(self.autorotate))
            + opt_param("keep_original"@, opt_flag(self.keep_original))
    }

    fn to_params(&self) -> (r: Params) {
        let mut p = Params::new();
        p.push("ref", &self.resource);
        p.push("file_location", &self.file_location);
        p.push_opt_flag("no_exif", self.no_exif);
        p.push_opt_flag("autorotate", self.autorotate);
        p.push_opt_flag("keep_original", self.keep_original);
        p
    }
}

/// Parameters of `resource_file_readonly`.
#[non_exhaustive]
#[derive(Clone, Debug, PartialEq)]
pub struct ResourceFileReadonlyRequest {
    /// The resource to check.
    pub resource_id: u32,
}

impl ResourceFileReadonlyRequest {
    /// A request with the given parameters.
    pub fn new(resource_id: u32) -> (r: Self)
        ensures
            r == (Self { resource_id }),
    {
        Self { resource_id }
    }
}

impl ApiParams for ResourceFileReadonlyRequest {
    open spec fn spec_params(&self) -> Seq<ParamView> {
        param("ref"@, self.resource_id.wire())
    }

    fn to_params(&self) -> (r: Params) {
        let mut p = Params::new();
        p.push("ref", &self.resource_id);
        p
    }
}

/// Parameters of `resource_log_last_rows`.
#[non_exhaustive]
#[derive(Clone, Debug, PartialEq)]
pub struct ResourceLogLastRowsRequest {
    /// Only entries after this one.
    pub minref: Option<u32>,
    /// Only entries of the last so many days.
    pub days: Option<u32>,
    /// Largest number of entries to return.
    pub maxrecords: Option<u32>,
    /// Only entries about these fields.
    pub field_ids: Option<List<u32>>,
    /// Only entries with these log codes.
    pub log_code: Option<List<String>>,
}

impl ResourceLogLastRowsRequest {
    /// A request with no filter.
    pub fn new() -> (r: Self)
        ensures
            r == (Self {
                minref: None,
                days: None,
                maxrecords: None,
                field_ids: None,
                log_code: None,
            }),
    {
        Self {
            minref: None,
            days: None,
            maxrecords: None,
            field_ids: None,
            log_code: None,
        }
    }

    /// Sets [`Self::minref`].
    pub fn minref(self, minref: u32) -> (r: Self)
        ensures
            r == (Self { minref: Some(minref), ..self }),
    {
        Self { minref: Some(minref), ..self }
    }

    /// Sets [`Self::days`].
    pub fn days(self, days: u32) -> (r: Self)
        ensures
            r == (Self { days: Some(days), ..self }),
    {
        Self { days: Some(days), ..self }
    }

    /// Sets [`Self::maxrecords`].
    pub fn maxrecords(self, maxrecords: u32) -> (r: Self)
        ensures
            r == (Self { maxrecords: Some(maxrecords), ..self }),
    {
        Self { maxrecords: Some(maxrecords), ..self }
    }

    /// Sets [`Self::field_ids`].
    pub fn field_ids(self, field_ids: List<u32>) -> (r: Self)
        ensures
            r == (Self { field_ids: Some(field_ids), ..self }),
    {
        Self { field_ids: Some(field_ids), ..self }
    }

    /// Sets [`Self::log_code`].
    pub fn log_code(self, log_code: List<String>) -> (r: Self)
        ensures
            r == (Self { log_code: Some(log_code), ..self }),
    {
        Self { log_code: Some(log_code), ..self }
    }
}

impl Default for ResourceLogLastRowsRequest {
    fn default() -> (r: Self)
        ensures
            r == (Self {
                minref: None,
                days: None,
                maxrecords: None,
                field_ids: None,
                log_code: None,
            }),
    {
        Self::new()
    }
}

impl ApiParams for ResourceLogLastRowsRequest {
    open spec fn spec_params(&self) -> Seq<ParamView> {
        opt_param("minref"@, opt_wire(self.minref))
            + opt_param("days"@, opt_wire(self.days))
            + opt_param("maxrecords"@, opt_wire(self.maxrecords))
            + opt_param("field"@, opt_wire(self.field_ids))
            + opt_param("log_code"@, opt_wire(self.log_code))
    }

    fn to_params(&self) -> (r: Params) {
        let mut p = Params::new();
        p.push_opt("minref", &self.minref);
        p.push_opt("days", &self.days);
        p.push_opt("maxrecords", &self.maxrecords);
        p.push_opt("field", &self.field_ids);
        p.push_opt("log_code", &self.log_code);
        p
    }
}

/// Parameters of `upload_file`: attaches a file on the server to a resource.
#[non_exhaustive]
#[derive(Clone, Debug, PartialEq)]
pub struct UploadFileRequest {
    /// The resource.
    pub resource_id: u32,
    /// Whether to skip reading EXIF data.
    pub no_exif: Option<bool>,
    /// Whether to revert to the original file.
    pub revert: Option<bool>,
    /// Whether to rotate by EXIF orientation.
    pub autorotate: Option<bool>,
    /// Server path of the file.
    pub file_path: Option<String>,
}

impl UploadFileRequest {
    /// A request with the given parameters; the optional ones are left unset.
    pub fn new(resource_id: u32) -> (r: Self)
        ensures
            r == (Self {
                resource_id,
                no_exif: None,
                revert: None,
                autorotate: None,
                file_path: None,
            }),
    {
        Self {
            resource_id,
            no_exif: None,
            revert: None,
            autorotate: None,
            file_path: None,
        }
    }

    /// Sets [`Self::no_exif`].
    pub fn no_exif(self, no_exif: bool) -> (r: Self)
        ensures
            r == (Self { no_exif: Some(no_exif), ..self }),
    {
        Self { no_exif: Some(no_exif), ..self }
    }

    /// Sets [`Self::revert`].
    pub fn revert(self, revert: bool) -> (r: Self)
        ensures
            r == (Self { revert: Some(revert), ..self }),
    {
        Self { revert: Some(revert), ..self }
    }

    /// Sets [`Self::autorotate`].
    pub fn autorotate(self, autorotate: bool) -> (r: Self)
        ensures
            r == (Self { autorotate: Some(autorotate), ..self }),
    {
        Self { autorotate: Some(autorotate), ..self }
    }

    /// Sets [`Self::file_path`].
    pub fn file_path(self, file_path: String) -> (r: Self)
        ensures
            r == (Self { file_path: Some(file_path), ..self }),
    {
        Self { file_path: Some(file_path), ..self }
    }
}

impl ApiParams for UploadFileRequest {
    open spec fn spec_params(&self) -> Seq<ParamView> {
        param("ref"@, self.resource_id.wire())
            + opt_param("no_exif"@, opt_flag(self.no_exif))
            + opt_param("revert"@, opt_flag(self.revert))
            + opt_param("autorotate"@, opt_flag(self.autorotate))
            + opt_param("file_path"@, opt_wire(self.file_path))
    }

    fn to_params(&self) -> (r: Params) {
        let mut p = Params::new();
        p.push("ref", &self.resource_id);
        p.push_opt_flag("no_exif", self.no_exif);
        p.push_opt_flag("revert", self.revert);
        p.push_opt_flag("autorotate", self.autorotate);
        p.push_opt("file_path", &self.file_path);
        p
    }
}

/// Parameters of `upload_file_by_url`.
#[non_exhaustive]
#[derive(Clone, Debug, PartialEq)]
pub struct UploadFileByUrlRequest {
    /// The resource.
    pub resource_id: u32,
    /// Whether to skip reading EXIF data.
    pub no_exif: Option<bool>,
    /// Whether to revert to the original file.
    pub revert: Option<bool>,
    /// Whether to rotate by EXIF orientation.
    pub autorotate: Option<bool>,
    /// Public URL the server fetches the file from.
    pub url: Option<String>,
}

impl UploadFileByUrlRequest {
    /// A request with the given parameters; the optional ones are left unset.
    pub fn new(resource_id: u32) -> (r: Self)
        ensures
            r == (Self {
                resource_id,
                no_exif: None,
                revert: None,
                autorotate: None,
                url: None,
            }),
    {
        Self {
            resource_id,
            no_exif: None,
            revert: None,
            autorotate: None,
            url: None,
        }
    }

    /// Sets [`Self::no_exif`].
    pub fn no_exif(self, no_exif: bool) -> (r: Self)
        ensures
            r == (Self { no_exif: Some(no_exif), ..self }),
    {
        Self { no_exif: Some(no_exif), ..self }
    }

    /// Sets [`Self::revert`].
    pub fn revert(self, revert: bool) -> (r: Self)
        ensures
            r == (Self { revert: Some(revert), ..self }),
    {
        Self { revert: Some(revert), ..self }
    }

    /// Sets [`Self::autorotate`].
    pub fn autorotate(self, autorotate: bool) -> (r: Self)
        ensures
            r == (Self { autorotate: Some(autorotate), ..self }),
    {
        Self { autorotate: Some(autorotate), ..self }
    }

    /// Sets [`Self::url`].
    pub fn url(self, url: String) -> (r: Self)
        ensures
            r == (Self { url: Some(url), ..self }),
    {
        Self { url: Some(url), ..self }
    }
}

impl ApiParams for UploadFileByUrlRequest {
    open spec fn spec_params(&self) -> Seq<ParamView> {
        param("ref"@, self.resource_id.wire())
            + opt_param("no_exif"@, opt_flag(self.no_exif))
            + opt_param("revert"@, opt_flag(self.revert))
            + opt_param("autorotate"@, opt_flag(self.autorotate))
            + opt_param("url"@, opt_wire(self.url))
    }

    fn to_params(&self) -> (r: Params) {
        let mut p = Params::new();
        p.push("ref", &self.resource_id);
        p.push_opt_flag("no_exif", self.no_exif);
        p.push_opt_flag("revert", self.revert);
        p.push_opt_flag("autorotate", self.autorotate);
        p.push_opt("url", &self.url);
        p
    }
}

/// Parameters of `upload_multipart`; the file itself travels as a form part.
#[non_exhaustive]
#[derive(Clone, Debug, PartialEq)]
pub struct UploadMultipartRequest {
    /// The resource.
    pub resource_id: u32,
    /// Whether to skip reading EXIF data.
    pub no_exif: bool,
    /// Whether to revert to the original file.
    pub revert: bool,
    /// Whether to only make a preview.
    pub previewonly: Option<bool>,
    /// Alternative file slot to upload into.
    pub alternative: Option<u32>,
    /// Whether to rotate by EXIF orientation.
    pub autorotate: Option<bool>,
}

impl UploadMultipartRequest {
    /// A request with the given parameters; the optional ones are left unset.
    pub fn new(resource_id: u32, no_exif: bool, revert: bool) -> (r: Self)
        ensures
            r == (Self {
                resource_id,
                no_exif,
                revert,
                previewonly: None,
                alternative: None,
                autorotate: None,
            }),
    {
        Self {
            resource_id,
            no_exif,
            revert,
            previewonly: None,
            alternative: None,
            autorotate: None,
        }
    }

    /// Sets [`Self::previewonly`].
    pub fn previewonly(self, previewonly: bool) -> (r: Self)
        ensures
            r == (Self { previewonly: Some(previewonly), ..self }),
    {
        Self { previewonly: Some(previewonly), ..self }
    }

    /// Sets [`Self::alternative`].
    pub fn alternative(self, alternative: u32) -> (r: Self)
        ensures
            r == (Self { alternative: Some(alternative), ..self }),
    {
        Self { alternative: Some(alternative), ..self }
    }

    /// Sets [`Self::autorotate`].
    pub fn autorotate(self, autorotate: bool) -> (r: Self)
        ensures
            r == (Self { autorotate: Some(autorotate), ..self }),
    {
        Self { autorotate: Some(autorotate), ..self }
    }
}

impl ApiParams for UploadMultipartRequest {
    open spec fn spec_params(&self) -> Seq<ParamView> {
        param("ref"@, self.resource_id.wire())
            + param("no_exif"@, bool_digit(self.no_exif))
            + param("revert"@, bool_digit(self.revert))
            + opt_param("previewonly"@, opt_wire(self.previewonly))
            + opt_param("alternative"@, opt_wire(self.alternative))
            + opt_param("autorotate"@, opt_flag(self.autorotate))
    }

    fn to_params(&self) -> (r: Params) {
        let mut p = Params::new();
        p.push("ref", &self.resource_id);
        p.push_flag("no_exif", self.no_exif);
        p.push_flag("revert", self.revert);
        p.push_opt("previewonly", &self.previewonly);
        p.push_opt("alternative", &self.alternative);
        p.push_opt_flag("autorotate", self.autorotate);
        p
    }
}

/// Parameters of `update_related_resource`.
#[non_exhaustive]
#[derive(Clone, Debug, PartialEq)]
pub struct UpdateRelatedResourceRequest {
    /// The resource.
    pub resource_id: u32,
    /// The resources to relate or unrelate.
    pub related: List<u32>,
    /// Whether to add the relations (or remove them).
    pub add: Option<bool>,
}

impl UpdateRelatedResourceRequest {
    /// A request with the given parameters; the optional ones are left unset.
    pub fn new(resource_id: u32, related: List<u32>) -> (r: Self)
        ensures
            r == (Self { resource_id, related, add: None }),
    {
        Self { resource_id, related, add: None }
    }

    /// Sets [`Self::add`].
    pub fn add(self, add: bool) -> (r: Self)
        ensures
            r == (Self { add: Some(add), ..self }),
    {
        Self { add: Some(add), ..self }
    }
}

impl ApiParams for UpdateRelatedResourceRequest {
    open spec fn spec_params(&self) -> Seq<ParamView> {
        param("ref"@, self.resource_id.wire())
            + param("related"@, self.related.wire())
            + opt_param("add"@, opt_flag(self.add))
    }

    fn to_params(&self) -> (r: Params) {
        let mut p = Params::new();
        p.push("ref", &self.resource_id);
        p.push("related", &self.related);
        p.push_opt_flag("add", self.add);
        p
    }
}

/// Parameters of `update_resource_type`.
#[non_exhaustive]
#[derive(Clone, Debug, PartialEq)]
pub struct UpdateResourceTypeRequest {
    /// The resource.
    pub resource: u32,
    /// Its new resource type.
    pub resourcetype: u32,
}

impl UpdateResourceTypeRequest {
    /// A request with the given parameters.
    pub fn new(resource: u32, resourcetype: u32) -> (r: Self)
        ensures
            r == (Self { resource, resourcetype }),
    {
        Self { resource, resourcetype }
    }
}

impl ApiParams for UpdateResourceTypeRequest {
    open spec fn spec_params(&self) -> Seq<ParamView> {
        param("resource"@, self.resource.wire())
            + param("type"@, self.resourcetype.wire())
    }

    fn to_params(&self) -> (r: Params) {
        let mut p = Params::new();
        p.push("resource", &self.resource);
        p.push("type", &self.resourcetype);
        p
    }
}

/// Parameters of `get_resource_collections`.
#[non_exhaustive]
#[derive(Clone, Debug, PartialEq)]
pub struct GetResourceCollectionsRequest {
    /// The resource.
    pub resource_id: u32,
}

impl GetResourceCollectionsRequest {
    /// A request with the given parameters.
    pub fn new(resource_id: u32) -> (r: Self)
        ensures
            r == (Self { resource_id }),
    {
        Self { resource_id }
    }
}

impl ApiParams for GetResourceCollectionsRequest {
    open spec fn spec_params(&self) -> Seq<ParamView> {
        param("ref"@, self.resource_id.wire())
    }

    fn to_params(&self) -> (r: Params) {
        let mut p = Params::new();
        p.push("ref", &self.resource_id);
        p
    }
}

/// Parameters of `validate_upload_url`.
#[non_exhaustive]
#[derive(Clone, Debug, PartialEq)]
pub struct ValidateUploadUrlRequest {
    /// The URL to check against the server's allowed list.
    pub url: String,
}

impl ValidateUploadUrlRequest {
    /// A request with the given parameters.
    pub fn new(url: String) -> (r: Self)
        ensures
            r == (Self { url }),
    {
        Self { url }
    }
}

impl ApiParams for ValidateUploadUrlRequest {
    open spec fn spec_params(&self) -> Seq<ParamView> {
        param("url"@, self.url.wire())
    }

    fn to_params(&self) -> (r: Params) {
        let mut p = Params::new();
        p.push("url", &self.url);
        p
    }
}

} // verus!
