//! Metadata fields and their nodes: requests and replies.

use vstd::prelude::*;

use crate::api::{field_value_wire, ApiParams, FieldValue, List};
use crate::json::{dec_items, json_array, json_u32_array};
use crate::text::{spec_dec, u64_to_dec};
use crate::wire::{opt_param, opt_wire, param, ParamView, Params, WireValue};

verus! {

/// A metadata field, named by its numeric id or by its shortname.
#[derive(Clone, Debug, PartialEq)]
pub enum FieldIdentifier {
    Id(u32),
    Shortname(String),
}

/// An id goes out as its decimal number, a shortname as it is.
impl WireValue for FieldIdentifier {
    open spec fn wire(&self) -> Seq<char> {
        match self {
            FieldIdentifier::Id(id) => spec_dec(*id as nat),
            FieldIdentifier::Shortname(name) => name@,
        }
    }

    fn to_wire(&self) -> (r: String) {
        match self {
            FieldIdentifier::Id(id) => u64_to_dec(*id as u64),
            FieldIdentifier::Shortname(name) => name.clone(),
        }
    }
}

impl FieldIdentifier {
    /// A field named by its id.
    pub fn id(id: u32) -> (r: FieldIdentifier)
        ensures
            r == FieldIdentifier::Id(id),
    {
        FieldIdentifier::Id(id)
    }

    /// A field named by its shortname.
    pub fn shortname(name: String) -> (r: FieldIdentifier)
        ensures
            r == FieldIdentifier::Shortname(name),
    {
        FieldIdentifier::Shortname(name)
    }
}

impl From<u32> for FieldIdentifier {
    fn from(id: u32) -> (r: FieldIdentifier) {
        FieldIdentifier::Id(id)
    }
}

impl vstd::std_specs::convert::FromSpecImpl<u32> for FieldIdentifier {
    open spec fn obeys_from_spec() -> bool {
        true
    }

    open spec fn from_spec(v: u32) -> FieldIdentifier {
        FieldIdentifier::Id(v)
    }
}

impl From<String> for FieldIdentifier {
    fn from(name: String) -> (r: FieldIdentifier) {
        FieldIdentifier::Shortname(name)
    }
}

impl vstd::std_specs::convert::FromSpecImpl<String> for FieldIdentifier {
    open spec fn obeys_from_spec() -> bool {
        true
    }

    open spec fn from_spec(v: String) -> FieldIdentifier {
        FieldIdentifier::Shortname(v)
    }
}

/// The `ref` of a `set_node` call: the node's id, or `NULL` to create one.
pub open spec fn node_ref_wire(id: Option<u32>) -> Seq<char> {
    match id {
        Some(n) => spec_dec(n as nat),
        None => seq!['N', 'U', 'L', 'L'],
    }
}

/// Writes the `ref` of a `set_node` call.
pub fn node_ref_text(id: Option<u32>) -> (r: String)
    ensures
        r@ == node_ref_wire(id),
{
    match id {
        Some(n) => u64_to_dec(n as u64),
        None => {
            let r = String::from_str("NULL");
            proof {
                reveal_strlit("NULL");
            }
            r
        },
    }
}

/// A node: one selectable option of a fixed-list field.
#[derive(Clone, Debug, Default, PartialEq)]
pub struct Node {
    /// The node's own id.
    pub node_id: u32,
    /// The option's value as stored.
    pub name: String,
    /// The option's value in the active language.
    pub translated_name: Option<String>,
    /// Parent node, for a category tree.
    pub parent: Option<u32>,
    /// Position among its siblings.
    pub order_by: u32,
    /// Whether the option is selectable.
    pub active: bool,
    /// The field this node belongs to; absent from `get_field_options`.
    pub resource_type_field: Option<u32>,
}

/// The options of a fixed-list field: full node records when `nodeinfo`
/// was asked for, the option names otherwise.
#[derive(Clone, Debug, PartialEq)]
pub enum FieldOptions {
    Nodes(Vec<Node>),
    Names(Vec<String>),
}

/// Parameters of `toggle_active_state_for_nodes`.
#[non_exhaustive]
#[derive(Clone, Debug, PartialEq)]
pub struct ToggleActiveStatesForNodesRequest {
    /// The nodes whose active state flips; sent as a JSON array.
    pub node_ids: Vec<u32>,
}

impl ToggleActiveStatesForNodesRequest {
    /// A request for the given nodes.
    pub fn new(node_ids: List<u32>) -> (r: Self)
        ensures
            r.node_ids@ == node_ids@,
    {
        Self { node_ids: node_ids.into_inner() }
    }
}

impl ApiParams for ToggleActiveStatesForNodesRequest {
    open spec fn spec_params(&self) -> Seq<ParamView> {
        param("refs"@, json_array(dec_items(self.node_ids@)))
    }

    fn to_params(&self) -> (r: Params) {
        let mut p = Params::new();
        p.push_text("refs", json_u32_array(&self.node_ids));
        p
    }
}

/// Parameters of `update_field`: sets one metadata field of a resource.
#[non_exhaustive]
#[derive(Clone, Debug, PartialEq)]
pub struct UpdateFieldRequest {
    /// The resource to update.
    pub resource: u32,
    /// The field to set.
    pub field: FieldIdentifier,
    /// The new value.
    pub value: FieldValue,
}

impl UpdateFieldRequest {
    /// A request that sets `field` of `resource` to `value`.
    pub fn new(resource: u32, field: FieldIdentifier, value: FieldValue) -> (r: Self)
        ensures
            r == (Self { resource, field, value }),
    {
        Self { resource, field, value }
    }
}

/// `resource`, `field` and the value's text; a list of node ids also sends
/// `nodevalues=true`, so that the server reads the value as node ids.
impl ApiParams for UpdateFieldRequest {
    open spec fn spec_params(&self) -> Seq<ParamView> {
        param("resource"@, self.resource.wire()) + param("field"@, self.field.wire()) + param(
            "value"@,
            field_value_wire(self.value),
        ) + if self.value is Nodes {
            param("nodevalues"@, true.wire())
        } else {
            Seq::empty()
        }
    }

    fn to_params(&self) -> (r: Params) {
        let mut p = Params::new();
        p.push("resource", &self.resource);
        p.push("field", &self.field);
        p.push_text("value", self.value.to_wire_string());
        if self.value.is_nodes() {
            p.push("nodevalues", &true);
        }
        p
    }
}

/// Parameters of `get_field_options`: the options of a fixed-list field.
#[non_exhaustive]
#[derive(Clone, Debug, PartialEq)]
pub struct GetFieldOptionsRequest {
    /// The id or shortname of the field.
    pub field: FieldIdentifier,
    /// Whether to return full node records rather than option names.
    pub nodeinfo: Option<bool>,
}

impl GetFieldOptionsRequest {
    /// A request with the given parameters; the optional ones are left unset.
    pub fn new(field: FieldIdentifier) -> (r: Self)
        ensures
            r == (Self { field, nodeinfo: None }),
    {
        Self { field, nodeinfo: None }
    }

    /// Sets [`Self::nodeinfo`].
    pub fn nodeinfo(self, nodeinfo: bool) -> (r: Self)
        ensures
            r == (Self { nodeinfo: Some(nodeinfo), ..self }),
    {
        Self { nodeinfo: Some(nodeinfo), ..self }
    }
}

impl ApiParams for GetFieldOptionsRequest {
    open spec fn spec_params(&self) -> Seq<ParamView> {
        param("ref"@, self.field.wire())
            + opt_param("nodeinfo"@, opt_wire(self.nodeinfo))
    }

    fn to_params(&self) -> (r: Params) {
        let mut p = Params::new();
        p.push("ref", &self.field);
        p.push_opt("nodeinfo", &self.nodeinfo);
        p
    }
}

/// Parameters of `get_node_id`: the id of a node found by name.
#[non_exhaustive]
#[derive(Clone, Debug, PartialEq)]
pub struct GetNodeIdRequest {
    /// The name of the node to look up.
    pub value: String,
    /// The field the node belongs to.
    pub resource_type_field: u32,
}

impl GetNodeIdRequest {
    /// A request with the given parameters.
    pub fn new(value: String, resource_type_field: u32) -> (r: Self)
        ensures
            r == (Self { value, resource_type_field }),
    {
        Self { value, resource_type_field }
    }
}

impl ApiParams for GetNodeIdRequest {
    open spec fn spec_params(&self) -> Seq<ParamView> {
        param("value"@, self.value.wire())
            + param("resource_type_field"@, self.resource_type_field.wire())
    }

    fn to_params(&self) -> (r: Params) {
        let mut p = Params::new();
        p.push("value", &self.value);
        p.push("resource_type_field", &self.resource_type_field);
        p
    }
}

/// Parameters of `get_nodes`: the nodes of a field.
#[non_exhaustive]
#[derive(Clone, Debug, PartialEq)]
pub struct GetNodesRequest {
    /// The field to list nodes of.
    pub field_id: u32,
    /// Only children of this node.
    pub parent: Option<u32>,
    /// Whether to list all descendants.
    pub recursive: Option<bool>,
    /// Number of nodes to skip.
    pub offset: Option<u32>,
    /// Largest number of nodes to return.
    pub rows: Option<u32>,
    /// Only nodes whose name matches.
    pub name: Option<String>,
    /// Whether to count the resources using each node.
    pub use_count: Option<bool>,
    /// Whether to order by the translated name.
    pub order_by_translated_name: Option<bool>,
}

impl GetNodesRequest {
    /// A request with the given parameters; the optional ones are left unset.
    pub fn new(field_id: u32) -> (r: Self)
        ensures
            r == (Self {
                field_id,
                parent: None,
                recursive: None,
                offset: None,
                rows: None,
                name: None,
                use_count: None,
                order_by_translated_name: None,
            }),
    {
        Self {
            field_id,
            parent: None,
            recursive: None,
            offset: None,
            rows: None,
            name: None,
            use_count: None,
            order_by_translated_name: None,
        }
    }

    /// Sets [`Self::parent`].
    pub fn parent(self, parent: u32) -> (r: Self)
        ensures
            r == (Self { parent: Some(parent), ..self }),
    {
        Self { parent: Some(parent), ..self }
    }

    /// Sets [`Self::recursive`].
    pub fn recursive(self, recursive: bool) -> (r: Self)
        ensures
            r == (Self { recursive: Some(recursive), ..self }),
    {
        Self { recursive: Some(recursive), ..self }
    }

    /// Sets [`Self::offset`].
    pub fn offset(self, offset: u32) -> (r: Self)
        ensures
            r == (Self { offset: Some(offset), ..self }),
    {
        Self { offset: Some(offset), ..self }
    }

    /// Sets [`Self::rows`].
    pub fn rows(self, rows: u32) -> (r: Self)
        ensures
            r == (Self { rows: Some(rows), ..self }),
    {
        Self { rows: Some(rows), ..self }
    }

    /// Sets [`Self::name`].
    pub fn name(self, name: String) -> (r: Self)
        ensures
            r == (Self { name: Some(name), ..self }),
    {
        Self { name: Some(name), ..self }
    }

    /// Sets [`Self::use_count`].
    pub fn use_count(self, use_count: bool) -> (r: Self)
        ensures
            r == (Self { use_count: Some(use_count), ..self }),
    {
        Self { use_count: Some(use_count), ..self }
    }

    /// Sets [`Self::order_by_translated_name`].
    pub fn order_by_translated_name(self, order_by_translated_name: bool) -> (r: Self)
        ensures
            r == (Self { order_by_translated_name: Some(order_by_translated_name), ..self }),
    {
        Self { order_by_translated_name: Some(order_by_translated_name), ..self }
    }
}

impl ApiParams for GetNodesRequest {
    open spec fn spec_params(&self) -> Seq<ParamView> {
        param("ref"@, self.field_id.wire())
            + opt_param("parent"@, opt_wire(self.parent))
            + opt_param("recursive"@, opt_wire(self.recursive))
            + opt_param("offset"@, opt_wire(self.offset))
            + opt_param("rows"@, opt_wire(self.rows))
            + opt_param("name"@, opt_wire(self.name))
            + opt_param("use_count"@, opt_wire(self.use_count))
            + opt_param("order_by_translated_name"@, opt_wire(self.order_by_translated_name))
    }

    fn to_params(&self) -> (r: Params) {
        let mut p = Params::new();
        p.push("ref", &self.field_id);
        p.push_opt("parent", &self.parent);
        p.push_opt("recursive", &self.recursive);
        p.push_opt("offset", &self.offset);
        p.push_opt("rows", &self.rows);
        p.push_opt("name", &self.name);
        p.push_opt("use_count", &self.use_count);
        p.push_opt("order_by_translated_name", &self.order_by_translated_name);
        p
    }
}

/// Parameters of `add_resource_nodes`.
#[non_exhaustive]
#[derive(Clone, Debug, PartialEq)]
pub struct AddResourceNodesRequest {
    /// The resource to add nodes to.
    pub resource: u32,
    /// The nodes to add.
    pub nodestring: List<u32>,
}

impl AddResourceNodesRequest {
    /// A request with the given parameters.
    pub fn new(resource: u32, nodestring: List<u32>) -> (r: Self)
        ensures
            r == (Self { resource, nodestring }),
    {
        Self { resource, nodestring }
    }
}

impl ApiParams for AddResourceNodesRequest {
    open spec fn spec_params(&self) -> Seq<ParamView> {
        param("resource"@, self.resource.wire())
            + param("nodestring"@, self.nodestring.wire())
    }

    fn to_params(&self) -> (r: Params) {
        let mut p = Params::new();
        p.push("resource", &self.resource);
        p.push("nodestring", &self.nodestring);
        p
    }
}

/// Parameters of `add_resource_nodes_multi`.
#[non_exhaustive]
#[derive(Clone, Debug, PartialEq)]
pub struct AddResourceNodesMultiRequest {
    /// The resources to add nodes to; ResourceSpace silently reads an unknown parameter name as empty, so the name matters.
    pub resource_id: List<u32>,
    /// The nodes to add to each resource.
    pub node_ids: List<u32>,
}

impl AddResourceNodesMultiRequest {
    /// A request with the given parameters.
    pub fn new(resource_id: List<u32>, node_ids: List<u32>) -> (r: Self)
        ensures
            r == (Self { resource_id, node_ids }),
    {
        Self { resource_id, node_ids }
    }
}

impl ApiParams for AddResourceNodesMultiRequest {
    open spec fn spec_params(&self) -> Seq<ParamView> {
        param("resources"@, self.resource_id.wire())
            + param("nodestring"@, self.node_ids.wire())
    }

    fn to_params(&self) -> (r: Params) {
        let mut p = Params::new();
        p.push("resources", &self.resource_id);
        p.push("nodestring", &self.node_ids);
        p
    }
}

/// Parameters of `set_node`: creates a node, or renames an existing one.
#[non_exhaustive]
#[derive(Clone, Debug, PartialEq)]
pub struct SetNodeRequest {
    /// The node to update, or `None` to create one; sent as the literal `NULL` then, which is what `set_node` matches on.
    pub node_id: Option<u32>,
    /// The field the node belongs to.
    pub resource_type_field: u32,
    /// The name of the node.
    pub name: String,
    /// The parent node, for a category tree.
    pub parent: Option<String>,
    /// Position among its siblings.
    pub order_by: Option<u32>,
    /// Whether to return an existing node of that name rather than add a duplicate.
    pub returnexisting: Option<bool>,
}

impl SetNodeRequest {
    /// A request with the given parameters; the optional ones are left unset.
    pub fn new(node_id: Option<u32>, resource_type_field: u32, name: String) -> (r: Self)
        ensures
            r == (Self {
                node_id,
                resource_type_field,
                name,
                parent: None,
                order_by: None,
                returnexisting: None,
            }),
    {
        Self {
            node_id,
            resource_type_field,
            name,
            parent: None,
            order_by: None,
            returnexisting: None,
        }
    }

    /// Sets [`Self::parent`].
    pub fn parent(self, parent: String) -> (r: Self)
        ensures
            r == (Self { parent: Some(parent), ..self }),
    {
        Self { parent: Some(parent), ..self }
    }

    /// Sets [`Self::order_by`].
    pub fn order_by(self, order_by: u32) -> (r: Self)
        ensures
            r == (Self { order_by: Some(order_by), ..self }),
    {
        Self { order_by: Some(order_by), ..self }
    }

    /// Sets [`Self::returnexisting`].
    pub fn returnexisting(self, returnexisting: bool) -> (r: Self)
        ensures
            r == (Self { returnexisting: Some(returnexisting), ..self }),
    {
        Self { returnexisting: Some(returnexisting), ..self }
    }
}

impl ApiParams for SetNodeRequest {
    open spec fn spec_params(&self) -> Seq<ParamView> {
        param("ref"@, node_ref_wire(self.node_id))
            + param("resource_type_field"@, self.resource_type_field.wire())
            + param("name"@, self.name.wire())
            + opt_param("parent"@, opt_wire(self.parent))
            + opt_param("order_by"@, opt_wire(self.order_by))
            + opt_param("returnexisting"@, opt_wire(self.returnexisting))
    }

    fn to_params(&self) -> (r: Params) {
        let mut p = Params::new();
        p.push_text("ref", node_ref_text(self.node_id));
        p.push("resource_type_field", &self.resource_type_field);
        p.push("name", &self.name);
        p.push_opt("parent", &self.parent);
        p.push_opt("order_by", &self.order_by);
        p.push_opt("returnexisting", &self.returnexisting);
        p
    }
}

/// Parameters of `get_resource_type_fields`: field definitions, optionally filtered.
#[non_exhaustive]
#[derive(Clone, Debug, PartialEq)]
pub struct GetResourceTypeFieldsRequest {
    /// Only fields of these resource types.
    pub resource_type_ids: Option<List<u32>>,
    /// Only fields whose name matches.
    pub find: Option<String>,
    /// Only fields of these field types.
    pub field_type_ids: Option<List<u32>>,
}

impl GetResourceTypeFieldsRequest {
    /// A request with no filter.
    pub fn new() -> (r: Self)
        ensures
            r == (Self { resource_type_ids: None, find: None, field_type_ids: None }),
    {
        Self { resource_type_ids: None, find: None, field_type_ids: None }
    }

    /// Sets [`Self::resource_type_ids`].
    pub fn resource_type_ids(self, resource_type_ids: List<u32>) -> (r: Self)
        ensures
            r == (Self { resource_type_ids: Some(resource_type_ids), ..self }),
    {
        Self { resource_type_ids: Some(resource_type_ids), ..self }
    }

    /// Sets [`Self::find`].
    pub fn find(self, find: String) -> (r: Self)
        ensures
            r == (Self { find: Some(find), ..self }),
    {
        Self { find: Some(find), ..self }
    }

    /// Sets [`Self::field_type_ids`].
    pub fn field_type_ids(self, field_type_ids: List<u32>) -> (r: Self)
        ensures
            r == (Self { field_type_ids: Some(field_type_ids), ..self }),
    {
        Self { field_type_ids: Some(field_type_ids), ..self }
    }
}

impl Default for GetResourceTypeFieldsRequest {
    fn default() -> (r: Self)
        ensures
            r == (Self { resource_type_ids: None, find: None, field_type_ids: None }),
    {
        Self::new()
    }
}

impl ApiParams for GetResourceTypeFieldsRequest {
    open spec fn spec_params(&self) -> Seq<ParamView> {
        opt_param("by_resource_types"@, opt_wire(self.resource_type_ids))
            + opt_param("find"@, opt_wire(self.find))
            + opt_param("by_types"@, opt_wire(self.field_type_ids))
    }

    fn to_params(&self) -> (r: Params) {
        let mut p = Params::new();
        p.push_opt("by_resource_types", &self.resource_type_ids);
        p.push_opt("find", &self.find);
        p.push_opt("by_types", &self.field_type_ids);
        p
    }
}

/// Parameters of `create_resource_type_field`.
#[non_exhaustive]
#[derive(Clone, Debug, PartialEq)]
pub struct CreateResourceTypeFieldRequest {
    /// The name of the new field.
    pub name: String,
    /// The resource types the field applies to.
    pub resource_type_ids: List<u32>,
    /// The field type, one of ResourceSpace's `FIELD_TYPE_*` numbers.
    pub kind: String,
}

impl CreateResourceTypeFieldRequest {
    /// A request with the given parameters.
    pub fn new(name: String, resource_type_ids: List<u32>, kind: String) -> (r: Self)
        ensures
            r == (Self { name, resource_type_ids, kind }),
    {
        Self { name, resource_type_ids, kind }
    }
}

impl ApiParams for CreateResourceTypeFieldRequest {
    open spec fn spec_params(&self) -> Seq<ParamView> {
        param("name"@, self.name.wire())
            + param("resource_types"@, self.resource_type_ids.wire())
            + param("type"@, self.kind.wire())
    }

    fn to_params(&self) -> (r: Params) {
        let mut p = Params::new();
        p.push("name", &self.name);
        p.push("resource_types", &self.resource_type_ids);
        p.push("type", &self.kind);
        p
    }
}

} // verus!
