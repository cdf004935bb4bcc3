//! Requests of the plugin endpoints: consent manager, license manager and
//! faces.

use vstd::prelude::*;

use crate::api::ApiParams;
use crate::wire::{bool_digit, byte_params, opt_param, opt_wire, param, push_bytes, ParamView, Params, WireValue};

verus! {

/// Parameters of `consentmanager_get_consents`: the consents linked to a resource.
#[derive(Clone, Debug, PartialEq, Eq)]
pub struct ConsentManagerGetConsents {
    /// The resource.
    pub resource: u32,
}

impl ConsentManagerGetConsents {
    /// A request with the given parameters.
    pub fn new(resource: u32) -> (r: Self)
        ensures
            r == (Self { resource }),
    {
        Self { resource }
    }
}

impl ApiParams for ConsentManagerGetConsents {
    open spec fn spec_params(&self) -> Seq<ParamView> {
        param("ref"@, self.resource.wire())
    }

    fn to_params(&self) -> (r: Params) {
        let mut p = Params::new();
        p.push("ref", &self.resource);
        p
    }
}

/// Parameters of `licensemanager_get_licenses`.
#[derive(Clone, Debug, PartialEq, Eq)]
pub struct LicenseManagerGetLicenses {
    /// The resource.
    pub resource: u32,
}

impl LicenseManagerGetLicenses {
    /// A request with the given parameters.
    pub fn new(resource: u32) -> (r: Self)
        ensures
            r == (Self { resource }),
    {
        Self { resource }
    }
}

impl ApiParams for LicenseManagerGetLicenses {
    open spec fn spec_params(&self) -> Seq<ParamView> {
        param("resource"@, self.resource.wire())
    }

    fn to_params(&self) -> (r: Params) {
        let mut p = Params::new();
        p.push("resource", &self.resource);
        p
    }
}

/// Parameters of `consentmanager_get_consent`.
#[derive(Clone, Debug, PartialEq, Eq)]
pub struct ConsentManagerGetConsent {
    /// The consent record.
    pub consent: u32,
}

impl ConsentManagerGetConsent {
    /// A request with the given parameters.
    pub fn new(consent: u32) -> (r: Self)
        ensures
            r == (Self { consent }),
    {
        Self { consent }
    }
}

impl ApiParams for ConsentManagerGetConsent {
    open spec fn spec_params(&self) -> Seq<ParamView> {
        param("consent"@, self.consent.wire())
    }

    fn to_params(&self) -> (r: Params) {
        let mut p = Params::new();
        p.push("consent", &self.consent);
        p
    }
}

/// Parameters of `consentmanager_delete_consent`.
#[derive(Clone, Debug, PartialEq, Eq)]
pub struct ConsentManagerDeleteConsent {
    /// The consent record.
    pub consent: u32,
}

impl ConsentManagerDeleteConsent {
    /// A request with the given parameters.
    pub fn new(consent: u32) -> (r: Self)
        ensures
            r == (Self { consent }),
    {
        Self { consent }
    }
}

impl ApiParams for ConsentManagerDeleteConsent {
    open spec fn spec_params(&self) -> Seq<ParamView> {
        param("ref"@, self.consent.wire())
    }

    fn to_params(&self) -> (r: Params) {
        let mut p = Params::new();
        p.push("ref", &self.consent);
        p
    }
}

/// Parameters of `consentmanager_batch_link_unlink`: links a consent to, or unlinks it from, every resource of a collection.
#[derive(Clone, Debug, PartialEq, Eq)]
pub struct ConsentManagerBatchLinkUnlink {
    /// The consent record.
    pub consent: u32,
    /// The collection.
    pub collection: u32,
    /// Whether to unlink rather than link; sent as `1` or `0`.
    pub unlink: bool,
}

impl ConsentManagerBatchLinkUnlink {
    /// A request with the given parameters.
    pub fn new(consent: u32, collection: u32, unlink: bool) -> (r: Self)
        ensures
            r == (Self { consent, collection, unlink }),
    {
        Self { consent, collection, unlink }
    }
}

impl ApiParams for ConsentManagerBatchLinkUnlink {
    open spec fn spec_params(&self) -> Seq<ParamView> {
        param("consent"@, self.consent.wire())
            + param("collection"@, self.collection.wire())
            + param("unlink"@, bool_digit(self.unlink))
    }

    fn to_params(&self) -> (r: Params) {
        let mut p = Params::new();
        p.push("consent", &self.consent);
        p.push("collection", &self.collection);
        p.push_flag("unlink", self.unlink);
        p
    }
}

/// Parameters of `consentmanager_link_consent`.
#[derive(Clone, Debug, PartialEq, Eq)]
pub struct ConsentManagerLinkConsent {
    /// The consent record.
    pub consent: u32,
    /// The resource.
    pub resource: u32,
}

impl ConsentManagerLinkConsent {
    /// A request with the given parameters.
    pub fn new(consent: u32, resource: u32) -> (r: Self)
        ensures
            r == (Self { consent, resource }),
    {
        Self { consent, resource }
    }
}

impl ApiParams for ConsentManagerLinkConsent {
    open spec fn spec_params(&self) -> Seq<ParamView> {
        param("consent"@, self.consent.wire())
            + param("resource"@, self.resource.wire())
    }

    fn to_params(&self) -> (r: Params) {
        let mut p = Params::new();
        p.push("consent", &self.consent);
        p.push("resource", &self.resource);
        p
    }
}

/// Parameters of `consentmanager_unlink_consent`.
#[derive(Clone, Debug, PartialEq, Eq)]
pub struct ConsentManagerUnlinkConsent {
    /// The consent record.
    pub consent: u32,
    /// The resource.
    pub resource: u32,
}

impl ConsentManagerUnlinkConsent {
    /// A request with the given parameters.
    pub fn new(consent: u32, resource: u32) -> (r: Self)
        ensures
            r == (Self { consent, resource }),
    {
        Self { consent, resource }
    }
}

impl ApiParams for ConsentManagerUnlinkConsent {
    open spec fn spec_params(&self) -> Seq<ParamView> {
        param("consent"@, self.consent.wire())
            + param("resource"@, self.resource.wire())
    }

    fn to_params(&self) -> (r: Params) {
        let mut p = Params::new();
        p.push("consent", &self.consent);
        p.push("resource", &self.resource);
        p
    }
}

/// Parameters of `consentmanager_create_consent`.
#[derive(Clone, Debug, PartialEq, Eq)]
pub struct ConsentManagerCreateConsent {
    /// Name of the person giving consent.
    pub name: String,
    /// Their e-mail address.
    pub email: String,
    /// Their telephone number.
    pub telephone: String,
    /// The usages consented to.
    pub consent_usage: String,
    /// Notes.
    pub notes: Option<String>,
    /// Expiry date.
    pub expires: Option<String>,
}

impl ConsentManagerCreateConsent {
    /// A request with the given parameters; the optional ones are left unset.
    pub fn new(name: String, email: String, telephone: String, consent_usage: String) -> (r: Self)
        ensures
            r == (Self {
                name,
                email,
                telephone,
                consent_usage,
                notes: None,
                expires: None,
            }),
    {
        Self {
            name,
            email,
            telephone,
            consent_usage,
            notes: None,
            expires: None,
        }
    }

    /// Sets [`Self::notes`].
    pub fn notes(self, notes: String) -> (r: Self)
        ensures
            r == (Self { notes: Some(notes), ..self }),
    {
        Self { notes: Some(notes), ..self }
    }

    /// Sets [`Self::expires`].
    pub fn expires(self, expires: String) -> (r: Self)
        ensures
            r == (Self { expires: Some(expires), ..self }),
    {
        Self { expires: Some(expires), ..self }
    }
}

impl ApiParams for ConsentManagerCreateConsent {
    open spec fn spec_params(&self) -> Seq<ParamView> {
        param("name"@, self.name.wire())
            + param("email"@, self.email.wire())
            + param("telephone"@, self.telephone.wire())
            + param("consent_usage"@, self.consent_usage.wire())
            + opt_param("notes"@, opt_wire(self.notes))
            + opt_param("expires"@, opt_wire(self.expires))
    }

    fn to_params(&self) -> (r: Params) {
        let mut p = Params::new();
        p.push("name", &self.name);
        p.push("email", &self.email);
        p.push("telephone", &self.telephone);
        p.push("consent_usage", &self.consent_usage);
        p.push_opt("notes", &self.notes);
        p.push_opt("expires", &self.expires);
        p
    }
}

/// Parameters of `consentmanager_update_consent`.
#[derive(Clone, Debug, PartialEq, Eq)]
pub struct ConsentManagerUpdateConsent {
    /// The consent record.
    pub consent: u32,
    /// Name of the person giving consent.
    pub name: String,
    /// Their e-mail address.
    pub email: String,
    /// Their telephone number.
    pub telephone: String,
    /// The usages consented to.
    pub consent_usage: String,
    /// Notes.
    pub notes: Option<String>,
    /// Expiry date.
    pub expires: Option<String>,
}

impl ConsentManagerUpdateConsent {
    /// A request with the given parameters; the optional ones are left unset.
    pub fn new(consent: u32, name: String, email: String, telephone: String, consent_usage: String) -> (r: Self)
        ensures
            r == (Self {
                consent,
                name,
                email,
                telephone,
                consent_usage,
                notes: None,
                expires: None,
            }),
    {
        Self {
            consent,
            name,
            email,
            telephone,
            consent_usage,
            notes: None,
            expires: None,
        }
    }

    /// Sets [`Self::notes`].
    pub fn notes(self, notes: String) -> (r: Self)
        ensures
            r == (Self { notes: Some(notes), ..self }),
    {
        Self { notes: Some(notes), ..self }
    }

    /// Sets [`Self::expires`].
    pub fn expires(self, expires: String) -> (r: Self)
        ensures
            r == (Self { expires: Some(expires), ..self }),
    {
        Self { expires: Some(expires), ..self }
    }
}

impl ApiParams for ConsentManagerUpdateConsent {
    open spec fn spec_params(&self) -> Seq<ParamView> {
        param("consent"@, self.consent.wire())
            + param("name"@, self.name.wire())
            + param("email"@, self.email.wire())
            + param("telephone"@, self.telephone.wire())
            + param("consent_usage"@, self.consent_usage.wire())
            + opt_param("notes"@, opt_wire(self.notes))
            + opt_param("expires"@, opt_wire(self.expires))
    }

    fn to_params(&self) -> (r: Params) {
        let mut p = Params::new();
        p.push("consent", &self.consent);
        p.push("name", &self.name);
        p.push("email", &self.email);
        p.push("telephone", &self.telephone);
        p.push("consent_usage", &self.consent_usage);
        p.push_opt("notes", &self.notes);
        p.push_opt("expires", &self.expires);
        p
    }
}

/// Parameters of `consentmanager_get_all_consents`.
#[derive(Clone, Debug, PartialEq, Eq)]
pub struct ConsentManagerGetAllConsents {
    /// Text to match consents against.
    pub findtext: Option<String>,
}

impl ConsentManagerGetAllConsents {
    /// A request with no filter.
    pub fn new() -> (r: Self)
        ensures
            r == (Self { findtext: None }),
    {
        Self { findtext: None }
    }

    /// Sets [`Self::findtext`].
    pub fn findtext(self, findtext: String) -> (r: Self)
        ensures
            r == (Self { findtext: Some(findtext), ..self }),
    {
        Self { findtext: Some(findtext), ..self }
    }
}

impl Default for ConsentManagerGetAllConsents {
    fn default() -> (r: Self)
        ensures
            r == (Self { findtext: None }),
    {
        Self::new()
    }
}

impl ApiParams for ConsentManagerGetAllConsents {
    open spec fn spec_params(&self) -> Seq<ParamView> {
        opt_param("findtext"@, opt_wire(self.findtext))
    }

    fn to_params(&self) -> (r: Params) {
        let mut p = Params::new();
        p.push_opt("findtext", &self.findtext);
        p
    }
}

/// Parameters of `consentmanager_get_all_consents_by_collection`.
#[derive(Clone, Debug, PartialEq, Eq)]
pub struct ConsentManagerGetAllConsentsByCollection {
    /// The collection.
    pub collection: u32,
}

impl ConsentManagerGetAllConsentsByCollection {
    /// A request with the given parameters.
    pub fn new(collection: u32) -> (r: Self)
        ensures
            r == (Self { collection }),
    {
        Self { collection }
    }
}

impl ApiParams for ConsentManagerGetAllConsentsByCollection {
    open spec fn spec_params(&self) -> Seq<ParamView> {
        param("collection"@, self.collection.wire())
    }

    fn to_params(&self) -> (r: Params) {
        let mut p = Params::new();
        p.push("collection", &self.collection);
        p
    }
}

/// Parameters of `consentmanager_save_file`: adds or replaces the file of a consent record.
#[derive(Clone, Debug, PartialEq, Eq)]
pub struct ConsentManagerSaveFile {
    /// The consent record.
    pub consent: u32,
    /// Name of the file.
    pub filename: String,
    /// The file's bytes; each is sent as an indexed parameter, `filedata[0]`, `filedata[1]`, and so on.
    pub filedata: Vec<u8>,
}

impl ConsentManagerSaveFile {
    /// A request with the given parameters.
    pub fn new(consent: u32, filename: String, filedata: Vec<u8>) -> (r: Self)
        ensures
            r == (Self { consent, filename, filedata }),
    {
        Self { consent, filename, filedata }
    }
}

impl ApiParams for ConsentManagerSaveFile {
    open spec fn spec_params(&self) -> Seq<ParamView> {
        param("consent"@, self.consent.wire())
            + param("filename"@, self.filename.wire())
            + byte_params("filedata"@, self.filedata@)
    }

    fn to_params(&self) -> (r: Params) {
        let mut p = Params::new();
        p.push("consent", &self.consent);
        p.push("filename", &self.filename);
        push_bytes(&mut p, "filedata", &self.filedata);
        p
    }
}

/// Parameters of `faces_set_node`: names a detected face by a node.
#[derive(Clone, Debug, PartialEq, Eq)]
pub struct FacesSetNode {
    /// The resource.
    pub resource: u32,
    /// The face.
    pub face: u32,
    /// The node to assign to it.
    pub node: u32,
}

impl FacesSetNode {
    /// A request with the given parameters.
    pub fn new(resource: u32, face: u32, node: u32) -> (r: Self)
        ensures
            r == (Self { resource, face, node }),
    {
        Self { resource, face, node }
    }
}

impl ApiParams for FacesSetNode {
    open spec fn spec_params(&self) -> Seq<ParamView> {
        param("resource"@, self.resource.wire())
            + param("face"@, self.face.wire())
            + param("node"@, self.node.wire())
    }

    fn to_params(&self) -> (r: Params) {
        let mut p = Params::new();
        p.push("resource", &self.resource);
        p.push("face", &self.face);
        p.push("node", &self.node);
        p
    }
}

/// The same parameters under the name the endpoint methods use.
pub type ConsentManagerGetConsentsRequest = ConsentManagerGetConsents;

/// The same parameters under the name the endpoint methods use.
pub type LicenseManagerGetLicensesRequest = LicenseManagerGetLicenses;

/// The same parameters under the name the endpoint methods use.
pub type ConsentManagerGetConsentRequest = ConsentManagerGetConsent;

/// The same parameters under the name the endpoint methods use.
pub type ConsentManagerDeleteConsentRequest = ConsentManagerDeleteConsent;

/// The same parameters under the name the endpoint methods use.
pub type ConsentManagerBatchLinkUnlinkRequest = ConsentManagerBatchLinkUnlink;

/// The same parameters under the name the endpoint methods use.
pub type ConsentManagerLinkConsentRequest = ConsentManagerLinkConsent;

/// The same parameters under the name the endpoint methods use.
pub type ConsentManagerUnlinkConsentRequest = ConsentManagerUnlinkConsent;

/// The same parameters under the name the endpoint methods use.
pub type ConsentManagerCreateConsentRequest = ConsentManagerCreateConsent;

/// The same parameters under the name the endpoint methods use.
pub type ConsentManagerUpdateConsentRequest = ConsentManagerUpdateConsent;

/// The same parameters under the name the endpoint methods use.
pub type ConsentManagerGetAllConsentsRequest = ConsentManagerGetAllConsents;

/// The same parameters under the name the endpoint methods use.
pub type ConsentManagerGetAllConsentsByCollectionRequest = ConsentManagerGetAllConsentsByCollection;

/// The same parameters under the name the endpoint methods use.
pub type ConsentManagerSaveFileRequest = ConsentManagerSaveFile;

/// The same parameters under the name the endpoint methods use.
pub type FacesSetNodeRequest = FacesSetNode;

} // verus!
