//! Users: requests and replies.

use vstd::prelude::*;

use crate::api::{ApiParams, List};
use crate::json::{json_object, json_object_text, opt_json, push_opt_json, JsonValue};
use crate::wire::{opt_flag, opt_param, opt_wire, param, ParamView, Params, WireValue};

verus! {

/// A user account, as `get_users` and `get_users_by_permission` report it.
#[derive(Clone, Debug, Default, PartialEq)]
pub struct User {
    pub user_id: u32,
    pub username: String,
    pub fullname: Option<String>,
    pub email: Option<String>,
    pub usergroup: Option<u32>,
    pub approved: bool,
    pub comments: Option<String>,
    pub created: Option<String>,
    pub groupname: Option<String>,
    pub account_expires: Option<String>,
    pub last_active: Option<String>,
    pub last_ip: Option<String>,
    pub origin: Option<String>,
    pub profile_image: Option<String>,
    pub profile_text: Option<String>,
}

/// What `get_profile_image` answers: the image's URL, or `None` when the
/// server sends an empty text because the user has no image.
pub fn profile_image_from_url(url: String) -> (r: Option<String>)
    ensures
        url@.len() == 0 ==> r is None,
        url@.len() > 0 ==> r == Some(url),
{
    if url.unicode_len() == 0 {
        None
    } else {
        Some(url)
    }
}

/// Parameters of `checkperm`.
#[non_exhaustive]
#[derive(Clone, Debug, PartialEq)]
pub struct CheckpermRequest {
    /// The permission to check.
    pub perm: String,
}

impl CheckpermRequest {
    /// A request with the given parameters.
    pub fn new(perm: String) -> (r: Self)
        ensures
            r == (Self { perm }),
    {
        Self { perm }
    }
}

impl ApiParams for CheckpermRequest {
    open spec fn spec_params(&self) -> Seq<ParamView> {
        param("perm"@, self.perm.wire())
    }

    fn to_params(&self) -> (r: Params) {
        let mut p = Params::new();
        p.push("perm", &self.perm);
        p
    }
}

/// Parameters of `get_profile_image`.
#[non_exhaustive]
#[derive(Clone, Debug, PartialEq)]
pub struct GetProfileImageRequest {
    /// The user.
    pub user: u32,
}

impl GetProfileImageRequest {
    /// A request with the given parameters.
    pub fn new(user: u32) -> (r: Self)
        ensures
            r == (Self { user }),
    {
        Self { user }
    }
}

impl ApiParams for GetProfileImageRequest {
    open spec fn spec_params(&self) -> Seq<ParamView> {
        param("param1"@, self.user.wire())
    }

    fn to_params(&self) -> (r: Params) {
        let mut p = Params::new();
        p.push("param1", &self.user);
        p
    }
}

/// Parameters of `get_users`.
#[non_exhaustive]
#[derive(Clone, Debug, PartialEq)]
pub struct GetUsersRequest {
    /// Text to match users against.
    pub find: Option<String>,
    /// Whether the username must match exactly.
    pub exact_username_match: Option<bool>,
}

impl GetUsersRequest {
    /// A request with no filter.
    pub fn new() -> (r: Self)
        ensures
            r == (Self { find: None, exact_username_match: None }),
    {
        Self { find: None, exact_username_match: None }
    }

    /// Sets [`Self::find`].
    pub fn find(self, find: String) -> (r: Self)
        ensures
            r == (Self { find: Some(find), ..self }),
    {
        Self { find: Some(find), ..self }
    }

    /// Sets [`Self::exact_username_match`].
    pub fn exact_username_match(self, exact_username_match: bool) -> (r: Self)
        ensures
            r == (Self { exact_username_match: Some(exact_username_match), ..self }),
    {
        Self { exact_username_match: Some(exact_username_match), ..self }
    }
}

impl Default for GetUsersRequest {
    fn default() -> (r: Self)
        ensures
            r == (Self { find: None, exact_username_match: None }),
    {
        Self::new()
    }
}

impl ApiParams for GetUsersRequest {
    open spec fn spec_params(&self) -> Seq<ParamView> {
        opt_param("find"@, opt_wire(self.find))
            + opt_param("exact_username_match"@, opt_wire(self.exact_username_match))
    }

    fn to_params(&self) -> (r: Params) {
        let mut p = Params::new();
        p.push_opt("find", &self.find);
        p.push_opt("exact_username_match", &self.exact_username_match);
        p
    }
}

/// Parameters of `get_users_by_permission`.
#[non_exhaustive]
#[derive(Clone, Debug, PartialEq)]
pub struct GetUsersByPermissionRequest {
    /// The permissions the users must hold.
    pub permissions: List<String>,
}

impl GetUsersByPermissionRequest {
    /// A request with the given parameters.
    pub fn new(permissions: List<String>) -> (r: Self)
        ensures
            r == (Self { permissions }),
    {
        Self { permissions }
    }
}

impl ApiParams for GetUsersByPermissionRequest {
    open spec fn spec_params(&self) -> Seq<ParamView> {
        param("permissions"@, self.permissions.wire())
    }

    fn to_params(&self) -> (r: Params) {
        let mut p = Params::new();
        p.push("permissions", &self.permissions);
        p
    }
}

/// Parameters of `mark_email_as_invalid`.
#[non_exhaustive]
#[derive(Clone, Debug, PartialEq)]
pub struct MarkEmailAsInvalidRequest {
    /// The address to mark.
    pub email: String,
}

impl MarkEmailAsInvalidRequest {
    /// A request with the given parameters.
    pub fn new(email: String) -> (r: Self)
        ensures
            r == (Self { email }),
    {
        Self { email }
    }
}

impl ApiParams for MarkEmailAsInvalidRequest {
    open spec fn spec_params(&self) -> Seq<ParamView> {
        param("email"@, self.email.wire())
    }

    fn to_params(&self) -> (r: Params) {
        let mut p = Params::new();
        p.push("email", &self.email);
        p
    }
}

/// Parameters of `new_user`.
#[non_exhaustive]
#[derive(Clone, Debug, PartialEq)]
pub struct NewUserRequest {
    /// The username of the new user.
    pub username: String,
    /// The group to put the user in.
    pub usergroup: Option<u32>,
}

impl NewUserRequest {
    /// A request with the given parameters; the optional ones are left unset.
    pub fn new(username: String) -> (r: Self)
        ensures
            r == (Self { username, usergroup: None }),
    {
        Self { username, usergroup: None }
    }

    /// Sets [`Self::usergroup`].
    pub fn usergroup(self, usergroup: u32) -> (r: Self)
        ensures
            r == (Self { usergroup: Some(usergroup), ..self }),
    {
        Self { usergroup: Some(usergroup), ..self }
    }
}

impl ApiParams for NewUserRequest {
    open spec fn spec_params(&self) -> Seq<ParamView> {
        param("username"@, self.username.wire())
            + opt_param("usergroup"@, opt_wire(self.usergroup))
    }

    fn to_params(&self) -> (r: Params) {
        let mut p = Params::new();
        p.push("username", &self.username);
        p.push_opt("usergroup", &self.usergroup);
        p
    }
}

/// Parameters of `save_user`.
#[non_exhaustive]
#[derive(Clone, Debug, PartialEq)]
pub struct SaveUserRequest {
    /// The user to update.
    pub user_id: u32,
    /// The details to set; sent as a JSON object.
    pub data: SaveUserData,
}

impl SaveUserRequest {
    /// A request with the given parameters.
    pub fn new(user_id: u32, data: SaveUserData) -> (r: Self)
        ensures
            r == (Self { user_id, data }),
    {
        Self { user_id, data }
    }
}

impl ApiParams for SaveUserRequest {
    open spec fn spec_params(&self) -> Seq<ParamView> {
        param("ref"@, self.user_id.wire())
            + param("data"@, self.data.json())
    }

    fn to_params(&self) -> (r: Params) {
        let mut p = Params::new();
        p.push("ref", &self.user_id);
        p.push_text("data", self.data.to_json());
        p
    }
}

/// The details `save_user` sets; unset ones are left out.
#[non_exhaustive]
#[derive(Clone, Debug, PartialEq)]
pub struct SaveUserData {
    /// Login name.
    pub username: Option<String>,
    /// New password.
    pub password: Option<String>,
    /// Full name.
    pub fullname: Option<String>,
    /// E-mail address.
    pub email: Option<String>,
    /// User group.
    pub usergroup: Option<u32>,
    /// IP addresses the user may log in from.
    pub ip_restrict: Option<String>,
    /// Comments on the account.
    pub comments: Option<String>,
    /// Whether to suggest a password.
    pub suggest: Option<bool>,
    /// Whether to e-mail a password reset link.
    pub emailresetlink: Option<bool>,
    /// Whether the account is approved; sent as `1` or `0`.
    pub approved: Option<bool>,
    /// When the account expires.
    pub expires: Option<String>,
}

impl SaveUserData {
    /// Details with nothing set.
    pub fn new() -> (r: Self)
        ensures
            r == (Self {
                username: None,
                password: None,
                fullname: None,
                email: None,
                usergroup: None,
                ip_restrict: None,
                comments: None,
                suggest: None,
                emailresetlink: None,
                approved: None,
                expires: None,
            }),
    {
        Self {
            username: None,
            password: None,
            fullname: None,
            email: None,
            usergroup: None,
            ip_restrict: None,
            comments: None,
            suggest: None,
            emailresetlink: None,
            approved: None,
            expires: None,
        }
    }

    /// Sets [`Self::username`].
    pub fn username(self, username: String) -> (r: Self)
        ensures
            r == (Self { username: Some(username), ..self }),
    {
        Self { username: Some(username), ..self }
    }

    /// Sets [`Self::password`].
    pub fn password(self, password: String) -> (r: Self)
        ensures
            r == (Self { password: Some(password), ..self }),
    {
        Self { password: Some(password), ..self }
    }

    /// Sets [`Self::fullname`].
    pub fn fullname(self, fullname: String) -> (r: Self)
        ensures
            r == (Self { fullname: Some(fullname), ..self }),
    {
        Self { fullname: Some(fullname), ..self }
    }

    /// Sets [`Self::email`].
    pub fn email(self, email: String) -> (r: Self)
        ensures
            r == (Self { email: Some(email), ..self }),
    {
        Self { email: Some(email), ..self }
    }

    /// Sets [`Self::usergroup`].
    pub fn usergroup(self, usergroup: u32) -> (r: Self)
        ensures
            r == (Self { usergroup: Some(usergroup), ..self }),
    {
        Self { usergroup: Some(usergroup), ..self }
    }

    /// Sets [`Self::ip_restrict`].
    pub fn ip_restrict(self, ip_restrict: String) -> (r: Self)
        ensures
            r == (Self { ip_restrict: Some(ip_restrict), ..self }),
    {
        Self { ip_restrict: Some(ip_restrict), ..self }
    }

    /// Sets [`Self::comments`].
    pub fn comments(self, comments: String) -> (r: Self)
        ensures
            r == (Self { comments: Some(comments), ..self }),
    {
        Self { comments: Some(comments), ..self }
    }

    /// Sets [`Self::suggest`].
    pub fn suggest(self, suggest: bool) -> (r: Self)
        ensures
            r == (Self { suggest: Some(suggest), ..self }),
    {
        Self { suggest: Some(suggest), ..self }
    }

    /// Sets [`Self::emailresetlink`].
    pub fn emailresetlink(self, emailresetlink: bool) -> (r: Self)
        ensures
            r == (Self { emailresetlink: Some(emailresetlink), ..self }),
    {
        Self { emailresetlink: Some(emailresetlink), ..self }
    }

    /// Sets [`Self::approved`].
    pub fn approved(self, approved: bool) -> (r: Self)
        ensures
            r == (Self { approved: Some(approved), ..self }),
    {
        Self { approved: Some(approved), ..self }
    }

    /// Sets [`Self::expires`].
    pub fn expires(self, expires: String) -> (r: Self)
        ensures
            r == (Self { expires: Some(expires), ..self }),
    {
        Self { expires: Some(expires), ..self }
    }
}

impl Default for SaveUserData {
    fn default() -> (r: Self)
        ensures
            r == (Self {
                username: None,
                password: None,
                fullname: None,
                email: None,
                usergroup: None,
                ip_restrict: None,
                comments: None,
                suggest: None,
                emailresetlink: None,
                approved: None,
                expires: None,
            }),
    {
        Self::new()
    }
}

impl SaveUserData {
    /// The members of the JSON object, in order.
    pub open spec fn spec_fields(&self) -> Seq<ParamView> {
        opt_param("username"@, opt_json(self.username))
            + opt_param("password"@, opt_json(self.password))
            + opt_param("fullname"@, opt_json(self.fullname))
            + opt_param("email"@, opt_json(self.email))
            + opt_param("usergroup"@, opt_json(self.usergroup))
            + opt_param("ip_restrict"@, opt_json(self.ip_restrict))
            + opt_param("comments"@, opt_json(self.comments))
            + opt_param("suggest"@, opt_json(self.suggest))
            + opt_param("emailresetlink"@, opt_json(self.emailresetlink))
            + opt_param("approved"@, opt_flag(self.approved))
            + opt_param("expires"@, opt_json(self.expires))
    }
}

impl JsonValue for SaveUserData {
    open spec fn json(&self) -> Seq<char> {
        json_object(self.spec_fields())
    }

    fn to_json(&self) -> (r: String) {
        let mut p = Params::new();
        push_opt_json(&mut p, "username", &self.username);
        push_opt_json(&mut p, "password", &self.password);
        push_opt_json(&mut p, "fullname", &self.fullname);
        push_opt_json(&mut p, "email", &self.email);
        push_opt_json(&mut p, "usergroup", &self.usergroup);
        push_opt_json(&mut p, "ip_restrict", &self.ip_restrict);
        push_opt_json(&mut p, "comments", &self.comments);
        push_opt_json(&mut p, "suggest", &self.suggest);
        push_opt_json(&mut p, "emailresetlink", &self.emailresetlink);
        p.push_opt_flag("approved", self.approved);
        push_opt_json(&mut p, "expires", &self.expires);
        assert(p@ =~= self.spec_fields());
        json_object_text(&p)
    }
}

} // verus!
