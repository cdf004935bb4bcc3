//! What a ResourceSpace call is made of and how its reply is read: the
//! signed request, the classification of the reply, the login exchange, and
//! the builder that gathers a client's settings.

use vstd::prelude::*;

use crate::error::Error;
use crate::json::{is_json, spec_is_json};
use crate::signing::{is_hex_lower, lemma_hex_shape, sign, spec_sha256, spec_sign};
use crate::text::{
    ascii_lower, eq_ignore_ascii_case, eq_ignore_ascii_case_exec, push_str, spec_join, spec_trim, spec_trim_matches,
    starts_with, starts_with_exec, str_equal, trim, trim_matches,
};
use crate::wire::{
    encode_query, form_encode, form_safe, lemma_read_query, query_pair, read_query, spec_query,
    ParamView, Params,
};
use vstd::utf8::{encode_utf8, is_ascii_chars};

use core::time::Duration;

verus! {

// ---------------------------------------------------------------------------
// Methods and credentials
// ---------------------------------------------------------------------------

/// The HTTP method a call is sent with.
#[derive(Clone, Copy, Debug, PartialEq, Eq, Structural)]
pub enum HttpMethod {
    /// The signed query goes in the URL.
    Get,
    /// The signed query goes in a form body.
    Post,
}

/// The message of a method other than GET or POST.
pub open spec fn method_message(method: Seq<char>) -> Seq<char> {
    "ResourceSpace only accepts GET and POST methods: "@ + method + " is invalid"@
}

/// The method named by `method`, ignoring ASCII case: `GET` or `POST`.
/// Anything else is refused, since ResourceSpace accepts no other method.
pub fn parse_method(method: &str) -> (r: Result<HttpMethod, Error>)
    ensures
        eq_ignore_ascii_case(method@, "get"@) ==> r == Ok::<HttpMethod, Error>(HttpMethod::Get),
        eq_ignore_ascii_case(method@, "post"@) ==> r == Ok::<HttpMethod, Error>(HttpMethod::Post),
        !eq_ignore_ascii_case(method@, "get"@) && !eq_ignore_ascii_case(method@, "post"@) ==> (r
            matches Err(Error::Client(m)) && m@ == method_message(method@)),
{
    proof {
        reveal_strlit("get");
        reveal_strlit("post");
    }
    if eq_ignore_ascii_case_exec(method, "get") {
        Ok(HttpMethod::Get)
    } else if eq_ignore_ascii_case_exec(method, "post") {
        Ok(HttpMethod::Post)
    } else {
        let mut m = String::from_str("ResourceSpace only accepts GET and POST methods: ");
        push_str(&mut m, method);
        push_str(&mut m, " is invalid");
        Err(Error::Client(m))
    }
}

/// How a client authenticates. An outside client has two ways: a user's
/// API key, or a session key obtained by logging in.
#[derive(Clone)]
pub enum Auth {
    /// A user and their private API key.
    UserKey { user: String, key: String },
    /// A user and the session key a login returned.
    SessionKey { user: String, key: String },
}

impl Auth {
    /// The user the calls are made as.
    pub open spec fn spec_user(&self) -> Seq<char> {
        match self {
            Auth::UserKey { user, .. } => user@,
            Auth::SessionKey { user, .. } => user@,
        }
    }

    /// The key the calls are signed with.
    pub open spec fn spec_key(&self) -> Seq<char> {
        match self {
            Auth::UserKey { key, .. } => key@,
            Auth::SessionKey { key, .. } => key@,
        }
    }

    /// The `authmode` sent along: `userkey` or `sessionkey`.
    pub open spec fn spec_authmode(&self) -> Seq<char> {
        match self {
            Auth::UserKey { .. } => "userkey"@,
            Auth::SessionKey { .. } => "sessionkey"@,
        }
    }

    /// The `authmode` sent along.
    pub fn authmode(&self) -> (r: String)
        ensures
            r@ == self.spec_authmode(),
    {
        match self {
            Auth::UserKey { .. } => String::from_str("userkey"),
            Auth::SessionKey { .. } => String::from_str("sessionkey"),
        }
    }
}

// ---------------------------------------------------------------------------
// Signed requests
// ---------------------------------------------------------------------------

/// The parameters of a call: `user`, `function`, then the endpoint's own.
pub open spec fn call_params(user: Seq<char>, function: Seq<char>, params: Seq<ParamView>) -> Seq<
    ParamView,
> {
    seq![("user"@, user), ("function"@, function)] + params
}

/// A call ready to send: its query string and the signature over it.
pub struct PreparedRequest {
    pub user: String,
    pub query: String,
    pub signature: String,
    pub authmode: String,
}

/// Prepares a call of `function`: the form-encoded query of `user`,
/// `function` and `params`, signed with the key of `auth`.
pub fn prepare_request(auth: &Auth, function: &str, params: &Params) -> (r: PreparedRequest)
    ensures
        r.user@ == auth.spec_user(),
        r.query@ == spec_query(call_params(auth.spec_user(), function@, params@)),
        r.signature@ == spec_sign(auth.spec_key(), r.query@),
        r.authmode@ == auth.spec_authmode(),
{
    let (user, key) = match auth {
        Auth::UserKey { user, key } => (user, key),
        Auth::SessionKey { user, key } => (user, key),
    };
    let mut all = Params::new();
    all.push_text("user", user.clone());
    all.push_text("function", function.to_owned());
    let n = params.len();
    let mut i: usize = 0;
    while i < n
        invariant
            i <= n,
            n == params@.len(),
            all@ =~= call_params(user@, function@, params@.take(i as int)),
        decreases n - i,
    {
        let (k, v) = params.get(i);
        all.push_text(k, v.to_owned());
        assert(params@.take(i + 1) =~= params@.take(i as int).push(params@[i as int]));
        i = i + 1;
    }
    assert(params@.take(n as int) =~= params@);
    let query = encode_query(&all);
    let signature = sign(key.as_str(), query.as_str());
    PreparedRequest { user: user.clone(), query, signature, authmode: auth.authmode() }
}

/// The query of a GET call: the signed query, then `sign` and `authmode`.
pub open spec fn spec_get_query(r: PreparedRequest) -> Seq<char> {
    r.query@ + "&sign="@ + r.signature@ + "&authmode="@ + r.authmode@
}

/// The form fields of a POST call: `user`, `query`, `sign`, `authmode`.
pub open spec fn spec_post_fields(r: PreparedRequest) -> Seq<ParamView> {
    seq![
        ("user"@, r.user@),
        ("query"@, r.query@),
        ("sign"@, r.signature@),
        ("authmode"@, r.authmode@),
    ]
}

proof fn lemma_form_encode_safe(s: Seq<char>)
    requires
        forall|i: int| 0 <= i < s.len() ==> form_safe(#[trigger] s[i]),
    ensures
        form_encode(s) == s,
    decreases s.len(),
{
    if s.len() > 0 {
        lemma_form_encode_safe(s.drop_last());
        assert(form_safe(s[s.len() - 1]));
        assert(s.drop_last().push(s.last()) =~= s);
        assert(form_encode(s) =~= s);
    } else {
        assert(form_encode(s) =~= s);
    }
}

/// The query of a signed GET call loses nothing: the server reads back
/// from it `user`, `function` and the endpoint's parameters as they were
/// written, then the signature over them and the `authmode`.
pub proof fn lemma_get_query_reads_back(auth: Auth, function: Seq<char>, params: Seq<ParamView>)
    ensures
        ({
            let ps = call_params(auth.spec_user(), function, params);
            let q = spec_query(ps);
            let sig = spec_sign(auth.spec_key(), q);
            read_query(q + "&sign="@ + sig + "&authmode="@ + auth.spec_authmode()) == ps + seq![
                ("sign"@, sig),
                ("authmode"@, auth.spec_authmode()),
            ]
        }),
{
    let ps = call_params(auth.spec_user(), function, params);
    let q = spec_query(ps);
    let sig = spec_sign(auth.spec_key(), q);
    let mode = auth.spec_authmode();
    let all = ps + seq![("sign"@, sig), ("authmode"@, mode)];
    reveal_strlit("sign");
    reveal_strlit("authmode");
    reveal_strlit("&sign=");
    reveal_strlit("&authmode=");
    reveal_strlit("userkey");
    reveal_strlit("sessionkey");
    reveal_strlit("user");
    reveal_strlit("function");
    lemma_hex_shape(spec_sha256(encode_utf8(auth.spec_key()) + encode_utf8(q)));
    assert forall|i: int| 0 <= i < sig.len() implies form_safe(#[trigger] sig[i]) by {
        assert(is_hex_lower(sig[i]));
    }
    lemma_form_encode_safe(sig);
    assert forall|i: int| 0 <= i < mode.len() implies form_safe(#[trigger] mode[i]) by {}
    lemma_form_encode_safe(mode);
    assert forall|i: int| 0 <= i < "sign"@.len() implies form_safe(#[trigger] "sign"@[i]) by {}
    lemma_form_encode_safe("sign"@);
    assert forall|i: int| 0 <= i < "authmode"@.len() implies form_safe(#[trigger] "authmode"@[i]) by {}
    lemma_form_encode_safe("authmode"@);
    let pieces = all.map_values(|p: ParamView| query_pair(p));
    let front = ps.map_values(|p: ParamView| query_pair(p));
    assert(pieces.drop_last().drop_last() =~= front);
    assert(pieces.last() =~= "authmode"@ + seq!['='] + mode);
    assert(pieces.drop_last().last() =~= "sign"@ + seq!['='] + sig);
    assert(front.len() >= 2);
    let amp = seq!['&'];
    assert(spec_join(pieces.drop_last(), amp) == spec_join(front, amp) + amp + ("sign"@ + seq![
        '=',
    ] + sig));
    assert(spec_join(pieces, amp) == spec_join(pieces.drop_last(), amp) + amp + ("authmode"@
        + seq!['='] + mode));
    assert(q == spec_join(front, amp));
    assert("&sign="@ =~= amp + "sign"@ + seq!['=']);
    assert("&authmode="@ =~= amp + "authmode"@ + seq!['=']);
    assert(spec_query(all) =~= q + "&sign="@ + sig + "&authmode="@ + mode);
    lemma_read_query(all);
}

impl PreparedRequest {
    /// The query of a GET call.
    pub fn get_query(&self) -> (r: String)
        ensures
            r@ == spec_get_query(*self),
    {
        let mut out = self.query.clone();
        push_str(&mut out, "&sign=");
        push_str(&mut out, self.signature.as_str());
        push_str(&mut out, "&authmode=");
        push_str(&mut out, self.authmode.as_str());
        out
    }

    /// The form fields of a POST call, and of the text fields of a
    /// multipart upload.
    pub fn post_fields(&self) -> (r: Params)
        ensures
            r@ == spec_post_fields(*self),
    {
        let mut p = Params::new();
        p.push_text("user", self.user.clone());
        p.push_text("query", self.query.clone());
        p.push_text("sign", self.signature.clone());
        p.push_text("authmode", self.authmode.clone());
        p
    }
}

// ---------------------------------------------------------------------------
// Replies
// ---------------------------------------------------------------------------

/// A successful reply body, trimmed.
#[derive(Clone, Debug, PartialEq)]
pub enum Reply {
    /// The body is a JSON text.
    Json(String),
    /// The body is not JSON; it stands for a JSON string of that text.
    Text(String),
}

/// Whether an HTTP status is a success (200 to 299).
pub open spec fn is_success(status: u16) -> bool {
    200 <= status && status <= 299
}

/// The text after `FAILED:`.
pub open spec fn failure_detail(trimmed: Seq<char>) -> Seq<char> {
    spec_trim(trimmed.subrange(7, trimmed.len() as int))
}

/// How a reply to a call of `function` sent with `params` is read.
/// ResourceSpace signals failure in the body as often as in the status:
/// - a status outside 200..=299 is an HTTP error carrying the body;
/// - `invalid_signature` or `Invalid signature` (any ASCII case) is a
///   refused signature;
/// - `false` (any ASCII case) is a failed operation, carrying the
///   parameters that were sent;
/// - `FAILED: <message>` is an API error with that message;
/// - anything else is the result: JSON when it parses as JSON, a plain text
///   otherwise.
/// The body is trimmed of whitespace before any of these tests.
pub open spec fn classified(
    function: Seq<char>,
    params: Seq<ParamView>,
    status: u16,
    body: Seq<char>,
    r: Result<Reply, Error>,
) -> bool {
    let t = spec_trim(body);
    if !is_success(status) {
        r matches Err(Error::Http { status: s, body: b }) && s == status && b@ == body
    } else if eq_ignore_ascii_case(t, "invalid_signature"@) || eq_ignore_ascii_case(
        t,
        "invalid signature"@,
    ) {
        r matches Err(Error::InvalidSignature)
    } else if eq_ignore_ascii_case(t, "false"@) {
        r matches Err(Error::OperationFailed { function: f, params: p }) && f@ == function && p@
            == params
    } else if starts_with(t, "FAILED:"@) {
        r matches Err(Error::Api { function: f, message: m }) && f@ == function && m@
            == failure_detail(t)
    } else if spec_is_json(t) {
        r matches Ok(Reply::Json(j)) && j@ == t
    } else {
        r matches Ok(Reply::Text(j)) && j@ == t
    }
}

/// Reads the reply to a call of `function` sent with `params`: its HTTP
/// status and its body.
pub fn classify_reply(function: &str, params: &Params, status: u16, body: String) -> (r: Result<
    Reply,
    Error,
>)
    ensures
        classified(function@, params@, status, body@, r),
{
    if !(200 <= status && status <= 299) {
        return Err(Error::Http { status, body });
    }
    let t = trim(body.as_str());
    if eq_ignore_ascii_case_exec(t, "invalid_signature") || eq_ignore_ascii_case_exec(
        t,
        "invalid signature",
    ) {
        return Err(Error::InvalidSignature);
    }
    if eq_ignore_ascii_case_exec(t, "false") {
        return Err(Error::OperationFailed { function: function.to_owned(), params: params.copy() });
    }
    if starts_with_exec(t, "FAILED:") {
        proof {
            reveal_strlit("FAILED:");
        }
        let rest = t.substring_char(7, t.unicode_len());
        let message = trim(rest);
        return Err(Error::Api { function: function.to_owned(), message: message.to_owned() });
    }
    if is_json(t) {
        Ok(Reply::Json(t.to_owned()))
    } else {
        Ok(Reply::Text(t.to_owned()))
    }
}

/// Reads the reply to a multipart upload, which answers `204 No Content`
/// when it succeeds; any other status is an HTTP error carrying the body.
pub fn check_upload_reply(status: u16, body: String) -> (r: Result<(), Error>)
    ensures
        status == 204 ==> r is Ok,
        status != 204 ==> (r matches Err(Error::Http { status: s, body: b }) && s == status && b@
            == body@),
{
    if status == 204 {
        Ok(())
    } else {
        Err(Error::Http { status, body })
    }
}

// ---------------------------------------------------------------------------
// Logging in
// ---------------------------------------------------------------------------

/// The parameters of a login: `login` is called as the user, with the
/// user's name and password; the call is not signed.
pub open spec fn login_params(user: Seq<char>, password: Seq<char>) -> Seq<ParamView> {
    call_params(user, "login"@, seq![("username"@, user), ("password"@, password)])
}

/// The query of a login call.
pub fn login_query(user: &str, password: &str) -> (r: String)
    ensures
        r@ == spec_query(login_params(user@, password@)),
{
    let mut p = Params::new();
    p.push_text("user", user.to_owned());
    p.push_text("function", String::from_str("login"));
    p.push_text("username", user.to_owned());
    p.push_text("password", password.to_owned());
    assert(p@ =~= login_params(user@, password@));
    encode_query(&p)
}

/// What `str::to_lowercase` gives for a text.
pub uninterp spec fn spec_to_lowercase(s: Seq<char>) -> Seq<char>;

/// `str::to_lowercase`: the text lower-cased by the Unicode `Lowercase`
/// mapping, which depends on the text alone. The contract names that
/// result, and states the one part of the mapping callers need: on ASCII
/// text it lower-cases letter by letter (`A`..`Z` to `a`..`z`, every other
/// ASCII character unchanged), as Unicode's mapping does for ASCII.
#[verifier::external_body]
fn to_lowercase(s: &str) -> (r: String)
    ensures
        r@ == spec_to_lowercase(s@),
        is_ascii_chars(s@) ==> r@ == s@.map_values(|c: char| ascii_lower(c)),
{
    s.to_lowercase()
}

/// What a login reply means, given the trimmed body and its lower-cased
/// form: `false` refuses the credentials; anything else is the session key,
/// with the quotes around it removed.
pub open spec fn login_outcome(trimmed: Seq<char>, lowered: Seq<char>, r: Result<String, Error>) -> bool {
    if lowered == "false"@ {
        r matches Err(Error::InvalidCredentials)
    } else {
        r matches Ok(k) && k@ == spec_trim_matches(trimmed, '"')
    }
}

/// Reads a login reply from the trimmed body and its lower-cased form.
pub fn login_reply_from(trimmed: &str, lowered: &str) -> (r: Result<String, Error>)
    ensures
        login_outcome(trimmed@, lowered@, r),
{
    if str_equal(lowered, "false") {
        Err(Error::InvalidCredentials)
    } else {
        Ok(trim_matches(trimmed, '"').to_owned())
    }
}

/// Reads the body of a login reply.
pub fn parse_login_reply(body: &str) -> (r: Result<String, Error>)
    ensures
        login_outcome(spec_trim(body@), spec_to_lowercase(spec_trim(body@)), r),
        is_ascii_chars(spec_trim(body@)) ==> (r matches Err(Error::InvalidCredentials)
            <==> eq_ignore_ascii_case(spec_trim(body@), "false"@)),
{
    let t = trim(body);
    let lowered = to_lowercase(t);
    proof {
        if is_ascii_chars(t@) {
            lemma_ascii_lower_false(t@);
        }
    }
    login_reply_from(t, lowered.as_str())
}

proof fn lemma_ascii_lower_false(t: Seq<char>)
    ensures
        (t.map_values(|c: char| ascii_lower(c)) == "false"@) <==> eq_ignore_ascii_case(t, "false"@),
{
    reveal_strlit("false");
    let l = t.map_values(|c: char| ascii_lower(c));
    if eq_ignore_ascii_case(t, "false"@) {
        assert(l =~= "false"@);
    }
    if l == "false"@ {
        assert forall|i: int| 0 <= i < t.len() implies ascii_lower(#[trigger] t[i]) == "false"@[i] by {
            assert(l[i] == ascii_lower(t[i]));
        }
    }
}

// ---------------------------------------------------------------------------
// URLs
// ---------------------------------------------------------------------------

/// What `url::Url::parse` gives for a text: the URL's normalised text, or
/// the error's message.
pub uninterp spec fn spec_url_parse(text: Seq<char>) -> Result<Seq<char>, Seq<char>>;

/// What `url::Url::join` gives for a base URL and a relative reference:
/// the joined URL's text, or the error's message.
pub uninterp spec fn spec_url_join(base: Seq<char>, relative: Seq<char>) -> Result<Seq<char>, Seq<char>>;

/// A result of texts holding the given outcome.
pub open spec fn same_outcome(r: Result<String, String>, o: Result<Seq<char>, Seq<char>>) -> bool {
    match r {
        Ok(u) => o == Ok::<Seq<char>, Seq<char>>(u@),
        Err(e) => o == Err::<Seq<char>, Seq<char>>(e@),
    }
}

/// `url::Url::parse`, with the URL handed back as its text
/// (`Url::as_str`) and the error as its message. Parsing depends on the
/// text alone; the contract names its outcome and says no more of URL
/// syntax.
#[verifier::external_body]
fn url_parse(text: &str) -> (r: Result<String, String>)
    ensures
        same_outcome(r, spec_url_parse(text@)),
{
    match url::Url::parse(text) {
        Ok(u) => Ok(u.as_str().to_owned()),
        Err(e) => Err(e.to_string()),
    }
}

/// `url::Url::join` of `relative` onto the URL whose text is `base` (as
/// `url_parse` gave it), with the result as its text and the error as its
/// message. The contract names the outcome, a function of the two texts.
#[verifier::external_body]
fn url_join(base: &str, relative: &str) -> (r: Result<String, String>)
    ensures
        same_outcome(r, spec_url_join(base@, relative@)),
{
    match url::Url::parse(base).and_then(|b| b.join(relative)) {
        Ok(u) => Ok(u.as_str().to_owned()),
        Err(e) => Err(e.to_string()),
    }
}

/// The API endpoint of an instance: its base URL with `api/` resolved
/// against it.
pub open spec fn spec_api_url(base: Seq<char>) -> Result<Seq<char>, Seq<char>> {
    match spec_url_parse(base) {
        Ok(b) => spec_url_join(b, "api/"@),
        Err(e) => Err(e),
    }
}

/// The API endpoint of the instance at `base`, or the URL error.
pub fn api_url(base: &str) -> (r: Result<String, Error>)
    ensures
        r matches Ok(u) ==> spec_api_url(base@) == Ok::<Seq<char>, Seq<char>>(u@),
        r matches Err(e) ==> (e matches Error::Url(m) && spec_api_url(base@) == Err::<
            Seq<char>,
            Seq<char>,
        >(m@)),
        r is Ok <==> spec_api_url(base@) is Ok,
{
    match url_parse(base) {
        Ok(b) => match url_join(b.as_str(), "api/") {
            Ok(u) => Ok(u),
            Err(e) => Err(Error::Url(e)),
        },
        Err(e) => Err(Error::Url(e)),
    }
}

// ---------------------------------------------------------------------------
// The client builder
// ---------------------------------------------------------------------------

/// The user agent sent when none is set: the package's name and version.
pub open spec fn spec_default_user_agent() -> Seq<char> {
    "resourcespace-client/0.5.0"@
}

/// The user agent sent when none is set.
pub fn default_user_agent() -> (r: String)
    ensures
        r@ == spec_default_user_agent(),
{
    String::from_str("resourcespace-client/0.5.0")
}

/// No base URL given yet.
#[derive(Clone, Debug, PartialEq)]
pub struct NoUrl;

/// The base URL of the instance, as given.
#[derive(Clone, Debug, PartialEq)]
pub struct WithUrl(pub String);

/// No credentials given yet.
#[derive(Clone, Debug, PartialEq)]
pub struct NoAuth;

/// A user and their private API key.
#[derive(Clone)]
pub struct WithUserKey {
    pub user: String,
    pub key: String,
}

/// A user and their password, to log in with when the client is built.
#[derive(Clone)]
pub struct WithSessionKey {
    pub user: String,
    pub password: String,
}

/// Gathers a client's settings. A client can only be built once both a base
/// URL and credentials are given; the type parameters track which are.
pub struct ClientBuilder<U, A> {
    pub base_url: U,
    pub auth: A,
    pub timeout: Option<Duration>,
    pub connect_timeout: Option<Duration>,
    pub user_agent: Option<String>,
}

impl ClientBuilder<NoUrl, NoAuth> {
    /// A builder with nothing set.
    pub fn new() -> (r: Self)
        ensures
            r == (ClientBuilder {
                base_url: NoUrl,
                auth: NoAuth,
                timeout: None,
                connect_timeout: None,
                user_agent: None,
            }),
    {
        ClientBuilder {
            base_url: NoUrl,
            auth: NoAuth,
            timeout: None,
            connect_timeout: None,
            user_agent: None,
        }
    }
}

impl<U, A> ClientBuilder<U, A> {
    /// Sets the timeout of each whole request.
    pub fn timeout(self, timeout: Duration) -> (r: Self)
        ensures
            r == (Self { timeout: Some(timeout), ..self }),
    {
        Self { timeout: Some(timeout), ..self }
    }

    /// Sets the timeout of connecting.
    pub fn connect_timeout(self, connect_timeout: Duration) -> (r: Self)
        ensures
            r == (Self { connect_timeout: Some(connect_timeout), ..self }),
    {
        Self { connect_timeout: Some(connect_timeout), ..self }
    }

    /// Sets the user agent.
    pub fn user_agent(self, user_agent: String) -> (r: Self)
        ensures
            r == (Self { user_agent: Some(user_agent), ..self }),
    {
        Self { user_agent: Some(user_agent), ..self }
    }

    /// The user agent requests are sent with: the one set, or the default.
    pub fn effective_user_agent(&self) -> (r: String)
        ensures
            r@ == match self.user_agent {
                Some(ua) => ua@,
                None => spec_default_user_agent(),
            },
    {
        match &self.user_agent {
            Some(ua) => ua.clone(),
            None => default_user_agent(),
        }
    }
}

impl<A> ClientBuilder<NoUrl, A> {
    /// Sets the base URL of the instance, e.g. `https://dam.example.com/`.
    pub fn base_url(self, url: String) -> (r: ClientBuilder<WithUrl, A>)
        ensures
            r.base_url.0 == url,
            r.auth == self.auth,
            r.timeout == self.timeout,
            r.connect_timeout == self.connect_timeout,
            r.user_agent == self.user_agent,
    {
        ClientBuilder {
            base_url: WithUrl(url),
            auth: self.auth,
            timeout: self.timeout,
            connect_timeout: self.connect_timeout,
            user_agent: self.user_agent,
        }
    }
}

impl<U> ClientBuilder<U, NoAuth> {
    /// Authenticates with a user's private API key.
    pub fn user_key(self, user: String, key: String) -> (r: ClientBuilder<U, WithUserKey>)
        ensures
            r.auth.user == user,
            r.auth.key == key,
            r.base_url == self.base_url,
            r.timeout == self.timeout,
            r.connect_timeout == self.connect_timeout,
            r.user_agent == self.user_agent,
    {
        ClientBuilder {
            base_url: self.base_url,
            auth: WithUserKey { user, key },
            timeout: self.timeout,
            connect_timeout: self.connect_timeout,
            user_agent: self.user_agent,
        }
    }

    /// Authenticates with a session key, obtained by logging in with the
    /// user's password when the client is built.
    pub fn session_key(self, user: String, password: String) -> (r: ClientBuilder<
        U,
        WithSessionKey,
    >)
        ensures
            r.auth.user == user,
            r.auth.password == password,
            r.base_url == self.base_url,
            r.timeout == self.timeout,
            r.connect_timeout == self.connect_timeout,
            r.user_agent == self.user_agent,
    {
        ClientBuilder {
            base_url: self.base_url,
            auth: WithSessionKey { user, password },
            timeout: self.timeout,
            connect_timeout: self.connect_timeout,
            user_agent: self.user_agent,
        }
    }
}

impl<A> ClientBuilder<WithUrl, A> {
    /// The API endpoint: the base URL with `api/` resolved against it.
    pub fn parse_url(&self) -> (r: Result<String, Error>)
        ensures
            r matches Ok(u) ==> spec_api_url(self.base_url.0@) == Ok::<Seq<char>, Seq<char>>(u@),
            r matches Err(e) ==> (e matches Error::Url(m) && spec_api_url(self.base_url.0@)
                == Err::<Seq<char>, Seq<char>>(m@)),
            r is Ok <==> spec_api_url(self.base_url.0@) is Ok,
    {
        api_url(self.base_url.0.as_str())
    }
}

impl ClientBuilder<WithUrl, WithUserKey> {
    /// The credentials the client signs with: the user and their key.
    pub fn user_key_auth(&self) -> (r: Auth)
        ensures
            r matches Auth::UserKey { user, key } && user == self.auth.user && key
                == self.auth.key,
    {
        Auth::UserKey { user: self.auth.user.clone(), key: self.auth.key.clone() }
    }
}

impl ClientBuilder<WithUrl, WithSessionKey> {
    /// The query of the login call made when the client is built.
    pub fn login_query(&self) -> (r: String)
        ensures
            r@ == spec_query(login_params(self.auth.user@, self.auth.password@)),
    {
        login_query(self.auth.user.as_str(), self.auth.password.as_str())
    }

    /// The credentials the client signs with, from the login reply: the
    /// user and the session key it returned; a refused login is
    /// `InvalidCredentials`.
    pub fn session_auth(&self, reply: &str) -> (r: Result<Auth, Error>)
        ensures
            spec_to_lowercase(spec_trim(reply@)) == "false"@ ==> r matches Err(
                Error::InvalidCredentials,
            ),
            is_ascii_chars(spec_trim(reply@)) ==> (r matches Err(Error::InvalidCredentials)
                <==> eq_ignore_ascii_case(spec_trim(reply@), "false"@)),
            spec_to_lowercase(spec_trim(reply@)) != "false"@ ==> (r matches Ok(
                Auth::SessionKey { user, key },
            ) && user == self.auth.user && key@ == spec_trim_matches(spec_trim(reply@), '"')),
    {
        match parse_login_reply(reply) {
            Ok(key) => Ok(Auth::SessionKey { user: self.auth.user.clone(), key }),
            Err(e) => Err(e),
        }
    }
}

} // verus!
