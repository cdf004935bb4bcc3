use resourcespace_client::client::{
    api_url, check_upload_reply, classify_reply, default_user_agent, login_query, login_reply_from,
    parse_login_reply, parse_method, prepare_request, Auth, ClientBuilder, HttpMethod, Reply,
};
use resourcespace_client::json::{is_json, json_string};
use resourcespace_client::signing::sign;
use resourcespace_client::text::{parse_u32, parse_u64, trim, trim_matches, u64_to_dec};
use resourcespace_client::wire::{encode_query, Params};
use resourcespace_client::Error;

fn params(items: &[(&str, &str)]) -> Params {
    let mut p = Params::new();
    for (k, v) in items {
        p.push_text(k, v.to_string());
    }
    p
}

#[test]
fn sign_is_hex_sha256_of_key_then_query() {
    assert_eq!(
        sign("secretkey", "user=admin&function=get_resource_data&resource=42"),
        "0eb478b4487fb05d4994aa4acca7619eef2507dfd70e8b3a877286c165af5543"
    );
    assert_eq!(sign("", ""), "e3b0c44298fc1c149afbf4c8996fb92427ae41e4649b934ca495991b7852b855");
}

#[test]
fn query_is_form_encoded() {
    let p = params(&[("user", "jo e"), ("function", "do_search"), ("search", "café & bar")]);
    assert_eq!(encode_query(&p), "user=jo%20e&function=do_search&search=caf%C3%A9%20%26%20bar");
    let q = params(&[("a*b", "x-y.z_~+="), ("k", "")]);
    assert_eq!(encode_query(&q), "a*b=x-y.z_%7E%2B%3D&k=");
    assert_eq!(encode_query(&Params::new()), "");
}

#[test]
fn prepare_request_user_key() {
    let auth = Auth::UserKey { user: "admin".to_string(), key: "secretkey".to_string() };
    let r = prepare_request(&auth, "get_resource_data", &params(&[("resource", "42")]));
    assert_eq!(r.user, "admin");
    assert_eq!(r.query, "user=admin&function=get_resource_data&resource=42");
    assert_eq!(r.signature, "0eb478b4487fb05d4994aa4acca7619eef2507dfd70e8b3a877286c165af5543");
    assert_eq!(r.authmode, "userkey");
    assert_eq!(
        r.get_query(),
        "user=admin&function=get_resource_data&resource=42&sign=0eb478b4487fb05d4994aa4acca7619eef2507dfd70e8b3a877286c165af5543&authmode=userkey"
    );
    let f = r.post_fields();
    assert_eq!(f.entries[0], ("user".to_string(), "admin".to_string()));
    assert_eq!(f.entries[1].0, "query");
    assert_eq!(f.entries[2].0, "sign");
    assert_eq!(f.entries[3], ("authmode".to_string(), "userkey".to_string()));
}

#[test]
fn prepare_request_session_key() {
    let auth = Auth::SessionKey { user: "jo e".to_string(), key: "k".to_string() };
    let r = prepare_request(&auth, "do_search", &params(&[("search", "café & bar")]));
    assert_eq!(r.query, "user=jo%20e&function=do_search&search=caf%C3%A9%20%26%20bar");
    assert_eq!(r.signature, "312c5a189e00ff29b6dc4f9d5694d2669be8018fa7d1fa33c76a4ebe65841a51");
    assert_eq!(r.authmode, "sessionkey");
}

#[test]
fn reply_http_error_keeps_body() {
    let p = params(&[("resource", "1")]);
    match classify_reply("delete_resource", &p, 500, "oops".to_string()) {
        Err(Error::Http { status, body }) => {
            assert_eq!(status, 500);
            assert_eq!(body, "oops");
        },
        other => panic!("unexpected {:?}", other),
    }
    assert!(matches!(classify_reply("f", &p, 199, String::new()), Err(Error::Http { .. })));
    assert!(matches!(classify_reply("f", &p, 300, String::new()), Err(Error::Http { .. })));
}

#[test]
fn reply_invalid_signature() {
    let p = Params::new();
    assert!(matches!(
        classify_reply("f", &p, 200, "  Invalid_Signature\n".to_string()),
        Err(Error::InvalidSignature)
    ));
    assert!(matches!(
        classify_reply("f", &p, 200, "Invalid signature".to_string()),
        Err(Error::InvalidSignature)
    ));
    assert!(matches!(
        classify_reply("f", &p, 200, " INVALID SIGNATURE\n".to_string()),
        Err(Error::InvalidSignature)
    ));
}

#[test]
fn reply_false_is_operation_failed_with_params() {
    let p = params(&[("resource", "9")]);
    match classify_reply("delete_resource", &p, 200, " FALSE ".to_string()) {
        Err(Error::OperationFailed { function, params }) => {
            assert_eq!(function, "delete_resource");
            assert_eq!(params, p);
        },
        other => panic!("unexpected {:?}", other),
    }
}

#[test]
fn reply_failed_prefix_is_api_error() {
    let p = Params::new();
    match classify_reply("upload_file", &p, 200, "FAILED:  file too big \n".to_string()) {
        Err(Error::Api { function, message }) => {
            assert_eq!(function, "upload_file");
            assert_eq!(message, "file too big");
        },
        other => panic!("unexpected {:?}", other),
    }
}

#[test]
fn reply_json_or_text() {
    let p = Params::new();
    assert_eq!(classify_reply("f", &p, 200, " 42\n".to_string()).unwrap(), Reply::Json("42".to_string()));
    assert_eq!(
        classify_reply("f", &p, 201, "[1, {\"a\": true}]".to_string()).unwrap(),
        Reply::Json("[1, {\"a\": true}]".to_string())
    );
    assert_eq!(classify_reply("f", &p, 200, "true".to_string()).unwrap(), Reply::Json("true".to_string()));
    assert_eq!(
        classify_reply("f", &p, 200, " hello world ".to_string()).unwrap(),
        Reply::Text("hello world".to_string())
    );
    assert_eq!(classify_reply("f", &p, 200, String::new()).unwrap(), Reply::Text(String::new()));
}

#[test]
fn upload_reply_needs_no_content() {
    assert!(check_upload_reply(204, String::new()).is_ok());
    match check_upload_reply(200, "ok".to_string()) {
        Err(Error::Http { status, body }) => {
            assert_eq!(status, 200);
            assert_eq!(body, "ok");
        },
        other => panic!("unexpected {:?}", other),
    }
}

#[test]
fn login_query_is_unsigned() {
    assert_eq!(
        login_query("admin", "p@ss word"),
        "user=admin&function=login&username=admin&password=p%40ss%20word"
    );
}

#[test]
fn login_reply_session_key_or_refusal() {
    assert_eq!(parse_login_reply("\"abc123\"\n").unwrap(), "abc123");
    assert_eq!(parse_login_reply("  abc123 ").unwrap(), "abc123");
    assert!(matches!(parse_login_reply("FALSE"), Err(Error::InvalidCredentials)));
    assert!(matches!(parse_login_reply(" False \n"), Err(Error::InvalidCredentials)));
    assert!(matches!(login_reply_from("x", "false"), Err(Error::InvalidCredentials)));
    assert_eq!(login_reply_from("\"\"k\"", "\"\"k\"").unwrap(), "k");
}

#[test]
fn method_is_get_or_post() {
    assert_eq!(parse_method("get").unwrap(), HttpMethod::Get);
    assert_eq!(parse_method("GET").unwrap(), HttpMethod::Get);
    assert_eq!(parse_method("Post").unwrap(), HttpMethod::Post);
    match parse_method("put") {
        Err(Error::Client(m)) => assert_eq!(m, "ResourceSpace only accepts GET and POST methods: put is invalid"),
        other => panic!("unexpected {:?}", other),
    }
}

#[test]
fn api_url_resolves_api_against_base() {
    assert_eq!(api_url("https://dam.example.com/").unwrap(), "https://dam.example.com/api/");
    assert_eq!(api_url("https://dam.example.com").unwrap(), "https://dam.example.com/api/");
    assert_eq!(api_url("https://dam.example.com/rs/").unwrap(), "https://dam.example.com/rs/api/");
    assert_eq!(api_url("https://dam.example.com/rs").unwrap(), "https://dam.example.com/api/");
    match api_url("not a url") {
        Err(Error::Url(m)) => assert_eq!(m, "relative URL without a base"),
        other => panic!("unexpected {:?}", other),
    }
}

#[test]
fn builder_keeps_settings() {
    let b = ClientBuilder::new()
        .timeout(std::time::Duration::from_secs(5))
        .base_url("https://dam.example.com/".to_string())
        .user_key("admin".to_string(), "k".to_string());
    assert_eq!(b.timeout, Some(std::time::Duration::from_secs(5)));
    assert_eq!(b.connect_timeout, None);
    assert_eq!(b.effective_user_agent(), "resourcespace-client/0.5.0");
    assert_eq!(b.parse_url().unwrap(), "https://dam.example.com/api/");
    match b.user_key_auth() {
        Auth::UserKey { user, key } => {
            assert_eq!(user, "admin");
            assert_eq!(key, "k");
        },
        _ => panic!("expected a user key"),
    }
    let c = ClientBuilder::new().user_agent("me/1".to_string());
    assert_eq!(c.effective_user_agent(), "me/1");
    assert_eq!(default_user_agent(), "resourcespace-client/0.5.0");
}

#[test]
fn builder_session_login() {
    let b = ClientBuilder::new()
        .session_key("admin".to_string(), "pw".to_string())
        .base_url("https://dam.example.com/".to_string());
    assert_eq!(b.login_query(), "user=admin&function=login&username=admin&password=pw");
    match b.session_auth("\"sess\"") {
        Ok(Auth::SessionKey { user, key }) => {
            assert_eq!(user, "admin");
            assert_eq!(key, "sess");
        },
        _ => panic!("expected a session key"),
    }
    assert!(matches!(b.session_auth("false"), Err(Error::InvalidCredentials)));
}

#[test]
fn json_strings_escape_like_serde_json() {
    assert_eq!(json_string("a\"b\\c\n\t\u{1}é"), "\"a\\\"b\\\\c\\n\\t\\u0001é\"");
    assert!(is_json("[1,2]"));
    assert!(is_json("\"x\""));
    assert!(!is_json("hello"));
    assert!(!is_json(""));
}

#[test]
fn decimal_round_trip() {
    for n in [0u64, 7, 10, 1234567890, u64::MAX] {
        assert_eq!(parse_u64(&u64_to_dec(n)), Some(n));
    }
    assert_eq!(parse_u64(""), None);
    assert_eq!(parse_u64("12a"), None);
    assert_eq!(parse_u64("18446744073709551616"), None);
    assert_eq!(parse_u32("4294967295"), Some(u32::MAX));
    assert_eq!(parse_u32("4294967296"), None);
}

#[test]
fn trims() {
    assert_eq!(trim("  a b \n\t"), "a b");
    assert_eq!(trim("\u{3000}x\u{a0}"), "x");
    assert_eq!(trim_matches("\"\"a\"b\"", '"'), "a\"b");
}

#[test]
fn error_messages() {
    assert_eq!(Error::Http { status: 404, body: "nope".to_string() }.message(), "HTTP error: 404: nope");
    assert_eq!(Error::InvalidCredentials.message(), "ResourceSpace returned false during login: invalid credentials");
    assert_eq!(Error::InvalidSignature.message(), "ResourceSpace returned: invalid signature");
    assert_eq!(
        Error::OperationFailed { function: "f".to_string(), params: Params::new() }.message(),
        "ResourceSpace returned false for `f`"
    );
    assert_eq!(Error::Api { function: "f".to_string(), message: "m".to_string() }.message(), "API error f: m");
    assert_eq!(Error::Validation("v".to_string()).message(), "Validation error: v");
}
