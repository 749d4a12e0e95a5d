use passport_login::{Captcha, Error, Json, LoginInfo, LoginKeys, LoginResult};

fn s(x: &str) -> String {
    x.to_string()
}

/// The documented challenge response `{data: {geetest: {gt, challenge}, token}}`,
/// with `drop` naming one key to leave out.
fn captcha_response(drop: &str) -> Json {
    let mut geetest: Vec<(String, Json)> = Vec::new();
    if drop != "gt" {
        geetest.push((s("gt"), Json::Str(s("g1"))));
    }
    if drop != "challenge" {
        geetest.push((s("challenge"), Json::Str(s("c1"))));
    }
    let mut data: Vec<(String, Json)> = Vec::new();
    if drop != "geetest" {
        data.push((s("geetest"), Json::Obj(geetest)));
    }
    if drop != "token" {
        data.push((s("token"), Json::Str(s("t1"))));
    }
    let mut top: Vec<(String, Json)> = Vec::new();
    if drop != "data" {
        top.push((s("data"), Json::Obj(data)));
    }
    Json::Obj(top)
}

#[test]
fn captcha_decode_complete_shape() {
    let resp = captcha_response("");
    let c = Captcha::from_response(&resp).unwrap();
    assert_eq!(c.gt, "g1");
    assert_eq!(c.challenge, "c1");
    assert_eq!(c.token, "t1");
}

#[test]
fn captcha_decode_names_missing_path() {
    for (drop, path) in [
        ("data", "data"),
        ("geetest", "data.geetest"),
        ("gt", "data.geetest.gt"),
        ("challenge", "data.geetest.challenge"),
        ("token", "data.token"),
    ] {
        let resp = captcha_response(drop);
        match Captcha::from_response(&resp) {
            Err(Error::MalformedResponse(p)) => assert_eq!(p, path),
            other => panic!("expected MalformedResponse({}), got {:?}", path, other),
        }
    }
}

#[test]
fn captcha_decode_rejects_wrongly_typed_field() {
    // `gt` present but not a string: reported under its own path.
    let geetest = vec![(s("gt"), Json::Int(3)), (s("challenge"), Json::Str(s("c1")))];
    let data = vec![(s("geetest"), Json::Obj(geetest)), (s("token"), Json::Str(s("t1")))];
    let resp = Json::Obj(vec![(s("data"), Json::Obj(data))]);
    match Captcha::from_response(&resp) {
        Err(Error::MalformedResponse(p)) => assert_eq!(p, "data.geetest.gt"),
        other => panic!("expected MalformedResponse(data.geetest.gt), got {:?}", other),
    }
}

fn keys_response(drop: &str) -> Json {
    let mut data: Vec<(String, Json)> = Vec::new();
    if drop != "hash" {
        data.push((s("hash"), Json::Str(s("h1"))));
    }
    if drop != "key" {
        data.push((s("key"), Json::Str(s("-----BEGIN PUBLIC KEY-----"))));
    }
    let mut top: Vec<(String, Json)> = Vec::new();
    if drop != "data" {
        top.push((s("data"), Json::Obj(data)));
    }
    Json::Obj(top)
}

#[test]
fn login_keys_decode_complete_shape() {
    let k = LoginKeys::from_response(&keys_response("")).unwrap();
    assert_eq!(k.hash, "h1");
    assert_eq!(k.key, "-----BEGIN PUBLIC KEY-----");
}

#[test]
fn login_keys_decode_names_missing_path() {
    for (drop, path) in [("data", "data"), ("hash", "data.hash"), ("key", "data.key")] {
        match LoginKeys::from_response(&keys_response(drop)) {
            Err(Error::MalformedResponse(p)) => assert_eq!(p, path),
            other => panic!("expected MalformedResponse({}), got {:?}", path, other),
        }
    }
}

#[test]
fn login_response_code_zero_is_success() {
    // {"code":0,"data":{"url":"https://x"}}
    let data = vec![(s("url"), Json::Str(s("https://x")))];
    let resp = Json::Obj(vec![(s("code"), Json::Int(0)), (s("data"), Json::Obj(data))]);
    match LoginResult::from_response(&resp) {
        Ok(LoginResult::Success(url)) => assert_eq!(url, "https://x"),
        other => panic!("expected Success(https://x), got {:?}", other),
    }
}

#[test]
fn login_response_nonzero_code_is_rejected() {
    // {"code":-1,"message":"密码错误"}
    let resp = Json::Obj(vec![
        (s("code"), Json::Int(-1)),
        (s("message"), Json::Str(s("密码错误"))),
    ]);
    match LoginResult::from_response(&resp) {
        Ok(LoginResult::Rejected(msg)) => assert_eq!(msg, "密码错误"),
        other => panic!("expected Rejected, got {:?}", other),
    }
}

#[test]
fn login_response_malformed_paths() {
    // No code at all.
    let resp = Json::Obj(vec![(s("message"), Json::Str(s("m")))]);
    assert!(matches!(
        LoginResult::from_response(&resp),
        Err(Error::MalformedResponse(p)) if p == "code"
    ));

    // Code present but not an integer.
    let resp = Json::Obj(vec![(s("code"), Json::Str(s("0")))]);
    assert!(matches!(
        LoginResult::from_response(&resp),
        Err(Error::MalformedResponse(p)) if p == "code"
    ));

    // Success code without a data object.
    let resp = Json::Obj(vec![(s("code"), Json::Int(0))]);
    assert!(matches!(
        LoginResult::from_response(&resp),
        Err(Error::MalformedResponse(p)) if p == "data"
    ));

    // Success code without a url.
    let resp = Json::Obj(vec![(s("code"), Json::Int(0)), (s("data"), Json::Obj(Vec::new()))]);
    assert!(matches!(
        LoginResult::from_response(&resp),
        Err(Error::MalformedResponse(p)) if p == "data.url"
    ));

    // Rejection code without a message.
    let resp = Json::Obj(vec![(s("code"), Json::Int(2))]);
    assert!(matches!(
        LoginResult::from_response(&resp),
        Err(Error::MalformedResponse(p)) if p == "message"
    ));
}

#[test]
fn json_lookup_takes_first_binding() {
    let resp = Json::Obj(vec![(s("k"), Json::Int(1)), (s("k"), Json::Int(2))]);
    match resp.get(&s("k")) {
        Some(Json::Int(v)) => assert_eq!(*v, 1),
        other => panic!("expected first binding, got {:?}", other),
    }
    assert!(resp.get(&s("missing")).is_none());
}

#[test]
fn ready_to_submit_needs_credentials_and_proof() {
    let mut info = LoginInfo::new();
    assert!(!info.ready_to_submit());
    info.username(s("alice"));
    info.password(s("ciphertext"));
    assert!(!info.ready_to_submit());
    info.validate(s("v1"));
    info.seccode(s("s1"));
    assert!(info.ready_to_submit());
}

#[test]
fn login_info_setters_fill_the_form() {
    let mut info = LoginInfo::new();
    info.username(s("username"));
    info.password(s("password"));
    info.token(s("token-value"));
    info.challenge(s("challenge"));
    info.validate(s("validate"));
    info.seccode(s("seccode"));

    let form = info.to_vec();
    let expect = [
        ("username", "username"),
        ("password", "password"),
        ("keep", "0"),
        ("token", "token-value"),
        ("challenge", "challenge"),
        ("validate", "validate"),
        ("seccode", "seccode"),
    ];
    assert_eq!(form.len(), expect.len());
    for ((k, v), (ek, ev)) in form.iter().zip(expect.iter()) {
        assert_eq!(k, ek);
        assert_eq!(v, ev);
    }
}
