//! The login service's data: challenge parameters, key-exchange material,
//! the mutable login request, and the decoding of the three responses the
//! service sends back.
//!
//! Each decoder takes a [`Json`] value that the transport layer already
//! received and is specified against a spec-level decode function; a missing
//! or wrongly typed field is reported as [`Error::MalformedResponse`] naming
//! the full dotted path of the first field that could not be read.

use vstd::prelude::*;

use crate::json::Json;

verus! {

/// What can go wrong on the client side of one login step.
///
/// Application-level rejection by the server is not an error: it is
/// [`LoginResult::Rejected`].
#[derive(Debug)]
pub enum Error {
    /// The underlying network call failed; the payload is the transport's
    /// own description of the failure.
    TransportError(String),
    /// The server answered, but the response lacks a field the flow needs;
    /// the payload is the dotted path of the first missing field.
    MalformedResponse(String),
    /// The key material did not parse as an RSA public key, or the salted
    /// password did not fit under it. Fatal for the current epoch: fetch
    /// fresh material before retrying.
    CryptoFailure,
    /// A session write was attempted against a challenge epoch that a
    /// concurrent reset has already replaced. The write was rejected; the
    /// caller must restart from the current epoch.
    StaleEpoch,
}

/// The server's verdict on a submitted login.
#[derive(Debug)]
pub enum LoginResult {
    /// Accepted; the payload is the post-login redirect URL.
    Success(String),
    /// Refused at the application level (wrong password, expired challenge,
    /// failed verification); the payload is the server's message.
    Rejected(String),
}

/// The string member of `j` bound to `key`, if `j` is an object, has such a
/// member, and that member is a string.
pub open spec fn str_field(j: Json, key: Seq<char>) -> Option<Seq<char>> {
    match j.spec_get(key) {
        Some(v) => v.spec_str(),
        None => None,
    }
}

/// The integer member of `j` bound to `key`, under the same conditions.
pub open spec fn int_field(j: Json, key: Seq<char>) -> Option<i64> {
    match j.spec_get(key) {
        Some(v) => v.spec_int(),
        None => None,
    }
}

/// Reads the string member of `j` bound to `key`, cloning it out.
fn get_str(j: &Json, key: &String) -> (r: Option<String>)
    ensures
        match r {
            Some(s) => str_field(*j, key@) == Some(s@),
            None => str_field(*j, key@) is None,
        },
{
    match j.get(key) {
        Some(v) => match v.as_str() {
            Some(s) => Some(s.clone()),
            None => None,
        },
        None => None,
    }
}

/// One human-verification challenge instance, as fetched from the service:
/// the widget parameters `gt` and `challenge`, and the `token` that ties the
/// eventual submission back to this instance.
#[derive(Debug)]
pub struct Captcha {
    pub gt: String,
    pub challenge: String,
    pub token: String,
}

/// The decode of a challenge response of shape
/// `{data: {geetest: {gt, challenge}, token}}`: the three fields on success,
/// or the dotted path of the first field that is absent or not a string.
pub open spec fn captcha_decode(resp: Json) -> Result<
    (Seq<char>, Seq<char>, Seq<char>),
    Seq<char>,
> {
    match resp.spec_get("data"@) {
        None => Err("data"@),
        Some(data) => match data.spec_get("geetest"@) {
            None => Err("data.geetest"@),
            Some(geetest) => match str_field(geetest, "gt"@) {
                None => Err("data.geetest.gt"@),
                Some(gt) => match str_field(geetest, "challenge"@) {
                    None => Err("data.geetest.challenge"@),
                    Some(challenge) => match str_field(data, "token"@) {
                        None => Err("data.token"@),
                        Some(token) => Ok((gt, challenge, token)),
                    },
                },
            },
        },
    }
}

impl Captcha {
    /// Decodes a challenge response. On a response of the documented shape
    /// the three fields come back exactly as sent; otherwise the error names
    /// the first missing field.
    pub fn from_response(resp: &Json) -> (r: Result<Captcha, Error>)
        ensures
            match captcha_decode(*resp) {
                Ok(t) => r matches Ok(c) && c.gt@ == t.0 && c.challenge@ == t.1 && c.token@
                    == t.2,
                Err(p) => r matches Err(e) && (e matches Error::MalformedResponse(q) && q@ == p),
            },
    {
        let data = match resp.get(&"data".to_string()) {
            Some(d) => d,
            None => {
                return Err(Error::MalformedResponse("data".to_string()));
            },
        };
        let geetest = match data.get(&"geetest".to_string()) {
            Some(g) => g,
            None => {
                return Err(Error::MalformedResponse("data.geetest".to_string()));
            },
        };
        let gt = match get_str(geetest, &"gt".to_string()) {
            Some(s) => s,
            None => {
                return Err(Error::MalformedResponse("data.geetest.gt".to_string()));
            },
        };
        let challenge = match get_str(geetest, &"challenge".to_string()) {
            Some(s) => s,
            None => {
                return Err(Error::MalformedResponse("data.geetest.challenge".to_string()));
            },
        };
        let token = match get_str(data, &"token".to_string()) {
            Some(s) => s,
            None => {
                return Err(Error::MalformedResponse("data.token".to_string()));
            },
        };
        Ok(Captcha { gt, challenge, token })
    }
}

/// Law: a challenge response of exactly the documented shape
/// `{data: {geetest: {gt, challenge}, token}}` decodes to precisely the
/// three strings it carries — the decoder neither alters nor substitutes a
/// field.
pub proof fn lemma_captcha_decode_complete(
    resp: Json,
    data: Json,
    geetest: Json,
    gt: Seq<char>,
    challenge: Seq<char>,
    token: Seq<char>,
)
    requires
        resp.spec_get("data"@) == Some(data),
        data.spec_get("geetest"@) == Some(geetest),
        str_field(geetest, "gt"@) == Some(gt),
        str_field(geetest, "challenge"@) == Some(challenge),
        str_field(data, "token"@) == Some(token),
    ensures
        captcha_decode(resp) == Ok::<_, Seq<char>>((gt, challenge, token)),
{
}

/// Law: a challenge response from which one expected field is absent (or
/// not readable as required) decodes to an error naming exactly the dotted
/// path of the first such field, walking the shape in document order.
pub proof fn lemma_captcha_decode_missing(resp: Json)
    ensures
        resp.spec_get("data"@) is None ==> captcha_decode(resp) == Err::<
            (Seq<char>, Seq<char>, Seq<char>),
            _,
        >("data"@),
        resp.spec_get("data"@) matches Some(data) && data.spec_get("geetest"@) is None
            ==> captcha_decode(resp) == Err::<(Seq<char>, Seq<char>, Seq<char>), _>(
            "data.geetest"@,
        ),
        resp.spec_get("data"@) matches Some(data) && data.spec_get("geetest"@) matches Some(g)
            && str_field(g, "gt"@) is None ==> captcha_decode(resp) == Err::<
            (Seq<char>, Seq<char>, Seq<char>),
            _,
        >("data.geetest.gt"@),
        resp.spec_get("data"@) matches Some(data) && data.spec_get("geetest"@) matches Some(g)
            && str_field(g, "gt"@) is Some && str_field(g, "challenge"@) is None
            ==> captcha_decode(resp) == Err::<(Seq<char>, Seq<char>, Seq<char>), _>(
            "data.geetest.challenge"@,
        ),
        resp.spec_get("data"@) matches Some(data) && data.spec_get("geetest"@) matches Some(g)
            && str_field(g, "gt"@) is Some && str_field(g, "challenge"@) is Some && str_field(
            data,
            "token"@,
        ) is None ==> captcha_decode(resp) == Err::<(Seq<char>, Seq<char>, Seq<char>), _>(
            "data.token"@,
        ),
{
}

/// Ephemeral key-exchange material: the password salt (`hash`) and the
/// PEM-encoded RSA public key (`key`). Short-lived; each login attempt
/// should fetch fresh material.
#[derive(Debug)]
pub struct LoginKeys {
    pub hash: String,
    pub key: String,
}

/// The decode of a key-exchange response of shape `{data: {hash, key}}`.
pub open spec fn login_keys_decode(resp: Json) -> Result<(Seq<char>, Seq<char>), Seq<char>> {
    match resp.spec_get("data"@) {
        None => Err("data"@),
        Some(data) => match str_field(data, "hash"@) {
            None => Err("data.hash"@),
            Some(hash) => match str_field(data, "key"@) {
                None => Err("data.key"@),
                Some(key) => Ok((hash, key)),
            },
        },
    }
}

impl LoginKeys {
    /// Decodes a key-exchange response, naming the first missing field.
    pub fn from_response(resp: &Json) -> (r: Result<LoginKeys, Error>)
        ensures
            match login_keys_decode(*resp) {
                Ok(t) => r matches Ok(k) && k.hash@ == t.0 && k.key@ == t.1,
                Err(p) => r matches Err(e) && (e matches Error::MalformedResponse(q) && q@ == p),
            },
    {
        let data = match resp.get(&"data".to_string()) {
            Some(d) => d,
            None => {
                return Err(Error::MalformedResponse("data".to_string()));
            },
        };
        let hash = match get_str(data, &"hash".to_string()) {
            Some(s) => s,
            None => {
                return Err(Error::MalformedResponse("data.hash".to_string()));
            },
        };
        let key = match get_str(data, &"key".to_string()) {
            Some(s) => s,
            None => {
                return Err(Error::MalformedResponse("data.key".to_string()));
            },
        };
        Ok(LoginKeys { hash, key })
    }
}

/// The decode of a login response of shape `{code, message, data: {url}}`:
/// `Ok(Ok(url))` when `code` is 0, `Ok(Err(message))` when `code` is any
/// other integer, and `Err(path)` naming the first unreadable field.
pub open spec fn login_decode(resp: Json) -> Result<
    Result<Seq<char>, Seq<char>>,
    Seq<char>,
> {
    match int_field(resp, "code"@) {
        None => Err("code"@),
        Some(code) => if code == 0 {
            match resp.spec_get("data"@) {
                None => Err("data"@),
                Some(data) => match str_field(data, "url"@) {
                    None => Err("data.url"@),
                    Some(url) => Ok(Ok(url)),
                },
            }
        } else {
            match str_field(resp, "message"@) {
                None => Err("message"@),
                Some(msg) => Ok(Err(msg)),
            }
        },
    }
}

impl LoginResult {
    /// Decodes the server's verdict on a submitted login: code 0 with a
    /// redirect URL is [`LoginResult::Success`], any other code with a
    /// message is [`LoginResult::Rejected`], and a response carrying neither
    /// is [`Error::MalformedResponse`].
    pub fn from_response(resp: &Json) -> (r: Result<LoginResult, Error>)
        ensures
            match login_decode(*resp) {
                Ok(Ok(url)) => r matches Ok(v) && (v matches LoginResult::Success(u) && u@
                    == url),
                Ok(Err(msg)) => r matches Ok(v) && (v matches LoginResult::Rejected(m) && m@
                    == msg),
                Err(p) => r matches Err(e) && (e matches Error::MalformedResponse(q) && q@ == p),
            },
    {
        let code = match resp.get(&"code".to_string()) {
            Some(v) => match v.as_int() {
                Some(c) => c,
                None => {
                    return Err(Error::MalformedResponse("code".to_string()));
                },
            },
            None => {
                return Err(Error::MalformedResponse("code".to_string()));
            },
        };
        if code == 0 {
            let data = match resp.get(&"data".to_string()) {
                Some(d) => d,
                None => {
                    return Err(Error::MalformedResponse("data".to_string()));
                },
            };
            match get_str(data, &"url".to_string()) {
                Some(url) => Ok(LoginResult::Success(url)),
                None => Err(Error::MalformedResponse("data.url".to_string())),
            }
        } else {
            match get_str(resp, &"message".to_string()) {
                Some(msg) => Ok(LoginResult::Rejected(msg)),
                None => Err(Error::MalformedResponse("message".to_string())),
            }
        }
    }
}

/// The mutable aggregate of one login attempt, mirroring the form the login
/// endpoint expects. `password` holds ciphertext only: the plaintext
/// password exists transiently inside the encryption call and is never
/// stored here. `token` and `challenge` are the session's copies of the
/// current challenge epoch.
#[derive(Debug)]
pub struct LoginInfo {
    pub username: String,
    pub password: String,
    pub keep: String,
    pub token: String,
    pub challenge: String,
    pub validate: String,
    pub seccode: String,
}

/// `r` is the submission form of `info`: the seven fields of the login
/// endpoint, in its documented order, each under its wire name.
pub open spec fn is_form_of(r: Seq<(String, String)>, info: LoginInfo) -> bool {
    &&& r.len() == 7
    &&& r[0].0@ == "username"@ && r[0].1@ == info.username@
    &&& r[1].0@ == "password"@ && r[1].1@ == info.password@
    &&& r[2].0@ == "keep"@ && r[2].1@ == info.keep@
    &&& r[3].0@ == "token"@ && r[3].1@ == info.token@
    &&& r[4].0@ == "challenge"@ && r[4].1@ == info.challenge@
    &&& r[5].0@ == "validate"@ && r[5].1@ == info.validate@
    &&& r[6].0@ == "seccode"@ && r[6].1@ == info.seccode@
}

impl LoginInfo {
    /// Credentials are in place: an account name and an encrypted password
    /// have been stored.
    pub open spec fn spec_credentials_set(self) -> bool {
        self.username@.len() > 0 && self.password@.len() > 0
    }

    /// The verification proof is in place: both of its parts have been
    /// stored.
    pub open spec fn spec_verification_set(self) -> bool {
        self.validate@.len() > 0 && self.seccode@.len() > 0
    }

    /// Whether the request is complete enough to submit: credentials and
    /// verification proof both set.
    ///
    /// Building the form does not itself demand this — the server rejects
    /// incomplete submissions on its own — but a caller that checks it
    /// first turns a would-be server round trip into a local client-bug
    /// signal. The shell around this library does so before every POST.
    pub fn ready_to_submit(&self) -> (r: bool)
        ensures
            r == (self.spec_credentials_set() && self.spec_verification_set()),
    {
        !self.username.as_str().is_empty() && !self.password.as_str().is_empty()
            && !self.validate.as_str().is_empty() && !self.seccode.as_str().is_empty()
    }

    /// A fresh request: every field empty except `keep`, which the flow
    /// always submits as `"0"`.
    pub fn new() -> (r: LoginInfo)
        ensures
            r.username@ == Seq::<char>::empty(),
            r.password@ == Seq::<char>::empty(),
            r.keep@ == "0"@,
            r.token@ == Seq::<char>::empty(),
            r.challenge@ == Seq::<char>::empty(),
            r.validate@ == Seq::<char>::empty(),
            r.seccode@ == Seq::<char>::empty(),
    {
        LoginInfo {
            username: String::new(),
            password: String::new(),
            keep: "0".to_string(),
            token: String::new(),
            challenge: String::new(),
            validate: String::new(),
            seccode: String::new(),
        }
    }

    /// Sets the account name; every other field keeps its value.
    pub fn username(&mut self, username: String)
        ensures
            *final(self) == (LoginInfo { username, ..*old(self) }),
    {
        self.username = username;
    }

    /// Sets the encrypted password; every other field keeps its value.
    pub fn password(&mut self, password: String)
        ensures
            *final(self) == (LoginInfo { password, ..*old(self) }),
    {
        self.password = password;
    }

    /// Sets the challenge token; every other field keeps its value.
    pub fn token(&mut self, token: String)
        ensures
            *final(self) == (LoginInfo { token, ..*old(self) }),
    {
        self.token = token;
    }

    /// Sets the challenge identifier; every other field keeps its value.
    pub fn challenge(&mut self, challenge: String)
        ensures
            *final(self) == (LoginInfo { challenge, ..*old(self) }),
    {
        self.challenge = challenge;
    }

    /// Sets the verification proof's `validate` part; every other field
    /// keeps its value.
    pub fn validate(&mut self, validate: String)
        ensures
            *final(self) == (LoginInfo { validate, ..*old(self) }),
    {
        self.validate = validate;
    }

    /// Sets the verification proof's `seccode` part; every other field
    /// keeps its value.
    pub fn seccode(&mut self, seccode: String)
        ensures
            *final(self) == (LoginInfo { seccode, ..*old(self) }),
    {
        self.seccode = seccode;
    }

    /// The submission form: all seven fields under their wire names, in the
    /// order the login endpoint documents.
    pub fn to_vec(&self) -> (r: Vec<(String, String)>)
        ensures
            is_form_of(r@, *self),
    {
        let mut r: Vec<(String, String)> = Vec::new();
        r.push(("username".to_string(), self.username.clone()));
        r.push(("password".to_string(), self.password.clone()));
        r.push(("keep".to_string(), self.keep.clone()));
        r.push(("token".to_string(), self.token.clone()));
        r.push(("challenge".to_string(), self.challenge.clone()));
        r.push(("validate".to_string(), self.validate.clone()));
        r.push(("seccode".to_string(), self.seccode.clone()));
        r
    }
}

} // verus!

