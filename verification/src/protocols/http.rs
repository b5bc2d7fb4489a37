//! What an HTTP transport needs: the request to make for a message and how a
//! response is reported.
use vstd::prelude::*;
use vstd::utf8::encode_utf8;

use crate::config::model::{AuthConfig, Config};
use crate::error::{MerError, MerErrorView};
use crate::protocols::sender::{OutboundMessage, SendResult};
use crate::text::{concat2, concat3, decimal, decimal_string, owned, replace_all, replace_from, str_eq};

verus! {

/// The upper-case form of a text, as `str::to_uppercase` gives it.
pub uninterp spec fn unicode_uppercase(s: Seq<char>) -> Seq<char>;

/// A character allowed in a header name: a letter, a digit, or one of
/// ``!#$%&'*+-.^_`|~``.
pub open spec fn header_name_char(c: char) -> bool {
    ||| 'a' <= c <= 'z'
    ||| 'A' <= c <= 'Z'
    ||| '0' <= c <= '9'
    ||| c == '!' || c == '#' || c == '$' || c == '%' || c == '&' || c == '\''
    ||| c == '*' || c == '+' || c == '-' || c == '.' || c == '^' || c == '_'
    ||| c == '`' || c == '|' || c == '~'
}

/// Whether `reqwest` (the `http` crate) accepts a text as a header name: it has
/// from 1 to 65535 characters, each allowed in a header name.
pub open spec fn header_name_valid(name: Seq<char>) -> bool {
    &&& 1 <= name.len() <= 65535
    &&& forall|i: int| 0 <= i < name.len() ==> header_name_char(#[trigger] name[i])
}

/// A byte allowed in a header value: a tab, or any byte from 32 up except 127.
pub open spec fn header_value_byte(b: u8) -> bool {
    (b >= 32 && b != 127) || b == 9
}

/// Whether the `http` crate accepts a text as a header value: every byte of its
/// UTF-8 encoding is allowed.
pub open spec fn header_value_valid(value: Seq<char>) -> bool {
    forall|i: int| 0 <= i < encode_utf8(value).len() ==> header_value_byte(#[trigger] encode_utf8(value)[i])
}

/// The digit of the standard Base64 alphabet for a value below 64: `A`-`Z`,
/// `a`-`z`, `0`-`9`, `+`, `/`.
pub open spec fn base64_digit(v: int) -> char {
    if v < 26 {
        ('A' as int + v) as char
    } else if v < 52 {
        ('a' as int + (v - 26)) as char
    } else if v < 62 {
        ('0' as int + (v - 52)) as char
    } else if v == 62 {
        '+'
    } else {
        '/'
    }
}

/// The standard Base64 text (with padding) of some bytes, as the `base64` crate
/// writes it: each group of three bytes becomes four digits of six bits each, and
/// a last group of one or two bytes is padded with `=`.
pub open spec fn base64_standard(b: Seq<u8>) -> Seq<char>
    decreases b.len(),
{
    if b.len() == 0 {
        seq![]
    } else if b.len() == 1 {
        let n = b[0] * 65536;
        seq![base64_digit(n / 262144), base64_digit((n / 4096) % 64), '=', '=']
    } else if b.len() == 2 {
        let n = b[0] * 65536 + b[1] * 256;
        seq![
            base64_digit(n / 262144),
            base64_digit((n / 4096) % 64),
            base64_digit((n / 64) % 64),
            '=',
        ]
    } else {
        let n = b[0] * 65536 + b[1] * 256 + b[2];
        seq![
            base64_digit(n / 262144),
            base64_digit((n / 4096) % 64),
            base64_digit((n / 64) % 64),
            base64_digit(n % 64),
        ] + base64_standard(b.skip(3))
    }
}

/// A text made of ASCII characters only.
pub open spec fn is_ascii_text(s: Seq<char>) -> bool {
    forall|i: int| 0 <= i < s.len() ==> (#[trigger] s[i] as u32) < 128
}

/// The ASCII upper-case form of a character: `a` to `z` become `A` to `Z`,
/// every other character stays.
pub open spec fn ascii_upper(c: char) -> char {
    if 'a' <= c <= 'z' {
        ((c as u32) - 32) as char
    } else {
        c
    }
}

/// Upper-cases a text (`str::to_uppercase`). On ASCII text, Unicode's upper-case
/// mapping is the ASCII one, character by character.
#[verifier::external_body]
fn to_uppercase(s: &str) -> (res: String)
    ensures
        res@ == unicode_uppercase(s@),
        is_ascii_text(s@) ==> res@ == s@.map_values(|c: char| ascii_upper(c)),
{
    s.to_uppercase()
}

/// Whether a text parses as a header name (`str::parse::<HeaderName>`).
#[verifier::external_body]
fn is_header_name(name: &str) -> (res: bool)
    ensures
        res == header_name_valid(name@),
{
    name.parse::<reqwest::header::HeaderName>().is_ok()
}

/// Whether a text is accepted as a header value (`HeaderValue::from_str`, which
/// checks each byte of the text).
#[verifier::external_body]
fn is_header_value(value: &str) -> (res: bool)
    ensures
        res == header_value_valid(value@),
{
    reqwest::header::HeaderValue::from_str(value).is_ok()
}

/// The standard Base64 encoding of some bytes (`base64::engine::general_purpose::STANDARD.encode`).
#[verifier::external_body]
fn base64_encode(bytes: &[u8]) -> (res: String)
    ensures
        res@ == base64_standard(bytes@),
{
    base64::Engine::encode(&base64::engine::general_purpose::STANDARD, bytes)
}

/// The request method of an HTTP transport.
#[derive(Debug, Clone, Copy, PartialEq, Eq, Structural)]
pub enum HttpVerb {
    Get,
    Post,
    Put,
    Patch,
}

/// The method a method name stands for, if it is one the transport sends with:
/// `GET`, `POST`, `PUT` or `PATCH`.
pub open spec fn verb_of(method: Seq<char>) -> Option<HttpVerb> {
    if method == "GET"@ {
        Some(HttpVerb::Get)
    } else if method == "POST"@ {
        Some(HttpVerb::Post)
    } else if method == "PUT"@ {
        Some(HttpVerb::Put)
    } else if method == "PATCH"@ {
        Some(HttpVerb::Patch)
    } else {
        None
    }
}

/// The four method names stand for their methods.
pub proof fn lemma_verb_names()
    ensures
        verb_of("GET"@) == Some(HttpVerb::Get),
        verb_of("POST"@) == Some(HttpVerb::Post),
        verb_of("PUT"@) == Some(HttpVerb::Put),
        verb_of("PATCH"@) == Some(HttpVerb::Patch),
{
    reveal_strlit("GET");
    reveal_strlit("POST");
    reveal_strlit("PUT");
    reveal_strlit("PATCH");
    assert("POST"@ != "GET"@) by {
        assert("POST"@.len() != "GET"@.len());
    }
    assert("PUT"@ != "GET"@) by {
        assert("PUT"@[0] == 'P');
    }
    assert("PUT"@ != "POST"@) by {
        assert("PUT"@.len() != "POST"@.len());
    }
    assert("PATCH"@ != "GET"@) by {
        assert("PATCH"@.len() != "GET"@.len());
    }
    assert("PATCH"@ != "POST"@) by {
        assert("PATCH"@.len() != "POST"@.len());
    }
    assert("PATCH"@ != "PUT"@) by {
        assert("PATCH"@.len() != "PUT"@.len());
    }
}

/// The settings of an HTTP transport.
#[derive(Debug, Clone)]
pub struct HttpSettings {
    /// The URL, in which `{device_id}` stands for the sending device.
    pub url_template: String,
    /// The upper-cased request method.
    pub method: String,
    pub timeout_secs: u64,
    /// Extra headers, as name and value pairs, in the order they are applied.
    pub headers: Vec<(String, String)>,
    pub auth: Option<AuthConfig>,
}

/// The view of a list of name and value pairs.
pub open spec fn pairs_view(v: Seq<(String, String)>) -> Seq<(Seq<char>, Seq<char>)> {
    v.map_values(|p: (String, String)| (p.0@, p.1@))
}

/// The credentials as plain values: same kind, same texts.
pub open spec fn same_auth(a: AuthConfig, b: AuthConfig) -> bool {
    match (a, b) {
        (
            AuthConfig::UsernamePassword { username: u1, password: p1 },
            AuthConfig::UsernamePassword { username: u2, password: p2 },
        ) => u1@ == u2@ && p1@ == p2@,
        (AuthConfig::Bearer { token: t1 }, AuthConfig::Bearer { token: t2 }) => t1@ == t2@,
        (AuthConfig::ApiKey { header: h1, value: v1 }, AuthConfig::ApiKey { header: h2, value: v2 }) =>
            h1@ == h2@ && v1@ == v2@,
        _ => false,
    }
}

fn copy_pairs(v: &Vec<(String, String)>) -> (res: Vec<(String, String)>)
    ensures
        pairs_view(res@) == pairs_view(v@),
{
    let mut res: Vec<(String, String)> = Vec::new();
    let n = v.len();
    for i in 0..n
        invariant
            n == v@.len(),
            res@.len() == i,
            forall|j: int| 0 <= j < i ==> (#[trigger] res@[j]).0@ == v@[j].0@ && res@[j].1@ == v@[j].1@,
    {
        res.push((owned(v[i].0.as_str()), owned(v[i].1.as_str())));
    }
    assert(pairs_view(res@) =~= pairs_view(v@));
    res
}

fn copy_auth(a: &AuthConfig) -> (res: AuthConfig)
    ensures
        same_auth(res, *a),
{
    match a {
        AuthConfig::UsernamePassword { username, password } => AuthConfig::UsernamePassword {
            username: owned(username.as_str()),
            password: owned(password.as_str()),
        },
        AuthConfig::Bearer { token } => AuthConfig::Bearer { token: owned(token.as_str()) },
        AuthConfig::ApiKey { header, value } => AuthConfig::ApiKey {
            header: owned(header.as_str()),
            value: owned(value.as_str()),
        },
    }
}

/// The configured method name, `POST` when none is configured.
pub open spec fn method_name(m: Option<String>) -> Seq<char> {
    match m {
        Some(m) => m@,
        None => "POST"@,
    }
}

impl HttpSettings {
    /// The HTTP settings of a configuration. The URL is required; the method is
    /// upper-cased (letter by letter when it is ASCII) and `POST` unless
    /// configured; the timeout is 10 seconds unless
    /// configured.
    pub fn from_config(config: &Config) -> (res: Result<Self, MerError>)
        ensures
            res is Ok <==> config.target.url is Some,
            match config.target.url {
                None => res matches Err(e) && e@ == MerErrorView::Config(
                    "target.url is required for HTTP"@,
                ),
                Some(u) => res matches Ok(s) && s.url_template@ == u@ && s.method@
                    == unicode_uppercase(
                    match config.target.method {
                        Some(m) => m@,
                        None => "POST"@,
                    },
                ) && s.timeout_secs == config.target.timeout_secs.unwrap_or(10) && pairs_view(
                    s.headers@,
                ) == (match config.target.headers {
                    Some(h) => pairs_view(h@),
                    None => Seq::empty(),
                }) && (match (s.auth, config.auth) {
                    (Some(a), Some(b)) => same_auth(a, b),
                    (None, None) => true,
                    _ => false,
                }),
            },
            res matches Ok(s) ==> (is_ascii_text(method_name(config.target.method))
                ==> s.method@ == method_name(config.target.method).map_values(
                |c: char| ascii_upper(c),
            )),
            res matches Ok(s) ==> (config.target.method is None ==> s.method@ == "POST"@),
    {
        let url_template = match &config.target.url {
            Some(u) => owned(u.as_str()),
            None => return Err(MerError::Config(owned("target.url is required for HTTP"))),
        };
        let method = match &config.target.method {
            Some(m) => to_uppercase(m.as_str()),
            None => {
                let m = to_uppercase("POST");
                proof {
                    reveal_strlit("POST");
                    assert(is_ascii_text("POST"@));
                    assert(m@ =~= "POST"@);
                }
                m
            },
        };
        let headers = match &config.target.headers {
            Some(h) => copy_pairs(h),
            None => {
                let v: Vec<(String, String)> = Vec::new();
                assert(pairs_view(v@) =~= Seq::empty());
                v
            },
        };
        let auth = match &config.auth {
            Some(a) => Some(copy_auth(a)),
            None => None,
        };
        Ok(
            HttpSettings {
                url_template,
                method,
                timeout_secs: config.target.timeout_secs.unwrap_or(10),
                headers,
                auth,
            },
        )
    }
}

/// The header pairs of `h` that are valid names with valid values, in order.
pub open spec fn valid_headers(h: Seq<(Seq<char>, Seq<char>)>) -> Seq<(Seq<char>, Seq<char>)>
    decreases h.len(),
{
    if h.len() == 0 {
        seq![]
    } else if header_name_valid(h.last().0) && header_value_valid(h.last().1) {
        valid_headers(h.drop_last()).push(h.last())
    } else {
        valid_headers(h.drop_last())
    }
}

/// The header the credentials add, if its name and value are valid.
pub open spec fn auth_header(auth: Option<AuthConfig>) -> Seq<(Seq<char>, Seq<char>)> {
    match auth {
        None => seq![],
        Some(AuthConfig::Bearer { token }) => if header_value_valid("Bearer "@ + token@) {
            seq![("authorization"@, "Bearer "@ + token@)]
        } else {
            seq![]
        },
        Some(AuthConfig::UsernamePassword { username, password }) => {
            let v = "Basic "@ + base64_standard(encode_utf8(username@ + ":"@ + password@));
            if header_value_valid(v) {
                seq![("authorization"@, v)]
            } else {
                seq![]
            }
        },
        Some(AuthConfig::ApiKey { header, value }) => if header_name_valid(header@)
            && header_value_valid(value@) {
            seq![(header@, value@)]
        } else {
            seq![]
        },
    }
}

/// The headers of a request, in the order they are set (a later one with the same
/// name replaces an earlier one): JSON content type, the configured headers, the
/// credentials.
pub open spec fn request_headers(s: HttpSettings) -> Seq<(Seq<char>, Seq<char>)> {
    seq![("content-type"@, "application/json"@)] + valid_headers(pairs_view(s.headers@))
        + auth_header(s.auth)
}

/// The request to make for one message.
#[derive(Debug, Clone)]
pub struct HttpRequestPlan {
    pub url: String,
    pub verb: HttpVerb,
    /// Header names and values, in the order they are set.
    pub headers: Vec<(String, String)>,
    /// The number of payload bytes reported as sent when the request succeeds.
    pub body_len: usize,
}

/// The URL a message of `device_id` goes to: the template with every `{device_id}` replaced.
pub fn resolve_url(template: &str, device_id: &str) -> (res: String)
    ensures
        res@ == replace_from(template@, "{device_id}"@, device_id@, 0),
{
    proof {
        reveal_strlit("{device_id}");
    }
    replace_all(template, "{device_id}", device_id)
}

fn auth_header_exec(auth: &Option<AuthConfig>) -> (res: Vec<(String, String)>)
    ensures
        pairs_view(res@) == auth_header(*auth),
{
    let mut res: Vec<(String, String)> = Vec::new();
    match auth {
        None => {},
        Some(AuthConfig::Bearer { token }) => {
            let v = concat2("Bearer ", token.as_str());
            if is_header_value(v.as_str()) {
                res.push((owned("authorization"), v));
            }
        },
        Some(AuthConfig::UsernamePassword { username, password }) => {
            let joined = concat3(username.as_str(), ":", password.as_str());
            let encoded = base64_encode(joined.as_str().as_bytes());
            let v = concat2("Basic ", encoded.as_str());
            if is_header_value(v.as_str()) {
                res.push((owned("authorization"), v));
            }
        },
        Some(AuthConfig::ApiKey { header, value }) => {
            if is_header_name(header.as_str()) && is_header_value(value.as_str()) {
                res.push((owned(header.as_str()), owned(value.as_str())));
            }
        },
    }
    assert(pairs_view(res@) =~= auth_header(*auth));
    res
}

impl HttpSettings {
    /// The headers of every request, in the order they are set.
    pub fn headers_for_request(&self) -> (res: Vec<(String, String)>)
        ensures
            pairs_view(res@) == request_headers(*self),
    {
        let mut res: Vec<(String, String)> = Vec::new();
        res.push((owned("content-type"), owned("application/json")));
        let ghost hv = pairs_view(self.headers@);
        let n = self.headers.len();
        for i in 0..n
            invariant
                n == self.headers@.len(),
                hv == pairs_view(self.headers@),
                pairs_view(res@) == seq![("content-type"@, "application/json"@)] + valid_headers(
                    hv.take(i as int),
                ),
        {
            let k = &self.headers[i].0;
            let v = &self.headers[i].1;
            let ghost before = pairs_view(res@);
            assert(hv.take(i + 1).drop_last() =~= hv.take(i as int));
            assert(hv.take(i + 1).last() == (k@, v@));
            if is_header_name(k.as_str()) && is_header_value(v.as_str()) {
                res.push((owned(k.as_str()), owned(v.as_str())));
                assert(pairs_view(res@) =~= before.push((k@, v@)));
            }
        }
        assert(hv.take(n as int) =~= hv);
        let auth = auth_header_exec(&self.auth);
        let ghost before = pairs_view(res@);
        let m = auth.len();
        for j in 0..m
            invariant
                m == auth@.len(),
                pairs_view(res@) == before + pairs_view(auth@).take(j as int),
        {
            let ghost prev = pairs_view(res@);
            res.push((owned(auth[j].0.as_str()), owned(auth[j].1.as_str())));
            assert(pairs_view(res@) =~= prev.push(pairs_view(auth@)[j as int]));
            assert(pairs_view(auth@).take(j + 1) =~= pairs_view(auth@).take(j as int).push(
                pairs_view(auth@)[j as int],
            ));
            assert(pairs_view(res@) =~= before + pairs_view(auth@).take(j + 1));
        }
        assert(pairs_view(auth@).take(m as int) =~= pairs_view(auth@));
        res
    }

    /// The request for a message, or, when the method is not one the transport
    /// sends with, the failure reported for the message.
    pub fn plan_request(&self, message: &OutboundMessage) -> (res: Result<HttpRequestPlan, SendResult>)
        ensures
            match verb_of(self.method@) {
                None => res matches Err(r) && !r.success && r.bytes_sent == 0 && (r.error matches Some(
                    e,
                ) && e@ == "Unsupported HTTP method: "@ + self.method@),
                Some(v) => res matches Ok(p) && p.verb == v && p.url@ == replace_from(
                    self.url_template@,
                    "{device_id}"@,
                    message.device_id@,
                    0,
                ) && pairs_view(p.headers@) == request_headers(*self) && p.body_len
                    == encode_utf8(message.payload@).len(),
            },
    {
        let verb = if str_eq(self.method.as_str(), "GET") {
            HttpVerb::Get
        } else if str_eq(self.method.as_str(), "POST") {
            HttpVerb::Post
        } else if str_eq(self.method.as_str(), "PUT") {
            HttpVerb::Put
        } else if str_eq(self.method.as_str(), "PATCH") {
            HttpVerb::Patch
        } else {
            return Err(
                SendResult {
                    success: false,
                    bytes_sent: 0,
                    error: Some(concat2("Unsupported HTTP method: ", self.method.as_str())),
                },
            );
        };
        let url = resolve_url(self.url_template.as_str(), message.device_id.as_str());
        let headers = self.headers_for_request();
        let body_len = message.payload.as_str().as_bytes().len();
        Ok(HttpRequestPlan { url, verb, headers, body_len })
    }
}

/// Whether an HTTP status code reports success (200 to 299).
pub open spec fn status_is_success(status: u16) -> bool {
    200 <= status <= 299
}

/// What is reported for a message whose request got a response with `status`
/// (and its standard reason phrase, if any).
pub fn response_result(status: u16, reason: Option<&str>, body_len: usize) -> (res: SendResult)
    ensures
        res.success == status_is_success(status),
        res.bytes_sent == body_len,
        status_is_success(status) ==> res.error is None,
        !status_is_success(status) ==> (res.error matches Some(e) && e@ == "HTTP "@ + decimal(
            status as nat,
        ) + " "@ + (match reason {
            Some(r) => r@,
            None => Seq::empty(),
        })),
{
    if 200 <= status && status <= 299 {
        SendResult { success: true, bytes_sent: body_len, error: None }
    } else {
        let code = decimal_string(status as usize);
        let head = concat3("HTTP ", code.as_str(), " ");
        let msg = match reason {
            Some(r) => concat2(head.as_str(), r),
            None => {
                let m = owned(head.as_str());
                assert(m@ =~= head@ + Seq::<char>::empty());
                m
            },
        };
        SendResult { success: false, bytes_sent: body_len, error: Some(msg) }
    }
}

/// What is reported for a message whose request failed before any response.
pub fn transport_failure(detail: String) -> (res: SendResult)
    ensures
        !res.success,
        res.bytes_sent == 0,
        res.error == Some(detail),
{
    SendResult { success: false, bytes_sent: 0, error: Some(detail) }
}

/// Status law: a response counts as delivered exactly when its status is in the
/// 2xx class (its hundreds digit is 2); every informational, redirect, client
/// error and server error status is a failure.
pub proof fn success_is_the_2xx_class(status: u16)
    ensures
        status_is_success(status) <==> status / 100 == 2,
        (status / 100 == 1 || status / 100 == 3 || status / 100 == 4 || status / 100 == 5)
            ==> !status_is_success(status),
{
}

} // verus!
