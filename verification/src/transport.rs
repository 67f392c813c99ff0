use vstd::prelude::*;
use vstd::string::StrSliceExecFns;
use vstd::string::StringExecFns;

use crate::creds::Credentials;
use crate::error::ClientError;
use crate::error::Error;
use crate::rep::Asset;

verus! {

/// The one HTTP method the upload pipeline issues.
#[derive(Clone, Copy, Debug, PartialEq, Eq)]
pub enum Method {
    Post,
}

/// A complete description of one outgoing HTTP request: everything the
/// transport needs to perform the send.  The library builds the plan and
/// its contracts say exactly what it holds; the caller performs it and
/// hands the numeric status and body text back for classification.
#[derive(Clone, Debug, PartialEq)]
pub struct RequestPlan {
    pub method: Method,
    pub url: String,
    pub headers: Vec<(String, String)>,
    pub body: Vec<u8>,
}

/// What `application/x-www-form-urlencoded` byte-serialisation makes of a
/// string.  The result is a function of the string alone; it is named
/// rather than spelled out, since a copy of the encoder's table here could
/// not be held to the encoder itself.
pub uninterp spec fn form_encoded(s: Seq<char>) -> Seq<char>;

/// Relies on `url::form_urlencoded::byte_serialize`: the
/// form-urlencoded serialisation of the string's bytes.
#[verifier::external_body]
fn form_encode(s: &str) -> (r: String)
    ensures
        r@ == form_encoded(s@),
{
    url::form_urlencoded::byte_serialize(s.as_bytes()).collect::<String>()
}

/// The position of the first `#` in the URL text, or the text's length
/// when none occurs.  Everything from that position on is the fragment,
/// which query parameters must precede.
pub open spec fn first_hash(url: Seq<char>) -> int
    decreases url.len(),
{
    if url.len() == 0 {
        0
    } else if url[0] == '#' {
        0
    } else {
        1 + first_hash(url.skip(1))
    }
}

/// The target URL with `client_id` and `client_secret` inserted as query
/// parameters, form-encoded: appended to the part before any fragment —
/// any query parameters already present there kept as they stand — with
/// the fragment reattached unchanged after them.
pub open spec fn with_client_params(url: Seq<char>, id: Seq<char>, secret: Seq<char>) -> Seq<char> {
    let cut = first_hash(url);
    let base = url.subrange(0, cut);
    let fragment = url.subrange(cut, url.len() as int);
    base + (if base.contains('?') {
        "&"@
    } else {
        "?"@
    }) + "client_id="@ + form_encoded(id) + "&client_secret="@ + form_encoded(secret) + fragment
}

/// `first_hash` is exactly the position of the first `#`: no `#` stands
/// before it, and it carries one unless it is the text's length.
proof fn lemma_first_hash_at(s: Seq<char>, k: int)
    requires
        0 <= k <= s.len(),
        forall|j: int| 0 <= j < k ==> s[j] != '#',
        k < s.len() ==> s[k] == '#',
    ensures
        first_hash(s) == k,
    decreases s.len(),
{
    if s.len() == 0 {
    } else if s[0] == '#' {
        assert(k == 0);
    } else {
        assert(k >= 1);
        assert(forall|j: int| 0 <= j < k - 1 ==> s.skip(1)[j] == s[j + 1]);
        lemma_first_hash_at(s.skip(1), k - 1);
    }
}

/// The URL an authenticated request is issued against: unchanged, except
/// that an id/secret credential carries itself in the query string, ahead
/// of any fragment.
pub open spec fn auth_url(creds: Credentials, url: Seq<char>) -> Seq<char> {
    match creds {
        Credentials::Client { id, secret } => with_client_params(url, id@, secret@),
        _ => url,
    }
}

/// The headers authentication alone contributes: exactly one
/// `Authorization` header for a token credential, none for the others.
pub open spec fn auth_headers(creds: Credentials) -> Seq<(Seq<char>, Seq<char>)> {
    match creds {
        Credentials::Token(t) => seq![("Authorization"@, "token "@ + t@)],
        _ => Seq::<(Seq<char>, Seq<char>)>::empty(),
    }
}

/// The header list of a plan as pairs of character sequences.
pub open spec fn header_views(hs: Seq<(String, String)>) -> Seq<(Seq<char>, Seq<char>)> {
    hs.map_values(|h: (String, String)| (h.0@, h.1@))
}

/// What authentication does to one outgoing request, and nothing else: a
/// token credential contributes exactly the documented header and leaves
/// the URL alone; an id/secret credential rewrites only the query string,
/// keeps any fragment after it, and adds no header; an anonymous
/// credential changes nothing.  The body always starts empty.
pub open spec fn authenticated_request(
    creds: Credentials,
    method: Method,
    url: Seq<char>,
    r: RequestPlan,
) -> bool {
    &&& r.method == method
    &&& r.url@ == auth_url(creds, url)
    &&& header_views(r.headers@) == auth_headers(creds)
    &&& r.body@ == Seq::<u8>::empty()
}

/// The full POST description: the authenticated skeleton with the agent
/// and content-type headers appended in that order, and the bytes to send
/// attached as the body.
pub open spec fn post_plan(
    creds: Credentials,
    url: Seq<char>,
    agent: Seq<char>,
    content_type: Seq<char>,
    body: Seq<u8>,
    r: RequestPlan,
) -> bool {
    &&& r.method == Method::Post
    &&& r.url@ == auth_url(creds, url)
    &&& header_views(r.headers@) == auth_headers(creds) + seq![
        ("User-Agent"@, agent),
        ("Content-Type"@, content_type),
    ]
    &&& r.body@ == body
}

/// The status codes the platform answers with a structured client error
/// rather than a created asset.
pub open spec fn is_client_fault_status(status: u16) -> bool {
    ||| status == 400
    ||| status == 401
    ||| status == 403
    ||| status == 404
    ||| status == 409
    ||| status == 422
}

/// The string value at a top-level key of a JSON text, when the text
/// parses and the key holds a string.  A function of the text alone,
/// named rather than spelled out: a JSON grammar written here could not
/// be held to the parser actually run.
pub uninterp spec fn json_str_field(body: Seq<char>, key: Seq<char>) -> Option<Seq<char>>;

/// The unsigned-integer value at a top-level key of a JSON text, when the
/// text parses and the key holds one.  A function of the text alone.
pub uninterp spec fn json_u64_field(body: Seq<char>, key: Seq<char>) -> Option<u64>;

/// Relies on `serde_json::from_str::<Value>`, `Value::get` and
/// `Value::as_str`: the string at a top-level key of the JSON text, if the
/// text parses and the key holds a string.
#[verifier::external_body]
fn json_string_field(body: &str, key: &str) -> (r: Option<String>)
    ensures
        r is Some <==> json_str_field(body@, key@) is Some,
        r matches Some(v) ==> json_str_field(body@, key@) == Some(v@),
{
    match serde_json::from_str::<serde_json::Value>(body) {
        Ok(doc) => match doc.get(key) {
            Some(field) => match field.as_str() {
                Some(text) => Some(text.to_owned()),
                None => None,
            },
            None => None,
        },
        Err(_) => None,
    }
}

/// Relies on `serde_json::from_str::<Value>`, `Value::get` and
/// `Value::as_u64`: the unsigned integer at a top-level key of the JSON
/// text, if the text parses and the key holds one.
#[verifier::external_body]
fn json_number_field(body: &str, key: &str) -> (r: Option<u64>)
    ensures
        r == json_u64_field(body@, key@),
{
    match serde_json::from_str::<serde_json::Value>(body) {
        Ok(doc) => match doc.get(key) {
            Some(field) => field.as_u64(),
            None => None,
        },
        Err(_) => None,
    }
}

/// How one response is classified, for every status and body.  A
/// client-fault status yields the platform's structured error, carrying
/// that status and the body's `message` — never a success; any other
/// status yields the created asset the body describes.  Either way, a body
/// without the expected fields is a decoding failure carrying the body.
pub open spec fn classified_response(status: u16, body: Seq<char>, r: Result<Asset, Error>) -> bool {
    if is_client_fault_status(status) {
        match json_str_field(body, "message"@) {
            Some(m) => r matches Err(Error::Fault { code, error }) && code == status
                && error.message@ == m,
            None => r matches Err(Error::Codec(b)) && b@ == body,
        }
    } else {
        match (json_u64_field(body, "id"@), json_str_field(body, "name"@)) {
            (Some(i), Some(n)) => r matches Ok(a) && a.id == i && a.name@ == n,
            _ => r matches Err(Error::Codec(b)) && b@ == body,
        }
    }
}

/// The position of the first occurrence of the character in the text, or
/// the text's length when it does not occur.
fn find_char(s: &str, c: char) -> (i: usize)
    ensures
        i <= s@.len(),
        forall|j: int| 0 <= j < i ==> s@[j] != c,
        i < s@.len() ==> s@[i as int] == c,
{
    let n: usize = s.unicode_len();
    let mut i: usize = 0;
    while i < n
        invariant
            n == s@.len(),
            i <= n,
            forall|j: int| 0 <= j < i ==> s@[j] != c,
        decreases n - i,
    {
        if s.get_char(i) == c {
            return i;
        }
        i = i + 1;
    }
    i
}

/// Whether the text holds the character anywhere.
fn str_contains_char(s: &str, c: char) -> (r: bool)
    ensures
        r == s@.contains(c),
{
    let i = find_char(s, c);
    let n: usize = s.unicode_len();
    if i < n {
        proof {
            assert(s@[i as int] == c);
        }
        true
    } else {
        false
    }
}

/// Issues authenticated POST requests on behalf of one credential, which
/// it borrows for its whole lifetime and never mutates.
pub struct AssetsClient<'a> {
    pub agent: String,
    pub credentials: &'a Credentials,
}

impl<'a> AssetsClient<'a> {
    /// A client that identifies itself with this crate's product string
    /// and authenticates with the given credential.
    pub fn new(credentials: &'a Credentials) -> (r: AssetsClient<'a>)
        ensures
            r.agent@ == "hubcaps-assets-upload/0.1.0"@,
            r.credentials == credentials,
    {
        AssetsClient { agent: "hubcaps-assets-upload/0.1.0".to_owned(), credentials }
    }

    /// Builds the request skeleton against the given URL with
    /// authentication applied: the documented modification for each
    /// credential variant, and no other.
    pub fn authenticate(&self, method: Method, url: String) -> (r: RequestPlan)
        ensures
            authenticated_request(*self.credentials, method, url@, r),
    {
        match self.credentials {
            Credentials::Token(token) => {
                let mut value = "token ".to_owned();
                value.append(token.as_str());
                let mut headers: Vec<(String, String)> = Vec::new();
                headers.push(("Authorization".to_owned(), value));
                let r = RequestPlan { method, url, headers, body: Vec::new() };
                proof {
                    assert(header_views(r.headers@) =~= auth_headers(*self.credentials));
                }
                r
            },
            Credentials::Client { id, secret } => {
                let n: usize = url.as_str().unicode_len();
                let cut: usize = find_char(url.as_str(), '#');
                proof {
                    lemma_first_hash_at(url@, cut as int);
                }
                let base = url.as_str().substring_char(0, cut);
                let fragment = url.as_str().substring_char(cut, n);
                let mut target = base.to_owned();
                if str_contains_char(base, '?') {
                    target.append("&");
                } else {
                    target.append("?");
                }
                target.append("client_id=");
                let encoded_id = form_encode(id.as_str());
                target.append(encoded_id.as_str());
                target.append("&client_secret=");
                let encoded_secret = form_encode(secret.as_str());
                target.append(encoded_secret.as_str());
                target.append(fragment);
                let r = RequestPlan { method, url: target, headers: Vec::new(), body: Vec::new() };
                proof {
                    assert(header_views(r.headers@) =~= auth_headers(*self.credentials));
                }
                r
            },
            Credentials::Anonymous => {
                let r = RequestPlan { method, url, headers: Vec::new(), body: Vec::new() };
                proof {
                    assert(header_views(r.headers@) =~= auth_headers(*self.credentials));
                }
                r
            },
        }
    }

    /// Describes the POST the transport is to perform: authentication
    /// applied, the client's product string and the declared content type
    /// as headers, and the asset bytes as the body.
    pub fn post_request(&self, url: String, content_type: &str, body: Vec<u8>) -> (r: RequestPlan)
        ensures
            post_plan(*self.credentials, url@, self.agent@, content_type@, body@, r),
    {
        let mut plan = self.authenticate(Method::Post, url);
        plan.headers.push(("User-Agent".to_owned(), self.agent.clone()));
        plan.headers.push(("Content-Type".to_owned(), content_type.to_owned()));
        plan.body = body;
        proof {
            assert(header_views(plan.headers@) =~= auth_headers(*self.credentials) + seq![
                ("User-Agent"@, self.agent@),
                ("Content-Type"@, content_type@),
            ]);
        }
        plan
    }

    /// Classifies the response the transport read back: a recognized
    /// client-fault status becomes the structured platform fault, any
    /// other status becomes the created asset, and a body that does not
    /// decode becomes a decoding error — exactly as
    /// [`classified_response`] states.
    pub fn interpret_response(&self, status: u16, body: &str) -> (r: Result<Asset, Error>)
        ensures
            classified_response(status, body@, r),
    {
        let fault = status == 400 || status == 401 || status == 403 || status == 404
            || status == 409 || status == 422;
        if fault {
            match json_string_field(body, "message") {
                Some(message) => Err(Error::Fault { code: status, error: ClientError { message } }),
                None => Err(Error::Codec(body.to_owned())),
            }
        } else {
            let id = json_number_field(body, "id");
            let name = json_string_field(body, "name");
            match (id, name) {
                (Some(i), Some(n)) => Ok(Asset { id: i, name: n }),
                _ => Err(Error::Codec(body.to_owned())),
            }
        }
    }
}

} // verus!
