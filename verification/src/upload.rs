use vstd::prelude::*;

use crate::creds::Credentials;
use crate::error::Error;
use crate::rep::Release;
use crate::request::AssetRequest;
use crate::transport::header_views;
use crate::transport::post_plan;
use crate::transport::AssetsClient;
use crate::transport::RequestPlan;

verus! {

/// RFC 6570 expansion of a URI template with one scalar variable set.  A
/// function of the template, the variable name and its value alone; named
/// rather than spelled out, since a copy of the expansion rules here could
/// not be held to the expander actually run.
pub uninterp spec fn expanded_one(template: Seq<char>, var: Seq<char>, value: Seq<char>) -> Seq<
    char,
>;

/// RFC 6570 expansion of a URI template with two scalar variables set.  A
/// function of the template and the two name/value pairs alone.
pub uninterp spec fn expanded_two(
    template: Seq<char>,
    var1: Seq<char>,
    value1: Seq<char>,
    var2: Seq<char>,
    value2: Seq<char>,
) -> Seq<char>;

/// Whether the text is a well-formed absolute URL.  A function of the text
/// alone.
pub uninterp spec fn url_accepted(s: Seq<char>) -> bool;

/// Whether a `}` stands at or after the position.
pub open spec fn has_close_at_or_after(t: Seq<char>, i: int) -> bool {
    exists|j: int| i <= j < t.len() && t[j] == '}'
}

/// The scan behind [`template_vars_plain`], from one position on, carrying
/// whether that position stands inside a varlist (an opened `{` not yet
/// closed).  A varlist that never closes is taken by the expander as
/// literal text, so its content does not matter.
pub open spec fn varlists_plain_from(t: Seq<char>, i: int, in_varlist: bool) -> bool
    decreases t.len() - i,
{
    if i >= t.len() {
        true
    } else if in_varlist {
        if t[i] == '}' {
            varlists_plain_from(t, i + 1, false)
        } else if !has_close_at_or_after(t, i) {
            true
        } else {
            t[i] <= '\u{7f}' && t[i] != ':' && varlists_plain_from(t, i + 1, true)
        }
    } else {
        varlists_plain_from(t, i + 1, t[i] == '{')
    }
}

/// Whether every varlist of the template — each region between a `{` and
/// its closing `}` — holds only ASCII characters and no `:` prefix
/// modifier.  Those are the only places where the expander indexes by byte
/// position, so on such a template it returns for every value; literal
/// text and the values themselves may hold any characters.
pub open spec fn template_vars_plain(t: Seq<char>) -> bool {
    varlists_plain_from(t, 0, false)
}

/// Relies on `uritemplate::UriTemplate::new`, `set` and `build`: RFC 6570
/// expansion of the template with the one scalar variable set.  The
/// expander indexes varspec names and prefix-sliced values by byte
/// position, which aborts on multi-byte characters there, so the
/// template's varlists are restricted to ASCII without prefix modifiers;
/// values are encoded byte by byte and are unrestricted.
#[verifier::external_body]
fn expand_template_one(template: &str, var: &str, value: &str) -> (r: String)
    requires
        template_vars_plain(template@),
    ensures
        r@ == expanded_one(template@, var@, value@),
{
    let mut t = uritemplate::UriTemplate::new(template);
    t.set(var, value);
    t.build()
}

/// Relies on `uritemplate::UriTemplate::new`, `set` and `build`: RFC 6570
/// expansion of the template with the two scalar variables set.  The
/// template is restricted as at [`expand_template_one`]; the values are
/// not.
#[verifier::external_body]
fn expand_template_two(
    template: &str,
    var1: &str,
    value1: &str,
    var2: &str,
    value2: &str,
) -> (r: String)
    requires
        template_vars_plain(template@),
    ensures
        r@ == expanded_two(template@, var1@, value1@, var2@, value2@),
{
    let mut t = uritemplate::UriTemplate::new(template);
    t.set(var1, value1);
    t.set(var2, value2);
    t.build()
}

/// Whether the template's varlists are all plain, as
/// [`template_vars_plain`] states: scans once for the last `}`, then walks
/// the text tracking whether it stands inside a varlist.
fn template_check(t: &str) -> (r: bool)
    ensures
        r == template_vars_plain(t@),
{
    let n: usize = t.unicode_len();
    let mut has_close = false;
    let mut last: usize = 0;
    let mut k: usize = 0;
    while k < n
        invariant
            n == t@.len(),
            k <= n,
            has_close ==> last < k && t@[last as int] == '}',
            forall|j: int| 0 <= j < k && t@[j] == '}' ==> has_close && j <= last as int,
        decreases n - k,
    {
        if t.get_char(k) == '}' {
            has_close = true;
            last = k;
        }
        k = k + 1;
    }
    let mut i: usize = 0;
    let mut in_varlist = false;
    while i < n
        invariant
            n == t@.len(),
            i <= n,
            has_close ==> last < n && t@[last as int] == '}',
            forall|j: int| 0 <= j < n && t@[j] == '}' ==> has_close && j <= last as int,
            template_vars_plain(t@) == varlists_plain_from(t@, i as int, in_varlist),
        decreases n - i,
    {
        let c = t.get_char(i);
        if in_varlist {
            if c == '}' {
                in_varlist = false;
            } else if !(has_close && last >= i) {
                proof {
                    assert forall|j: int| i <= j < n implies t@[j] != '}' by {
                        if t@[j] == '}' {
                            assert(has_close && j <= last as int);
                        }
                    }
                    assert(!has_close_at_or_after(t@, i as int));
                }
                return true;
            } else if c > '\u{7f}' || c == ':' {
                proof {
                    assert(has_close_at_or_after(t@, i as int)) by {
                        assert(i <= last < n && t@[last as int] == '}');
                    }
                }
                return false;
            } else {
                proof {
                    assert(has_close_at_or_after(t@, i as int)) by {
                        assert(i <= last < n && t@[last as int] == '}');
                    }
                }
            }
        } else {
            in_varlist = c == '{';
        }
        i = i + 1;
    }
    true
}

/// Relies on `url::Url::parse`: whether the text parses as a well-formed
/// absolute URL.
#[verifier::external_body]
fn parse_url_ok(s: &str) -> (r: bool)
    ensures
        r == url_accepted(s@),
{
    url::Url::parse(s).is_ok()
}

/// The optional label as a character sequence.
pub open spec fn label_view(label: Option<String>) -> Option<Seq<char>> {
    match label {
        Some(l) => Some(l@),
        None => None,
    }
}

/// The release's upload URL template resolved with the asset's name —
/// always — and with its label only when one is present, both
/// percent-encoded by the expansion rules.
pub open spec fn expanded_upload_url(
    template: Seq<char>,
    name: Seq<char>,
    label: Option<Seq<char>>,
) -> Seq<char> {
    match label {
        Some(l) => expanded_two(template, "name"@, name, "label"@, l),
        None => expanded_one(template, "name"@, name),
    }
}

/// Everything one upload attempt promises, for every input.  A request
/// with no content attached fails with the fatal precondition error and
/// describes no send.  A template whose varlists the expander is not
/// trusted on fails with the template text, before any expansion.
/// Otherwise the release's template is resolved with the asset's name and
/// optional label; a resolved text that is not a well-formed absolute URL
/// fails with that text.  On success the outcome is the full POST against
/// the resolved URL — authenticated, carrying the product string and the
/// declared content type, its body byte-identical to the attached
/// content.
pub open spec fn upload_outcome(
    creds: Credentials,
    release: Release,
    req: AssetRequest,
    r: Result<RequestPlan, Error>,
) -> bool {
    match req.content {
        None => r matches Err(Error::MissingContent),
        Some(c) => {
            if !template_vars_plain(release.upload_url@) {
                r matches Err(Error::InvalidUrl(u)) && u@ == release.upload_url@
            } else {
                let target = expanded_upload_url(
                    release.upload_url@,
                    req.name@,
                    label_view(req.label),
                );
                if !url_accepted(target) {
                    r matches Err(Error::InvalidUrl(u)) && u@ == target
                } else {
                    r matches Ok(plan) && post_plan(
                        creds,
                        target,
                        "hubcaps-assets-upload/0.1.0"@,
                        req.content_type@,
                        c@,
                        plan,
                    )
                }
            }
        },
    }
}

/// Prepares asset uploads on behalf of one credential.  Each call builds
/// a fresh client and carries no state between calls.
pub struct AssetUploader {
    pub credentials: Credentials,
}

impl AssetUploader {
    /// An uploader that authenticates every upload with the given
    /// credential.
    pub fn new(credentials: Credentials) -> (r: AssetUploader)
        ensures
            r.credentials == credentials,
    {
        AssetUploader { credentials }
    }

    /// Turns one asset request against one release into the POST the
    /// transport is to perform, consuming the request and its content.
    /// The outcome is exactly what [`upload_outcome`] states: the fatal
    /// precondition error when no content was attached, the fatal URL
    /// error when the template falls outside what the expander is trusted
    /// on or the resolved template is not an absolute URL, and otherwise
    /// the full authenticated request carrying the content as its body.
    pub fn upload(&self, release: &Release, asset_req: AssetRequest) -> (r: Result<
        RequestPlan,
        Error,
    >)
        ensures
            upload_outcome(self.credentials, *release, asset_req, r),
    {
        let AssetRequest { name, content_type, label, content } = asset_req;
        let buf = match content {
            Some(c) => c,
            None => {
                return Err(Error::MissingContent);
            },
        };
        if !template_check(release.upload_url.as_str()) {
            return Err(Error::InvalidUrl(release.upload_url.clone()));
        }
        let url = match label {
            Some(l) => expand_template_two(
                release.upload_url.as_str(),
                "name",
                name.as_str(),
                "label",
                l.as_str(),
            ),
            None => expand_template_one(release.upload_url.as_str(), "name", name.as_str()),
        };
        if !parse_url_ok(url.as_str()) {
            return Err(Error::InvalidUrl(url));
        }
        let client = AssetsClient::new(&self.credentials);
        Ok(client.post_request(url, content_type.as_str(), buf))
    }
}

/// Two upload outcomes that carry the same observable content: the same
/// success or failure, describing the same request or the same error.
pub open spec fn outcomes_agree(r1: Result<RequestPlan, Error>, r2: Result<
    RequestPlan,
    Error,
>) -> bool {
    match (r1, r2) {
        (Ok(p1), Ok(p2)) => plans_agree(p1, p2),
        (Err(e1), Err(e2)) => errors_agree(e1, e2),
        _ => false,
    }
}

/// Two request plans that describe the same send.
pub open spec fn plans_agree(p1: RequestPlan, p2: RequestPlan) -> bool {
    &&& p1.method == p2.method
    &&& p1.url@ == p2.url@
    &&& header_views(p1.headers@) == header_views(p2.headers@)
    &&& p1.body@ == p2.body@
}

/// Two errors that report the same failure with the same payload.
pub open spec fn errors_agree(e1: Error, e2: Error) -> bool {
    match (e1, e2) {
        (Error::MissingContent, Error::MissingContent) => true,
        (Error::InvalidUrl(u1), Error::InvalidUrl(u2)) => u1@ == u2@,
        (Error::Transport(t1), Error::Transport(t2)) => t1@ == t2@,
        (Error::Codec(b1), Error::Codec(b2)) => b1@ == b2@,
        (
            Error::Fault { code: c1, error: err1 },
            Error::Fault { code: c2, error: err2 },
        ) => c1 == c2 && err1.message@ == err2.message@,
        _ => false,
    }
}

/// Uploading the same request twice prepares the same full send both
/// times: the outcome is a function of the credential, the release and
/// the request alone, so nothing remembered from the first call — no
/// cache, no deduplication — can suppress or alter the second.
pub proof fn lemma_upload_deterministic(
    creds: Credentials,
    release: Release,
    req: AssetRequest,
    r1: Result<RequestPlan, Error>,
    r2: Result<RequestPlan, Error>,
)
    requires
        upload_outcome(creds, release, req, r1),
        upload_outcome(creds, release, req, r2),
    ensures
        outcomes_agree(r1, r2),
{
}

} // verus!

