//! Capability URLs: how they are issued, and how a request that presents
//! one is judged.

use base64::engine::general_purpose::URL_SAFE;
use base64::Engine;
use vstd::prelude::*;
use vstd::string::StringExecFns;
use vstd::utf8::encode_utf8;
use crate::decimal::{decimal, format_i64, number_i64, parse_i64};
use crate::signed_url::extractor::Claims;
use crate::signed_url::laws::{honoured_until, issued_tag, lemma_issued_capability_is_honoured};
use crate::signed_url::query::{field, query_value, value_of};
use crate::signer::{HMACSigner, Signer};
use crate::text::{chars_of, copy_range, find_from, first_index, lemma_first_index, str_eq, string_of};
use crate::utils::{RealTime, Time};

verus! {

/// What a capability lets its bearer do to one object.
#[derive(Debug, Clone, Copy, PartialEq, Eq, Structural)]
pub enum AvailableActions {
    Put,
    Get,
    Delete,
}

/// The action that the word `s` names.
pub open spec fn action_named(s: Seq<char>) -> Option<AvailableActions> {
    if s == "Put"@ {
        Some(AvailableActions::Put)
    } else if s == "Get"@ {
        Some(AvailableActions::Get)
    } else if s == "Delete"@ {
        Some(AvailableActions::Delete)
    } else {
        None
    }
}

impl AvailableActions {
    /// The word that names the action in a capability.
    pub open spec fn name(self) -> Seq<char> {
        match self {
            AvailableActions::Put => "Put"@,
            AvailableActions::Get => "Get"@,
            AvailableActions::Delete => "Delete"@,
        }
    }

    /// The HTTP method that a request must use to do the action.
    pub open spec fn method(self) -> Seq<char> {
        match self {
            AvailableActions::Put => "PUT"@,
            AvailableActions::Get => "GET"@,
            AvailableActions::Delete => "DELETE"@,
        }
    }

    /// The word that names the action in a capability.
    pub fn as_str(&self) -> (r: &'static str)
        ensures
            r@ == self.name(),
    {
        match self {
            AvailableActions::Put => "Put",
            AvailableActions::Get => "Get",
            AvailableActions::Delete => "Delete",
        }
    }

    /// The word that names the action in a capability.
    pub fn to_string(&self) -> (r: String)
        ensures
            r@ == self.name(),
    {
        self.as_str().to_owned()
    }

    /// The HTTP method that a request must use to do the action.
    pub fn http_method(&self) -> (r: &'static str)
        ensures
            r@ == self.method(),
    {
        match self {
            AvailableActions::Put => "PUT",
            AvailableActions::Get => "GET",
            AvailableActions::Delete => "DELETE",
        }
    }

    /// The action that the word `s` names.
    pub fn from_name(s: &str) -> (r: Option<Self>)
        ensures
            r == action_named(s@),
    {
        if str_eq(s, "Put") {
            Some(AvailableActions::Put)
        } else if str_eq(s, "Get") {
            Some(AvailableActions::Get)
        } else if str_eq(s, "Delete") {
            Some(AvailableActions::Delete)
        } else {
            None
        }
    }

    /// Each action is the one that its own word names.
    pub proof fn lemma_name_names_it(self)
        ensures
            action_named(self.name()) == Some(self),
    {
        reveal_strlit("Put");
        reveal_strlit("Get");
        reveal_strlit("Delete");
        assert("Put"@[0] == 'P' && "Get"@[0] == 'G' && "Delete"@[0] == 'D');
    }
}

/// Why a capability was not issued, or not honoured, without the words
/// that go with it.
#[derive(PartialEq, Eq, Structural)]
pub enum Fault {
    MissingQueryParams,
    InvalidEncoding,
    InvalidBaseUrl,
    InternalError,
    Expired,
    InvalidSignature,
    Unauthorized,
}

/// Why a capability was not issued, or not honoured.
#[derive(Debug)]
pub enum SignedUrlError {
    MissingQueryParams(String),
    InvalidEncoding,
    InvalidBaseUrl(String),
    InternalError(String),
    Expired,
    InvalidSignature,
    Unauthorized,
}

impl View for SignedUrlError {
    type V = Fault;

    open spec fn view(&self) -> Fault {
        match self {
            SignedUrlError::MissingQueryParams(_) => Fault::MissingQueryParams,
            SignedUrlError::InvalidEncoding => Fault::InvalidEncoding,
            SignedUrlError::InvalidBaseUrl(_) => Fault::InvalidBaseUrl,
            SignedUrlError::InternalError(_) => Fault::InternalError,
            SignedUrlError::Expired => Fault::Expired,
            SignedUrlError::InvalidSignature => Fault::InvalidSignature,
            SignedUrlError::Unauthorized => Fault::Unauthorized,
        }
    }
}

impl SignedUrlError {
    /// The words that go with the error.
    pub open spec fn text(self) -> Seq<char> {
        match self {
            SignedUrlError::MissingQueryParams(m) => m@,
            SignedUrlError::InvalidEncoding => "Invalid encoding"@,
            SignedUrlError::InvalidBaseUrl(m) => m@,
            SignedUrlError::InternalError(m) => m@,
            SignedUrlError::Expired => "Expired"@,
            SignedUrlError::InvalidSignature => "Invalid signature"@,
            SignedUrlError::Unauthorized => "Unauthorized"@,
        }
    }

    /// The words that go with the error.
    pub fn to_string(&self) -> (r: String)
        ensures
            r@ == self.text(),
    {
        match self {
            SignedUrlError::MissingQueryParams(m) => m.clone(),
            SignedUrlError::InvalidEncoding => "Invalid encoding".to_owned(),
            SignedUrlError::InvalidBaseUrl(m) => m.clone(),
            SignedUrlError::InternalError(m) => m.clone(),
            SignedUrlError::Expired => "Expired".to_owned(),
            SignedUrlError::InvalidSignature => "Invalid signature".to_owned(),
            SignedUrlError::Unauthorized => "Unauthorized".to_owned(),
        }
    }
}

/// The parts of a URL, as text.
pub struct Locator {
    pub scheme: Option<Seq<char>>,
    pub authority: Option<Seq<char>>,
    pub path: Seq<char>,
    pub query: Option<Seq<char>>,
}

/// The parts of a URL.
#[derive(Debug)]
pub struct UriParts {
    pub scheme: Option<String>,
    pub authority: Option<String>,
    pub path: String,
    pub query: Option<String>,
}

/// The text of a string that may be absent.
pub open spec fn text_of(s: Option<String>) -> Option<Seq<char>> {
    match s {
        Some(t) => Some(t@),
        None => None,
    }
}

/// The text of a string slice that may be absent.
pub open spec fn str_text(s: Option<&str>) -> Option<Seq<char>> {
    match s {
        Some(t) => Some(t@),
        None => None,
    }
}

impl View for UriParts {
    type V = Locator;

    open spec fn view(&self) -> Locator {
        Locator {
            scheme: text_of(self.scheme),
            authority: text_of(self.authority),
            path: self.path@,
            query: text_of(self.query),
        }
    }
}

/// The parts that `text` falls into when it is read as a URL; `None` where
/// it is no URL.
pub uninterp spec fn parsed_uri(text: Seq<char>) -> Option<Locator>;

/// `http::Uri::from_str`, with `Uri::scheme_str`, `Uri::authority`,
/// `Uri::path` and `Uri::query`: reads `text` as a URL and hands out its
/// parts, or the parser's own words for what is wrong with it.
#[verifier::external_body]
fn split_uri(text: &str) -> (r: Result<UriParts, String>)
    ensures
        match r {
            Ok(parts) => parsed_uri(text@) == Some(parts@),
            Err(_) => parsed_uri(text@) is None,
        },
{
    match text.parse::<http::Uri>() {
        Ok(uri) => Ok(
            UriParts {
                scheme: uri.scheme_str().map(|s| s.to_string()),
                authority: uri.authority().map(|a| a.as_str().to_string()),
                path: uri.path().to_string(),
                query: uri.query().map(|q| q.to_string()),
            },
        ),
        Err(e) => Err(e.to_string()),
    }
}

/// `data` in URL-safe base64 with padding.
pub uninterp spec fn base64url(data: Seq<u8>) -> Seq<char>;

/// The bytes that `text` stands for in URL-safe base64 with padding;
/// `None` where it is no such encoding.
pub uninterp spec fn base64url_decoded(text: Seq<char>) -> Option<Seq<u8>>;

/// Whether `c` can occur in URL-safe base64 with padding.
pub open spec fn is_base64url_char(c: char) -> bool {
    ||| ('A' <= c && c <= 'Z')
    ||| ('a' <= c && c <= 'z')
    ||| ('0' <= c && c <= '9')
    ||| c == '-'
    ||| c == '_'
    ||| c == '='
}

/// Whether `text` is what the encoder gives for `data`: the encoding
/// itself, made of the characters of its alphabet, and read back as `data`.
pub open spec fn is_encoding_of(text: Seq<char>, data: Seq<u8>) -> bool {
    &&& text == base64url(data)
    &&& base64url_decoded(text) == Some(data)
    &&& forall|i: int| 0 <= i < text.len() ==> is_base64url_char(#[trigger] text[i])
}

/// `Engine::encode` of `base64::engine::general_purpose::URL_SAFE`: the
/// encoding of `data` in the URL-safe alphabet, padded with `=` to a
/// multiple of four characters. The same engine reads it back as `data`.
/// The length that is asked of `data` keeps the encoded length within
/// `usize`.
#[verifier::external_body]
fn base64url_encode(data: &[u8]) -> (r: String)
    requires
        data@.len() <= usize::MAX / 2,
    ensures
        r@ == base64url(data@),
        is_encoding_of(r@, data@),
{
    URL_SAFE.encode(data)
}

/// `Engine::decode` of `base64::engine::general_purpose::URL_SAFE`: the
/// bytes that `text` encodes, or nothing where `text` is not a canonical
/// padded encoding in the URL-safe alphabet.
#[verifier::external_body]
fn base64url_decode(text: &str) -> (r: Option<Vec<u8>>)
    ensures
        match r {
            Some(bytes) => base64url_decoded(text@) == Some(bytes@),
            None => base64url_decoded(text@) is None,
        },
{
    URL_SAFE.decode(text).ok()
}

/// What the query of a capability URL says, once read.
#[derive(Debug, Clone)]
pub struct SignedURLParams {
    pub action: AvailableActions,
    pub expires: i64,
    pub signature: String,
}

/// What the query of a capability URL says, as text.
pub struct ParamsView {
    pub action: AvailableActions,
    pub expires: i64,
    pub signature: Seq<char>,
}

impl View for SignedURLParams {
    type V = ParamsView;

    open spec fn view(&self) -> ParamsView {
        ParamsView { action: self.action, expires: self.expires, signature: self.signature@ }
    }
}

/// What the query `query` says: the action, the expiry and the signature
/// that it names under `action`, `expires` and `signature`, in whatever
/// order and among whatever else. `None` where one of the three is
/// missing, the action is none of the known ones, or the expiry is no
/// 64-bit number.
pub open spec fn params_of(query: Seq<char>) -> Option<ParamsView> {
    match (
        query_value(query, "action"@),
        query_value(query, "expires"@),
        query_value(query, "signature"@),
    ) {
        (Some(a), Some(e), Some(s)) => match (action_named(a), number_i64(e)) {
            (Some(action), Some(expires)) => Some(ParamsView { action, expires, signature: s }),
            _ => None,
        },
        _ => None,
    }
}

impl SignedURLParams {
    /// Reads what the query `query` says.
    pub fn parse(query: &str) -> (r: Option<Self>)
        ensures
            match params_of(query@) {
                Some(p) => r matches Some(x) && x@ == p,
                None => r is None,
            },
    {
        let q = chars_of(query);
        let action = value_of(&q, &chars_of("action"));
        let expires = value_of(&q, &chars_of("expires"));
        let signature = value_of(&q, &chars_of("signature"));
        match (action, expires, signature) {
            (Some(a), Some(e), Some(s)) => {
                match (AvailableActions::from_name(string_of(&a).as_str()), parse_i64(&e)) {
                    (Some(action), Some(expires)) => Some(
                        SignedURLParams { action, expires, signature: string_of(&s) },
                    ),
                    _ => None,
                }
            },
            _ => None,
        }
    }
}

/// The path `rel` as seen from the path `base`: `rel` itself where it
/// starts at the root, else `base` and `rel` with one `/` between them.
pub open spec fn join_path(base: Seq<char>, rel: Seq<char>) -> Seq<char> {
    if rel.len() > 0 && rel[0] == '/' {
        rel
    } else if base.len() == 0 || base.last() == '/' {
        base + rel
    } else {
        base + seq!['/'] + rel
    }
}

/// The query that states an action and an expiry.
pub open spec fn claim_query(action: AvailableActions, expires: int) -> Seq<char> {
    field("action"@, action.name()) + seq!['&'] + field("expires"@, decimal(expires))
}

/// The query of a capability: what it states, and the tag `mac` that
/// vouches for it.
pub open spec fn capability_query(action: AvailableActions, expires: int, mac: Seq<u8>) -> Seq<
    char,
> {
    claim_query(action, expires) + seq!['&'] + field("signature"@, base64url(mac))
}

/// The URL made of the given parts.
pub open spec fn url_text(
    scheme: Seq<char>,
    authority: Seq<char>,
    path: Seq<char>,
    query: Seq<char>,
) -> Seq<char> {
    scheme + "://"@ + authority + path + seq!['?'] + query
}

/// The scheme of capability URLs under `base`: its own, or `https` where
/// it has none.
pub open spec fn scheme_of(base: Locator) -> Seq<char> {
    match base.scheme {
        Some(s) => s,
        None => "https"@,
    }
}

/// The text that is signed for the capability to do `action` on the
/// object at `rel` until `expires`: the URL under `base` that states
/// both. `None` where `base` names no authority, or the text is not a URL
/// that reads back as the parts it was made of.
pub open spec fn signable(
    base: Locator,
    rel: Seq<char>,
    action: AvailableActions,
    expires: int,
) -> Option<Seq<char>> {
    match base.authority {
        None => None,
        Some(authority) => {
            let scheme = scheme_of(base);
            let path = join_path(base.path, rel);
            let query = claim_query(action, expires);
            let text = url_text(scheme, authority, path, query);
            if parsed_uri(text) == Some(
                Locator {
                    scheme: Some(scheme),
                    authority: Some(authority),
                    path: path,
                    query: Some(query),
                },
            ) {
                Some(text)
            } else {
                None
            }
        },
    }
}

/// The capability URL: the signed text, and the tag `mac` after it.
pub open spec fn sealed(text: Seq<char>, mac: Seq<u8>) -> Seq<char> {
    text + seq!['&'] + field("signature"@, base64url(mac))
}

/// What issuing a capability at the time `now` gives: the URL that lets
/// its bearer do `action` on the object at `rel` for `ttl` seconds, signed
/// by `signer`.
pub open spec fn issued<S: Signer>(
    signer: S,
    base: Locator,
    now: int,
    rel: Seq<char>,
    action: AvailableActions,
    ttl: int,
) -> Result<Seq<char>, Fault> {
    let expires = now + ttl;
    if !(i64::MIN <= expires <= i64::MAX) {
        Err(Fault::InternalError)
    } else {
        match signable(base, rel, action, expires) {
            None => Err(Fault::InvalidBaseUrl),
            Some(text) => match signer.tag(encode_utf8(text)) {
                None => Err(Fault::InternalError),
                Some(mac) => if mac.len() > usize::MAX / 2 {
                    Err(Fault::InternalError)
                } else {
                    Ok(sealed(text, mac))
                },
            },
        }
    }
}

/// What a capability is found to say when it is presented at the time
/// `now` for the path `path` with the query `query`: what the query says,
/// where its signature is the tag that `signer` gives to the text signed
/// for that path, action and expiry, and the expiry has not passed.
pub open spec fn vetted<S: Signer>(
    signer: S,
    base: Locator,
    now: int,
    path: Seq<char>,
    query: Option<Seq<char>>,
) -> Result<ParamsView, Fault> {
    match query {
        None => Err(Fault::MissingQueryParams),
        Some(q) => match params_of(q) {
            None => Err(Fault::MissingQueryParams),
            Some(p) => match base64url_decoded(p.signature) {
                None => Err(Fault::InvalidEncoding),
                Some(presented) => match signable(base, path, p.action, p.expires as int) {
                    None => Err(Fault::InvalidBaseUrl),
                    Some(text) => match signer.tag(encode_utf8(text)) {
                        None => Err(Fault::InternalError),
                        Some(tag) => if presented != tag {
                            Err(Fault::InvalidSignature)
                        } else if p.expires < now {
                            Err(Fault::Expired)
                        } else {
                            Ok(p)
                        },
                    },
                },
            },
        },
    }
}

/// The destination and the object name that `path` names: the two
/// segments of a path that has exactly two, neither empty.
pub open spec fn split_path(path: Seq<char>) -> Option<(Seq<char>, Seq<char>)> {
    if path.len() == 0 || path[0] != '/' {
        None
    } else {
        let rest = path.skip(1);
        let k = first_index(rest, '/');
        let name = rest.skip(k + 1);
        if 0 < k && k < rest.len() && name.len() > 0 && first_index(name, '/') == name.len() {
            Some((rest.take(k), name))
        } else {
            None
        }
    }
}

/// What a verified capability entitles a request to, as text.
pub struct ClaimsView {
    pub action: AvailableActions,
    pub path: (Seq<char>, Seq<char>),
}

/// What a request is entitled to when it presents a capability at the
/// time `now`, for the path `path` with the query `query`, and, where
/// `method` is given, with that HTTP method.
pub open spec fn authorized<S: Signer>(
    signer: S,
    base: Locator,
    now: int,
    path: Seq<char>,
    query: Option<Seq<char>>,
    method: Option<Seq<char>>,
) -> Result<ClaimsView, Fault> {
    match vetted(signer, base, now, path, query) {
        Err(e) => Err(e),
        Ok(p) => match split_path(path) {
            None => Err(Fault::InvalidBaseUrl),
            Some(segments) => if method is Some && method->0 != p.action.method() {
                Err(Fault::InvalidSignature)
            } else {
                Ok(ClaimsView { action: p.action, path: segments })
            },
        },
    }
}

/// What presenting the URL `url` at the time `now` comes to: nothing wrong,
/// where it is a URL whose path and query entitle a request to something,
/// whatever its method.
pub open spec fn checked<S: Signer>(signer: S, base: Locator, now: int, url: Seq<char>) -> Result<
    (),
    Fault,
> {
    match parsed_uri(url) {
        None => Err(Fault::InvalidBaseUrl),
        Some(parts) => match authorized(signer, base, now, parts.path, parts.query, None) {
            Err(e) => Err(e),
            Ok(_) => Ok(()),
        },
    }
}

/// `rel` as seen from `base`.
pub fn join_paths(base: &str, rel: &str) -> (r: String)
    ensures
        r@ == join_path(base@, rel@),
{
    let b = chars_of(base);
    let r = chars_of(rel);
    if r.len() > 0 && r[0] == '/' {
        return rel.to_owned();
    }
    let mut out = base.to_owned();
    if b.len() > 0 && b[b.len() - 1] != '/' {
        out.push('/');
    }
    out.append(rel);
    out
}

/// Appends to `out` the field that gives `value` to `key`.
pub fn push_field(out: &mut String, key: &str, value: &str)
    ensures
        final(out)@ == old(out)@ + field(key@, value@),
{
    out.append(key);
    out.push('=');
    out.append(value);
}

/// The query that states `action` and `expires`.
pub fn claim_query_string(action: AvailableActions, expires: i64) -> (r: String)
    ensures
        r@ == claim_query(action, expires as int),
{
    let mut out = String::new();
    push_field(&mut out, "action", action.as_str());
    out.push('&');
    let number = string_of(&format_i64(expires));
    push_field(&mut out, "expires", number.as_str());
    out
}

/// Whether the two strings, each of which may be absent, hold the same.
pub fn same_text(a: &Option<String>, b: Option<&str>) -> (r: bool)
    ensures
        r == (text_of(*a) == str_text(b)),
{
    match (a, b) {
        (Some(x), Some(y)) => str_eq(x.as_str(), y),
        (None, None) => true,
        _ => false,
    }
}

/// The destination and the object name that `path` names.
pub fn split_segments(path: &str) -> (r: Option<(String, String)>)
    ensures
        match split_path(path@) {
            Some(segments) => r matches Some(x) && x.0@ == segments.0 && x.1@ == segments.1,
            None => r is None,
        },
{
    let p = chars_of(path);
    if p.len() == 0 || p[0] != '/' {
        return None;
    }
    let ghost rest = p@.skip(1);
    let slash = find_from(&p, 1, '/');
    if slash == 1 || slash >= p.len() || slash + 1 >= p.len() {
        proof {
            lemma_first_index(rest, '/');
        }
        return None;
    }
    let ghost name = rest.skip(slash - 1 + 1);
    proof {
        assert(name =~= p@.skip(slash + 1));
    }
    let another = find_from(&p, slash + 1, '/');
    if another < p.len() {
        return None;
    }
    let first = copy_range(&p, 1, slash);
    let second = copy_range(&p, slash + 1, p.len());
    Some((string_of(&first), string_of(&second)))
}

/// The outcome of issuing, as text.
pub open spec fn url_outcome(r: Result<String, SignedUrlError>) -> Result<Seq<char>, Fault> {
    match r {
        Ok(u) => Ok(u@),
        Err(e) => Err(e@),
    }
}

/// The outcome of reading a capability, as text.
pub open spec fn params_outcome(r: Result<SignedURLParams, SignedUrlError>) -> Result<
    ParamsView,
    Fault,
> {
    match r {
        Ok(p) => Ok(p@),
        Err(e) => Err(e@),
    }
}

/// The outcome of authorizing a request, as text.
pub open spec fn claims_outcome(r: Result<Claims, SignedUrlError>) -> Result<ClaimsView, Fault> {
    match r {
        Ok(c) => Ok(c@),
        Err(e) => Err(e@),
    }
}

/// The outcome of checking a URL, without the words of the error.
pub open spec fn check_outcome(r: Result<(), SignedUrlError>) -> Result<(), Fault> {
    match r {
        Ok(_) => Ok(()),
        Err(e) => Err(e@),
    }
}

/// Issues capability URLs and judges the requests that present them.
pub trait SignedUrlService<S> where S: Signer {
    /// Issues a capability that expires `expires_in` seconds from now.
    fn sign_url(&self, prefix: String, action: AvailableActions, expires_in: i64) -> Result<
        String,
        SignedUrlError,
    >;

    /// Tells whether `url` holds a capability that is genuine, has not
    /// expired, and is for a path that names a destination and an object.
    fn verify_url(&self, url: &str) -> Result<(), SignedUrlError>;
}

/// Capability URLs under one base URL, signed by `S` and dated by `T`.
pub struct SignedUrlServiceImpl<S, T> where S: Signer, T: Time {
    signer: S,
    time: T,
    base_url: UriParts,
}

/// Capability URLs signed with HMAC-SHA256 and dated by the machine's
/// clock.
pub type HMACUrlService = SignedUrlServiceImpl<HMACSigner, RealTime>;

impl<S, T> SignedUrlServiceImpl<S, T> where S: Signer, T: Time {
    /// The signer of the service.
    pub closed spec fn signer(&self) -> S {
        self.signer
    }

    /// The base URL of the service, in parts.
    pub closed spec fn base(&self) -> Locator {
        self.base_url@
    }

    /// A service for the capability URLs under `base_url`.
    pub fn new(signer: S, time: T, base_url: String) -> (r: Result<Self, SignedUrlError>)
        ensures
            match parsed_uri(base_url@) {
                Some(parts) => r matches Ok(s) && s.base() == parts && s.signer() == signer,
                None => r matches Err(e) && e@ == Fault::InvalidBaseUrl,
            },
    {
        match split_uri(base_url.as_str()) {
            Ok(parts) => Ok(Self { signer, time, base_url: parts }),
            Err(e) => Err(SignedUrlError::InvalidBaseUrl(e)),
        }
    }

    /// The text that is signed for the capability to do `action` on the
    /// object at `prefix` until `expires`.
    pub fn build_signable_url(&self, prefix: &str, action: AvailableActions, expires: i64) -> (r:
        Result<String, SignedUrlError>)
        ensures
            match signable(self.base(), prefix@, action, expires as int) {
                Some(text) => r matches Ok(u) && u@ == text,
                None => r matches Err(e) && e@ == Fault::InvalidBaseUrl,
            },
    {
        let authority = match &self.base_url.authority {
            Some(a) => a.as_str(),
            None => {
                return Err(SignedUrlError::InvalidBaseUrl("Authority is missing".to_owned()));
            },
        };
        let scheme = match &self.base_url.scheme {
            Some(s) => s.as_str(),
            None => "https",
        };
        let path = join_paths(self.base_url.path.as_str(), prefix);
        let query = claim_query_string(action, expires);
        let mut url = scheme.to_owned();
        url.append("://");
        url.append(authority);
        url.append(path.as_str());
        url.push('?');
        url.append(query.as_str());
        assert(url@ =~= url_text(scheme@, authority@, path@, query@));
        match split_uri(url.as_str()) {
            Ok(parts) => {
                if same_text(&parts.scheme, Some(scheme)) && same_text(
                    &parts.authority,
                    Some(authority),
                ) && str_eq(parts.path.as_str(), path.as_str()) && same_text(
                    &parts.query,
                    Some(query.as_str()),
                ) {
                    Ok(url)
                } else {
                    Err(SignedUrlError::InvalidBaseUrl("Path is invalid".to_owned()))
                }
            },
            Err(e) => Err(SignedUrlError::InvalidBaseUrl(e)),
        }
    }

    /// Issues, at the time `now`, the capability to do `action` on the
    /// object at `prefix` for `expires_in` seconds. The URL that comes out
    /// is honoured until it expires, wherever its path names a destination
    /// and an object.
    pub fn sign_url_at(&self, now: i64, prefix: &str, action: AvailableActions, expires_in: i64) -> (r:
        Result<String, SignedUrlError>)
        ensures
            url_outcome(r) == issued(
                self.signer(),
                self.base(),
                now as int,
                prefix@,
                action,
                expires_in as int,
            ),
            r is Ok && split_path(join_path(self.base().path, prefix@)) is Some ==> honoured_until(
                self.signer(),
                self.base(),
                join_path(self.base().path, prefix@),
                capability_query(
                    action,
                    now + expires_in,
                    issued_tag(
                        self.signer(),
                        self.base(),
                        now as int,
                        prefix@,
                        action,
                        expires_in as int,
                    ),
                ),
                action,
                now + expires_in,
            ),
    {
        let expires = match now.checked_add(expires_in) {
            Some(e) => e,
            None => {
                return Err(SignedUrlError::InternalError("Expiry is out of range".to_owned()));
            },
        };
        let mut url = match self.build_signable_url(prefix, action, expires) {
            Ok(u) => u,
            Err(e) => {
                return Err(e);
            },
        };
        let mac = match self.signer.sign(url.as_str().as_bytes()) {
            Ok(m) => m,
            Err(e) => {
                return Err(SignedUrlError::InternalError(e.to_string()));
            },
        };
        if mac.len() > usize::MAX / 2 {
            return Err(SignedUrlError::InternalError("Signature is too long".to_owned()));
        }
        let encoded = base64url_encode(mac.as_slice());
        let ghost text = url@;
        url.push('&');
        push_field(&mut url, "signature", encoded.as_str());
        assert(url@ =~= sealed(text, mac@));
        proof {
            let path = join_path(self.base().path, prefix@);
            if split_path(path) is Some {
                assert forall|later: int, method: Option<Seq<char>>|
                    later <= now + expires_in && (method is Some ==> method->0
                        == action.method()) implies #[trigger] authorized(
                    self.signer(),
                    self.base(),
                    later,
                    path,
                    Some(capability_query(action, now + expires_in, mac@)),
                    method,
                ) == Ok::<ClaimsView, Fault>(
                    ClaimsView { action, path: split_path(path)->0 },
                ) by {
                    lemma_issued_capability_is_honoured(
                        self.signer(),
                        self.base(),
                        now as int,
                        prefix@,
                        action,
                        expires_in as int,
                        later,
                        method,
                    );
                }
            }
        }
        Ok(url)
    }

    /// Reads, at the time `now`, the capability that the query `query`
    /// presents for the path `path`.
    pub fn examine(&self, now: i64, path: &str, query: Option<&str>) -> (r: Result<
        SignedURLParams,
        SignedUrlError,
    >)
        ensures
            params_outcome(r) == vetted(
                self.signer(),
                self.base(),
                now as int,
                path@,
                str_text(query),
            ),
    {
        let q = match query {
            Some(q) => q,
            None => {
                return Err(SignedUrlError::MissingQueryParams("Missing query params".to_owned()));
            },
        };
        let params = match SignedURLParams::parse(q) {
            Some(p) => p,
            None => {
                return Err(SignedUrlError::MissingQueryParams("Invalid query params".to_owned()));
            },
        };
        let presented = match base64url_decode(params.signature.as_str()) {
            Some(s) => s,
            None => {
                return Err(SignedUrlError::InvalidEncoding);
            },
        };
        let url = match self.build_signable_url(path, params.action, params.expires) {
            Ok(u) => u,
            Err(e) => {
                return Err(e);
            },
        };
        match self.signer.verify(url.as_str().as_bytes(), presented.as_slice()) {
            Ok(true) => {},
            Ok(false) => {
                return Err(SignedUrlError::InvalidSignature);
            },
            Err(e) => {
                return Err(SignedUrlError::InternalError(e.to_string()));
            },
        }
        if params.expires < now {
            return Err(SignedUrlError::Expired);
        }
        Ok(params)
    }

    /// Judges, at the time `now`, a request for the path `path` that
    /// presents the query `query` and, where `method` is given, uses that
    /// HTTP method.
    pub fn verify_parts_at(
        &self,
        now: i64,
        path: &str,
        query: Option<&str>,
        method: Option<&str>,
    ) -> (r: Result<Claims, SignedUrlError>)
        ensures
            claims_outcome(r) == authorized(
                self.signer(),
                self.base(),
                now as int,
                path@,
                str_text(query),
                str_text(method),
            ),
    {
        let params = match self.examine(now, path, query) {
            Ok(p) => p,
            Err(e) => {
                return Err(e);
            },
        };
        let segments = match split_segments(path) {
            Some(s) => s,
            None => {
                return Err(SignedUrlError::InvalidBaseUrl("Path is invalid".to_owned()));
            },
        };
        match method {
            Some(m) => {
                if !str_eq(m, params.action.http_method()) {
                    return Err(SignedUrlError::InvalidSignature);
                }
            },
            None => {},
        }
        Ok(Claims { action: params.action, path: segments })
    }

    /// Tells, at the time `now`, whether `url` holds a capability that is
    /// genuine, has not expired, and is for a path that names a destination
    /// and an object.
    pub fn verify_url_at(&self, now: i64, url: &str) -> (r: Result<(), SignedUrlError>)
        ensures
            check_outcome(r) == checked(self.signer(), self.base(), now as int, url@),
    {
        let parts = match split_uri(url) {
            Ok(p) => p,
            Err(e) => {
                return Err(SignedUrlError::InvalidBaseUrl(e));
            },
        };
        let query = match &parts.query {
            Some(q) => Some(q.as_str()),
            None => None,
        };
        match self.verify_parts_at(now, parts.path.as_str(), query, None) {
            Ok(_) => Ok(()),
            Err(e) => Err(e),
        }
    }
}

impl<S, T> SignedUrlServiceImpl<S, T> where S: Signer, T: Time {
    /// Judges a request by the service's clock: what `verify_parts_at`
    /// gives at the time that the clock tells.
    pub fn verify_parts(&self, path: &str, query: Option<&str>, method: Option<&str>) -> (r: Result<
        Claims,
        SignedUrlError,
    >)
        ensures
            exists|now: i64|
                claims_outcome(r) == #[trigger] authorized(
                    self.signer(),
                    self.base(),
                    now as int,
                    path@,
                    str_text(query),
                    str_text(method),
                ),
    {
        let now = self.time.now();
        self.verify_parts_at(now, path, query, method)
    }
}

impl<S, T> SignedUrlService<S> for SignedUrlServiceImpl<S, T> where S: Signer, T: Time {
    /// Issues a capability by the service's clock: what `sign_url_at`
    /// gives at the time that the clock tells.
    fn sign_url(&self, prefix: String, action: AvailableActions, expires_in: i64) -> (r: Result<
        String,
        SignedUrlError,
    >)
        ensures
            exists|now: i64|
                url_outcome(r) == #[trigger] issued(
                    self.signer(),
                    self.base(),
                    now as int,
                    prefix@,
                    action,
                    expires_in as int,
                ),
    {
        let now = self.time.now();
        self.sign_url_at(now, prefix.as_str(), action, expires_in)
    }

    /// Checks a URL by the service's clock: what `verify_url_at` gives at
    /// the time that the clock tells.
    fn verify_url(&self, url: &str) -> (r: Result<(), SignedUrlError>)
        ensures
            exists|now: i64|
                check_outcome(r) == #[trigger] checked(
                    self.signer(),
                    self.base(),
                    now as int,
                    url@,
                ),
    {
        let now = self.time.now();
        self.verify_url_at(now, url)
    }
}

} // verus!
