//! What holds of capabilities whoever issues or presents them.

use vstd::prelude::*;
use vstd::utf8::encode_utf8;
use crate::decimal::{decimal, is_digit, lemma_decimal_chars, lemma_number_of_decimal};
use crate::signed_url::query::{is_query_safe, lemma_query_of_three};
use crate::signed_url::service::{
    authorized, base64url, base64url_decoded, capability_query, checked, claim_query,
    is_base64url_char, is_encoding_of, issued, join_path, params_of, parsed_uri, scheme_of,
    sealed, signable, split_path, url_text, vetted, AvailableActions, ClaimsView, Fault,
    Locator, ParamsView,
};
use crate::signer::Signer;
use crate::text::lacks;

verus! {

/// The tag that vouches for the capability issued at `now`: the one that
/// `signer` gives to the text signed for it.
pub open spec fn issued_tag<S: Signer>(
    signer: S,
    base: Locator,
    now: int,
    rel: Seq<char>,
    action: AvailableActions,
    ttl: int,
) -> Seq<u8> {
    signer.tag(encode_utf8(signable(base, rel, action, now + ttl)->0))->0
}

/// Whether the capability that `query` presents for `path` is honoured at
/// every time up to `expires`, with the HTTP method of `action` or with
/// none, and entitles to `action` on what `path` names.
pub open spec fn honoured_until<S: Signer>(
    signer: S,
    base: Locator,
    path: Seq<char>,
    query: Seq<char>,
    action: AvailableActions,
    expires: int,
) -> bool {
    forall|later: int, method: Option<Seq<char>>|
        later <= expires && (method is Some ==> method->0 == action.method()) ==> #[trigger] authorized(
            signer,
            base,
            later,
            path,
            Some(query),
            method,
        ) == Ok::<ClaimsView, Fault>(ClaimsView { action, path: split_path(path)->0 })
}

/// The names of the three parameters, the names of the actions, numbers in
/// decimal and base64 text can all stand in a query as they are, and the
/// names hold no `=`.
proof fn lemma_query_parts_are_safe(action: AvailableActions, expires: int, encoded: Seq<char>)
    requires
        forall|i: int| 0 <= i < encoded.len() ==> is_base64url_char(#[trigger] encoded[i]),
    ensures
        is_query_safe("action"@) && lacks("action"@, '='),
        is_query_safe("expires"@) && lacks("expires"@, '='),
        is_query_safe("signature"@) && lacks("signature"@, '='),
        "action"@ != "expires"@ && "action"@ != "signature"@ && "expires"@ != "signature"@,
        is_query_safe(action.name()),
        is_query_safe(decimal(expires)),
        is_query_safe(encoded),
{
    reveal_strlit("action");
    reveal_strlit("expires");
    reveal_strlit("signature");
    reveal_strlit("Put");
    reveal_strlit("Get");
    reveal_strlit("Delete");
    lemma_decimal_chars(expires);
    let d = decimal(expires);
    assert forall|i: int| 0 <= i < d.len() implies d[i] != '&' && d[i] != '+' && d[i] != '%' by {}
    assert forall|i: int| 0 <= i < encoded.len() implies encoded[i] != '&' && encoded[i] != '+'
        && encoded[i] != '%' by {}
}

/// The query of a capability says what the capability states, and carries
/// the encoded tag as its signature.
pub proof fn lemma_capability_query_reads_back(action: AvailableActions, expires: i64, mac: Seq<u8>)
    requires
        is_encoding_of(base64url(mac), mac),
    ensures
        params_of(capability_query(action, expires as int, mac)) == Some(
            ParamsView { action, expires, signature: base64url(mac) },
        ),
{
    let encoded = base64url(mac);
    lemma_query_parts_are_safe(action, expires as int, encoded);
    lemma_query_of_three(
        "action"@,
        action.name(),
        "expires"@,
        decimal(expires as int),
        "signature"@,
        encoded,
    );
    action.lemma_name_names_it();
    lemma_number_of_decimal(expires as int);
}

/// A capability URL is the URL of the signed text, with the signature
/// added to its query.
pub proof fn lemma_sealed_is_a_url(
    scheme: Seq<char>,
    authority: Seq<char>,
    path: Seq<char>,
    action: AvailableActions,
    expires: int,
    mac: Seq<u8>,
)
    ensures
        sealed(url_text(scheme, authority, path, claim_query(action, expires)), mac) == url_text(
            scheme,
            authority,
            path,
            capability_query(action, expires, mac),
        ),
{
    assert(sealed(url_text(scheme, authority, path, claim_query(action, expires)), mac)
        =~= url_text(scheme, authority, path, capability_query(action, expires, mac)));
}

/// What `issued` gives, where it gives a URL: the URL under the base whose
/// path is the one asked for and whose query is that of the capability.
pub proof fn lemma_issued_url<S: Signer>(
    signer: S,
    base: Locator,
    now: int,
    rel: Seq<char>,
    action: AvailableActions,
    ttl: int,
)
    requires
        issued(signer, base, now, rel, action, ttl) is Ok,
    ensures
        base.authority is Some,
        issued(signer, base, now, rel, action, ttl) == Ok::<Seq<char>, Fault>(
            url_text(
                scheme_of(base),
                base.authority->0,
                join_path(base.path, rel),
                capability_query(
                    action,
                    now + ttl,
                    issued_tag(signer, base, now, rel, action, ttl),
                ),
            ),
        ),
{
    lemma_sealed_is_a_url(
        scheme_of(base),
        base.authority->0,
        join_path(base.path, rel),
        action,
        now + ttl,
        issued_tag(signer, base, now, rel, action, ttl),
    );
}

/// Round trip. A capability that was issued is honoured until it expires:
/// presented for the path it was issued for and with the query it carries,
/// at any time up to its expiry, with the HTTP method of its action or
/// with none, it entitles to that action on the destination and object
/// that the path names. The path must name the two; the encoded tag must
/// be what the encoder gives, as it is in every URL that was really
/// issued.
pub proof fn lemma_issued_capability_is_honoured<S: Signer>(
    signer: S,
    base: Locator,
    now: int,
    rel: Seq<char>,
    action: AvailableActions,
    ttl: int,
    later: int,
    method: Option<Seq<char>>,
)
    requires
        issued(signer, base, now, rel, action, ttl) is Ok,
        is_encoding_of(
            base64url(issued_tag(signer, base, now, rel, action, ttl)),
            issued_tag(signer, base, now, rel, action, ttl),
        ),
        split_path(join_path(base.path, rel)) is Some,
        later <= now + ttl,
        method is Some ==> method->0 == action.method(),
    ensures
        authorized(
            signer,
            base,
            later,
            join_path(base.path, rel),
            Some(
                capability_query(
                    action,
                    now + ttl,
                    issued_tag(signer, base, now, rel, action, ttl),
                ),
            ),
            method,
        ) == Ok::<ClaimsView, Fault>(
            ClaimsView { action, path: split_path(join_path(base.path, rel))->0 },
        ),
{
    let expires = now + ttl;
    let path = join_path(base.path, rel);
    let mac = issued_tag(signer, base, now, rel, action, ttl);
    lemma_capability_query_reads_back(action, expires as i64, mac);
}

/// Round trip, for whole URLs. A capability URL that was issued passes
/// the check of URLs at any time up to its expiry, where it reads back as
/// the parts it was made of and its path names a destination and an
/// object. The encoded tag must be what the encoder gives, as it is in
/// every URL that was really issued.
pub proof fn lemma_issued_url_is_checked<S: Signer>(
    signer: S,
    base: Locator,
    now: int,
    rel: Seq<char>,
    action: AvailableActions,
    ttl: int,
    later: int,
)
    requires
        issued(signer, base, now, rel, action, ttl) is Ok,
        is_encoding_of(
            base64url(issued_tag(signer, base, now, rel, action, ttl)),
            issued_tag(signer, base, now, rel, action, ttl),
        ),
        parsed_uri(issued(signer, base, now, rel, action, ttl)->Ok_0) matches Some(parts)
            && parts.path == join_path(base.path, rel) && parts.query == Some(
            capability_query(action, now + ttl, issued_tag(signer, base, now, rel, action, ttl)),
        ),
        split_path(join_path(base.path, rel)) is Some,
        later <= now + ttl,
    ensures
        checked(signer, base, later, issued(signer, base, now, rel, action, ttl)->Ok_0) == Ok::<
            (),
            Fault,
        >(()),
{
    lemma_issued_capability_is_honoured(signer, base, now, rel, action, ttl, later, None);
}

/// A URL passes the check of URLs exactly where a request for its path
/// with its query, whatever its method, is entitled to something: a URL
/// whose path does not name a destination and an object never passes.
pub proof fn lemma_checked_url_names_an_object<S: Signer>(
    signer: S,
    base: Locator,
    now: int,
    url: Seq<char>,
)
    requires
        checked(signer, base, now, url) is Ok,
    ensures
        parsed_uri(url) is Some,
        split_path(parsed_uri(url)->0.path) is Some,
        authorized(
            signer,
            base,
            now,
            parsed_uri(url)->0.path,
            parsed_uri(url)->0.query,
            None,
        ) is Ok,
{
}

/// A capability is judged by what its query says and by nothing else in
/// it: two queries that say the same, in whatever order and among whatever
/// other parameters, fare the same.
pub proof fn lemma_only_what_the_query_says_counts<S: Signer>(
    signer: S,
    base: Locator,
    now: int,
    path: Seq<char>,
    one: Seq<char>,
    other: Seq<char>,
    method: Option<Seq<char>>,
)
    requires
        params_of(one) == params_of(other),
    ensures
        vetted(signer, base, now, path, Some(one)) == vetted(signer, base, now, path, Some(other)),
        authorized(signer, base, now, path, Some(one), method) == authorized(
            signer,
            base,
            now,
            path,
            Some(other),
            method,
        ),
{
}

/// Tamper sensitivity, first half. A capability whose signature is not
/// the tag of what it states is refused as having an invalid signature,
/// at whatever time: one that states an action and an expiry, carries a
/// signature that decodes, and is presented for a path that makes a URL.
pub proof fn lemma_wrong_signature_is_refused<S: Signer>(
    signer: S,
    base: Locator,
    now: int,
    path: Seq<char>,
    query: Seq<char>,
)
    requires
        params_of(query) is Some,
        base64url_decoded(params_of(query)->0.signature) is Some,
        signable(
            base,
            path,
            params_of(query)->0.action,
            params_of(query)->0.expires as int,
        ) is Some,
        signer.tag(
            encode_utf8(
                signable(
                    base,
                    path,
                    params_of(query)->0.action,
                    params_of(query)->0.expires as int,
                )->0,
            ),
        ) is Some,
        Some(base64url_decoded(params_of(query)->0.signature)->0) != signer.tag(
            encode_utf8(
                signable(
                    base,
                    path,
                    params_of(query)->0.action,
                    params_of(query)->0.expires as int,
                )->0,
            ),
        ),
    ensures
        vetted(signer, base, now, path, Some(query)) == Err::<ParamsView, Fault>(
            Fault::InvalidSignature,
        ),
{
}

/// Tamper sensitivity, second half. A capability is honoured only where
/// its signature is the tag of the text signed for the very path, action
/// and expiry that it is presented with: whoever changes any of the three
/// must come up with the tag of the changed text.
pub proof fn lemma_honoured_capability_is_genuine<S: Signer>(
    signer: S,
    base: Locator,
    now: int,
    path: Seq<char>,
    query: Option<Seq<char>>,
)
    requires
        vetted(signer, base, now, path, query) is Ok,
    ensures
        query is Some,
        params_of(query->0) == Some(vetted(signer, base, now, path, query)->Ok_0),
        ({
            let p = vetted(signer, base, now, path, query)->Ok_0;
            &&& signable(base, path, p.action, p.expires as int) is Some
            &&& base64url_decoded(p.signature) is Some
            &&& signer.tag(encode_utf8(signable(base, path, p.action, p.expires as int)->0))
                == Some(base64url_decoded(p.signature)->0)
        }),
{
}

/// Expiry boundary. A capability that is honoured at one time is honoured
/// at every time up to and including its expiry, and refused as expired
/// at every time after it.
pub proof fn lemma_expiry_is_the_last_moment<S: Signer>(
    signer: S,
    base: Locator,
    now: int,
    other: int,
    path: Seq<char>,
    query: Option<Seq<char>>,
)
    requires
        vetted(signer, base, now, path, query) is Ok,
    ensures
        now <= vetted(signer, base, now, path, query)->Ok_0.expires,
        vetted(signer, base, other, path, query) == if other <= vetted(
            signer,
            base,
            now,
            path,
            query,
        )->Ok_0.expires {
            vetted(signer, base, now, path, query)
        } else {
            Err(Fault::Expired)
        },
{
}

/// The three actions go by three different HTTP methods.
pub proof fn lemma_methods_differ(a: AvailableActions, b: AvailableActions)
    requires
        a != b,
    ensures
        a.method() != b.method(),
{
    reveal_strlit("PUT");
    reveal_strlit("GET");
    reveal_strlit("DELETE");
    assert("PUT"@[0] == 'P' && "GET"@[0] == 'G' && "DELETE"@[0] == 'D');
}

/// Method binding. A capability that is honoured without regard to the
/// method is honoured with the HTTP method of its action and refused, as
/// having an invalid signature, with any other.
pub proof fn lemma_method_is_bound<S: Signer>(
    signer: S,
    base: Locator,
    now: int,
    path: Seq<char>,
    query: Option<Seq<char>>,
    method: Seq<char>,
)
    requires
        authorized(signer, base, now, path, query, None) is Ok,
    ensures
        authorized(signer, base, now, path, query, Some(method)) == if method == authorized(
            signer,
            base,
            now,
            path,
            query,
            None,
        )->Ok_0.action.method() {
            authorized(signer, base, now, path, query, None)
        } else {
            Err(Fault::InvalidSignature)
        },
{
}

} // verus!
