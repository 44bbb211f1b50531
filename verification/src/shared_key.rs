//! The text that the Azure Storage "SharedKey" authorization scheme signs, and
//! the `Authorization` header made from its signature.

use vstd::prelude::*;
use crate::sorting::{pairs_view, sort_pairs, sorted_pairs};
use crate::text::{decimal, decimal_string};

verus! {

/// The parts of a storage request that its shared key signature covers. A
/// standard header that the request lacks is the empty text.
#[derive(Clone, Debug)]
pub struct SharedKeyRequest {
    /// The HTTP method, such as `PUT`.
    pub method: String,
    pub content_encoding: String,
    pub content_language: String,
    /// The length of the body, when it is known.
    pub content_length: Option<u64>,
    pub content_md5: String,
    pub content_type: String,
    pub if_modified_since: String,
    pub if_match: String,
    pub if_none_match: String,
    pub if_unmodified_since: String,
    pub range: String,
    /// Every header of the request: its lower-case name and trimmed value.
    pub headers: Vec<(String, String)>,
    /// The path of the request URL.
    pub path: String,
    /// The query parameters: lower-case name and decoded value.
    pub query: Vec<(String, String)>,
}

/// Whether a header name is one of the service's own (`x-ms-...`).
pub open spec fn is_ms_header(name: Seq<char>) -> bool {
    &&& name.len() >= 5
    &&& name[0] == 'x'
    &&& name[1] == '-'
    &&& name[2] == 'm'
    &&& name[3] == 's'
    &&& name[4] == '-'
}

/// The `x-ms-` headers among `headers`, in their order.
pub open spec fn ms_headers(headers: Seq<(Seq<char>, Seq<char>)>) -> Seq<(Seq<char>, Seq<char>)>
    decreases headers.len(),
{
    if headers.len() == 0 {
        headers
    } else {
        let rest = ms_headers(headers.drop_last());
        if is_ms_header(headers.last().0) {
            rest.push(headers.last())
        } else {
            rest
        }
    }
}

/// Headers as they are signed: `name:value` and a line break, each.
pub open spec fn canonical_headers(headers: Seq<(Seq<char>, Seq<char>)>) -> Seq<char>
    decreases headers.len(),
{
    if headers.len() == 0 {
        Seq::empty()
    } else {
        canonical_headers(headers.drop_last()) + headers.last().0 + seq![':'] + headers.last().1
            + seq!['\n']
    }
}

/// Query parameters as they are signed: a line break and `name:value`, each.
pub open spec fn canonical_query(query: Seq<(Seq<char>, Seq<char>)>) -> Seq<char>
    decreases query.len(),
{
    if query.len() == 0 {
        Seq::empty()
    } else {
        canonical_query(query.drop_last()) + seq!['\n'] + query.last().0 + seq![':'] + query.last().1
    }
}

/// The signed content length: empty for an empty body or an unknown length,
/// else the length in decimal.
pub open spec fn content_length_text(length: Option<u64>) -> Seq<char> {
    match length {
        Some(n) => if n == 0 { Seq::empty() } else { decimal(n as nat) },
        None => Seq::empty(),
    }
}

/// A text followed by a line break.
pub open spec fn line(text: Seq<char>) -> Seq<char> {
    text.push('\n')
}

/// The signed text of a request of account `account`, with its `x-ms-` headers
/// as `headers` and its query parameters as `query`: the method and the
/// standard headers, a line each (the `Date` line is empty, as the date goes in
/// `x-ms-date`), the canonical headers, and the canonical resource
/// (`/account/path` and the canonical query).
pub open spec fn shared_key_text(
    request: SharedKeyRequest,
    account: Seq<char>,
    headers: Seq<(Seq<char>, Seq<char>)>,
    query: Seq<(Seq<char>, Seq<char>)>,
) -> Seq<char> {
    line(request.method@) + line(request.content_encoding@) + line(request.content_language@)
        + line(content_length_text(request.content_length)) + line(request.content_md5@)
        + line(request.content_type@) + line(Seq::empty()) + line(request.if_modified_since@)
        + line(request.if_match@) + line(request.if_none_match@) + line(request.if_unmodified_since@)
        + line(request.range@) + canonical_headers(headers) + seq!['/'] + account + request.path@
        + canonical_query(query)
}

/// `sorted` holds the pairs of `items`, in order of name, then of value.
pub open spec fn sorted_arrangement(
    sorted: Seq<(Seq<char>, Seq<char>)>,
    items: Seq<(Seq<char>, Seq<char>)>,
) -> bool {
    sorted_pairs(sorted) && sorted.to_multiset() == items.to_multiset()
}

/// `text` is the string to sign of `request` for account `account`: its `x-ms-`
/// headers and its query parameters are signed in sorted order. Sorting has
/// one result (`lemma_sorted_pairs_unique`), so this fixes the text.
pub open spec fn is_string_to_sign(request: SharedKeyRequest, account: Seq<char>, text: Seq<char>) -> bool {
    exists|headers: Seq<(Seq<char>, Seq<char>)>, query: Seq<(Seq<char>, Seq<char>)>|
        sorted_arrangement(headers, ms_headers(pairs_view(request.headers@)))
            && sorted_arrangement(query, pairs_view(request.query@))
            && text == shared_key_text(request, account, headers, query)
}

/// Whether a header name starts with `x-ms-`.
pub fn is_ms_header_name(name: &str) -> (found: bool)
    ensures
        found == is_ms_header(name@),
{
    let n = name.unicode_len();
    if n < 5 {
        return false;
    }
    name.get_char(0) == 'x' && name.get_char(1) == '-' && name.get_char(2) == 'm' && name.get_char(3)
        == 's' && name.get_char(4) == '-'
}

/// The `x-ms-` headers among `headers`, in their order.
pub fn ms_headers_of(headers: &Vec<(String, String)>) -> (found: Vec<(String, String)>)
    ensures
        pairs_view(found@) == ms_headers(pairs_view(headers@)),
{
    let mut found: Vec<(String, String)> = Vec::new();
    let mut i: usize = 0;
    proof {
        assert(pairs_view(headers@).take(0) =~= Seq::<(Seq<char>, Seq<char>)>::empty());
        assert(pairs_view(found@) =~= Seq::<(Seq<char>, Seq<char>)>::empty());
    }
    while i < headers.len()
        invariant
            i <= headers.len(),
            pairs_view(found@) == ms_headers(pairs_view(headers@).take(i as int)),
        decreases headers.len() - i,
    {
        let ghost before = pairs_view(headers@).take(i as int);
        let ghost after = pairs_view(headers@).take(i + 1);
        proof {
            assert(after.drop_last() =~= before);
            assert(after.last() == (headers@[i as int].0@, headers@[i as int].1@));
        }
        if is_ms_header_name(headers[i].0.as_str()) {
            let pair = (headers[i].0.clone(), headers[i].1.clone());
            let ghost old_found = found@;
            found.push(pair);
            proof {
                assert(pairs_view(found@) =~= pairs_view(old_found).push(after.last()));
            }
        }
        i = i + 1;
    }
    proof {
        assert(pairs_view(headers@).take(headers.len() as int) =~= pairs_view(headers@));
    }
    found
}

/// The signed form of sorted headers.
pub fn canonical_headers_text(headers: &Vec<(String, String)>) -> (text: String)
    ensures
        text@ == canonical_headers(pairs_view(headers@)),
{
    let mut text = String::from_str("");
    let mut i: usize = 0;
    proof {
        reveal_strlit("");
        assert(pairs_view(headers@).take(0) =~= Seq::<(Seq<char>, Seq<char>)>::empty());
    }
    while i < headers.len()
        invariant
            i <= headers.len(),
            text@ == canonical_headers(pairs_view(headers@).take(i as int)),
        decreases headers.len() - i,
    {
        proof {
            let after = pairs_view(headers@).take(i + 1);
            assert(after.drop_last() =~= pairs_view(headers@).take(i as int));
            reveal_strlit(":");
            reveal_strlit("\n");
        }
        text = text.concat(headers[i].0.as_str());
        text = text.concat(":");
        text = text.concat(headers[i].1.as_str());
        text = text.concat("\n");
        i = i + 1;
    }
    proof {
        assert(pairs_view(headers@).take(headers.len() as int) =~= pairs_view(headers@));
    }
    text
}

/// The signed form of sorted query parameters.
pub fn canonical_query_text(query: &Vec<(String, String)>) -> (text: String)
    ensures
        text@ == canonical_query(pairs_view(query@)),
{
    let mut text = String::from_str("");
    let mut i: usize = 0;
    proof {
        reveal_strlit("");
        assert(pairs_view(query@).take(0) =~= Seq::<(Seq<char>, Seq<char>)>::empty());
    }
    while i < query.len()
        invariant
            i <= query.len(),
            text@ == canonical_query(pairs_view(query@).take(i as int)),
        decreases query.len() - i,
    {
        proof {
            let after = pairs_view(query@).take(i + 1);
            assert(after.drop_last() =~= pairs_view(query@).take(i as int));
            reveal_strlit(":");
            reveal_strlit("\n");
        }
        text = text.concat("\n");
        text = text.concat(query[i].0.as_str());
        text = text.concat(":");
        text = text.concat(query[i].1.as_str());
        i = i + 1;
    }
    proof {
        assert(pairs_view(query@).take(query.len() as int) =~= pairs_view(query@));
    }
    text
}

/// A text followed by a line break.
fn push_line(text: String, part: &str) -> (out: String)
    ensures
        out@ == text@ + line(part@),
{
    proof {
        reveal_strlit("\n");
        assert(part@ + "\n"@ =~= line(part@));
        assert(text@ + part@ + "\n"@ =~= text@ + line(part@));
    }
    text.concat(part).concat("\n")
}

/// The signed content length of a body of `length` bytes.
pub fn content_length_of(length: Option<u64>) -> (text: String)
    ensures
        text@ == content_length_text(length),
{
    proof {
        reveal_strlit("");
    }
    match length {
        Some(n) => if n == 0 { String::from_str("") } else { decimal_string(n) },
        None => String::from_str(""),
    }
}

/// The string that the shared key of account `account_name` signs for
/// `request`.
pub fn string_to_sign(request: &SharedKeyRequest, account_name: &str) -> (text: String)
    ensures
        is_string_to_sign(*request, account_name@, text@),
{
    let found = ms_headers_of(&request.headers);
    let headers = sort_pairs(&found);
    let query = sort_pairs(&request.query);
    let length = content_length_of(request.content_length);
    let text = String::from_str("");
    let text = push_line(text, request.method.as_str());
    let text = push_line(text, request.content_encoding.as_str());
    let text = push_line(text, request.content_language.as_str());
    let text = push_line(text, length.as_str());
    let text = push_line(text, request.content_md5.as_str());
    let text = push_line(text, request.content_type.as_str());
    let text = push_line(text, "");
    let text = push_line(text, request.if_modified_since.as_str());
    let text = push_line(text, request.if_match.as_str());
    let text = push_line(text, request.if_none_match.as_str());
    let text = push_line(text, request.if_unmodified_since.as_str());
    let text = push_line(text, request.range.as_str());
    let signed_headers = canonical_headers_text(&headers);
    let signed_query = canonical_query_text(&query);
    let text = text.concat(signed_headers.as_str());
    let text = text.concat("/");
    let text = text.concat(account_name);
    let text = text.concat(request.path.as_str());
    let text = text.concat(signed_query.as_str());
    proof {
        reveal_strlit("");
        reveal_strlit("/");
        let h = pairs_view(headers@);
        let q = pairs_view(query@);
        assert(sorted_arrangement(h, ms_headers(pairs_view(request.headers@))));
        assert(sorted_arrangement(q, pairs_view(request.query@)));
        assert(text@ =~= shared_key_text(*request, account_name@, h, q));
    }
    text
}

/// What `azure_core::hmac::hmac_sha256` gives for `data` under `key`: the
/// base64 HMAC-SHA256 signature of the UTF-8 bytes of `data`, keyed with the
/// base64-decoded `key`; `None` when it fails.
pub uninterp spec fn hmac_sha256_signature(data: Seq<char>, key: Seq<char>) -> Option<Seq<char>>;

/// Signs `data` with a base64 key through `azure_core::hmac::hmac_sha256`.
/// Claims: the call succeeds exactly when `hmac_sha256_signature` names a
/// signature, and then gives that signature. Left unsaid: on which keys it
/// fails (it fails when the key is not base64, as `base64::decode` decides).
#[verifier::external_body]
fn hmac_sha256(data: &str, key: &str) -> (signature: Option<String>)
    ensures
        signature is Some <==> hmac_sha256_signature(data@, key@) is Some,
        signature is Some ==> signature.unwrap()@ == hmac_sha256_signature(data@, key@).unwrap(),
{
    let key = azure_core::credentials::Secret::from(key.to_string());
    azure_core::hmac::hmac_sha256(data, &key).ok()
}

/// The `Authorization` header value of the scheme: `SharedKey account:signature`.
pub open spec fn shared_key_authorization(account: Seq<char>, signature: Seq<char>) -> Seq<char> {
    "SharedKey "@ + account + seq![':'] + signature
}

/// The `Authorization` header value that signs `string_to_sign` with the
/// account key: `None` when the key cannot sign.
pub fn authorization_header(account_name: &str, account_key: &str, string_to_sign: &str) -> (header: Option<String>)
    ensures
        header is Some <==> hmac_sha256_signature(string_to_sign@, account_key@) is Some,
        header is Some ==> header.unwrap()@ == shared_key_authorization(
            account_name@,
            hmac_sha256_signature(string_to_sign@, account_key@).unwrap(),
        ),
{
    match hmac_sha256(string_to_sign, account_key) {
        Some(signature) => {
            proof {
                reveal_strlit(":");
            }
            let text = String::from_str("SharedKey ");
            let text = text.concat(account_name);
            let text = text.concat(":");
            let text = text.concat(signature.as_str());
            Some(text)
        },
        None => None,
    }
}

} // verus!
