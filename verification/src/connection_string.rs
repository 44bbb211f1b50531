//! Storage account connection strings: `Key=Value` settings separated by `;`,
//! as the Azure Storage documentation describes them. The settings read are
//! `DefaultEndpointsProtocol`, `AccountName`, `AccountKey`, `EndpointSuffix`,
//! `BlobEndpoint` and `SharedAccessSignature` (names compared exactly, values
//! taken verbatim); other settings are ignored and a later setting of a name
//! replaces an earlier one.

use vstd::prelude::*;
use crate::url_ops::opt_text;

verus! {

/// The segments of a text between `;` separators, in order; a text without
/// separator is one segment.
pub open spec fn split_segments(s: Seq<char>) -> Seq<Seq<char>>
    decreases s.len(),
{
    if s.len() == 0 {
        seq![Seq::<char>::empty()]
    } else {
        let prev = split_segments(s.drop_last());
        if s.last() == ';' {
            prev.push(Seq::<char>::empty())
        } else {
            prev.update(prev.len() - 1, prev.last().push(s.last()))
        }
    }
}

/// The key and value of a `Key=Value` segment, split at its first `=`; `None`
/// where the segment has no `=`.
pub open spec fn key_value(seg: Seq<char>) -> Option<(Seq<char>, Seq<char>)>
    decreases seg.len(),
{
    if seg.len() == 0 {
        None
    } else {
        match key_value(seg.drop_last()) {
            Some((k, v)) => Some((k, v.push(seg.last()))),
            None => if seg.last() == '=' { Some((seg.drop_last(), Seq::<char>::empty())) } else { None },
        }
    }
}

/// Splitting yields at least one segment.
pub proof fn lemma_split_segments_nonempty(s: Seq<char>)
    ensures
        split_segments(s).len() >= 1,
    decreases s.len(),
{
    if s.len() > 0 {
        lemma_split_segments_nonempty(s.drop_last());
    }
}

/// The views of a vector of texts.
pub open spec fn texts(v: Seq<String>) -> Seq<Seq<char>> {
    v.map_values(|t: String| t@)
}

/// Splits a text at its `;` separators.
pub fn split_segments_of(s: &str) -> (segs: Vec<String>)
    ensures
        texts(segs@) == split_segments(s@),
{
    let n = s.unicode_len();
    let mut segs: Vec<String> = Vec::new();
    let mut start: usize = 0;
    let mut i: usize = 0;
    proof {
        assert(s@.take(0) =~= Seq::<char>::empty());
        assert(s@.subrange(0, 0) =~= Seq::<char>::empty());
        assert(texts(segs@) =~= Seq::<Seq<char>>::empty());
    }
    while i < n
        invariant
            n == s@.len(),
            start <= i <= n,
            split_segments(s@.take(i as int)) == texts(segs@).push(s@.subrange(start as int, i as int)),
        decreases n - i,
    {
        let c = s.get_char(i);
        let ghost old_segs = texts(segs@);
        let ghost cur = s@.subrange(start as int, i as int);
        proof {
            assert(s@.take(i + 1).drop_last() =~= s@.take(i as int));
            assert(s@.take(i + 1).last() == c);
        }
        if c == ';' {
            let seg = String::from_str(s.substring_char(start, i));
            segs.push(seg);
            start = i + 1;
            proof {
                assert(texts(segs@) =~= old_segs.push(cur));
                assert(s@.subrange(start as int, (i + 1) as int) =~= Seq::<char>::empty());
            }
        } else {
            proof {
                assert(s@.subrange(start as int, (i + 1) as int) =~= cur.push(c));
                assert(old_segs.push(cur).update(old_segs.len() as int, cur.push(c)) =~= old_segs.push(cur.push(c)));
            }
        }
        i = i + 1;
    }
    let ghost before = texts(segs@);
    let last = String::from_str(s.substring_char(start, n));
    segs.push(last);
    proof {
        assert(s@.take(n as int) =~= s@);
        assert(texts(segs@) =~= before.push(s@.subrange(start as int, n as int)));
    }
    segs
}

/// Splits a `Key=Value` segment at its first `=`.
pub fn key_value_of(seg: &str) -> (kv: Option<(String, String)>)
    ensures
        match kv {
            Some((k, v)) => key_value(seg@) == Some((k@, v@)),
            None => key_value(seg@) is None,
        },
{
    let n = seg.unicode_len();
    let mut found: Option<usize> = None;
    let mut i: usize = 0;
    proof { assert(seg@.take(0) =~= Seq::<char>::empty()); }
    while i < n
        invariant
            n == seg@.len(),
            i <= n,
            match found {
                Some(j) => j < i && key_value(seg@.take(i as int)) == Some((
                    seg@.take(j as int),
                    seg@.subrange(j + 1, i as int),
                )),
                None => key_value(seg@.take(i as int)) is None,
            },
        decreases n - i,
    {
        let c = seg.get_char(i);
        proof {
            assert(seg@.take(i + 1).drop_last() =~= seg@.take(i as int));
            assert(seg@.take(i + 1).last() == c);
        }
        match found {
            Some(j) => {
                proof {
                    assert(seg@.subrange(j + 1, (i + 1) as int) =~= seg@.subrange(j + 1, i as int).push(c));
                }
            },
            None => {
                if c == '=' {
                    found = Some(i);
                    proof {
                        assert(seg@.take(i + 1).drop_last() =~= seg@.take(i as int));
                        assert(seg@.subrange(i + 1, i + 1) =~= Seq::<char>::empty());
                    }
                }
            },
        }
        i = i + 1;
    }
    proof { assert(seg@.take(n as int) =~= seg@); }
    match found {
        Some(j) => {
            let key = String::from_str(seg.substring_char(0, j));
            let value = String::from_str(seg.substring_char(j + 1, n));
            proof {
                assert(seg@.subrange(0, j as int) =~= seg@.take(j as int));
            }
            Some((key, value))
        },
        None => None,
    }
}

/// The settings a connection string is read into.
pub struct ConnectionFields {
    pub protocol: Option<Seq<char>>,
    pub account_name: Option<Seq<char>>,
    pub account_key: Option<Seq<char>>,
    pub endpoint_suffix: Option<Seq<char>>,
    pub blob_endpoint: Option<Seq<char>>,
    pub shared_access_signature: Option<Seq<char>>,
}

/// No setting read yet.
pub open spec fn no_fields() -> ConnectionFields {
    ConnectionFields {
        protocol: None,
        account_name: None,
        account_key: None,
        endpoint_suffix: None,
        blob_endpoint: None,
        shared_access_signature: None,
    }
}

/// Reads one `key=value` setting into the fields read so far.
pub open spec fn apply_setting(f: ConnectionFields, key: Seq<char>, value: Seq<char>) -> ConnectionFields {
    if key == "DefaultEndpointsProtocol"@ {
        ConnectionFields { protocol: Some(value), ..f }
    } else if key == "AccountName"@ {
        ConnectionFields { account_name: Some(value), ..f }
    } else if key == "AccountKey"@ {
        ConnectionFields { account_key: Some(value), ..f }
    } else if key == "EndpointSuffix"@ {
        ConnectionFields { endpoint_suffix: Some(value), ..f }
    } else if key == "BlobEndpoint"@ {
        ConnectionFields { blob_endpoint: Some(value), ..f }
    } else if key == "SharedAccessSignature"@ {
        ConnectionFields { shared_access_signature: Some(value), ..f }
    } else {
        f
    }
}

/// Reads segments in order: empty segments are skipped, a segment without `=`
/// is refused (the first such segment is reported), and every other segment is
/// a setting.
pub open spec fn read_segments(segs: Seq<Seq<char>>) -> Result<ConnectionFields, Seq<char>>
    decreases segs.len(),
{
    if segs.len() == 0 {
        Ok(no_fields())
    } else {
        match read_segments(segs.drop_last()) {
            Err(bad) => Err(bad),
            Ok(f) => {
                let seg = segs.last();
                if seg.len() == 0 {
                    Ok(f)
                } else {
                    match key_value(seg) {
                        None => Err(seg),
                        Some((k, v)) => Ok(apply_setting(f, k, v)),
                    }
                }
            },
        }
    }
}

/// What a connection string reads into, or its first segment that is not a
/// `Key=Value` setting.
pub open spec fn read_connection_string(s: Seq<char>) -> Result<ConnectionFields, Seq<char>> {
    read_segments(split_segments(s))
}

/// The settings of a connection string.
#[derive(Clone, Debug, PartialEq, Eq)]
pub struct ParsedConnectionString {
    pub default_endpoints_protocol: Option<String>,
    pub account_name: Option<String>,
    pub account_key: Option<String>,
    pub endpoint_suffix: Option<String>,
    pub blob_endpoint: Option<String>,
    pub shared_access_signature: Option<String>,
}

impl View for ParsedConnectionString {
    type V = ConnectionFields;

    open spec fn view(&self) -> ConnectionFields {
        ConnectionFields {
            protocol: opt_text(self.default_endpoints_protocol),
            account_name: opt_text(self.account_name),
            account_key: opt_text(self.account_key),
            endpoint_suffix: opt_text(self.endpoint_suffix),
            blob_endpoint: opt_text(self.blob_endpoint),
            shared_access_signature: opt_text(self.shared_access_signature),
        }
    }
}

/// Why a connection string cannot be read.
#[derive(Clone, Debug, PartialEq, Eq)]
pub enum ConnectionStringError {
    /// A non-empty segment is not of the form `Key=Value`.
    MalformedSegment { segment: String },
}

/// Compares two texts.
fn same_text(a: &String, b: &str) -> (same: bool)
    ensures
        same == (a@ == b@),
{
    let b = String::from_str(b);
    *a == b
}

impl ParsedConnectionString {
    fn empty() -> (p: ParsedConnectionString)
        ensures
            p@ == no_fields(),
    {
        ParsedConnectionString {
            default_endpoints_protocol: None,
            account_name: None,
            account_key: None,
            endpoint_suffix: None,
            blob_endpoint: None,
            shared_access_signature: None,
        }
    }

    fn apply(&mut self, key: &String, value: String)
        ensures
            final(self)@ == apply_setting(old(self)@, key@, value@),
    {
        if same_text(key, "DefaultEndpointsProtocol") {
            self.default_endpoints_protocol = Some(value);
        } else if same_text(key, "AccountName") {
            self.account_name = Some(value);
        } else if same_text(key, "AccountKey") {
            self.account_key = Some(value);
        } else if same_text(key, "EndpointSuffix") {
            self.endpoint_suffix = Some(value);
        } else if same_text(key, "BlobEndpoint") {
            self.blob_endpoint = Some(value);
        } else if same_text(key, "SharedAccessSignature") {
            self.shared_access_signature = Some(value);
        }
    }

    /// Reads a connection string.
    pub fn parse(connection_string: &str) -> (parsed: Result<ParsedConnectionString, ConnectionStringError>)
        ensures
            match parsed {
                Ok(p) => read_connection_string(connection_string@) == Ok::<ConnectionFields, Seq<char>>(p@),
                Err(ConnectionStringError::MalformedSegment { segment }) =>
                    read_connection_string(connection_string@) == Err::<ConnectionFields, Seq<char>>(segment@),
            },
    {
        let segs = split_segments_of(connection_string);
        let ghost all = texts(segs@);
        let mut fields = ParsedConnectionString::empty();
        let mut j: usize = 0;
        proof { assert(all.take(0) =~= Seq::<Seq<char>>::empty()); }
        while j < segs.len()
            invariant
                all == texts(segs@),
                all == split_segments(connection_string@),
                j <= segs.len(),
                read_segments(all.take(j as int)) == Ok::<ConnectionFields, Seq<char>>(fields@),
            decreases segs.len() - j,
        {
            let seg = &segs[j];
            proof {
                assert(all.take(j + 1).drop_last() =~= all.take(j as int));
                assert(all.take(j + 1).last() == seg@);
            }
            if seg.unicode_len() != 0 {
                match key_value_of(seg.as_str()) {
                    None => {
                        let bad = seg.clone();
                        proof {
                            assert(seg@.len() != 0);
                            assert(read_segments(all.take(j + 1)) == Err::<ConnectionFields, Seq<char>>(bad@));
                            lemma_error_persists(all, (j + 1) as int, bad@);
                            assert(read_segments(all) == Err::<ConnectionFields, Seq<char>>(bad@));
                        }
                        return Err(ConnectionStringError::MalformedSegment { segment: bad });
                    },
                    Some((k, v)) => {
                        fields.apply(&k, v);
                    },
                }
            }
            j = j + 1;
        }
        proof { assert(all.take(segs.len() as int) =~= all); }
        Ok(fields)
    }
}

/// Once a prefix of the segments is refused, the whole is refused for the same
/// segment.
proof fn lemma_error_persists(segs: Seq<Seq<char>>, j: int, bad: Seq<char>)
    requires
        0 <= j <= segs.len(),
        read_segments(segs.take(j)) == Err::<ConnectionFields, Seq<char>>(bad),
    ensures
        read_segments(segs) == Err::<ConnectionFields, Seq<char>>(bad),
    decreases segs.len() - j,
{
    if j < segs.len() {
        assert(segs.take(j + 1).drop_last() =~= segs.take(j));
        lemma_error_persists(segs, j + 1, bad);
    } else {
        assert(segs.take(j) =~= segs);
    }
}

/// A text without one trailing `/`.
pub open spec fn without_trailing_slash(e: Seq<char>) -> Seq<char> {
    if e.len() > 0 && e.last() == '/' { e.drop_last() } else { e }
}

/// A text without one leading `?`.
pub open spec fn without_leading_question_mark(q: Seq<char>) -> Seq<char> {
    if q.len() > 0 && q[0] == '?' { q.drop_first() } else { q }
}

/// The protocol of the blob endpoint: `DefaultEndpointsProtocol`, else `https`.
pub open spec fn protocol_of(f: ConnectionFields) -> Seq<char> {
    match f.protocol {
        Some(p) => p,
        None => "https"@,
    }
}

/// The endpoint suffix: `EndpointSuffix`, else `core.windows.net`.
pub open spec fn endpoint_suffix_of(f: ConnectionFields) -> Seq<char> {
    match f.endpoint_suffix {
        Some(x) => x,
        None => "core.windows.net"@,
    }
}

/// The blob service URL a connection string names: its `BlobEndpoint` (without
/// a trailing `/`), else `<protocol>://<AccountName>.blob.<suffix>`; `None`
/// where it names neither.
pub open spec fn blob_service_url(f: ConnectionFields) -> Option<Seq<char>> {
    match f.blob_endpoint {
        Some(e) => Some(without_trailing_slash(e)),
        None => match f.account_name {
            Some(a) => Some(protocol_of(f) + "://"@ + a + ".blob."@ + endpoint_suffix_of(f)),
            None => None,
        },
    }
}

/// The query that carries a shared access signature, if there is one.
pub open spec fn sas_query(f: ConnectionFields) -> Seq<char> {
    match f.shared_access_signature {
        Some(q) => "?"@ + without_leading_question_mark(q),
        None => Seq::<char>::empty(),
    }
}

/// The URL of a container: the blob service URL, `/`, the container name and
/// the shared access signature query.
pub open spec fn container_url_of(f: ConnectionFields, container_name: Seq<char>) -> Option<Seq<char>> {
    match blob_service_url(f) {
        Some(base) => Some(base + "/"@ + container_name + sas_query(f)),
        None => None,
    }
}

/// The authentication a connection string carries.
#[derive(Clone, Debug, PartialEq, Eq)]
pub enum ConnectionStringAuth {
    /// A shared access signature, carried in the container URL.
    Sas,
    /// An account name and access key: requests are signed with a shared key.
    SharedKey { account_name: String, account_key: String },
    /// No credentials.
    Anonymous,
}

/// A shared access signature is used where present; else an account name with
/// a key signs with a shared key; else requests are anonymous.
pub open spec fn auth_of(f: ConnectionFields, auth: ConnectionStringAuth) -> bool {
    match f.shared_access_signature {
        Some(_) => auth == ConnectionStringAuth::Sas,
        None => match (f.account_name, f.account_key) {
            (Some(n), Some(k)) => auth matches ConnectionStringAuth::SharedKey { account_name, account_key }
                && account_name@ == n && account_key@ == k,
            _ => auth == ConnectionStringAuth::Anonymous,
        },
    }
}

fn strip_trailing_slash(e: &String) -> (t: String)
    ensures
        t@ == without_trailing_slash(e@),
{
    let n = e.as_str().unicode_len();
    if n > 0 && e.as_str().get_char(n - 1) == '/' {
        let t = String::from_str(e.as_str().substring_char(0, n - 1));
        proof { assert(e@.subrange(0, n - 1) =~= e@.drop_last()); }
        t
    } else {
        e.clone()
    }
}

fn strip_leading_question_mark(q: &String) -> (t: String)
    ensures
        t@ == without_leading_question_mark(q@),
{
    let n = q.as_str().unicode_len();
    if n > 0 && q.as_str().get_char(0) == '?' {
        let t = String::from_str(q.as_str().substring_char(1, n));
        proof { assert(q@.subrange(1, n as int) =~= q@.drop_first()); }
        t
    } else {
        q.clone()
    }
}

impl ParsedConnectionString {
    /// The URL of the named container.
    pub fn container_url(&self, container_name: &str) -> (url: Option<String>)
        ensures
            opt_text(url) == container_url_of(self@, container_name@),
    {
        let base = match &self.blob_endpoint {
            Some(e) => strip_trailing_slash(e),
            None => match &self.account_name {
                Some(a) => {
                    let protocol = match &self.default_endpoints_protocol {
                        Some(p) => p.clone(),
                        None => String::from_str("https"),
                    };
                    let suffix = match &self.endpoint_suffix {
                        Some(x) => x.clone(),
                        None => String::from_str("core.windows.net"),
                    };
                    let base = protocol.concat("://");
                    let base = base.concat(a.as_str());
                    let base = base.concat(".blob.");
                    base.concat(suffix.as_str())
                },
                None => {
                    return None;
                },
            },
        };
        let url = base.concat("/");
        let url = url.concat(container_name);
        let url = match &self.shared_access_signature {
            Some(q) => {
                let q = strip_leading_question_mark(q);
                let url = url.concat("?");
                url.concat(q.as_str())
            },
            None => url,
        };
        proof {
            assert(opt_text(Some(url)) == container_url_of(self@, container_name@));
        }
        Some(url)
    }

    /// The authentication the connection string carries.
    pub fn auth(&self) -> (auth: ConnectionStringAuth)
        ensures
            auth_of(self@, auth),
    {
        if self.shared_access_signature.is_some() {
            ConnectionStringAuth::Sas
        } else {
            match (&self.account_name, &self.account_key) {
                (Some(n), Some(k)) => ConnectionStringAuth::SharedKey { account_name: n.clone(), account_key: k.clone() },
                _ => ConnectionStringAuth::Anonymous,
            }
        }
    }
}

} // verus!
