//! From a request path to the subject it names and the format it asks for.
use vstd::prelude::*;
use vstd::string::*;
use crate::content_type::ContentType;
use crate::text::{chars_of, same_text};

verus! {

/// The format that a file extension names.
pub open spec fn extension_type(ext: Seq<char>) -> Option<ContentType> {
    if ext == "json"@ {
        Some(ContentType::Json)
    } else if ext == "jsonld"@ {
        Some(ContentType::JsonLd)
    } else if ext == "jsonad"@ {
        Some(ContentType::JsonAd)
    } else if ext == "html"@ {
        Some(ContentType::Html)
    } else if ext == "ttl"@ {
        Some(ContentType::Turtle)
    } else {
        None
    }
}

/// Index `i` of `p` holds the dot that starts its trailing extension: no dot
/// and no `/` come after it.
pub open spec fn extension_dot_at(p: Seq<char>, i: int) -> bool {
    &&& 0 <= i < p.len()
    &&& p[i] == '.'
    &&& forall|k: int| i < k < p.len() ==> p[k] != '.' && p[k] != '/'
}

/// A path whose last segment ends in a known extension gives that
/// extension's format and the path without the extension and its dot.
pub open spec fn extension_spec(p: Seq<char>) -> Option<(ContentType, Seq<char>)> {
    if exists|i: int| extension_dot_at(p, i) {
        let i = choose|i: int| extension_dot_at(p, i);
        match extension_type(p.skip(i + 1)) {
            Some(ct) => Some((ct, p.take(i))),
            None => None,
        }
    } else {
        None
    }
}

fn extension_content_type(ext: &str) -> (r: Option<ContentType>)
    ensures
        r == extension_type(ext@),
{
    if same_text(ext, "json") {
        Some(ContentType::Json)
    } else if same_text(ext, "jsonld") {
        Some(ContentType::JsonLd)
    } else if same_text(ext, "jsonad") {
        Some(ContentType::JsonAd)
    } else if same_text(ext, "html") {
        Some(ContentType::Html)
    } else if same_text(ext, "ttl") {
        Some(ContentType::Turtle)
    } else {
        None
    }
}

/// Splits a known file extension off a path: `res1.ttl` gives Turtle and
/// `res1`, `docs/v1.2/res1.ttl` gives Turtle and `docs/v1.2/res1`. A path
/// whose last segment has no dot, or whose extension is unknown, gives `None`.
pub fn try_extension(path: &str) -> (r: Option<(ContentType, String)>)
    ensures
        match r {
            Some((ct, rest)) => extension_spec(path@) == Some((ct, rest@)),
            None => extension_spec(path@) is None,
        },
{
    let chars = chars_of(path);
    let mut j: usize = chars.len();
    let mut dot: Option<usize> = None;
    while j > 0
        invariant_except_break
            chars@ == path@,
            j <= chars@.len(),
            dot is None,
            forall|k: int| j <= k < chars@.len() ==> chars@[k] != '.' && chars@[k] != '/',
        ensures
            chars@ == path@,
            match dot {
                Some(d) => extension_dot_at(path@, d as int),
                None => !exists|i: int| extension_dot_at(path@, i),
            },
        decreases j,
    {
        let c = chars[j - 1];
        if c == '.' {
            dot = Some(j - 1);
            break;
        }
        if c == '/' {
            assert forall|i: int| !extension_dot_at(path@, i) by {
                if 0 <= i < j - 1 {
                    assert(path@[j - 1] == '/');
                } else if i == j - 1 {
                } else if j <= i < path@.len() {
                }
            }
            break;
        }
        j = j - 1;
    }
    let d = match dot {
        Some(d) => d,
        None => return None,
    };
    proof {
        let i = choose|i: int| extension_dot_at(path@, i);
        if i < d {
            assert(path@[d as int] == '.');
        } else if i > d {
            assert(path@[i] == '.');
        }
        assert(i == d);
    }
    let n = path.unicode_len();
    let ext = path.substring_char(d + 1, n);
    assert(ext@ == path@.skip(d + 1));
    match extension_content_type(ext) {
        Some(ct) => {
            let stem = path.substring_char(0, d);
            assert(stem@ == path@.take(d as int));
            Some((ct, stem.to_owned()))
        },
        None => None,
    }
}

/// A request resolved to the subject it names and the format to answer in.
#[derive(Clone, Debug)]
pub struct RequestTarget {
    pub subject: String,
    pub content_type: ContentType,
}

/// The text appended to a subject for a query string: nothing when it is
/// empty, else a question mark and the query.
pub open spec fn query_suffix(query: Seq<char>) -> Seq<char> {
    if query.len() == 0 {
        Seq::empty()
    } else {
        "?"@ + query
    }
}

/// The subject and format of a request for `path` (none, or empty, for the
/// home resource) with `query` under `server_url`, when content negotiation
/// chose `accept`. Only where negotiation fell back to HTML does a known file
/// extension choose the format, and it is then cut from the subject.
pub open spec fn target_spec(
    server_url: Seq<char>,
    path: Option<Seq<char>>,
    query: Seq<char>,
    accept: ContentType,
) -> (Seq<char>, ContentType) {
    match path {
        None => (server_url, accept),
        Some(p) => if p.len() == 0 {
            (server_url, accept)
        } else {
            let picked = if accept == ContentType::Html && extension_spec(p) is Some {
                extension_spec(p)->0
            } else {
                (accept, p)
            };
            (server_url + "/"@ + picked.1 + query_suffix(query), picked.0)
        },
    }
}

/// Resolves a request path under `server_url` to its subject and format.
pub fn request_target(server_url: &str, path: Option<&str>, query: &str, accept: ContentType) -> (r:
    RequestTarget)
    ensures
        (r.subject@, r.content_type) == target_spec(
            server_url@,
            match path {
                Some(p) => Some(p@),
                None => None,
            },
            query@,
            accept,
        ),
{
    match path {
        None => RequestTarget { subject: server_url.to_owned(), content_type: accept },
        Some(p) => {
            if p.is_empty() {
                return RequestTarget { subject: server_url.to_owned(), content_type: accept };
            }
            let mut content_type = accept;
            let mut stem = p.to_owned();
            if accept == ContentType::Html {
                if let Some((ct, rest)) = try_extension(p) {
                    content_type = ct;
                    stem = rest;
                }
            }
            let mut subject = server_url.to_owned();
            subject.append("/");
            subject.append(stem.as_str());
            if !query.is_empty() {
                subject.append("?");
                subject.append(query);
            }
            assert(subject@ =~= server_url@ + "/"@ + stem@ + query_suffix(query@));
            RequestTarget { subject, content_type }
        },
    }
}

} // verus!
