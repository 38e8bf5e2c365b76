//! Wire formats and content negotiation.
use vstd::prelude::*;
use vstd::string::*;
use crate::text::{chars_of, contains_chars, contains_spec};

verus! {

/// The formats a resource can be rendered in.
#[derive(Clone, Copy, Debug, PartialEq, Eq, Structural)]
pub enum ContentType {
    Json,
    JsonLd,
    JsonAd,
    Html,
    Turtle,
    NTriples,
}

/// The media type that a response in `ct` carries.
pub open spec fn mime_spec(ct: ContentType) -> Seq<char> {
    match ct {
        ContentType::Json => "application/json"@,
        ContentType::JsonLd => "application/ld+json"@,
        ContentType::JsonAd => "application/ad+json"@,
        ContentType::Html => "text/html"@,
        ContentType::Turtle => "text/turtle"@,
        ContentType::NTriples => "application/n-triples"@,
    }
}

impl ContentType {
    /// The media type of this format.
    pub fn to_mime(&self) -> (r: &'static str)
        ensures
            r@ == mime_spec(*self),
    {
        match self {
            ContentType::Json => "application/json",
            ContentType::JsonLd => "application/ld+json",
            ContentType::JsonAd => "application/ad+json",
            ContentType::Html => "text/html",
            ContentType::Turtle => "text/turtle",
            ContentType::NTriples => "application/n-triples",
        }
    }
}

/// The format that one media range of an Accept header names, by the first
/// entry of the table that it contains; XML is answered with HTML.
pub open spec fn media_range_type(part: Seq<char>) -> Option<ContentType> {
    if contains_spec(part, "application/ad+json"@) {
        Some(ContentType::JsonAd)
    } else if contains_spec(part, "text/html"@) {
        Some(ContentType::Html)
    } else if contains_spec(part, "application/xml"@) {
        Some(ContentType::Html)
    } else if contains_spec(part, "application/json"@) {
        Some(ContentType::Json)
    } else if contains_spec(part, "application/ld+json"@) {
        Some(ContentType::JsonLd)
    } else if contains_spec(part, "text/turtle"@) {
        Some(ContentType::Turtle)
    } else if contains_spec(part, "application/n-triples"@) {
        Some(ContentType::NTriples)
    } else {
        None
    }
}

/// Reads an Accept header whose current media range so far is `part` and
/// whose unread text is `rest`: the first media range that names a known
/// format decides, and HTML is the default.
pub open spec fn accept_from(part: Seq<char>, rest: Seq<char>) -> ContentType
    decreases rest.len(),
{
    if rest.len() == 0 {
        match media_range_type(part) {
            Some(ct) => ct,
            None => ContentType::Html,
        }
    } else if rest[0] == ',' {
        match media_range_type(part) {
            Some(ct) => ct,
            None => accept_from(Seq::empty(), rest.drop_first()),
        }
    } else {
        accept_from(part.push(rest[0]), rest.drop_first())
    }
}

/// The format that an Accept header value selects.
pub open spec fn accept_spec(header: Seq<char>) -> ContentType {
    accept_from(Seq::empty(), header)
}

fn media_range_content_type(part: &Vec<char>) -> (r: Option<ContentType>)
    ensures
        r == media_range_type(part@),
{
    if contains_chars(part, &chars_of("application/ad+json")) {
        Some(ContentType::JsonAd)
    } else if contains_chars(part, &chars_of("text/html")) {
        Some(ContentType::Html)
    } else if contains_chars(part, &chars_of("application/xml")) {
        Some(ContentType::Html)
    } else if contains_chars(part, &chars_of("application/json")) {
        Some(ContentType::Json)
    } else if contains_chars(part, &chars_of("application/ld+json")) {
        Some(ContentType::JsonLd)
    } else if contains_chars(part, &chars_of("text/turtle")) {
        Some(ContentType::Turtle)
    } else if contains_chars(part, &chars_of("application/n-triples")) {
        Some(ContentType::NTriples)
    } else {
        None
    }
}

/// Selects a format from the value of an Accept header.
pub fn parse_accept_header(header: &str) -> (r: ContentType)
    ensures
        r == accept_spec(header@),
{
    let chars = chars_of(header);
    let mut part: Vec<char> = Vec::new();
    let mut i: usize = 0;
    assert(chars@.skip(0) =~= header@);
    assert(part@ =~= Seq::<char>::empty());
    while i < chars.len()
        invariant
            chars@ == header@,
            i <= chars@.len(),
            accept_spec(header@) == accept_from(part@, chars@.skip(i as int)),
        decreases chars@.len() - i,
    {
        let c = chars[i];
        assert(chars@.skip(i as int)[0] == c);
        assert(chars@.skip(i as int).drop_first() =~= chars@.skip(i + 1));
        if c == ',' {
            let found = media_range_content_type(&part);
            if let Some(ct) = found {
                return ct;
            }
            part = Vec::new();
            assert(part@ =~= Seq::<char>::empty());
        } else {
            part.push(c);
        }
        i = i + 1;
    }
    assert(chars@.skip(i as int).len() == 0);
    match media_range_content_type(&part) {
        Some(ct) => ct,
        None => ContentType::Html,
    }
}

/// The format asked for by an optional Accept header; HTML when there is none.
pub open spec fn get_accept_spec(header: Option<Seq<char>>) -> ContentType {
    match header {
        Some(h) => accept_spec(h),
        None => ContentType::Html,
    }
}

/// Selects a format from an optional Accept header.
pub fn get_accept(header: Option<&str>) -> (r: ContentType)
    ensures
        r == get_accept_spec(
            match header {
                Some(h) => Some(h@),
                None => None,
            },
        ),
{
    match header {
        Some(h) => parse_accept_header(h),
        None => ContentType::Html,
    }
}

} // verus!
