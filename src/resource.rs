//! Resolving a resource for an agent and rendering it in the asked format.
use vstd::prelude::*;
use vstd::string::*;
use atomic_lib::agents::ForAgent;
use crate::atomic::{
    atoms_to_ntriples, get_resource_extended, resource_to_atoms, resource_to_json,
    resource_to_json_ad, resource_to_json_ld, Fetched,
};
use crate::agent::{auth_values, resolve_agent, Credentials};
use crate::canonical::{canonical_lines, canonical_spec};
use crate::content_type::{get_accept, get_accept_spec, mime_spec, ContentType};
use crate::error::{denied_message, error_view_spec, ErrorKind, ServerError};
use crate::subject::{request_target, target_spec, RequestTarget};

verus! {

/// The serializers a resource can be written by.
#[derive(Clone, Copy, Debug, PartialEq, Eq, Structural)]
pub enum Serializer {
    /// Plain JSON, keyed by property shortnames.
    Json,
    /// JSON-LD, with an `@context`.
    JsonLd,
    /// JSON-AD, the native format.
    JsonAd,
    /// N-Triples, which is also valid Turtle.
    NTriples,
}

/// The serializer for each format: HTML pages carry JSON-AD for the client
/// to render, and Turtle is answered with N-Triples.
pub open spec fn serializer_spec(ct: ContentType) -> Serializer {
    match ct {
        ContentType::Json => Serializer::Json,
        ContentType::JsonLd => Serializer::JsonLd,
        ContentType::JsonAd => Serializer::JsonAd,
        ContentType::Html => Serializer::JsonAd,
        ContentType::Turtle => Serializer::NTriples,
        ContentType::NTriples => Serializer::NTriples,
    }
}

/// The serializer that writes a response in `ct`.
pub fn serializer_for(ct: ContentType) -> (r: Serializer)
    ensures
        r == serializer_spec(ct),
{
    match ct {
        ContentType::Json => Serializer::Json,
        ContentType::JsonLd => Serializer::JsonLd,
        ContentType::JsonAd => Serializer::JsonAd,
        ContentType::Html => Serializer::JsonAd,
        ContentType::Turtle => Serializer::NTriples,
        ContentType::NTriples => Serializer::NTriples,
    }
}

/// Every format has a serializer, and formats that share one share their bytes:
/// HTML is written exactly as JSON-AD, Turtle exactly as N-Triples.
pub proof fn every_format_has_a_serializer(ct: ContentType)
    ensures
        serializer_spec(ct) == match ct {
            ContentType::Json => Serializer::Json,
            ContentType::JsonLd => Serializer::JsonLd,
            ContentType::JsonAd | ContentType::Html => Serializer::JsonAd,
            ContentType::Turtle | ContentType::NTriples => Serializer::NTriples,
        },
        serializer_spec(ContentType::Html) == serializer_spec(ContentType::JsonAd),
        serializer_spec(ContentType::Turtle) == serializer_spec(ContentType::NTriples),
{
}

/// Writes `resource` with the serializer for `ct`. Triples come out one per
/// line in ascending order, so that a resource is always written the same way
/// whatever order its store hands its atoms out in.
pub fn render(resource: &atomic_lib::Resource, ct: ContentType, store: &atomic_lib::Db) -> (r:
    Result<String, ServerError>)
    ensures
        r matches Err(e) ==> (e.kind == ErrorKind::RightsDenied ==> e.message@
            == denied_message()),
        serializer_spec(ct) == Serializer::NTriples ==> (r matches Ok(body) ==> exists|
            t: Seq<char>,
        | body@ == canonical_spec(t)),
{
    let written = match serializer_for(ct) {
        Serializer::Json => resource_to_json(resource, store),
        Serializer::JsonLd => resource_to_json_ld(resource, store),
        Serializer::JsonAd => resource_to_json_ad(resource),
        Serializer::NTriples => match atoms_to_ntriples(resource_to_atoms(resource), store) {
            Ok(triples) => {
                Ok(canonical_lines(triples.as_str()))
            },
            Err(e) => Err(e),
        },
    };
    match written {
        Ok(body) => Ok(body),
        Err(e) => Err(ServerError::from_atomic(e)),
    }
}

/// The value of the Cache-Control header of every resource response: a
/// response depends on who asked, so none is kept.
pub open spec fn cache_control_spec() -> Seq<char> {
    "no-store, no-cache, must-revalidate, private"@
}

/// The headers of a response in `ct`: its media type, and no caching.
pub fn response_headers(ct: ContentType) -> (r: Vec<(String, String)>)
    ensures
        r@.len() == 2,
        r@[0].0@ == "Content-Type"@,
        r@[0].1@ == mime_spec(ct),
        r@[1].0@ == "Cache-Control"@,
        r@[1].1@ == cache_control_spec(),
{
    let mut r: Vec<(String, String)> = Vec::new();
    r.push(("Content-Type".to_owned(), ct.to_mime().to_owned()));
    r.push(
        (
            "Cache-Control".to_owned(),
            "no-store, no-cache, must-revalidate, private".to_owned(),
        ),
    );
    r
}

/// A rendered resource, the subject and agent it was read for, the format it
/// is in, and the headers to send it with.
#[derive(Debug)]
pub struct ResourceResponse {
    /// The subject that was read.
    pub subject: String,
    /// The agent it was read as.
    pub for_agent: ForAgent,
    pub content_type: ContentType,
    pub headers: Vec<(String, String)>,
    pub body: String,
}

/// A request for a resource, as it arrives: the path after the server URL
/// (none for the home resource), the query string, the Accept header, and
/// the credentials it carries.
#[derive(Clone, Debug)]
pub struct ResourceRequest {
    pub path: Option<String>,
    pub query: String,
    pub accept: Option<String>,
    pub credentials: Option<Credentials>,
}

/// The text of an optional string.
pub open spec fn opt_view(o: Option<String>) -> Option<Seq<char>> {
    match o {
        Some(s) => Some(s@),
        None => None,
    }
}

/// The subject and format that `request` resolves to under `server_url`.
pub open spec fn request_target_spec(server_url: Seq<char>, request: ResourceRequest) -> (
    Seq<char>,
    ContentType,
) {
    target_spec(
        server_url,
        opt_view(request.path),
        request.query@,
        get_accept_spec(opt_view(request.accept)),
    )
}

/// Answers a request for a resource under `server_url`: negotiates the
/// format, resolves the subject and the agent, and renders what that agent
/// may read.
pub fn handle_get_resource(
    store: &atomic_lib::Db,
    server_url: &str,
    request: &ResourceRequest,
) -> (r: Result<ResourceResponse, ServerError>)
    ensures
        r matches Ok(resp) ==> resp.subject@ == request_target_spec(server_url@, *request).0
            && (resp.for_agent == ForAgent::Public || (request.credentials matches Some(c)
            && resp.for_agent matches ForAgent::AgentSubject(s) && s@ == c.agent@)),
        r matches Ok(resp) ==> resp.content_type == request_target_spec(server_url@, *request).1
            && resp.headers@.len() == 2 && resp.headers@[0].0@ == "Content-Type"@
            && resp.headers@[0].1@ == mime_spec(resp.content_type) && resp.headers@[1].0@
            == "Cache-Control"@ && resp.headers@[1].1@ == cache_control_spec(),
        r matches Err(e) ==> (e.kind == ErrorKind::RightsDenied ==> e.message@
            == denied_message()),
{
    let accept = match &request.accept {
        Some(a) => Some(a.as_str()),
        None => None,
    };
    let path = match &request.path {
        Some(p) => Some(p.as_str()),
        None => None,
    };
    let target = request_target(server_url, path, request.query.as_str(), get_accept(accept));
    let for_agent = resolve_agent(auth_values(&request.credentials, target.subject.as_str()), store);
    resolve_target(store, &target, &for_agent)
}

/// The resource that a read handed out, or, when the read was refused (the
/// subject is missing, or the agent may not read it), the error for that
/// refusal; a denial keeps nothing of the store's message.
pub fn fetched_or_error(read: Result<Fetched, atomic_lib::AtomicError>) -> (r: Result<
    Fetched,
    ServerError,
>)
    ensures
        match read {
            Ok(f) => r matches Ok(g) && g == f,
            Err(e) => r matches Err(err) && err.view_spec() == error_view_spec(e),
        },
{
    match read {
        Ok(f) => Ok(f),
        Err(e) => Err(ServerError::from_atomic(e)),
    }
}

/// Resolves `target` for `for_agent`, with its dynamic properties, and
/// renders it in the target's format.
///
/// A resource the agent may not read ends in a denial that carries nothing
/// but the fixed denial message.
pub fn resolve_target(
    store: &atomic_lib::Db,
    target: &RequestTarget,
    for_agent: &ForAgent,
) -> (r: Result<ResourceResponse, ServerError>)
    ensures
        r matches Ok(resp) ==> resp.subject@ == target.subject@ && resp.for_agent == *for_agent,
        r matches Ok(resp) ==> resp.content_type == target.content_type && resp.headers@.len()
            == 2 && resp.headers@[0].0@ == "Content-Type"@ && resp.headers@[0].1@ == mime_spec(
            resp.content_type,
        ) && resp.headers@[1].0@ == "Cache-Control"@ && resp.headers@[1].1@
            == cache_control_spec(),
        r matches Err(e) ==> (e.kind == ErrorKind::RightsDenied ==> e.message@
            == denied_message()),
{
    let fetched = match fetched_or_error(
        get_resource_extended(store, target.subject.as_str(), false, for_agent),
    ) {
        Ok(fetched) => fetched,
        Err(e) => return Err(e),
    };
    match render(&fetched.resource, target.content_type, store) {
        Ok(body) => Ok(
            ResourceResponse {
                subject: fetched.subject,
                for_agent: fetched.for_agent,
                content_type: target.content_type,
                headers: response_headers(target.content_type),
                body,
            },
        ),
        Err(e) => Err(e),
    }
}

} // verus!
