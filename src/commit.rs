//! Admitting and applying commits sent to the store.
use vstd::prelude::*;
use vstd::string::*;
use atomic_lib::commit::CommitOpts;
use crate::atomic::{
    apply_commit, commit_from_resource, parse_commit_resource, resource_to_json_ad, store_self_url,
};
use crate::error::{error_view_spec, no_self_url_message, not_owned_message, ErrorKind, ServerError};
use crate::text::{chars_of, prefix_spec, starts_with_chars};

verus! {

/// A character that ends the part of a URL it follows: a path separator, the
/// start of a query, or the start of a fragment.
pub open spec fn is_url_boundary(c: char) -> bool {
    c == '/' || c == '?' || c == '#'
}

/// A subject lies within a store's authority when it is the store's URL, or
/// begins with it and goes on past a boundary: right after it a `/`, `?` or
/// `#`, or the store's URL itself ends in `/`. So `https://srv.example/a` lies
/// within `https://srv.example`, while `https://srv.example.org/a` and
/// `https://other.example/https://srv.example` do not.
pub open spec fn within_authority(subject: Seq<char>, authority: Seq<char>) -> bool {
    ||| subject == authority
    ||| prefix_spec(subject, authority) && subject.len() > authority.len() && is_url_boundary(
        subject[authority.len() as int],
    )
    ||| prefix_spec(subject, authority) && authority.len() > 0 && authority.last() == '/'
}

/// Whether `subject` lies within the authority of a store whose URL is `authority`.
pub fn is_within_authority(subject: &str, authority: &str) -> (r: bool)
    ensures
        r == within_authority(subject@, authority@),
{
    let s = chars_of(subject);
    let a = chars_of(authority);
    if !starts_with_chars(&s, &a) {
        proof {
            if subject@ == authority@ {
                assert(subject@.take(authority@.len() as int) =~= authority@);
            }
        }
        return false;
    }
    if s.len() == a.len() {
        assert(subject@ =~= subject@.take(authority@.len() as int));
        return true;
    }
    let next = s[a.len()];
    if next == '/' || next == '?' || next == '#' {
        return true;
    }
    a.len() > 0 && a[a.len() - 1] == '/'
}

/// Whether the store takes a commit on `subject` at all, before any
/// validation of its content: it must have a URL of its own, and the subject
/// must lie within it.
#[derive(Clone, Copy, Debug, PartialEq, Eq, Structural)]
pub enum Admission {
    Admitted,
    NoSelfUrl,
    NotOwned,
}

/// The admission of a commit on `subject` by a store whose URL is `self_url`.
pub open spec fn admission_spec(subject: Seq<char>, self_url: Option<Seq<char>>) -> Admission {
    match self_url {
        None => Admission::NoSelfUrl,
        Some(u) => if within_authority(subject, u) {
            Admission::Admitted
        } else {
            Admission::NotOwned
        },
    }
}

/// The validations that a commit sent by a client goes through: all of them
/// but the previous-commit check, with rights checked for the signer, and the
/// indexes updated.
pub open spec fn client_commit_opts(opts: CommitOpts, signer: Seq<char>) -> bool {
    &&& opts.validate_schema
    &&& opts.validate_signature
    &&& opts.validate_timestamp
    &&& opts.validate_rights
    &&& !opts.validate_previous_commit
    &&& opts.update_index
    &&& opts.validate_for_agent matches Some(agent) && agent@ == signer
}

/// The validations for a commit that `signer` sent.
pub fn client_commit_options(signer: &str) -> (r: CommitOpts)
    ensures
        client_commit_opts(r, signer@),
{
    CommitOpts {
        validate_schema: true,
        validate_signature: true,
        validate_timestamp: true,
        validate_rights: true,
        validate_previous_commit: false,
        validate_for_agent: Some(signer.to_owned()),
        update_index: true,
    }
}

/// Decides whether the store takes a commit on `subject` signed by `signer`,
/// and with which validations it is then applied.
pub fn admit_commit(subject: &str, signer: &str, self_url: Option<&str>) -> (r: Result<
    CommitOpts,
    ServerError,
>)
    ensures
        match admission_spec(
            subject@,
            match self_url {
                Some(u) => Some(u@),
                None => None,
            },
        ) {
            Admission::Admitted => r matches Ok(opts) && client_commit_opts(opts, signer@),
            Admission::NoSelfUrl => r matches Err(e) && e.view_spec() == (
                ErrorKind::NoSelfUrl,
                no_self_url_message(),
            ),
            Admission::NotOwned => r matches Err(e) && e.view_spec() == (
                ErrorKind::SubjectNotOwned,
                not_owned_message(),
            ),
        },
{
    match self_url {
        None => Err(ServerError::no_self_url()),
        Some(u) => {
            if is_within_authority(subject, u) {
                Ok(client_commit_options(signer))
            } else {
                Err(ServerError::subject_not_owned())
            }
        },
    }
}

/// A commit on a subject outside the store's authority is refused as not
/// owned, whoever signed it and whatever it holds: the signer does not even
/// enter the decision.
pub proof fn foreign_subject_refused(subject: Seq<char>, authority: Seq<char>)
    requires
        !within_authority(subject, authority),
    ensures
        admission_spec(subject, Some(authority)) == Admission::NotOwned,
{
}

/// The text of an optional string slice.
pub open spec fn opt_str_view(o: Option<&str>) -> Option<Seq<char>> {
    match o {
        Some(s) => Some(s@),
        None => None,
    }
}

/// Applies `commit` to `store`, whose URL is `self_url`, and answers with the
/// resulting commit resource in JSON-AD.
///
/// A commit on a subject outside the store's authority is refused before its
/// signature, timestamp, rights or schema are looked at, so nothing about it
/// but its subject decides that outcome.
pub fn apply_client_commit(
    store: &atomic_lib::Db,
    commit: &atomic_lib::Commit,
    self_url: Option<&str>,
) -> (r: Result<String, ServerError>)
    ensures
        match admission_spec(commit.subject@, opt_str_view(self_url)) {
            Admission::NotOwned => r matches Err(e) && e.view_spec() == (
                ErrorKind::SubjectNotOwned,
                not_owned_message(),
            ),
            Admission::NoSelfUrl => r matches Err(e) && e.view_spec() == (
                ErrorKind::NoSelfUrl,
                no_self_url_message(),
            ),
            Admission::Admitted => r matches Err(e) ==> e.kind != ErrorKind::NoSelfUrl && e.kind
                != ErrorKind::SubjectNotOwned,
        },
{
    let opts = match admit_commit(commit.subject.as_str(), commit.signer.as_str(), self_url) {
        Ok(opts) => opts,
        Err(e) => return Err(e),
    };
    let response = match apply_commit(commit, store, &opts) {
        Ok(response) => response,
        Err(e) => return Err(commit_error(e)),
    };
    match resource_to_json_ad(&response.commit_resource) {
        Ok(body) => Ok(body),
        Err(e) => Err(commit_error(e)),
    }
}

/// Reads a JSON-AD commit from `body`, admits it, applies it to `store` with
/// the validations of a client commit, and answers with the resulting commit
/// resource in JSON-AD.
///
/// A body that cannot be read into a commit ends the request as a parse
/// error (see `commit_of_body`); a store error at a later step ends it with that error; a subject
/// outside the store's authority ends it before anything is validated or
/// written.
pub fn post_commit(store: &atomic_lib::Db, body: &str) -> (r: Result<String, ServerError>)
    ensures
        r matches Err(e) ==> e.kind != ErrorKind::NoSelfUrl && (e.kind
            == ErrorKind::SubjectNotOwned ==> e.message@ == not_owned_message()),
{
    let parsed = match parse_commit_resource(body, store) {
        Ok(resource) => commit_from_resource(resource),
        Err(e) => Err(e),
    };
    let commit = match commit_of_body(parsed) {
        Ok(commit) => commit,
        Err(e) => return Err(e),
    };
    let self_url = store_self_url(store);
    let authority = match &self_url {
        Some(u) => Some(u.as_str()),
        None => None,
    };
    apply_client_commit(store, &commit, authority)
}

/// The commit read from a request body, or, when the body could not be read
/// into one, a parse error that gives the reason why.
pub fn commit_of_body(parsed: Result<atomic_lib::Commit, atomic_lib::AtomicError>) -> (r: Result<
    atomic_lib::Commit,
    ServerError,
>)
    ensures
        match parsed {
            Ok(c) => r matches Ok(d) && d == c,
            Err(e) => r matches Err(err) && err.view_spec() == (ErrorKind::Parse, e.message@),
        },
{
    match parsed {
        Ok(c) => Ok(c),
        Err(e) => Err(ServerError { kind: ErrorKind::Parse, message: e.message }),
    }
}

/// A store error met while handling a commit; none of its classes is one of
/// the admission refusals.
fn commit_error(e: atomic_lib::AtomicError) -> (r: ServerError)
    ensures
        r.view_spec() == error_view_spec(e),
        r.kind != ErrorKind::NoSelfUrl,
        r.kind != ErrorKind::SubjectNotOwned,
{
    ServerError::from_atomic(e)
}

} // verus!
