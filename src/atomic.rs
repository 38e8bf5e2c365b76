//! The store, commits and serializers of `atomic_lib`, as this library sees them.
use vstd::prelude::*;
use atomic_lib::Storelike;
use crate::commit::client_commit_opts;

verus! {

#[verifier::external_type_specification]
#[verifier::external_body]
pub struct ExDb(atomic_lib::Db);

#[verifier::external_type_specification]
#[verifier::external_body]
pub struct ExResource(atomic_lib::Resource);

#[verifier::external_type_specification]
#[verifier::external_body]
pub struct ExValue(atomic_lib::Value);

#[verifier::external_type_specification]
#[verifier::external_body]
pub struct ExAtom(atomic_lib::Atom);

#[verifier::external_type_specification]
pub struct ExCommit(atomic_lib::Commit);

#[verifier::external_type_specification]
pub struct ExCommitResponse(atomic_lib::commit::CommitResponse);

#[verifier::external_type_specification]
pub struct ExCommitOpts(atomic_lib::commit::CommitOpts);

#[verifier::external_type_specification]
pub struct ExAtomicError(atomic_lib::AtomicError);

#[verifier::external_type_specification]
pub struct ExAtomicErrorType(atomic_lib::AtomicErrorType);

#[verifier::external_type_specification]
pub struct ExForAgent(atomic_lib::agents::ForAgent);

#[verifier::external_type_specification]
pub struct ExAuthValues(atomic_lib::authentication::AuthValues);

/// Relies on atomic_lib::authentication::get_agent_from_auth_values_and_check:
/// checks the signature, timestamp and public key of request credentials and,
/// when they hold up, answers with the agent they name; without credentials
/// it answers with the public agent.
#[verifier::external_body]
pub(crate) fn check_credentials(
    auth: Option<atomic_lib::authentication::AuthValues>,
    store: &atomic_lib::Db,
) -> (r: Result<atomic_lib::agents::ForAgent, atomic_lib::AtomicError>)
    ensures
        auth is None ==> r matches Ok(atomic_lib::agents::ForAgent::Public),
        auth matches Some(a) ==> (r matches Ok(f) ==> f matches atomic_lib::agents::ForAgent::AgentSubject(
            s,
        ) && s@ == a.agent_subject@),
{
    atomic_lib::authentication::get_agent_from_auth_values_and_check(auth, store)
}

/// Relies on atomic_lib::parse::parse_json_ad_commit_resource: reads a
/// JSON-AD commit body into a resource, looking its properties up in the store.
#[verifier::external_body]
pub(crate) fn parse_commit_resource(body: &str, store: &atomic_lib::Db) -> (r: Result<
    atomic_lib::Resource,
    atomic_lib::AtomicError,
>) {
    atomic_lib::parse::parse_json_ad_commit_resource(body, store)
}

/// Relies on atomic_lib::Commit::from_resource: reads the commit fields out
/// of a parsed commit resource.
#[verifier::external_body]
pub(crate) fn commit_from_resource(resource: atomic_lib::Resource) -> (r: Result<
    atomic_lib::Commit,
    atomic_lib::AtomicError,
>) {
    atomic_lib::Commit::from_resource(resource)
}

/// Relies on `Storelike::get_self_url` of atomic_lib::Db, which always
/// answers with the server URL the database was opened with.
#[verifier::external_body]
pub(crate) fn store_self_url(store: &atomic_lib::Db) -> (r: Option<String>)
    ensures
        r is Some,
{
    store.get_self_url()
}

/// Relies on atomic_lib::Commit::apply_opts: runs the enabled validations
/// (signature, timestamp, rights, previous commit, schema) and, when they all
/// pass, writes the changed resource, the commit and the indexes.
#[verifier::external_body]
pub(crate) fn apply_commit(
    commit: &atomic_lib::Commit,
    store: &atomic_lib::Db,
    opts: &atomic_lib::commit::CommitOpts,
) -> (r: Result<atomic_lib::commit::CommitResponse, atomic_lib::AtomicError>)
    requires
        client_commit_opts(*opts, commit.signer@),
{
    commit.apply_opts(store, opts)
}

/// A resource as the store handed it out, with the subject it was asked for
/// and the agent it was read as.
#[derive(Debug)]
pub struct Fetched {
    pub resource: atomic_lib::Resource,
    pub subject: String,
    pub for_agent: atomic_lib::agents::ForAgent,
}

/// Relies on `Storelike::get_resource_extended` of atomic_lib::Db: looks the
/// subject up, computes its dynamic properties unless told to skip them, and
/// checks that `for_agent` may read it.
#[verifier::external_body]
pub(crate) fn get_resource_extended(
    store: &atomic_lib::Db,
    subject: &str,
    skip_dynamic: bool,
    for_agent: &atomic_lib::agents::ForAgent,
) -> (r: Result<Fetched, atomic_lib::AtomicError>)
    ensures
        r matches Ok(f) ==> f.subject@ == subject@ && f.for_agent == *for_agent,
{
    match store.get_resource_extended(subject, skip_dynamic, for_agent) {
        Ok(resource) => Ok(Fetched {
            resource,
            subject: subject.to_string(),
            for_agent: for_agent.clone(),
        }),
        Err(e) => Err(e),
    }
}

/// Relies on atomic_lib::Resource::to_json_ad: the resource in JSON-AD.
#[verifier::external_body]
pub(crate) fn resource_to_json_ad(resource: &atomic_lib::Resource) -> (r: Result<
    String,
    atomic_lib::AtomicError,
>) {
    resource.to_json_ad()
}

/// Relies on atomic_lib::Resource::to_json: the resource as plain JSON, keyed
/// by the shortnames that the store gives its properties.
#[verifier::external_body]
pub(crate) fn resource_to_json(resource: &atomic_lib::Resource, store: &atomic_lib::Db) -> (r:
    Result<String, atomic_lib::AtomicError>) {
    resource.to_json(store)
}

/// Relies on atomic_lib::Resource::to_json_ld: the resource in JSON-LD, with
/// an `@context` built from the store's properties.
#[verifier::external_body]
pub(crate) fn resource_to_json_ld(resource: &atomic_lib::Resource, store: &atomic_lib::Db) -> (r:
    Result<String, atomic_lib::AtomicError>) {
    resource.to_json_ld(store)
}

/// Relies on atomic_lib::Resource::to_atoms: one atom per property value.
#[verifier::external_body]
pub(crate) fn resource_to_atoms(resource: &atomic_lib::Resource) -> (r: Vec<atomic_lib::Atom>) {
    resource.to_atoms()
}

/// Relies on atomic_lib::serialize::atoms_to_ntriples: the atoms as
/// N-Triples, typed by the store's properties.
#[verifier::external_body]
pub(crate) fn atoms_to_ntriples(atoms: Vec<atomic_lib::Atom>, store: &atomic_lib::Db) -> (r:
    Result<String, atomic_lib::AtomicError>) {
    atomic_lib::serialize::atoms_to_ntriples(atoms, store)
}

} // verus!
