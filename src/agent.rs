//! Which agent a request acts as.
use vstd::prelude::*;
use vstd::string::*;
use atomic_lib::agents::ForAgent;
use atomic_lib::authentication::AuthValues;
use atomic_lib::AtomicError;
use crate::atomic::check_credentials;

verus! {

/// Credentials that a request carries: an agent, its public key, and its
/// signature over a subject and the timestamp. Headers sign the requested
/// subject itself; a session cookie names the subject it signed.
#[derive(Clone, Debug)]
pub struct Credentials {
    pub public_key: String,
    pub signature: String,
    pub timestamp: i64,
    pub agent: String,
    /// The subject the signature covers, when it is not the requested one.
    pub signed_subject: Option<String>,
}

/// The subject that credentials for a request for `subject` are checked against.
pub open spec fn signed_subject_spec(c: Credentials, subject: Seq<char>) -> Seq<char> {
    match c.signed_subject {
        Some(s) => s@,
        None => subject,
    }
}

/// The values to check for a request for `subject` with `credentials`.
pub fn auth_values(credentials: &Option<Credentials>, subject: &str) -> (r: Option<AuthValues>)
    ensures
        match credentials {
            None => r is None,
            Some(c) => r matches Some(a) && a.public_key@ == c.public_key@ && a.signature@
                == c.signature@ && a.timestamp == c.timestamp && a.agent_subject@ == c.agent@
                && a.requested_subject@ == signed_subject_spec(*c, subject@),
        },
{
    match credentials {
        None => None,
        Some(c) => Some(
            AuthValues {
                public_key: c.public_key.clone(),
                timestamp: c.timestamp,
                signature: c.signature.clone(),
                requested_subject: match &c.signed_subject {
                    Some(s) => s.clone(),
                    None => subject.to_owned(),
                },
                agent_subject: c.agent.clone(),
            },
        ),
    }
}

/// The agent that checked credentials name; the public agent, whose rights
/// are the least, when the check failed.
pub fn agent_or_public(checked: Result<ForAgent, AtomicError>) -> (r: ForAgent)
    ensures
        match checked {
            Ok(agent) => r == agent,
            Err(_) => r == ForAgent::Public,
        },
{
    match checked {
        Ok(agent) => agent,
        Err(_) => ForAgent::Public,
    }
}

/// The agent a request acts as. Resolution never fails: a request without
/// credentials, or whose credentials do not hold up, acts as the public agent.
pub fn resolve_agent(auth: Option<AuthValues>, store: &atomic_lib::Db) -> (r: ForAgent)
    ensures
        auth is None ==> r == ForAgent::Public,
        r == ForAgent::Public || (auth matches Some(a) && r matches ForAgent::AgentSubject(s) && s@
            == a.agent_subject@),
{
    agent_or_public(check_credentials(auth, store))
}

} // verus!
