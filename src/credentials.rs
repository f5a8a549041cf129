use vstd::prelude::*;

verus! {

/// A credential bundle: access key id, secret access key and an optional
/// session token, each owned by value.
#[derive(Clone, Debug, PartialEq, Eq)]
pub struct Credentials {
    pub access_key_id: String,
    pub secret_access_key: String,
    pub session_token: Option<String>,
}

/// The mathematical value of a credential bundle.
pub struct CredentialsModel {
    pub access_key_id: Seq<char>,
    pub secret_access_key: Seq<char>,
    pub session_token: Option<Seq<char>>,
}

pub open spec fn token_view(t: Option<String>) -> Option<Seq<char>> {
    match t {
        Some(s) => Some(s@),
        None => None,
    }
}

impl View for Credentials {
    type V = CredentialsModel;

    open spec fn view(&self) -> CredentialsModel {
        CredentialsModel {
            access_key_id: self.access_key_id@,
            secret_access_key: self.secret_access_key@,
            session_token: token_view(self.session_token),
        }
    }
}

fn copy_token(t: &Option<String>) -> (r: Option<String>)
    ensures
        token_view(r) == token_view(*t),
{
    match t {
        Some(s) => Some(s.clone()),
        None => None,
    }
}

impl Credentials {
    /// A bundle that owns copies of the given keys and token.
    pub fn from_keys(
        access_key_id: &str,
        secret_access_key: &str,
        session_token: Option<String>,
    ) -> (r: Credentials)
        ensures
            r.access_key_id@ == access_key_id@,
            r.secret_access_key@ == secret_access_key@,
            token_view(r.session_token) == token_view(session_token),
    {
        Credentials {
            access_key_id: access_key_id.to_owned(),
            secret_access_key: secret_access_key.to_owned(),
            session_token,
        }
    }
}

/// The failure that a credential capability reports: the source's own error,
/// carried as an opaque cause and not interpreted.
#[derive(Clone, Debug, PartialEq, Eq)]
pub enum CredentialsError<E> {
    Unhandled(E),
}

impl<E> CredentialsError<E> {
    /// The original failure carried by this error.
    pub open spec fn cause_of(self) -> E {
        match self {
            CredentialsError::Unhandled(e) => e,
        }
    }

    /// The original failure carried by this error.
    pub fn cause(&self) -> (r: &E)
        ensures
            *r == self.cause_of(),
    {
        match self {
            CredentialsError::Unhandled(e) => e,
        }
    }

    /// Takes the original failure out of this error.
    pub fn into_cause(self) -> (r: E)
        ensures
            r == self.cause_of(),
    {
        match self {
            CredentialsError::Unhandled(e) => e,
        }
    }
}

/// Maps what a credential source returned to what the async credential
/// capability returns: a bundle is copied field by field, and a failure is
/// wrapped, unchanged, as an unhandled error.
pub fn map_result<E>(source: Result<Credentials, E>) -> (r: Result<Credentials, CredentialsError<E>>)
    ensures
        match source {
            Ok(c) => r matches Ok(d) && d@ == c@,
            Err(e) => r == Err::<Credentials, CredentialsError<E>>(CredentialsError::Unhandled(e)),
        },
{
    match source {
        Ok(credentials) => Ok(
            Credentials::from_keys(
                credentials.access_key_id.as_str(),
                credentials.secret_access_key.as_str(),
                copy_token(&credentials.session_token),
            ),
        ),
        Err(err) => Err(CredentialsError::Unhandled(err)),
    }
}

/// A failed credential source surfaces as an error whose cause, unwrapped, is
/// the source's own failure.
pub proof fn lemma_failure_cause_kept<E>(failure: E, mapped: Result<Credentials, CredentialsError<E>>)
    requires
        mapped == Err::<Credentials, CredentialsError<E>>(CredentialsError::Unhandled(failure)),
    ensures
        mapped matches Err(err) && err.cause_of() == failure,
{
}

/// Which credential source a bootstrap uses.
#[derive(Clone, Debug, PartialEq, Eq)]
pub enum CredentialSource {
    /// Credentials of the named profile.
    Profile { name: String },
    /// The ambient credential chain.
    Default,
}

/// Chooses the credential source: the named profile where one is given, the
/// ambient chain otherwise.
pub fn select_credential_source(profile: Option<String>) -> (r: CredentialSource)
    ensures
        match profile {
            Some(p) => r matches CredentialSource::Profile { name } && name@ == p@,
            None => r is Default,
        },
{
    match profile {
        Some(name) => CredentialSource::Profile { name },
        None => CredentialSource::Default,
    }
}

} // verus!
