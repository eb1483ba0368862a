//! The credential that a network operation presents to the remote.

use vstd::prelude::*;
use vstd::string::*;
use super::engine;
use crate::config::text_view;
use crate::config::GitCredentials;

verus! {

/// What authenticates a user to a remote.
#[derive(Debug)]
pub enum Credential {
    /// A user name with its password, sent as they are.
    Password { username: String, password: String },
    /// A user name whose key the user's agent holds.
    Agent { username: String },
}

/// A `Credential` as mathematical values.
pub enum CredentialView {
    Password { username: Seq<char>, password: Seq<char> },
    Agent { username: Seq<char> },
}

impl View for Credential {
    type V = CredentialView;

    open spec fn view(&self) -> CredentialView {
        match self {
            Credential::Password { username, password } => CredentialView::Password {
                username: username@,
                password: password@,
            },
            Credential::Agent { username } => CredentialView::Agent { username: username@ },
        }
    }
}

impl Credential {
    /// The credential for a user: the password where one is known, else the user's agent.
    pub open spec fn chosen(username: Seq<char>, password: Option<Seq<char>>) -> CredentialView {
        match password {
            Some(password) => CredentialView::Password { username, password },
            None => CredentialView::Agent { username },
        }
    }

    /// Chooses the credential for `username`.
    pub fn resolve(username: &str, password: Option<&str>) -> (r: Credential)
        ensures
            r@ == Credential::chosen(username@, text_view(password)),
    {
        match password {
            Some(password) => Credential::Password {
                username: String::from_str(username),
                password: String::from_str(password),
            },
            None => Credential::Agent { username: String::from_str(username) },
        }
    }

    /// Chooses the credential for the user that `credentials` describes.
    pub fn of(credentials: &GitCredentials) -> (r: Credential)
        ensures
            r@ == Credential::chosen(credentials@.username, credentials@.password),
    {
        match &credentials.password {
            Some(password) => Credential::resolve(
                credentials.username.as_str(),
                Some(password.as_str()),
            ),
            None => Credential::resolve(credentials.username.as_str(), None),
        }
    }
}

/// The engine's credential object for `credential`: made from user name and password for
/// `Password`, asked of the agent for `Agent`.
pub(crate) fn make_cred(credential: &Credential) -> Result<git2::Cred, git2::Error> {
    match credential {
        Credential::Password { username, password } => engine::cred_userpass(
            username.as_str(),
            password.as_str(),
        ),
        Credential::Agent { username } => engine::cred_from_agent(username.as_str()),
    }
}

} // verus!
