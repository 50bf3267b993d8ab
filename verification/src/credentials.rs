//! Session credentials and the rule that picks them.
//!
//! A credential found in the cache always wins over a username and password
//! supplied for the run. The supplied pair is used only when the cache holds
//! none.

use vstd::prelude::*;

verus! {

/// How the service is to read the data of a credential.
#[derive(Clone, Copy, Debug, PartialEq, Eq, Structural)]
pub enum AuthenticationType {
    /// The data is a password.
    UserPass,
    /// The data is a credential that the service issued at an earlier login.
    StoredSpotifyCredentials,
    /// The data is a stored credential of the Facebook login.
    StoredFacebookCredentials,
    /// The data is a service token.
    SpotifyToken,
    /// The data is a Facebook token.
    FacebookToken,
}

/// What a session is opened with. Held once and handed on by move.
#[derive(Debug, PartialEq, Eq)]
pub struct Credentials {
    pub username: String,
    pub auth_type: AuthenticationType,
    pub auth_data: Vec<u8>,
}

/// A credential as plain values.
pub struct CredentialsView {
    pub username: Seq<char>,
    pub auth_type: AuthenticationType,
    pub auth_data: Seq<u8>,
}

impl View for Credentials {
    type V = CredentialsView;

    open spec fn view(&self) -> CredentialsView {
        CredentialsView {
            username: self.username@,
            auth_type: self.auth_type,
            auth_data: self.auth_data@,
        }
    }
}

/// The credential made of a username and a password: the password travels as
/// its UTF-8 bytes.
pub open spec fn password_credentials(username: Seq<char>, password: Seq<char>) -> CredentialsView {
    CredentialsView {
        username,
        auth_type: AuthenticationType::UserPass,
        auth_data: vstd::utf8::encode_utf8(password),
    }
}

/// The credential a run logs in with: the cached one if there is one, else the
/// one made of the supplied username and password.
pub open spec fn resolve_spec(
    cached: Option<CredentialsView>,
    username: Seq<char>,
    password: Seq<char>,
) -> CredentialsView {
    match cached {
        Some(stored) => stored,
        None => password_credentials(username, password),
    }
}

/// The plain values of what a cache lookup gave.
pub open spec fn lookup_view(cached: Option<Credentials>) -> Option<CredentialsView> {
    match cached {
        Some(stored) => Some(stored@),
        None => None,
    }
}

/// `Credentials::with_password` of librespot-core, its result given field by
/// field: the username as supplied, the type that marks a password, and the
/// bytes of the password.
#[verifier::external_body]
fn with_password(username: String, password: String) -> (r: Credentials)
    ensures
        r@ == password_credentials(username@, password@),
{
    let made = librespot::core::authentication::Credentials::with_password(username, password);
    let auth_type = match made.auth_type {
        librespot::protocol::authentication::AuthenticationType::AUTHENTICATION_USER_PASS => AuthenticationType::UserPass,
        librespot::protocol::authentication::AuthenticationType::AUTHENTICATION_STORED_SPOTIFY_CREDENTIALS => AuthenticationType::StoredSpotifyCredentials,
        librespot::protocol::authentication::AuthenticationType::AUTHENTICATION_STORED_FACEBOOK_CREDENTIALS => AuthenticationType::StoredFacebookCredentials,
        librespot::protocol::authentication::AuthenticationType::AUTHENTICATION_SPOTIFY_TOKEN => AuthenticationType::SpotifyToken,
        librespot::protocol::authentication::AuthenticationType::AUTHENTICATION_FACEBOOK_TOKEN => AuthenticationType::FacebookToken,
    };
    Credentials { username: made.username, auth_type, auth_data: made.auth_data }
}

/// Picks the credential for this run.
///
/// `cached` is what the credential cache held, `None` where it held nothing or
/// could not be read. A cached credential is returned as it is, whatever
/// `username` and `password` are. Without one, the result is the password
/// credential of exactly `username` and `password`. There is no failure.
pub fn resolve(cached: Option<Credentials>, username: String, password: String) -> (r: Credentials)
    ensures
        cached matches Some(stored) ==> r == stored,
        r@ == resolve_spec(lookup_view(cached), username@, password@),
{
    match cached {
        Some(stored) => stored,
        None => with_password(username, password),
    }
}

/// A cached credential takes precedence: whatever username and password are
/// supplied, the cached credential is the one chosen.
pub proof fn law_cache_precedence(
    stored: CredentialsView,
    username: Seq<char>,
    password: Seq<char>,
    other_username: Seq<char>,
    other_password: Seq<char>,
)
    ensures
        resolve_spec(Some(stored), username, password) == stored,
        resolve_spec(Some(stored), username, password) == resolve_spec(
            Some(stored),
            other_username,
            other_password,
        ),
{
}

/// Without a cached credential the choice is made of exactly the supplied
/// username and password, and an empty cache is no failure.
pub proof fn law_supplied_credentials(username: Seq<char>, password: Seq<char>)
    ensures
        resolve_spec(None, username, password).username == username,
        resolve_spec(None, username, password).auth_type == AuthenticationType::UserPass,
        resolve_spec(None, username, password).auth_data == vstd::utf8::encode_utf8(password),
{
}

} // verus!
