use vstd::prelude::*;

verus! {

/// A token issued by an OpenID Connect provider.
#[derive(Debug)]
pub struct OidcToken {
    pub access_token: String,
    pub expires_in: i32,
    pub token_type: String,
    pub scope: String,
    pub refresh_token: Option<String>,
    pub id_token: Option<String>,
}

fn clone_opt_string(s: &Option<String>) -> (r: Option<String>)
    ensures
        r == *s,
{
    match s {
        Some(v) => Some(v.clone()),
        None => None,
    }
}

impl Clone for OidcToken {
    fn clone(&self) -> (r: Self)
        ensures
            r == *self,
    {
        OidcToken {
            access_token: self.access_token.clone(),
            expires_in: self.expires_in,
            token_type: self.token_type.clone(),
            scope: self.scope.clone(),
            refresh_token: clone_opt_string(&self.refresh_token),
            id_token: clone_opt_string(&self.id_token),
        }
    }
}

/// What a client presents to obtain an OIDC token.
#[derive(Debug, Clone, Copy, PartialEq, Eq, Structural)]
pub struct OidcCredentials {}

/// OIDC authentication: the credentials, and the token once one was obtained.
#[derive(Debug)]
pub struct Oidc {
    pub token: Option<OidcToken>,
    pub credentials: OidcCredentials,
}

impl Clone for Oidc {
    fn clone(&self) -> (r: Self)
        ensures
            r == *self,
    {
        let token = match &self.token {
            Some(t) => Some(t.clone()),
            None => None,
        };
        Oidc { token, credentials: self.credentials }
    }
}

/// The credential strategy in effect.
#[derive(Debug)]
pub enum Auth {
    /// No credentials are sent.
    Anonymous,
    /// A key sent verbatim as the `Authorization` value.
    ApiKey(String),
    Oidc(Oidc),
}

impl Clone for Auth {
    fn clone(&self) -> (r: Self)
        ensures
            r == *self,
    {
        match self {
            Auth::Anonymous => Auth::Anonymous,
            Auth::ApiKey(key) => Auth::ApiKey(key.clone()),
            Auth::Oidc(oidc) => Auth::Oidc(oidc.clone()),
        }
    }
}

impl Default for Auth {
    fn default() -> (r: Self)
        ensures
            r == Auth::Anonymous,
    {
        Auth::Anonymous
    }
}

/// The `Authorization` value that an auth state calls for: none, the key, or
/// `"{token_type} {access_token}"`; an error where OIDC has no token.
pub open spec fn authorization_of(auth: Auth) -> Result<Option<Seq<char>>, crate::error::AuthError> {
    match auth {
        Auth::Anonymous => Ok(None),
        Auth::ApiKey(key) => Ok(Some(key@)),
        Auth::Oidc(oidc) => match oidc.token {
            Some(t) => Ok(Some(t.token_type@ + " "@ + t.access_token@)),
            None => Err(crate::error::AuthError::MissingToken),
        },
    }
}

impl Auth {
    /// Whether requests carry credentials.
    pub fn is_enabled(&self) -> (r: bool)
        ensures
            r == !(*self is Anonymous),
    {
        match self {
            Auth::Anonymous => false,
            Auth::ApiKey(_) => true,
            Auth::Oidc(_) => true,
        }
    }

    /// The value of the `Authorization` header, if one is to be sent.
    pub fn authorization(&self) -> (r: Result<Option<String>, crate::error::AuthError>)
        ensures
            match (r, authorization_of(*self)) {
                (Ok(Some(v)), Ok(Some(w))) => v@ == w,
                (Ok(None), Ok(None)) => true,
                (Err(e), Err(f)) => e == f,
                _ => false,
            },
    {
        match self {
            Auth::Anonymous => Ok(None),
            Auth::ApiKey(key) => Ok(Some(key.clone())),
            Auth::Oidc(oidc) => match &oidc.token {
                Some(t) => {
                    let value = t.token_type.clone().concat(" ").concat(t.access_token.as_str());
                    Ok(Some(value))
                },
                None => Err(crate::error::AuthError::MissingToken),
            },
        }
    }
}

/// Obtains OIDC tokens for a set of credentials.
pub struct OidcAuthenticator {
    credentials: OidcCredentials,
}

impl OidcAuthenticator {
    pub closed spec fn spec_credentials(&self) -> OidcCredentials {
        self.credentials
    }

    pub fn new(credentials: &OidcCredentials) -> (r: Self)
        ensures
            r.spec_credentials() == *credentials,
    {
        OidcAuthenticator { credentials: *credentials }
    }

    /// The OIDC state after a refresh: the credentials with the token that the
    /// provider granted, or with none where the grant failed.
    pub fn refresh(&self, granted: Option<OidcToken>) -> (r: Oidc)
        ensures
            r.credentials == self.spec_credentials(),
            r.token == granted,
    {
        Oidc { token: granted, credentials: self.credentials }
    }
}

} // verus!
