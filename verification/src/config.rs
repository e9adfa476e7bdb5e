//! Construction-time configuration of a broker session.
//!
//! A session is configured once, at process start, from three
//! environment-provided values: the bootstrap endpoint (mandatory) and an
//! optional username/password pair. Authentication is enabled only when
//! both halves of the pair are present. The configuration fixes the
//! delivery and socket timeouts; they are not tunable per call.

use vstd::prelude::*;

verus! {

/// Why a session configuration could not be constructed.
#[derive(Clone, Copy, Debug, PartialEq, Eq, Structural)]
pub enum ConfigError {
    /// The mandatory bootstrap endpoint was absent.
    MissingEndpoint,
}

/// A SASL credential pair: both halves must be present for
/// authentication to be enabled.
pub struct Credentials {
    pub username: String,
    pub password: String,
}

/// Spec-level image of a credential pair.
pub struct CredentialsView {
    pub username: Seq<char>,
    pub password: Seq<char>,
}

impl View for Credentials {
    type V = CredentialsView;

    open spec fn view(&self) -> CredentialsView {
        CredentialsView { username: self.username@, password: self.password@ }
    }
}

/// One configured broker session: the bootstrap endpoint and, when both
/// were supplied, the SASL credentials. Read-only after construction.
pub struct SessionConfig {
    endpoint: String,
    credentials: Option<Credentials>,
}

/// Spec-level image of a session configuration.
pub struct SessionConfigView {
    pub endpoint: Seq<char>,
    pub credentials: Option<CredentialsView>,
}

impl SessionConfigView {
    /// Whether the session authenticates to the broker.
    pub open spec fn sasl_enabled(self) -> bool {
        self.credentials is Some
    }
}

impl View for SessionConfig {
    type V = SessionConfigView;

    closed spec fn view(&self) -> SessionConfigView {
        SessionConfigView {
            endpoint: self.endpoint@,
            credentials: match self.credentials {
                Some(c) => Some(c@),
                None => None,
            },
        }
    }
}

/// The view of an optional string.
pub open spec fn opt_view(o: Option<String>) -> Option<Seq<char>> {
    match o {
        Some(s) => Some(s@),
        None => None,
    }
}

/// What construction returns for each combination of environment values:
/// no endpoint is a fatal error; credentials are kept only when both
/// halves are present.
pub open spec fn spec_session_config(
    endpoint: Option<Seq<char>>,
    username: Option<Seq<char>>,
    password: Option<Seq<char>>,
) -> Result<SessionConfigView, ConfigError> {
    match endpoint {
        None => Err(ConfigError::MissingEndpoint),
        Some(e) => Ok(
            SessionConfigView {
                endpoint: e,
                credentials: if username is Some && password is Some {
                    Some(
                        CredentialsView {
                            username: username->Some_0,
                            password: password->Some_0,
                        },
                    )
                } else {
                    None
                },
            },
        ),
    }
}

/// Law: construction without the mandatory bootstrap endpoint fails with
/// the fatal configuration error, whatever credentials are supplied — it
/// never returns a degraded session.
pub proof fn lemma_missing_endpoint_fails(
    username: Option<Seq<char>>,
    password: Option<Seq<char>>,
)
    ensures
        spec_session_config(None, username, password) == Err::<
            SessionConfigView,
            ConfigError,
        >(ConfigError::MissingEndpoint),
{
}

/// Law: a partial credential pair — a username without a password, or a
/// password without a username — does not enable authentication; the
/// session is constructed, unauthenticated.
pub proof fn lemma_partial_credentials_disable_auth(
    endpoint: Seq<char>,
    username: Option<Seq<char>>,
    password: Option<Seq<char>>,
)
    requires
        username is None || password is None,
    ensures
        spec_session_config(Some(endpoint), username, password) is Ok,
        !spec_session_config(Some(endpoint), username, password)->Ok_0.sasl_enabled(),
{
}

/// The view of a construction result.
pub open spec fn config_result_view(
    r: Result<SessionConfig, ConfigError>,
) -> Result<SessionConfigView, ConfigError> {
    match r {
        Ok(c) => Ok(c@),
        Err(e) => Err(e),
    }
}

impl SessionConfig {
    /// Builds the session configuration from the environment's values.
    /// Fails exactly when the mandatory bootstrap endpoint is absent;
    /// enables authentication exactly when both credential halves are
    /// present.
    pub fn from_env_values(
        endpoint: Option<String>,
        username: Option<String>,
        password: Option<String>,
    ) -> (r: Result<SessionConfig, ConfigError>)
        ensures
            config_result_view(r) == spec_session_config(
                opt_view(endpoint),
                opt_view(username),
                opt_view(password),
            ),
            r is Ok <==> endpoint is Some,
    {
        match endpoint {
            None => Err(ConfigError::MissingEndpoint),
            Some(e) => {
                let credentials = match (username, password) {
                    (Some(u), Some(p)) => Some(Credentials { username: u, password: p }),
                    _ => None,
                };
                Ok(SessionConfig { endpoint: e, credentials })
            },
        }
    }

    /// The bootstrap endpoint this session was configured with.
    pub fn endpoint(&self) -> (e: &str)
        ensures
            e@ == self@.endpoint,
    {
        self.endpoint.as_str()
    }

    /// The credential pair this session authenticates with, when
    /// authentication is enabled.
    pub fn credentials(&self) -> (c: &Option<Credentials>)
        ensures
            c is Some <==> self@.credentials is Some,
            c is Some ==> c->Some_0@ == self@.credentials->Some_0,
    {
        &self.credentials
    }

    /// Whether this session authenticates to the broker.
    pub fn sasl_enabled(&self) -> (b: bool)
        ensures
            b == self@.sasl_enabled(),
    {
        self.credentials.is_some()
    }
}

} // verus!
