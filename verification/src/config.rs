//! The settings of the service, assembled from the values of its variables.
//!
//! Reading the variables is the caller's part. What is decided here is which
//! of them must be present and what stands in for the others.

use vstd::prelude::*;

verus! {

/// A variable of the configuration.
#[derive(Clone, Copy, Debug, PartialEq, Eq, Structural)]
pub enum ConfigKey {
    FirebaseProjectId,
    FirebasePrivateKey,
    FirebaseClientEmail,
    ApiSecretKey,
    StellarEscrowPublicKey,
    StellarEscrowSecretKey,
}

impl ConfigKey {
    /// The name under which the variable is set.
    pub open spec fn name(self) -> Seq<char> {
        match self {
            ConfigKey::FirebaseProjectId => "FIREBASE_PROJECT_ID"@,
            ConfigKey::FirebasePrivateKey => "FIREBASE_PRIVATE_KEY"@,
            ConfigKey::FirebaseClientEmail => "FIREBASE_CLIENT_EMAIL"@,
            ConfigKey::ApiSecretKey => "API_SECRET_KEY"@,
            ConfigKey::StellarEscrowPublicKey => "STELLAR_ESCROW_PUBLIC_KEY"@,
            ConfigKey::StellarEscrowSecretKey => "STELLAR_ESCROW_SECRET_KEY"@,
        }
    }

    /// The name under which the variable is set.
    pub fn variable(&self) -> (name: String)
        ensures
            name@ == self.name(),
    {
        match self {
            ConfigKey::FirebaseProjectId => "FIREBASE_PROJECT_ID".to_string(),
            ConfigKey::FirebasePrivateKey => "FIREBASE_PRIVATE_KEY".to_string(),
            ConfigKey::FirebaseClientEmail => "FIREBASE_CLIENT_EMAIL".to_string(),
            ConfigKey::ApiSecretKey => "API_SECRET_KEY".to_string(),
            ConfigKey::StellarEscrowPublicKey => "STELLAR_ESCROW_PUBLIC_KEY".to_string(),
            ConfigKey::StellarEscrowSecretKey => "STELLAR_ESCROW_SECRET_KEY".to_string(),
        }
    }
}

/// Why no configuration could be assembled.
#[derive(Clone, Copy, Debug, PartialEq, Eq, Structural)]
pub enum ConfigError {
    /// A variable without a default has no value.
    Missing(ConfigKey),
    /// The custody secret is not a secret seed of the ledger.
    InvalidSecretKey,
}

/// The name of the network that is used when none is given.
pub open spec fn default_network_name() -> Seq<char> {
    "testnet"@
}

/// The endpoint that is used when none is given.
pub open spec fn default_horizon_url() -> Seq<char> {
    "https://horizon-testnet.stellar.org"@
}

/// The value if there is one, otherwise the fallback.
pub open spec fn value_or(value: Option<String>, fallback: Seq<char>) -> Seq<char> {
    match value {
        Some(text) => text@,
        None => fallback,
    }
}

/// The name of the network: the given one, or the default.
pub fn network_name_or_default(value: Option<String>) -> (name: String)
    ensures
        name@ == value_or(value, default_network_name()),
{
    match value {
        Some(text) => text,
        None => "testnet".to_string(),
    }
}

/// The endpoint: the given one, or the default.
pub fn horizon_url_or_default(value: Option<String>) -> (url: String)
    ensures
        url@ == value_or(value, default_horizon_url()),
{
    match value {
        Some(text) => text,
        None => "https://horizon-testnet.stellar.org".to_string(),
    }
}

/// The settings of the service.
pub struct Config {
    pub firebase_project_id: String,
    pub firebase_private_key: String,
    pub firebase_client_email: String,
    pub api_secret_key: String,
    pub stellar_network: String,
    pub stellar_horizon_url: String,
    pub stellar_escrow_public_key: String,
}

/// The mathematical content of a [`Config`].
pub struct ConfigView {
    pub firebase_project_id: Seq<char>,
    pub firebase_private_key: Seq<char>,
    pub firebase_client_email: Seq<char>,
    pub api_secret_key: Seq<char>,
    pub stellar_network: Seq<char>,
    pub stellar_horizon_url: Seq<char>,
    pub stellar_escrow_public_key: Seq<char>,
}

impl View for Config {
    type V = ConfigView;

    open spec fn view(&self) -> ConfigView {
        ConfigView {
            firebase_project_id: self.firebase_project_id@,
            firebase_private_key: self.firebase_private_key@,
            firebase_client_email: self.firebase_client_email@,
            api_secret_key: self.api_secret_key@,
            stellar_network: self.stellar_network@,
            stellar_horizon_url: self.stellar_horizon_url@,
            stellar_escrow_public_key: self.stellar_escrow_public_key@,
        }
    }
}

impl Config {
    /// The first variable, in the order of the fields, that has no value and
    /// no default.
    pub open spec fn first_missing(
        firebase_project_id: Option<String>,
        firebase_private_key: Option<String>,
        firebase_client_email: Option<String>,
        api_secret_key: Option<String>,
        stellar_escrow_public_key: Option<String>,
    ) -> Option<ConfigKey> {
        if firebase_project_id is None {
            Some(ConfigKey::FirebaseProjectId)
        } else if firebase_private_key is None {
            Some(ConfigKey::FirebasePrivateKey)
        } else if firebase_client_email is None {
            Some(ConfigKey::FirebaseClientEmail)
        } else if api_secret_key is None {
            Some(ConfigKey::ApiSecretKey)
        } else if stellar_escrow_public_key is None {
            Some(ConfigKey::StellarEscrowPublicKey)
        } else {
            None
        }
    }

    /// Assembles the settings from the values of the variables, `None` for a
    /// variable that is not set. The network and the endpoint have defaults;
    /// the first of the others that is missing is the error.
    pub fn from_vars(
        firebase_project_id: Option<String>,
        firebase_private_key: Option<String>,
        firebase_client_email: Option<String>,
        api_secret_key: Option<String>,
        stellar_network: Option<String>,
        stellar_horizon_url: Option<String>,
        stellar_escrow_public_key: Option<String>,
    ) -> (r: Result<Config, ConfigError>)
        ensures
            match Config::first_missing(
                firebase_project_id,
                firebase_private_key,
                firebase_client_email,
                api_secret_key,
                stellar_escrow_public_key,
            ) {
                Some(key) => r == Err::<Config, ConfigError>(ConfigError::Missing(key)),
                None => r is Ok && r->Ok_0@ == (ConfigView {
                    firebase_project_id: firebase_project_id->Some_0@,
                    firebase_private_key: firebase_private_key->Some_0@,
                    firebase_client_email: firebase_client_email->Some_0@,
                    api_secret_key: api_secret_key->Some_0@,
                    stellar_network: value_or(stellar_network, default_network_name()),
                    stellar_horizon_url: value_or(stellar_horizon_url, default_horizon_url()),
                    stellar_escrow_public_key: stellar_escrow_public_key->Some_0@,
                }),
            },
    {
        let firebase_project_id = match firebase_project_id {
            Some(value) => value,
            None => return Err(ConfigError::Missing(ConfigKey::FirebaseProjectId)),
        };
        let firebase_private_key = match firebase_private_key {
            Some(value) => value,
            None => return Err(ConfigError::Missing(ConfigKey::FirebasePrivateKey)),
        };
        let firebase_client_email = match firebase_client_email {
            Some(value) => value,
            None => return Err(ConfigError::Missing(ConfigKey::FirebaseClientEmail)),
        };
        let api_secret_key = match api_secret_key {
            Some(value) => value,
            None => return Err(ConfigError::Missing(ConfigKey::ApiSecretKey)),
        };
        let stellar_escrow_public_key = match stellar_escrow_public_key {
            Some(value) => value,
            None => return Err(ConfigError::Missing(ConfigKey::StellarEscrowPublicKey)),
        };
        Ok(
            Config {
                firebase_project_id,
                firebase_private_key,
                firebase_client_email,
                api_secret_key,
                stellar_network: network_name_or_default(stellar_network),
                stellar_horizon_url: horizon_url_or_default(stellar_horizon_url),
                stellar_escrow_public_key,
            },
        )
    }
}

} // verus!
