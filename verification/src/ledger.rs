//! What the engine asks of the settlement ledger, and what it hears back.
//!
//! The engine never talks to the ledger. It says which payment a transition
//! needs, and it is told how that payment went.

use crate::config::{default_horizon_url, horizon_url_or_default, value_or, ConfigError, ConfigKey};
use crate::error::LedgerCause;
use crate::text::{contains, mentions, text_eq};
use vstd::prelude::*;

verus! {

/// The ledger network that payments are made on.
#[derive(Clone, Copy, Debug, PartialEq, Eq, Structural)]
pub enum Network {
    Public,
    Testnet,
}

impl Network {
    /// `mainnet` selects the public network; every other name, and no name,
    /// selects the test network.
    pub open spec fn selected(name: Option<String>) -> Network {
        match name {
            Some(text) => if text@ == "mainnet"@ {
                Network::Public
            } else {
                Network::Testnet
            },
            None => Network::Testnet,
        }
    }

    /// The network that `name` selects.
    pub fn select(name: &Option<String>) -> (network: Network)
        ensures
            network == Network::selected(*name),
    {
        match name {
            Some(text) => if text_eq(text.as_str(), "mainnet") {
                Network::Public
            } else {
                Network::Testnet
            },
            None => Network::Testnet,
        }
    }
}

/// What a payment is for.
#[derive(Clone, Copy, Debug, PartialEq, Eq, Structural)]
pub enum PaymentKind {
    /// The amount asked for, paid out when an escrow is created on the ledger.
    Disbursement,
    /// The locked funds, paid to the beneficiary.
    Release,
    /// The locked funds, paid back to the owner.
    Refund,
}

impl PaymentKind {
    /// The memo that a payment of this kind carries on the ledger.
    pub open spec fn memo_text(self) -> Seq<char> {
        match self {
            PaymentKind::Disbursement => "Escrow Transaction"@,
            PaymentKind::Release => "Escrow Release"@,
            PaymentKind::Refund => "Escrow Refund"@,
        }
    }

    /// The memo that a payment of this kind carries on the ledger.
    pub fn memo(&self) -> (text: String)
        ensures
            text@ == self.memo_text(),
    {
        match self {
            PaymentKind::Disbursement => "Escrow Transaction".to_string(),
            PaymentKind::Release => "Escrow Release".to_string(),
            PaymentKind::Refund => "Escrow Refund".to_string(),
        }
    }
}

/// A transfer of the full amount from the custody account. The ledger moves
/// all of it or none.
#[derive(Debug)]
pub struct Payment {
    pub kind: PaymentKind,
    /// The ledger address of the beneficiary, or the identity of the owner
    /// for a refund.
    pub destination: String,
    /// In minor units.
    pub amount: i64,
}

/// The mathematical content of a [`Payment`].
pub struct PaymentView {
    pub kind: PaymentKind,
    pub destination: Seq<char>,
    pub amount: int,
}

impl View for Payment {
    type V = PaymentView;

    open spec fn view(&self) -> PaymentView {
        PaymentView { kind: self.kind, destination: self.destination@, amount: self.amount as int }
    }
}

impl Clone for Payment {
    fn clone(&self) -> (copy: Self)
        ensures
            copy == *self,
    {
        Payment { kind: self.kind, destination: self.destination.clone(), amount: self.amount }
    }
}

/// How a payment went. An expired timeout is a failure like any other.
#[derive(Clone, Copy, Debug, PartialEq, Eq, Structural)]
pub enum LedgerOutcome {
    Confirmed,
    Failed(LedgerCause),
}

/// The cause that a failure report of the ledger client stands for. The
/// result codes of the ledger decide: an underfunded operation or a source
/// that cannot pay the fee is an insufficient balance, a missing or malformed
/// destination an invalid address. A report of a transport failure means
/// that the network was not reached. Every other report is a rejection.
pub open spec fn reported_cause(report: Seq<char>) -> LedgerCause {
    if mentions(report, "op_underfunded"@) || mentions(report, "tx_insufficient_balance"@) {
        LedgerCause::InsufficientBalance
    } else if mentions(report, "op_no_destination"@) || mentions(report, "op_malformed"@) {
        LedgerCause::InvalidAddress
    } else if mentions(report, "Transport"@) {
        LedgerCause::NetworkUnreachable
    } else {
        LedgerCause::Rejected
    }
}

/// Reads the cause of a failure out of the report of the ledger client.
pub fn cause_of_report(report: &str) -> (cause: LedgerCause)
    ensures
        cause == reported_cause(report@),
{
    if contains(report, "op_underfunded") || contains(report, "tx_insufficient_balance") {
        LedgerCause::InsufficientBalance
    } else if contains(report, "op_no_destination") || contains(report, "op_malformed") {
        LedgerCause::InvalidAddress
    } else if contains(report, "Transport") {
        LedgerCause::NetworkUnreachable
    } else {
        LedgerCause::Rejected
    }
}

/// Whether `address` is the text form of an Ed25519 public key of the ledger:
/// the answer of `stellar_sdk::StrKey::is_valid_ed25519_public_key`.
pub uninterp spec fn is_ed25519_public_key(address: Seq<char>) -> bool;

/// Whether `secret` is the text form of an Ed25519 secret seed of the ledger:
/// the answer of `stellar_sdk::StrKey::is_valid_ed25519_secret_seed`.
pub uninterp spec fn is_ed25519_secret_seed(secret: Seq<char>) -> bool;

/// Calls `stellar_sdk::StrKey::is_valid_ed25519_public_key`. That function
/// looks at the text alone (its length, its base-32 decoding, the version byte
/// and the checksum) and answers for every text, so its answer is taken as
/// the meaning of [`is_ed25519_public_key`]. Nothing else is claimed of it.
#[verifier::external_body]
pub(crate) fn valid_public_key(address: &str) -> (valid: bool)
    ensures
        valid == is_ed25519_public_key(address@),
{
    stellar_sdk::StrKey::is_valid_ed25519_public_key(address)
}

/// Calls `stellar_sdk::StrKey::is_valid_ed25519_secret_seed`. That function
/// looks at the text alone and answers for every text, so its answer is taken
/// as the meaning of [`is_ed25519_secret_seed`]. Nothing else is claimed of it.
#[verifier::external_body]
pub(crate) fn valid_secret_seed(secret: &str) -> (valid: bool)
    ensures
        valid == is_ed25519_secret_seed(secret@),
{
    stellar_sdk::StrKey::is_valid_ed25519_secret_seed(secret)
}

/// The ledger side of the service: the network, the endpoint, and the secret
/// of the custody account. The secret has no public field and is not printed.
pub struct StellarConfig {
    pub network: Network,
    pub horizon_url: String,
    escrow_secret_key: String,
}

/// The mathematical content of a [`StellarConfig`].
pub struct StellarConfigView {
    pub network: Network,
    pub horizon_url: Seq<char>,
    pub escrow_secret_key: Seq<char>,
}

impl View for StellarConfig {
    type V = StellarConfigView;

    closed spec fn view(&self) -> StellarConfigView {
        StellarConfigView {
            network: self.network,
            horizon_url: self.horizon_url@,
            escrow_secret_key: self.escrow_secret_key@,
        }
    }
}

impl StellarConfig {
    /// What [`StellarConfig::assemble`] returns.
    pub open spec fn assembled(
        network: Option<String>,
        horizon_url: Option<String>,
        secret_key: Option<String>,
        secret_is_seed: bool,
    ) -> Result<StellarConfigView, ConfigError> {
        match secret_key {
            None => Err(ConfigError::Missing(ConfigKey::StellarEscrowSecretKey)),
            Some(secret) => if secret_is_seed {
                Ok(
                    StellarConfigView {
                        network: Network::selected(network),
                        horizon_url: value_or(horizon_url, default_horizon_url()),
                        escrow_secret_key: secret@,
                    },
                )
            } else {
                Err(ConfigError::InvalidSecretKey)
            },
        }
    }

    /// Assembles the settings once it is known whether the secret is a secret
    /// seed. Without a secret there are no settings; with one that is no seed
    /// neither.
    pub fn assemble(
        network: Option<String>,
        horizon_url: Option<String>,
        secret_key: Option<String>,
        secret_is_seed: bool,
    ) -> (r: Result<StellarConfig, ConfigError>)
        ensures
            match StellarConfig::assembled(network, horizon_url, secret_key, secret_is_seed) {
                Ok(view) => r is Ok && r->Ok_0@ == view,
                Err(e) => r == Err::<StellarConfig, ConfigError>(e),
            },
    {
        let secret = match secret_key {
            Some(secret) => secret,
            None => return Err(ConfigError::Missing(ConfigKey::StellarEscrowSecretKey)),
        };
        if !secret_is_seed {
            return Err(ConfigError::InvalidSecretKey);
        }
        Ok(
            StellarConfig {
                network: Network::select(&network),
                horizon_url: horizon_url_or_default(horizon_url),
                escrow_secret_key: secret,
            },
        )
    }

    /// Assembles the settings from the values of the variables, `None` for a
    /// variable that is not set. The secret must be set and must be a secret
    /// seed of the ledger.
    pub fn from_vars(
        network: Option<String>,
        horizon_url: Option<String>,
        secret_key: Option<String>,
    ) -> (r: Result<StellarConfig, ConfigError>)
        ensures
            match StellarConfig::assembled(
                network,
                horizon_url,
                secret_key,
                secret_key is Some && is_ed25519_secret_seed(secret_key->Some_0@),
            ) {
                Ok(view) => r is Ok && r->Ok_0@ == view,
                Err(e) => r == Err::<StellarConfig, ConfigError>(e),
            },
    {
        let secret_is_seed = match &secret_key {
            Some(secret) => valid_secret_seed(secret.as_str()),
            None => false,
        };
        StellarConfig::assemble(network, horizon_url, secret_key, secret_is_seed)
    }

    /// The secret seed of the custody account, for signing.
    pub fn secret_key(&self) -> (secret: &str)
        ensures
            secret@ == self@.escrow_secret_key,
    {
        self.escrow_secret_key.as_str()
    }
}

} // verus!
