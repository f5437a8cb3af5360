use trustbridge::auth::{bearer_token, require_role, token_claims, AuthError, JWTClaims, UserRole};
use trustbridge::config::{Config, ConfigError, ConfigKey};
use trustbridge::ledger::{Network, StellarConfig};

const SEED: &str = "SAZ443I6BNR2MD3G27C4EZIEEFMKOPT4SR6IHZDLXPODEHR2GRQVIC7R";
const PUBLIC_KEY: &str = "GACAMF2WHKKQTYVHVA3CRMVUHN6GUBLTB7PBJQF73N7ATCIYAIFUCT6B";

fn claims_for(role: UserRole) -> JWTClaims {
    token_claims("test_user".to_string(), role, 1_700_000_000).unwrap()
}

#[test]
fn test_auth_flow() {
    let claims = claims_for(UserRole::Lender);
    assert_eq!(require_role(Some(&claims), UserRole::Lender), Ok(()));
}

#[test]
fn test_invalid_role() {
    let claims = claims_for(UserRole::Borrower);
    let refusal = require_role(Some(&claims), UserRole::Lender).unwrap_err();
    assert_eq!(refusal, AuthError::Forbidden);
    assert_eq!(refusal.status_code(), 403);
}

#[test]
fn test_admin_access() {
    let claims = claims_for(UserRole::Admin);
    assert_eq!(require_role(Some(&claims), UserRole::Admin), Ok(()));
}

#[test]
fn request_without_claims_is_unauthorized() {
    let refusal = require_role(None, UserRole::Lender).unwrap_err();
    assert_eq!(refusal, AuthError::MissingClaims);
    assert_eq!(refusal.status_code(), 401);
    assert_eq!(
        require_role(Some(&claims_for(UserRole::Admin)), UserRole::Lender),
        Err(AuthError::Forbidden)
    );
}

#[test]
fn token_expires_a_day_after_issue() {
    let claims = token_claims("u-1".to_string(), UserRole::Borrower, 1_000).unwrap();
    assert_eq!(claims.sub, "u-1");
    assert_eq!(claims.role, UserRole::Borrower);
    assert_eq!(claims.exp, 87_400);
    assert_eq!(token_claims("u".to_string(), UserRole::Admin, 0).unwrap().exp, 86_400);
    assert!(token_claims("u".to_string(), UserRole::Admin, -1).is_none());
    assert!(token_claims("u".to_string(), UserRole::Admin, i64::MAX).is_none());
    assert!(token_claims("u".to_string(), UserRole::Admin, i64::MAX - 86_399).is_none());
    assert_eq!(
        token_claims("u".to_string(), UserRole::Admin, i64::MAX - 86_400).map(|c| c.exp),
        usize::try_from(i64::MAX).ok()
    );
}

#[test]
fn bearer_token_follows_the_scheme() {
    assert_eq!(bearer_token(Some("Bearer abc.def.ghi")), Ok("abc.def.ghi"));
    assert_eq!(bearer_token(Some("Bearer ")), Ok(""));
    assert_eq!(bearer_token(Some("Bearer  x")), Ok(" x"));
    assert_eq!(bearer_token(Some("Bearer jeton-é")), Ok("jeton-é"));
    assert_eq!(bearer_token(None), Err(AuthError::MissingHeader));
    for header in ["", "Bearer", "bearer abc", "Basic abc", "Bearerabc", " Bearer abc", "Béarer abc"] {
        assert_eq!(bearer_token(Some(header)), Err(AuthError::InvalidHeaderFormat));
    }
}

#[test]
fn refusals_have_status_and_message() {
    assert_eq!(AuthError::MissingHeader.status_code(), 401);
    assert_eq!(AuthError::InvalidHeaderFormat.status_code(), 401);
    assert_eq!(AuthError::InvalidToken.status_code(), 401);
    assert_eq!(AuthError::MissingHeader.message(), "Missing Authorization header");
    assert_eq!(AuthError::InvalidHeaderFormat.message(), "Invalid Authorization header format");
    assert_eq!(AuthError::InvalidToken.message(), "Invalid token");
}

fn some(text: &str) -> Option<String> {
    Some(text.to_string())
}

#[test]
fn config_takes_defaults_for_network_and_endpoint() {
    let config =
        Config::from_vars(some("p"), some("k"), some("e"), some("s"), None, None, some(PUBLIC_KEY))
            .ok()
            .unwrap();
    assert_eq!(config.firebase_project_id, "p");
    assert_eq!(config.firebase_private_key, "k");
    assert_eq!(config.firebase_client_email, "e");
    assert_eq!(config.api_secret_key, "s");
    assert_eq!(config.stellar_network, "testnet");
    assert_eq!(config.stellar_horizon_url, "https://horizon-testnet.stellar.org");
    assert_eq!(config.stellar_escrow_public_key, PUBLIC_KEY);

    let config = Config::from_vars(
        some("p"),
        some("k"),
        some("e"),
        some("s"),
        some("mainnet"),
        some("https://horizon.stellar.org"),
        some(PUBLIC_KEY),
    )
    .ok()
    .unwrap();
    assert_eq!(config.stellar_network, "mainnet");
    assert_eq!(config.stellar_horizon_url, "https://horizon.stellar.org");
}

#[test]
fn config_names_the_first_missing_variable() {
    let missing = |a: Option<String>, b: Option<String>, c: Option<String>, d: Option<String>, e: Option<String>| {
        Config::from_vars(a, b, c, d, None, None, e).err().unwrap()
    };
    assert_eq!(
        missing(None, None, None, None, None),
        ConfigError::Missing(ConfigKey::FirebaseProjectId)
    );
    assert_eq!(
        missing(some("p"), None, some("e"), None, None),
        ConfigError::Missing(ConfigKey::FirebasePrivateKey)
    );
    assert_eq!(
        missing(some("p"), some("k"), None, some("s"), some("g")),
        ConfigError::Missing(ConfigKey::FirebaseClientEmail)
    );
    assert_eq!(
        missing(some("p"), some("k"), some("e"), None, some("g")),
        ConfigError::Missing(ConfigKey::ApiSecretKey)
    );
    assert_eq!(
        missing(some("p"), some("k"), some("e"), some("s"), None),
        ConfigError::Missing(ConfigKey::StellarEscrowPublicKey)
    );
    assert_eq!(ConfigKey::FirebaseProjectId.variable(), "FIREBASE_PROJECT_ID");
    assert_eq!(ConfigKey::FirebasePrivateKey.variable(), "FIREBASE_PRIVATE_KEY");
    assert_eq!(ConfigKey::FirebaseClientEmail.variable(), "FIREBASE_CLIENT_EMAIL");
    assert_eq!(ConfigKey::ApiSecretKey.variable(), "API_SECRET_KEY");
    assert_eq!(ConfigKey::StellarEscrowPublicKey.variable(), "STELLAR_ESCROW_PUBLIC_KEY");
    assert_eq!(ConfigKey::StellarEscrowSecretKey.variable(), "STELLAR_ESCROW_SECRET_KEY");
}

#[test]
fn stellar_config_selects_the_network() {
    let config = StellarConfig::from_vars(some("mainnet"), None, some(SEED)).ok().unwrap();
    assert_eq!(config.network, Network::Public);
    assert_eq!(config.horizon_url, "https://horizon-testnet.stellar.org");
    assert_eq!(config.secret_key(), SEED);

    for name in [None, some("testnet"), some("Mainnet"), some("mainnet "), some("")] {
        let config =
            StellarConfig::from_vars(name, some("https://example.org"), some(SEED)).ok().unwrap();
        assert_eq!(config.network, Network::Testnet);
        assert_eq!(config.horizon_url, "https://example.org");
    }
    assert_eq!(Network::select(&some("mainnet")), Network::Public);
    assert_eq!(Network::select(&None), Network::Testnet);
}

#[test]
fn stellar_config_needs_a_secret_seed() {
    assert_eq!(
        StellarConfig::from_vars(None, None, None).err(),
        Some(ConfigError::Missing(ConfigKey::StellarEscrowSecretKey))
    );
    let not_seeds = [
        "",
        "secret",
        PUBLIC_KEY,
        "SAZ443I6BNR2MD3G27C4EZIEEFMKOPT4SR6IHZDLXPODEHR2GRQVIC7A",
        "SA======",
    ];
    for secret in not_seeds {
        assert_eq!(
            StellarConfig::from_vars(None, None, some(secret)).err(),
            Some(ConfigError::InvalidSecretKey)
        );
    }
    assert_eq!(
        StellarConfig::assemble(None, None, some("anything"), true).ok().unwrap().secret_key(),
        "anything"
    );
    assert_eq!(
        StellarConfig::assemble(None, None, some(SEED), false).err(),
        Some(ConfigError::InvalidSecretKey)
    );
    assert_eq!(
        StellarConfig::assemble(None, None, None, true).err(),
        Some(ConfigError::Missing(ConfigKey::StellarEscrowSecretKey))
    );
}
