use aura_backend::auth::{
    initialize_app, is_authenticated, lock_app, reset_app, unlock, unlock_app, verify_password,
    AppState, AuthConfig,
};
use aura_backend::credentials::{
    get_env_var, get_stripe_client, get_stripe_publishable_key, get_stripe_publishable_key_only,
    is_present, validate_stripe_environment,
};
use aura_backend::digest::{
    calculate_checksum, clear_password_cache, fast_password_hash, generate_salt, hash_password,
    PasswordCache,
};
use aura_backend::failure::{ErrorKind, Failure, Step};
use aura_backend::records::{DatabaseConfig, StoreMetadata, TokensRequest, TokensResponse};
use aura_backend::session::{
    check_session, connection_keys, get_authenticated_db, get_database_status, get_tokens,
    init_database, logout, session_keys, store_tokens, update_tokens, Readiness,
};
use aura_backend::stores::{
    backup_file, store_file, store_get_metadata, store_list, store_restore, store_validate,
};
use aura_backend::wire::Pair;

fn pair(name: &str, value: &str) -> Pair {
    Pair { name: name.to_string(), value: value.to_string() }
}

#[test]
fn test_password_hash_consistency() {
    let mut cache = PasswordCache::new();
    let password = "test_password";
    let hash1 = fast_password_hash(password, &mut cache);
    let hash2 = fast_password_hash(password, &mut cache);

    assert_eq!(hash1, hash2);
    assert_eq!(hash1.len(), 32);
}

#[test]
fn test_different_passwords_different_hashes() {
    let mut cache = PasswordCache::new();
    let hash1 = fast_password_hash("password1", &mut cache);
    let hash2 = fast_password_hash("password2", &mut cache);

    assert_ne!(hash1, hash2);
}

#[test]
fn vault_key_is_the_digest_of_password_and_salt() {
    let mut cache = PasswordCache::new();
    let key = fast_password_hash("test_password", &mut cache);
    assert_eq!(
        key,
        vec![
            73, 48, 52, 62, 217, 23, 74, 58, 9, 12, 42, 218, 135, 105, 227, 198, 203, 121, 44,
            241, 149, 162, 132, 76, 237, 14, 229, 212, 181, 37, 79, 150
        ]
    );
    assert_eq!(cache.entry, Some(("test_password".to_string(), key.clone())));
    clear_password_cache(&mut cache);
    assert_eq!(cache.entry, None);
    assert_eq!(fast_password_hash("test_password", &mut cache), key);
}

#[test]
fn cached_key_is_not_handed_out_for_another_password() {
    let mut cache = PasswordCache::new();
    let first = fast_password_hash("password1", &mut cache);
    let second = fast_password_hash("password2", &mut cache);
    let mut fresh = PasswordCache::new();
    assert_eq!(fast_password_hash("password2", &mut fresh), second);
    assert_eq!(fast_password_hash("password1", &mut fresh), first);
}

#[test]
fn checksum_is_the_hexadecimal_digest() {
    assert_eq!(
        calculate_checksum("abc"),
        "ba7816bf8f01cfea414140de5dae2223b00361a396177a9cb410ff61f20015ad"
    );
    assert_eq!(
        calculate_checksum(""),
        "e3b0c44298fc1c149afbf4c8996fb92427ae41e4649b934ca495991b7852b855"
    );
}

#[test]
fn password_hash_covers_password_then_salt() {
    assert_eq!(
        hash_password("hunter22", "00ff"),
        "c240cafd515bd178fed9e02af59dd7206d3b31bc49c80bec69d1d1659182ea45"
    );
    assert_ne!(hash_password("hunter22", "00ff"), hash_password("00ff", "hunter22"));
}

#[test]
fn salt_is_thirty_two_hexadecimal_digits() {
    let salt = generate_salt();
    assert_eq!(salt.len(), 32);
    assert!(salt.chars().all(|c| c.is_ascii_digit() || ('a'..='f').contains(&c)));
    assert_ne!(generate_salt(), generate_salt());
}

#[test]
fn short_password_is_refused() {
    assert_eq!(
        initialize_app("1234567", false),
        Err(Failure::rule(ErrorKind::InvalidInput, Step::Password))
    );
    assert_eq!(
        initialize_app("1234567", true),
        Err(Failure::rule(ErrorKind::InvalidInput, Step::Password))
    );
    assert!(initialize_app("12345678", false).is_ok());
}

#[test]
fn second_initialization_is_refused() {
    assert_eq!(
        initialize_app("long enough", true),
        Err(Failure::rule(ErrorKind::InvalidInput, Step::Initialization))
    );
}

#[test]
fn new_configuration_accepts_its_password_only() {
    let config = initialize_app("correct horse", false).unwrap();
    assert_eq!(config.salt.len(), 32);
    assert_eq!(config.password_hash, hash_password("correct horse", &config.salt));
    assert!(verify_password("correct horse", &config));
    assert!(!verify_password("correct horsf", &config));
}

#[test]
fn unlocking_needs_the_right_password() {
    let config = AuthConfig {
        password_hash: "c240cafd515bd178fed9e02af59dd7206d3b31bc49c80bec69d1d1659182ea45"
            .to_string(),
        salt: "00ff".to_string(),
    };
    let mut state = AppState { authenticated: false };
    assert_eq!(
        unlock_app("hunter23", Some(&config), &mut state),
        Err(Failure::rule(ErrorKind::AuthenticationRequired, Step::Password))
    );
    assert!(!is_authenticated(&state));
    assert_eq!(unlock_app("hunter22", Some(&config), &mut state), Ok(()));
    assert!(is_authenticated(&state));
    lock_app(&mut state);
    assert!(!is_authenticated(&state));
}

#[test]
fn unlocking_without_configuration_fails() {
    let mut state = AppState { authenticated: false };
    assert_eq!(
        unlock_app("hunter22", None, &mut state),
        Err(Failure::rule(ErrorKind::NotFound, Step::Initialization))
    );
    assert!(!state.authenticated);
    unlock(&mut state);
    assert!(state.authenticated);
}

#[test]
fn reset_locks_and_names_the_vault_files() {
    let mut state = AppState { authenticated: true };
    let files = reset_app(&mut state);
    assert!(!state.authenticated);
    assert_eq!(files, vec!["vault.stronghold", "client.stronghold", "stronghold.vault", "salt.txt"]);
}

#[test]
fn session_needs_both_tokens() {
    assert!(check_session(true, true));
    assert!(!check_session(true, false));
    assert!(!check_session(false, true));
    assert!(!check_session(false, false));
}

#[test]
fn tokens_are_stored_under_their_names() {
    let tokens = TokensRequest { access_token: "a.b.c".to_string(), refresh_token: "r".to_string() };
    let expected = vec![pair("sb-access-token", "a.b.c"), pair("sb-refresh-token", "r")];
    assert_eq!(store_tokens(tokens.clone()), expected);
    assert_eq!(update_tokens(tokens), expected);
    assert_eq!(logout(), vec!["sb-access-token", "sb-refresh-token"]);
    assert_eq!(session_keys(), ("sb-access-token".to_string(), "sb-refresh-token".to_string()));
    assert_eq!(connection_keys(), ("database_url".to_string(), "anon_key".to_string()));
}

#[test]
fn missing_token_is_named() {
    assert_eq!(
        get_tokens(Some("a".to_string()), Some("r".to_string())),
        Ok(TokensResponse { access_token: "a".to_string(), refresh_token: "r".to_string() })
    );
    assert_eq!(
        get_tokens(None, Some("r".to_string())),
        Err(Failure::reported(
            ErrorKind::AuthenticationRequired,
            Step::Session,
            "sb-access-token".to_string()
        ))
    );
    assert_eq!(
        get_tokens(None, None).unwrap_err().detail,
        "sb-access-token"
    );
    assert_eq!(
        get_tokens(Some("a".to_string()), None).unwrap_err().detail,
        "sb-refresh-token"
    );
}

#[test]
fn connection_is_stored_without_the_token() {
    assert_eq!(
        init_database("https://db.example".to_string(), "tok", "anon".to_string()),
        Ok(vec![pair("database_url", "https://db.example"), pair("anon_key", "anon")])
    );
    assert_eq!(
        init_database("https://db.example".to_string(), "", "anon".to_string()),
        Err(Failure::rule(ErrorKind::AuthenticationRequired, Step::Session))
    );
}

#[test]
fn connection_needs_url_session_and_key() {
    let url = Some("https://db.example".to_string());
    let token = Some("tok".to_string());
    let key = Some("anon".to_string());
    assert_eq!(
        get_authenticated_db(url.clone(), token.clone(), key.clone()),
        Ok(DatabaseConfig {
            database_url: "https://db.example".to_string(),
            access_token: "tok".to_string(),
            anon_key: "anon".to_string(),
        })
    );
    assert_eq!(
        get_authenticated_db(None, None, None),
        Err(Failure::rule(ErrorKind::ConfigurationError, Step::Settings))
    );
    assert_eq!(
        get_authenticated_db(url.clone(), None, None),
        Err(Failure::rule(ErrorKind::AuthenticationRequired, Step::Session))
    );
    assert_eq!(
        get_authenticated_db(url, token, None),
        Err(Failure::rule(ErrorKind::ConfigurationError, Step::Credentials))
    );
}

#[test]
fn database_status_follows_what_is_stored() {
    let ready = get_database_status(true, true, true);
    assert!(ready.configured && ready.has_database_url && ready.has_session_tokens);
    assert_eq!(ready.authenticated, Some(true));
    assert_eq!(ready.status, Readiness::Ready);
    let no_session = get_database_status(true, true, false);
    assert!(!no_session.configured && no_session.has_database_url);
    assert!(!no_session.has_session_tokens);
    assert_eq!(no_session.authenticated, None);
    assert_eq!(no_session.status, Readiness::NotConfigured);
    let no_url = get_database_status(false, true, true);
    assert!(!no_url.configured && no_url.has_session_tokens);
    assert_eq!(no_url.status, Readiness::NotConfigured);
    assert_eq!(Readiness::Ready.name(), "ready");
    assert_eq!(Readiness::NotConfigured.name(), "not_configured");
    assert_eq!(Readiness::AuthenticationRequired.name(), "authentication_required");
}

#[test]
fn run_time_value_wins_over_build_time_value() {
    let run = Some("sk_run".to_string());
    let build = Some("sk_build".to_string());
    assert_eq!(get_env_var("X", run.clone(), build.clone()), Ok("sk_run".to_string()));
    assert_eq!(get_env_var("X", None, build.clone()), Ok("sk_build".to_string()));
    assert_eq!(get_env_var("X", Some(String::new()), build), Ok("sk_build".to_string()));
    assert_eq!(get_env_var("X", run, None), Ok("sk_run".to_string()));
}

#[test]
fn missing_credential_is_a_configuration_error_that_names_it() {
    assert_eq!(
        get_env_var("SOME_NAME", None, Some(String::new())),
        Err(Failure::reported(
            ErrorKind::ConfigurationError,
            Step::Credentials,
            "SOME_NAME".to_string()
        ))
    );
    assert_eq!(get_stripe_client(None, None).unwrap_err().detail, "STRIPE_SECRET_KEY");
    assert_eq!(
        get_stripe_publishable_key_only(Some(String::new()), None).unwrap_err().detail,
        "STRIPE_PUBLISHABLE_KEY"
    );
    assert_eq!(
        get_stripe_publishable_key(None, None).unwrap_err().kind,
        ErrorKind::ConfigurationError
    );
    assert_eq!(get_stripe_client(Some("sk".to_string()), None), Ok("sk".to_string()));
    assert_eq!(get_stripe_publishable_key(None, Some("pk".to_string())), Ok("pk".to_string()));
}

#[test]
fn start_up_names_the_missing_variables() {
    assert!(is_present(&Some(String::new()), &None));
    assert!(is_present(&None, &Some("v".to_string())));
    assert!(!is_present(&None, &Some(String::new())));
    assert!(!is_present(&None, &None));
    assert_eq!(validate_stripe_environment(true, true), Vec::<String>::new());
    assert_eq!(validate_stripe_environment(false, true), vec!["STRIPE_SECRET_KEY"]);
    assert_eq!(validate_stripe_environment(true, false), vec!["STRIPE_PUBLISHABLE_KEY"]);
    assert_eq!(
        validate_stripe_environment(false, false),
        vec!["STRIPE_SECRET_KEY", "STRIPE_PUBLISHABLE_KEY"]
    );
}

#[test]
fn stores_are_named_after_their_ids() {
    assert_eq!(store_file("session"), "session.store");
    assert_eq!(backup_file("app_data", "monday"), "app_data_backup_monday.store");
    assert_eq!(store_list(), vec!["session", "app_data", "app_config", "ui_state", "api_cache"]);
}

#[test]
fn store_is_valid_with_data_and_timestamp() {
    assert!(store_validate(true, true));
    assert!(!store_validate(true, false));
    assert!(!store_validate(false, true));
    assert_eq!(store_restore(true), Ok(()));
    assert_eq!(store_restore(false), Err(Failure::rule(ErrorKind::NotFound, Step::LoadRecords)));
}

#[test]
fn store_metadata_fills_in_what_is_missing() {
    assert_eq!(
        store_get_metadata("session".to_string(), None, None, None),
        StoreMetadata { store_id: "session".to_string(), last_updated: 0, size: 0, version: 1 }
    );
    assert_eq!(
        store_get_metadata("session".to_string(), Some(17), Some(3), Some(120)),
        StoreMetadata { store_id: "session".to_string(), last_updated: 17, size: 120, version: 3 }
    );
}
