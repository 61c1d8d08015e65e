use location_backend::credentials::{
    check_credentials, login, login_at, LoginError, LoginRequest, Settings, SettingsError,
};
use location_backend::guard::require_admin_at;
use location_backend::status::Failure;
use location_backend::token::{verify_jwt, verify_jwt_at};

const NOW: i64 = 1_700_000_000;

fn settings() -> Settings {
    Settings {
        jwt_secret: "login-secret".to_string(),
        admin_username: "root".to_string(),
        admin_password: "hunter2".to_string(),
    }
}

fn load(
    secret: Option<&str>,
    username: Option<&str>,
    password: Option<&str>,
) -> Result<Settings, SettingsError> {
    Settings::load(
        secret.map(str::to_string),
        username.map(str::to_string),
        password.map(str::to_string),
    )
}

fn loaded_settings(
    secret: Option<&str>,
    username: Option<&str>,
    password: Option<&str>,
) -> Settings {
    match load(secret, username, password) {
        Ok(settings) => settings,
        Err(error) => panic!("no settings: {error:?}"),
    }
}

fn load_error(
    secret: Option<&str>,
    username: Option<&str>,
    password: Option<&str>,
) -> SettingsError {
    match load(secret, username, password) {
        Ok(_) => panic!("settings were built"),
        Err(error) => error,
    }
}

fn request(username: &str, password: &str) -> LoginRequest {
    LoginRequest { username: username.to_string(), password: password.to_string() }
}

#[test]
fn settings_need_secret_and_password() {
    let loaded = loaded_settings(Some("s"), Some("boss"), Some("p"));
    assert_eq!(loaded.jwt_secret, "s");
    assert_eq!(loaded.admin_username, "boss");
    assert_eq!(loaded.admin_password, "p");
    assert_eq!(load_error(None, Some("boss"), Some("p")), SettingsError::MissingSecret);
    assert_eq!(load_error(Some("s"), Some("boss"), None), SettingsError::MissingPassword);
    assert_eq!(load_error(None, None, None), SettingsError::MissingSecret);
    assert_eq!(load_error(None, None, Some("p")), SettingsError::MissingSecret);
    assert_eq!(load_error(Some("s"), None, None), SettingsError::MissingPassword);
}

#[test]
fn settings_default_the_username_to_admin() {
    let loaded = loaded_settings(Some("s"), None, Some("p"));
    assert_eq!(loaded.admin_username, "admin");
    assert_eq!(loaded.jwt_secret, "s");
    assert_eq!(loaded.admin_password, "p");
    let empty = loaded_settings(Some(""), Some(""), Some(""));
    assert_eq!(empty.admin_username, "");
    assert_eq!(empty.jwt_secret, "");
    assert_eq!(empty.admin_password, "");
}

#[test]
fn matching_credentials_get_an_admin_token() {
    let response = login_at(request("root", "hunter2"), &settings(), NOW).unwrap();
    let claims = verify_jwt_at(&response.token, "login-secret", NOW).unwrap();
    assert_eq!(claims.sub, "root");
    assert_eq!(claims.role, "admin");
    assert_eq!(claims.exp as i64, NOW + 86_400);
    let header = format!("Bearer {}", response.token);
    assert!(require_admin_at(Some(&header), "login-secret", NOW).is_ok());
}

#[test]
fn login_with_the_real_clock() {
    let response = login(request("root", "hunter2"), &settings()).unwrap();
    let claims = verify_jwt(&response.token, "login-secret").unwrap();
    assert_eq!(claims.sub, "root");
    assert_eq!(claims.role, "admin");
    assert_eq!(login(request("root", "wrong"), &settings()).unwrap_err(), LoginError::Rejected);
}

#[test]
fn wrong_name_and_wrong_password_are_rejected_alike() {
    for (username, password) in [
        ("root", "wrong"),
        ("admin", "hunter2"),
        ("wrong", "wrong"),
        ("", ""),
        ("root", ""),
        ("", "hunter2"),
        ("Root", "hunter2"),
        ("root", "Hunter2"),
        ("root ", "hunter2"),
        ("hunter2", "root"),
    ] {
        let error = login_at(request(username, password), &settings(), NOW).unwrap_err();
        assert_eq!(error, LoginError::Rejected, "{username:?} {password:?}");
        assert_eq!(error.failure(), Failure::Unauthenticated);
        assert_eq!(error.failure().status_code(), 401);
    }
}

#[test]
fn login_built_from_loaded_settings() {
    let settings = loaded_settings(Some("k"), None, Some("pw"));
    let response = login_at(request("admin", "pw"), &settings, NOW).unwrap();
    let claims = verify_jwt_at(&response.token, "k", NOW).unwrap();
    assert_eq!(claims.sub, "admin");
    assert_eq!(claims.role, "admin");
    assert_eq!(
        login_at(request("root", "pw"), &settings, NOW).unwrap_err(),
        LoginError::Rejected
    );
}

#[test]
fn credentials_are_compared_exactly() {
    assert!(check_credentials(&request("root", "hunter2"), &settings()));
    assert!(!check_credentials(&request("root", "hunter"), &settings()));
    assert!(!check_credentials(&request("roo", "hunter2"), &settings()));
}

#[test]
fn right_credentials_on_an_unusable_clock_are_an_internal_error() {
    let error = login_at(request("root", "hunter2"), &settings(), i64::MIN).unwrap_err();
    assert_eq!(error, LoginError::Internal);
    assert_eq!(error.failure(), Failure::InternalError);
    assert_eq!(error.failure().status_code(), 500);
    // Wrong credentials are rejected before the clock matters.
    assert_eq!(
        login_at(request("root", "nope"), &settings(), i64::MIN).unwrap_err(),
        LoginError::Rejected
    );
}
