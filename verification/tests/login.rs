use web_project::jwt::Claims;
use web_project::login::{
    begin_login, blocked_message, check_password, finish_login, lookup_failed, password_checked,
    refuse_blocked, refuse_invalid_username, refuse_unknown_user, token_issued,
    wrong_password_message, Client, LoginStart, LoginVerdict, StoredUser, UserLookup,
};
use web_project::audit::EventType;
use web_project::passwords::{hash_password, verify_password, PasswordError};
use web_project::rate_limiter::RateLimiter;

fn client() -> Option<Client> {
    Some(Client { address: 77, text: "10.0.0.77".to_string() })
}

#[test]
fn test_messages() {
    assert_eq!(
        blocked_message(Some(120)),
        "Demasiados intentos fallidos. Intente de nuevo en 120 segundos."
    );
    assert_eq!(blocked_message(Some(0)), "Demasiados intentos fallidos. Intente de nuevo en 0 segundos.");
    assert_eq!(
        blocked_message(Some(u64::MAX)),
        "Demasiados intentos fallidos. Intente de nuevo en 18446744073709551615 segundos."
    );
    assert_eq!(blocked_message(None), "Demasiados intentos fallidos. Intente más tarde.");
    assert_eq!(
        wrong_password_message(true, 3),
        "Demasiados intentos fallidos. Cuenta bloqueada temporalmente."
    );
    assert_eq!(wrong_password_message(false, 2), "Credenciales inválidas. 2 intentos restantes.");
    assert_eq!(wrong_password_message(false, 0), "Credenciales inválidas. 0 intentos restantes.");
    assert_eq!(wrong_password_message(false, 3), "Credenciales inválidas");
}

#[test]
fn test_blocked_clients_are_refused_first() {
    let mut limiter = RateLimiter::new();
    assert!(refuse_blocked(&limiter, &client(), 0).is_none());
    assert!(refuse_blocked(&limiter, &None, 0).is_none());
    for _ in 0..5 {
        limiter.record_failed_attempt(77, 0);
    }
    let response = refuse_blocked(&limiter, &client(), 100_000).unwrap();
    assert!(!response.success);
    assert_eq!(response.message, "Demasiados intentos fallidos. Intente de nuevo en 200 segundos.");
    assert!(response.token.is_none() && response.user.is_none());
    assert!(refuse_blocked(&limiter, &client(), 300_000).is_none());
    assert!(refuse_blocked(&limiter, &None, 100_000).is_none());
}

#[test]
fn test_invalid_username_is_counted_and_recorded() {
    let mut limiter = RateLimiter::new();
    assert!(refuse_invalid_username(&mut limiter, &client(), "usuario1", 0).is_none());
    assert_eq!(limiter.len(), 0);
    let refused = refuse_invalid_username(&mut limiter, &client(), "a b", 0).unwrap();
    assert_eq!(refused.response.message, "Usuario inválido");
    assert!(!refused.response.success);
    assert_eq!(limiter.attempt(77).unwrap().attempts, 1);
    let audit = refused.audit.unwrap();
    assert_eq!(audit.event_type, EventType::LoginFailed);
    assert_eq!(audit.error_message.as_deref(), Some("Usuario inválido"));
    assert_eq!(audit.ip_address.as_deref(), Some("10.0.0.77"));
    assert_eq!(audit.user_agent.as_deref(), Some("a b"));
    // Without a known client nothing is counted or recorded.
    let refused = refuse_invalid_username(&mut limiter, &None, "a b", 0).unwrap();
    assert_eq!(refused.response.message, "Usuario inválido");
    assert!(refused.audit.is_none());
    assert_eq!(limiter.len(), 1);
}

#[test]
fn test_unknown_user() {
    let mut limiter = RateLimiter::new();
    let refused = refuse_unknown_user(&mut limiter, &client(), "nadie", 0);
    assert_eq!(refused.response.message, "Credenciales inválidas");
    assert_eq!(refused.audit.unwrap().error_message.as_deref(), Some("Usuario no encontrado"));
    assert_eq!(limiter.attempt(77).unwrap().attempts, 1);
    assert_eq!(lookup_failed().message, "Error del servidor");
    assert!(!lookup_failed().success);
}

#[test]
fn test_wrong_passwords_count_down() {
    let mut limiter = RateLimiter::new();
    let messages: Vec<String> = (0..6)
        .map(|_| password_checked(&mut limiter, &client(), "ana", false, 0).unwrap().response.message)
        .collect();
    assert_eq!(
        messages,
        vec![
            "Credenciales inválidas",
            "Credenciales inválidas",
            "Credenciales inválidas. 2 intentos restantes.",
            "Credenciales inválidas. 1 intentos restantes.",
            "Demasiados intentos fallidos. Cuenta bloqueada temporalmente.",
            "Demasiados intentos fallidos. Cuenta bloqueada temporalmente.",
        ]
    );
    let refused = password_checked(&mut limiter, &None, "ana", false, 0).unwrap();
    assert_eq!(refused.response.message, "Credenciales inválidas");
    assert!(refused.audit.is_none());
    let mut other = RateLimiter::new();
    let refused = password_checked(&mut other, &client(), "ana", false, 0).unwrap();
    assert_eq!(refused.audit.unwrap().error_message.as_deref(), Some("Contraseña incorrecta"));
}

#[test]
fn test_right_password_clears_the_record() {
    let mut limiter = RateLimiter::new();
    limiter.record_failed_attempt(77, 0);
    assert!(password_checked(&mut limiter, &client(), "ana", true, 0).is_none());
    assert!(limiter.attempt(77).is_none());
    assert!(password_checked(&mut limiter, &None, "ana", true, 0).is_none());
}

#[test]
fn test_password_hashing() {
    let hash = hash_password("Secreta123").unwrap();
    assert!(hash.starts_with("$2"));
    assert_ne!(hash, "Secreta123");
    assert!(verify_password("Secreta123", &hash));
    assert!(!verify_password("secreta123", &hash));
    assert!(!verify_password("Secreta123", "no es un hash"));
    assert!(!verify_password("", ""));
    // A hash made elsewhere, of the password "password".
    assert!(verify_password(
        "password",
        "$2y$05$bvIG6Nmid91Mu9RcmmWZfO5HJIMCT8riNW0hEp8f6/FuA2/mHZFpe"
    ));
    assert_eq!(PasswordError::Hashing.message(), "Error al hashear contraseña");
}

#[test]
fn test_check_password() {
    let hash = hash_password("Secreta123").unwrap();
    let mut limiter = RateLimiter::new();
    let refused = check_password(&mut limiter, &client(), "ana", "otra", &hash, 0).unwrap();
    assert_eq!(refused.response.message, "Credenciales inválidas");
    assert_eq!(limiter.attempt(77).unwrap().attempts, 1);
    assert!(check_password(&mut limiter, &client(), "ana", "Secreta123", &hash, 0).is_none());
    assert!(limiter.attempt(77).is_none());
}

#[test]
fn test_token_issued() {
    let claims =
        Claims::issued_at(3, "ana@example.com".to_string(), "Ana".to_string(), "user".to_string(), 0, 60);
    let (response, audit) = token_issued(Some("tok".to_string()), &claims, 3, &client());
    assert!(response.success);
    assert_eq!(response.token.as_deref(), Some("tok"));
    assert_eq!(response.user.unwrap().id, "3");
    let audit = audit.unwrap();
    assert_eq!(audit.event_type, EventType::Login);
    assert_eq!(audit.user_id, Some(3));
    assert_eq!(audit.ip_address.as_deref(), Some("10.0.0.77"));
    let (_, audit) = token_issued(Some("tok".to_string()), &claims, 3, &None);
    assert_eq!(audit.unwrap().ip_address.as_deref(), Some("unknown"));
    let (response, audit) = token_issued(None, &claims, 3, &client());
    assert!(!response.success);
    assert_eq!(response.message, "Error al generar el token");
    assert!(audit.is_none());
}

#[test]
fn test_refusals_carry_no_token_and_no_user() {
    let mut limiter = RateLimiter::new();
    let refused = refuse_invalid_username(&mut limiter, &client(), "a b", 0).unwrap();
    assert!(refused.response.token.is_none() && refused.response.user.is_none());
    let refused = refuse_unknown_user(&mut limiter, &client(), "nadie", 0);
    assert!(refused.response.token.is_none() && refused.response.user.is_none());
    let response = lookup_failed();
    assert!(response.token.is_none() && response.user.is_none());
    let refused = password_checked(&mut limiter, &client(), "ana", false, 0).unwrap();
    assert!(!refused.response.success);
    assert!(refused.response.token.is_none() && refused.response.user.is_none());
    let refused = password_checked(&mut limiter, &None, "ana", false, 0).unwrap();
    assert!(refused.response.token.is_none() && refused.response.user.is_none());
    let refused = check_password(&mut limiter, &client(), "ana", "otra", "no es un hash", 0).unwrap();
    assert!(!refused.response.success);
    assert!(refused.response.token.is_none() && refused.response.user.is_none());
    let claims =
        Claims::issued_at(3, "ana@example.com".to_string(), "Ana".to_string(), "user".to_string(), 0, 60);
    let (response, _) = token_issued(None, &claims, 3, &client());
    assert!(response.token.is_none() && response.user.is_none());
}

fn stored_user(hash: &str) -> StoredUser {
    StoredUser {
        id: 3,
        name: "Ana".to_string(),
        email: "ana@example.com".to_string(),
        role: Some("admin".to_string()),
        password_hash: hash.to_string(),
    }
}

#[test]
fn test_login_begins_with_the_block_and_the_user_name() {
    let mut limiter = RateLimiter::new();
    assert!(matches!(begin_login(&mut limiter, &client(), "usuario1", 0), LoginStart::LookUp));
    assert!(matches!(begin_login(&mut limiter, &None, "usuario1", 0), LoginStart::LookUp));
    assert_eq!(limiter.len(), 0);
    // A malformed user name is refused and counted.
    match begin_login(&mut limiter, &client(), "a b", 0) {
        LoginStart::Refuse(refused) => {
            assert_eq!(refused.response.message, "Usuario inválido");
            assert!(!refused.response.success);
            assert!(refused.response.token.is_none() && refused.response.user.is_none());
            assert_eq!(refused.audit.unwrap().error_message.as_deref(), Some("Usuario inválido"));
        }
        LoginStart::LookUp => panic!("a malformed user name was let through"),
    }
    assert_eq!(limiter.attempt(77).unwrap().attempts, 1);
    // A blocked client is refused first: nothing is counted or recorded,
    // whatever the user name.
    for _ in 0..4 {
        limiter.record_failed_attempt(77, 0);
    }
    assert!(limiter.is_blocked(77, 1000));
    let before = limiter.attempt(77).unwrap();
    for name in ["usuario1", "a b"] {
        match begin_login(&mut limiter, &client(), name, 1000) {
            LoginStart::Refuse(refused) => {
                assert_eq!(
                    refused.response.message,
                    "Demasiados intentos fallidos. Intente de nuevo en 299 segundos."
                );
                assert!(!refused.response.success);
                assert!(refused.response.token.is_none() && refused.response.user.is_none());
                assert!(refused.audit.is_none());
            }
            LoginStart::LookUp => panic!("a blocked client was let through"),
        }
    }
    assert_eq!(limiter.attempt(77).unwrap(), before);
    // Requests without a known client are never blocked.
    assert!(matches!(begin_login(&mut limiter, &None, "usuario1", 1000), LoginStart::LookUp));
}

#[test]
fn test_login_finishes_with_what_was_found() {
    let hash = hash_password("Secreta123").unwrap();
    let mut limiter = RateLimiter::new();
    // No such user.
    match finish_login(&mut limiter, &client(), "ana", "Secreta123", &UserLookup::Missing, 0) {
        LoginVerdict::Refuse(refused) => {
            assert_eq!(refused.response.message, "Credenciales inválidas");
            assert!(refused.response.token.is_none() && refused.response.user.is_none());
            assert_eq!(
                refused.audit.unwrap().error_message.as_deref(),
                Some("Usuario no encontrado")
            );
        }
        LoginVerdict::Sign(_) => panic!("an unknown user was let in"),
    }
    assert_eq!(limiter.attempt(77).unwrap().attempts, 1);
    // The store could not be asked: nothing is counted.
    match finish_login(&mut limiter, &client(), "ana", "Secreta123", &UserLookup::Failed, 0) {
        LoginVerdict::Refuse(refused) => {
            assert_eq!(refused.response.message, "Error del servidor");
            assert!(!refused.response.success);
            assert!(refused.audit.is_none());
        }
        LoginVerdict::Sign(_) => panic!("a failed lookup let a user in"),
    }
    assert_eq!(limiter.attempt(77).unwrap().attempts, 1);
    // A wrong password.
    let found = UserLookup::Found(stored_user(&hash));
    match finish_login(&mut limiter, &client(), "ana", "otra", &found, 0) {
        LoginVerdict::Refuse(refused) => {
            assert_eq!(refused.response.message, "Credenciales inválidas");
            assert!(refused.response.token.is_none() && refused.response.user.is_none());
            assert_eq!(
                refused.audit.unwrap().error_message.as_deref(),
                Some("Contraseña incorrecta")
            );
        }
        LoginVerdict::Sign(_) => panic!("a wrong password was let in"),
    }
    assert_eq!(limiter.attempt(77).unwrap().attempts, 2);
    // The right password: the claims of the user, and a clean record.
    match finish_login(&mut limiter, &client(), "ana", "Secreta123", &found, 0) {
        LoginVerdict::Sign(claims) => {
            assert_eq!(claims.sub, "3");
            assert_eq!(claims.name, "Ana");
            assert_eq!(claims.email, "ana@example.com");
            assert_eq!(claims.role, "admin");
            assert_eq!(claims.exp, claims.iat + 86400);
        }
        LoginVerdict::Refuse(_) => panic!("the right password was refused"),
    }
    assert!(limiter.attempt(77).is_none());
    // A user without a role has none in its claims.
    let plain = UserLookup::Found(StoredUser { role: None, ..stored_user(&hash) });
    match finish_login(&mut limiter, &None, "ana", "Secreta123", &plain, 0) {
        LoginVerdict::Sign(claims) => assert_eq!(claims.role, ""),
        LoginVerdict::Refuse(_) => panic!("the right password was refused"),
    }
}
