use web_project::jwt::{Claims, LoginResponse};
use web_project::text::i32_to_string;
use web_project::types::{ApiResponse, ApiResponseWithData};

#[test]
fn test_api_response() {
    let ok = ApiResponse::success("Hecho".to_string());
    assert_eq!(ok.message, "Hecho");
    assert_eq!(ok.alert, "success");
    let failed = ApiResponse::error("Falló".to_string());
    assert_eq!(failed.message, "Falló");
    assert_eq!(failed.alert, "error");
}

#[test]
fn test_api_response_with_data() {
    let ok = ApiResponseWithData::success("Hecho".to_string(), vec![1, 2, 3]);
    assert_eq!(ok.message, "Hecho");
    assert_eq!(ok.alert, "success");
    assert_eq!(ok.data, Some(vec![1, 2, 3]));
    let failed: ApiResponseWithData<Vec<i32>> = ApiResponseWithData::error("Falló".to_string());
    assert_eq!(failed.message, "Falló");
    assert_eq!(failed.alert, "error");
    assert!(failed.data.is_none());
}

#[test]
fn test_claims_issued_at() {
    let claims = Claims::issued_at(
        42,
        "ana@example.com".to_string(),
        "Ana".to_string(),
        "admin".to_string(),
        1_700_000_000,
        86400,
    );
    assert_eq!(claims.sub, "42");
    assert_eq!(claims.email, "ana@example.com");
    assert_eq!(claims.name, "Ana");
    assert_eq!(claims.role, "admin");
    assert_eq!(claims.iat, 1_700_000_000);
    assert_eq!(claims.exp, 1_700_086_400);
    let late = Claims::issued_at(-7, String::new(), String::new(), String::new(), usize::MAX - 5, 10);
    assert_eq!(late.sub, "-7");
    assert_eq!(late.exp, usize::MAX);
}

#[test]
fn test_claims_new_expire_after_a_day() {
    let claims = Claims::new(7, "Ana".to_string(), "ana@example.com".to_string(), "leader".to_string());
    assert_eq!(claims.sub, "7");
    assert_eq!(claims.name, "Ana");
    assert_eq!(claims.email, "ana@example.com");
    assert_eq!(claims.role, "leader");
    assert_eq!(claims.exp, claims.iat + 86400);
    // The clock is read: the token is issued after 2020.
    assert!(claims.iat > 1_577_836_800);
}

#[test]
fn test_claims_with_expiration() {
    let claims = Claims::with_expiration(
        7,
        "ana@example.com".to_string(),
        "Ana".to_string(),
        "user".to_string(),
        10800,
    );
    assert_eq!(claims.email, "ana@example.com");
    assert_eq!(claims.name, "Ana");
    assert_eq!(claims.exp, claims.iat + 10800);
    assert!(claims.iat > 1_577_836_800);
}

#[test]
fn test_timestamps() {
    assert_eq!(Claims::timestamp(None), 0);
    assert_eq!(Claims::timestamp(Some(0)), 0);
    assert_eq!(Claims::timestamp(Some(1_700_000_000)), 1_700_000_000);
}

#[test]
fn test_login_response() {
    let claims = Claims::issued_at(
        3,
        "ana@example.com".to_string(),
        "Ana".to_string(),
        "subjectLeader".to_string(),
        100,
        50,
    );
    let ok = LoginResponse::success("tok".to_string(), &claims);
    assert!(ok.success);
    assert_eq!(ok.message, "Login exitoso");
    assert_eq!(ok.token.as_deref(), Some("tok"));
    let user = ok.user.unwrap();
    assert_eq!(user.id, "3");
    assert_eq!(user.name, "Ana");
    assert_eq!(user.email, "ana@example.com");
    assert_eq!(user.role, "subjectLeader");
    let failed = LoginResponse::error("Credenciales inválidas".to_string());
    assert!(!failed.success);
    assert_eq!(failed.message, "Credenciales inválidas");
    assert!(failed.token.is_none());
    assert!(failed.user.is_none());
}

#[test]
fn test_integers_as_text() {
    assert_eq!(i32_to_string(0), "0");
    assert_eq!(i32_to_string(7), "7");
    assert_eq!(i32_to_string(10), "10");
    assert_eq!(i32_to_string(12345), "12345");
    assert_eq!(i32_to_string(-1), "-1");
    assert_eq!(i32_to_string(i32::MAX), "2147483647");
    assert_eq!(i32_to_string(i32::MIN), "-2147483648");
}
