use web_project::dates::CalendarDate;
use web_project::jwt::Claims;
use web_project::requests::{
    data_response, failure_message, generate_balance_name, may_edit_subject, outcome_response,
    rejection, subject_scope, user_id_of, AuditStats, BalanceRequest, ChangePasswordRequest,
    CreateAsignaturaRequest, LoginJson, NewUser, SubjectScope, UpdateProfileRequest,
};
use web_project::validation::ValidationResult;

fn new_user(user_name: &str, name: &str, email: &str, password: &str) -> NewUser {
    NewUser {
        user_name: user_name.to_string(),
        name: name.to_string(),
        email: email.to_string(),
        password: password.to_string(),
        role: "user".to_string(),
    }
}

#[test]
fn test_new_user_check() {
    assert!(new_user("  usuario1 ", " Ana Pérez ", " ana@example.com ", "Secreta123").check().is_none());
    let refused = new_user("u s", "Ana", "ana@example.com", "Secreta123").check().unwrap();
    assert_eq!(refused.message, "Nombre de usuario inválido");
    assert_eq!(refused.alert, "error");
    let refused = new_user("usuario1", "Ana", "ana@example.com", " Secreta123 ").check();
    assert!(refused.is_none());
    let refused = new_user("usuario1", "Ana", "ana@example.com", "x").check().unwrap();
    assert!(refused.message.starts_with("Contraseña inválida"));
}

#[test]
fn test_login_user_name_is_trimmed() {
    let credentials = LoginJson { username: "  ana \n".to_string(), password: " x ".to_string() };
    assert_eq!(credentials.user_name(), "ana");
    assert_eq!(credentials.password, " x ");
}

#[test]
fn test_other_checks() {
    let profile = UpdateProfileRequest { name: " Ana ".to_string(), email: "ana@example.com".to_string() };
    assert!(profile.check().is_none());
    let profile = UpdateProfileRequest { name: "Ana".to_string(), email: "ana".to_string() };
    assert_eq!(profile.check().unwrap().message, "Email inválido");
    let change = ChangePasswordRequest { new_password: "Secreta123".to_string() };
    assert!(change.check().is_none());
    let change = ChangePasswordRequest { new_password: "corta".to_string() };
    let refused = change.check().unwrap();
    assert_eq!(refused.message, "Contraseña inválida (mínimo 8 caracteres)");
    assert_eq!(refused.alert, "error");
    let subject = CreateAsignaturaRequest {
        leader_user_name: "lea".to_string(),
        name: "Álgebra I".to_string(),
        year: "1ro".to_string(),
        semester: "1ero".to_string(),
    };
    assert!(subject.check().is_none());
    let subject = CreateAsignaturaRequest { name: "<x>".to_string(), ..subject };
    assert_eq!(subject.check().unwrap().message, "Nombre de asignatura inválido");
}

#[test]
fn test_rejection() {
    assert!(rejection(&ValidationResult::ok(), "Datos inválidos").is_none());
    assert_eq!(rejection(&ValidationResult::error("mal"), "Datos inválidos").unwrap().message, "mal");
    let odd = ValidationResult { valid: false, error: None };
    let refused = rejection(&odd, "Datos inválidos").unwrap();
    assert_eq!(refused.message, "Datos inválidos");
    assert_eq!(refused.alert, "error");
}

#[test]
fn test_outcome_responses() {
    let ok = outcome_response(&Ok(()), "Usuario creado exitosamente", "Error al crear el usuario");
    assert_eq!((ok.message.as_str(), ok.alert.as_str()), ("Usuario creado exitosamente", "success"));
    let failed = outcome_response(
        &Err("duplicado".to_string()),
        "Usuario creado exitosamente",
        "Error al crear el usuario",
    );
    assert_eq!(
        (failed.message.as_str(), failed.alert.as_str()),
        ("Error al crear el usuario: duplicado", "error")
    );
    assert_eq!(failure_message("Error al buscar el balance", "sin conexión"), "Error al buscar el balance: sin conexión");
    let ok = data_response(Ok(vec![1, 2]), "Listo", "Error");
    assert_eq!(ok.data, Some(vec![1, 2]));
    assert_eq!((ok.message.as_str(), ok.alert.as_str()), ("Listo", "success"));
    let failed: web_project::types::ApiResponseWithData<Vec<i32>> =
        data_response(Err("x".to_string()), "Listo", "Error");
    assert!(failed.data.is_none());
    assert_eq!((failed.message.as_str(), failed.alert.as_str()), ("Error: x", "error"));
}

#[test]
fn test_user_id_of_claims() {
    let mut claims = Claims::issued_at(12, String::new(), String::new(), String::new(), 0, 0);
    assert_eq!(user_id_of(&claims), 12);
    claims.sub = "-3".to_string();
    assert_eq!(user_id_of(&claims), -3);
    claims.sub = "doce".to_string();
    assert_eq!(user_id_of(&claims), 0);
    claims.sub = "99999999999".to_string();
    assert_eq!(user_id_of(&claims), 0);
    claims.sub = String::new();
    assert_eq!(user_id_of(&claims), 0);
}

#[test]
fn test_subject_permissions() {
    assert_eq!(subject_scope("leader"), SubjectScope::All);
    assert_eq!(subject_scope("subjectLeader"), SubjectScope::Own);
    assert_eq!(subject_scope("admin"), SubjectScope::Nothing);
    assert_eq!(subject_scope(""), SubjectScope::Nothing);
    assert_eq!(may_edit_subject(4, 4), None);
    assert_eq!(may_edit_subject(4, 5), Some("No tienes permisos para editar esta asignatura"));
}

#[test]
fn test_balance_request() {
    assert_eq!(generate_balance_name("1ro", "2do", "2025-2026"), "1ro Año - Período 2do (2025-2026)");
    let mut request = BalanceRequest {
        academic_year: "3ro".to_string(),
        period: "1ero".to_string(),
        academic_year_text: "2025-2026".to_string(),
        start_date: "2025-09-01".to_string(),
        weeks: 15,
        subjects: serde_json::Value::Array(Vec::new()),
    };
    assert_eq!(request.name(), "3ro Año - Período 1ero (2025-2026)");
    assert_eq!(request.start(), Ok(CalendarDate::from_ymd(2025, 9, 1).unwrap()));
    for bad in ["01/09/2025", "2025-13-01", "2025-02-30", "", "2025-09", "hoy", "2025-09-01T00:00"] {
        request.start_date = bad.to_string();
        assert_eq!(request.start(), Err("Formato de fecha inválido. Use YYYY-MM-DD"), "{}", bad);
    }
    assert_eq!(CalendarDate::parse_iso("2024-02-29"), CalendarDate::from_ymd(2024, 2, 29));
    assert!(CalendarDate::parse_iso("2024-2-9").is_some());
}

#[test]
fn test_audit_stats() {
    assert_eq!(
        AuditStats::from_counts(Some(10), Some(3), Some(2)),
        AuditStats { total_logs: 10, recent_logins: 3, recent_errors: 2 }
    );
    assert_eq!(
        AuditStats::from_counts(None, None, None),
        AuditStats { total_logs: 0, recent_logins: 0, recent_errors: 0 }
    );
}
