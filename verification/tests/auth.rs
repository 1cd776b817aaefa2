use web_project::auth::{
    authorize, forbidden, role_allowed, unauthorized, verify_auth, RefusalBody, Role,
};
use web_project::jwt::Claims;

fn claims(role: &str) -> Claims {
    Claims::issued_at(9, "ana@example.com".to_string(), "Ana".to_string(), role.to_string(), 0, 60)
}

#[test]
fn test_role_names() {
    assert_eq!(Role::Admin.as_str(), "admin");
    assert_eq!(Role::Leader.as_str(), "leader");
    assert_eq!(Role::SubjectLeader.as_str(), "subjectLeader");
    assert_eq!(Role::User.as_str(), "user");
}

#[test]
fn test_role_allow_lists() {
    let everyone = [Role::SubjectLeader, Role::User, Role::Admin, Role::Leader];
    for role in ["admin", "leader", "subjectLeader", "user"] {
        assert!(role_allowed(role, &everyone), "{}", role);
    }
    for role in ["", "Admin", "root", "subjectleader", "user "] {
        assert!(!role_allowed(role, &everyone), "{}", role);
    }
    assert!(role_allowed("admin", &[Role::Admin]));
    assert!(!role_allowed("leader", &[Role::Admin]));
    assert!(!role_allowed("admin", &[]));
    assert!(role_allowed("subjectLeader", &[Role::Leader, Role::SubjectLeader]));
    assert!(!role_allowed("user", &[Role::Leader, Role::SubjectLeader]));
}

#[test]
fn test_authorize_claims() {
    assert!(authorize(&claims("leader"), &[Role::Leader]));
    assert!(!authorize(&claims("leader"), &[Role::SubjectLeader]));
    assert!(!authorize(&claims("guest"), &[Role::User, Role::Admin, Role::Leader, Role::SubjectLeader]));
}

#[test]
fn test_verify_auth() {
    let response = verify_auth(&claims("admin"));
    assert!(response.success);
    assert!(response.authenticated);
    let user = response.user.unwrap();
    assert_eq!(user.id, "9");
    assert_eq!(user.name, "Ana");
    assert_eq!(user.email, "ana@example.com");
    assert_eq!(user.role, "admin");
}

#[test]
fn test_unauthorized_replies() {
    let reply = unauthorized("/api/balances");
    assert_eq!(reply.status, 401);
    match reply.body {
        RefusalBody::Api(body) => {
            assert!(!body.success);
            assert_eq!(body.message, "No autorizado. Por favor, inicie sesión.");
            assert_eq!(body.alert, "error");
        }
        other => panic!("unexpected body: {:?}", other),
    }
    let reply = unauthorized("/balances");
    assert_eq!(reply.status, 401);
    match reply.body {
        RefusalBody::Page { redirect, message } => {
            assert_eq!(redirect, "/login");
            assert_eq!(message, "Por favor, inicie sesión para acceder a esta página.");
        }
        other => panic!("unexpected body: {:?}", other),
    }
    assert!(matches!(unauthorized("/api").body, RefusalBody::Page { .. }));
    assert!(matches!(unauthorized("/api/").body, RefusalBody::Api(_)));
    assert!(matches!(unauthorized("").body, RefusalBody::Page { .. }));
    assert!(matches!(unauthorized("x/api/").body, RefusalBody::Page { .. }));
}

#[test]
fn test_forbidden_replies() {
    let reply = forbidden("/api/settings");
    assert_eq!(reply.status, 403);
    match reply.body {
        RefusalBody::Api(body) => {
            assert!(!body.success);
            assert_eq!(body.message, "Acceso denegado. No tiene permisos para esta operación.");
            assert_eq!(body.alert, "error");
        }
        other => panic!("unexpected body: {:?}", other),
    }
    match forbidden("/admin").body {
        RefusalBody::Page { redirect, message } => {
            assert_eq!(redirect, "/");
            assert_eq!(message, "No tiene permisos para acceder a esta página.");
        }
        other => panic!("unexpected body: {:?}", other),
    }
}
