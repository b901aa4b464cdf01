use railway_backend::auth::{
    bearer_token, get_user_info, require_role, AuthService, AuthenticatedUser, Claims, RequireRole,
    User, UserRole, STATUS_FORBIDDEN,
};
use railway_backend::time::Timestamp;

#[test]
fn test_role_permissions() {
    let admin_checker = RequireRole(UserRole::Admin);
    let operator_checker = RequireRole(UserRole::Operator);
    let viewer_checker = RequireRole(UserRole::Viewer);

    // Admin can access everything
    assert!(admin_checker.check_permission(&UserRole::Admin));
    assert!(operator_checker.check_permission(&UserRole::Admin));
    assert!(viewer_checker.check_permission(&UserRole::Admin));

    // Operator can access operator and viewer functions
    assert!(!admin_checker.check_permission(&UserRole::Operator));
    assert!(operator_checker.check_permission(&UserRole::Operator));
    assert!(viewer_checker.check_permission(&UserRole::Operator));

    // Viewer can only access viewer functions
    assert!(!admin_checker.check_permission(&UserRole::Viewer));
    assert!(!operator_checker.check_permission(&UserRole::Viewer));
    assert!(viewer_checker.check_permission(&UserRole::Viewer));
}

#[test]
fn system_monitor_may_view_and_an_operator_may_monitor() {
    let monitor_checker = RequireRole(UserRole::SystemMonitor);
    assert!(monitor_checker.check_permission(&UserRole::Operator));
    assert!(monitor_checker.check_permission(&UserRole::Admin));
    assert!(!monitor_checker.check_permission(&UserRole::Viewer));
    assert!(monitor_checker.check_permission(&UserRole::SystemMonitor));
    assert!(RequireRole(UserRole::Viewer).check_permission(&UserRole::SystemMonitor));
    assert!(!RequireRole(UserRole::Operator).check_permission(&UserRole::SystemMonitor));
}

fn sample_user() -> User {
    User {
        id: "test_user_001".to_string(),
        username: "testuser".to_string(),
        email: "test@railway.gov.in".to_string(),
        role: UserRole::Operator,
        created_at: Timestamp { millis: 0 },
        last_login: None,
        active: true,
    }
}

#[test]
fn claims_carry_the_user_and_expire_after_the_configured_hours() {
    let service = AuthService::new("test-secret-key-at-least-32-chars", 24);
    let user = sample_user();
    let now = Timestamp { millis: 1_700_000_000_123 };
    let claims = service.claims_for(&user, now);
    assert_eq!(claims.sub, user.id);
    assert_eq!(claims.username, user.username);
    assert_eq!(claims.role, user.role);
    assert_eq!(claims.iat, 1_700_000_000);
    assert_eq!(claims.exp, 1_700_000_000 + 24 * 3600);
    assert!(!AuthService::is_expired(&claims, now));
    assert!(AuthService::is_expired(
        &claims,
        Timestamp { millis: (1_700_000_000 + 24 * 3600 + 1) * 1000 }
    ));
}

#[test]
fn claims_before_the_epoch_count_from_zero() {
    let service = AuthService::new("s", 1);
    let claims = service.claims_for(&sample_user(), Timestamp { millis: -5_000 });
    assert_eq!(claims.iat, 0);
    assert_eq!(claims.exp, 3595);
}

#[test]
fn known_users_log_in_and_others_do_not() {
    let service = AuthService::new("secret", 24);
    let now = Timestamp { millis: 42 };
    let admin = service.authenticate_at("admin", "admin123", now).unwrap();
    assert_eq!(admin.id, "user_admin_001");
    assert_eq!(admin.email, "admin@railway.gov.in");
    assert_eq!(admin.role, UserRole::Admin);
    assert_eq!(admin.created_at, now);
    assert_eq!(admin.last_login, Some(now));
    assert!(admin.active);
    let operator = service.authenticate_at("operator", "operator123", now).unwrap();
    assert_eq!(operator.role, UserRole::Operator);
    assert_eq!(operator.id, "user_operator_001");
    let viewer = service.authenticate_at("viewer", "viewer123", now).unwrap();
    assert_eq!(viewer.role, UserRole::Viewer);
    assert!(service.authenticate_at("admin", "wrong", now).is_none());
    assert!(service.authenticate_at("nobody", "admin123", now).is_none());
    assert!(service.authenticate_at("admin", "operator123", now).is_none());
    let live = service.authenticate_user("viewer", "viewer123").unwrap();
    assert_eq!(live.last_login, Some(live.created_at));
}

#[test]
fn login_answer_expires_a_day_later() {
    let now = Timestamp { millis: 1_000 };
    let response = AuthService::login_response("tok".to_string(), sample_user(), now);
    assert_eq!(response.token, "tok");
    assert_eq!(response.user.username, "testuser");
    assert_eq!(response.user.role, UserRole::Operator);
    assert_eq!(response.expires_at, Timestamp { millis: 1_000 + 24 * 3_600_000 });
}

#[test]
fn bearer_token_is_what_follows_the_prefix() {
    assert_eq!(bearer_token("Bearer abc.def"), Some("abc.def".to_string()));
    assert_eq!(bearer_token("Bearer "), Some(String::new()));
    assert_eq!(bearer_token("Bearer"), None);
    assert_eq!(bearer_token("bearer abc"), None);
    assert_eq!(bearer_token("Basic abc123"), None);
    assert_eq!(bearer_token(""), None);
    assert_eq!(bearer_token("Bearer \u{00e9}t\u{00e9}"), Some("\u{00e9}t\u{00e9}".to_string()));
}

fn claims_with(role: UserRole) -> Claims {
    Claims { sub: "u1".to_string(), username: "meena".to_string(), role, exp: 10, iat: 1 }
}

#[test]
fn require_role_passes_or_forbids() {
    let passed = require_role(UserRole::Viewer, AuthenticatedUser(claims_with(UserRole::Operator)));
    assert_eq!(passed.unwrap().0.username, "meena");
    let refused = require_role(UserRole::Admin, AuthenticatedUser(claims_with(UserRole::Operator)));
    assert_eq!(refused.err(), Some(STATUS_FORBIDDEN));
    assert_eq!(STATUS_FORBIDDEN, 403);
}

#[test]
fn user_info_has_the_railway_address() {
    let info = get_user_info(AuthenticatedUser(claims_with(UserRole::Viewer)));
    assert_eq!(info.id, "u1");
    assert_eq!(info.username, "meena");
    assert_eq!(info.email, "meena@railway.gov.in");
    assert_eq!(info.role, UserRole::Viewer);
}
