use inmonea_backend::auth::{
    admin_login, builtin_admin_profile, change_password_decision, email_verification_status,
    is_builtin_admin, login_decision, login_lookup, missing_tenant_status, refresh_decision,
    tenant_allows_access, AccessDecision, AdminLogin, LoginLookup, Role, RoleResponseDto,
    TenantLookup,
};
use inmonea_backend::http::HttpStatus;
use inmonea_backend::system::settings_access;
use inmonea_backend::superadmin::is_platform_admin;

fn open_tenant() -> TenantLookup {
    TenantLookup::Found { status: Some("ACTIVE".into()), is_active: Some(true) }
}

#[test]
fn builtin_admin_is_nil_super_admin() {
    assert!(is_builtin_admin("super_admin", 0));
    assert!(!is_builtin_admin("super_admin", 5));
    assert!(!is_builtin_admin("tenant_admin", 0));
    let p = builtin_admin_profile();
    assert_eq!(p.user_id, 0);
    assert_eq!(p.tenant_id, None);
    assert_eq!(p.role, "super_admin");
    assert_eq!(p.first_name.as_deref(), Some("Super"));
    assert_eq!(p.last_name.as_deref(), Some("Admin"));
}

#[test]
fn admin_login_outcomes() {
    assert_eq!(admin_login("a@x.com", "pw", "root@x.com", "secret"), AdminLogin::NotAdmin);
    assert_eq!(admin_login("root@x.com", "secret", "root@x.com", "secret"), AdminLogin::Granted);
    assert_eq!(admin_login("root@x.com", "nope", "root@x.com", "secret"), AdminLogin::Denied);
}

#[test]
fn identifiers_with_at_are_emails() {
    assert_eq!(login_lookup("user@example.com"), LoginLookup::ByEmail);
    assert_eq!(login_lookup("20-12345678-9"), LoginLookup::ByTaxId);
    assert_eq!(login_lookup(""), LoginLookup::ByTaxId);
    assert_eq!(login_lookup("@"), LoginLookup::ByEmail);
}

#[test]
fn tenant_must_be_active_and_flagged() {
    assert!(tenant_allows_access(&Some("ACTIVE".into()), Some(true)));
    assert!(!tenant_allows_access(&Some("ACTIVE".into()), Some(false)));
    assert!(!tenant_allows_access(&Some("ACTIVE".into()), None));
    assert!(!tenant_allows_access(&Some("SUSPENDED".into()), Some(true)));
    assert!(!tenant_allows_access(&None, Some(true)));
}

#[test]
fn login_decisions() {
    assert_eq!(login_decision(false, false, true, &open_tenant()), AccessDecision::Deny(HttpStatus::Unauthorized));
    assert_eq!(login_decision(true, false, true, &open_tenant()), AccessDecision::Deny(HttpStatus::Unauthorized));
    assert_eq!(login_decision(true, true, false, &open_tenant()), AccessDecision::Deny(HttpStatus::Forbidden));
    assert_eq!(login_decision(true, true, true, &open_tenant()), AccessDecision::Grant);
    assert_eq!(login_decision(true, true, true, &TenantLookup::NoTenant), AccessDecision::Grant);
    assert_eq!(login_decision(true, true, true, &TenantLookup::Missing), AccessDecision::Deny(HttpStatus::Unauthorized));
    let closed = TenantLookup::Found { status: Some("TRIAL".into()), is_active: Some(true) };
    assert_eq!(login_decision(true, true, true, &closed), AccessDecision::Deny(HttpStatus::Forbidden));
}

#[test]
fn refresh_applies_the_same_checks() {
    let cases = vec![
        (true, open_tenant()),
        (false, open_tenant()),
        (true, TenantLookup::NoTenant),
        (true, TenantLookup::Missing),
        (true, TenantLookup::Found { status: Some("ACTIVE".into()), is_active: None }),
    ];
    for (verified, t) in cases {
        assert_eq!(refresh_decision(true, verified, &t), login_decision(true, true, verified, &t));
    }
    assert_eq!(refresh_decision(false, true, &open_tenant()), AccessDecision::Deny(HttpStatus::Unauthorized));
}

#[test]
fn password_change_decisions() {
    assert_eq!(change_password_decision(true, true, true), HttpStatus::Forbidden);
    assert_eq!(change_password_decision(false, true, true), HttpStatus::Success);
    assert_eq!(change_password_decision(false, true, false), HttpStatus::Unauthorized);
    assert_eq!(change_password_decision(false, false, true), HttpStatus::Unauthorized);
    assert_eq!(email_verification_status(true), HttpStatus::Success);
    assert_eq!(email_verification_status(false), HttpStatus::BadRequest);
    assert_eq!(missing_tenant_status(), HttpStatus::Forbidden);
}

#[test]
fn role_is_reported_as_stored() {
    let dto = RoleResponseDto::from(Role { id: 9, name: "agent".into(), description: None });
    assert_eq!(dto.id, 9);
    assert_eq!(dto.name, "agent");
    assert!(dto.description.is_none());
}

#[test]
fn administration_roles() {
    assert!(is_platform_admin("super_admin"));
    assert!(is_platform_admin("SUPERADMIN"));
    assert!(!is_platform_admin("tenant_admin"));
    assert!(settings_access("super_admin").is_ok());
    assert_eq!(settings_access("SUPERADMIN"), Err(HttpStatus::Forbidden));
}
