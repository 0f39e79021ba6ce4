use inmonea_backend::http::HttpStatus;
use inmonea_backend::superadmin::{
    admin_insert_error, audit_actor, estimated_mrr, frontend_base, onboarding_link,
    onboarding_whatsapp, tenant_insert_error, tenant_is_active_for, tenant_slug,
    tenant_status_update_result, trial_extension, validate_plan, validate_subscription_status,
    TrialExtension, ONBOARDING_DAYS, TRIAL_DAYS,
};
use inmonea_backend::system::{
    calendar_status, calendar_unconfigured_status, email_check_message, email_check_status,
    google_oauth_settings, integration_success_url, subscription_price, CalendarRow,
};

#[test]
fn tenant_slug_from_business_name() {
    assert_eq!(tenant_slug("Mi Inmobiliaria S.A."), "mi-inmobiliaria-sa");
    assert_eq!(tenant_slug("Casa  Sur 2"), "casa--sur-2");
    assert_eq!(tenant_slug("Ñandú Propiedades"), "and-propiedades");
    assert_eq!(tenant_slug(""), "");
    for name in ["ABC Corp", "x_y z", "Él & Ella"] {
        assert!(tenant_slug(name).chars().all(|c| c.is_ascii_alphanumeric() || c == '-'));
    }
}

#[test]
fn plans_and_statuses() {
    assert_eq!(validate_plan("BASIC"), Ok("BASIC"));
    assert_eq!(validate_plan("PRO"), Ok("PRO"));
    assert_eq!(validate_plan("pro"), Err(HttpStatus::BadRequest));
    assert_eq!(validate_subscription_status("ACTIVE"), Ok(("ACTIVE", "SUBSCRIPTION_CHANGED")));
    assert_eq!(validate_subscription_status("SUSPENDED"), Ok(("SUSPENDED", "SUBSCRIPTION_SUSPENDED")));
    assert_eq!(validate_subscription_status("CANCELLED"), Ok(("CANCELLED", "SUBSCRIPTION_CANCELLED")));
    assert_eq!(validate_subscription_status("TRIAL"), Err(HttpStatus::BadRequest));
}

#[test]
fn trial_extensions() {
    assert_eq!(trial_extension(Some("2026-12-31"), Some(5)), Ok(TrialExtension::Until("2026-12-31")));
    assert_eq!(trial_extension::<&str>(None, Some(5)), Ok(TrialExtension::DaysFromNow(5)));
    assert_eq!(trial_extension::<&str>(None, None), Err(HttpStatus::BadRequest));
    assert_eq!((TRIAL_DAYS, ONBOARDING_DAYS), (14, 7));
}

#[test]
fn insert_errors() {
    assert_eq!(tenant_insert_error(Some("duplicate key value violates unique constraint \"tenants_cuit_key\"")).0, HttpStatus::Conflict);
    assert_eq!(tenant_insert_error(Some("tenants_slug_key")), (HttpStatus::Conflict, "El nombre de inmobiliaria genera un identificador ya en uso"));
    assert_eq!(tenant_insert_error(Some("timeout")), (HttpStatus::InternalServerError, "Error interno al crear inmobiliaria"));
    assert_eq!(tenant_insert_error(None).0, HttpStatus::InternalServerError);
    assert_eq!(admin_insert_error("users_email_key"), (HttpStatus::Conflict, "El correo electrónico ya está en uso"));
    assert_eq!(admin_insert_error("other"), (HttpStatus::InternalServerError, "Error al crear administrador"));
}

#[test]
fn onboarding() {
    assert_eq!(audit_actor(0), None);
    assert_eq!(audit_actor(7), Some(7));
    assert_eq!(frontend_base(None), "https://inmonea.agentech.ar");
    assert_eq!(frontend_base(Some("http://x".into())), "http://x");
    assert_eq!(onboarding_link("http://x", "t0k"), "http://x/onboarding?token=t0k");
    assert_eq!(onboarding_whatsapp(&None, "Ana", "Casa", "l"), None);
    assert_eq!(onboarding_whatsapp(&Some("  ".into()), "Ana", "Casa", "l"), None);
    let m = onboarding_whatsapp(&Some("+54".into()), "Ana", "Casa", "http://l").unwrap();
    assert!(m.starts_with("¡Hola Ana! Tu inmobiliaria Casa ha sido dada de alta"));
    assert!(m.ends_with("(valido por 7 días):\nhttp://l"));
}

#[test]
fn tenant_status_updates() {
    assert!(tenant_is_active_for("ACTIVE"));
    assert!(!tenant_is_active_for("SUSPENDED"));
    assert_eq!(tenant_status_update_result(0), HttpStatus::NotFound);
    assert_eq!(tenant_status_update_result(1), HttpStatus::NoContent);
}

#[test]
fn revenue_estimate() {
    assert_eq!(estimated_mrr(0, 0), 0);
    assert_eq!(estimated_mrr(2, 1), 75000);
    assert_eq!(estimated_mrr(i64::MAX, i64::MAX), i64::MAX as i128 * 60000);
}

#[test]
fn system_settings_and_checks() {
    assert_eq!(subscription_price(None), "50000");
    assert_eq!(subscription_price(Some("60000".into())), "60000");
    assert_eq!(email_check_message().0, "System Check: Email Provider");
    assert_eq!(email_check_status(true), HttpStatus::Success);
    assert_eq!(email_check_status(false), HttpStatus::InternalServerError);
}

#[test]
fn calendar_integration() {
    assert_eq!(google_oauth_settings(Some("id".into()), None, None), None);
    assert_eq!(
        google_oauth_settings(Some("id".into()), Some("s".into()), None),
        Some(("id".to_string(), "s".to_string(), "http://localhost:3000/api/calendar/google/callback".to_string()))
    );
    assert_eq!(calendar_unconfigured_status(), HttpStatus::ServiceUnavailable);
    let none = calendar_status(None);
    assert!(none.provider.is_none() && none.email.is_none() && !none.active);
    let row = calendar_status(Some(CalendarRow { provider: None, external_email: Some("a@b".into()), active: None }));
    assert_eq!(row.provider, Some(String::new()));
    assert_eq!(row.email, Some("a@b".to_string()));
    assert!(!row.active);
    assert_eq!(integration_success_url(None), "http://localhost:5173/dashboard/settings?integration=success");
}

#[test]
fn tenant_slug_of_ascii_name_lowercases_letters_only() {
    assert_eq!(tenant_slug("ABC Propiedades 24"), "abc-propiedades-24");
    assert_eq!(tenant_slug("X-Y_Z"), "x-yz");
}
