use inmonea_backend::contracts::{
    classify_contract_error, contract_parties, missing_tenant_error, plan_installments,
    propose_adjustment_status, ClauseDto, DocumentParticipant, InstallmentStatus, ParticipantRole,
};
use inmonea_backend::dates::{calendar_date, installment_due_dates, CalendarDate};
use inmonea_backend::http::HttpStatus;
use inmonea_backend::money::Amount;

fn d(y: i32, m: u32, day: u32) -> CalendarDate {
    calendar_date(y, m, day).expect("valid date")
}

#[test]
fn calendar_date_checks_the_calendar() {
    assert_eq!(calendar_date(2024, 2, 29), Some(CalendarDate { year: 2024, month: 2, day: 29 }));
    assert_eq!(calendar_date(2023, 2, 29), None);
    assert_eq!(calendar_date(1900, 2, 29), None);
    assert_eq!(calendar_date(2000, 2, 29), Some(CalendarDate { year: 2000, month: 2, day: 29 }));
    assert_eq!(calendar_date(2026, 4, 31), None);
    assert_eq!(calendar_date(2026, 13, 1), None);
    assert_eq!(calendar_date(2026, 0, 1), None);
    assert_eq!(calendar_date(2026, 1, 0), None);
    assert_eq!(calendar_date(262143, 1, 1), None);
}

#[test]
fn is_before_orders_dates() {
    assert!(d(2026, 1, 31).is_before(&d(2026, 2, 1)));
    assert!(d(2025, 12, 31).is_before(&d(2026, 1, 1)));
    assert!(!d(2026, 3, 5).is_before(&d(2026, 3, 5)));
    assert!(!d(2026, 3, 6).is_before(&d(2026, 3, 5)));
}

#[test]
fn schedule_late_start_day_is_kept() {
    let s = installment_due_dates(d(2026, 6, 25), d(2028, 6, 25)).unwrap();
    assert_eq!(s.len(), 24);
    assert_eq!(s[0], d(2026, 6, 25));
    assert_eq!(s[6], d(2026, 12, 25));
    assert_eq!(s[7], d(2027, 1, 25));
    assert_eq!(s[23], d(2028, 5, 25));
}

#[test]
fn schedule_early_start_day_falls_due_on_the_tenth() {
    let s = installment_due_dates(d(2026, 1, 5), d(2026, 4, 5)).unwrap();
    assert_eq!(s, vec![d(2026, 1, 10), d(2026, 2, 10), d(2026, 3, 10)]);
}

#[test]
fn schedule_short_months_fall_back_to_the_period_day() {
    let s = installment_due_dates(d(2026, 1, 31), d(2026, 4, 30)).unwrap();
    assert_eq!(s, vec![d(2026, 1, 31), d(2026, 2, 28), d(2026, 3, 31), d(2026, 4, 28)]);
}

#[test]
fn schedule_is_empty_when_the_term_is_empty() {
    assert!(installment_due_dates(d(2026, 6, 1), d(2026, 6, 1)).unwrap().is_empty());
    assert!(installment_due_dates(d(2026, 6, 2), d(2026, 6, 1)).unwrap().is_empty());
}

#[test]
fn schedule_one_day_term_has_one_installment() {
    let s = installment_due_dates(d(2026, 6, 1), d(2026, 6, 2)).unwrap();
    assert_eq!(s, vec![d(2026, 6, 10)]);
}

#[test]
fn schedule_leap_february() {
    let s = installment_due_dates(d(2024, 1, 30), d(2024, 3, 1)).unwrap();
    assert_eq!(s, vec![d(2024, 1, 30), d(2024, 2, 28)]);
}

#[test]
fn schedule_is_increasing_one_month_apart() {
    let s = installment_due_dates(d(2025, 11, 15), d(2027, 3, 1)).unwrap();
    assert_eq!(s.len(), 16);
    for w in s.windows(2) {
        assert!(w[0].is_before(&w[1]));
        let a = w[0].year * 12 + w[0].month as i32;
        let b = w[1].year * 12 + w[1].month as i32;
        assert_eq!(b, a + 1);
    }
}

#[test]
fn schedule_leaving_the_date_range_is_an_error() {
    let r = installment_due_dates(d(262142, 12, 1), d(262142, 12, 31));
    assert!(r.is_err());
    let ok = installment_due_dates(d(262142, 11, 1), d(262142, 11, 30));
    assert_eq!(ok.unwrap(), vec![d(262142, 11, 10)]);
}

#[test]
fn plan_installments_are_pending_for_the_rent() {
    let rent = Amount { mantissa: 15000050, scale: 2 };
    let plan = plan_installments(d(2026, 1, 12), d(2026, 3, 12), rent).unwrap();
    assert_eq!(plan.len(), 2);
    assert_eq!(plan[0].due_date, d(2026, 1, 12));
    assert_eq!(plan[1].due_date, d(2026, 2, 12));
    for p in &plan {
        assert_eq!(p.amount, rent);
        assert_eq!(p.status, InstallmentStatus::Pending);
    }
}

#[test]
fn contract_errors_are_classified() {
    assert_eq!(classify_contract_error("HTTP 409: ya existe"), (HttpStatus::Conflict, "CONFLICT"));
    assert_eq!(
        classify_contract_error("Se requiere al menos un inquilino"),
        (HttpStatus::BadRequest, "VALIDATION_ERROR")
    );
    assert_eq!(
        classify_contract_error("db down"),
        (HttpStatus::InternalServerError, "INTERNAL_ERROR")
    );
    assert_eq!(classify_contract_error(""), (HttpStatus::InternalServerError, "INTERNAL_ERROR"));
    assert_eq!(missing_tenant_error().0, HttpStatus::BadRequest);
    assert_eq!(propose_adjustment_status(), HttpStatus::NotImplemented);
    assert_eq!(HttpStatus::NotImplemented.code(), 501);
}

#[test]
fn clause_flags_default() {
    let c = ClauseDto {
        display_order: 1,
        title: "Objeto".to_string(),
        body: "Se alquila".to_string(),
        is_mandatory: None,
        is_editable: None,
        is_system: None,
    };
    assert_eq!(c.flags(), (false, true, false));
    let c2 = ClauseDto { is_mandatory: Some(true), is_editable: Some(false), is_system: Some(true), ..c };
    assert_eq!(c2.flags(), (true, false, true));
}

#[test]
fn contract_parties_take_the_last_of_each_role() {
    let p = |role: &str, name: &str| DocumentParticipant { role: role.to_string(), name: name.to_string() };
    let ps = vec![p("LANDLORD", "Ana Paz"), p("TENANT", "Juan Sosa"), p("GUARANTOR", "Eva"), p("LANDLORD", "Luis Gil")];
    let (landlord, tenant) = contract_parties(&ps);
    assert_eq!(landlord, "Luis Gil");
    assert_eq!(tenant, "Juan Sosa");
    let (l2, t2) = contract_parties(&vec![p("WITNESS", "X")]);
    assert_eq!(l2, "No especificado");
    assert_eq!(t2, "No especificado");
    assert_eq!(ParticipantRole::Landlord.code(), "LANDLORD");
}
