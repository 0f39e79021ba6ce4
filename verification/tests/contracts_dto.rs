use inmonea_backend::contracts::{
    AdjustmentFrequency, AdjustmentMethod, AutomationMode, CreateContractDto,
};
use inmonea_backend::dates::{calendar_date, CalendarDate};
use inmonea_backend::money::Amount;
use serde_json::Value;

fn date_of(v: &Value) -> CalendarDate {
    let text = v.as_str().expect("date as text");
    let parts: Vec<&str> = text.split('-').collect();
    assert_eq!(parts.len(), 3, "date {}", text);
    let y: i32 = parts[0].parse().expect("year");
    let m: u32 = parts[1].parse().expect("month");
    let d: u32 = parts[2].parse().expect("day");
    calendar_date(y, m, d).expect("valid date")
}

fn amount_of(v: &Value) -> Amount {
    if let Some(n) = v.as_i64() {
        return Amount::whole(n);
    }
    let text = v.to_string();
    let (int_part, frac_part) = text.split_once('.').expect("decimal number");
    let digits = format!("{}{}", int_part, frac_part);
    Amount { mantissa: digits.parse().expect("mantissa"), scale: frac_part.len() as u32 }
}

fn optional_code<T>(v: Option<&Value>, parse: fn(&str) -> Option<T>, label: &str) -> Option<T> {
    match v {
        None | Some(Value::Null) => None,
        Some(Value::String(s)) => {
            Some(parse(s).unwrap_or_else(|| panic!("FALLO [{}]: unknown value {}", label, s)))
        }
        Some(other) => panic!("FALLO [{}]: not a text value {}", label, other),
    }
}

fn check(json: &str, label: &str) -> CreateContractDto {
    let v: Value = serde_json::from_str(json)
        .unwrap_or_else(|e| panic!("FALLO [{}]: {}\nJSON: {}", label, e, json));
    let property_id = uuid::Uuid::parse_str(v["property_id"].as_str().expect("property_id"))
        .unwrap_or_else(|e| panic!("FALLO [{}]: property_id {}", label, e))
        .as_u128();
    CreateContractDto {
        property_id,
        start_date: date_of(&v["start_date"]),
        end_date: date_of(&v["end_date"]),
        original_rent_amount: amount_of(&v["original_rent_amount"]),
        adjustment_method: optional_code(v.get("adjustment_method"), AdjustmentMethod::from_code, label),
        adjustment_frequency: optional_code(v.get("adjustment_frequency"), AdjustmentFrequency::from_code, label),
        automation_mode: optional_code(v.get("automation_mode"), AutomationMode::from_code, label),
        fixed_percentage: match v.get("fixed_percentage") {
            None | Some(Value::Null) => None,
            Some(x) => Some(amount_of(x)),
        },
        notification_days_before: match v.get("notification_days_before") {
            None | Some(Value::Null) => None,
            Some(x) => Some(x.as_i64().expect("days") as i32),
        },
    }
}

#[test]
fn test_payload_icl_semester_semiautomatic() {
    let dto = check(
        r#"{
        "property_id": "00000000-0000-0000-0000-000000000001",
        "start_date": "2026-06-25",
        "end_date": "2028-06-25",
        "original_rent_amount": 950000,
        "adjustment_method": "ICL",
        "adjustment_frequency": "SEMESTER",
        "automation_mode": "SEMIAUTOMATIC",
        "notification_days_before": 30
    }"#,
        "ICL+SEMESTER+SEMIAUTOMATIC",
    );
    assert_eq!(dto.property_id, 1);
    assert_eq!(dto.adjustment_method, Some(AdjustmentMethod::Icl));
    assert_eq!(dto.adjustment_frequency, Some(AdjustmentFrequency::Semester));
    assert_eq!(dto.automation_mode, Some(AutomationMode::Semiautomatic));
    assert_eq!(dto.original_rent_amount, Amount::whole(950000));
    assert_eq!(dto.notification_days_before, Some(30));
}

#[test]
fn test_payload_ipc_quarterly_semiautomatic() {
    let dto = check(
        r#"{
        "property_id": "00000000-0000-0000-0000-000000000001",
        "start_date": "2026-06-25",
        "end_date": "2028-06-25",
        "original_rent_amount": 150000,
        "adjustment_method": "IPC",
        "adjustment_frequency": "QUARTERLY",
        "automation_mode": "SEMIAUTOMATIC",
        "notification_days_before": 30
    }"#,
        "IPC+QUARTERLY+SEMIAUTOMATIC",
    );
    assert_eq!(dto.adjustment_method, Some(AdjustmentMethod::Ipc));
    assert_eq!(dto.adjustment_frequency, Some(AdjustmentFrequency::Quarterly));
}

#[test]
fn test_payload_fixed_percentage() {
    let dto = check(
        r#"{
        "property_id": "00000000-0000-0000-0000-000000000001",
        "start_date": "2026-06-25",
        "end_date": "2028-06-25",
        "original_rent_amount": 200000,
        "adjustment_method": "FIXED_PERCENTAGE",
        "adjustment_frequency": "ANNUAL",
        "automation_mode": "AUTOMATIC",
        "fixed_percentage": 10.5,
        "notification_days_before": 30
    }"#,
        "FIXED_PERCENTAGE+ANNUAL+AUTOMATIC",
    );
    assert_eq!(dto.adjustment_method, Some(AdjustmentMethod::FixedPercentage));
    assert_eq!(dto.fixed_percentage, Some(Amount { mantissa: 105, scale: 1 }));
}

#[test]
fn test_payload_null_optionals() {
    let dto = check(
        r#"{
        "property_id": "00000000-0000-0000-0000-000000000001",
        "start_date": "2026-06-25",
        "end_date": "2028-06-25",
        "original_rent_amount": 950000,
        "adjustment_method": null,
        "adjustment_frequency": null,
        "automation_mode": null,
        "notification_days_before": null
    }"#,
        "null optionals",
    );
    assert!(dto.adjustment_method.is_none());
    assert!(dto.adjustment_frequency.is_none());
    assert!(dto.automation_mode.is_none());
    assert!(dto.notification_days_before.is_none());
}

#[test]
fn test_enum_all_adjustment_methods() {
    for variant in &["MANUAL", "FIXED_PERCENTAGE", "IPC", "ICL", "CASA_PROPIA", "CUSTOM"] {
        let json = format!(
            r#"{{"property_id":"00000000-0000-0000-0000-000000000001","start_date":"2026-06-25","end_date":"2028-06-25","original_rent_amount":100,"adjustment_method":"{}"}}"#,
            variant
        );
        let dto = check(&json, variant);
        assert_eq!(dto.adjustment_method.unwrap().code(), *variant);
    }
}

#[test]
fn test_enum_all_frequencies() {
    for variant in &["MONTHLY", "BIMONTHLY", "QUARTERLY", "SEMESTER", "ANNUAL"] {
        let json = format!(
            r#"{{"property_id":"00000000-0000-0000-0000-000000000001","start_date":"2026-06-25","end_date":"2028-06-25","original_rent_amount":100,"adjustment_frequency":"{}"}}"#,
            variant
        );
        let dto = check(&json, variant);
        assert_eq!(dto.adjustment_frequency.unwrap().code(), *variant);
    }
}

#[test]
fn test_enum_all_automation_modes() {
    for variant in &["MANUAL", "SEMIAUTOMATIC", "AUTOMATIC"] {
        let json = format!(
            r#"{{"property_id":"00000000-0000-0000-0000-000000000001","start_date":"2026-06-25","end_date":"2028-06-25","original_rent_amount":100,"automation_mode":"{}"}}"#,
            variant
        );
        let dto = check(&json, variant);
        assert_eq!(dto.automation_mode.unwrap().code(), *variant);
    }
}

#[test]
fn unknown_enum_names_are_refused() {
    assert_eq!(AdjustmentMethod::from_code("icl"), None);
    assert_eq!(AdjustmentFrequency::from_code("WEEKLY"), None);
    assert_eq!(AutomationMode::from_code(""), None);
}

#[test]
fn contract_from_payload_has_two_years_of_installments() {
    let dto = check(
        r#"{"property_id":"00000000-0000-0000-0000-000000000001","start_date":"2026-06-25","end_date":"2028-06-25","original_rent_amount":950000}"#,
        "plan",
    );
    let plan = dto.installments().expect("schedule");
    assert_eq!(plan.len(), 24);
    for p in &plan {
        assert_eq!(p.due_date.day, 25);
        assert_eq!(p.amount, Amount::whole(950000));
    }
    assert_eq!(plan[0].due_date, CalendarDate { year: 2026, month: 6, day: 25 });
    assert_eq!(plan[23].due_date, CalendarDate { year: 2028, month: 5, day: 25 });
}
