use inmonea_backend::http::HttpStatus;
use inmonea_backend::payments::{
    invoice_from_reference, is_payment_notification, missing_payment_id_status, payment_id_text,
    rent_reference, resolve_external_reference, settles_invoice, subscription_reference,
    NotificationId,
};

const ID: u128 = 0x67e5504410b1426f9247bb680e5fe0c8;

#[test]
fn uuid_text_is_hyphenated_lower_case() {
    assert_eq!(rent_reference(ID), "RENT_67e55044-10b1-426f-9247-bb680e5fe0c8");
    assert_eq!(rent_reference(0), "RENT_00000000-0000-0000-0000-000000000000");
    assert_eq!(rent_reference(u128::MAX), "RENT_ffffffff-ffff-ffff-ffff-ffffffffffff");
}

#[test]
fn uuid_text_parses_back() {
    assert_eq!(invoice_from_reference("67E55044-10B1-426F-9247-BB680E5FE0C8"), Some(ID));
    assert_eq!(invoice_from_reference("67e5504410b1426f9247bb680e5fe0c8"), Some(ID));
    assert_eq!(invoice_from_reference("RENT_not-a-uuid"), None);
    assert_eq!(invoice_from_reference(""), None);
}

#[test]
fn checkout_references() {
    assert_eq!(subscription_reference(ID), "SUBSCRIPTION_67e55044-10b1-426f-9247-bb680e5fe0c8");
    assert_eq!(rent_reference(ID), "RENT_67e55044-10b1-426f-9247-bb680e5fe0c8");
}

#[test]
fn rent_reference_leads_back_to_the_invoice() {
    for id in [0u128, 1, ID, u128::MAX] {
        assert_eq!(invoice_from_reference(&rent_reference(id)), Some(id));
    }
    assert_eq!(invoice_from_reference("67e55044-10b1-426f-9247-bb680e5fe0c8"), Some(ID));
    assert_eq!(invoice_from_reference(&subscription_reference(ID)), None);
    assert_eq!(invoice_from_reference("12345"), None);
}

#[test]
fn payment_notifications() {
    assert!(is_payment_notification("payment.created", ""));
    assert!(is_payment_notification("payment.updated", "x"));
    assert!(is_payment_notification("", "payment"));
    assert!(!is_payment_notification("merchant_order", "topic"));
}

#[test]
fn payment_ids() {
    assert_eq!(payment_id_text(NotificationId::Text("abc".into())), Some("abc".to_string()));
    assert_eq!(payment_id_text(NotificationId::Number(0)), Some("0".to_string()));
    assert_eq!(payment_id_text(NotificationId::Number(123456789012)), Some("123456789012".to_string()));
    assert_eq!(payment_id_text(NotificationId::Number(u64::MAX)), Some(u64::MAX.to_string()));
    assert_eq!(payment_id_text(NotificationId::Absent), None);
    assert_eq!(missing_payment_id_status(), HttpStatus::BadRequest);
}

#[test]
fn external_reference_resolution() {
    assert_eq!(resolve_external_reference(Some("RENT_x".into()), Some("other".into()), "99"), "RENT_x");
    assert_eq!(resolve_external_reference(Some(String::new()), Some("other".into()), "99"), "");
    assert_eq!(resolve_external_reference(None, Some("payload".into()), "99"), "payload");
    assert_eq!(resolve_external_reference(None, Some(String::new()), "99"), "99");
    assert_eq!(resolve_external_reference(None, None, "99"), "99");
}

#[test]
fn paid_invoices_are_not_settled_again() {
    assert!(settles_invoice("PENDING"));
    assert!(settles_invoice("OVERDUE"));
    assert!(!settles_invoice("PAID"));
}

#[test]
fn subscription_references_name_no_invoice() {
    for id in [0u128, 1, ID, u128::MAX, 0xabcdef] {
        assert_eq!(invoice_from_reference(&subscription_reference(id)), None);
        assert_eq!(invoice_from_reference(&rent_reference(id)), Some(id));
    }
}
