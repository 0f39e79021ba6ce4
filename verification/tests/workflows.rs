use inmonea_backend::appointments::appointment_notification;
use inmonea_backend::contracts::{
    contract_document, contract_html, contract_pdf_disposition, DocumentParticipant, pending_adjustments, ClauseDto, ContractInstallment,
    InstallmentStatus, PendingRecord, PlannedInstallment, TemplateClause,
};
use inmonea_backend::dates::CalendarDate;
use inmonea_backend::documents::CreateUploadUrlDto;
use inmonea_backend::financials::{liquidations, LiquidationRecord};
use inmonea_backend::http::HttpStatus;
use inmonea_backend::leads::lead_assignment_notification;
use inmonea_backend::money::Amount;
use inmonea_backend::public::PublicPropertyFilter;
use inmonea_backend::signatures::{
    request_response, signature_recorded, CreateSignatureRequestDto, SignatureRequestStatus,
    SignatureType,
};
use inmonea_backend::superadmin::{
    subscription_response, ExtendTrialDto, SubscriptionRow, TrialExtension,
};

#[test]
fn pending_adjustment_list() {
    let rec = |id: u128, name: Option<&str>| PendingRecord {
        adjustment_id: id,
        contract_id: id + 100,
        contract_number: format!("C-{}", id),
        tenant_name: name.map(|n| n.to_string()),
        current_rent: Some(Amount::whole(1000)),
        adjustment_percent: Some(Amount { mantissa: 125, scale: 1 }),
        new_rent: Some(Amount::whole(1125)),
        effective_date: Some(CalendarDate { year: 2026, month: 7, day: 1 }),
        created_at: None,
    };
    let r = pending_adjustments(vec![rec(1, Some("Ana Paz")), rec(2, None)]);
    assert_eq!(r.total, 2);
    assert_eq!(r.items.len(), 2);
    assert_eq!(r.items[0].adjustment_id, 1);
    assert_eq!(r.items[0].contract_id, 101);
    assert_eq!(r.items[0].tenant_name, "Ana Paz");
    assert_eq!(r.items[1].tenant_name, "");
    assert_eq!(r.items[1].contract_number, "C-2");
    assert_eq!(pending_adjustments(vec![]).total, 0);
}

#[test]
fn contract_document_html() {
    let html = contract_html("Ana", "Juan", "Calle 1", "2026-01-01", "2028-01-01", "150000.00", "ICL");
    assert!(html.starts_with("\n        <html>\n"));
    assert!(html.contains("contrato de locación entre <strong>Ana</strong> y <strong>Juan</strong>."));
    assert!(html.contains("inmueble sito en <strong>Calle 1</strong>."));
    assert!(html.contains("desde el 2026-01-01 hasta el 2028-01-01. El canon locativo se fija en la suma de <strong>$150000.00</strong> mensuales."));
    assert!(html.contains("bajo el método <strong>ICL</strong>."));
    assert!(html.ends_with("</html>\n        "));
    assert_eq!(
        contract_pdf_disposition(1),
        "attachment; filename=\"contrato_00000000-0000-0000-0000-000000000001.pdf\""
    );
}

#[test]
fn batch_liquidations() {
    let rec = |amount: i64, commission: Option<i64>| LiquidationRecord {
        amount: Amount::whole(amount),
        commission: commission.map(Amount::whole),
        property_title: "P".into(),
        owner_name: Some("Owner".into()),
    };
    let ls = liquidations(vec![rec(1000, Some(100)), rec(500, None)]).unwrap();
    assert_eq!(ls.len(), 2);
    assert_eq!(ls[0].net_to_transfer, Amount::whole(900));
    assert_eq!(ls[1].net_to_transfer, Amount::whole(500));
    assert_eq!(ls[1].owner_name, "Owner");
    let max = Amount { mantissa: 79228162514264337593543950335, scale: 0 };
    let overflow = LiquidationRecord {
        amount: max,
        commission: Some(Amount { mantissa: -79228162514264337593543950335, scale: 0 }),
        property_title: "X".into(),
        owner_name: None,
    };
    assert!(liquidations(vec![rec(1, None), overflow]).is_none());
    assert_eq!(liquidations(vec![]).unwrap().len(), 0);
}

#[test]
fn notifications() {
    assert_eq!(lead_assignment_notification(), ("LEAD_ASSIGNED", "Lead Asignado", "Se te ha asignado un nuevo lead"));
    assert_eq!(appointment_notification(None, "x"), None);
    assert_eq!(
        appointment_notification(Some(5), "2026-05-05 10:00:00 UTC"),
        Some(("APPOINTMENT_ASSIGNED", "Cita Asignada", "Se te ha asignado una nueva cita para el 2026-05-05 10:00:00 UTC".to_string()))
    );
}

#[test]
fn signature_request_reports() {
    let req = CreateSignatureRequestDto {
        participant_id: 4,
        signature_order: 2,
        required_signature: true,
        signature_type: Some(SignatureType::Otp),
    };
    let r = request_response(1, 2, &req, 1700000000000, "abc");
    assert_eq!((r.id, r.contract_id, r.participant_id), (1, 2, 4));
    assert_eq!(r.status, SignatureRequestStatus::Pending);
    assert_eq!(r.signature_order, 2);
    assert!(r.required_signature);
    assert_eq!(r.expires_at, Some(1700000000000));
    assert_eq!(r.link.as_deref(), Some("https://inmonea.agentech.ar/s/abc"));
    let ok = signature_recorded();
    assert!(ok.success);
    assert_eq!(ok.message, "Firma registrada exitosamente");
}

#[test]
fn subscriptions_and_trials() {
    let r = subscription_response(SubscriptionRow { id: 1, tenant_id: 2, plan_type: None, status: Some("TRIAL".into()), trial_ends_at: Some(5) });
    assert_eq!(r.plan_type, "");
    assert_eq!(r.status, "TRIAL");
    assert_eq!(r.trial_ends_at, Some(5));
    assert_eq!(ExtendTrialDto { days_to_add: Some(3), trial_ends_at: Some(99) }.extension(), Ok(TrialExtension::Until(99)));
    assert_eq!(ExtendTrialDto { days_to_add: Some(3), trial_ends_at: None }.extension(), Ok(TrialExtension::DaysFromNow(3)));
    assert_eq!(ExtendTrialDto { days_to_add: None, trial_ends_at: None }.extension(), Err(HttpStatus::BadRequest));
}

#[test]
fn public_listing_paging() {
    let f = PublicPropertyFilter {
        tenant_id: 1,
        operation_type: None,
        property_type: None,
        city: None,
        price_min: None,
        price_max: None,
        bedrooms: None,
        limit: None,
        offset: None,
    };
    assert_eq!(f.listing_window(), (20, 0));
    assert_eq!(f.featured_limit(), 6);
    let g = PublicPropertyFilter { limit: Some(3), offset: Some(9), ..f };
    assert_eq!(g.listing_window(), (3, 9));
    assert_eq!(g.featured_limit(), 3);
}

#[test]
fn upload_paths_and_stored_rows() {
    let dto = CreateUploadUrlDto {
        file_name: "plano.pdf".into(),
        file_size: 10,
        mime_type: "application/pdf".into(),
        entity_type: "property".into(),
        entity_id: 2,
    };
    assert_eq!(
        dto.storage_path(1),
        "00000000-0000-0000-0000-000000000001/property/00000000-0000-0000-0000-000000000002/plano.pdf"
    );
    let clause = ClauseDto { display_order: 3, title: "T".into(), body: "B".into(), is_mandatory: Some(true), is_editable: None, is_system: None };
    let t = TemplateClause::from_dto(1, 2, 3, clause);
    assert_eq!((t.is_mandatory, t.is_editable, t.is_system), (true, true, false));
    assert_eq!(t.display_order, 3);
    let due = CalendarDate { year: 2026, month: 2, day: 10 };
    let i = ContractInstallment::from_plan(7, 8, 9, PlannedInstallment { due_date: due, amount: Amount::whole(5), status: InstallmentStatus::Pending });
    assert_eq!((i.id, i.tenant_id, i.contract_id), (7, 8, 9));
    assert_eq!(i.due_date, due);
    assert_eq!(i.status, InstallmentStatus::Pending);
}

#[test]
fn contract_document_fills_missing_fields() {
    let ps = vec![DocumentParticipant { role: "LANDLORD".into(), name: "Ana".into() }];
    let html = contract_document(&ps, None, Some("2026-01-01".into()), None, "1000.00", None);
    assert_eq!(html, contract_html("Ana", "No especificado", "...", "2026-01-01", "...", "1000.00", "No especificado"));
    let full = contract_document(
        &ps,
        Some("Calle 1".into()),
        Some("2026-01-01".into()),
        Some("2028-01-01".into()),
        "1000.00",
        Some("ICL".into()),
    );
    assert!(full.contains("inmueble sito en <strong>Calle 1</strong>."));
    assert!(full.contains("bajo el método <strong>ICL</strong>."));
}
