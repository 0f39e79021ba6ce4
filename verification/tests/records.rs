use inmonea_backend::appointments::{assignment_message, notifies_agent, APPOINTMENTS_PAGE_SIZE, CLIENTS_PAGE_SIZE};
use inmonea_backend::dashboard::{activity_entry, activity_title};
use inmonea_backend::documents::{
    document_view_url, storage_path, SupabaseStorage,
};
use inmonea_backend::financials::{liquidation_of, LiquidationRecord};
use inmonea_backend::http::{deletion_status, page_window, repository_error_status, update_status, HttpStatus};
use inmonea_backend::leads::{
    converted_status, creation_note, new_lead_labels, notifies_assignment, portal_lead_labels,
    status_change_note,
};
use inmonea_backend::money::Amount;
use inmonea_backend::properties::{
    apply_property_update, listing_image_links, listing_views, new_property, owner_share,
    property_image_links, property_views, CreatePropertyDto, ImageRow, PropertyResponseDto,
};

fn dto(status: Option<&str>) -> CreatePropertyDto {
    CreatePropertyDto {
        title: "Casa".into(),
        description: None,
        property_type: "CASA".into(),
        operation_type: "VENTA".into(),
        price: Amount::whole(100000),
        currency: Some("USD".into()),
        address: None,
        city: Some("Córdoba".into()),
        province: None,
        square_meters: None,
        bedrooms: Some(3),
        bathrooms: Some(2),
        status: status.map(|s| s.to_string()),
        features: None,
        owners: None,
    }
}

#[test]
fn new_property_defaults_to_available() {
    let p = new_property(5, 6, dto(None));
    assert_eq!(p.id, 5);
    assert_eq!(p.tenant_id, 6);
    assert_eq!(p.status.as_deref(), Some("Disponible"));
    let q = new_property(5, 6, dto(Some("RESERVADA")));
    assert_eq!(q.status.as_deref(), Some("RESERVADA"));
}

#[test]
fn property_update_keeps_identity_and_unset_status() {
    let current = new_property(5, 6, dto(Some("VENDIDA")));
    let mut change = dto(None);
    change.title = "Casa grande".into();
    let p = apply_property_update(current, change);
    assert_eq!((p.id, p.tenant_id), (5, 6));
    assert_eq!(p.title, "Casa grande");
    assert_eq!(p.status.as_deref(), Some("VENDIDA"));
}

#[test]
fn property_response_from_property() {
    let r = PropertyResponseDto::from(new_property(1, 2, dto(None)));
    assert_eq!(r.id, 1);
    assert_eq!(r.title, "Casa");
    assert!(r.views.is_none() && r.images.is_none() && r.owners.is_none());
}

#[test]
fn owner_share_defaults_to_whole() {
    assert_eq!(owner_share(None), Amount::whole(100));
    assert_eq!(owner_share(Some(Amount { mantissa: 505, scale: 1 })), Amount { mantissa: 505, scale: 1 });
}

#[test]
fn view_counts() {
    assert_eq!(listing_views(3, &None), vec![None, None, None]);
    assert_eq!(listing_views(3, &Some(vec![Some(4), None])), vec![Some(4), Some(0), Some(0)]);
    assert_eq!(property_views(None), Some(0));
    assert_eq!(property_views(Some(9)), Some(9));
}

#[test]
fn image_links_per_property() {
    let rows = vec![
        ImageRow { document_id: 11, entity_id: 1 },
        ImageRow { document_id: 12, entity_id: 2 },
        ImageRow { document_id: 13, entity_id: 1 },
    ];
    let links = property_image_links("https://api", 1, &rows).unwrap();
    assert_eq!(
        links,
        vec![
            "https://api/api/documents/00000000-0000-0000-0000-00000000000b/view".to_string(),
            "https://api/api/documents/00000000-0000-0000-0000-00000000000d/view".to_string(),
        ]
    );
    assert_eq!(property_image_links("https://api", 3, &rows), None);
    let page = listing_image_links("x", &vec![2, 3], &rows);
    assert_eq!(page.len(), 2);
    assert_eq!(page[0].as_ref().unwrap().len(), 1);
    assert!(page[1].is_none());
}

#[test]
fn document_storage() {
    assert_eq!(
        storage_path(1, "property", 2, "a.pdf"),
        "00000000-0000-0000-0000-000000000001/property/00000000-0000-0000-0000-000000000002/a.pdf"
    );
    let s = SupabaseStorage::new(Some("https://sb.io".into()), None, None);
    assert_eq!(s.bucket_name, "certificados");
    assert_eq!(s.service_role_key, "");
    assert_eq!(s.upload_sign_endpoint("p/q"), "https://sb.io/storage/v1/object/upload/sign/certificados/p/q");
    assert_eq!(s.download_sign_endpoint("p/q"), "https://sb.io/storage/v1/object/sign/certificados/p/q");
    assert_eq!(s.signed_url(Some("/object/x?token=1".into())), Ok("https://sb.io/storage/v1/object/x?token=1".to_string()));
    assert_eq!(s.signed_url(Some("https://cdn/x".into())), Ok("https://cdn/x".to_string()));
    assert_eq!(s.signed_url(None), Err("No signed URL in response".to_string()));
    assert_eq!(s.signed_upload_url(None, Some("/u".into())), Ok("https://sb.io/storage/v1/u".to_string()));
    assert_eq!(s.signed_upload_url(Some("/a".into()), Some("/b".into())), Ok("https://sb.io/storage/v1/a".to_string()));
    assert_eq!(
        document_view_url("https://api", 255),
        "https://api/api/documents/00000000-0000-0000-0000-0000000000ff/view"
    );
}

#[test]
fn liquidation_nets_the_commission() {
    let rec = LiquidationRecord {
        amount: Amount::whole(1000),
        commission: Some(Amount { mantissa: 1005, scale: 1 }),
        property_title: "Depto".into(),
        owner_name: None,
    };
    let l = liquidation_of(rec).unwrap();
    assert_eq!(l.net_to_transfer, Amount { mantissa: 8995, scale: 1 });
    assert_eq!(l.commission_deducted, Amount { mantissa: 1005, scale: 1 });
    assert_eq!(l.owner_name, "");
    let rec2 = LiquidationRecord { amount: Amount::whole(50), commission: None, property_title: "X".into(), owner_name: Some("Ana".into()) };
    let l2 = liquidation_of(rec2).unwrap();
    assert_eq!(l2.net_to_transfer, Amount::whole(50));
    assert_eq!(l2.commission_deducted, Amount::zero());
    let rec3 = LiquidationRecord { amount: Amount::whole(1), commission: Some(Amount::whole(3)), property_title: "Y".into(), owner_name: None };
    assert_eq!(liquidation_of(rec3).unwrap().net_to_transfer, Amount::whole(-2));
}

#[test]
fn lead_rules() {
    assert_eq!(new_lead_labels(None, None), ("NUEVO".to_string(), "MANUAL".to_string()));
    assert_eq!(new_lead_labels(Some("CONTACTADO".into()), Some("WEB".into())), ("CONTACTADO".to_string(), "WEB".to_string()));
    assert_eq!(creation_note("NUEVO"), "Lead creado en estado NUEVO");
    assert_eq!(status_change_note(&Some("NUEVO".into()), &Some("NUEVO".into())), None);
    assert_eq!(status_change_note(&Some("NUEVO".into()), &Some("VISITA".into())), Some("Estado cambiado a VISITA".to_string()));
    assert_eq!(status_change_note(&None, &Some("VISITA".into())), Some("Estado cambiado a VISITA".to_string()));
    assert_eq!(status_change_note(&Some("NUEVO".into()), &None), None);
    assert!(notifies_assignment(None, Some(1)));
    assert!(notifies_assignment(Some(2), Some(1)));
    assert!(!notifies_assignment(Some(1), Some(1)));
    assert!(!notifies_assignment(Some(1), None));
    assert_eq!(converted_status(), "CERRADO_GANADO");
    assert_eq!(portal_lead_labels(), ("NUEVO", "WEB"));
}

#[test]
fn appointment_rules() {
    assert_eq!(assignment_message("2026-03-01 10:00"), "Se te ha asignado una nueva cita para el 2026-03-01 10:00");
    assert!(notifies_agent(Some(1)));
    assert!(!notifies_agent(None));
    assert_eq!((APPOINTMENTS_PAGE_SIZE, CLIENTS_PAGE_SIZE), (50, 20));
}

#[test]
fn activity_feed() {
    assert_eq!(activity_title("client", "CREATE_CLIENT"), "Nuevo cliente registrado");
    assert_eq!(activity_title("property", "CREATE_PROPERTY"), "Nueva propiedad publicada");
    assert_eq!(activity_title("lead", "DELETE_LEAD"), "Acción DELETE_LEAD en lead");
    let e = activity_entry(1, "LOGIN", None, 1767323045_000000);
    assert_eq!(e.time, "2026-01-02T03:04:05+00:00");
    assert_eq!(e.activity_type, "system");
    assert_eq!(e.title, "Acción LOGIN en system");
    assert_eq!(e.id, "00000000-0000-0000-0000-000000000001");
}

#[test]
fn http_outcomes() {
    assert_eq!(deletion_status(1), HttpStatus::NoContent);
    assert_eq!(deletion_status(0), HttpStatus::NotFound);
    assert_eq!(update_status(0), HttpStatus::NotFound);
    assert_eq!(update_status(2), HttpStatus::Success);
    assert_eq!(repository_error_status(true), HttpStatus::NotFound);
    assert_eq!(repository_error_status(false), HttpStatus::InternalServerError);
    assert_eq!(page_window(None, None, 20), (20, 0));
    assert_eq!(page_window(Some(5), Some(10), 20), (5, 10));
    assert_eq!(HttpStatus::NoContent.code(), 204);
}
