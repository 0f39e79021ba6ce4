use inmonea_backend::http::HttpStatus;
use inmonea_backend::public::{
    client_ip, counts_as_new_view, extract_slug, is_honeypot_triggered, is_publicly_visible,
    portal_client, portal_config, portal_inquiry_note, public_lead_rate, rate_rejection_status,
    request_host, split_contact_name, tenant_info, CreatePublicLeadDto, PortalTenant, RateDecision,
    PUBLIC_LEAD_LIMIT,
};

#[test]
fn slug_is_the_first_label_of_the_host() {
    assert_eq!(extract_slug("agency.inmonea.com"), "agency");
    assert_eq!(extract_slug("agency.inmonea.com:8080"), "agency");
    assert_eq!(extract_slug("example.com"), "example");
    assert_eq!(extract_slug("single"), "single");
    assert_eq!(extract_slug(""), "");
}

#[test]
fn localhost_serves_the_default_tenant() {
    assert_eq!(extract_slug("localhost"), "inmonea");
    assert_eq!(extract_slug("localhost:3000"), "inmonea");
    assert_eq!(extract_slug("localhost.example"), "localhost");
}

#[test]
fn slug_ignores_the_port() {
    for host in ["a.b.c", "tenant", "x.y"] {
        assert_eq!(extract_slug(&format!("{}:443", host)), extract_slug(host));
    }
}

#[test]
fn request_host_prefers_the_forwarded_host() {
    assert_eq!(request_host(Some("a.com".into()), Some("b.com".into())), "a.com");
    assert_eq!(request_host(None, Some("b.com".into())), "b.com");
    assert_eq!(request_host(None, None), "localhost");
}

#[test]
fn client_ip_fallbacks() {
    assert_eq!(client_ip(Some("1.2.3.4".into()), Some("5.6.7.8".into())), "1.2.3.4");
    assert_eq!(client_ip(None, Some("5.6.7.8".into())), "5.6.7.8");
    assert_eq!(client_ip(None, None), "unknown_ip");
}

#[test]
fn honeypot_only_when_filled() {
    assert!(is_honeypot_triggered(&Some("http://spam".into())));
    assert!(!is_honeypot_triggered(&Some(String::new())));
    assert!(!is_honeypot_triggered(&None));
}

#[test]
fn rate_limit_accepts_three_per_window() {
    assert_eq!(PUBLIC_LEAD_LIMIT, 3);
    assert_eq!(public_lead_rate(0), RateDecision::Accept { start_window: true });
    assert_eq!(public_lead_rate(1), RateDecision::Accept { start_window: false });
    assert_eq!(public_lead_rate(2), RateDecision::Accept { start_window: false });
    assert_eq!(public_lead_rate(3), RateDecision::Reject);
    assert_eq!(public_lead_rate(100), RateDecision::Reject);
    assert_eq!(rate_rejection_status(), HttpStatus::TooManyRequests);
    assert_eq!(rate_rejection_status().code(), 429);
}

#[test]
fn rate_limit_window_simulation() {
    let mut counter: i64 = 0;
    let mut accepted = 0;
    for _ in 0..10 {
        match public_lead_rate(counter) {
            RateDecision::Accept { .. } => {
                accepted += 1;
                counter += 1;
            }
            RateDecision::Reject => {}
        }
    }
    assert_eq!(accepted, 3);
    assert_eq!(counter, 3);
}

#[test]
fn contact_name_is_split_on_whitespace() {
    assert_eq!(split_contact_name("Juan Carlos  Pérez"), ("Juan".to_string(), Some("Carlos Pérez".to_string())));
    assert_eq!(split_contact_name("  Ana  "), ("Ana".to_string(), None));
    assert_eq!(split_contact_name(""), (String::new(), None));
    assert_eq!(split_contact_name("\tLuis\nGil "), ("Luis".to_string(), Some("Gil".to_string())));
}

#[test]
fn portal_client_from_a_contact_form() {
    let form = CreatePublicLeadDto {
        tenant_id: 7,
        property_id: None,
        name: "María José López".into(),
        phone: None,
        email: Some("m@example.com".into()),
        message: Some("Hola".into()),
        website: None,
    };
    let c = portal_client(&form);
    assert_eq!(c.first_name, "María");
    assert_eq!(c.last_name, Some("José López".to_string()));
    assert_eq!(c.phone, "");
    assert_eq!(c.email, Some("m@example.com".to_string()));
    assert_eq!(c.notes, "Cliente ingresado vía Portal Público Web");
}

#[test]
fn inquiry_note_text() {
    assert_eq!(
        portal_inquiry_note("Ana", Some("Me interesa".into())),
        "ORIGIN = PUBLIC_PORTAL\nNombre: Ana\nMensaje: Me interesa"
    );
    assert_eq!(portal_inquiry_note("Ana", None), "ORIGIN = PUBLIC_PORTAL\nNombre: Ana\nMensaje: ");
}

#[test]
fn only_available_properties_are_public() {
    assert!(is_publicly_visible(&Some("DISPONIBLE".into())));
    assert!(!is_publicly_visible(&Some("Disponible".into())));
    assert!(!is_publicly_visible(&Some("VENDIDA".into())));
    assert!(!is_publicly_visible(&None));
}

#[test]
fn views_count_once_per_visitor() {
    assert!(counts_as_new_view(0));
    assert!(!counts_as_new_view(1));
}

#[test]
fn bootstrap_presents_the_tenant() {
    let cfg = portal_config();
    assert!(cfg.allow_contact_form && cfg.allow_whatsapp);
    let info = tenant_info(PortalTenant {
        id: 42,
        business_name: "Casa Sur".into(),
        slug: None,
        phone: Some("+54 11 5555".into()),
        address: Some("Calle 1".into()),
    });
    assert_eq!(info.id, 42);
    assert_eq!(info.name, "Casa Sur");
    assert_eq!(info.slug, "");
    assert_eq!(info.phone, Some("+54 11 5555".to_string()));
    assert_eq!(info.whatsapp, Some("+54 11 5555".to_string()));
    assert_eq!(info.address, Some("Calle 1".to_string()));
    assert!(info.logo_url.is_none() && info.email.is_none());
}

#[test]
fn contact_name_rejoins_to_its_words() {
    for name in ["  Juan   Carlos Pérez ", "Ana", "", " \t ", "a b c d"] {
        let (first, last) = split_contact_name(name);
        let rebuilt = match last {
            Some(l) => format!("{} {}", first, l),
            None => first,
        };
        assert_eq!(rebuilt, name.split_whitespace().collect::<Vec<_>>().join(" "));
    }
}
