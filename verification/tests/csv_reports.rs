use inmonea_backend::money::Amount;
use inmonea_backend::reports::{
    activity_report, client_name, clients_report, leads_report, properties_report, ActivityRow,
    ClientRow, LeadRow, PropertyRow, ReportKind,
};

fn text(bytes: Vec<u8>) -> String {
    String::from_utf8(bytes).expect("utf-8")
}

#[test]
fn report_names_and_headers() {
    assert_eq!(ReportKind::Leads.name(), "leads");
    assert_eq!(ReportKind::Whatsapp.content_disposition(), "attachment; filename=\"whatsapp_report.csv\"");
    assert_eq!(ReportKind::Properties.header(), vec!["ID", "Title", "Type", "Price", "Status", "Created At"]);
    assert_eq!(ReportKind::Appointments.header(), vec!["ID", "Status", "Scheduled At", "Created At", "Assigned To"]);
}

#[test]
fn empty_leads_report_is_the_header() {
    assert_eq!(text(leads_report(&vec![])), "ID,Status,Source,Created At,Assigned To\n");
}

#[test]
fn leads_report_rows() {
    let rows = vec![
        LeadRow {
            id: 1,
            status: Some("NUEVO".into()),
            source: Some("WEB".into()),
            created_at: Some(1767323045_000000),
            assigned_to: None,
        },
        LeadRow { id: 2, status: None, source: None, created_at: None, assigned_to: Some(3) },
    ];
    assert_eq!(
        text(leads_report(&rows)),
        "ID,Status,Source,Created At,Assigned To\n\
         00000000-0000-0000-0000-000000000001,NUEVO,WEB,2026-01-02T03:04:05+00:00,\n\
         00000000-0000-0000-0000-000000000002,,,,00000000-0000-0000-0000-000000000003\n"
    );
}

#[test]
fn conversation_report_rows() {
    let rows = vec![ActivityRow {
        id: 10,
        status: Some("OPEN".into()),
        first_time: Some(1767323045_123456),
        second_time: None,
        assigned_to: None,
    }];
    assert_eq!(
        text(activity_report(ReportKind::Whatsapp, &rows)),
        "ID,Status,Created At,Last Message At,Assigned To\n00000000-0000-0000-0000-00000000000a,OPEN,2026-01-02T03:04:05.123456+00:00,,\n"
    );
}

#[test]
fn fields_with_delimiters_or_quotes_are_quoted() {
    let clients = vec![ClientRow {
        id: 2,
        first_name: Some("Ana".into()),
        last_name: None,
        email: None,
        phone: "+54 9, 11".into(),
        created_at: None,
    }];
    assert_eq!(
        text(clients_report(&clients)),
        "ID,Name,Email,Phone,Created At\n00000000-0000-0000-0000-000000000002,Ana,,\"+54 9, 11\",\n"
    );
    let props = vec![PropertyRow {
        id: 3,
        title: "Depto \"Centro\"\nPB".into(),
        property_type: "DEPARTAMENTO".into(),
        price: Amount { mantissa: 1500050, scale: 2 },
        status: None,
        created_at: None,
    }];
    assert_eq!(
        text(properties_report(&props)),
        "ID,Title,Type,Price,Status,Created At\n00000000-0000-0000-0000-000000000003,\"Depto \"\"Centro\"\"\nPB\",DEPARTAMENTO,15000.50,,\n"
    );
}

#[test]
fn client_display_names() {
    assert_eq!(client_name(&Some("Ana".into()), &Some("Paz".into())), "Ana Paz");
    assert_eq!(client_name(&None, &Some("Paz".into())), "Paz");
    assert_eq!(client_name(&None, &None), "");
}

#[test]
fn one_line_per_record() {
    let rows: Vec<LeadRow> = (0..7)
        .map(|i| LeadRow {
            id: i,
            status: Some(format!("S,{}", i)),
            source: Some("say \"hi\"".into()),
            created_at: None,
            assigned_to: if i % 2 == 0 { Some(i) } else { None },
        })
        .collect();
    let out = text(leads_report(&rows));
    assert_eq!(out.matches('\n').count(), 8);
}

#[test]
fn prices_and_times_as_written() {
    let row = |price: Amount, created_at: Option<i64>| PropertyRow {
        id: 1,
        title: "T".into(),
        property_type: "X".into(),
        price,
        status: None,
        created_at,
    };
    let rows = vec![
        row(Amount { mantissa: 5, scale: 3 }, Some(0)),
        row(Amount { mantissa: 0, scale: 2 }, None),
        row(Amount { mantissa: -123, scale: 1 }, None),
        row(Amount { mantissa: 0, scale: 0 }, None),
        row(Amount { mantissa: -5, scale: 0 }, Some(1500)),
    ];
    let out = text(properties_report(&rows));
    let lines: Vec<&str> = out.lines().collect();
    let id = "00000000-0000-0000-0000-000000000001";
    assert_eq!(lines[1], format!("{},T,X,0.005,,1970-01-01T00:00:00+00:00", id));
    assert_eq!(lines[2], format!("{},T,X,0.00,,", id));
    assert_eq!(lines[3], format!("{},T,X,-12.3,,", id));
    assert_eq!(lines[4], format!("{},T,X,0,,", id));
    assert_eq!(lines[5], format!("{},T,X,-5,,1970-01-01T00:00:00.001500+00:00", id));
}
