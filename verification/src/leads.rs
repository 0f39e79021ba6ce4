//! Leads: default status and source, activity notes and assignment notifications.
use vstd::prelude::*;
use crate::text::{owned, str_eq};

verus! {

/// A request to create a lead for a client, optionally about a property and for an agent.
pub struct CreateLeadDto {
    pub client_id: u128,
    pub property_id: Option<u128>,
    pub status: Option<String>,
    pub source: Option<String>,
    pub assigned_to: Option<u128>,
}

/// Changes to a lead; absent fields are kept.
pub struct UpdateLeadDto {
    pub status: Option<String>,
    pub source: Option<String>,
    pub assigned_to: Option<u128>,
}

/// Status and source recorded for a new lead: those of the request, else `NUEVO` and `MANUAL`.
pub fn new_lead_labels(status: Option<String>, source: Option<String>) -> (r: (String, String))
    ensures
        r.0@ == (match status { Some(s) => s@, None => "NUEVO"@ }),
        r.1@ == (match source { Some(s) => s@, None => "MANUAL"@ }),
{
    let st = match status {
        Some(s) => s,
        None => owned("NUEVO"),
    };
    let so = match source {
        Some(s) => s,
        None => owned("MANUAL"),
    };
    (st, so)
}

/// Activity note recorded when a lead is created.
pub fn creation_note(status: &str) -> (r: String)
    ensures
        r@ == "Lead creado en estado "@ + status@,
{
    let mut r = owned("Lead creado en estado ");
    r.append(status);
    r
}

/// Activity note recorded when an update changes a lead's status: only when the request sets a
/// status that differs from the current one.
pub fn status_change_note(current: &Option<String>, requested: &Option<String>) -> (r: Option<String>)
    ensures
        match requested {
            None => r is None,
            Some(n) => match current {
                Some(c) if c@ == n@ => r is None,
                _ => r matches Some(t) && t@ == "Estado cambiado a "@ + n@,
            },
        },
{
    match requested {
        None => None,
        Some(n) => {
            let same = match current {
                Some(c) => str_eq(c.as_str(), n.as_str()),
                None => false,
            };
            if same {
                None
            } else {
                let mut t = owned("Estado cambiado a ");
                t.append(n.as_str());
                Some(t)
            }
        },
    }
}

/// An update notifies the assignee when it assigns the lead to someone new.
pub fn notifies_assignment(current: Option<u128>, requested: Option<u128>) -> (r: bool)
    ensures
        r == (requested is Some && current != requested),
{
    match requested {
        Some(_) => current != requested,
        None => false,
    }
}

/// Kind, title and text of the notification sent to an agent a lead is assigned to.
pub fn lead_assignment_notification() -> (r: (&'static str, &'static str, &'static str))
    ensures
        r.0@ == "LEAD_ASSIGNED"@,
        r.1@ == "Lead Asignado"@,
        r.2@ == "Se te ha asignado un nuevo lead"@,
{
    ("LEAD_ASSIGNED", "Lead Asignado", "Se te ha asignado un nuevo lead")
}

/// Status that converting a lead gives it.
pub fn converted_status() -> (r: &'static str)
    ensures
        r@ == "CERRADO_GANADO"@,
{
    "CERRADO_GANADO"
}

/// Labels of a lead created through the public portal: status `NUEVO`, source `WEB`.
pub fn portal_lead_labels() -> (r: (&'static str, &'static str))
    ensures
        r.0@ == "NUEVO"@,
        r.1@ == "WEB"@,
{
    ("NUEVO", "WEB")
}

/// Default page size of the lead listing.
pub const LEADS_PAGE_SIZE: i64 = 50;

} // verus!
