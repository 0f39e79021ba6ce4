//! Appointments and clients: page sizes and assignment notices.
use vstd::prelude::*;
use crate::text::owned;

verus! {

/// A new client as a request describes it.
pub struct CreateClientDto {
    pub first_name: Option<String>,
    pub last_name: Option<String>,
    pub phone: String,
    pub email: Option<String>,
    pub notes: Option<String>,
}

/// Changes to a client; absent fields are kept.
pub struct UpdateClientDto {
    pub first_name: Option<String>,
    pub last_name: Option<String>,
    pub phone: Option<String>,
    pub email: Option<String>,
    pub notes: Option<String>,
}

/// A request to schedule an appointment (`scheduled_at` as the time's text).
pub struct CreateAppointmentDto {
    pub client_id: u128,
    pub property_id: Option<u128>,
    pub user_id: Option<u128>,
    pub scheduled_at: String,
    pub status: Option<String>,
    pub notes: Option<String>,
}

/// Changes to an appointment; absent fields are kept.
pub struct UpdateAppointmentDto {
    pub client_id: Option<u128>,
    pub property_id: Option<u128>,
    pub user_id: Option<u128>,
    pub scheduled_at: Option<String>,
    pub status: Option<String>,
    pub notes: Option<String>,
}

/// Default page size of the appointment listing.
pub const APPOINTMENTS_PAGE_SIZE: i64 = 50;

/// Default page size of the client listing.
pub const CLIENTS_PAGE_SIZE: i64 = 20;

/// Message sent to the agent an appointment is assigned to, with the appointment's time as text.
pub fn assignment_message(scheduled_at: &str) -> (r: String)
    ensures
        r@ == "Se te ha asignado una nueva cita para el "@ + scheduled_at@,
{
    let mut r = owned("Se te ha asignado una nueva cita para el ");
    r.append(scheduled_at);
    r
}

/// A created appointment notifies its agent only when it has one.
pub fn notifies_agent(user_id: Option<u128>) -> (r: bool)
    ensures
        r == user_id is Some,
{
    user_id.is_some()
}

/// Kind, title and text of the notification sent to the agent of a new appointment, or none
/// when the appointment has no agent.
pub fn appointment_notification(user_id: Option<u128>, scheduled_at: &str) -> (r: Option<(&'static str, &'static str, String)>)
    ensures
        user_id is None ==> r is None,
        user_id is Some ==> (r matches Some(n) && n.0@ == "APPOINTMENT_ASSIGNED"@ && n.1@ == "Cita Asignada"@
            && n.2@ == "Se te ha asignado una nueva cita para el "@ + scheduled_at@),
{
    if notifies_agent(user_id) {
        Some(("APPOINTMENT_ASSIGNED", "Cita Asignada", assignment_message(scheduled_at)))
    } else {
        None
    }
}

} // verus!
