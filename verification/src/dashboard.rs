//! Tenant dashboard: counters and the recent-activity feed.
use vstd::prelude::*;
use crate::dates::{instant_text, instant_to_text};
use crate::ids::{uuid_text, uuid_to_text};
use crate::text::{has_prefix, occurs_in, owned, str_eq};

verus! {

/// Number of leads in one status.
pub struct LeadStatusCount {
    pub status: String,
    pub count: i64,
}

/// Number of conversations handled by one agent.
pub struct AgentConversationCount {
    pub agent_name: String,
    pub count: i64,
}

/// Number of won leads in one month (`YYYY-MM`).
pub struct MonthlyConversion {
    pub month: String,
    pub count: i64,
}

/// The tenant dashboard's counters and chart series.
pub struct DashboardStats {
    pub total_clients: i64,
    pub total_properties: i64,
    pub new_leads: i64,
    pub upcoming_appointments: i64,
    pub active_whatsapp_conversations: i64,
    pub leads_this_month: i64,
    pub conversions_this_month: i64,
    pub leads_by_status: Vec<LeadStatusCount>,
    pub conversations_by_agent: Vec<AgentConversationCount>,
    pub conversions_by_month: Vec<MonthlyConversion>,
}

/// One entry of the activity feed; `activity_type` is the entity type (`lead`, `client`, ...).
pub struct DashboardActivity {
    pub id: String,
    pub title: String,
    pub time: String,
    pub activity_type: String,
}

/// Title of an audit entry in the activity feed.
pub open spec fn activity_title_spec(entity_type: Seq<char>, action: Seq<char>) -> Seq<char> {
    if entity_type == "client"@ && action == "CREATE_CLIENT"@ {
        "Nuevo cliente registrado"@
    } else if entity_type == "client"@ && action == "UPDATE_CLIENT"@ {
        "Cliente actualizado"@
    } else if entity_type == "lead"@ && action == "CREATE_LEAD"@ {
        "Nuevo lead recibido"@
    } else if entity_type == "appointment"@ && action == "CREATE_APPOINTMENT"@ {
        "Nueva cita agendada"@
    } else if entity_type == "property"@ && action == "CREATE_PROPERTY"@ {
        "Nueva propiedad publicada"@
    } else {
        "Acción "@ + action + " en "@ + entity_type
    }
}

/// The audit entries that the feed titles in words: creating or updating a client, and
/// creating a lead, an appointment or a property.
pub open spec fn is_titled_activity(entity_type: Seq<char>, action: Seq<char>) -> bool {
    ||| entity_type == "client"@ && action == "CREATE_CLIENT"@
    ||| entity_type == "client"@ && action == "UPDATE_CLIENT"@
    ||| entity_type == "lead"@ && action == "CREATE_LEAD"@
    ||| entity_type == "appointment"@ && action == "CREATE_APPOINTMENT"@
    ||| entity_type == "property"@ && action == "CREATE_PROPERTY"@
}

/// The word by which a titled entry names its kind of record.
pub open spec fn entity_word(entity_type: Seq<char>) -> Seq<char> {
    if entity_type == "client"@ {
        "liente"@
    } else if entity_type == "lead"@ {
        "lead"@
    } else if entity_type == "appointment"@ {
        "cita"@
    } else {
        "propiedad"@
    }
}

/// A titled entry's title names its kind of record (a client's title speaks of the client, a
/// lead's of the lead, an appointment's of the appointment, a property's of the property), and
/// it announces something new (`Nuevo`/`Nueva`) exactly when the action creates the record.
pub proof fn lemma_activity_title_names_entity(entity_type: Seq<char>, action: Seq<char>)
    requires
        is_titled_activity(entity_type, action),
    ensures
        occurs_in(activity_title_spec(entity_type, action), entity_word(entity_type)),
        has_prefix(action, "CREATE_"@) == has_prefix(activity_title_spec(entity_type, action), "Nuev"@),
{
    reveal_strlit("client");
    reveal_strlit("lead");
    reveal_strlit("appointment");
    reveal_strlit("property");
    reveal_strlit("CREATE_CLIENT");
    reveal_strlit("UPDATE_CLIENT");
    reveal_strlit("CREATE_LEAD");
    reveal_strlit("CREATE_APPOINTMENT");
    reveal_strlit("CREATE_PROPERTY");
    reveal_strlit("Nuevo cliente registrado");
    reveal_strlit("Cliente actualizado");
    reveal_strlit("Nuevo lead recibido");
    reveal_strlit("Nueva cita agendada");
    reveal_strlit("Nueva propiedad publicada");
    reveal_strlit("Acción ");
    reveal_strlit(" en ");
    reveal_strlit("liente");
    reveal_strlit("cita");
    assert("client"@.len() == 6 && "lead"@.len() == 4 && "appointment"@.len() == 11 && "property"@.len() == 8);
    assert("CREATE_CLIENT"@.len() == 13 && "UPDATE_CLIENT"@.len() == 13 && "CREATE_CLIENT"@[0] != "UPDATE_CLIENT"@[0]);
    reveal_strlit("propiedad");
    reveal_strlit("Nuev");
    reveal_strlit("CREATE_");
    let t = activity_title_spec(entity_type, action);
    let w = entity_word(entity_type);
    if entity_type == "client"@ && action == "CREATE_CLIENT"@ {
        assert("Nuevo cliente registrado"@.skip(7).take(6) =~= "liente"@);
        assert(has_prefix(t.skip(7), w));
    } else if entity_type == "client"@ {
        assert(action == "UPDATE_CLIENT"@);
        assert(t == "Cliente actualizado"@);
        assert(w == "liente"@);
        assert("Cliente actualizado"@.skip(1).take(6) =~= "liente"@);
        assert(has_prefix(t.skip(1), w));
    } else if entity_type == "lead"@ {
        assert("Nuevo lead recibido"@.skip(6).take(4) =~= "lead"@);
        assert(has_prefix(t.skip(6), w));
    } else if entity_type == "appointment"@ {
        assert("appointment"@ != "client"@ && "appointment"@ != "lead"@);
        assert(t == "Nueva cita agendada"@);
        assert(w == "cita"@);
        assert("Nueva cita agendada"@.skip(6).take(4) =~= "cita"@);
        assert(has_prefix(t.skip(6), w));
    } else {
        assert("Nueva propiedad publicada"@.skip(6).take(9) =~= "propiedad"@);
        assert(has_prefix(t.skip(6), w));
    }
    if entity_type == "client"@ && action == "UPDATE_CLIENT"@ {
        assert(action.take(7)[0] == 'U');
        assert(t.take(4)[0] == 'C');
    } else {
        assert(action.take(7) =~= "CREATE_"@);
        assert(t.take(4) =~= "Nuev"@);
    }
}

/// Distinct titled entries get distinct titles, and no titled entry's title can be taken for
/// the generic title (`Acción <action> en <entity>`) of any other entry.
pub proof fn lemma_activity_titles_distinct(e1: Seq<char>, a1: Seq<char>, e2: Seq<char>, a2: Seq<char>)
    requires
        is_titled_activity(e1, a1),
        (e1, a1) != (e2, a2),
    ensures
        activity_title_spec(e1, a1) != activity_title_spec(e2, a2),
        !has_prefix(activity_title_spec(e1, a1), "Acción "@),
{
    reveal_strlit("client");
    reveal_strlit("lead");
    reveal_strlit("appointment");
    reveal_strlit("property");
    reveal_strlit("CREATE_CLIENT");
    reveal_strlit("UPDATE_CLIENT");
    reveal_strlit("CREATE_LEAD");
    reveal_strlit("CREATE_APPOINTMENT");
    reveal_strlit("CREATE_PROPERTY");
    reveal_strlit("Nuevo cliente registrado");
    reveal_strlit("Cliente actualizado");
    reveal_strlit("Nuevo lead recibido");
    reveal_strlit("Nueva cita agendada");
    reveal_strlit("Nueva propiedad publicada");
    reveal_strlit("Acción ");
    reveal_strlit(" en ");
    let t1 = activity_title_spec(e1, a1);
    let t2 = activity_title_spec(e2, a2);
    assert(t1[0] != 'A');
    assert(!has_prefix(t1, "Acción "@)) by {
        if has_prefix(t1, "Acción "@) {
            assert(t1.take(7)[0] == t1[0]);
        }
    }
    if !is_titled_activity(e2, a2) {
        assert(t2.take(7) =~= "Acción "@);
        assert(t1.take(7) != t2.take(7));
    } else {
        assert(t1.len() != t2.len() || t1[0] != t2[0] || t1[4] != t2[4] || t1[6] != t2[6]);
    }
}

/// Title shown for an audit entry.
pub fn activity_title(entity_type: &str, action: &str) -> (r: String)
    ensures
        r@ == activity_title_spec(entity_type@, action@),
{
    if str_eq(entity_type, "client") && str_eq(action, "CREATE_CLIENT") {
        owned("Nuevo cliente registrado")
    } else if str_eq(entity_type, "client") && str_eq(action, "UPDATE_CLIENT") {
        owned("Cliente actualizado")
    } else if str_eq(entity_type, "lead") && str_eq(action, "CREATE_LEAD") {
        owned("Nuevo lead recibido")
    } else if str_eq(entity_type, "appointment") && str_eq(action, "CREATE_APPOINTMENT") {
        owned("Nueva cita agendada")
    } else if str_eq(entity_type, "property") && str_eq(action, "CREATE_PROPERTY") {
        owned("Nueva propiedad publicada")
    } else {
        let mut r = owned("Acción ");
        r.append(action);
        r.append(" en ");
        r.append(entity_type);
        r
    }
}

/// The feed entry of an audit record: id, action, entity type if any, and the time it was
/// recorded (microseconds since the Unix epoch), written as RFC 3339 text.
pub fn activity_entry(id: u128, action: &str, entity_type: Option<String>, time: i64) -> (r: DashboardActivity)
    ensures
        r.id@ == uuid_text(id),
        r.activity_type@ == (match entity_type { Some(e) => e@, None => "system"@ }),
        r.title@ == activity_title_spec(r.activity_type@, action@),
        r.time@ == instant_text(time),
{
    let e_type = match entity_type {
        Some(e) => e,
        None => owned("system"),
    };
    let title = activity_title(e_type.as_str(), action);
    DashboardActivity { id: uuid_to_text(id), title, time: instant_to_text(time), activity_type: e_type }
}

/// Number of audit entries shown in the activity feed.
pub const ACTIVITY_FEED_SIZE: i64 = 10;

} // verus!
