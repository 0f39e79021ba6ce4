//! Platform administration: tenants, subscriptions and the administrator's checks.
use vstd::prelude::*;
use crate::http::HttpStatus;
use crate::text::{contains, occurs_in, owned, push_char, replace, replace_all, str_eq, trim, trim_seq};

verus! {

/// A plan change request (`BASIC` or `PRO`).
pub struct ChangePlanDto {
    pub plan_type: String,
}

/// A subscription status change request (`ACTIVE`, `SUSPENDED` or `CANCELLED`).
pub struct SetStatusDto {
    pub status: String,
}

/// A request to register a real-estate agency with its administrator.
pub struct CreateTenantDto {
    pub business_name: String,
    pub cuit: String,
    pub dni_responsable: String,
    pub first_name: String,
    pub last_name: String,
    pub admin_email: String,
    pub phone: Option<String>,
}

/// A tenant status change request.
pub struct UpdateTenantStatusDto {
    pub status: String,
}

/// Roles that the administration endpoints accept.
pub open spec fn is_platform_admin_spec(role: Seq<char>) -> bool {
    role == "super_admin"@ || role == "SUPERADMIN"@
}

/// Whether a session may use the administration endpoints.
pub fn is_platform_admin(role: &str) -> (r: bool)
    ensures
        r == is_platform_admin_spec(role@),
{
    str_eq(role, "super_admin") || str_eq(role, "SUPERADMIN")
}

/// A plan name that the subscriptions accept, or `400`.
pub fn validate_plan(plan: &str) -> (r: Result<&'static str, HttpStatus>)
    ensures
        plan@ == "BASIC"@ ==> (r matches Ok(p) && p@ == "BASIC"@),
        plan@ == "PRO"@ ==> (r matches Ok(p) && p@ == "PRO"@),
        plan@ != "BASIC"@ && plan@ != "PRO"@ ==> r == Err::<&'static str, HttpStatus>(HttpStatus::BadRequest),
{
    if str_eq(plan, "BASIC") {
        Ok("BASIC")
    } else if str_eq(plan, "PRO") {
        Ok("PRO")
    } else {
        Err(HttpStatus::BadRequest)
    }
}

/// A subscription status that may be set, with the audit action it is logged under, or `400`.
pub fn validate_subscription_status(status: &str) -> (r: Result<(&'static str, &'static str), HttpStatus>)
    ensures
        status@ == "ACTIVE"@ ==> (r matches Ok(p) && p.0@ == "ACTIVE"@ && p.1@ == "SUBSCRIPTION_CHANGED"@),
        status@ == "SUSPENDED"@ ==> (r matches Ok(p) && p.0@ == "SUSPENDED"@ && p.1@ == "SUBSCRIPTION_SUSPENDED"@),
        status@ == "CANCELLED"@ ==> (r matches Ok(p) && p.0@ == "CANCELLED"@ && p.1@ == "SUBSCRIPTION_CANCELLED"@),
        status@ != "ACTIVE"@ && status@ != "SUSPENDED"@ && status@ != "CANCELLED"@
            ==> r == Err::<(&'static str, &'static str), HttpStatus>(HttpStatus::BadRequest),
{
    proof {
        reveal_strlit("ACTIVE");
        reveal_strlit("SUSPENDED");
        reveal_strlit("CANCELLED");
        assert("CANCELLED"@[0] != "SUSPENDED"@[0]);
    }
    if str_eq(status, "ACTIVE") {
        Ok(("ACTIVE", "SUBSCRIPTION_CHANGED"))
    } else if str_eq(status, "SUSPENDED") {
        Ok(("SUSPENDED", "SUBSCRIPTION_SUSPENDED"))
    } else if str_eq(status, "CANCELLED") {
        Ok(("CANCELLED", "SUBSCRIPTION_CANCELLED"))
    } else {
        Err(HttpStatus::BadRequest)
    }
}

/// A request to extend a tenant's trial: a new end (milliseconds since the Unix epoch) or a
/// number of days from now.
pub struct ExtendTrialDto {
    pub days_to_add: Option<u32>,
    pub trial_ends_at: Option<i64>,
}

/// A subscription as the administration lists it (`trial_ends_at` in milliseconds since the
/// Unix epoch).
pub struct SubscriptionResponse {
    pub id: u128,
    pub tenant_id: u128,
    pub plan_type: String,
    pub status: String,
    pub trial_ends_at: Option<i64>,
}

/// A stored subscription, whose plan and status may be unreadable.
pub struct SubscriptionRow {
    pub id: u128,
    pub tenant_id: u128,
    pub plan_type: Option<String>,
    pub status: Option<String>,
    pub trial_ends_at: Option<i64>,
}

/// The listing form of a subscription: unreadable plan and status are listed as empty.
pub fn subscription_response(row: SubscriptionRow) -> (r: SubscriptionResponse)
    ensures
        r.id == row.id,
        r.tenant_id == row.tenant_id,
        r.plan_type@ == (match row.plan_type { Some(p) => p@, None => Seq::<char>::empty() }),
        r.status@ == (match row.status { Some(s) => s@, None => Seq::<char>::empty() }),
        r.trial_ends_at == row.trial_ends_at,
{
    SubscriptionResponse {
        id: row.id,
        tenant_id: row.tenant_id,
        plan_type: match row.plan_type {
            Some(p) => p,
            None => String::new(),
        },
        status: match row.status {
            Some(s) => s,
            None => String::new(),
        },
        trial_ends_at: row.trial_ends_at,
    }
}

/// A tenant as the administration lists it (`created_at` in milliseconds since the Unix epoch).
pub struct TenantListItem {
    pub id: u128,
    pub business_name: String,
    pub cuit: String,
    pub phone: Option<String>,
    pub status: Option<String>,
    pub is_active: Option<bool>,
    pub created_at: Option<i64>,
}

/// New end of a trial: the date given, else a number of days from now, else `400`.
#[derive(Debug, PartialEq, Eq)]
pub enum TrialExtension<T> {
    Until(T),
    DaysFromNow(u32),
}

impl ExtendTrialDto {
    /// How this request sets the trial's end.
    pub fn extension(&self) -> (r: Result<TrialExtension<i64>, HttpStatus>)
        ensures
            r == trial_extension_spec(self.trial_ends_at, self.days_to_add),
    {
        trial_extension(self.trial_ends_at, self.days_to_add)
    }
}

/// The trial end that a request asks for.
pub open spec fn trial_extension_spec<T>(trial_ends_at: Option<T>, days_to_add: Option<u32>) -> Result<TrialExtension<T>, HttpStatus> {
    match (trial_ends_at, days_to_add) {
        (Some(d), _) => Ok(TrialExtension::Until(d)),
        (None, Some(n)) => Ok(TrialExtension::DaysFromNow(n)),
        (None, None) => Err(HttpStatus::BadRequest),
    }
}

/// How a trial extension request sets the trial's end.
pub fn trial_extension<T>(trial_ends_at: Option<T>, days_to_add: Option<u32>) -> (r: Result<TrialExtension<T>, HttpStatus>)
    ensures
        r == trial_extension_spec(trial_ends_at, days_to_add),
{
    match trial_ends_at {
        Some(d) => Ok(TrialExtension::Until(d)),
        None => match days_to_add {
            Some(n) => Ok(TrialExtension::DaysFromNow(n)),
            None => Err(HttpStatus::BadRequest),
        },
    }
}

/// Monthly price of the `BASIC` plan used to estimate revenue.
pub const BASIC_PLAN_PRICE: i128 = 15000;

/// Monthly price of the `PRO` plan used to estimate revenue.
pub const PRO_PLAN_PRICE: i128 = 45000;

/// Estimated monthly recurring revenue: each active subscription at its plan's price.
pub fn estimated_mrr(active_basic: i64, active_pro: i64) -> (r: i128)
    ensures
        r == active_basic * BASIC_PLAN_PRICE + active_pro * PRO_PLAN_PRICE,
{
    active_basic as i128 * BASIC_PLAN_PRICE + active_pro as i128 * PRO_PLAN_PRICE
}

/// Days of the free trial of a new tenant.
pub const TRIAL_DAYS: i64 = 14;

/// Days that the onboarding link of a new administrator stays valid.
pub const ONBOARDING_DAYS: i64 = 7;

// ---------------------------------------------------------------------------
// Tenant slug
// ---------------------------------------------------------------------------

/// What std's `str::to_lowercase` makes of a text (Unicode lower-case mapping).
pub uninterp spec fn unicode_lowercase(s: Seq<char>) -> Seq<char>;

/// Lower case of an ASCII character: `A`-`Z` become `a`-`z`, the others stay.
pub open spec fn ascii_lower(c: char) -> char {
    if 'A' <= c && c <= 'Z' {
        ((c as u32) + 32) as char
    } else {
        c
    }
}

/// Lower-case form of a text (std's `str::to_lowercase`); the result is named by
/// `unicode_lowercase`. The contract restates the Unicode lower-case mapping only on ASCII
/// text, where it turns `A`-`Z` into `a`-`z` and keeps every other character.
#[verifier::external_body]
fn to_lowercase(s: &str) -> (r: String)
    ensures
        r@ == unicode_lowercase(s@),
        vstd::utf8::is_ascii_chars(s@) ==> r@ == s@.map_values(|c: char| ascii_lower(c)),
{
    s.to_lowercase()
}

/// Characters kept in a slug: ASCII letters and digits, and `-`.
pub open spec fn is_slug_char(c: char) -> bool {
    ('a' <= c && c <= 'z') || ('A' <= c && c <= 'Z') || ('0' <= c && c <= '9') || c == '-'
}

/// `s` without the characters that may not appear in a slug.
pub open spec fn keep_slug_chars(s: Seq<char>) -> Seq<char>
    decreases s.len(),
{
    if s.len() == 0 {
        seq![]
    } else {
        let rest = keep_slug_chars(s.drop_last());
        if is_slug_char(s.last()) { rest.push(s.last()) } else { rest }
    }
}

/// Slug of a new tenant: its business name in lower case, spaces turned into `-`, and all but
/// ASCII letters, digits and `-` dropped.
pub open spec fn tenant_slug_spec(business_name: Seq<char>) -> Seq<char> {
    keep_slug_chars(replace_all(unicode_lowercase(business_name), " "@, "-"@))
}

/// What is left after dropping the characters that may not appear in a slug holds only slug
/// characters, and is no longer than the text it came from.
pub proof fn lemma_keep_slug_chars(s: Seq<char>)
    ensures
        forall|i: int| 0 <= i < keep_slug_chars(s).len() ==> is_slug_char(#[trigger] keep_slug_chars(s)[i]),
        keep_slug_chars(s).len() <= s.len(),
    decreases s.len(),
{
    if s.len() > 0 {
        lemma_keep_slug_chars(s.drop_last());
    }
}

/// A tenant slug holds only ASCII letters, digits and `-` (so no spaces), and is never longer
/// than the business name after lower-casing and hyphenation.
pub proof fn lemma_tenant_slug_chars(business_name: Seq<char>)
    ensures
        forall|i: int| 0 <= i < tenant_slug_spec(business_name).len()
            ==> is_slug_char(#[trigger] tenant_slug_spec(business_name)[i]),
        tenant_slug_spec(business_name).len() <= replace_all(unicode_lowercase(business_name), " "@, "-"@).len(),
{
    lemma_keep_slug_chars(replace_all(unicode_lowercase(business_name), " "@, "-"@));
}

/// The slug under which a new tenant's portal is served.
pub fn tenant_slug(business_name: &str) -> (r: String)
    ensures
        r@ == tenant_slug_spec(business_name@),
        vstd::utf8::is_ascii_chars(business_name@) ==> r@ == keep_slug_chars(
            replace_all(business_name@.map_values(|c: char| ascii_lower(c)), " "@, "-"@),
        ),
{
    proof {
        reveal_strlit(" ");
    }
    let lower = to_lowercase(business_name);
    let dashed = replace(lower.as_str(), " ", "-");
    let v = crate::text::chars_of(dashed.as_str());
    let mut r = String::new();
    let mut i: usize = 0;
    while i < v.len()
        invariant
            i <= v.len(),
            r@ == keep_slug_chars(v@.take(i as int)),
        decreases v.len() - i,
    {
        assert(v@.take(i + 1).drop_last() =~= v@.take(i as int));
        let c = v[i];
        if ('a' <= c && c <= 'z') || ('A' <= c && c <= 'Z') || ('0' <= c && c <= '9') || c == '-' {
            push_char(&mut r, c);
        }
        i += 1;
    }
    assert(v@.take(v.len() as int) =~= v@);
    r
}

// ---------------------------------------------------------------------------
// Tenant creation
// ---------------------------------------------------------------------------

/// How a refused tenant insert is answered, from the database's message (if the error came from
/// the database): a taken CUIT or slug is a `409`, anything else a `500`.
pub open spec fn tenant_insert_error_spec(db_message: Option<Seq<char>>) -> (HttpStatus, Seq<char>) {
    match db_message {
        Some(m) if occurs_in(m, "tenants_cuit_key"@) || occurs_in(m, "cuit"@) =>
            (HttpStatus::Conflict, "El CUIT ingresado ya está registrado"@),
        Some(m) if occurs_in(m, "tenants_slug_key"@) || occurs_in(m, "slug"@) =>
            (HttpStatus::Conflict, "El nombre de inmobiliaria genera un identificador ya en uso"@),
        _ => (HttpStatus::InternalServerError, "Error interno al crear inmobiliaria"@),
    }
}

/// Status and message of a refused tenant insert.
pub fn tenant_insert_error(db_message: Option<&str>) -> (r: (HttpStatus, &'static str))
    ensures
        r.0 == tenant_insert_error_spec(match db_message { Some(m) => Some(m@), None => None }).0,
        r.1@ == tenant_insert_error_spec(match db_message { Some(m) => Some(m@), None => None }).1,
{
    match db_message {
        Some(m) => {
            if contains(m, "tenants_cuit_key") || contains(m, "cuit") {
                (HttpStatus::Conflict, "El CUIT ingresado ya está registrado")
            } else if contains(m, "tenants_slug_key") || contains(m, "slug") {
                (HttpStatus::Conflict, "El nombre de inmobiliaria genera un identificador ya en uso")
            } else {
                (HttpStatus::InternalServerError, "Error interno al crear inmobiliaria")
            }
        },
        None => (HttpStatus::InternalServerError, "Error interno al crear inmobiliaria"),
    }
}

/// Status and message of a refused insert of the new administrator: a taken address is `409`.
pub fn admin_insert_error(error_text: &str) -> (r: (HttpStatus, &'static str))
    ensures
        occurs_in(error_text@, "users_email_key"@) ==> r.0 == HttpStatus::Conflict && r.1@ == "El correo electrónico ya está en uso"@,
        !occurs_in(error_text@, "users_email_key"@) ==> r.0 == HttpStatus::InternalServerError && r.1@ == "Error al crear administrador"@,
{
    if contains(error_text, "users_email_key") {
        (HttpStatus::Conflict, "El correo electrónico ya está en uso")
    } else {
        (HttpStatus::InternalServerError, "Error al crear administrador")
    }
}

/// The acting user recorded in the audit log: none for the built-in administrator (nil id).
pub fn audit_actor(user_id: u128) -> (r: Option<u128>)
    ensures
        r == (if user_id == 0 { None } else { Some(user_id) }),
{
    if user_id == 0 {
        None
    } else {
        Some(user_id)
    }
}

/// Base URL of the web application, unless configured otherwise.
pub fn frontend_base(configured: Option<String>) -> (r: String)
    ensures
        r@ == (match configured { Some(u) => u@, None => "https://inmonea.agentech.ar"@ }),
{
    match configured {
        Some(u) => u,
        None => owned("https://inmonea.agentech.ar"),
    }
}

/// Link through which a new administrator sets a password.
pub fn onboarding_link(frontend: &str, token: &str) -> (r: String)
    ensures
        r@ == frontend@ + "/onboarding?token="@ + token@,
{
    let mut r = owned(frontend);
    r.append("/onboarding?token=");
    r.append(token);
    r
}

/// The WhatsApp welcome sent to a new administrator: only when a phone that is not blank is known.
pub fn onboarding_whatsapp(phone: &Option<String>, first_name: &str, business_name: &str, link: &str) -> (r: Option<String>)
    ensures
        match phone {
            Some(p) if trim_seq(p@).len() > 0 => r matches Some(m) && m@ == "¡Hola "@ + first_name@
                + "! Tu inmobiliaria "@ + business_name@
                + " ha sido dada de alta exitosamente en nuestra plataforma SaaS.\n\nPara acceder por primera vez y configurar tu contraseña, ingresa al siguiente enlace (valido por 7 días):\n"@
                + link@,
            _ => r is None,
        },
{
    match phone {
        Some(p) => {
            let t = trim(p.as_str());
            if t.as_str().unicode_len() == 0 {
                None
            } else {
                let mut m = owned("¡Hola ");
                m.append(first_name);
                m.append("! Tu inmobiliaria ");
                m.append(business_name);
                m.append(" ha sido dada de alta exitosamente en nuestra plataforma SaaS.\n\nPara acceder por primera vez y configurar tu contraseña, ingresa al siguiente enlace (valido por 7 días):\n");
                m.append(link);
                Some(m)
            }
        },
        None => None,
    }
}

/// Tenant status update: the tenant is active exactly when the new status is `ACTIVE`.
pub fn tenant_is_active_for(status: &str) -> (r: bool)
    ensures
        r == (status@ == "ACTIVE"@),
{
    str_eq(status, "ACTIVE")
}

/// Answer to a tenant status update: `404` when no tenant was changed, else `204`.
pub fn tenant_status_update_result(rows_affected: u64) -> (r: HttpStatus)
    ensures
        r == (if rows_affected == 0 { HttpStatus::NotFound } else { HttpStatus::NoContent }),
{
    if rows_affected == 0 {
        HttpStatus::NotFound
    } else {
        HttpStatus::NoContent
    }
}

} // verus!
