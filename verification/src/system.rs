//! Platform settings and checks, and the calendar integration's configuration.
use vstd::prelude::*;
use crate::http::HttpStatus;
use crate::ids::{digits_value, is_hex_digit, is_hyphen_pos, is_hyphenated_text, lemma_uuid_text_shape, parse_uuid, uuid_parse, uuid_text, uuid_text_length, uuid_to_text};
use crate::text::{join, occurs_in, owned, str_eq};
use vstd::utf8::is_ascii_chars;

verus! {

/// Platform settings as the administrator sees them.
pub struct SystemSettingsResponse {
    pub saas_subscription_price: String,
}

/// New platform settings.
pub struct UpdateSystemSettingsDto {
    pub saas_subscription_price: String,
}

/// Only the platform administrator (`super_admin`) may read or change settings.
pub fn settings_access(role: &str) -> (r: Result<(), HttpStatus>)
    ensures
        role@ == "super_admin"@ ==> r is Ok,
        role@ != "super_admin"@ ==> r == Err::<(), HttpStatus>(HttpStatus::Forbidden),
{
    if str_eq(role, "super_admin") {
        Ok(())
    } else {
        Err(HttpStatus::Forbidden)
    }
}

/// The subscription price shown: the stored one, else `50000`.
pub fn subscription_price(stored: Option<String>) -> (r: String)
    ensures
        r@ == (match stored { Some(p) => p@, None => "50000"@ }),
{
    match stored {
        Some(p) => p,
        None => owned("50000"),
    }
}

/// Subject and body of the message that checks the mail provider.
pub fn email_check_message() -> (r: (&'static str, &'static str))
    ensures
        r.0@ == "System Check: Email Provider"@,
        r.1@ == "This is an automated test from the SaaS backend to verify SMTP configuration."@,
{
    ("System Check: Email Provider", "This is an automated test from the SaaS backend to verify SMTP configuration.")
}

/// Status of a mail-provider check: `200` when the message went out, else `500`.
pub fn email_check_status(sent: bool) -> (r: HttpStatus)
    ensures
        r == (if sent { HttpStatus::Success } else { HttpStatus::InternalServerError }),
{
    if sent {
        HttpStatus::Success
    } else {
        HttpStatus::InternalServerError
    }
}

// ---------------------------------------------------------------------------
// Calendar integration
// ---------------------------------------------------------------------------

/// Status of a user's calendar integration.
pub struct CalendarStatusResponse {
    pub provider: Option<String>,
    pub email: Option<String>,
    pub active: bool,
}

/// Parameters of the OAuth callback.
pub struct AuthRequest {
    pub code: String,
    pub state: String,
}

/// Google OAuth client settings: id and secret are required, the redirect has a local default.
pub fn google_oauth_settings(client_id: Option<String>, client_secret: Option<String>, redirect: Option<String>) -> (r: Option<(String, String, String)>)
    ensures
        match (client_id, client_secret) {
            (Some(i), Some(s)) => r matches Some(t) && t.0@ == i@ && t.1@ == s@ && t.2@ == (match redirect {
                Some(u) => u@,
                None => "http://localhost:3000/api/calendar/google/callback"@,
            }),
            _ => r is None,
        },
{
    match client_id {
        Some(i) => match client_secret {
            Some(s) => {
                let u = match redirect {
                    Some(u) => u,
                    None => owned("http://localhost:3000/api/calendar/google/callback"),
                };
                Some((i, s, u))
            },
            None => None,
        },
        None => None,
    }
}

/// Whether url's `Url::parse` accepts a text (what oauth2's `AuthUrl::new` and
/// `RedirectUrl::new` check).
pub uninterp spec fn url_parses(s: Seq<char>) -> bool;

/// Characters that form-urlencoding writes as they are: ASCII letters and digits, `*`, `-`,
/// `.` and `_`.
pub open spec fn is_form_safe(c: char) -> bool {
    ('a' <= c && c <= 'z') || ('A' <= c && c <= 'Z') || ('0' <= c && c <= '9') || c == '*' || c
        == '-' || c == '.' || c == '_'
}

/// Upper-case hexadecimal digit of `n` (0..16).
pub open spec fn hex_upper(n: int) -> char {
    if n < 10 {
        (48 + n) as char
    } else {
        (55 + n) as char
    }
}

/// Form-urlencoding of one ASCII character: kept when safe, `+` for a space, else `%XX`.
pub open spec fn form_encode_char(c: char) -> Seq<char> {
    if is_form_safe(c) {
        seq![c]
    } else if c == ' ' {
        seq!['+']
    } else {
        seq!['%', hex_upper(c as int / 16), hex_upper(c as int % 16)]
    }
}

/// Form-urlencoding (`application/x-www-form-urlencoded`) of an ASCII text.
pub open spec fn form_encoded(s: Seq<char>) -> Seq<char>
    decreases s.len(),
{
    if s.len() == 0 {
        seq![]
    } else {
        form_encoded(s.drop_last()) + form_encode_char(s.last())
    }
}

/// What an OAuth authorization URL shows of its arguments: the client's id right after the
/// response type, and at its end the redirect URI, the scopes (separated by spaces), the state,
/// and the access type and prompt, each form-urlencoded.
pub open spec fn authorization_url_shape(
    u: Seq<char>,
    client_id: Seq<char>,
    redirect: Seq<char>,
    scopes: Seq<Seq<char>>,
    state: Seq<char>,
    access_type: Seq<char>,
    prompt: Seq<char>,
) -> bool {
    &&& occurs_in(u, "response_type=code&client_id="@ + form_encoded(client_id) + "&state="@)
    &&& ("&redirect_uri="@ + form_encoded(redirect) + "&scope="@ + form_encoded(join(scopes, " "@))
        + "&state="@ + form_encoded(state) + "&access_type="@ + form_encoded(access_type)
        + "&prompt="@ + form_encoded(prompt)).is_suffix_of(u)
}

/// The authorization URL of an OAuth client (oauth2's `BasicClient::authorize_url` with a
/// random CSRF token, the given scopes and the extra parameters `state`, `access_type` and
/// `prompt`). It exists exactly when both the endpoint and the redirect URI parse as URLs. Its
/// shape is stated when the endpoint has no fragment and every argument is ASCII; the random
/// CSRF token, and how a URL is written back after parsing, are left unsaid.
#[verifier::external_body]
fn authorization_url(auth_url: &str, client_id: &str, redirect_url: &str, scopes: &Vec<String>, state: &str, access_type: &str, prompt: &str) -> (r: Option<String>)
    requires
        scopes.len() > 0,
    ensures
        r is Some == (url_parses(auth_url@) && url_parses(redirect_url@)),
        r is Some && !auth_url@.contains('#') && is_ascii_chars(client_id@)
            && is_ascii_chars(redirect_url@) && (forall|i: int| 0 <= i < scopes.len() ==> is_ascii_chars(#[trigger] scopes@[i]@))
            && is_ascii_chars(state@) && is_ascii_chars(access_type@) && is_ascii_chars(prompt@)
            ==> authorization_url_shape(r.unwrap()@, client_id@, redirect_url@, scopes@.map_values(|s: String| s@), state@, access_type@, prompt@),
{
    let auth = oauth2::AuthUrl::new(auth_url.to_string()).ok()?;
    let redirect = oauth2::RedirectUrl::new(redirect_url.to_string()).ok()?;
    let client = oauth2::basic::BasicClient::new(oauth2::ClientId::new(client_id.to_string()))
        .set_auth_uri(auth)
        .set_redirect_uri(redirect);
    let (url, _csrf) = client
        .authorize_url(oauth2::CsrfToken::new_random)
        .add_scopes(scopes.iter().cloned().map(oauth2::Scope::new))
        .add_extra_param("state", state.to_string())
        .add_extra_param("access_type", access_type.to_string())
        .add_extra_param("prompt", prompt.to_string())
        .url();
    Some(url.as_str().to_string())
}

/// Google's consent endpoint.
pub open spec fn google_auth_url() -> Seq<char> {
    "https://accounts.google.com/o/oauth2/v2/auth"@
}

/// The scopes asked of Google: the user's calendar and e-mail address.
pub open spec fn google_scopes() -> Seq<Seq<char>> {
    seq!["https://www.googleapis.com/auth/calendar"@, "https://www.googleapis.com/auth/userinfo.email"@]
}

/// A text of form-safe characters is its own form-urlencoding.
pub proof fn lemma_form_safe_unchanged(s: Seq<char>)
    requires
        forall|i: int| 0 <= i < s.len() ==> is_form_safe(#[trigger] s[i]),
    ensures
        form_encoded(s) == s,
    decreases s.len(),
{
    if s.len() > 0 {
        lemma_form_safe_unchanged(s.drop_last());
        assert(s.drop_last().push(s.last()) =~= s);
    }
}

/// The text form of a UUID is ASCII and is its own form-urlencoding.
pub proof fn lemma_uuid_text_form_safe(id: u128)
    ensures
        is_ascii_chars(uuid_text(id)),
        form_encoded(uuid_text(id)) == uuid_text(id),
{
    let t = uuid_text(id);
    lemma_uuid_text_shape(id);
    assert forall|p: int| 0 <= p < t.len() implies is_form_safe(#[trigger] t[p]) && '\0' <= t[p] <= '\u{7f}' by {
        if !is_hyphen_pos(p) {
            let q = crate::ids::digit_index(p);
            assert(crate::ids::digit_pos(q) == p);
            assert(is_hex_digit(t[crate::ids::digit_pos(q)]));
        }
    }
    lemma_form_safe_unchanged(t);
}

/// The Google consent page for user `user_id`, where the user connects a calendar: `503` when
/// the integration is not configured, else the authorization URL, which asks for the calendar
/// and e-mail scopes with offline access and an explicit consent prompt, and carries the user's
/// id as its state. It is `None` when the endpoint or the redirect URI does not parse as a URL.
pub fn google_connect_url(settings: Option<(String, String, String)>, user_id: u128) -> (r: Result<Option<String>, HttpStatus>)
    ensures
        match settings {
            None => r == Err::<Option<String>, HttpStatus>(HttpStatus::ServiceUnavailable),
            Some(t) => r matches Ok(o) && o is Some == (url_parses(google_auth_url()) && url_parses(t.2@))
                && (o matches Some(u) ==> (is_ascii_chars(t.0@) && is_ascii_chars(t.2@) ==> authorization_url_shape(
                u@,
                t.0@,
                t.2@,
                google_scopes(),
                uuid_text(user_id),
                "offline"@,
                "consent"@,
            ))),
        },
{
    match settings {
        None => Err(HttpStatus::ServiceUnavailable),
        Some((client_id, _client_secret, redirect_url)) => {
            let mut scopes: Vec<String> = Vec::new();
            scopes.push(owned("https://www.googleapis.com/auth/calendar"));
            scopes.push(owned("https://www.googleapis.com/auth/userinfo.email"));
            let state = uuid_to_text(user_id);
            let endpoint = "https://accounts.google.com/o/oauth2/v2/auth";
            proof {
                reveal_strlit("https://accounts.google.com/o/oauth2/v2/auth");
                reveal_strlit("https://www.googleapis.com/auth/calendar");
                reveal_strlit("https://www.googleapis.com/auth/userinfo.email");
                reveal_strlit("offline");
                reveal_strlit("consent");
                lemma_uuid_text_form_safe(user_id);
                assert(scopes@.map_values(|s: String| s@) =~= google_scopes());
                assert(!endpoint@.contains('#'));
            }
            let url = authorization_url(
                endpoint,
                client_id.as_str(),
                redirect_url.as_str(),
                &scopes,
                state.as_str(),
                "offline",
                "consent",
            );
            Ok(url)
        },
    }
}

/// The user that the OAuth callback's `state` names (the user's id as `google_connect_url`
/// sent it), or `400` when the state is not a UUID.
pub fn oauth_state_user(state: &str) -> (r: Result<u128, HttpStatus>)
    ensures
        r == (match uuid_parse(state@) {
            Some(u) => Ok::<u128, HttpStatus>(u),
            None => Err(HttpStatus::BadRequest),
        }),
        is_hyphenated_text(state@) ==> r == Ok::<u128, HttpStatus>(digits_value(state@, 32) as u128),
        !uuid_text_length(state@.len()) ==> r == Err::<u128, HttpStatus>(HttpStatus::BadRequest),
        forall|user_id: u128| state@ == #[trigger] uuid_text(user_id) ==> r == Ok::<u128, HttpStatus>(user_id),
{
    let r = match parse_uuid(state) {
        Some(u) => Ok(u),
        None => Err(HttpStatus::BadRequest),
    };
    proof {
        assert forall|user_id: u128| state@ == #[trigger] uuid_text(user_id) implies r == Ok::<u128, HttpStatus>(user_id) by {
            lemma_uuid_text_shape(user_id);
        }
    }
    r
}

/// Status answered when the calendar integration is not configured.
pub fn calendar_unconfigured_status() -> (r: HttpStatus)
    ensures
        r == HttpStatus::ServiceUnavailable,
{
    HttpStatus::ServiceUnavailable
}

/// A stored integration as read back: provider, external address, active flag (each may be unreadable).
pub struct CalendarRow {
    pub provider: Option<String>,
    pub external_email: Option<String>,
    pub active: Option<bool>,
}

/// The integration status of a user: the stored one (an unreadable provider reads as empty, an
/// unreadable flag as inactive), or none at all.
pub fn calendar_status(row: Option<CalendarRow>) -> (r: CalendarStatusResponse)
    ensures
        match row {
            Some(c) => r.provider matches Some(p) && p@ == (match c.provider {
                Some(q) => q@,
                None => Seq::<char>::empty(),
            }) && r.email == c.external_email && r.active == (match c.active {
                Some(a) => a,
                None => false,
            }),
            None => r.provider is None && r.email is None && !r.active,
        },
{
    match row {
        Some(c) => CalendarStatusResponse {
            provider: Some(
                match c.provider {
                    Some(q) => q,
                    None => String::new(),
                },
            ),
            email: c.external_email,
            active: match c.active {
                Some(a) => a,
                None => false,
            },
        },
        None => CalendarStatusResponse { provider: None, email: None, active: false },
    }
}

/// Where the user lands after connecting a calendar.
pub fn integration_success_url(frontend: Option<String>) -> (r: String)
    ensures
        r@ == (match frontend { Some(f) => f@, None => "http://localhost:5173"@ })
            + "/dashboard/settings?integration=success"@,
{
    let mut r = match frontend {
        Some(f) => f,
        None => owned("http://localhost:5173"),
    };
    r.append("/dashboard/settings?integration=success");
    r
}

} // verus!
