//! Public portal: tenant resolution from the host name, contact form handling, view tracking.
use vstd::prelude::*;
use crate::http::{page_window, HttpStatus};
use crate::money::Amount;
use crate::text::{lemma_words_nonempty, opt_view, chars_of, join, join_from, owned, split_whitespace, str_eq, string_of, words};

verus! {

/// Length of the leading run of `s` that holds no `c`.
pub open spec fn segment_len(s: Seq<char>, c: char) -> nat
    decreases s.len(),
{
    if s.len() > 0 && s[0] != c {
        1 + segment_len(s.skip(1), c)
    } else {
        0
    }
}

/// The part of `s` before the first `c` (all of `s` when there is none).
pub open spec fn first_segment(s: Seq<char>, c: char) -> Seq<char> {
    s.take(segment_len(s, c) as int)
}

proof fn lemma_segment_len_exact(s: Seq<char>, c: char, m: int)
    requires
        0 <= m <= s.len(),
        forall|k: int| 0 <= k < m ==> #[trigger] s[k] != c,
        m == s.len() || s[m] == c,
    ensures
        segment_len(s, c) == m,
    decreases m,
{
    if m > 0 {
        lemma_segment_len_exact(s.skip(1), c, m - 1);
    }
}

/// The part of `v` before the first `c`.
fn first_segment_of(v: &Vec<char>, c: char) -> (r: Vec<char>)
    ensures
        r@ == first_segment(v@, c),
{
    let mut r: Vec<char> = Vec::new();
    let mut i: usize = 0;
    while i < v.len() && v[i] != c
        invariant
            i <= v.len(),
            r@ == v@.take(i as int),
            forall|k: int| 0 <= k < i ==> #[trigger] v@[k] != c,
        decreases v.len() - i,
    {
        r.push(v[i]);
        assert(r@ =~= v@.take(i + 1));
        i += 1;
    }
    proof {
        lemma_segment_len_exact(v@, c, i as int);
    }
    r
}

/// The tenant slug that a request's host name designates: the first label of the host without
/// its port, and `inmonea` for `localhost`.
pub open spec fn tenant_slug(host: Seq<char>) -> Seq<char> {
    let name = first_segment(host, ':');
    if name == "localhost"@ {
        "inmonea"@
    } else {
        first_segment(name, '.')
    }
}

/// Slug of the tenant whose portal the host name `host` serves.
pub fn extract_slug(host: &str) -> (r: String)
    ensures
        r@ == tenant_slug(host@),
{
    let v = chars_of(host);
    let name = first_segment_of(&v, ':');
    let name_s = string_of(&name);
    if str_eq(name_s.as_str(), "localhost") {
        owned("inmonea")
    } else {
        let label = first_segment_of(&name, '.');
        string_of(&label)
    }
}

/// The port of a host name does not change the tenant it designates: `name:port` and `name`
/// give the same slug.
pub proof fn lemma_slug_ignores_port(name: Seq<char>, port: Seq<char>)
    requires
        !name.contains(':'),
    ensures
        tenant_slug(name + seq![':'] + port) == tenant_slug(name),
{
    let s = name + seq![':'] + port;
    assert forall|k: int| 0 <= k < name.len() implies #[trigger] s[k] != ':' by {
        assert(s[k] == name[k]);
    }
    assert(s[name.len() as int] == ':');
    lemma_segment_len_exact(s, ':', name.len() as int);
    assert forall|k: int| 0 <= k < name.len() implies #[trigger] name[k] != ':' by {}
    lemma_segment_len_exact(name, ':', name.len() as int);
    assert(s.take(name.len() as int) =~= name);
    assert(name.take(name.len() as int) =~= name);
}

/// The slug of a host is its first label, kept whole: for a label holding neither `.` nor `:`
/// (other than `localhost`), the host `label` and every host `label.<domain>` give `label`.
pub proof fn lemma_slug_is_first_label(label: Seq<char>, domain: Seq<char>)
    requires
        !label.contains('.'),
        !label.contains(':'),
        !domain.contains(':'),
        label != "localhost"@,
    ensures
        tenant_slug(label) == label,
        tenant_slug(label + seq!['.'] + domain) == label,
{
    reveal_strlit("localhost");
    let n = label.len() as int;
    assert forall|k: int| 0 <= k < n implies #[trigger] label[k] != ':' && label[k] != '.' by {
        if label[k] == ':' {
            assert(label.contains(':'));
        }
        if label[k] == '.' {
            assert(label.contains('.'));
        }
    }
    lemma_segment_len_exact(label, ':', n);
    assert(label.take(n) =~= label);
    lemma_segment_len_exact(label, '.', n);
    let h = label + seq!['.'] + domain;
    let m = h.len() as int;
    assert forall|k: int| 0 <= k < m implies #[trigger] h[k] != ':' by {
        if k < n {
            assert(h[k] == label[k]);
        } else if k > n {
            assert(h[k] == domain[k - n - 1]);
            if domain[k - n - 1] == ':' {
                assert(domain.contains(':'));
            }
        }
    }
    lemma_segment_len_exact(h, ':', m);
    assert(h.take(m) =~= h);
    assert(h != "localhost"@) by {
        if h == "localhost"@ {
            assert(h[n] == '.');
            assert("localhost"@[n] != '.');
        }
    }
    assert forall|k: int| 0 <= k < n implies #[trigger] h[k] != '.' by {
        assert(h[k] == label[k]);
    }
    lemma_segment_len_exact(h, '.', n);
    assert(h.take(n) =~= label);
}

/// The portal host of a tenant leads back to it: the slug that a new tenant gets from its
/// business name, as the first label of a host on any domain, is read back whole (unless the
/// slug is `localhost`, which names the platform's own portal).
pub proof fn lemma_portal_host_names_tenant(business_name: Seq<char>, domain: Seq<char>)
    requires
        !domain.contains(':'),
        crate::superadmin::tenant_slug_spec(business_name) != "localhost"@,
    ensures
        tenant_slug(crate::superadmin::tenant_slug_spec(business_name) + seq!['.'] + domain)
            == crate::superadmin::tenant_slug_spec(business_name),
{
    let slug = crate::superadmin::tenant_slug_spec(business_name);
    crate::superadmin::lemma_keep_slug_chars(
        crate::text::replace_all(crate::superadmin::unicode_lowercase(business_name), " "@, "-"@),
    );
    assert(!slug.contains('.')) by {
        if slug.contains('.') {
            let k = choose|k: int| 0 <= k < slug.len() && slug[k] == '.';
            assert(crate::superadmin::is_slug_char(slug[k]));
        }
    }
    assert(!slug.contains(':')) by {
        if slug.contains(':') {
            let k = choose|k: int| 0 <= k < slug.len() && slug[k] == ':';
            assert(crate::superadmin::is_slug_char(slug[k]));
        }
    }
    lemma_slug_is_first_label(slug, domain);
}

/// The host a request was addressed to: the forwarded host, else the `Host` header, else `localhost`.
pub fn request_host(forwarded_host: Option<String>, host: Option<String>) -> (r: String)
    ensures
        r@ == (match forwarded_host {
            Some(h) => h@,
            None => match host {
                Some(h) => h@,
                None => "localhost"@,
            },
        }),
{
    match forwarded_host {
        Some(h) => h,
        None => match host {
            Some(h) => h,
            None => owned("localhost"),
        },
    }
}

/// The client address of a request: `X-Forwarded-For`, else `X-Real-IP`, else `unknown_ip`.
pub fn client_ip(forwarded_for: Option<String>, real_ip: Option<String>) -> (r: String)
    ensures
        r@ == (match forwarded_for {
            Some(h) => h@,
            None => match real_ip {
                Some(h) => h@,
                None => "unknown_ip"@,
            },
        }),
{
    match forwarded_for {
        Some(h) => h,
        None => match real_ip {
            Some(h) => h,
            None => owned("unknown_ip"),
        },
    }
}

/// A contact form whose hidden `website` field was filled in comes from a bot.
pub fn is_honeypot_triggered(website: &Option<String>) -> (r: bool)
    ensures
        r == (match website {
            Some(w) => w@.len() > 0,
            None => false,
        }),
{
    match website {
        Some(w) => w.as_str().unicode_len() > 0,
        None => false,
    }
}

/// Most contact forms that one address may send within the rate-limit window.
pub const PUBLIC_LEAD_LIMIT: i64 = 3;

/// What to do with a contact form, given how many the address already sent in the window.
#[derive(Clone, Copy, Debug, PartialEq, Eq, Structural)]
pub enum RateDecision {
    /// Refuse with `429 Too Many Requests`.
    Reject,
    /// Count the request; `start_window` asks to start the one-hour window.
    Accept { start_window: bool },
}

/// The rate-limit decision for an address that already sent `current` forms in the window.
pub open spec fn rate_decision(current: int) -> RateDecision {
    if current >= PUBLIC_LEAD_LIMIT {
        RateDecision::Reject
    } else {
        RateDecision::Accept { start_window: current == 0 }
    }
}

/// Rate limit of the public contact form: three per address and hour.
pub fn public_lead_rate(current_requests: i64) -> (r: RateDecision)
    ensures
        r == rate_decision(current_requests as int),
        current_requests >= PUBLIC_LEAD_LIMIT ==> r == RateDecision::Reject,
        current_requests < PUBLIC_LEAD_LIMIT ==> r == (RateDecision::Accept {
            start_window: current_requests == 0,
        }),
{
    if current_requests >= PUBLIC_LEAD_LIMIT {
        RateDecision::Reject
    } else {
        RateDecision::Accept { start_window: current_requests == 0 }
    }
}

/// The window's counter after `n` forms from one address: it starts at zero and counts the
/// forms that were accepted.
pub open spec fn window_counter(n: nat) -> int
    decreases n,
{
    if n == 0 {
        0
    } else {
        let c = window_counter((n - 1) as nat);
        match rate_decision(c) {
            RateDecision::Reject => c,
            RateDecision::Accept { .. } => c + 1,
        }
    }
}

/// Within one window, an address gets exactly its first three forms through: the `k`-th form
/// is accepted if and only if `k < 3`, only the first starts the window, and the counter never
/// exceeds the limit.
pub proof fn lemma_rate_limit_window(n: nat)
    ensures
        window_counter(n) == (if n < PUBLIC_LEAD_LIMIT { n as int } else { PUBLIC_LEAD_LIMIT as int }),
        forall|k: nat| k < n ==> ((rate_decision(#[trigger] window_counter(k)) is Accept) <==> k < PUBLIC_LEAD_LIMIT),
        forall|k: nat| k < n ==> (rate_decision(#[trigger] window_counter(k)) matches RateDecision::Accept { start_window } ==> (start_window <==> k == 0)),
    decreases n,
{
    if n > 0 {
        lemma_rate_limit_window((n - 1) as nat);
        assert forall|k: nat| k < n implies ((rate_decision(#[trigger] window_counter(k)) is Accept) <==> k < PUBLIC_LEAD_LIMIT) by {
            if k < n - 1 {
            } else {
                assert(k == n - 1);
            }
        }
        assert forall|k: nat| k < n implies (rate_decision(#[trigger] window_counter(k)) matches RateDecision::Accept { start_window } ==> (start_window <==> k == 0)) by {
            if k < n - 1 {
            } else {
                assert(k == n - 1);
            }
        }
    }
}

/// The status answered to a rejected contact form.
pub fn rate_rejection_status() -> (r: HttpStatus)
    ensures
        r == HttpStatus::TooManyRequests,
{
    HttpStatus::TooManyRequests
}

/// First and last name of a contact: the first word, and the other words joined by single spaces
/// (no last name when there are none).
pub open spec fn contact_first_name(name: Seq<char>) -> Seq<char> {
    if words(name).len() > 0 { words(name)[0] } else { seq![] }
}

pub open spec fn contact_last_name(name: Seq<char>) -> Seq<char> {
    if words(name).len() > 0 { join(words(name).skip(1), " "@) } else { seq![] }
}

/// Splitting a contact's name loses only white space: the first name, then a space and the
/// last name when there is one, give the name's words joined by single spaces.
pub proof fn lemma_contact_name_rejoins(name: Seq<char>)
    ensures
        contact_first_name(name) + (if contact_last_name(name).len() > 0 {
            " "@ + contact_last_name(name)
        } else {
            Seq::<char>::empty()
        }) == join(words(name), " "@),
{
    reveal_strlit(" ");
    let ws = words(name);
    lemma_words_nonempty(name);
    if ws.len() == 0 {
        assert(Seq::<char>::empty() + Seq::<char>::empty() =~= Seq::<char>::empty());
    } else if ws.len() == 1 {
        assert(ws.skip(1).len() == 0);
        assert(ws[0] + Seq::<char>::empty() =~= ws[0]);
    } else {
        let rest = ws.skip(1);
        assert(rest[0] == ws[1]);
        assert(ws[1].len() > 0);
        assert(join(rest, " "@).len() > 0) by {
            if rest.len() == 1 {
            } else {
                assert(join(rest, " "@) == rest[0] + " "@ + join(rest.skip(1), " "@));
            }
        }
        assert(ws[0] + (" "@ + join(rest, " "@)) =~= ws[0] + " "@ + join(rest, " "@));
    }
}

/// Splits a contact's full name into first name and optional last name.
pub fn split_contact_name(name: &str) -> (r: (String, Option<String>))
    ensures
        r.0@ == contact_first_name(name@),
        r.1 matches Some(l) ==> l@ == contact_last_name(name@) && l@.len() > 0,
        r.1 is None <==> contact_last_name(name@).len() == 0,
{
    let parts = split_whitespace(name);
    if parts.len() == 0 {
        return (String::new(), None);
    }
    let first = owned(parts[0].as_str());
    let last = join_from(&parts, 1, " ");
    proof {
        let views = parts@.map_values(|w: String| w@);
        assert(views =~= words(name@));
    }
    if last.as_str().unicode_len() == 0 {
        (first, None)
    } else {
        (first, Some(last))
    }
}

/// Activity note recorded for a lead that came in through the public portal.
pub fn portal_inquiry_note(name: &str, message: Option<String>) -> (r: String)
    ensures
        r@ == "ORIGIN = PUBLIC_PORTAL\nNombre: "@ + name@ + "\nMensaje: "@ + (match message {
            Some(m) => m@,
            None => Seq::<char>::empty(),
        }),
{
    let mut r = owned("ORIGIN = PUBLIC_PORTAL\nNombre: ");
    r.append(name);
    r.append("\nMensaje: ");
    match message {
        Some(m) => r.append(m.as_str()),
        None => {},
    }
    r
}

/// A contact form sent from the public portal (`website` is a hidden field that only bots fill).
pub struct CreatePublicLeadDto {
    pub tenant_id: u128,
    pub property_id: Option<u128>,
    pub name: String,
    pub phone: Option<String>,
    pub email: Option<String>,
    pub message: Option<String>,
    pub website: Option<String>,
}

/// The client recorded for a contact form.
pub struct PortalClient {
    pub first_name: String,
    pub last_name: Option<String>,
    pub phone: String,
    pub email: Option<String>,
    pub notes: String,
}

/// The client that a contact form creates: its name split into first and last name, its phone
/// (empty when none was given), its email, and a note that it came through the portal.
pub fn portal_client(form: &CreatePublicLeadDto) -> (r: PortalClient)
    ensures
        r.first_name@ == contact_first_name(form.name@),
        r.last_name matches Some(l) ==> l@ == contact_last_name(form.name@) && l@.len() > 0,
        r.last_name is None <==> contact_last_name(form.name@).len() == 0,
        r.phone@ == (match form.phone { Some(p) => p@, None => Seq::<char>::empty() }),
        opt_view(r.email) == opt_view(form.email),
        r.notes@ == "Cliente ingresado vía Portal Público Web"@,
{
    let (first_name, last_name) = split_contact_name(form.name.as_str());
    let phone = match &form.phone {
        Some(p) => owned(p.as_str()),
        None => String::new(),
    };
    let email = match &form.email {
        Some(e) => Some(owned(e.as_str())),
        None => None,
    };
    PortalClient {
        first_name,
        last_name,
        phone,
        email,
        notes: owned("Cliente ingresado vía Portal Público Web"),
    }
}

/// What a tenant's portal offers its visitors.
pub struct PortalConfig {
    pub allow_contact_form: bool,
    pub allow_whatsapp: bool,
}

/// Every portal offers the contact form and WhatsApp.
pub fn portal_config() -> (r: PortalConfig)
    ensures
        r.allow_contact_form,
        r.allow_whatsapp,
{
    PortalConfig { allow_contact_form: true, allow_whatsapp: true }
}

/// The agent shown beside a published property.
pub struct PublicAgentInfo {
    pub first_name: String,
    pub last_name: String,
    pub phone: Option<String>,
    pub email: String,
}

/// A tenant as its portal presents it.
pub struct TenantInfo {
    pub id: u128,
    pub name: String,
    pub slug: String,
    pub logo_url: Option<String>,
    pub phone: Option<String>,
    pub email: Option<String>,
    pub whatsapp: Option<String>,
    pub address: Option<String>,
}

/// The stored tenant that a portal serves.
pub struct PortalTenant {
    pub id: u128,
    pub business_name: String,
    pub slug: Option<String>,
    pub phone: Option<String>,
    pub address: Option<String>,
}

/// How the portal presents a tenant: its name and slug (empty when none is stored), its phone
/// both as phone and WhatsApp number, its address, and no logo or email.
pub fn tenant_info(t: PortalTenant) -> (r: TenantInfo)
    ensures
        r.id == t.id,
        r.name == t.business_name,
        r.slug@ == (match t.slug { Some(s) => s@, None => Seq::<char>::empty() }),
        r.logo_url is None,
        r.email is None,
        r.phone == t.phone,
        opt_view(r.whatsapp) == opt_view(t.phone),
        r.address == t.address,
{
    let whatsapp = match &t.phone {
        Some(p) => Some(owned(p.as_str())),
        None => None,
    };
    TenantInfo {
        id: t.id,
        name: t.business_name,
        slug: match t.slug {
            Some(s) => s,
            None => String::new(),
        },
        logo_url: None,
        phone: t.phone,
        email: None,
        whatsapp,
        address: t.address,
    }
}

/// Filters and paging of the public property listing.
pub struct PublicPropertyFilter {
    pub tenant_id: u128,
    pub operation_type: Option<String>,
    pub property_type: Option<String>,
    pub city: Option<String>,
    pub price_min: Option<Amount>,
    pub price_max: Option<Amount>,
    pub bedrooms: Option<i32>,
    pub limit: Option<i64>,
    pub offset: Option<i64>,
}

impl PublicPropertyFilter {
    /// Limit and offset of a listing page: 20 from the start unless the request says otherwise.
    pub fn listing_window(&self) -> (r: (i64, i64))
        ensures
            r.0 == (match self.limit { Some(l) => l, None => 20 }),
            r.1 == (match self.offset { Some(o) => o, None => 0 }),
    {
        page_window(self.limit, self.offset, 20)
    }

    /// Number of featured properties shown: 6 unless the request says otherwise.
    pub fn featured_limit(&self) -> (r: i64)
        ensures
            r == (match self.limit { Some(l) => l, None => 6 }),
    {
        match self.limit {
            Some(l) => l,
            None => 6,
        }
    }
}

/// A property is shown on the public portal only while it is available.
pub fn is_publicly_visible(status: &Option<String>) -> (r: bool)
    ensures
        r == (match status {
            Some(s) => s@ == "DISPONIBLE"@,
            None => false,
        }),
{
    match status {
        Some(s) => str_eq(s.as_str(), "DISPONIBLE"),
        None => false,
    }
}

/// A view is counted once per visitor and day: only when no visitor mark exists yet.
pub fn counts_as_new_view(visitor_marks: i64) -> (r: bool)
    ensures
        r == (visitor_marks == 0),
{
    visitor_marks == 0
}

} // verus!
