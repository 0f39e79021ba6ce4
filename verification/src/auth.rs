//! Authentication decisions: who may log in, refresh a session or change a password.
use vstd::prelude::*;
use crate::http::HttpStatus;
use crate::text::{owned, str_eq};

verus! {

/// Role name of the platform administrator.
pub open spec fn super_admin_role() -> Seq<char> {
    "super_admin"@
}

/// The built-in platform administrator: role `super_admin` and the nil user id.
pub open spec fn is_builtin_admin_spec(role: Seq<char>, user_id: u128) -> bool {
    role == super_admin_role() && user_id == 0
}

/// Whether a session belongs to the built-in platform administrator.
pub fn is_builtin_admin(role: &str, user_id: u128) -> (r: bool)
    ensures
        r == is_builtin_admin_spec(role@, user_id),
{
    str_eq(role, "super_admin") && user_id == 0
}

/// Outcome of a login attempt with the platform administrator's address.
#[derive(Clone, Copy, Debug, PartialEq, Eq, Structural)]
pub enum AdminLogin {
    /// The identifier is not the administrator's; the ordinary login applies.
    NotAdmin,
    /// Right password: the administrator is logged in.
    Granted,
    /// Wrong password: `401`.
    Denied,
}

/// Login of the platform administrator, whose address and password come from configuration.
pub fn admin_login(identifier: &str, password: &str, admin_email: &str, admin_password: &str) -> (r: AdminLogin)
    ensures
        identifier@ != admin_email@ ==> r == AdminLogin::NotAdmin,
        identifier@ == admin_email@ && password@ == admin_password@ ==> r == AdminLogin::Granted,
        identifier@ == admin_email@ && password@ != admin_password@ ==> r == AdminLogin::Denied,
{
    if !str_eq(identifier, admin_email) {
        AdminLogin::NotAdmin
    } else if str_eq(password, admin_password) {
        AdminLogin::Granted
    } else {
        AdminLogin::Denied
    }
}

/// How a login identifier is looked up: an address (it holds `@`) or a tenant's tax id (CUIT).
#[derive(Clone, Copy, Debug, PartialEq, Eq, Structural)]
pub enum LoginLookup {
    ByEmail,
    ByTaxId,
}

/// Lookup for a login identifier.
pub fn login_lookup(identifier: &str) -> (r: LoginLookup)
    ensures
        r == (if identifier@.contains('@') { LoginLookup::ByEmail } else { LoginLookup::ByTaxId }),
{
    let v = crate::text::chars_of(identifier);
    let mut i: usize = 0;
    while i < v.len()
        invariant
            v@ == identifier@,
            i <= v.len(),
            forall|j: int| 0 <= j < i ==> v@[j] != '@',
        decreases v.len() - i,
    {
        if v[i] == '@' {
            assert(identifier@[i as int] == '@');
            return LoginLookup::ByEmail;
        }
        i += 1;
    }
    LoginLookup::ByTaxId
}

/// What the lookup of a user's tenant found.
pub enum TenantLookup {
    /// The user belongs to no tenant.
    NoTenant,
    /// The tenant exists, with its status and active flag.
    Found { status: Option<String>, is_active: Option<bool> },
    /// The tenant could not be found (or the lookup failed).
    Missing,
}

/// A tenant lets its users in only when its status is `ACTIVE` and it is flagged active.
pub open spec fn tenant_is_open(status: Option<String>, is_active: Option<bool>) -> bool {
    (match status {
        Some(s) => s@ == "ACTIVE"@,
        None => false,
    }) && is_active == Some(true)
}

/// Whether a tenant lets its users in.
pub fn tenant_allows_access(status: &Option<String>, is_active: Option<bool>) -> (r: bool)
    ensures
        r == tenant_is_open(*status, is_active),
{
    let active_status = match status {
        Some(s) => str_eq(s.as_str(), "ACTIVE"),
        None => false,
    };
    active_status && is_active == Some(true)
}

/// Outcome of the checks that precede issuing a session.
#[derive(Clone, Copy, Debug, PartialEq, Eq, Structural)]
pub enum AccessDecision {
    /// Issue access and refresh tokens.
    Grant,
    /// Refuse with the given status.
    Deny(HttpStatus),
}

/// The account checks shared by login and refresh: an unverified address is `403`; a tenant
/// that is closed is `403`, one that cannot be found `401`.
pub open spec fn account_checks(email_verified: bool, tenant: TenantLookup) -> AccessDecision {
    if !email_verified {
        AccessDecision::Deny(HttpStatus::Forbidden)
    } else {
        match tenant {
            TenantLookup::NoTenant => AccessDecision::Grant,
            TenantLookup::Found { status, is_active } => if tenant_is_open(status, is_active) {
                AccessDecision::Grant
            } else {
                AccessDecision::Deny(HttpStatus::Forbidden)
            },
            TenantLookup::Missing => AccessDecision::Deny(HttpStatus::Unauthorized),
        }
    }
}

/// A session is granted exactly when the address is verified and the user has no tenant or a
/// tenant that is open; an unverified address or a closed tenant is refused with `403`.
pub proof fn lemma_account_checks_grant(email_verified: bool, tenant: TenantLookup)
    ensures
        (account_checks(email_verified, tenant) == AccessDecision::Grant) <==> (email_verified && (
            tenant is NoTenant || (tenant matches TenantLookup::Found { status, is_active }
                && tenant_is_open(status, is_active)))),
        !email_verified ==> account_checks(email_verified, tenant) == AccessDecision::Deny(HttpStatus::Forbidden),
        (tenant matches TenantLookup::Found { status, is_active } && !tenant_is_open(status, is_active))
            ==> account_checks(email_verified, tenant) == AccessDecision::Deny(HttpStatus::Forbidden),
{
}

fn check_account(email_verified: bool, tenant: &TenantLookup) -> (r: AccessDecision)
    ensures
        r == account_checks(email_verified, *tenant),
{
    if !email_verified {
        return AccessDecision::Deny(HttpStatus::Forbidden);
    }
    match tenant {
        TenantLookup::NoTenant => AccessDecision::Grant,
        TenantLookup::Found { status, is_active } => {
            if tenant_allows_access(status, *is_active) {
                AccessDecision::Grant
            } else {
                AccessDecision::Deny(HttpStatus::Forbidden)
            }
        },
        TenantLookup::Missing => AccessDecision::Deny(HttpStatus::Unauthorized),
    }
}

/// Login of an ordinary user: an unknown user or a wrong password is `401`; then the account
/// checks decide.
pub fn login_decision(user_found: bool, password_matches: bool, email_verified: bool, tenant: &TenantLookup) -> (r: AccessDecision)
    ensures
        !(user_found && password_matches) ==> r == AccessDecision::Deny(HttpStatus::Unauthorized),
        user_found && password_matches ==> r == account_checks(email_verified, *tenant),
{
    if !(user_found && password_matches) {
        AccessDecision::Deny(HttpStatus::Unauthorized)
    } else {
        check_account(email_verified, tenant)
    }
}

/// Refresh of a session: an unknown user is `401`; then the account checks decide.
pub fn refresh_decision(user_found: bool, email_verified: bool, tenant: &TenantLookup) -> (r: AccessDecision)
    ensures
        !user_found ==> r == AccessDecision::Deny(HttpStatus::Unauthorized),
        user_found ==> r == account_checks(email_verified, *tenant),
{
    if !user_found {
        AccessDecision::Deny(HttpStatus::Unauthorized)
    } else {
        check_account(email_verified, tenant)
    }
}

/// Change of password: the built-in administrator cannot (`403`); an unknown user or a wrong
/// current password is `401`; otherwise the password is changed (`200`).
pub fn change_password_decision(builtin_admin: bool, user_found: bool, current_password_matches: bool) -> (r: HttpStatus)
    ensures
        r == (if builtin_admin {
            HttpStatus::Forbidden
        } else if user_found && current_password_matches {
            HttpStatus::Success
        } else {
            HttpStatus::Unauthorized
        }),
{
    if builtin_admin {
        HttpStatus::Forbidden
    } else if user_found && current_password_matches {
        HttpStatus::Success
    } else {
        HttpStatus::Unauthorized
    }
}

/// Email verification succeeds when the token names a user, else `400`.
pub fn email_verification_status(user_found: bool) -> (r: HttpStatus)
    ensures
        r == (if user_found { HttpStatus::Success } else { HttpStatus::BadRequest }),
{
    if user_found {
        HttpStatus::Success
    } else {
        HttpStatus::BadRequest
    }
}

/// Who a session is issued for, as the login and refresh responses report it.
pub struct SessionProfile {
    pub user_id: u128,
    pub tenant_id: Option<u128>,
    pub role: String,
    pub first_name: Option<String>,
    pub last_name: Option<String>,
}

/// The profile of the built-in platform administrator.
pub fn builtin_admin_profile() -> (r: SessionProfile)
    ensures
        r.user_id == 0,
        r.tenant_id is None,
        r.role@ == super_admin_role(),
        r.first_name matches Some(f) && f@ == "Super"@,
        r.last_name matches Some(l) && l@ == "Admin"@,
{
    SessionProfile {
        user_id: 0,
        tenant_id: None,
        role: owned("super_admin"),
        first_name: Some(owned("Super")),
        last_name: Some(owned("Admin")),
    }
}

/// A role as stored.
pub struct Role {
    pub id: u128,
    pub name: String,
    pub description: Option<String>,
}

/// A role as the role list reports it.
pub struct RoleResponseDto {
    pub id: u128,
    pub name: String,
    pub description: Option<String>,
}

impl From<Role> for RoleResponseDto {
    fn from(role: Role) -> (r: Self) {
        RoleResponseDto { id: role.id, name: role.name, description: role.description }
    }
}

impl vstd::std_specs::convert::FromSpecImpl<Role> for RoleResponseDto {
    open spec fn obeys_from_spec() -> bool {
        true
    }

    /// Every field is reported as stored.
    open spec fn from_spec(role: Role) -> RoleResponseDto {
        RoleResponseDto { id: role.id, name: role.name, description: role.description }
    }
}

/// Status of a request that needs a tenant but whose session has none.
pub fn missing_tenant_status() -> (r: HttpStatus)
    ensures
        r == HttpStatus::Forbidden,
{
    HttpStatus::Forbidden
}

} // verus!
