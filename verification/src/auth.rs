//! Account rules of the web product: registration, sign-in, profile and
//! password changes, sessions and the errors each step answers with.

use vstd::prelude::*;
use vstd::string::*;
use vstd::utf8::encode_utf8;
use crate::crypto::{argon2_hash, argon2_verify, argon2_verifies, hex_of, random_hex};
use crate::rate_limit::{pruned, RateLimiter};
use crate::text::{
    ascii_upper, chars_of, concat, contains, contains_seq, eq_ignore_ascii_case, str_eq, string_from,
    to_lowercase, to_uppercase, trim, trimmed, lowercase_of, uppercase_of,
};

verus! {

broadcast use vstd::string::group_string_axioms;

/// Version of the terms a web account accepts at registration.
pub const TERMS_VERSION: &'static str = "2026-08-18";
/// Name of the session cookie.
pub const SESSION_COOKIE: &'static str = "bt_session";
/// Lifetime of a remembered session, in days.
pub const REMEMBER_DAYS: i64 = 30;
/// Lifetime of an ordinary session, in hours.
pub const DEFAULT_SESSION_HOURS: i64 = 12;
pub const LOGIN_MAX_ATTEMPTS: usize = 8;
/// Sign-in attempts are counted over fifteen minutes.
pub const LOGIN_WINDOW_NS: u64 = 900_000_000_000;
pub const REGISTER_MAX_ATTEMPTS: usize = 5;
/// Registration attempts are counted over one hour.
pub const REGISTER_WINDOW_NS: u64 = 3_600_000_000_000;
/// Shortest accepted password, in UTF-8 bytes.
pub const MIN_PASSWORD_BYTES: usize = 8;

/// Every error the account endpoints answer with.
#[derive(Debug, Clone, Copy, PartialEq, Eq, Structural)]
pub enum AuthError {
    DatabaseUnavailable,
    RateLimited,
    InvalidInput,
    InvalidUserCode,
    TermsNotAccepted,
    HashFailed,
    EmailTaken,
    UserCodeTaken,
    RegistrationFailed,
    LoginFailed,
    InvalidCredentials,
    AccountPending,
    AccountRejected,
    LocationMismatch,
    NotAuthenticated,
    SessionCheckFailed,
    UpdateFailed,
    NotFound,
    AdminRequired,
    ListFailed,
    PendingAccountNotFound,
    AccountNotApproved,
    ConsentCheckFailed,
    TermsMissing,
}

/// The HTTP status of an error.
pub open spec fn status_of(e: AuthError) -> u16 {
    match e {
        AuthError::DatabaseUnavailable => 503,
        AuthError::RateLimited => 429,
        AuthError::InvalidInput | AuthError::InvalidUserCode | AuthError::TermsNotAccepted => 400,
        AuthError::EmailTaken | AuthError::UserCodeTaken => 409,
        AuthError::InvalidCredentials | AuthError::NotAuthenticated => 401,
        AuthError::AccountPending | AuthError::AccountRejected | AuthError::LocationMismatch
        | AuthError::AdminRequired | AuthError::AccountNotApproved | AuthError::TermsMissing => 403,
        AuthError::NotFound | AuthError::PendingAccountNotFound => 404,
        _ => 500,
    }
}

/// The machine-readable code of an error.
pub open spec fn code_of(e: AuthError) -> Seq<char> {
    match e {
        AuthError::DatabaseUnavailable => "database_unavailable"@,
        AuthError::RateLimited => "rate_limited"@,
        AuthError::InvalidInput => "invalid_input"@,
        AuthError::InvalidUserCode => "invalid_user_code"@,
        AuthError::TermsNotAccepted => "terms_not_accepted"@,
        AuthError::HashFailed => "hash_failed"@,
        AuthError::EmailTaken => "email_taken"@,
        AuthError::UserCodeTaken => "user_code_taken"@,
        AuthError::RegistrationFailed => "registration_failed"@,
        AuthError::LoginFailed => "login_failed"@,
        AuthError::InvalidCredentials => "invalid_credentials"@,
        AuthError::AccountPending => "account_pending"@,
        AuthError::AccountRejected => "account_rejected"@,
        AuthError::LocationMismatch => "location_mismatch"@,
        AuthError::NotAuthenticated => "not_authenticated"@,
        AuthError::SessionCheckFailed => "session_check_failed"@,
        AuthError::UpdateFailed => "update_failed"@,
        AuthError::NotFound => "not_found"@,
        AuthError::AdminRequired => "admin_required"@,
        AuthError::ListFailed => "list_failed"@,
        AuthError::PendingAccountNotFound => "pending_account_not_found"@,
        AuthError::AccountNotApproved => "account_not_approved"@,
        AuthError::ConsentCheckFailed => "consent_check_failed"@,
        AuthError::TermsMissing => "terms_not_accepted"@,
    }
}

impl AuthError {
    pub fn status(&self) -> (s: u16)
        ensures
            s == status_of(*self),
    {
        match self {
            AuthError::DatabaseUnavailable => 503,
            AuthError::RateLimited => 429,
            AuthError::InvalidInput | AuthError::InvalidUserCode | AuthError::TermsNotAccepted => 400,
            AuthError::EmailTaken | AuthError::UserCodeTaken => 409,
            AuthError::InvalidCredentials | AuthError::NotAuthenticated => 401,
            AuthError::AccountPending | AuthError::AccountRejected | AuthError::LocationMismatch
            | AuthError::AdminRequired | AuthError::AccountNotApproved | AuthError::TermsMissing => 403,
            AuthError::NotFound | AuthError::PendingAccountNotFound => 404,
            _ => 500,
        }
    }

    pub fn code(&self) -> (c: &'static str)
        ensures
            c@ == code_of(*self),
    {
        match self {
            AuthError::DatabaseUnavailable => "database_unavailable",
            AuthError::RateLimited => "rate_limited",
            AuthError::InvalidInput => "invalid_input",
            AuthError::InvalidUserCode => "invalid_user_code",
            AuthError::TermsNotAccepted => "terms_not_accepted",
            AuthError::HashFailed => "hash_failed",
            AuthError::EmailTaken => "email_taken",
            AuthError::UserCodeTaken => "user_code_taken",
            AuthError::RegistrationFailed => "registration_failed",
            AuthError::LoginFailed => "login_failed",
            AuthError::InvalidCredentials => "invalid_credentials",
            AuthError::AccountPending => "account_pending",
            AuthError::AccountRejected => "account_rejected",
            AuthError::LocationMismatch => "location_mismatch",
            AuthError::NotAuthenticated => "not_authenticated",
            AuthError::SessionCheckFailed => "session_check_failed",
            AuthError::UpdateFailed => "update_failed",
            AuthError::NotFound => "not_found",
            AuthError::AdminRequired => "admin_required",
            AuthError::ListFailed => "list_failed",
            AuthError::PendingAccountNotFound => "pending_account_not_found",
            AuthError::AccountNotApproved => "account_not_approved",
            AuthError::ConsentCheckFailed => "consent_check_failed",
            AuthError::TermsMissing => "terms_not_accepted",
        }
    }
}

/// An ASCII letter or digit.
pub open spec fn ascii_alphanumeric(c: char) -> bool {
    ('0' <= c && c <= '9') || ('a' <= c && c <= 'z') || ('A' <= c && c <= 'Z')
}

/// A user code is 4 to 20 ASCII letters and digits.
pub open spec fn valid_user_code(code: Seq<char>) -> bool {
    4 <= code.len() <= 20 && forall|i: int| 0 <= i < code.len() ==> ascii_alphanumeric(code[i])
}

pub fn is_valid_user_code(code: &str) -> (r: bool)
    ensures
        r == valid_user_code(code@),
{
    let chars = chars_of(code);
    if chars.len() < 4 || chars.len() > 20 {
        return false;
    }
    let mut i: usize = 0;
    while i < chars.len()
        invariant
            i <= chars.len(),
            chars@ == code@,
            forall|k: int| 0 <= k < i ==> ascii_alphanumeric(code@[k]),
        decreases chars.len() - i,
    {
        let c = chars[i];
        if !(('0' <= c && c <= '9') || ('a' <= c && c <= 'z') || ('A' <= c && c <= 'Z')) {
            return false;
        }
        i += 1;
    }
    true
}

/// Whether a password is long enough, counted in UTF-8 bytes.
pub open spec fn password_long_enough(password: Seq<char>) -> bool {
    (encode_utf8(password).len() as usize) >= MIN_PASSWORD_BYTES
}

fn long_enough(password: &str) -> (r: bool)
    ensures
        r == password_long_enough(password@),
{
    password.len() >= MIN_PASSWORD_BYTES
}

/// A registration as submitted.
#[derive(Debug)]
pub struct RegisterRequest {
    pub first_name: String,
    pub last_name: String,
    pub user_code: String,
    pub country: String,
    pub national_id: String,
    pub email: String,
    pub password: String,
    pub language: Option<String>,
    pub terms_accepted: bool,
}

/// A profile edit as submitted; the email is not editable.
#[derive(Debug)]
pub struct ProfileUpdateRequest {
    pub first_name: String,
    pub last_name: String,
    pub user_code: String,
    pub country: String,
    pub national_id: String,
}

#[derive(Debug)]
pub struct PasswordChangeRequest {
    pub current_password: String,
    pub new_password: String,
}

#[derive(Debug)]
pub struct BootstrapResetRequest {
    pub user_code: String,
    pub new_password: String,
}

/// An account as stored, without its timestamps.
#[derive(Debug, Clone)]
pub struct UserRecord {
    pub id: String,
    pub user_code: String,
    pub email: String,
    pub first_name: String,
    pub last_name: String,
    pub password_hash: String,
    pub language: String,
    pub status: String,
    pub is_admin: bool,
    pub country: String,
    pub national_id: String,
}

/// What an account holder or admin is shown of an account.
#[derive(Debug, Clone)]
pub struct AccountView {
    pub id: String,
    pub user_code: String,
    pub email: String,
    pub first_name: String,
    pub last_name: String,
    pub language: String,
    pub status: String,
    pub is_admin: bool,
    pub country: String,
    pub national_id: String,
}

/// An account awaiting approval, as listed to admins.
#[derive(Debug, Clone)]
pub struct PendingUser {
    pub id: String,
    pub user_code: String,
    pub email: String,
    pub first_name: String,
    pub last_name: String,
    pub created_at: String,
}

impl AccountView {
    /// Everything of the record but the password hash.
    pub fn from_record(r: &UserRecord) -> (v: Self)
        ensures
            v.id@ == r.id@,
            v.user_code@ == r.user_code@,
            v.email@ == r.email@,
            v.first_name@ == r.first_name@,
            v.last_name@ == r.last_name@,
            v.language@ == r.language@,
            v.status@ == r.status@,
            v.is_admin == r.is_admin,
            v.country@ == r.country@,
            v.national_id@ == r.national_id@,
    {
        AccountView {
            id: r.id.clone(),
            user_code: r.user_code.clone(),
            email: r.email.clone(),
            first_name: r.first_name.clone(),
            last_name: r.last_name.clone(),
            language: r.language.clone(),
            status: r.status.clone(),
            is_admin: r.is_admin,
            country: r.country.clone(),
            national_id: r.national_id.clone(),
        }
    }
}

/// The normalized email of a registration: trimmed and lowercased.
pub open spec fn normalized_email(raw: Seq<char>) -> Seq<char> {
    lowercase_of(trimmed(raw))
}

/// A user code as stored: trimmed and uppercased.
pub open spec fn normalized_user_code(raw: Seq<char>) -> Seq<char> {
    uppercase_of(trimmed(raw))
}

/// The error a registration is refused with before any password is hashed
/// (input checks come first, then the user code, then the terms), if any.
pub open spec fn registration_error(req: RegisterRequest) -> Option<AuthError> {
    let email = normalized_email(req.email@);
    if email.len() == 0 || !contains_seq(email, "@"@) || trimmed(req.first_name@).len() == 0
        || trimmed(req.last_name@).len() == 0 || trimmed(req.country@).len() == 0
        || trimmed(req.national_id@).len() == 0 || !password_long_enough(req.password@) {
        Some(AuthError::InvalidInput)
    } else if !valid_user_code(normalized_user_code(req.user_code@)) {
        Some(AuthError::InvalidUserCode)
    } else if !req.terms_accepted {
        Some(AuthError::TermsNotAccepted)
    } else {
        None
    }
}

/// A registration ready to be stored.
#[derive(Debug)]
pub struct NewAccount {
    pub id: String,
    pub email: String,
    pub first_name: String,
    pub last_name: String,
    pub user_code: String,
    pub country: String,
    pub national_id: String,
    pub password_hash: String,
    pub language: String,
    pub status: String,
    pub is_admin: bool,
}

/// The rate-limit key of registrations for a normalized email.
pub open spec fn register_rate_key(email: Seq<char>) -> Seq<char> {
    "register:"@ + email
}

/// Whether a registration's email is the configured bootstrap admin email
/// (compared after trimming and lowercasing it).
pub open spec fn is_bootstrap_email(bootstrap: Option<Seq<char>>, email: Seq<char>) -> bool {
    match bootstrap {
        Some(b) => lowercase_of(trimmed(b)) == email,
        None => false,
    }
}

/// Checks, normalizes and hashes a registration. The attempt is counted
/// against the normalized email first, at `now_ns` on the limiter's clock; a refused attempt is answered with
/// 429 before anything else is checked. An account whose email is the
/// bootstrap admin email is approved and made an admin at once; every other
/// account waits for approval. The id is 16 fresh random bytes in hex.
pub fn prepare_registration(
    limiter: &mut RateLimiter,
    now_ns: u64,
    req: &RegisterRequest,
    bootstrap_email: Option<&str>,
) -> (r: Result<NewAccount, AuthError>)
    ensures
        ({
            let email = normalized_email(req.email@);
            let key = register_rate_key(email);
            let kept = pruned(old(limiter).recorded(key), now_ns, REGISTER_WINDOW_NS);
            let refused = kept.len() >= REGISTER_MAX_ATTEMPTS;
            &&& final(limiter).history() == old(limiter).history().insert(
                key,
                if refused { kept } else { kept.push(now_ns) },
            )
            &&& (r == Err::<NewAccount, AuthError>(AuthError::RateLimited) <==> refused)
            &&& (!refused && registration_error(*req) is Some ==> r == Err::<NewAccount, AuthError>(
                registration_error(*req)->0,
            ))
            &&& (r is Err && r != Err::<NewAccount, AuthError>(AuthError::RateLimited)
                && registration_error(*req) is None ==> r == Err::<NewAccount, AuthError>(AuthError::HashFailed))
            &&& (!refused && registration_error(*req) is None && encode_utf8(req.password@).len() <= u32::MAX
                ==> r is Ok)
            &&& (r matches Ok(a) ==> {
                &&& !refused
                &&& registration_error(*req) is None
                &&& a.email@ == email
                &&& a.first_name@ == trimmed(req.first_name@)
                &&& a.last_name@ == trimmed(req.last_name@)
                &&& a.country@ == trimmed(req.country@)
                &&& a.national_id@ == trimmed(req.national_id@)
                &&& a.user_code@ == normalized_user_code(req.user_code@)
                &&& argon2_verifies(req.password@, a.password_hash@)
                &&& a.language@ == match req.language {
                    Some(l) => l@,
                    None => "en"@,
                }
                &&& a.is_admin == is_bootstrap_email(option_view_spec(bootstrap_email), email)
                &&& a.status@ == if a.is_admin { "approved"@ } else { "pending"@ }
                &&& exists|b: Seq<u8>| b.len() == 16 && a.id@ == hex_of(b)
            })
        }),
{
    let email = to_lowercase(trim(req.email.as_str()).as_str());
    let key = concat("register:", email.as_str());
    let allowed = limiter.check_at(key.as_str(), REGISTER_MAX_ATTEMPTS, REGISTER_WINDOW_NS, now_ns);
    if !allowed {
        return Err(AuthError::RateLimited);
    }
    let first_name = trim(req.first_name.as_str());
    let last_name = trim(req.last_name.as_str());
    let country = trim(req.country.as_str());
    let national_id = trim(req.national_id.as_str());
    let user_code = to_uppercase(trim(req.user_code.as_str()).as_str());
    if email.as_str().is_empty() || !contains(email.as_str(), "@") || first_name.as_str().is_empty()
        || last_name.as_str().is_empty() || country.as_str().is_empty()
        || national_id.as_str().is_empty() || !long_enough(req.password.as_str()) {
        return Err(AuthError::InvalidInput);
    }
    if !is_valid_user_code(user_code.as_str()) {
        return Err(AuthError::InvalidUserCode);
    }
    if !req.terms_accepted {
        return Err(AuthError::TermsNotAccepted);
    }
    let password_hash = match argon2_hash(req.password.as_str()) {
        Some(h) => h,
        None => {
            return Err(AuthError::HashFailed);
        },
    };
    let language = match &req.language {
        Some(l) => l.clone(),
        None => string_from("en"),
    };
    let id = random_hex(16);
    let is_admin = match bootstrap_email {
        Some(b) => to_lowercase(trim(b).as_str()) == email,
        None => false,
    };
    let status = if is_admin { string_from("approved") } else { string_from("pending") };
    Ok(NewAccount {
        id,
        email,
        first_name,
        last_name,
        user_code,
        country,
        national_id,
        password_hash,
        language,
        status,
        is_admin,
    })
}

/// `Some` of the characters of a present string.
pub open spec fn option_view_spec(o: Option<&str>) -> Option<Seq<char>> {
    match o {
        Some(s) => Some(s@),
        None => None,
    }
}

/// The error a failed account insert is answered with: the unique
/// constraint that refused it, if any, names what is taken.
pub open spec fn registration_conflict_of(constraint: Option<Seq<char>>) -> AuthError {
    match constraint {
        Some(c) => if c == "web_users_email_key"@ {
            AuthError::EmailTaken
        } else if c == "web_users_user_code_key"@ {
            AuthError::UserCodeTaken
        } else {
            AuthError::RegistrationFailed
        },
        None => AuthError::RegistrationFailed,
    }
}

pub fn registration_conflict(constraint: Option<&str>) -> (e: AuthError)
    ensures
        e == registration_conflict_of(option_view_spec(constraint)),
{
    match constraint {
        Some(c) => if str_eq(c, "web_users_email_key") {
            AuthError::EmailTaken
        } else if str_eq(c, "web_users_user_code_key") {
            AuthError::UserCodeTaken
        } else {
            AuthError::RegistrationFailed
        },
        None => AuthError::RegistrationFailed,
    }
}

/// The error a failed account update is answered with.
pub open spec fn update_conflict_of(constraint: Option<Seq<char>>) -> AuthError {
    match constraint {
        Some(c) => if c == "web_users_user_code_key"@ {
            AuthError::UserCodeTaken
        } else {
            AuthError::UpdateFailed
        },
        None => AuthError::UpdateFailed,
    }
}

pub fn update_conflict(constraint: Option<&str>) -> (e: AuthError)
    ensures
        e == update_conflict_of(option_view_spec(constraint)),
{
    match constraint {
        Some(c) => if str_eq(c, "web_users_user_code_key") {
            AuthError::UserCodeTaken
        } else {
            AuthError::UpdateFailed
        },
        None => AuthError::UpdateFailed,
    }
}

/// Only an approved account is signed in right after registering; a
/// pending one waits for an admin.
pub fn issues_session(status: &str) -> (r: bool)
    ensures
        r == (status@ == "approved"@),
{
    str_eq(status, "approved")
}

/// How a sign-in identifier is read: with an `@` it is an email, compared
/// lowercased; otherwise a user code, compared uppercased.
pub struct LoginIdentifier {
    pub is_email: bool,
    pub value: String,
}

pub open spec fn identifier_is_email(raw: Seq<char>) -> bool {
    contains_seq(trimmed(raw), "@"@)
}

pub open spec fn normalized_identifier(raw: Seq<char>) -> Seq<char> {
    if identifier_is_email(raw) {
        lowercase_of(trimmed(raw))
    } else {
        uppercase_of(trimmed(raw))
    }
}

/// The rate-limit key of sign-ins for a normalized identifier.
pub open spec fn login_rate_key(identifier: Seq<char>) -> Seq<char> {
    "login:"@ + identifier
}

/// Reads the sign-in identifier and counts the attempt against it at
/// `now_ns` on the limiter's clock; a refused attempt is answered with 429.
pub fn begin_login(limiter: &mut RateLimiter, now_ns: u64, identifier: &str) -> (r: Result<LoginIdentifier, AuthError>)
    ensures
        ({
            let key = login_rate_key(normalized_identifier(identifier@));
            let kept = pruned(old(limiter).recorded(key), now_ns, LOGIN_WINDOW_NS);
            let refused = kept.len() >= LOGIN_MAX_ATTEMPTS;
            &&& final(limiter).history() == old(limiter).history().insert(
                key,
                if refused { kept } else { kept.push(now_ns) },
            )
            &&& match r {
                Ok(id) => !refused && id.is_email == identifier_is_email(identifier@) && id.value@
                    == normalized_identifier(identifier@),
                Err(e) => refused && e == AuthError::RateLimited,
            }
        }),
{
    let raw = trim(identifier);
    let is_email = contains(raw.as_str(), "@");
    let value = if is_email { to_lowercase(raw.as_str()) } else { to_uppercase(raw.as_str()) };
    let key = concat("login:", value.as_str());
    if !limiter.check_at(key.as_str(), LOGIN_MAX_ATTEMPTS, LOGIN_WINDOW_NS, now_ns) {
        return Err(AuthError::RateLimited);
    }
    Ok(LoginIdentifier { is_email, value })
}

/// The column an identifier is looked up in.
pub fn lookup_column(is_email: bool) -> (c: &'static str)
    ensures
        c@ == if is_email { "email"@ } else { "user_code"@ },
{
    if is_email { "email" } else { "user_code" }
}

/// A PHC string that no password matches; verifying against it when no
/// account exists keeps a missing account from answering measurably faster
/// than a wrong password.
pub const DUMMY_HASH: &'static str = "$argon2id$v=19$m=19456,t=2,p=1$c29tZXNhbHR2YWx1ZQ$Y5s+3d1n2mR3o8m3lQyN4dQY8FhQ0h4mQe6MYd3qXyE";

/// Whether a sign-in may proceed for `account` with `password`: the
/// password must verify against the stored hash, and the account must be
/// neither pending nor rejected.
pub open spec fn login_decision(account: Option<UserRecord>, password: Seq<char>) -> Result<(), AuthError> {
    match account {
        None => Err(AuthError::InvalidCredentials),
        Some(a) => if !argon2_verifies(password, a.password_hash@) {
            Err(AuthError::InvalidCredentials)
        } else if a.status@ == "pending"@ {
            Err(AuthError::AccountPending)
        } else if a.status@ == "rejected"@ {
            Err(AuthError::AccountRejected)
        } else {
            Ok(())
        },
    }
}

/// Verifies a sign-in against the looked-up account (always running one
/// Argon2 verification, against a dummy hash when there is no account) and
/// applies the account status.
pub fn authorize_login(account: Option<&UserRecord>, password: &str) -> (r: Result<(), AuthError>)
    ensures
        r == login_decision(
            match account {
                Some(a) => Some(*a),
                None => None,
            },
            password@,
        ),
{
    match account {
        None => {
            let _ = argon2_verify(password, DUMMY_HASH);
            Err(AuthError::InvalidCredentials)
        },
        Some(a) => {
            if !argon2_verify(password, a.password_hash.as_str()) {
                Err(AuthError::InvalidCredentials)
            } else if str_eq(a.status.as_str(), "pending") {
                Err(AuthError::AccountPending)
            } else if str_eq(a.status.as_str(), "rejected") {
                Err(AuthError::AccountRejected)
            } else {
                Ok(())
            }
        },
    }
}

/// The country check of a sign-in. Without an active admin override and
/// with a registered country, a detected country that differs blocks the
/// sign-in; when no country could be detected the check fails open.
pub open spec fn location_decision(has_override: bool, country: Seq<char>, detected: Option<Seq<char>>) -> Result<(), AuthError> {
    if !has_override && country.len() != 0 {
        match detected {
            Some(d) => if d != country { Err(AuthError::LocationMismatch) } else { Ok(()) },
            None => Ok(()),
        }
    } else {
        Ok(())
    }
}

pub fn check_location(has_override: bool, country: &str, detected: Option<&str>) -> (r: Result<(), AuthError>)
    ensures
        r == location_decision(has_override, country@, option_view_spec(detected)),
{
    if !has_override && !country.is_empty() {
        match detected {
            Some(d) => if !str_eq(d, country) { Err(AuthError::LocationMismatch) } else { Ok(()) },
            None => Ok(()),
        }
    } else {
        Ok(())
    }
}

/// A country code as the lookup service reports it, trimmed and uppercased,
/// kept only when it is two bytes long.
pub open spec fn normalized_country(code: Option<Seq<char>>) -> Option<Seq<char>> {
    match code {
        Some(c) => {
            let u = uppercase_of(trimmed(c));
            if (encode_utf8(u).len() as usize) == 2 { Some(u) } else { None }
        },
        None => None,
    }
}

pub fn normalize_country(code: Option<&str>) -> (r: Option<String>)
    ensures
        match r {
            Some(s) => normalized_country(option_view_spec(code)) == Some(s@),
            None => normalized_country(option_view_spec(code)) is None,
        },
{
    match code {
        Some(c) => {
            let u = to_uppercase(trim(c).as_str());
            if u.as_str().len() == 2 { Some(u) } else { None }
        },
        None => None,
    }
}

/// How long a new session lives, in hours.
pub fn session_lifetime_hours(remember_me: bool) -> (h: i64)
    ensures
        h == if remember_me { REMEMBER_DAYS * 24 } else { DEFAULT_SESSION_HOURS as int },
{
    if remember_me { REMEMBER_DAYS * 24 } else { DEFAULT_SESSION_HOURS }
}

/// Attributes of the session cookie.
#[derive(Debug)]
pub struct SessionCookie {
    pub name: String,
    pub value: String,
    pub http_only: bool,
    pub path: String,
    pub same_site_lax: bool,
    pub secure: bool,
    pub max_age_days: Option<i64>,
}

/// The session cookie: HttpOnly, site-wide, SameSite=Lax, secure as
/// configured, and persistent for 30 days only when remembered.
pub fn session_cookie(secure: bool, token: String, remember_me: bool) -> (c: SessionCookie)
    ensures
        c.name@ == SESSION_COOKIE@,
        c.value@ == token@,
        c.http_only,
        c.path@ == "/"@,
        c.same_site_lax,
        c.secure == secure,
        c.max_age_days == if remember_me { Some(REMEMBER_DAYS) } else { None::<i64> },
{
    SessionCookie {
        name: string_from(SESSION_COOKIE),
        value: token,
        http_only: true,
        path: string_from("/"),
        same_site_lax: true,
        secure,
        max_age_days: if remember_me { Some(REMEMBER_DAYS) } else { None },
    }
}

/// A profile edit ready to be stored.
pub struct ProfileUpdate {
    pub first_name: String,
    pub last_name: String,
    pub user_code: String,
    pub country: String,
    pub national_id: String,
}

pub open spec fn profile_error(req: ProfileUpdateRequest) -> Option<AuthError> {
    if trimmed(req.first_name@).len() == 0 || trimmed(req.last_name@).len() == 0 || trimmed(req.country@).len()
        == 0 || trimmed(req.national_id@).len() == 0 {
        Some(AuthError::InvalidInput)
    } else if !valid_user_code(normalized_user_code(req.user_code@)) {
        Some(AuthError::InvalidUserCode)
    } else {
        None
    }
}

/// Checks and normalizes a profile edit: every field is trimmed, none may
/// be empty, and the user code must be valid once uppercased.
pub fn prepare_profile_update(req: &ProfileUpdateRequest) -> (r: Result<ProfileUpdate, AuthError>)
    ensures
        match r {
            Ok(u) => profile_error(*req) is None && u.first_name@ == trimmed(req.first_name@) && u.last_name@
                == trimmed(req.last_name@) && u.country@ == trimmed(req.country@) && u.national_id@ == trimmed(
                req.national_id@,
            ) && u.user_code@ == normalized_user_code(req.user_code@),
            Err(e) => profile_error(*req) == Some(e),
        },
{
    let first_name = trim(req.first_name.as_str());
    let last_name = trim(req.last_name.as_str());
    let country = trim(req.country.as_str());
    let national_id = trim(req.national_id.as_str());
    let user_code = to_uppercase(trim(req.user_code.as_str()).as_str());
    if first_name.as_str().is_empty() || last_name.as_str().is_empty() || country.as_str().is_empty()
        || national_id.as_str().is_empty() {
        return Err(AuthError::InvalidInput);
    }
    if !is_valid_user_code(user_code.as_str()) {
        return Err(AuthError::InvalidUserCode);
    }
    Ok(ProfileUpdate { first_name, last_name, user_code, country, national_id })
}

/// Checks a password change against the stored hash and hashes the new
/// password: the current password must verify, the new one must be long
/// enough.
pub fn prepare_password_change(stored_hash: &str, req: &PasswordChangeRequest) -> (r: Result<String, AuthError>)
    ensures
        !argon2_verifies(req.current_password@, stored_hash@) ==> r == Err::<String, AuthError>(
            AuthError::InvalidCredentials,
        ),
        argon2_verifies(req.current_password@, stored_hash@) && !password_long_enough(req.new_password@) ==> r
            == Err::<String, AuthError>(AuthError::InvalidInput),
        argon2_verifies(req.current_password@, stored_hash@) && password_long_enough(req.new_password@) ==> match r {
            Ok(h) => argon2_verifies(req.new_password@, h@),
            Err(e) => e == AuthError::HashFailed,
        },
        argon2_verifies(req.current_password@, stored_hash@) && password_long_enough(req.new_password@)
            && encode_utf8(req.new_password@).len() <= u32::MAX ==> r is Ok,
{
    if !argon2_verify(req.current_password.as_str(), stored_hash) {
        return Err(AuthError::InvalidCredentials);
    }
    if !long_enough(req.new_password.as_str()) {
        return Err(AuthError::InvalidInput);
    }
    match argon2_hash(req.new_password.as_str()) {
        Some(h) => Ok(h),
        None => Err(AuthError::HashFailed),
    }
}

/// Whether the break-glass reset may run: it exists only while a reset
/// secret and a bootstrap admin email are configured, and the caller must
/// present the secret.
pub enum ResetGate {
    /// The reset is not configured; answered with a bare 404.
    Disabled,
    /// The presented secret is wrong.
    Denied,
    /// The reset applies to the account with this (lowercased) email.
    Allowed(String),
}

pub open spec fn reset_gate_of(secret: Option<Seq<char>>, admin_email: Option<Seq<char>>, supplied: Option<Seq<char>>) -> Option<Option<Seq<char>>> {
    match (secret, admin_email) {
        (Some(s), Some(e)) => if (match supplied {
            Some(x) => x,
            None => ""@,
        }) == s {
            Some(Some(lowercase_of(e)))
        } else {
            Some(None)
        },
        _ => None,
    }
}

pub fn bootstrap_reset_gate(secret: Option<&str>, admin_email: Option<&str>, supplied: Option<&str>) -> (g: ResetGate)
    ensures
        match g {
            ResetGate::Disabled => reset_gate_of(option_view_spec(secret), option_view_spec(admin_email), option_view_spec(supplied)) is None,
            ResetGate::Denied => reset_gate_of(option_view_spec(secret), option_view_spec(admin_email), option_view_spec(supplied)) == Some(None::<Seq<char>>),
            ResetGate::Allowed(e) => reset_gate_of(option_view_spec(secret), option_view_spec(admin_email), option_view_spec(supplied)) == Some(Some(e@)),
        },
{
    match (secret, admin_email) {
        (Some(s), Some(e)) => {
            let given: &str = match supplied {
                Some(x) => x,
                None => "",
            };
            if str_eq(given, s) {
                ResetGate::Allowed(to_lowercase(e))
            } else {
                ResetGate::Denied
            }
        },
        _ => ResetGate::Disabled,
    }
}

/// New credentials of the break-glass reset: a valid user code once
/// trimmed and uppercased, and a long enough password, hashed.
pub fn prepare_reset_credentials(req: &BootstrapResetRequest) -> (r: Result<(String, String), AuthError>)
    ensures
        !valid_user_code(normalized_user_code(req.user_code@)) ==> r == Err::<(String, String), AuthError>(
            AuthError::InvalidUserCode,
        ),
        valid_user_code(normalized_user_code(req.user_code@)) && !password_long_enough(req.new_password@) ==> r
            == Err::<(String, String), AuthError>(AuthError::InvalidInput),
        valid_user_code(normalized_user_code(req.user_code@)) && password_long_enough(req.new_password@) ==> match r {
            Ok((code, h)) => code@ == normalized_user_code(req.user_code@) && argon2_verifies(req.new_password@, h@),
            Err(e) => e == AuthError::HashFailed,
        },
        valid_user_code(normalized_user_code(req.user_code@)) && password_long_enough(req.new_password@)
            && encode_utf8(req.new_password@).len() <= u32::MAX ==> r is Ok,
{
    let user_code = to_uppercase(trim(req.user_code.as_str()).as_str());
    if !is_valid_user_code(user_code.as_str()) {
        return Err(AuthError::InvalidUserCode);
    }
    if !long_enough(req.new_password.as_str()) {
        return Err(AuthError::InvalidInput);
    }
    match argon2_hash(req.new_password.as_str()) {
        Some(h) => Ok((user_code, h)),
        None => Err(AuthError::HashFailed),
    }
}

/// Admin endpoints need a live session of an admin account.
pub fn admin_gate(account: Option<&UserRecord>) -> (r: Result<(), AuthError>)
    ensures
        r == match account {
            None => Err(AuthError::NotAuthenticated),
            Some(a) => if a.is_admin { Ok(()) } else { Err(AuthError::AdminRequired) },
        },
{
    match account {
        None => Err(AuthError::NotAuthenticated),
        Some(a) => if a.is_admin { Ok(()) } else { Err(AuthError::AdminRequired) },
    }
}

/// An approval or rejection applies to exactly one pending account.
pub fn status_update_result(rows_affected: u64) -> (r: Result<(), AuthError>)
    ensures
        r == if rows_affected == 1 { Ok(()) } else { Err(AuthError::PendingAccountNotFound) },
{
    if rows_affected == 1 { Ok(()) } else { Err(AuthError::PendingAccountNotFound) }
}

/// Market intelligence needs a live session of an approved account that
/// accepted the current terms.
pub fn product_access_gate(account: Option<&UserRecord>, consented: bool) -> (r: Result<(), AuthError>)
    ensures
        r == match account {
            None => Err(AuthError::NotAuthenticated),
            Some(a) => if a.status@ != "approved"@ {
                Err(AuthError::AccountNotApproved)
            } else if !consented {
                Err(AuthError::TermsMissing)
            } else {
                Ok(())
            },
        },
{
    match account {
        None => Err(AuthError::NotAuthenticated),
        Some(a) => if !str_eq(a.status.as_str(), "approved") {
            Err(AuthError::AccountNotApproved)
        } else if !consented {
            Err(AuthError::TermsMissing)
        } else {
            Ok(())
        },
    }
}

} // verus!
