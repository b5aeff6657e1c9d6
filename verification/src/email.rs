//! Transactional emails: who receives them, their subjects and bodies.
//! Delivery itself is best-effort and happens outside the library.

use vstd::prelude::*;
use crate::text::{chars_of, first_field_chars, first_field, string_from, string_of, trim_chars, trimmed};

verus! {

broadcast use vstd::string::group_string_axioms;

/// Sender used when none is configured.
pub const DEFAULT_SENDER: &'static str = "BOLDTRACE <noreply@boldkimya.com.tr>";

/// Where notification emails go and how they are sent.
#[derive(Debug, Clone)]
pub struct EmailConfig {
    pub api_key: Option<String>,
    pub admin_email: Option<String>,
    pub from: String,
}

impl EmailConfig {
    /// A configuration from the configured values; the sender defaults to
    /// `DEFAULT_SENDER`.
    pub fn from_values(api_key: Option<String>, admin_email: Option<String>, from: Option<String>) -> (c: Self)
        ensures
            c.api_key == api_key,
            c.admin_email == admin_email,
            c.from@ == match from {
                Some(f) => f@,
                None => DEFAULT_SENDER@,
            },
    {
        let from = match from {
            Some(f) => f,
            None => string_from(DEFAULT_SENDER),
        };
        EmailConfig { api_key, admin_email, from }
    }
}

/// One email ready to be sent.
#[derive(Debug)]
pub struct EmailMessage {
    pub to: String,
    pub subject: String,
    pub html: String,
}

pub open spec fn new_registration_html(first: Seq<char>, last: Seq<char>, email: Seq<char>, code: Seq<char>) -> Seq<char> {
    "<p>A new BOLDTRACE account is awaiting approval.</p><ul><li><b>Name:</b> "@ + first + " "@ + last
        + "</li><li><b>Email:</b> "@ + email + "</li><li><b>User code:</b> "@ + code
        + "</li></ul><p>Review it in the admin panel.</p>"@
}

/// The admin's notice of a registration awaiting approval; none when no
/// admin address is configured.
pub fn new_registration_email(
    config: &EmailConfig,
    first_name: &str,
    last_name: &str,
    email: &str,
    user_code: &str,
) -> (m: Option<EmailMessage>)
    ensures
        match config.admin_email {
            None => m is None,
            Some(admin) => m matches Some(msg) && msg.to@ == admin@
                && msg.subject@ == "BOLDTRACE: new account pending approval"@
                && msg.html@ == new_registration_html(first_name@, last_name@, email@, user_code@),
        },
{
    let admin = match &config.admin_email {
        Some(a) => a.clone(),
        None => return None,
    };
    let mut html = string_from("<p>A new BOLDTRACE account is awaiting approval.</p><ul><li><b>Name:</b> ");
    html.append(first_name);
    html.append(" ");
    html.append(last_name);
    html.append("</li><li><b>Email:</b> ");
    html.append(email);
    html.append("</li><li><b>User code:</b> ");
    html.append(user_code);
    html.append("</li></ul><p>Review it in the admin panel.</p>");
    Some(EmailMessage { to: admin, subject: string_from("BOLDTRACE: new account pending approval"), html })
}

pub open spec fn approved_html(first: Seq<char>) -> Seq<char> {
    "<p>Hi "@ + first + ",</p><p>Your BOLDTRACE account has been approved. You can now sign in.</p>"@
}

/// The applicant's notice that the account was approved.
pub fn approved_email(to: &str, first_name: &str) -> (m: EmailMessage)
    ensures
        m.to@ == to@,
        m.subject@ == "Your BOLDTRACE account has been approved"@,
        m.html@ == approved_html(first_name@),
{
    let mut html = string_from("<p>Hi ");
    html.append(first_name);
    html.append(",</p><p>Your BOLDTRACE account has been approved. You can now sign in.</p>");
    EmailMessage { to: string_from(to), subject: string_from("Your BOLDTRACE account has been approved"), html }
}

pub open spec fn rejected_html(first: Seq<char>) -> Seq<char> {
    "<p>Hi "@ + first + ",</p><p>Your BOLDTRACE account request was not approved.</p>"@
}

/// The applicant's notice that the account request was declined.
pub fn rejected_email(to: &str, first_name: &str) -> (m: EmailMessage)
    ensures
        m.to@ == to@,
        m.subject@ == "Your BOLDTRACE account request"@,
        m.html@ == rejected_html(first_name@),
{
    let mut html = string_from("<p>Hi ");
    html.append(first_name);
    html.append(",</p><p>Your BOLDTRACE account request was not approved.</p>");
    EmailMessage { to: string_from(to), subject: string_from("Your BOLDTRACE account request"), html }
}

pub open spec fn location_mismatch_html(
    first: Seq<char>,
    last: Seq<char>,
    email: Seq<char>,
    expected: Seq<char>,
    detected: Seq<char>,
    ip: Seq<char>,
) -> Seq<char> {
    "<p>A login attempt was blocked because the request's country didn't match the account's registered country.</p><ul><li><b>Name:</b> "@
        + first + " "@ + last + "</li><li><b>Email:</b> "@ + email
        + "</li><li><b>Registered country:</b> "@ + expected + "</li><li><b>Detected country:</b> "@
        + detected + "</li><li><b>IP:</b> "@ + ip
        + "</li></ul><p>If this is the account holder traveling, allow the login from the admin panel.</p>"@
}

/// The admin's notice of a login blocked for a country mismatch; none
/// when no admin address is configured.
pub fn location_mismatch_email(
    config: &EmailConfig,
    first_name: &str,
    last_name: &str,
    email: &str,
    expected_country: &str,
    detected_country: &str,
    ip: &str,
) -> (m: Option<EmailMessage>)
    ensures
        match config.admin_email {
            None => m is None,
            Some(admin) => m matches Some(msg) && msg.to@ == admin@
                && msg.subject@ == "BOLDTRACE: login blocked, country mismatch"@
                && msg.html@ == location_mismatch_html(first_name@, last_name@, email@, expected_country@,
                    detected_country@, ip@),
        },
{
    let admin = match &config.admin_email {
        Some(a) => a.clone(),
        None => return None,
    };
    let mut html = string_from(
        "<p>A login attempt was blocked because the request's country didn't match the account's registered country.</p><ul><li><b>Name:</b> ",
    );
    html.append(first_name);
    html.append(" ");
    html.append(last_name);
    html.append("</li><li><b>Email:</b> ");
    html.append(email);
    html.append("</li><li><b>Registered country:</b> ");
    html.append(expected_country);
    html.append("</li><li><b>Detected country:</b> ");
    html.append(detected_country);
    html.append("</li><li><b>IP:</b> ");
    html.append(ip);
    html.append("</li></ul><p>If this is the account holder traveling, allow the login from the admin panel.</p>");
    Some(EmailMessage { to: admin, subject: string_from("BOLDTRACE: login blocked, country mismatch"), html })
}

/// The address a request claims to come from: the first entry of
/// `X-Forwarded-For`, trimmed, when that header is readable, else
/// `X-Real-IP`.
pub open spec fn ip_candidate_of(forwarded: Option<Seq<char>>, real_ip: Option<Seq<char>>) -> Option<Seq<char>> {
    match forwarded {
        Some(f) => Some(trimmed(first_field(f, ',', ','))),
        None => real_ip,
    }
}

pub fn ip_candidate(forwarded: Option<&str>, real_ip: Option<&str>) -> (r: Option<String>)
    ensures
        match r {
            Some(s) => ip_candidate_of(
                match forwarded { Some(f) => Some(f@), None => None },
                match real_ip { Some(x) => Some(x@), None => None },
            ) == Some(s@),
            None => ip_candidate_of(
                match forwarded { Some(f) => Some(f@), None => None },
                match real_ip { Some(x) => Some(x@), None => None },
            ) is None,
        },
{
    match forwarded {
        Some(f) => {
            let chars = chars_of(f);
            let first = first_field_chars(&chars, ',', ',');
            let t = trim_chars(&first);
            Some(string_of(&t))
        },
        None => match real_ip {
            Some(x) => Some(string_from(x)),
            None => None,
        },
    }
}

} // verus!
