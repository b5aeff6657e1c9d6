//! Fluent-backed message lookup. Every user-facing text goes through [`t`]
//! or [`t_args`], which read the bundled Fluent source of the language.

use vstd::prelude::*;
use vstd::string::*;
use crate::locales::{AR_FTL, DE_FTL, EN_FTL, FR_FTL, RU_FTL, TR_FTL};
use crate::text::{
    all_ascii, ascii_lower, chars_of, first_field, first_field_chars, lowercase_of, str_eq, string_from, string_of,
    to_lowercase,
};

verus! {

broadcast use vstd::string::group_string_axioms;

/// Locale codes with a bundled message source.
pub const SUPPORTED_LANGUAGES: [&'static str; 6] = ["en", "tr", "fr", "de", "ar", "ru"];

/// Whether a locale code has a bundled message source.
pub open spec fn supported_language(code: Seq<char>) -> bool {
    code == "en"@ || code == "tr"@ || code == "fr"@ || code == "de"@ || code == "ar"@ || code == "ru"@
}

/// The Fluent source bundled for a supported locale code.
pub open spec fn locale_source(code: Seq<char>) -> Seq<char> {
    if code == "tr"@ {
        TR_FTL@
    } else if code == "fr"@ {
        FR_FTL@
    } else if code == "de"@ {
        DE_FTL@
    } else if code == "ar"@ {
        AR_FTL@
    } else if code == "ru"@ {
        RU_FTL@
    } else {
        EN_FTL@
    }
}

/// What a Fluent bundle for locale `locale`, loaded from `source`, renders
/// for the value of message `key` with string arguments `args`; `None` when
/// the source or locale does not load or the message has no value.
pub uninterp spec fn fluent_render(
    source: Seq<char>,
    locale: Seq<char>,
    key: Seq<char>,
    args: Seq<(Seq<char>, Seq<char>)>,
) -> Option<Seq<char>>;

/// The names and values of message arguments.
pub open spec fn args_view(args: Seq<(String, String)>) -> Seq<(Seq<char>, Seq<char>)> {
    args.map_values(|a: (String, String)| (a.0@, a.1@))
}

/// Builds a `fluent_bundle::concurrent::FluentBundle` for `locale` from
/// `source` (`FluentResource::try_new`, `FluentBundle::new_concurrent`,
/// `add_resource`) and formats the value of message `key`
/// (`get_message`, `FluentMessage::value`, `format_pattern`) with `args` set
/// as string values. The contract only names what comes back: Fluent's
/// parsing and formatting rules are left to the crate. Formatting errors do
/// not discard the formatted text, as in Fluent itself.
#[verifier::external_body]
fn render_message(source: &str, locale: &str, key: &str, args: &Vec<(String, String)>) -> (r: Option<String>)
    ensures
        match r {
            Some(v) => fluent_render(source@, locale@, key@, args_view(args@)) == Some(v@),
            None => fluent_render(source@, locale@, key@, args_view(args@)) is None,
        },
{
    let resource = fluent_bundle::FluentResource::try_new(source.to_string()).ok()?;
    let lang_id: unic_langid::LanguageIdentifier = locale.parse().ok()?;
    let mut bundle = fluent_bundle::concurrent::FluentBundle::new_concurrent(vec![lang_id]);
    bundle.add_resource(resource).ok()?;
    let pattern = bundle.get_message(key)?.value()?;
    let mut fluent_args = fluent_bundle::FluentArgs::new();
    for (name, value) in args {
        fluent_args.set(name.clone(), fluent_bundle::FluentValue::from(value.clone()));
    }
    let mut errors = Vec::new();
    Some(bundle.format_pattern(pattern, Some(&fluent_args), &mut errors).into_owned())
}

/// Whether `code` is a supported locale code.
pub fn is_supported(code: &str) -> (r: bool)
    ensures
        r == supported_language(code@),
{
    str_eq(code, "en") || str_eq(code, "tr") || str_eq(code, "fr") || str_eq(code, "de") || str_eq(
        code,
        "ar",
    ) || str_eq(code, "ru")
}

/// The locale a client language code maps to: its primary subtag
/// (before the first `-` or `_`), lowercased, when supported; `en` otherwise
/// and when the code is missing.
pub open spec fn normalized_language(code: Option<Seq<char>>) -> Seq<char> {
    let primary = lowercase_of(
        match code {
            Some(c) => first_field(c, '-', '_'),
            None => "en"@,
        },
    );
    if supported_language(primary) {
        primary
    } else {
        "en"@
    }
}

/// Maps a client language code (e.g. `en-US`) to a supported locale.
pub fn normalize_language(code: Option<&str>) -> (lang: String)
    ensures
        lang@ == normalized_language(
            match code {
                Some(c) => Some(c@),
                None => None,
            },
        ),
{
    let primary_raw = match code {
        Some(c) => {
            let chars = chars_of(c);
            let head = first_field_chars(&chars, '-', '_');
            string_of(&head)
        },
        None => string_from("en"),
    };
    let primary = to_lowercase(primary_raw.as_str());
    if is_supported(primary.as_str()) {
        primary
    } else {
        string_from("en")
    }
}

/// A normalized locale code is always supported.
pub proof fn normalized_language_is_supported(code: Option<Seq<char>>)
    ensures
        supported_language(normalized_language(code)),
{
}

proof fn lemma_supported_code_is_fixed(c: Seq<char>)
    requires
        supported_language(c),
    ensures
        lowercase_of(first_field(c, '-', '_')) == c,
{
    reveal_strlit("en");
    reveal_strlit("tr");
    reveal_strlit("fr");
    reveal_strlit("de");
    reveal_strlit("ar");
    reveal_strlit("ru");
    reveal_with_fuel(first_field, 3);
    assert(c.len() == 2);
    assert(c.drop_first().drop_first() =~= Seq::<char>::empty());
    assert(first_field(c.drop_first(), '-', '_') =~= seq![c[1]]);
    assert(first_field(c, '-', '_') =~= c);
    assert(all_ascii(c));
    assert(c.map_values(|ch: char| ascii_lower(ch)) =~= c);
}

/// Normalizing is idempotent: a normalized code normalizes to itself.
pub proof fn normalizing_twice_changes_nothing(code: Option<Seq<char>>)
    ensures
        normalized_language(Some(normalized_language(code))) == normalized_language(code),
{
    lemma_supported_code_is_fixed(normalized_language(code));
}

/// The locale whose source a lookup in `lang` reads: `lang` itself when
/// supported, `en` otherwise.
pub open spec fn effective_locale(lang: Seq<char>) -> Seq<char> {
    if supported_language(lang) {
        lang
    } else {
        "en"@
    }
}

/// The marker shown in place of a message that cannot be resolved.
pub open spec fn missing_marker(key: Seq<char>) -> Seq<char> {
    "[["@ + key + "]]"@
}

/// The text `t_args(lang, key, args)` returns.
pub open spec fn translated(lang: Seq<char>, key: Seq<char>, args: Seq<(Seq<char>, Seq<char>)>) -> Seq<char> {
    let locale = effective_locale(lang);
    match fluent_render(locale_source(locale), locale, key, args) {
        Some(text) => text,
        None => missing_marker(key),
    }
}

fn source_for(locale: &str) -> (s: &'static str)
    ensures
        s@ == locale_source(locale@),
{
    if str_eq(locale, "tr") {
        TR_FTL
    } else if str_eq(locale, "fr") {
        FR_FTL
    } else if str_eq(locale, "de") {
        DE_FTL
    } else if str_eq(locale, "ar") {
        AR_FTL
    } else if str_eq(locale, "ru") {
        RU_FTL
    } else {
        EN_FTL
    }
}

/// Looks up `key` in `lang`'s messages, substituting `args`; falls back to
/// the English messages for an unsupported `lang`, and to a visible
/// `[[key]]` marker when the message is missing.
pub fn t_args(lang: &str, key: &str, args: &Vec<(String, String)>) -> (text: String)
    ensures
        text@ == translated(lang@, key@, args_view(args@)),
{
    let locale: &str = if is_supported(lang) { lang } else { "en" };
    let source = source_for(locale);
    match render_message(source, locale, key, args) {
        Some(text) => text,
        None => {
            let mut marker = string_from("[[");
            marker.append(key);
            marker.append("]]");
            marker
        },
    }
}

/// Looks up `key` in `lang`'s messages.
pub fn t(lang: &str, key: &str) -> (text: String)
    ensures
        text@ == translated(lang@, key@, Seq::empty()),
{
    let none: Vec<(String, String)> = Vec::new();
    assert(args_view(none@) =~= Seq::<(Seq<char>, Seq<char>)>::empty());
    t_args(lang, key, &none)
}

/// The mandatory footer appended to every message in `lang`: company line
/// and rights on one line, the investment-advice disclaimer on the next.
pub open spec fn with_footer_text(lang: Seq<char>, body: Seq<char>) -> Seq<char> {
    body + "\n\n---\n"@ + translated(lang, "footer-company"@, Seq::empty()) + " "@ + translated(
        lang,
        "footer-rights"@,
        Seq::empty(),
    ) + "\n"@ + translated(lang, "footer-disclaimer"@, Seq::empty())
}

/// Appends the mandatory footer to `body`, resolved in `lang`.
pub fn with_footer(lang: &str, body: &str) -> (text: String)
    ensures
        text@ == with_footer_text(lang@, body@),
{
    let company = t(lang, "footer-company");
    let rights = t(lang, "footer-rights");
    let disclaimer = t(lang, "footer-disclaimer");
    let mut text = string_from(body);
    text.append("\n\n---\n");
    text.append(company.as_str());
    text.append(" ");
    text.append(rights.as_str());
    text.append("\n");
    text.append(disclaimer.as_str());
    text
}

/// Every message carries the disclaimer: the text `with_footer` produces
/// ends with the disclaimer resolved in the same language.
pub proof fn footer_ends_with_disclaimer(lang: Seq<char>, body: Seq<char>)
    ensures
        ({
            let text = with_footer_text(lang, body);
            let d = translated(lang, "footer-disclaimer"@, Seq::empty());
            text.len() >= d.len() && text.subrange(text.len() - d.len(), text.len() as int) == d
        }),
{
    let text = with_footer_text(lang, body);
    let d = translated(lang, "footer-disclaimer"@, Seq::empty());
    assert(text.subrange(text.len() - d.len(), text.len() as int) =~= d);
}

/// The body is kept unchanged at the start of every footed message.
pub proof fn footer_keeps_body(lang: Seq<char>, body: Seq<char>)
    ensures
        with_footer_text(lang, body).len() >= body.len(),
        with_footer_text(lang, body).subrange(0, body.len() as int) == body,
{
    assert(with_footer_text(lang, body).subrange(0, body.len() as int) =~= body);
}

} // verus!
