//! Telegram bot rules: commands, consent gating, user records, callback
//! data, smart-alert cooldowns and the texts of the fixed screens.

use vstd::prelude::*;
use vstd::string::*;
use vstd::hash_map::StringHashMap;
use std::collections::HashMap;
use crate::i18n::{
    args_view, is_supported, normalize_language, normalized_language, supported_language, t, t_args,
    translated, SUPPORTED_LANGUAGES,
};
use crate::market::Decision;
use crate::text::{
    chars_of, concat, starts_with, str_eq, string_from, string_of, to_uppercase, trim, trimmed,
    uppercase_of, has_prefix,
};

verus! {

broadcast use vstd::string::group_string_axioms, vstd::std_specs::hash::group_hash_axioms;

/// Commands the bot understands.
#[derive(Debug, Clone)]
pub enum Command {
    Start,
    Help,
    Language,
    /// `/tara <SYMBOL>`
    Tara(String),
    /// `/history <SYMBOL>`
    History(String),
    /// `/performance <SYMBOL>`
    Performance(String),
    /// `/alarm <SYMBOL> <THRESHOLD>`
    Alarm { symbol: String, threshold: String },
}

/// Every command but `/start` needs consent to the current terms first.
pub fn requires_consent(cmd: &Command) -> (r: bool)
    ensures
        r == !(cmd is Start),
{
    match cmd {
        Command::Start => false,
        _ => true,
    }
}

/// Version of the terms a Telegram user must have accepted; bumping it asks
/// every user to consent again.
pub const CURRENT_TERMS_VERSION: &'static str = "v1";

/// A bot user.
#[derive(Debug)]
pub struct User {
    pub telegram_id: i64,
    pub language: String,
    pub consent_given_at: Option<i64>,
    pub consent_terms_version: Option<String>,
}

/// A user by plain values.
pub struct UserView {
    pub telegram_id: i64,
    pub language: Seq<char>,
    pub consent_given_at: Option<i64>,
    pub consent_terms_version: Option<Seq<char>>,
}

impl User {
    pub open spec fn view(&self) -> UserView {
        UserView {
            telegram_id: self.telegram_id,
            language: self.language@,
            consent_given_at: self.consent_given_at,
            consent_terms_version: match self.consent_terms_version {
                Some(v) => Some(v@),
                None => None,
            },
        }
    }

    pub fn duplicate(&self) -> (u: User)
        ensures
            u.view() == self.view(),
    {
        User {
            telegram_id: self.telegram_id,
            language: self.language.clone(),
            consent_given_at: self.consent_given_at,
            consent_terms_version: match &self.consent_terms_version {
                Some(v) => Some(v.clone()),
                None => None,
            },
        }
    }
}

/// Whether a user has accepted the current terms version.
pub open spec fn consented_currently(user: Option<UserView>) -> bool {
    match user {
        Some(u) => u.consent_terms_version == Some(CURRENT_TERMS_VERSION@),
        None => false,
    }
}

pub fn has_current_consent(user: Option<&User>) -> (r: bool)
    ensures
        r == consented_currently(
            match user {
                Some(u) => Some(u.view()),
                None => None,
            },
        ),
{
    match user {
        Some(u) => match &u.consent_terms_version {
            Some(v) => str_eq(v.as_str(), CURRENT_TERMS_VERSION),
            None => false,
        },
        None => false,
    }
}

/// Whether a command runs, or the consent screen is shown in its place:
/// `/start` always runs, every other command only for a user who accepted
/// the current terms.
pub fn command_may_run(cmd: &Command, user: Option<&User>) -> (r: bool)
    ensures
        r == (cmd is Start || consented_currently(
            match user {
                Some(u) => Some(u.view()),
                None => None,
            },
        )),
{
    !requires_consent(cmd) || has_current_consent(user)
}

/// Users kept in memory, by Telegram id.
pub struct InMemoryUserStore {
    users: HashMap<i64, User>,
}

impl InMemoryUserStore {
    pub closed spec fn users(&self) -> Map<i64, UserView> {
        self.users@.map_values(|u: User| u.view())
    }

    pub fn new() -> (s: Self)
        ensures
            s.users() == Map::<i64, UserView>::empty(),
    {
        let s = InMemoryUserStore { users: HashMap::new() };
        assert(s.users() =~= Map::<i64, UserView>::empty());
        s
    }

    pub fn get(&self, telegram_id: i64) -> (u: Option<User>)
        ensures
            match u {
                Some(user) => self.users().contains_key(telegram_id) && user.view() == self.users()[telegram_id],
                None => !self.users().contains_key(telegram_id),
            },
    {
        match self.users.get(&telegram_id) {
            Some(user) => Some(user.duplicate()),
            None => None,
        }
    }

    /// Sets a user's language, creating the user without consent if needed.
    pub fn set_language(&mut self, telegram_id: i64, language: &str)
        ensures
            final(self).users() == old(self).users().insert(
                telegram_id,
                if old(self).users().contains_key(telegram_id) {
                    UserView { language: language@, ..old(self).users()[telegram_id] }
                } else {
                    UserView {
                        telegram_id,
                        language: language@,
                        consent_given_at: None,
                        consent_terms_version: None,
                    }
                },
            ),
    {
        let updated = match self.users.get(&telegram_id) {
            Some(user) => User {
                telegram_id: user.telegram_id,
                language: string_from(language),
                consent_given_at: user.consent_given_at,
                consent_terms_version: match &user.consent_terms_version {
                    Some(v) => Some(v.clone()),
                    None => None,
                },
            },
            None => User {
                telegram_id,
                language: string_from(language),
                consent_given_at: None,
                consent_terms_version: None,
            },
        };
        let ghost v = updated.view();
        self.users.insert(telegram_id, updated);
        assert(self.users() =~= old(self).users().insert(telegram_id, v));
    }

    /// Records consent to `terms_version` at `consented_at`, creating the
    /// user with the default language if needed.
    pub fn record_consent(&mut self, telegram_id: i64, terms_version: &str, consented_at: i64)
        ensures
            final(self).users() == old(self).users().insert(
                telegram_id,
                if old(self).users().contains_key(telegram_id) {
                    UserView {
                        consent_given_at: Some(consented_at),
                        consent_terms_version: Some(terms_version@),
                        ..old(self).users()[telegram_id]
                    }
                } else {
                    UserView {
                        telegram_id,
                        language: "en"@,
                        consent_given_at: Some(consented_at),
                        consent_terms_version: Some(terms_version@),
                    }
                },
            ),
    {
        let updated = match self.users.get(&telegram_id) {
            Some(user) => User {
                telegram_id: user.telegram_id,
                language: user.language.clone(),
                consent_given_at: Some(consented_at),
                consent_terms_version: Some(string_from(terms_version)),
            },
            None => User {
                telegram_id,
                language: string_from("en"),
                consent_given_at: Some(consented_at),
                consent_terms_version: Some(string_from(terms_version)),
            },
        };
        let ghost v = updated.view();
        self.users.insert(telegram_id, updated);
        assert(self.users() =~= old(self).users().insert(telegram_id, v));
    }
}

/// Language and consent are recorded independently: consenting keeps the
/// chosen language, and choosing a language keeps the consent.
pub proof fn language_and_consent_are_independent(before: UserView, language: Seq<char>, version: Seq<char>, at: i64)
    ensures
        (UserView { consent_given_at: Some(at), consent_terms_version: Some(version), ..before }).language
            == before.language,
        (UserView { language, ..before }).consent_terms_version == before.consent_terms_version,
        (UserView { language, ..before }).consent_given_at == before.consent_given_at,
{
}

/// Consenting to the current terms is what grants current consent, for a
/// new user as for a known one.
pub proof fn consent_to_current_terms_is_current(store_users: Map<i64, UserView>, id: i64, at: i64)
    ensures
        consented_currently(
            Some(
                if store_users.contains_key(id) {
                    UserView {
                        consent_given_at: Some(at),
                        consent_terms_version: Some(CURRENT_TERMS_VERSION@),
                        ..store_users[id]
                    }
                } else {
                    UserView {
                        telegram_id: id,
                        language: "en"@,
                        consent_given_at: Some(at),
                        consent_terms_version: Some(CURRENT_TERMS_VERSION@),
                    }
                },
            ),
        ),
{
}

/// The language to answer a chat in: the stored user's language, or the
/// client's language normalized when the user is unknown.
pub fn resolved_language(stored: Option<&User>, client_code: Option<&str>) -> (lang: String)
    ensures
        lang@ == match stored {
            Some(u) => u.language@,
            None => normalized_language(
                match client_code {
                    Some(c) => Some(c@),
                    None => None,
                },
            ),
        },
{
    match stored {
        Some(u) => u.language.clone(),
        None => normalize_language(client_code),
    }
}

/// What an inline-keyboard press asks for.
pub enum CallbackAction {
    /// Switch to this supported language.
    SetLanguage(String),
    AcceptConsent,
    Ignore,
}

pub open spec fn language_choice(data: Seq<char>) -> Option<Seq<char>> {
    if starts_with(data, "lang:"@) && supported_language(data.skip(5)) {
        Some(data.skip(5))
    } else {
        None
    }
}

/// Reads the data of a callback button: `lang:<code>` with a supported code
/// switches language, `consent:accept` accepts the terms, anything else is
/// ignored.
pub fn parse_callback(data: &str) -> (a: CallbackAction)
    ensures
        match a {
            CallbackAction::SetLanguage(code) => language_choice(data@) == Some(code@),
            CallbackAction::AcceptConsent => language_choice(data@) is None && !starts_with(data@, "lang:"@)
                && data@ == "consent:accept"@,
            CallbackAction::Ignore => language_choice(data@) is None && (starts_with(data@, "lang:"@)
                || data@ != "consent:accept"@),
        },
{
    proof {
        reveal_strlit("lang:");
    }
    if has_prefix(data, "lang:") {
        let chars = chars_of(data);
        let mut rest: Vec<char> = Vec::new();
        let mut i: usize = 5;
        while i < chars.len()
            invariant
                5 <= i <= chars.len(),
                chars@ == data@,
                rest@ == data@.subrange(5, i as int),
            decreases chars.len() - i,
        {
            rest.push(chars[i]);
            assert(data@.subrange(5, i + 1) =~= data@.subrange(5, i as int).push(data@[i as int]));
            i += 1;
        }
        assert(rest@ =~= data@.skip(5));
        let code = string_of(&rest);
        if is_supported(code.as_str()) {
            CallbackAction::SetLanguage(code)
        } else {
            CallbackAction::Ignore
        }
    } else if str_eq(data, "consent:accept") {
        CallbackAction::AcceptConsent
    } else {
        CallbackAction::Ignore
    }
}

/// The symbol of a command argument: trimmed and uppercased.
pub fn command_symbol(raw: &str) -> (s: String)
    ensures
        s@ == uppercase_of(trimmed(raw@)),
{
    to_uppercase(trim(raw).as_str())
}

/// The consent screen: title and body separated by a blank line.
pub fn consent_screen_text(lang: &str) -> (s: String)
    ensures
        s@ == translated(lang@, "consent-title"@, Seq::empty()) + "\n\n"@ + translated(lang@, "consent-body"@, Seq::empty()),
{
    let title = t(lang, "consent-title");
    let body = t(lang, "consent-body");
    let mut s = title;
    s.append("\n\n");
    s.append(body.as_str());
    s
}

/// The welcome screen: greeting, then the request to choose a language.
pub fn welcome_text(lang: &str) -> (s: String)
    ensures
        s@ == translated(lang@, "welcome-greeting"@, Seq::empty()) + "\n"@ + translated(lang@, "welcome-choose-language"@, Seq::empty()),
{
    let greeting = t(lang, "welcome-greeting");
    let choose = t(lang, "welcome-choose-language");
    let mut s = greeting;
    s.append("\n");
    s.append(choose.as_str());
    s
}

/// The help screen: the translated command descriptions, then the history
/// and performance commands, one per line.
pub fn help_text(lang: &str) -> (s: String)
    ensures
        s@ == translated(lang@, "help-title"@, Seq::empty()) + "\n"@ + translated(lang@, "help-tara"@, Seq::empty()) + "\n"@
            + translated(lang@, "help-alarm"@, Seq::empty()) + "\n"@ + translated(lang@, "help-language"@, Seq::empty())
            + "\n"@ + translated(lang@, "help-help"@, Seq::empty()) + "\n"@ + "/history <SYMBOL>"@ + "\n"@
            + "/performance <SYMBOL>"@,
{
    let mut s = t(lang, "help-title");
    s.append("\n");
    s.append(t(lang, "help-tara").as_str());
    s.append("\n");
    s.append(t(lang, "help-alarm").as_str());
    s.append("\n");
    s.append(t(lang, "help-language").as_str());
    s.append("\n");
    s.append(t(lang, "help-help").as_str());
    s.append("\n");
    s.append("/history <SYMBOL>");
    s.append("\n");
    s.append("/performance <SYMBOL>");
    s
}

/// Button label and callback data of each language button: the language's
/// name as the English messages give it, and `lang:<code>`.
pub fn language_buttons() -> (buttons: Vec<(String, String)>)
    ensures
        buttons.len() == SUPPORTED_LANGUAGES@.len(),
        forall|k: int| 0 <= k < buttons.len() ==> {
            &&& #[trigger] buttons@[k].0@ == translated("en"@, "language-name-"@ + SUPPORTED_LANGUAGES@[k]@, Seq::empty())
            &&& buttons@[k].1@ == "lang:"@ + SUPPORTED_LANGUAGES@[k]@
        },
{
    let codes = SUPPORTED_LANGUAGES;
    let mut buttons: Vec<(String, String)> = Vec::new();
    let mut i: usize = 0;
    while i < 6
        invariant
            i <= 6,
            codes@ == SUPPORTED_LANGUAGES@,
            codes@.len() == 6,
            buttons.len() == i,
            forall|k: int| 0 <= k < i ==> {
                &&& #[trigger] buttons@[k].0@ == translated("en"@, "language-name-"@ + codes@[k]@, Seq::empty())
                &&& buttons@[k].1@ == "lang:"@ + codes@[k]@
            },
        decreases 6 - i,
    {
        let code = codes[i];
        let key = concat("language-name-", code);
        let label = t("en", key.as_str());
        let data = concat("lang:", code);
        buttons.push((label, data));
        i += 1;
    }
    buttons
}

/// Label and callback data of the button that accepts the terms.
pub fn consent_button(lang: &str) -> (b: (String, String))
    ensures
        b.0@ == translated(lang@, "consent-accept-button"@, Seq::empty()),
        b.1@ == "consent:accept"@,
{
    (t(lang, "consent-accept-button"), string_from("consent:accept"))
}

/// The confirmation sent after switching to language `code`, naming the
/// language in itself.
pub fn language_changed_text(code: &str) -> (s: String)
    ensures
        s@ == translated(
            code@,
            "language-changed"@,
            seq![("language"@, translated(code@, "language-name-"@ + code@, Seq::empty()))],
        ),
{
    let key = concat("language-name-", code);
    let name = t(code, key.as_str());
    let mut args: Vec<(String, String)> = Vec::new();
    args.push((string_from("language"), name));
    assert(args_view(args@) =~= seq![("language"@, translated(code@, "language-name-"@ + code@, Seq::empty()))]);
    t_args(code, "language-changed", &args)
}

/// The reply when no decision of `symbol` is recorded.
pub fn no_history_text(symbol: &str) -> (s: String)
    ensures
        s@ == "No decision history for "@ + symbol@,
{
    concat("No decision history for ", symbol)
}

/// The reply when no performance of `symbol` is recorded.
pub fn no_performance_text(symbol: &str) -> (s: String)
    ensures
        s@ == "No performance history for "@ + symbol@,
{
    concat("No performance history for ", symbol)
}

/// When the last smart alert of each symbol fired, and for which decision.
pub struct SmartAlertGate {
    last: StringHashMap<(Decision, i64)>,
}

/// Whether a smart alert fires: the decision must be directional, the
/// decision must pass the confidence and risk thresholds, and the same
/// decision must not have fired for the symbol within the cooldown.
pub open spec fn alert_fires(last: Option<(Decision, i64)>, decision: Decision, passes_thresholds: bool, now_ms: i64, cooldown_ms: i64) -> bool {
    &&& !(decision is Neutral || decision is NoTrade)
    &&& passes_thresholds
    &&& !(last matches Some((d, at)) && d == decision && now_ms - at < cooldown_ms)
}

impl SmartAlertGate {
    pub closed spec fn fired(&self) -> Map<Seq<char>, (Decision, i64)> {
        self.last@
    }

    pub open spec fn last_for(&self, symbol: Seq<char>) -> Option<(Decision, i64)> {
        if self.fired().contains_key(symbol) { Some(self.fired()[symbol]) } else { None }
    }

    pub fn new() -> (g: Self)
        ensures
            g.fired() == Map::<Seq<char>, (Decision, i64)>::empty(),
    {
        SmartAlertGate { last: StringHashMap::new() }
    }

    /// Decides whether a smart alert fires for `decision` on `symbol` at
    /// `now_ms`, given whether the decision passes the confidence and risk
    /// thresholds; a fired alert is remembered for the cooldown.
    pub fn evaluate(&mut self, symbol: &str, decision: Decision, passes_thresholds: bool, now_ms: i64, cooldown_ms: i64) -> (fires: bool)
        ensures
            fires == alert_fires(old(self).last_for(symbol@), decision, passes_thresholds, now_ms, cooldown_ms),
            fires ==> final(self).fired() == old(self).fired().insert(symbol@, (decision, now_ms)),
            !fires ==> final(self).fired() == old(self).fired(),
    {
        let directional = match decision {
            Decision::Neutral | Decision::NoTrade => false,
            _ => true,
        };
        if !directional || !passes_thresholds {
            return false;
        }
        match self.last.get(symbol) {
            Some(prev) => {
                let (previous, at) = *prev;
                if previous == decision && (now_ms as i128) - (at as i128) < cooldown_ms as i128 {
                    return false;
                }
            },
            None => {},
        }
        self.last.insert(String::from_str(symbol), (decision, now_ms));
        true
    }
}

/// A fired alert silences the same decision on the same symbol until the
/// cooldown has passed.
pub proof fn cooldown_silences_repeats(decision: Decision, fired_at: i64, now_ms: i64, cooldown_ms: i64, passes: bool)
    requires
        now_ms - fired_at < cooldown_ms,
    ensures
        !alert_fires(Some((decision, fired_at)), decision, passes, now_ms, cooldown_ms),
{
}

/// A different decision is not held back by another decision's cooldown.
pub proof fn cooldown_is_per_decision(previous: Decision, fired_at: i64, decision: Decision, now_ms: i64, cooldown_ms: i64)
    requires
        previous != decision,
        !(decision is Neutral || decision is NoTrade),
    ensures
        alert_fires(Some((previous, fired_at)), decision, true, now_ms, cooldown_ms),
{
}

} // verus!
