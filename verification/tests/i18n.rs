use boldtrace::i18n::{normalize_language, t, t_args, with_footer, SUPPORTED_LANGUAGES, is_supported};

#[test]
fn normalizes_unsupported_and_regional_codes() {
    assert_eq!(normalize_language(Some("en-US")), "en");
    assert_eq!(normalize_language(Some("tr")), "tr");
    assert_eq!(normalize_language(Some("xx")), "en");
    assert_eq!(normalize_language(None), "en");
}

#[test]
fn resolves_a_plain_message_in_every_supported_language() {
    for lang in SUPPORTED_LANGUAGES {
        let message = t(lang, "welcome-greeting");
        assert!(!message.is_empty(), "missing welcome-greeting for {lang}");
        assert!(!message.starts_with("[["), "unresolved key for {lang}: {message}");
    }
}

#[test]
fn resolves_a_message_with_arguments() {
    let message = t_args("en", "language-changed", &vec![("language".to_string(), "English".to_string())]);
    assert!(message.contains("English"));
}

#[test]
fn footer_always_carries_the_disclaimer() {
    for lang in SUPPORTED_LANGUAGES {
        let footer = with_footer(lang, "body");
        assert!(!t(lang, "footer-disclaimer").is_empty());
        assert!(footer.contains(&t(lang, "footer-disclaimer")));
    }
}

#[test]
fn missing_key_falls_back_to_a_visible_marker_instead_of_panicking() {
    let message = t("en", "does-not-exist");
    assert_eq!(message, "[[does-not-exist]]");
}

#[test]
fn unsupported_language_falls_back_to_english_messages() {
    assert_eq!(t("xx", "footer-disclaimer"), t("en", "footer-disclaimer"));
    assert!(!is_supported("xx"));
    assert!(is_supported("ru"));
}

#[test]
fn footer_keeps_the_body_first_and_ends_with_the_disclaimer() {
    let text = with_footer("de", "Hallo");
    assert!(text.starts_with("Hallo\n\n---\n"));
    assert!(text.ends_with(&t("de", "footer-disclaimer")));
    assert_eq!(t("de", "footer-disclaimer"), "Dies ist keine Anlageberatung.");
}

#[test]
fn normalizes_underscore_regions_and_case() {
    assert_eq!(normalize_language(Some("FR_ca")), "fr");
    assert_eq!(normalize_language(Some("")), "en");
    assert_eq!(normalize_language(Some("-de")), "en");
}

#[test]
fn normalizing_a_normalized_code_keeps_it() {
    for raw in [Some("DE_at"), Some("Fr-CA"), Some("xx"), None, Some("")] {
        let once = normalize_language(raw);
        assert_eq!(normalize_language(Some(&once)), once);
    }
}
