use leptos_typeahead::TypeaheadTheme;

#[test]
fn default_theme_style() {
    let style = TypeaheadTheme::default().to_style();
    assert_eq!(
        style,
        "--ta-text: #111827; --ta-muted-text: #6b7280; --ta-placeholder: #9ca3af; --ta-border: #d1d5db; \
         --ta-radius: 0.375rem; --ta-accent: #4f46e5; --ta-active-bg: #4f46e5; --ta-active-text: #ffffff; \
         --ta-input-bg: #ffffff; --ta-menu-bg: #ffffff; --ta-menu-shadow: 0 10px 15px -3px rgba(0, 0, 0, 0.1), 0 4px 6px -4px rgba(0, 0, 0, 0.1); --ta-token-bg: #eef2ff; \
         --ta-token-text: #4338ca; --ta-token-border: #c7d2fe; --ta-highlight-bg: #fef08a; \
         --ta-font-family: sans-serif; --ta-font-size: 1rem"
    );
}

#[test]
fn overridden_field_shows_in_style() {
    let theme = TypeaheadTheme { accent_color: "#059669".into(), ..Default::default() };
    assert!(theme.to_style().contains("--ta-accent: #059669;"));
    assert_ne!(theme, TypeaheadTheme::default());
    assert_eq!(theme.clone(), theme);
}

#[test]
fn default_theme_fields() {
    let t = TypeaheadTheme::default();
    assert_eq!(t.text_color, "#111827");
    assert_eq!(t.font_family, "sans-serif");
    assert_eq!(t.font_size, "1rem");
}
