use vstd::prelude::*;

verus! {

broadcast use vstd::string::group_string_axioms;

/// Every visual aspect of the typeahead, applied as CSS custom properties on
/// the component's root element. Override only what you need with struct
/// update syntax over `TypeaheadTheme::default()`.
#[derive(Debug, Clone)]
pub struct TypeaheadTheme {
    pub text_color: String,
    pub muted_text_color: String,
    pub placeholder_color: String,
    pub border_color: String,
    pub border_radius: String,
    pub accent_color: String,
    pub active_background: String,
    pub active_text_color: String,
    pub input_background: String,
    pub menu_background: String,
    pub menu_shadow: String,
    pub token_background: String,
    pub token_text_color: String,
    pub token_border_color: String,
    pub highlight_background: String,
    pub font_family: String,
    pub font_size: String,
}

impl PartialEq for TypeaheadTheme {
    fn eq(&self, other: &Self) -> (r: bool) {
        self.text_color == other.text_color
            && self.muted_text_color == other.muted_text_color
            && self.placeholder_color == other.placeholder_color
            && self.border_color == other.border_color
            && self.border_radius == other.border_radius
            && self.accent_color == other.accent_color
            && self.active_background == other.active_background
            && self.active_text_color == other.active_text_color
            && self.input_background == other.input_background
            && self.menu_background == other.menu_background
            && self.menu_shadow == other.menu_shadow
            && self.token_background == other.token_background
            && self.token_text_color == other.token_text_color
            && self.token_border_color == other.token_border_color
            && self.highlight_background == other.highlight_background
            && self.font_family == other.font_family
            && self.font_size == other.font_size
    }
}

impl vstd::std_specs::cmp::PartialEqSpecImpl for TypeaheadTheme {
    open spec fn obeys_eq_spec() -> bool {
        true
    }

    open spec fn eq_spec(&self, other: &Self) -> bool {
        self.text_color@ == other.text_color@
            && self.muted_text_color@ == other.muted_text_color@
            && self.placeholder_color@ == other.placeholder_color@
            && self.border_color@ == other.border_color@
            && self.border_radius@ == other.border_radius@
            && self.accent_color@ == other.accent_color@
            && self.active_background@ == other.active_background@
            && self.active_text_color@ == other.active_text_color@
            && self.input_background@ == other.input_background@
            && self.menu_background@ == other.menu_background@
            && self.menu_shadow@ == other.menu_shadow@
            && self.token_background@ == other.token_background@
            && self.token_text_color@ == other.token_text_color@
            && self.token_border_color@ == other.token_border_color@
            && self.highlight_background@ == other.highlight_background@
            && self.font_family@ == other.font_family@
            && self.font_size@ == other.font_size@
    }
}

impl Default for TypeaheadTheme {
    /// The stock look: an indigo accent on white.
    fn default() -> (r: Self)
        ensures
            r.text_color@ == "#111827"@,
            r.muted_text_color@ == "#6b7280"@,
            r.placeholder_color@ == "#9ca3af"@,
            r.border_color@ == "#d1d5db"@,
            r.border_radius@ == "0.375rem"@,
            r.accent_color@ == "#4f46e5"@,
            r.active_background@ == "#4f46e5"@,
            r.active_text_color@ == "#ffffff"@,
            r.input_background@ == "#ffffff"@,
            r.menu_background@ == "#ffffff"@,
            r.menu_shadow@ == "0 10px 15px -3px rgba(0, 0, 0, 0.1), 0 4px 6px -4px rgba(0, 0, 0, 0.1)"@,
            r.token_background@ == "#eef2ff"@,
            r.token_text_color@ == "#4338ca"@,
            r.token_border_color@ == "#c7d2fe"@,
            r.highlight_background@ == "#fef08a"@,
            r.font_family@ == "sans-serif"@,
            r.font_size@ == "1rem"@,
    {
        TypeaheadTheme {
            text_color: String::from_str("#111827"),
            muted_text_color: String::from_str("#6b7280"),
            placeholder_color: String::from_str("#9ca3af"),
            border_color: String::from_str("#d1d5db"),
            border_radius: String::from_str("0.375rem"),
            accent_color: String::from_str("#4f46e5"),
            active_background: String::from_str("#4f46e5"),
            active_text_color: String::from_str("#ffffff"),
            input_background: String::from_str("#ffffff"),
            menu_background: String::from_str("#ffffff"),
            menu_shadow: String::from_str("0 10px 15px -3px rgba(0, 0, 0, 0.1), 0 4px 6px -4px rgba(0, 0, 0, 0.1)"),
            token_background: String::from_str("#eef2ff"),
            token_text_color: String::from_str("#4338ca"),
            token_border_color: String::from_str("#c7d2fe"),
            highlight_background: String::from_str("#fef08a"),
            font_family: String::from_str("sans-serif"),
            font_size: String::from_str("1rem"),
        }
    }
}

/// The inline `style` text of a theme: one `--ta-*` custom property per
/// field, in declaration order, separated by `; `.
pub open spec fn style_text(t: TypeaheadTheme) -> Seq<char> {
    "--ta-text: "@ + t.text_color@
        + "; --ta-muted-text: "@ + t.muted_text_color@
        + "; --ta-placeholder: "@ + t.placeholder_color@
        + "; --ta-border: "@ + t.border_color@
        + "; --ta-radius: "@ + t.border_radius@
        + "; --ta-accent: "@ + t.accent_color@
        + "; --ta-active-bg: "@ + t.active_background@
        + "; --ta-active-text: "@ + t.active_text_color@
        + "; --ta-input-bg: "@ + t.input_background@
        + "; --ta-menu-bg: "@ + t.menu_background@
        + "; --ta-menu-shadow: "@ + t.menu_shadow@
        + "; --ta-token-bg: "@ + t.token_background@
        + "; --ta-token-text: "@ + t.token_text_color@
        + "; --ta-token-border: "@ + t.token_border_color@
        + "; --ta-highlight-bg: "@ + t.highlight_background@
        + "; --ta-font-family: "@ + t.font_family@
        + "; --ta-font-size: "@ + t.font_size@
}



/// `style` holds the declaration `name` followed by `value`, somewhere.
pub open spec fn declares(style: Seq<char>, name: Seq<char>, value: Seq<char>) -> bool {
    exists|a: Seq<char>, b: Seq<char>| #![trigger a + name + value + b] style == a + name + value + b
}

/// A declaration stays declared when more text follows.
proof fn lemma_declares_extend(style: Seq<char>, name: Seq<char>, value: Seq<char>, x: Seq<char>, y: Seq<char>)
    requires
        declares(style, name, value),
    ensures
        declares(style + x + y, name, value),
{
    let (a, b): (Seq<char>, Seq<char>) = choose|a: Seq<char>, b: Seq<char>|
        #![trigger a + name + value + b] style == a + name + value + b;
    assert(style + x + y =~= a + name + value + (b + x + y));
}

/// A declaration at the end of a text, after the `; ` separator.
proof fn lemma_declares_last(front: Seq<char>, sep_name: Seq<char>, name: Seq<char>, value: Seq<char>)
    requires
        sep_name == "; "@ + name,
    ensures
        declares(front + sep_name + value, name, value),
{
    let a = front + "; "@;
    let b = Seq::<char>::empty();
    assert(front + sep_name + value =~= a + name + value + b);
}

proof fn lemma_declares_text_color(t: TypeaheadTheme)
    ensures
        declares(style_text(t), "--ta-text: "@, t.text_color@),
{
    let first = "--ta-text: "@ + t.text_color@;
    assert(first =~= Seq::<char>::empty() + "--ta-text: "@ + t.text_color@ + Seq::<char>::empty());
    assert(declares(first, "--ta-text: "@, t.text_color@));
    lemma_declares_extend("--ta-text: "@ + t.text_color@, "--ta-text: "@, t.text_color@, "; --ta-muted-text: "@, t.muted_text_color@);
    lemma_declares_extend("--ta-text: "@ + t.text_color@ + "; --ta-muted-text: "@ + t.muted_text_color@, "--ta-text: "@, t.text_color@, "; --ta-placeholder: "@, t.placeholder_color@);
    lemma_declares_extend("--ta-text: "@ + t.text_color@ + "; --ta-muted-text: "@ + t.muted_text_color@ + "; --ta-placeholder: "@ + t.placeholder_color@, "--ta-text: "@, t.text_color@, "; --ta-border: "@, t.border_color@);
    lemma_declares_extend("--ta-text: "@ + t.text_color@ + "; --ta-muted-text: "@ + t.muted_text_color@ + "; --ta-placeholder: "@ + t.placeholder_color@ + "; --ta-border: "@ + t.border_color@, "--ta-text: "@, t.text_color@, "; --ta-radius: "@, t.border_radius@);
    lemma_declares_extend("--ta-text: "@ + t.text_color@ + "; --ta-muted-text: "@ + t.muted_text_color@ + "; --ta-placeholder: "@ + t.placeholder_color@ + "; --ta-border: "@ + t.border_color@ + "; --ta-radius: "@ + t.border_radius@, "--ta-text: "@, t.text_color@, "; --ta-accent: "@, t.accent_color@);
    lemma_declares_extend("--ta-text: "@ + t.text_color@ + "; --ta-muted-text: "@ + t.muted_text_color@ + "; --ta-placeholder: "@ + t.placeholder_color@ + "; --ta-border: "@ + t.border_color@ + "; --ta-radius: "@ + t.border_radius@ + "; --ta-accent: "@ + t.accent_color@, "--ta-text: "@, t.text_color@, "; --ta-active-bg: "@, t.active_background@);
    lemma_declares_extend("--ta-text: "@ + t.text_color@ + "; --ta-muted-text: "@ + t.muted_text_color@ + "; --ta-placeholder: "@ + t.placeholder_color@ + "; --ta-border: "@ + t.border_color@ + "; --ta-radius: "@ + t.border_radius@ + "; --ta-accent: "@ + t.accent_color@ + "; --ta-active-bg: "@ + t.active_background@, "--ta-text: "@, t.text_color@, "; --ta-active-text: "@, t.active_text_color@);
    lemma_declares_extend("--ta-text: "@ + t.text_color@ + "; --ta-muted-text: "@ + t.muted_text_color@ + "; --ta-placeholder: "@ + t.placeholder_color@ + "; --ta-border: "@ + t.border_color@ + "; --ta-radius: "@ + t.border_radius@ + "; --ta-accent: "@ + t.accent_color@ + "; --ta-active-bg: "@ + t.active_background@ + "; --ta-active-text: "@ + t.active_text_color@, "--ta-text: "@, t.text_color@, "; --ta-input-bg: "@, t.input_background@);
    lemma_declares_extend("--ta-text: "@ + t.text_color@ + "; --ta-muted-text: "@ + t.muted_text_color@ + "; --ta-placeholder: "@ + t.placeholder_color@ + "; --ta-border: "@ + t.border_color@ + "; --ta-radius: "@ + t.border_radius@ + "; --ta-accent: "@ + t.accent_color@ + "; --ta-active-bg: "@ + t.active_background@ + "; --ta-active-text: "@ + t.active_text_color@ + "; --ta-input-bg: "@ + t.input_background@, "--ta-text: "@, t.text_color@, "; --ta-menu-bg: "@, t.menu_background@);
    lemma_declares_extend("--ta-text: "@ + t.text_color@ + "; --ta-muted-text: "@ + t.muted_text_color@ + "; --ta-placeholder: "@ + t.placeholder_color@ + "; --ta-border: "@ + t.border_color@ + "; --ta-radius: "@ + t.border_radius@ + "; --ta-accent: "@ + t.accent_color@ + "; --ta-active-bg: "@ + t.active_background@ + "; --ta-active-text: "@ + t.active_text_color@ + "; --ta-input-bg: "@ + t.input_background@ + "; --ta-menu-bg: "@ + t.menu_background@, "--ta-text: "@, t.text_color@, "; --ta-menu-shadow: "@, t.menu_shadow@);
    lemma_declares_extend("--ta-text: "@ + t.text_color@ + "; --ta-muted-text: "@ + t.muted_text_color@ + "; --ta-placeholder: "@ + t.placeholder_color@ + "; --ta-border: "@ + t.border_color@ + "; --ta-radius: "@ + t.border_radius@ + "; --ta-accent: "@ + t.accent_color@ + "; --ta-active-bg: "@ + t.active_background@ + "; --ta-active-text: "@ + t.active_text_color@ + "; --ta-input-bg: "@ + t.input_background@ + "; --ta-menu-bg: "@ + t.menu_background@ + "; --ta-menu-shadow: "@ + t.menu_shadow@, "--ta-text: "@, t.text_color@, "; --ta-token-bg: "@, t.token_background@);
    lemma_declares_extend("--ta-text: "@ + t.text_color@ + "; --ta-muted-text: "@ + t.muted_text_color@ + "; --ta-placeholder: "@ + t.placeholder_color@ + "; --ta-border: "@ + t.border_color@ + "; --ta-radius: "@ + t.border_radius@ + "; --ta-accent: "@ + t.accent_color@ + "; --ta-active-bg: "@ + t.active_background@ + "; --ta-active-text: "@ + t.active_text_color@ + "; --ta-input-bg: "@ + t.input_background@ + "; --ta-menu-bg: "@ + t.menu_background@ + "; --ta-menu-shadow: "@ + t.menu_shadow@ + "; --ta-token-bg: "@ + t.token_background@, "--ta-text: "@, t.text_color@, "; --ta-token-text: "@, t.token_text_color@);
    lemma_declares_extend("--ta-text: "@ + t.text_color@ + "; --ta-muted-text: "@ + t.muted_text_color@ + "; --ta-placeholder: "@ + t.placeholder_color@ + "; --ta-border: "@ + t.border_color@ + "; --ta-radius: "@ + t.border_radius@ + "; --ta-accent: "@ + t.accent_color@ + "; --ta-active-bg: "@ + t.active_background@ + "; --ta-active-text: "@ + t.active_text_color@ + "; --ta-input-bg: "@ + t.input_background@ + "; --ta-menu-bg: "@ + t.menu_background@ + "; --ta-menu-shadow: "@ + t.menu_shadow@ + "; --ta-token-bg: "@ + t.token_background@ + "; --ta-token-text: "@ + t.token_text_color@, "--ta-text: "@, t.text_color@, "; --ta-token-border: "@, t.token_border_color@);
    lemma_declares_extend("--ta-text: "@ + t.text_color@ + "; --ta-muted-text: "@ + t.muted_text_color@ + "; --ta-placeholder: "@ + t.placeholder_color@ + "; --ta-border: "@ + t.border_color@ + "; --ta-radius: "@ + t.border_radius@ + "; --ta-accent: "@ + t.accent_color@ + "; --ta-active-bg: "@ + t.active_background@ + "; --ta-active-text: "@ + t.active_text_color@ + "; --ta-input-bg: "@ + t.input_background@ + "; --ta-menu-bg: "@ + t.menu_background@ + "; --ta-menu-shadow: "@ + t.menu_shadow@ + "; --ta-token-bg: "@ + t.token_background@ + "; --ta-token-text: "@ + t.token_text_color@ + "; --ta-token-border: "@ + t.token_border_color@, "--ta-text: "@, t.text_color@, "; --ta-highlight-bg: "@, t.highlight_background@);
    lemma_declares_extend("--ta-text: "@ + t.text_color@ + "; --ta-muted-text: "@ + t.muted_text_color@ + "; --ta-placeholder: "@ + t.placeholder_color@ + "; --ta-border: "@ + t.border_color@ + "; --ta-radius: "@ + t.border_radius@ + "; --ta-accent: "@ + t.accent_color@ + "; --ta-active-bg: "@ + t.active_background@ + "; --ta-active-text: "@ + t.active_text_color@ + "; --ta-input-bg: "@ + t.input_background@ + "; --ta-menu-bg: "@ + t.menu_background@ + "; --ta-menu-shadow: "@ + t.menu_shadow@ + "; --ta-token-bg: "@ + t.token_background@ + "; --ta-token-text: "@ + t.token_text_color@ + "; --ta-token-border: "@ + t.token_border_color@ + "; --ta-highlight-bg: "@ + t.highlight_background@, "--ta-text: "@, t.text_color@, "; --ta-font-family: "@, t.font_family@);
    lemma_declares_extend("--ta-text: "@ + t.text_color@ + "; --ta-muted-text: "@ + t.muted_text_color@ + "; --ta-placeholder: "@ + t.placeholder_color@ + "; --ta-border: "@ + t.border_color@ + "; --ta-radius: "@ + t.border_radius@ + "; --ta-accent: "@ + t.accent_color@ + "; --ta-active-bg: "@ + t.active_background@ + "; --ta-active-text: "@ + t.active_text_color@ + "; --ta-input-bg: "@ + t.input_background@ + "; --ta-menu-bg: "@ + t.menu_background@ + "; --ta-menu-shadow: "@ + t.menu_shadow@ + "; --ta-token-bg: "@ + t.token_background@ + "; --ta-token-text: "@ + t.token_text_color@ + "; --ta-token-border: "@ + t.token_border_color@ + "; --ta-highlight-bg: "@ + t.highlight_background@ + "; --ta-font-family: "@ + t.font_family@, "--ta-text: "@, t.text_color@, "; --ta-font-size: "@, t.font_size@);
}

proof fn lemma_declares_muted_text_color(t: TypeaheadTheme)
    ensures
        declares(style_text(t), "--ta-muted-text: "@, t.muted_text_color@),
{
    reveal_strlit("; --ta-muted-text: ");
    reveal_strlit("--ta-muted-text: ");
    reveal_strlit("; ");
    assert("; --ta-muted-text: "@ =~= "; "@ + "--ta-muted-text: "@);
    lemma_declares_last("--ta-text: "@ + t.text_color@, "; --ta-muted-text: "@, "--ta-muted-text: "@, t.muted_text_color@);
    lemma_declares_extend("--ta-text: "@ + t.text_color@ + "; --ta-muted-text: "@ + t.muted_text_color@, "--ta-muted-text: "@, t.muted_text_color@, "; --ta-placeholder: "@, t.placeholder_color@);
    lemma_declares_extend("--ta-text: "@ + t.text_color@ + "; --ta-muted-text: "@ + t.muted_text_color@ + "; --ta-placeholder: "@ + t.placeholder_color@, "--ta-muted-text: "@, t.muted_text_color@, "; --ta-border: "@, t.border_color@);
    lemma_declares_extend("--ta-text: "@ + t.text_color@ + "; --ta-muted-text: "@ + t.muted_text_color@ + "; --ta-placeholder: "@ + t.placeholder_color@ + "; --ta-border: "@ + t.border_color@, "--ta-muted-text: "@, t.muted_text_color@, "; --ta-radius: "@, t.border_radius@);
    lemma_declares_extend("--ta-text: "@ + t.text_color@ + "; --ta-muted-text: "@ + t.muted_text_color@ + "; --ta-placeholder: "@ + t.placeholder_color@ + "; --ta-border: "@ + t.border_color@ + "; --ta-radius: "@ + t.border_radius@, "--ta-muted-text: "@, t.muted_text_color@, "; --ta-accent: "@, t.accent_color@);
    lemma_declares_extend("--ta-text: "@ + t.text_color@ + "; --ta-muted-text: "@ + t.muted_text_color@ + "; --ta-placeholder: "@ + t.placeholder_color@ + "; --ta-border: "@ + t.border_color@ + "; --ta-radius: "@ + t.border_radius@ + "; --ta-accent: "@ + t.accent_color@, "--ta-muted-text: "@, t.muted_text_color@, "; --ta-active-bg: "@, t.active_background@);
    lemma_declares_extend("--ta-text: "@ + t.text_color@ + "; --ta-muted-text: "@ + t.muted_text_color@ + "; --ta-placeholder: "@ + t.placeholder_color@ + "; --ta-border: "@ + t.border_color@ + "; --ta-radius: "@ + t.border_radius@ + "; --ta-accent: "@ + t.accent_color@ + "; --ta-active-bg: "@ + t.active_background@, "--ta-muted-text: "@, t.muted_text_color@, "; --ta-active-text: "@, t.active_text_color@);
    lemma_declares_extend("--ta-text: "@ + t.text_color@ + "; --ta-muted-text: "@ + t.muted_text_color@ + "; --ta-placeholder: "@ + t.placeholder_color@ + "; --ta-border: "@ + t.border_color@ + "; --ta-radius: "@ + t.border_radius@ + "; --ta-accent: "@ + t.accent_color@ + "; --ta-active-bg: "@ + t.active_background@ + "; --ta-active-text: "@ + t.active_text_color@, "--ta-muted-text: "@, t.muted_text_color@, "; --ta-input-bg: "@, t.input_background@);
    lemma_declares_extend("--ta-text: "@ + t.text_color@ + "; --ta-muted-text: "@ + t.muted_text_color@ + "; --ta-placeholder: "@ + t.placeholder_color@ + "; --ta-border: "@ + t.border_color@ + "; --ta-radius: "@ + t.border_radius@ + "; --ta-accent: "@ + t.accent_color@ + "; --ta-active-bg: "@ + t.active_background@ + "; --ta-active-text: "@ + t.active_text_color@ + "; --ta-input-bg: "@ + t.input_background@, "--ta-muted-text: "@, t.muted_text_color@, "; --ta-menu-bg: "@, t.menu_background@);
    lemma_declares_extend("--ta-text: "@ + t.text_color@ + "; --ta-muted-text: "@ + t.muted_text_color@ + "; --ta-placeholder: "@ + t.placeholder_color@ + "; --ta-border: "@ + t.border_color@ + "; --ta-radius: "@ + t.border_radius@ + "; --ta-accent: "@ + t.accent_color@ + "; --ta-active-bg: "@ + t.active_background@ + "; --ta-active-text: "@ + t.active_text_color@ + "; --ta-input-bg: "@ + t.input_background@ + "; --ta-menu-bg: "@ + t.menu_background@, "--ta-muted-text: "@, t.muted_text_color@, "; --ta-menu-shadow: "@, t.menu_shadow@);
    lemma_declares_extend("--ta-text: "@ + t.text_color@ + "; --ta-muted-text: "@ + t.muted_text_color@ + "; --ta-placeholder: "@ + t.placeholder_color@ + "; --ta-border: "@ + t.border_color@ + "; --ta-radius: "@ + t.border_radius@ + "; --ta-accent: "@ + t.accent_color@ + "; --ta-active-bg: "@ + t.active_background@ + "; --ta-active-text: "@ + t.active_text_color@ + "; --ta-input-bg: "@ + t.input_background@ + "; --ta-menu-bg: "@ + t.menu_background@ + "; --ta-menu-shadow: "@ + t.menu_shadow@, "--ta-muted-text: "@, t.muted_text_color@, "; --ta-token-bg: "@, t.token_background@);
    lemma_declares_extend("--ta-text: "@ + t.text_color@ + "; --ta-muted-text: "@ + t.muted_text_color@ + "; --ta-placeholder: "@ + t.placeholder_color@ + "; --ta-border: "@ + t.border_color@ + "; --ta-radius: "@ + t.border_radius@ + "; --ta-accent: "@ + t.accent_color@ + "; --ta-active-bg: "@ + t.active_background@ + "; --ta-active-text: "@ + t.active_text_color@ + "; --ta-input-bg: "@ + t.input_background@ + "; --ta-menu-bg: "@ + t.menu_background@ + "; --ta-menu-shadow: "@ + t.menu_shadow@ + "; --ta-token-bg: "@ + t.token_background@, "--ta-muted-text: "@, t.muted_text_color@, "; --ta-token-text: "@, t.token_text_color@);
    lemma_declares_extend("--ta-text: "@ + t.text_color@ + "; --ta-muted-text: "@ + t.muted_text_color@ + "; --ta-placeholder: "@ + t.placeholder_color@ + "; --ta-border: "@ + t.border_color@ + "; --ta-radius: "@ + t.border_radius@ + "; --ta-accent: "@ + t.accent_color@ + "; --ta-active-bg: "@ + t.active_background@ + "; --ta-active-text: "@ + t.active_text_color@ + "; --ta-input-bg: "@ + t.input_background@ + "; --ta-menu-bg: "@ + t.menu_background@ + "; --ta-menu-shadow: "@ + t.menu_shadow@ + "; --ta-token-bg: "@ + t.token_background@ + "; --ta-token-text: "@ + t.token_text_color@, "--ta-muted-text: "@, t.muted_text_color@, "; --ta-token-border: "@, t.token_border_color@);
    lemma_declares_extend("--ta-text: "@ + t.text_color@ + "; --ta-muted-text: "@ + t.muted_text_color@ + "; --ta-placeholder: "@ + t.placeholder_color@ + "; --ta-border: "@ + t.border_color@ + "; --ta-radius: "@ + t.border_radius@ + "; --ta-accent: "@ + t.accent_color@ + "; --ta-active-bg: "@ + t.active_background@ + "; --ta-active-text: "@ + t.active_text_color@ + "; --ta-input-bg: "@ + t.input_background@ + "; --ta-menu-bg: "@ + t.menu_background@ + "; --ta-menu-shadow: "@ + t.menu_shadow@ + "; --ta-token-bg: "@ + t.token_background@ + "; --ta-token-text: "@ + t.token_text_color@ + "; --ta-token-border: "@ + t.token_border_color@, "--ta-muted-text: "@, t.muted_text_color@, "; --ta-highlight-bg: "@, t.highlight_background@);
    lemma_declares_extend("--ta-text: "@ + t.text_color@ + "; --ta-muted-text: "@ + t.muted_text_color@ + "; --ta-placeholder: "@ + t.placeholder_color@ + "; --ta-border: "@ + t.border_color@ + "; --ta-radius: "@ + t.border_radius@ + "; --ta-accent: "@ + t.accent_color@ + "; --ta-active-bg: "@ + t.active_background@ + "; --ta-active-text: "@ + t.active_text_color@ + "; --ta-input-bg: "@ + t.input_background@ + "; --ta-menu-bg: "@ + t.menu_background@ + "; --ta-menu-shadow: "@ + t.menu_shadow@ + "; --ta-token-bg: "@ + t.token_background@ + "; --ta-token-text: "@ + t.token_text_color@ + "; --ta-token-border: "@ + t.token_border_color@ + "; --ta-highlight-bg: "@ + t.highlight_background@, "--ta-muted-text: "@, t.muted_text_color@, "; --ta-font-family: "@, t.font_family@);
    lemma_declares_extend("--ta-text: "@ + t.text_color@ + "; --ta-muted-text: "@ + t.muted_text_color@ + "; --ta-placeholder: "@ + t.placeholder_color@ + "; --ta-border: "@ + t.border_color@ + "; --ta-radius: "@ + t.border_radius@ + "; --ta-accent: "@ + t.accent_color@ + "; --ta-active-bg: "@ + t.active_background@ + "; --ta-active-text: "@ + t.active_text_color@ + "; --ta-input-bg: "@ + t.input_background@ + "; --ta-menu-bg: "@ + t.menu_background@ + "; --ta-menu-shadow: "@ + t.menu_shadow@ + "; --ta-token-bg: "@ + t.token_background@ + "; --ta-token-text: "@ + t.token_text_color@ + "; --ta-token-border: "@ + t.token_border_color@ + "; --ta-highlight-bg: "@ + t.highlight_background@ + "; --ta-font-family: "@ + t.font_family@, "--ta-muted-text: "@, t.muted_text_color@, "; --ta-font-size: "@, t.font_size@);
}

proof fn lemma_declares_placeholder_color(t: TypeaheadTheme)
    ensures
        declares(style_text(t), "--ta-placeholder: "@, t.placeholder_color@),
{
    reveal_strlit("; --ta-placeholder: ");
    reveal_strlit("--ta-placeholder: ");
    reveal_strlit("; ");
    assert("; --ta-placeholder: "@ =~= "; "@ + "--ta-placeholder: "@);
    lemma_declares_last("--ta-text: "@ + t.text_color@ + "; --ta-muted-text: "@ + t.muted_text_color@, "; --ta-placeholder: "@, "--ta-placeholder: "@, t.placeholder_color@);
    lemma_declares_extend("--ta-text: "@ + t.text_color@ + "; --ta-muted-text: "@ + t.muted_text_color@ + "; --ta-placeholder: "@ + t.placeholder_color@, "--ta-placeholder: "@, t.placeholder_color@, "; --ta-border: "@, t.border_color@);
    lemma_declares_extend("--ta-text: "@ + t.text_color@ + "; --ta-muted-text: "@ + t.muted_text_color@ + "; --ta-placeholder: "@ + t.placeholder_color@ + "; --ta-border: "@ + t.border_color@, "--ta-placeholder: "@, t.placeholder_color@, "; --ta-radius: "@, t.border_radius@);
    lemma_declares_extend("--ta-text: "@ + t.text_color@ + "; --ta-muted-text: "@ + t.muted_text_color@ + "; --ta-placeholder: "@ + t.placeholder_color@ + "; --ta-border: "@ + t.border_color@ + "; --ta-radius: "@ + t.border_radius@, "--ta-placeholder: "@, t.placeholder_color@, "; --ta-accent: "@, t.accent_color@);
    lemma_declares_extend("--ta-text: "@ + t.text_color@ + "; --ta-muted-text: "@ + t.muted_text_color@ + "; --ta-placeholder: "@ + t.placeholder_color@ + "; --ta-border: "@ + t.border_color@ + "; --ta-radius: "@ + t.border_radius@ + "; --ta-accent: "@ + t.accent_color@, "--ta-placeholder: "@, t.placeholder_color@, "; --ta-active-bg: "@, t.active_background@);
    lemma_declares_extend("--ta-text: "@ + t.text_color@ + "; --ta-muted-text: "@ + t.muted_text_color@ + "; --ta-placeholder: "@ + t.placeholder_color@ + "; --ta-border: "@ + t.border_color@ + "; --ta-radius: "@ + t.border_radius@ + "; --ta-accent: "@ + t.accent_color@ + "; --ta-active-bg: "@ + t.active_background@, "--ta-placeholder: "@, t.placeholder_color@, "; --ta-active-text: "@, t.active_text_color@);
    lemma_declares_extend("--ta-text: "@ + t.text_color@ + "; --ta-muted-text: "@ + t.muted_text_color@ + "; --ta-placeholder: "@ + t.placeholder_color@ + "; --ta-border: "@ + t.border_color@ + "; --ta-radius: "@ + t.border_radius@ + "; --ta-accent: "@ + t.accent_color@ + "; --ta-active-bg: "@ + t.active_background@ + "; --ta-active-text: "@ + t.active_text_color@, "--ta-placeholder: "@, t.placeholder_color@, "; --ta-input-bg: "@, t.input_background@);
    lemma_declares_extend("--ta-text: "@ + t.text_color@ + "; --ta-muted-text: "@ + t.muted_text_color@ + "; --ta-placeholder: "@ + t.placeholder_color@ + "; --ta-border: "@ + t.border_color@ + "; --ta-radius: "@ + t.border_radius@ + "; --ta-accent: "@ + t.accent_color@ + "; --ta-active-bg: "@ + t.active_background@ + "; --ta-active-text: "@ + t.active_text_color@ + "; --ta-input-bg: "@ + t.input_background@, "--ta-placeholder: "@, t.placeholder_color@, "; --ta-menu-bg: "@, t.menu_background@);
    lemma_declares_extend("--ta-text: "@ + t.text_color@ + "; --ta-muted-text: "@ + t.muted_text_color@ + "; --ta-placeholder: "@ + t.placeholder_color@ + "; --ta-border: "@ + t.border_color@ + "; --ta-radius: "@ + t.border_radius@ + "; --ta-accent: "@ + t.accent_color@ + "; --ta-active-bg: "@ + t.active_background@ + "; --ta-active-text: "@ + t.active_text_color@ + "; --ta-input-bg: "@ + t.input_background@ + "; --ta-menu-bg: "@ + t.menu_background@, "--ta-placeholder: "@, t.placeholder_color@, "; --ta-menu-shadow: "@, t.menu_shadow@);
    lemma_declares_extend("--ta-text: "@ + t.text_color@ + "; --ta-muted-text: "@ + t.muted_text_color@ + "; --ta-placeholder: "@ + t.placeholder_color@ + "; --ta-border: "@ + t.border_color@ + "; --ta-radius: "@ + t.border_radius@ + "; --ta-accent: "@ + t.accent_color@ + "; --ta-active-bg: "@ + t.active_background@ + "; --ta-active-text: "@ + t.active_text_color@ + "; --ta-input-bg: "@ + t.input_background@ + "; --ta-menu-bg: "@ + t.menu_background@ + "; --ta-menu-shadow: "@ + t.menu_shadow@, "--ta-placeholder: "@, t.placeholder_color@, "; --ta-token-bg: "@, t.token_background@);
    lemma_declares_extend("--ta-text: "@ + t.text_color@ + "; --ta-muted-text: "@ + t.muted_text_color@ + "; --ta-placeholder: "@ + t.placeholder_color@ + "; --ta-border: "@ + t.border_color@ + "; --ta-radius: "@ + t.border_radius@ + "; --ta-accent: "@ + t.accent_color@ + "; --ta-active-bg: "@ + t.active_background@ + "; --ta-active-text: "@ + t.active_text_color@ + "; --ta-input-bg: "@ + t.input_background@ + "; --ta-menu-bg: "@ + t.menu_background@ + "; --ta-menu-shadow: "@ + t.menu_shadow@ + "; --ta-token-bg: "@ + t.token_background@, "--ta-placeholder: "@, t.placeholder_color@, "; --ta-token-text: "@, t.token_text_color@);
    lemma_declares_extend("--ta-text: "@ + t.text_color@ + "; --ta-muted-text: "@ + t.muted_text_color@ + "; --ta-placeholder: "@ + t.placeholder_color@ + "; --ta-border: "@ + t.border_color@ + "; --ta-radius: "@ + t.border_radius@ + "; --ta-accent: "@ + t.accent_color@ + "; --ta-active-bg: "@ + t.active_background@ + "; --ta-active-text: "@ + t.active_text_color@ + "; --ta-input-bg: "@ + t.input_background@ + "; --ta-menu-bg: "@ + t.menu_background@ + "; --ta-menu-shadow: "@ + t.menu_shadow@ + "; --ta-token-bg: "@ + t.token_background@ + "; --ta-token-text: "@ + t.token_text_color@, "--ta-placeholder: "@, t.placeholder_color@, "; --ta-token-border: "@, t.token_border_color@);
    lemma_declares_extend("--ta-text: "@ + t.text_color@ + "; --ta-muted-text: "@ + t.muted_text_color@ + "; --ta-placeholder: "@ + t.placeholder_color@ + "; --ta-border: "@ + t.border_color@ + "; --ta-radius: "@ + t.border_radius@ + "; --ta-accent: "@ + t.accent_color@ + "; --ta-active-bg: "@ + t.active_background@ + "; --ta-active-text: "@ + t.active_text_color@ + "; --ta-input-bg: "@ + t.input_background@ + "; --ta-menu-bg: "@ + t.menu_background@ + "; --ta-menu-shadow: "@ + t.menu_shadow@ + "; --ta-token-bg: "@ + t.token_background@ + "; --ta-token-text: "@ + t.token_text_color@ + "; --ta-token-border: "@ + t.token_border_color@, "--ta-placeholder: "@, t.placeholder_color@, "; --ta-highlight-bg: "@, t.highlight_background@);
    lemma_declares_extend("--ta-text: "@ + t.text_color@ + "; --ta-muted-text: "@ + t.muted_text_color@ + "; --ta-placeholder: "@ + t.placeholder_color@ + "; --ta-border: "@ + t.border_color@ + "; --ta-radius: "@ + t.border_radius@ + "; --ta-accent: "@ + t.accent_color@ + "; --ta-active-bg: "@ + t.active_background@ + "; --ta-active-text: "@ + t.active_text_color@ + "; --ta-input-bg: "@ + t.input_background@ + "; --ta-menu-bg: "@ + t.menu_background@ + "; --ta-menu-shadow: "@ + t.menu_shadow@ + "; --ta-token-bg: "@ + t.token_background@ + "; --ta-token-text: "@ + t.token_text_color@ + "; --ta-token-border: "@ + t.token_border_color@ + "; --ta-highlight-bg: "@ + t.highlight_background@, "--ta-placeholder: "@, t.placeholder_color@, "; --ta-font-family: "@, t.font_family@);
    lemma_declares_extend("--ta-text: "@ + t.text_color@ + "; --ta-muted-text: "@ + t.muted_text_color@ + "; --ta-placeholder: "@ + t.placeholder_color@ + "; --ta-border: "@ + t.border_color@ + "; --ta-radius: "@ + t.border_radius@ + "; --ta-accent: "@ + t.accent_color@ + "; --ta-active-bg: "@ + t.active_background@ + "; --ta-active-text: "@ + t.active_text_color@ + "; --ta-input-bg: "@ + t.input_background@ + "; --ta-menu-bg: "@ + t.menu_background@ + "; --ta-menu-shadow: "@ + t.menu_shadow@ + "; --ta-token-bg: "@ + t.token_background@ + "; --ta-token-text: "@ + t.token_text_color@ + "; --ta-token-border: "@ + t.token_border_color@ + "; --ta-highlight-bg: "@ + t.highlight_background@ + "; --ta-font-family: "@ + t.font_family@, "--ta-placeholder: "@, t.placeholder_color@, "; --ta-font-size: "@, t.font_size@);
}

proof fn lemma_declares_border_color(t: TypeaheadTheme)
    ensures
        declares(style_text(t), "--ta-border: "@, t.border_color@),
{
    reveal_strlit("; --ta-border: ");
    reveal_strlit("--ta-border: ");
    reveal_strlit("; ");
    assert("; --ta-border: "@ =~= "; "@ + "--ta-border: "@);
    lemma_declares_last("--ta-text: "@ + t.text_color@ + "; --ta-muted-text: "@ + t.muted_text_color@ + "; --ta-placeholder: "@ + t.placeholder_color@, "; --ta-border: "@, "--ta-border: "@, t.border_color@);
    lemma_declares_extend("--ta-text: "@ + t.text_color@ + "; --ta-muted-text: "@ + t.muted_text_color@ + "; --ta-placeholder: "@ + t.placeholder_color@ + "; --ta-border: "@ + t.border_color@, "--ta-border: "@, t.border_color@, "; --ta-radius: "@, t.border_radius@);
    lemma_declares_extend("--ta-text: "@ + t.text_color@ + "; --ta-muted-text: "@ + t.muted_text_color@ + "; --ta-placeholder: "@ + t.placeholder_color@ + "; --ta-border: "@ + t.border_color@ + "; --ta-radius: "@ + t.border_radius@, "--ta-border: "@, t.border_color@, "; --ta-accent: "@, t.accent_color@);
    lemma_declares_extend("--ta-text: "@ + t.text_color@ + "; --ta-muted-text: "@ + t.muted_text_color@ + "; --ta-placeholder: "@ + t.placeholder_color@ + "; --ta-border: "@ + t.border_color@ + "; --ta-radius: "@ + t.border_radius@ + "; --ta-accent: "@ + t.accent_color@, "--ta-border: "@, t.border_color@, "; --ta-active-bg: "@, t.active_background@);
    lemma_declares_extend("--ta-text: "@ + t.text_color@ + "; --ta-muted-text: "@ + t.muted_text_color@ + "; --ta-placeholder: "@ + t.placeholder_color@ + "; --ta-border: "@ + t.border_color@ + "; --ta-radius: "@ + t.border_radius@ + "; --ta-accent: "@ + t.accent_color@ + "; --ta-active-bg: "@ + t.active_background@, "--ta-border: "@, t.border_color@, "; --ta-active-text: "@, t.active_text_color@);
    lemma_declares_extend("--ta-text: "@ + t.text_color@ + "; --ta-muted-text: "@ + t.muted_text_color@ + "; --ta-placeholder: "@ + t.placeholder_color@ + "; --ta-border: "@ + t.border_color@ + "; --ta-radius: "@ + t.border_radius@ + "; --ta-accent: "@ + t.accent_color@ + "; --ta-active-bg: "@ + t.active_background@ + "; --ta-active-text: "@ + t.active_text_color@, "--ta-border: "@, t.border_color@, "; --ta-input-bg: "@, t.input_background@);
    lemma_declares_extend("--ta-text: "@ + t.text_color@ + "; --ta-muted-text: "@ + t.muted_text_color@ + "; --ta-placeholder: "@ + t.placeholder_color@ + "; --ta-border: "@ + t.border_color@ + "; --ta-radius: "@ + t.border_radius@ + "; --ta-accent: "@ + t.accent_color@ + "; --ta-active-bg: "@ + t.active_background@ + "; --ta-active-text: "@ + t.active_text_color@ + "; --ta-input-bg: "@ + t.input_background@, "--ta-border: "@, t.border_color@, "; --ta-menu-bg: "@, t.menu_background@);
    lemma_declares_extend("--ta-text: "@ + t.text_color@ + "; --ta-muted-text: "@ + t.muted_text_color@ + "; --ta-placeholder: "@ + t.placeholder_color@ + "; --ta-border: "@ + t.border_color@ + "; --ta-radius: "@ + t.border_radius@ + "; --ta-accent: "@ + t.accent_color@ + "; --ta-active-bg: "@ + t.active_background@ + "; --ta-active-text: "@ + t.active_text_color@ + "; --ta-input-bg: "@ + t.input_background@ + "; --ta-menu-bg: "@ + t.menu_background@, "--ta-border: "@, t.border_color@, "; --ta-menu-shadow: "@, t.menu_shadow@);
    lemma_declares_extend("--ta-text: "@ + t.text_color@ + "; --ta-muted-text: "@ + t.muted_text_color@ + "; --ta-placeholder: "@ + t.placeholder_color@ + "; --ta-border: "@ + t.border_color@ + "; --ta-radius: "@ + t.border_radius@ + "; --ta-accent: "@ + t.accent_color@ + "; --ta-active-bg: "@ + t.active_background@ + "; --ta-active-text: "@ + t.active_text_color@ + "; --ta-input-bg: "@ + t.input_background@ + "; --ta-menu-bg: "@ + t.menu_background@ + "; --ta-menu-shadow: "@ + t.menu_shadow@, "--ta-border: "@, t.border_color@, "; --ta-token-bg: "@, t.token_background@);
    lemma_declares_extend("--ta-text: "@ + t.text_color@ + "; --ta-muted-text: "@ + t.muted_text_color@ + "; --ta-placeholder: "@ + t.placeholder_color@ + "; --ta-border: "@ + t.border_color@ + "; --ta-radius: "@ + t.border_radius@ + "; --ta-accent: "@ + t.accent_color@ + "; --ta-active-bg: "@ + t.active_background@ + "; --ta-active-text: "@ + t.active_text_color@ + "; --ta-input-bg: "@ + t.input_background@ + "; --ta-menu-bg: "@ + t.menu_background@ + "; --ta-menu-shadow: "@ + t.menu_shadow@ + "; --ta-token-bg: "@ + t.token_background@, "--ta-border: "@, t.border_color@, "; --ta-token-text: "@, t.token_text_color@);
    lemma_declares_extend("--ta-text: "@ + t.text_color@ + "; --ta-muted-text: "@ + t.muted_text_color@ + "; --ta-placeholder: "@ + t.placeholder_color@ + "; --ta-border: "@ + t.border_color@ + "; --ta-radius: "@ + t.border_radius@ + "; --ta-accent: "@ + t.accent_color@ + "; --ta-active-bg: "@ + t.active_background@ + "; --ta-active-text: "@ + t.active_text_color@ + "; --ta-input-bg: "@ + t.input_background@ + "; --ta-menu-bg: "@ + t.menu_background@ + "; --ta-menu-shadow: "@ + t.menu_shadow@ + "; --ta-token-bg: "@ + t.token_background@ + "; --ta-token-text: "@ + t.token_text_color@, "--ta-border: "@, t.border_color@, "; --ta-token-border: "@, t.token_border_color@);
    lemma_declares_extend("--ta-text: "@ + t.text_color@ + "; --ta-muted-text: "@ + t.muted_text_color@ + "; --ta-placeholder: "@ + t.placeholder_color@ + "; --ta-border: "@ + t.border_color@ + "; --ta-radius: "@ + t.border_radius@ + "; --ta-accent: "@ + t.accent_color@ + "; --ta-active-bg: "@ + t.active_background@ + "; --ta-active-text: "@ + t.active_text_color@ + "; --ta-input-bg: "@ + t.input_background@ + "; --ta-menu-bg: "@ + t.menu_background@ + "; --ta-menu-shadow: "@ + t.menu_shadow@ + "; --ta-token-bg: "@ + t.token_background@ + "; --ta-token-text: "@ + t.token_text_color@ + "; --ta-token-border: "@ + t.token_border_color@, "--ta-border: "@, t.border_color@, "; --ta-highlight-bg: "@, t.highlight_background@);
    lemma_declares_extend("--ta-text: "@ + t.text_color@ + "; --ta-muted-text: "@ + t.muted_text_color@ + "; --ta-placeholder: "@ + t.placeholder_color@ + "; --ta-border: "@ + t.border_color@ + "; --ta-radius: "@ + t.border_radius@ + "; --ta-accent: "@ + t.accent_color@ + "; --ta-active-bg: "@ + t.active_background@ + "; --ta-active-text: "@ + t.active_text_color@ + "; --ta-input-bg: "@ + t.input_background@ + "; --ta-menu-bg: "@ + t.menu_background@ + "; --ta-menu-shadow: "@ + t.menu_shadow@ + "; --ta-token-bg: "@ + t.token_background@ + "; --ta-token-text: "@ + t.token_text_color@ + "; --ta-token-border: "@ + t.token_border_color@ + "; --ta-highlight-bg: "@ + t.highlight_background@, "--ta-border: "@, t.border_color@, "; --ta-font-family: "@, t.font_family@);
    lemma_declares_extend("--ta-text: "@ + t.text_color@ + "; --ta-muted-text: "@ + t.muted_text_color@ + "; --ta-placeholder: "@ + t.placeholder_color@ + "; --ta-border: "@ + t.border_color@ + "; --ta-radius: "@ + t.border_radius@ + "; --ta-accent: "@ + t.accent_color@ + "; --ta-active-bg: "@ + t.active_background@ + "; --ta-active-text: "@ + t.active_text_color@ + "; --ta-input-bg: "@ + t.input_background@ + "; --ta-menu-bg: "@ + t.menu_background@ + "; --ta-menu-shadow: "@ + t.menu_shadow@ + "; --ta-token-bg: "@ + t.token_background@ + "; --ta-token-text: "@ + t.token_text_color@ + "; --ta-token-border: "@ + t.token_border_color@ + "; --ta-highlight-bg: "@ + t.highlight_background@ + "; --ta-font-family: "@ + t.font_family@, "--ta-border: "@, t.border_color@, "; --ta-font-size: "@, t.font_size@);
}

proof fn lemma_declares_border_radius(t: TypeaheadTheme)
    ensures
        declares(style_text(t), "--ta-radius: "@, t.border_radius@),
{
    reveal_strlit("; --ta-radius: ");
    reveal_strlit("--ta-radius: ");
    reveal_strlit("; ");
    assert("; --ta-radius: "@ =~= "; "@ + "--ta-radius: "@);
    lemma_declares_last("--ta-text: "@ + t.text_color@ + "; --ta-muted-text: "@ + t.muted_text_color@ + "; --ta-placeholder: "@ + t.placeholder_color@ + "; --ta-border: "@ + t.border_color@, "; --ta-radius: "@, "--ta-radius: "@, t.border_radius@);
    lemma_declares_extend("--ta-text: "@ + t.text_color@ + "; --ta-muted-text: "@ + t.muted_text_color@ + "; --ta-placeholder: "@ + t.placeholder_color@ + "; --ta-border: "@ + t.border_color@ + "; --ta-radius: "@ + t.border_radius@, "--ta-radius: "@, t.border_radius@, "; --ta-accent: "@, t.accent_color@);
    lemma_declares_extend("--ta-text: "@ + t.text_color@ + "; --ta-muted-text: "@ + t.muted_text_color@ + "; --ta-placeholder: "@ + t.placeholder_color@ + "; --ta-border: "@ + t.border_color@ + "; --ta-radius: "@ + t.border_radius@ + "; --ta-accent: "@ + t.accent_color@, "--ta-radius: "@, t.border_radius@, "; --ta-active-bg: "@, t.active_background@);
    lemma_declares_extend("--ta-text: "@ + t.text_color@ + "; --ta-muted-text: "@ + t.muted_text_color@ + "; --ta-placeholder: "@ + t.placeholder_color@ + "; --ta-border: "@ + t.border_color@ + "; --ta-radius: "@ + t.border_radius@ + "; --ta-accent: "@ + t.accent_color@ + "; --ta-active-bg: "@ + t.active_background@, "--ta-radius: "@, t.border_radius@, "; --ta-active-text: "@, t.active_text_color@);
    lemma_declares_extend("--ta-text: "@ + t.text_color@ + "; --ta-muted-text: "@ + t.muted_text_color@ + "; --ta-placeholder: "@ + t.placeholder_color@ + "; --ta-border: "@ + t.border_color@ + "; --ta-radius: "@ + t.border_radius@ + "; --ta-accent: "@ + t.accent_color@ + "; --ta-active-bg: "@ + t.active_background@ + "; --ta-active-text: "@ + t.active_text_color@, "--ta-radius: "@, t.border_radius@, "; --ta-input-bg: "@, t.input_background@);
    lemma_declares_extend("--ta-text: "@ + t.text_color@ + "; --ta-muted-text: "@ + t.muted_text_color@ + "; --ta-placeholder: "@ + t.placeholder_color@ + "; --ta-border: "@ + t.border_color@ + "; --ta-radius: "@ + t.border_radius@ + "; --ta-accent: "@ + t.accent_color@ + "; --ta-active-bg: "@ + t.active_background@ + "; --ta-active-text: "@ + t.active_text_color@ + "; --ta-input-bg: "@ + t.input_background@, "--ta-radius: "@, t.border_radius@, "; --ta-menu-bg: "@, t.menu_background@);
    lemma_declares_extend("--ta-text: "@ + t.text_color@ + "; --ta-muted-text: "@ + t.muted_text_color@ + "; --ta-placeholder: "@ + t.placeholder_color@ + "; --ta-border: "@ + t.border_color@ + "; --ta-radius: "@ + t.border_radius@ + "; --ta-accent: "@ + t.accent_color@ + "; --ta-active-bg: "@ + t.active_background@ + "; --ta-active-text: "@ + t.active_text_color@ + "; --ta-input-bg: "@ + t.input_background@ + "; --ta-menu-bg: "@ + t.menu_background@, "--ta-radius: "@, t.border_radius@, "; --ta-menu-shadow: "@, t.menu_shadow@);
    lemma_declares_extend("--ta-text: "@ + t.text_color@ + "; --ta-muted-text: "@ + t.muted_text_color@ + "; --ta-placeholder: "@ + t.placeholder_color@ + "; --ta-border: "@ + t.border_color@ + "; --ta-radius: "@ + t.border_radius@ + "; --ta-accent: "@ + t.accent_color@ + "; --ta-active-bg: "@ + t.active_background@ + "; --ta-active-text: "@ + t.active_text_color@ + "; --ta-input-bg: "@ + t.input_background@ + "; --ta-menu-bg: "@ + t.menu_background@ + "; --ta-menu-shadow: "@ + t.menu_shadow@, "--ta-radius: "@, t.border_radius@, "; --ta-token-bg: "@, t.token_background@);
    lemma_declares_extend("--ta-text: "@ + t.text_color@ + "; --ta-muted-text: "@ + t.muted_text_color@ + "; --ta-placeholder: "@ + t.placeholder_color@ + "; --ta-border: "@ + t.border_color@ + "; --ta-radius: "@ + t.border_radius@ + "; --ta-accent: "@ + t.accent_color@ + "; --ta-active-bg: "@ + t.active_background@ + "; --ta-active-text: "@ + t.active_text_color@ + "; --ta-input-bg: "@ + t.input_background@ + "; --ta-menu-bg: "@ + t.menu_background@ + "; --ta-menu-shadow: "@ + t.menu_shadow@ + "; --ta-token-bg: "@ + t.token_background@, "--ta-radius: "@, t.border_radius@, "; --ta-token-text: "@, t.token_text_color@);
    lemma_declares_extend("--ta-text: "@ + t.text_color@ + "; --ta-muted-text: "@ + t.muted_text_color@ + "; --ta-placeholder: "@ + t.placeholder_color@ + "; --ta-border: "@ + t.border_color@ + "; --ta-radius: "@ + t.border_radius@ + "; --ta-accent: "@ + t.accent_color@ + "; --ta-active-bg: "@ + t.active_background@ + "; --ta-active-text: "@ + t.active_text_color@ + "; --ta-input-bg: "@ + t.input_background@ + "; --ta-menu-bg: "@ + t.menu_background@ + "; --ta-menu-shadow: "@ + t.menu_shadow@ + "; --ta-token-bg: "@ + t.token_background@ + "; --ta-token-text: "@ + t.token_text_color@, "--ta-radius: "@, t.border_radius@, "; --ta-token-border: "@, t.token_border_color@);
    lemma_declares_extend("--ta-text: "@ + t.text_color@ + "; --ta-muted-text: "@ + t.muted_text_color@ + "; --ta-placeholder: "@ + t.placeholder_color@ + "; --ta-border: "@ + t.border_color@ + "; --ta-radius: "@ + t.border_radius@ + "; --ta-accent: "@ + t.accent_color@ + "; --ta-active-bg: "@ + t.active_background@ + "; --ta-active-text: "@ + t.active_text_color@ + "; --ta-input-bg: "@ + t.input_background@ + "; --ta-menu-bg: "@ + t.menu_background@ + "; --ta-menu-shadow: "@ + t.menu_shadow@ + "; --ta-token-bg: "@ + t.token_background@ + "; --ta-token-text: "@ + t.token_text_color@ + "; --ta-token-border: "@ + t.token_border_color@, "--ta-radius: "@, t.border_radius@, "; --ta-highlight-bg: "@, t.highlight_background@);
    lemma_declares_extend("--ta-text: "@ + t.text_color@ + "; --ta-muted-text: "@ + t.muted_text_color@ + "; --ta-placeholder: "@ + t.placeholder_color@ + "; --ta-border: "@ + t.border_color@ + "; --ta-radius: "@ + t.border_radius@ + "; --ta-accent: "@ + t.accent_color@ + "; --ta-active-bg: "@ + t.active_background@ + "; --ta-active-text: "@ + t.active_text_color@ + "; --ta-input-bg: "@ + t.input_background@ + "; --ta-menu-bg: "@ + t.menu_background@ + "; --ta-menu-shadow: "@ + t.menu_shadow@ + "; --ta-token-bg: "@ + t.token_background@ + "; --ta-token-text: "@ + t.token_text_color@ + "; --ta-token-border: "@ + t.token_border_color@ + "; --ta-highlight-bg: "@ + t.highlight_background@, "--ta-radius: "@, t.border_radius@, "; --ta-font-family: "@, t.font_family@);
    lemma_declares_extend("--ta-text: "@ + t.text_color@ + "; --ta-muted-text: "@ + t.muted_text_color@ + "; --ta-placeholder: "@ + t.placeholder_color@ + "; --ta-border: "@ + t.border_color@ + "; --ta-radius: "@ + t.border_radius@ + "; --ta-accent: "@ + t.accent_color@ + "; --ta-active-bg: "@ + t.active_background@ + "; --ta-active-text: "@ + t.active_text_color@ + "; --ta-input-bg: "@ + t.input_background@ + "; --ta-menu-bg: "@ + t.menu_background@ + "; --ta-menu-shadow: "@ + t.menu_shadow@ + "; --ta-token-bg: "@ + t.token_background@ + "; --ta-token-text: "@ + t.token_text_color@ + "; --ta-token-border: "@ + t.token_border_color@ + "; --ta-highlight-bg: "@ + t.highlight_background@ + "; --ta-font-family: "@ + t.font_family@, "--ta-radius: "@, t.border_radius@, "; --ta-font-size: "@, t.font_size@);
}

proof fn lemma_declares_accent_color(t: TypeaheadTheme)
    ensures
        declares(style_text(t), "--ta-accent: "@, t.accent_color@),
{
    reveal_strlit("; --ta-accent: ");
    reveal_strlit("--ta-accent: ");
    reveal_strlit("; ");
    assert("; --ta-accent: "@ =~= "; "@ + "--ta-accent: "@);
    lemma_declares_last("--ta-text: "@ + t.text_color@ + "; --ta-muted-text: "@ + t.muted_text_color@ + "; --ta-placeholder: "@ + t.placeholder_color@ + "; --ta-border: "@ + t.border_color@ + "; --ta-radius: "@ + t.border_radius@, "; --ta-accent: "@, "--ta-accent: "@, t.accent_color@);
    lemma_declares_extend("--ta-text: "@ + t.text_color@ + "; --ta-muted-text: "@ + t.muted_text_color@ + "; --ta-placeholder: "@ + t.placeholder_color@ + "; --ta-border: "@ + t.border_color@ + "; --ta-radius: "@ + t.border_radius@ + "; --ta-accent: "@ + t.accent_color@, "--ta-accent: "@, t.accent_color@, "; --ta-active-bg: "@, t.active_background@);
    lemma_declares_extend("--ta-text: "@ + t.text_color@ + "; --ta-muted-text: "@ + t.muted_text_color@ + "; --ta-placeholder: "@ + t.placeholder_color@ + "; --ta-border: "@ + t.border_color@ + "; --ta-radius: "@ + t.border_radius@ + "; --ta-accent: "@ + t.accent_color@ + "; --ta-active-bg: "@ + t.active_background@, "--ta-accent: "@, t.accent_color@, "; --ta-active-text: "@, t.active_text_color@);
    lemma_declares_extend("--ta-text: "@ + t.text_color@ + "; --ta-muted-text: "@ + t.muted_text_color@ + "; --ta-placeholder: "@ + t.placeholder_color@ + "; --ta-border: "@ + t.border_color@ + "; --ta-radius: "@ + t.border_radius@ + "; --ta-accent: "@ + t.accent_color@ + "; --ta-active-bg: "@ + t.active_background@ + "; --ta-active-text: "@ + t.active_text_color@, "--ta-accent: "@, t.accent_color@, "; --ta-input-bg: "@, t.input_background@);
    lemma_declares_extend("--ta-text: "@ + t.text_color@ + "; --ta-muted-text: "@ + t.muted_text_color@ + "; --ta-placeholder: "@ + t.placeholder_color@ + "; --ta-border: "@ + t.border_color@ + "; --ta-radius: "@ + t.border_radius@ + "; --ta-accent: "@ + t.accent_color@ + "; --ta-active-bg: "@ + t.active_background@ + "; --ta-active-text: "@ + t.active_text_color@ + "; --ta-input-bg: "@ + t.input_background@, "--ta-accent: "@, t.accent_color@, "; --ta-menu-bg: "@, t.menu_background@);
    lemma_declares_extend("--ta-text: "@ + t.text_color@ + "; --ta-muted-text: "@ + t.muted_text_color@ + "; --ta-placeholder: "@ + t.placeholder_color@ + "; --ta-border: "@ + t.border_color@ + "; --ta-radius: "@ + t.border_radius@ + "; --ta-accent: "@ + t.accent_color@ + "; --ta-active-bg: "@ + t.active_background@ + "; --ta-active-text: "@ + t.active_text_color@ + "; --ta-input-bg: "@ + t.input_background@ + "; --ta-menu-bg: "@ + t.menu_background@, "--ta-accent: "@, t.accent_color@, "; --ta-menu-shadow: "@, t.menu_shadow@);
    lemma_declares_extend("--ta-text: "@ + t.text_color@ + "; --ta-muted-text: "@ + t.muted_text_color@ + "; --ta-placeholder: "@ + t.placeholder_color@ + "; --ta-border: "@ + t.border_color@ + "; --ta-radius: "@ + t.border_radius@ + "; --ta-accent: "@ + t.accent_color@ + "; --ta-active-bg: "@ + t.active_background@ + "; --ta-active-text: "@ + t.active_text_color@ + "; --ta-input-bg: "@ + t.input_background@ + "; --ta-menu-bg: "@ + t.menu_background@ + "; --ta-menu-shadow: "@ + t.menu_shadow@, "--ta-accent: "@, t.accent_color@, "; --ta-token-bg: "@, t.token_background@);
    lemma_declares_extend("--ta-text: "@ + t.text_color@ + "; --ta-muted-text: "@ + t.muted_text_color@ + "; --ta-placeholder: "@ + t.placeholder_color@ + "; --ta-border: "@ + t.border_color@ + "; --ta-radius: "@ + t.border_radius@ + "; --ta-accent: "@ + t.accent_color@ + "; --ta-active-bg: "@ + t.active_background@ + "; --ta-active-text: "@ + t.active_text_color@ + "; --ta-input-bg: "@ + t.input_background@ + "; --ta-menu-bg: "@ + t.menu_background@ + "; --ta-menu-shadow: "@ + t.menu_shadow@ + "; --ta-token-bg: "@ + t.token_background@, "--ta-accent: "@, t.accent_color@, "; --ta-token-text: "@, t.token_text_color@);
    lemma_declares_extend("--ta-text: "@ + t.text_color@ + "; --ta-muted-text: "@ + t.muted_text_color@ + "; --ta-placeholder: "@ + t.placeholder_color@ + "; --ta-border: "@ + t.border_color@ + "; --ta-radius: "@ + t.border_radius@ + "; --ta-accent: "@ + t.accent_color@ + "; --ta-active-bg: "@ + t.active_background@ + "; --ta-active-text: "@ + t.active_text_color@ + "; --ta-input-bg: "@ + t.input_background@ + "; --ta-menu-bg: "@ + t.menu_background@ + "; --ta-menu-shadow: "@ + t.menu_shadow@ + "; --ta-token-bg: "@ + t.token_background@ + "; --ta-token-text: "@ + t.token_text_color@, "--ta-accent: "@, t.accent_color@, "; --ta-token-border: "@, t.token_border_color@);
    lemma_declares_extend("--ta-text: "@ + t.text_color@ + "; --ta-muted-text: "@ + t.muted_text_color@ + "; --ta-placeholder: "@ + t.placeholder_color@ + "; --ta-border: "@ + t.border_color@ + "; --ta-radius: "@ + t.border_radius@ + "; --ta-accent: "@ + t.accent_color@ + "; --ta-active-bg: "@ + t.active_background@ + "; --ta-active-text: "@ + t.active_text_color@ + "; --ta-input-bg: "@ + t.input_background@ + "; --ta-menu-bg: "@ + t.menu_background@ + "; --ta-menu-shadow: "@ + t.menu_shadow@ + "; --ta-token-bg: "@ + t.token_background@ + "; --ta-token-text: "@ + t.token_text_color@ + "; --ta-token-border: "@ + t.token_border_color@, "--ta-accent: "@, t.accent_color@, "; --ta-highlight-bg: "@, t.highlight_background@);
    lemma_declares_extend("--ta-text: "@ + t.text_color@ + "; --ta-muted-text: "@ + t.muted_text_color@ + "; --ta-placeholder: "@ + t.placeholder_color@ + "; --ta-border: "@ + t.border_color@ + "; --ta-radius: "@ + t.border_radius@ + "; --ta-accent: "@ + t.accent_color@ + "; --ta-active-bg: "@ + t.active_background@ + "; --ta-active-text: "@ + t.active_text_color@ + "; --ta-input-bg: "@ + t.input_background@ + "; --ta-menu-bg: "@ + t.menu_background@ + "; --ta-menu-shadow: "@ + t.menu_shadow@ + "; --ta-token-bg: "@ + t.token_background@ + "; --ta-token-text: "@ + t.token_text_color@ + "; --ta-token-border: "@ + t.token_border_color@ + "; --ta-highlight-bg: "@ + t.highlight_background@, "--ta-accent: "@, t.accent_color@, "; --ta-font-family: "@, t.font_family@);
    lemma_declares_extend("--ta-text: "@ + t.text_color@ + "; --ta-muted-text: "@ + t.muted_text_color@ + "; --ta-placeholder: "@ + t.placeholder_color@ + "; --ta-border: "@ + t.border_color@ + "; --ta-radius: "@ + t.border_radius@ + "; --ta-accent: "@ + t.accent_color@ + "; --ta-active-bg: "@ + t.active_background@ + "; --ta-active-text: "@ + t.active_text_color@ + "; --ta-input-bg: "@ + t.input_background@ + "; --ta-menu-bg: "@ + t.menu_background@ + "; --ta-menu-shadow: "@ + t.menu_shadow@ + "; --ta-token-bg: "@ + t.token_background@ + "; --ta-token-text: "@ + t.token_text_color@ + "; --ta-token-border: "@ + t.token_border_color@ + "; --ta-highlight-bg: "@ + t.highlight_background@ + "; --ta-font-family: "@ + t.font_family@, "--ta-accent: "@, t.accent_color@, "; --ta-font-size: "@, t.font_size@);
}

proof fn lemma_declares_active_background(t: TypeaheadTheme)
    ensures
        declares(style_text(t), "--ta-active-bg: "@, t.active_background@),
{
    reveal_strlit("; --ta-active-bg: ");
    reveal_strlit("--ta-active-bg: ");
    reveal_strlit("; ");
    assert("; --ta-active-bg: "@ =~= "; "@ + "--ta-active-bg: "@);
    lemma_declares_last("--ta-text: "@ + t.text_color@ + "; --ta-muted-text: "@ + t.muted_text_color@ + "; --ta-placeholder: "@ + t.placeholder_color@ + "; --ta-border: "@ + t.border_color@ + "; --ta-radius: "@ + t.border_radius@ + "; --ta-accent: "@ + t.accent_color@, "; --ta-active-bg: "@, "--ta-active-bg: "@, t.active_background@);
    lemma_declares_extend("--ta-text: "@ + t.text_color@ + "; --ta-muted-text: "@ + t.muted_text_color@ + "; --ta-placeholder: "@ + t.placeholder_color@ + "; --ta-border: "@ + t.border_color@ + "; --ta-radius: "@ + t.border_radius@ + "; --ta-accent: "@ + t.accent_color@ + "; --ta-active-bg: "@ + t.active_background@, "--ta-active-bg: "@, t.active_background@, "; --ta-active-text: "@, t.active_text_color@);
    lemma_declares_extend("--ta-text: "@ + t.text_color@ + "; --ta-muted-text: "@ + t.muted_text_color@ + "; --ta-placeholder: "@ + t.placeholder_color@ + "; --ta-border: "@ + t.border_color@ + "; --ta-radius: "@ + t.border_radius@ + "; --ta-accent: "@ + t.accent_color@ + "; --ta-active-bg: "@ + t.active_background@ + "; --ta-active-text: "@ + t.active_text_color@, "--ta-active-bg: "@, t.active_background@, "; --ta-input-bg: "@, t.input_background@);
    lemma_declares_extend("--ta-text: "@ + t.text_color@ + "; --ta-muted-text: "@ + t.muted_text_color@ + "; --ta-placeholder: "@ + t.placeholder_color@ + "; --ta-border: "@ + t.border_color@ + "; --ta-radius: "@ + t.border_radius@ + "; --ta-accent: "@ + t.accent_color@ + "; --ta-active-bg: "@ + t.active_background@ + "; --ta-active-text: "@ + t.active_text_color@ + "; --ta-input-bg: "@ + t.input_background@, "--ta-active-bg: "@, t.active_background@, "; --ta-menu-bg: "@, t.menu_background@);
    lemma_declares_extend("--ta-text: "@ + t.text_color@ + "; --ta-muted-text: "@ + t.muted_text_color@ + "; --ta-placeholder: "@ + t.placeholder_color@ + "; --ta-border: "@ + t.border_color@ + "; --ta-radius: "@ + t.border_radius@ + "; --ta-accent: "@ + t.accent_color@ + "; --ta-active-bg: "@ + t.active_background@ + "; --ta-active-text: "@ + t.active_text_color@ + "; --ta-input-bg: "@ + t.input_background@ + "; --ta-menu-bg: "@ + t.menu_background@, "--ta-active-bg: "@, t.active_background@, "; --ta-menu-shadow: "@, t.menu_shadow@);
    lemma_declares_extend("--ta-text: "@ + t.text_color@ + "; --ta-muted-text: "@ + t.muted_text_color@ + "; --ta-placeholder: "@ + t.placeholder_color@ + "; --ta-border: "@ + t.border_color@ + "; --ta-radius: "@ + t.border_radius@ + "; --ta-accent: "@ + t.accent_color@ + "; --ta-active-bg: "@ + t.active_background@ + "; --ta-active-text: "@ + t.active_text_color@ + "; --ta-input-bg: "@ + t.input_background@ + "; --ta-menu-bg: "@ + t.menu_background@ + "; --ta-menu-shadow: "@ + t.menu_shadow@, "--ta-active-bg: "@, t.active_background@, "; --ta-token-bg: "@, t.token_background@);
    lemma_declares_extend("--ta-text: "@ + t.text_color@ + "; --ta-muted-text: "@ + t.muted_text_color@ + "; --ta-placeholder: "@ + t.placeholder_color@ + "; --ta-border: "@ + t.border_color@ + "; --ta-radius: "@ + t.border_radius@ + "; --ta-accent: "@ + t.accent_color@ + "; --ta-active-bg: "@ + t.active_background@ + "; --ta-active-text: "@ + t.active_text_color@ + "; --ta-input-bg: "@ + t.input_background@ + "; --ta-menu-bg: "@ + t.menu_background@ + "; --ta-menu-shadow: "@ + t.menu_shadow@ + "; --ta-token-bg: "@ + t.token_background@, "--ta-active-bg: "@, t.active_background@, "; --ta-token-text: "@, t.token_text_color@);
    lemma_declares_extend("--ta-text: "@ + t.text_color@ + "; --ta-muted-text: "@ + t.muted_text_color@ + "; --ta-placeholder: "@ + t.placeholder_color@ + "; --ta-border: "@ + t.border_color@ + "; --ta-radius: "@ + t.border_radius@ + "; --ta-accent: "@ + t.accent_color@ + "; --ta-active-bg: "@ + t.active_background@ + "; --ta-active-text: "@ + t.active_text_color@ + "; --ta-input-bg: "@ + t.input_background@ + "; --ta-menu-bg: "@ + t.menu_background@ + "; --ta-menu-shadow: "@ + t.menu_shadow@ + "; --ta-token-bg: "@ + t.token_background@ + "; --ta-token-text: "@ + t.token_text_color@, "--ta-active-bg: "@, t.active_background@, "; --ta-token-border: "@, t.token_border_color@);
    lemma_declares_extend("--ta-text: "@ + t.text_color@ + "; --ta-muted-text: "@ + t.muted_text_color@ + "; --ta-placeholder: "@ + t.placeholder_color@ + "; --ta-border: "@ + t.border_color@ + "; --ta-radius: "@ + t.border_radius@ + "; --ta-accent: "@ + t.accent_color@ + "; --ta-active-bg: "@ + t.active_background@ + "; --ta-active-text: "@ + t.active_text_color@ + "; --ta-input-bg: "@ + t.input_background@ + "; --ta-menu-bg: "@ + t.menu_background@ + "; --ta-menu-shadow: "@ + t.menu_shadow@ + "; --ta-token-bg: "@ + t.token_background@ + "; --ta-token-text: "@ + t.token_text_color@ + "; --ta-token-border: "@ + t.token_border_color@, "--ta-active-bg: "@, t.active_background@, "; --ta-highlight-bg: "@, t.highlight_background@);
    lemma_declares_extend("--ta-text: "@ + t.text_color@ + "; --ta-muted-text: "@ + t.muted_text_color@ + "; --ta-placeholder: "@ + t.placeholder_color@ + "; --ta-border: "@ + t.border_color@ + "; --ta-radius: "@ + t.border_radius@ + "; --ta-accent: "@ + t.accent_color@ + "; --ta-active-bg: "@ + t.active_background@ + "; --ta-active-text: "@ + t.active_text_color@ + "; --ta-input-bg: "@ + t.input_background@ + "; --ta-menu-bg: "@ + t.menu_background@ + "; --ta-menu-shadow: "@ + t.menu_shadow@ + "; --ta-token-bg: "@ + t.token_background@ + "; --ta-token-text: "@ + t.token_text_color@ + "; --ta-token-border: "@ + t.token_border_color@ + "; --ta-highlight-bg: "@ + t.highlight_background@, "--ta-active-bg: "@, t.active_background@, "; --ta-font-family: "@, t.font_family@);
    lemma_declares_extend("--ta-text: "@ + t.text_color@ + "; --ta-muted-text: "@ + t.muted_text_color@ + "; --ta-placeholder: "@ + t.placeholder_color@ + "; --ta-border: "@ + t.border_color@ + "; --ta-radius: "@ + t.border_radius@ + "; --ta-accent: "@ + t.accent_color@ + "; --ta-active-bg: "@ + t.active_background@ + "; --ta-active-text: "@ + t.active_text_color@ + "; --ta-input-bg: "@ + t.input_background@ + "; --ta-menu-bg: "@ + t.menu_background@ + "; --ta-menu-shadow: "@ + t.menu_shadow@ + "; --ta-token-bg: "@ + t.token_background@ + "; --ta-token-text: "@ + t.token_text_color@ + "; --ta-token-border: "@ + t.token_border_color@ + "; --ta-highlight-bg: "@ + t.highlight_background@ + "; --ta-font-family: "@ + t.font_family@, "--ta-active-bg: "@, t.active_background@, "; --ta-font-size: "@, t.font_size@);
}

proof fn lemma_declares_active_text_color(t: TypeaheadTheme)
    ensures
        declares(style_text(t), "--ta-active-text: "@, t.active_text_color@),
{
    reveal_strlit("; --ta-active-text: ");
    reveal_strlit("--ta-active-text: ");
    reveal_strlit("; ");
    assert("; --ta-active-text: "@ =~= "; "@ + "--ta-active-text: "@);
    lemma_declares_last("--ta-text: "@ + t.text_color@ + "; --ta-muted-text: "@ + t.muted_text_color@ + "; --ta-placeholder: "@ + t.placeholder_color@ + "; --ta-border: "@ + t.border_color@ + "; --ta-radius: "@ + t.border_radius@ + "; --ta-accent: "@ + t.accent_color@ + "; --ta-active-bg: "@ + t.active_background@, "; --ta-active-text: "@, "--ta-active-text: "@, t.active_text_color@);
    lemma_declares_extend("--ta-text: "@ + t.text_color@ + "; --ta-muted-text: "@ + t.muted_text_color@ + "; --ta-placeholder: "@ + t.placeholder_color@ + "; --ta-border: "@ + t.border_color@ + "; --ta-radius: "@ + t.border_radius@ + "; --ta-accent: "@ + t.accent_color@ + "; --ta-active-bg: "@ + t.active_background@ + "; --ta-active-text: "@ + t.active_text_color@, "--ta-active-text: "@, t.active_text_color@, "; --ta-input-bg: "@, t.input_background@);
    lemma_declares_extend("--ta-text: "@ + t.text_color@ + "; --ta-muted-text: "@ + t.muted_text_color@ + "; --ta-placeholder: "@ + t.placeholder_color@ + "; --ta-border: "@ + t.border_color@ + "; --ta-radius: "@ + t.border_radius@ + "; --ta-accent: "@ + t.accent_color@ + "; --ta-active-bg: "@ + t.active_background@ + "; --ta-active-text: "@ + t.active_text_color@ + "; --ta-input-bg: "@ + t.input_background@, "--ta-active-text: "@, t.active_text_color@, "; --ta-menu-bg: "@, t.menu_background@);
    lemma_declares_extend("--ta-text: "@ + t.text_color@ + "; --ta-muted-text: "@ + t.muted_text_color@ + "; --ta-placeholder: "@ + t.placeholder_color@ + "; --ta-border: "@ + t.border_color@ + "; --ta-radius: "@ + t.border_radius@ + "; --ta-accent: "@ + t.accent_color@ + "; --ta-active-bg: "@ + t.active_background@ + "; --ta-active-text: "@ + t.active_text_color@ + "; --ta-input-bg: "@ + t.input_background@ + "; --ta-menu-bg: "@ + t.menu_background@, "--ta-active-text: "@, t.active_text_color@, "; --ta-menu-shadow: "@, t.menu_shadow@);
    lemma_declares_extend("--ta-text: "@ + t.text_color@ + "; --ta-muted-text: "@ + t.muted_text_color@ + "; --ta-placeholder: "@ + t.placeholder_color@ + "; --ta-border: "@ + t.border_color@ + "; --ta-radius: "@ + t.border_radius@ + "; --ta-accent: "@ + t.accent_color@ + "; --ta-active-bg: "@ + t.active_background@ + "; --ta-active-text: "@ + t.active_text_color@ + "; --ta-input-bg: "@ + t.input_background@ + "; --ta-menu-bg: "@ + t.menu_background@ + "; --ta-menu-shadow: "@ + t.menu_shadow@, "--ta-active-text: "@, t.active_text_color@, "; --ta-token-bg: "@, t.token_background@);
    lemma_declares_extend("--ta-text: "@ + t.text_color@ + "; --ta-muted-text: "@ + t.muted_text_color@ + "; --ta-placeholder: "@ + t.placeholder_color@ + "; --ta-border: "@ + t.border_color@ + "; --ta-radius: "@ + t.border_radius@ + "; --ta-accent: "@ + t.accent_color@ + "; --ta-active-bg: "@ + t.active_background@ + "; --ta-active-text: "@ + t.active_text_color@ + "; --ta-input-bg: "@ + t.input_background@ + "; --ta-menu-bg: "@ + t.menu_background@ + "; --ta-menu-shadow: "@ + t.menu_shadow@ + "; --ta-token-bg: "@ + t.token_background@, "--ta-active-text: "@, t.active_text_color@, "; --ta-token-text: "@, t.token_text_color@);
    lemma_declares_extend("--ta-text: "@ + t.text_color@ + "; --ta-muted-text: "@ + t.muted_text_color@ + "; --ta-placeholder: "@ + t.placeholder_color@ + "; --ta-border: "@ + t.border_color@ + "; --ta-radius: "@ + t.border_radius@ + "; --ta-accent: "@ + t.accent_color@ + "; --ta-active-bg: "@ + t.active_background@ + "; --ta-active-text: "@ + t.active_text_color@ + "; --ta-input-bg: "@ + t.input_background@ + "; --ta-menu-bg: "@ + t.menu_background@ + "; --ta-menu-shadow: "@ + t.menu_shadow@ + "; --ta-token-bg: "@ + t.token_background@ + "; --ta-token-text: "@ + t.token_text_color@, "--ta-active-text: "@, t.active_text_color@, "; --ta-token-border: "@, t.token_border_color@);
    lemma_declares_extend("--ta-text: "@ + t.text_color@ + "; --ta-muted-text: "@ + t.muted_text_color@ + "; --ta-placeholder: "@ + t.placeholder_color@ + "; --ta-border: "@ + t.border_color@ + "; --ta-radius: "@ + t.border_radius@ + "; --ta-accent: "@ + t.accent_color@ + "; --ta-active-bg: "@ + t.active_background@ + "; --ta-active-text: "@ + t.active_text_color@ + "; --ta-input-bg: "@ + t.input_background@ + "; --ta-menu-bg: "@ + t.menu_background@ + "; --ta-menu-shadow: "@ + t.menu_shadow@ + "; --ta-token-bg: "@ + t.token_background@ + "; --ta-token-text: "@ + t.token_text_color@ + "; --ta-token-border: "@ + t.token_border_color@, "--ta-active-text: "@, t.active_text_color@, "; --ta-highlight-bg: "@, t.highlight_background@);
    lemma_declares_extend("--ta-text: "@ + t.text_color@ + "; --ta-muted-text: "@ + t.muted_text_color@ + "; --ta-placeholder: "@ + t.placeholder_color@ + "; --ta-border: "@ + t.border_color@ + "; --ta-radius: "@ + t.border_radius@ + "; --ta-accent: "@ + t.accent_color@ + "; --ta-active-bg: "@ + t.active_background@ + "; --ta-active-text: "@ + t.active_text_color@ + "; --ta-input-bg: "@ + t.input_background@ + "; --ta-menu-bg: "@ + t.menu_background@ + "; --ta-menu-shadow: "@ + t.menu_shadow@ + "; --ta-token-bg: "@ + t.token_background@ + "; --ta-token-text: "@ + t.token_text_color@ + "; --ta-token-border: "@ + t.token_border_color@ + "; --ta-highlight-bg: "@ + t.highlight_background@, "--ta-active-text: "@, t.active_text_color@, "; --ta-font-family: "@, t.font_family@);
    lemma_declares_extend("--ta-text: "@ + t.text_color@ + "; --ta-muted-text: "@ + t.muted_text_color@ + "; --ta-placeholder: "@ + t.placeholder_color@ + "; --ta-border: "@ + t.border_color@ + "; --ta-radius: "@ + t.border_radius@ + "; --ta-accent: "@ + t.accent_color@ + "; --ta-active-bg: "@ + t.active_background@ + "; --ta-active-text: "@ + t.active_text_color@ + "; --ta-input-bg: "@ + t.input_background@ + "; --ta-menu-bg: "@ + t.menu_background@ + "; --ta-menu-shadow: "@ + t.menu_shadow@ + "; --ta-token-bg: "@ + t.token_background@ + "; --ta-token-text: "@ + t.token_text_color@ + "; --ta-token-border: "@ + t.token_border_color@ + "; --ta-highlight-bg: "@ + t.highlight_background@ + "; --ta-font-family: "@ + t.font_family@, "--ta-active-text: "@, t.active_text_color@, "; --ta-font-size: "@, t.font_size@);
}

proof fn lemma_declares_input_background(t: TypeaheadTheme)
    ensures
        declares(style_text(t), "--ta-input-bg: "@, t.input_background@),
{
    reveal_strlit("; --ta-input-bg: ");
    reveal_strlit("--ta-input-bg: ");
    reveal_strlit("; ");
    assert("; --ta-input-bg: "@ =~= "; "@ + "--ta-input-bg: "@);
    lemma_declares_last("--ta-text: "@ + t.text_color@ + "; --ta-muted-text: "@ + t.muted_text_color@ + "; --ta-placeholder: "@ + t.placeholder_color@ + "; --ta-border: "@ + t.border_color@ + "; --ta-radius: "@ + t.border_radius@ + "; --ta-accent: "@ + t.accent_color@ + "; --ta-active-bg: "@ + t.active_background@ + "; --ta-active-text: "@ + t.active_text_color@, "; --ta-input-bg: "@, "--ta-input-bg: "@, t.input_background@);
    lemma_declares_extend("--ta-text: "@ + t.text_color@ + "; --ta-muted-text: "@ + t.muted_text_color@ + "; --ta-placeholder: "@ + t.placeholder_color@ + "; --ta-border: "@ + t.border_color@ + "; --ta-radius: "@ + t.border_radius@ + "; --ta-accent: "@ + t.accent_color@ + "; --ta-active-bg: "@ + t.active_background@ + "; --ta-active-text: "@ + t.active_text_color@ + "; --ta-input-bg: "@ + t.input_background@, "--ta-input-bg: "@, t.input_background@, "; --ta-menu-bg: "@, t.menu_background@);
    lemma_declares_extend("--ta-text: "@ + t.text_color@ + "; --ta-muted-text: "@ + t.muted_text_color@ + "; --ta-placeholder: "@ + t.placeholder_color@ + "; --ta-border: "@ + t.border_color@ + "; --ta-radius: "@ + t.border_radius@ + "; --ta-accent: "@ + t.accent_color@ + "; --ta-active-bg: "@ + t.active_background@ + "; --ta-active-text: "@ + t.active_text_color@ + "; --ta-input-bg: "@ + t.input_background@ + "; --ta-menu-bg: "@ + t.menu_background@, "--ta-input-bg: "@, t.input_background@, "; --ta-menu-shadow: "@, t.menu_shadow@);
    lemma_declares_extend("--ta-text: "@ + t.text_color@ + "; --ta-muted-text: "@ + t.muted_text_color@ + "; --ta-placeholder: "@ + t.placeholder_color@ + "; --ta-border: "@ + t.border_color@ + "; --ta-radius: "@ + t.border_radius@ + "; --ta-accent: "@ + t.accent_color@ + "; --ta-active-bg: "@ + t.active_background@ + "; --ta-active-text: "@ + t.active_text_color@ + "; --ta-input-bg: "@ + t.input_background@ + "; --ta-menu-bg: "@ + t.menu_background@ + "; --ta-menu-shadow: "@ + t.menu_shadow@, "--ta-input-bg: "@, t.input_background@, "; --ta-token-bg: "@, t.token_background@);
    lemma_declares_extend("--ta-text: "@ + t.text_color@ + "; --ta-muted-text: "@ + t.muted_text_color@ + "; --ta-placeholder: "@ + t.placeholder_color@ + "; --ta-border: "@ + t.border_color@ + "; --ta-radius: "@ + t.border_radius@ + "; --ta-accent: "@ + t.accent_color@ + "; --ta-active-bg: "@ + t.active_background@ + "; --ta-active-text: "@ + t.active_text_color@ + "; --ta-input-bg: "@ + t.input_background@ + "; --ta-menu-bg: "@ + t.menu_background@ + "; --ta-menu-shadow: "@ + t.menu_shadow@ + "; --ta-token-bg: "@ + t.token_background@, "--ta-input-bg: "@, t.input_background@, "; --ta-token-text: "@, t.token_text_color@);
    lemma_declares_extend("--ta-text: "@ + t.text_color@ + "; --ta-muted-text: "@ + t.muted_text_color@ + "; --ta-placeholder: "@ + t.placeholder_color@ + "; --ta-border: "@ + t.border_color@ + "; --ta-radius: "@ + t.border_radius@ + "; --ta-accent: "@ + t.accent_color@ + "; --ta-active-bg: "@ + t.active_background@ + "; --ta-active-text: "@ + t.active_text_color@ + "; --ta-input-bg: "@ + t.input_background@ + "; --ta-menu-bg: "@ + t.menu_background@ + "; --ta-menu-shadow: "@ + t.menu_shadow@ + "; --ta-token-bg: "@ + t.token_background@ + "; --ta-token-text: "@ + t.token_text_color@, "--ta-input-bg: "@, t.input_background@, "; --ta-token-border: "@, t.token_border_color@);
    lemma_declares_extend("--ta-text: "@ + t.text_color@ + "; --ta-muted-text: "@ + t.muted_text_color@ + "; --ta-placeholder: "@ + t.placeholder_color@ + "; --ta-border: "@ + t.border_color@ + "; --ta-radius: "@ + t.border_radius@ + "; --ta-accent: "@ + t.accent_color@ + "; --ta-active-bg: "@ + t.active_background@ + "; --ta-active-text: "@ + t.active_text_color@ + "; --ta-input-bg: "@ + t.input_background@ + "; --ta-menu-bg: "@ + t.menu_background@ + "; --ta-menu-shadow: "@ + t.menu_shadow@ + "; --ta-token-bg: "@ + t.token_background@ + "; --ta-token-text: "@ + t.token_text_color@ + "; --ta-token-border: "@ + t.token_border_color@, "--ta-input-bg: "@, t.input_background@, "; --ta-highlight-bg: "@, t.highlight_background@);
    lemma_declares_extend("--ta-text: "@ + t.text_color@ + "; --ta-muted-text: "@ + t.muted_text_color@ + "; --ta-placeholder: "@ + t.placeholder_color@ + "; --ta-border: "@ + t.border_color@ + "; --ta-radius: "@ + t.border_radius@ + "; --ta-accent: "@ + t.accent_color@ + "; --ta-active-bg: "@ + t.active_background@ + "; --ta-active-text: "@ + t.active_text_color@ + "; --ta-input-bg: "@ + t.input_background@ + "; --ta-menu-bg: "@ + t.menu_background@ + "; --ta-menu-shadow: "@ + t.menu_shadow@ + "; --ta-token-bg: "@ + t.token_background@ + "; --ta-token-text: "@ + t.token_text_color@ + "; --ta-token-border: "@ + t.token_border_color@ + "; --ta-highlight-bg: "@ + t.highlight_background@, "--ta-input-bg: "@, t.input_background@, "; --ta-font-family: "@, t.font_family@);
    lemma_declares_extend("--ta-text: "@ + t.text_color@ + "; --ta-muted-text: "@ + t.muted_text_color@ + "; --ta-placeholder: "@ + t.placeholder_color@ + "; --ta-border: "@ + t.border_color@ + "; --ta-radius: "@ + t.border_radius@ + "; --ta-accent: "@ + t.accent_color@ + "; --ta-active-bg: "@ + t.active_background@ + "; --ta-active-text: "@ + t.active_text_color@ + "; --ta-input-bg: "@ + t.input_background@ + "; --ta-menu-bg: "@ + t.menu_background@ + "; --ta-menu-shadow: "@ + t.menu_shadow@ + "; --ta-token-bg: "@ + t.token_background@ + "; --ta-token-text: "@ + t.token_text_color@ + "; --ta-token-border: "@ + t.token_border_color@ + "; --ta-highlight-bg: "@ + t.highlight_background@ + "; --ta-font-family: "@ + t.font_family@, "--ta-input-bg: "@, t.input_background@, "; --ta-font-size: "@, t.font_size@);
}

proof fn lemma_declares_menu_background(t: TypeaheadTheme)
    ensures
        declares(style_text(t), "--ta-menu-bg: "@, t.menu_background@),
{
    reveal_strlit("; --ta-menu-bg: ");
    reveal_strlit("--ta-menu-bg: ");
    reveal_strlit("; ");
    assert("; --ta-menu-bg: "@ =~= "; "@ + "--ta-menu-bg: "@);
    lemma_declares_last("--ta-text: "@ + t.text_color@ + "; --ta-muted-text: "@ + t.muted_text_color@ + "; --ta-placeholder: "@ + t.placeholder_color@ + "; --ta-border: "@ + t.border_color@ + "; --ta-radius: "@ + t.border_radius@ + "; --ta-accent: "@ + t.accent_color@ + "; --ta-active-bg: "@ + t.active_background@ + "; --ta-active-text: "@ + t.active_text_color@ + "; --ta-input-bg: "@ + t.input_background@, "; --ta-menu-bg: "@, "--ta-menu-bg: "@, t.menu_background@);
    lemma_declares_extend("--ta-text: "@ + t.text_color@ + "; --ta-muted-text: "@ + t.muted_text_color@ + "; --ta-placeholder: "@ + t.placeholder_color@ + "; --ta-border: "@ + t.border_color@ + "; --ta-radius: "@ + t.border_radius@ + "; --ta-accent: "@ + t.accent_color@ + "; --ta-active-bg: "@ + t.active_background@ + "; --ta-active-text: "@ + t.active_text_color@ + "; --ta-input-bg: "@ + t.input_background@ + "; --ta-menu-bg: "@ + t.menu_background@, "--ta-menu-bg: "@, t.menu_background@, "; --ta-menu-shadow: "@, t.menu_shadow@);
    lemma_declares_extend("--ta-text: "@ + t.text_color@ + "; --ta-muted-text: "@ + t.muted_text_color@ + "; --ta-placeholder: "@ + t.placeholder_color@ + "; --ta-border: "@ + t.border_color@ + "; --ta-radius: "@ + t.border_radius@ + "; --ta-accent: "@ + t.accent_color@ + "; --ta-active-bg: "@ + t.active_background@ + "; --ta-active-text: "@ + t.active_text_color@ + "; --ta-input-bg: "@ + t.input_background@ + "; --ta-menu-bg: "@ + t.menu_background@ + "; --ta-menu-shadow: "@ + t.menu_shadow@, "--ta-menu-bg: "@, t.menu_background@, "; --ta-token-bg: "@, t.token_background@);
    lemma_declares_extend("--ta-text: "@ + t.text_color@ + "; --ta-muted-text: "@ + t.muted_text_color@ + "; --ta-placeholder: "@ + t.placeholder_color@ + "; --ta-border: "@ + t.border_color@ + "; --ta-radius: "@ + t.border_radius@ + "; --ta-accent: "@ + t.accent_color@ + "; --ta-active-bg: "@ + t.active_background@ + "; --ta-active-text: "@ + t.active_text_color@ + "; --ta-input-bg: "@ + t.input_background@ + "; --ta-menu-bg: "@ + t.menu_background@ + "; --ta-menu-shadow: "@ + t.menu_shadow@ + "; --ta-token-bg: "@ + t.token_background@, "--ta-menu-bg: "@, t.menu_background@, "; --ta-token-text: "@, t.token_text_color@);
    lemma_declares_extend("--ta-text: "@ + t.text_color@ + "; --ta-muted-text: "@ + t.muted_text_color@ + "; --ta-placeholder: "@ + t.placeholder_color@ + "; --ta-border: "@ + t.border_color@ + "; --ta-radius: "@ + t.border_radius@ + "; --ta-accent: "@ + t.accent_color@ + "; --ta-active-bg: "@ + t.active_background@ + "; --ta-active-text: "@ + t.active_text_color@ + "; --ta-input-bg: "@ + t.input_background@ + "; --ta-menu-bg: "@ + t.menu_background@ + "; --ta-menu-shadow: "@ + t.menu_shadow@ + "; --ta-token-bg: "@ + t.token_background@ + "; --ta-token-text: "@ + t.token_text_color@, "--ta-menu-bg: "@, t.menu_background@, "; --ta-token-border: "@, t.token_border_color@);
    lemma_declares_extend("--ta-text: "@ + t.text_color@ + "; --ta-muted-text: "@ + t.muted_text_color@ + "; --ta-placeholder: "@ + t.placeholder_color@ + "; --ta-border: "@ + t.border_color@ + "; --ta-radius: "@ + t.border_radius@ + "; --ta-accent: "@ + t.accent_color@ + "; --ta-active-bg: "@ + t.active_background@ + "; --ta-active-text: "@ + t.active_text_color@ + "; --ta-input-bg: "@ + t.input_background@ + "; --ta-menu-bg: "@ + t.menu_background@ + "; --ta-menu-shadow: "@ + t.menu_shadow@ + "; --ta-token-bg: "@ + t.token_background@ + "; --ta-token-text: "@ + t.token_text_color@ + "; --ta-token-border: "@ + t.token_border_color@, "--ta-menu-bg: "@, t.menu_background@, "; --ta-highlight-bg: "@, t.highlight_background@);
    lemma_declares_extend("--ta-text: "@ + t.text_color@ + "; --ta-muted-text: "@ + t.muted_text_color@ + "; --ta-placeholder: "@ + t.placeholder_color@ + "; --ta-border: "@ + t.border_color@ + "; --ta-radius: "@ + t.border_radius@ + "; --ta-accent: "@ + t.accent_color@ + "; --ta-active-bg: "@ + t.active_background@ + "; --ta-active-text: "@ + t.active_text_color@ + "; --ta-input-bg: "@ + t.input_background@ + "; --ta-menu-bg: "@ + t.menu_background@ + "; --ta-menu-shadow: "@ + t.menu_shadow@ + "; --ta-token-bg: "@ + t.token_background@ + "; --ta-token-text: "@ + t.token_text_color@ + "; --ta-token-border: "@ + t.token_border_color@ + "; --ta-highlight-bg: "@ + t.highlight_background@, "--ta-menu-bg: "@, t.menu_background@, "; --ta-font-family: "@, t.font_family@);
    lemma_declares_extend("--ta-text: "@ + t.text_color@ + "; --ta-muted-text: "@ + t.muted_text_color@ + "; --ta-placeholder: "@ + t.placeholder_color@ + "; --ta-border: "@ + t.border_color@ + "; --ta-radius: "@ + t.border_radius@ + "; --ta-accent: "@ + t.accent_color@ + "; --ta-active-bg: "@ + t.active_background@ + "; --ta-active-text: "@ + t.active_text_color@ + "; --ta-input-bg: "@ + t.input_background@ + "; --ta-menu-bg: "@ + t.menu_background@ + "; --ta-menu-shadow: "@ + t.menu_shadow@ + "; --ta-token-bg: "@ + t.token_background@ + "; --ta-token-text: "@ + t.token_text_color@ + "; --ta-token-border: "@ + t.token_border_color@ + "; --ta-highlight-bg: "@ + t.highlight_background@ + "; --ta-font-family: "@ + t.font_family@, "--ta-menu-bg: "@, t.menu_background@, "; --ta-font-size: "@, t.font_size@);
}

proof fn lemma_declares_menu_shadow(t: TypeaheadTheme)
    ensures
        declares(style_text(t), "--ta-menu-shadow: "@, t.menu_shadow@),
{
    reveal_strlit("; --ta-menu-shadow: ");
    reveal_strlit("--ta-menu-shadow: ");
    reveal_strlit("; ");
    assert("; --ta-menu-shadow: "@ =~= "; "@ + "--ta-menu-shadow: "@);
    lemma_declares_last("--ta-text: "@ + t.text_color@ + "; --ta-muted-text: "@ + t.muted_text_color@ + "; --ta-placeholder: "@ + t.placeholder_color@ + "; --ta-border: "@ + t.border_color@ + "; --ta-radius: "@ + t.border_radius@ + "; --ta-accent: "@ + t.accent_color@ + "; --ta-active-bg: "@ + t.active_background@ + "; --ta-active-text: "@ + t.active_text_color@ + "; --ta-input-bg: "@ + t.input_background@ + "; --ta-menu-bg: "@ + t.menu_background@, "; --ta-menu-shadow: "@, "--ta-menu-shadow: "@, t.menu_shadow@);
    lemma_declares_extend("--ta-text: "@ + t.text_color@ + "; --ta-muted-text: "@ + t.muted_text_color@ + "; --ta-placeholder: "@ + t.placeholder_color@ + "; --ta-border: "@ + t.border_color@ + "; --ta-radius: "@ + t.border_radius@ + "; --ta-accent: "@ + t.accent_color@ + "; --ta-active-bg: "@ + t.active_background@ + "; --ta-active-text: "@ + t.active_text_color@ + "; --ta-input-bg: "@ + t.input_background@ + "; --ta-menu-bg: "@ + t.menu_background@ + "; --ta-menu-shadow: "@ + t.menu_shadow@, "--ta-menu-shadow: "@, t.menu_shadow@, "; --ta-token-bg: "@, t.token_background@);
    lemma_declares_extend("--ta-text: "@ + t.text_color@ + "; --ta-muted-text: "@ + t.muted_text_color@ + "; --ta-placeholder: "@ + t.placeholder_color@ + "; --ta-border: "@ + t.border_color@ + "; --ta-radius: "@ + t.border_radius@ + "; --ta-accent: "@ + t.accent_color@ + "; --ta-active-bg: "@ + t.active_background@ + "; --ta-active-text: "@ + t.active_text_color@ + "; --ta-input-bg: "@ + t.input_background@ + "; --ta-menu-bg: "@ + t.menu_background@ + "; --ta-menu-shadow: "@ + t.menu_shadow@ + "; --ta-token-bg: "@ + t.token_background@, "--ta-menu-shadow: "@, t.menu_shadow@, "; --ta-token-text: "@, t.token_text_color@);
    lemma_declares_extend("--ta-text: "@ + t.text_color@ + "; --ta-muted-text: "@ + t.muted_text_color@ + "; --ta-placeholder: "@ + t.placeholder_color@ + "; --ta-border: "@ + t.border_color@ + "; --ta-radius: "@ + t.border_radius@ + "; --ta-accent: "@ + t.accent_color@ + "; --ta-active-bg: "@ + t.active_background@ + "; --ta-active-text: "@ + t.active_text_color@ + "; --ta-input-bg: "@ + t.input_background@ + "; --ta-menu-bg: "@ + t.menu_background@ + "; --ta-menu-shadow: "@ + t.menu_shadow@ + "; --ta-token-bg: "@ + t.token_background@ + "; --ta-token-text: "@ + t.token_text_color@, "--ta-menu-shadow: "@, t.menu_shadow@, "; --ta-token-border: "@, t.token_border_color@);
    lemma_declares_extend("--ta-text: "@ + t.text_color@ + "; --ta-muted-text: "@ + t.muted_text_color@ + "; --ta-placeholder: "@ + t.placeholder_color@ + "; --ta-border: "@ + t.border_color@ + "; --ta-radius: "@ + t.border_radius@ + "; --ta-accent: "@ + t.accent_color@ + "; --ta-active-bg: "@ + t.active_background@ + "; --ta-active-text: "@ + t.active_text_color@ + "; --ta-input-bg: "@ + t.input_background@ + "; --ta-menu-bg: "@ + t.menu_background@ + "; --ta-menu-shadow: "@ + t.menu_shadow@ + "; --ta-token-bg: "@ + t.token_background@ + "; --ta-token-text: "@ + t.token_text_color@ + "; --ta-token-border: "@ + t.token_border_color@, "--ta-menu-shadow: "@, t.menu_shadow@, "; --ta-highlight-bg: "@, t.highlight_background@);
    lemma_declares_extend("--ta-text: "@ + t.text_color@ + "; --ta-muted-text: "@ + t.muted_text_color@ + "; --ta-placeholder: "@ + t.placeholder_color@ + "; --ta-border: "@ + t.border_color@ + "; --ta-radius: "@ + t.border_radius@ + "; --ta-accent: "@ + t.accent_color@ + "; --ta-active-bg: "@ + t.active_background@ + "; --ta-active-text: "@ + t.active_text_color@ + "; --ta-input-bg: "@ + t.input_background@ + "; --ta-menu-bg: "@ + t.menu_background@ + "; --ta-menu-shadow: "@ + t.menu_shadow@ + "; --ta-token-bg: "@ + t.token_background@ + "; --ta-token-text: "@ + t.token_text_color@ + "; --ta-token-border: "@ + t.token_border_color@ + "; --ta-highlight-bg: "@ + t.highlight_background@, "--ta-menu-shadow: "@, t.menu_shadow@, "; --ta-font-family: "@, t.font_family@);
    lemma_declares_extend("--ta-text: "@ + t.text_color@ + "; --ta-muted-text: "@ + t.muted_text_color@ + "; --ta-placeholder: "@ + t.placeholder_color@ + "; --ta-border: "@ + t.border_color@ + "; --ta-radius: "@ + t.border_radius@ + "; --ta-accent: "@ + t.accent_color@ + "; --ta-active-bg: "@ + t.active_background@ + "; --ta-active-text: "@ + t.active_text_color@ + "; --ta-input-bg: "@ + t.input_background@ + "; --ta-menu-bg: "@ + t.menu_background@ + "; --ta-menu-shadow: "@ + t.menu_shadow@ + "; --ta-token-bg: "@ + t.token_background@ + "; --ta-token-text: "@ + t.token_text_color@ + "; --ta-token-border: "@ + t.token_border_color@ + "; --ta-highlight-bg: "@ + t.highlight_background@ + "; --ta-font-family: "@ + t.font_family@, "--ta-menu-shadow: "@, t.menu_shadow@, "; --ta-font-size: "@, t.font_size@);
}

proof fn lemma_declares_token_background(t: TypeaheadTheme)
    ensures
        declares(style_text(t), "--ta-token-bg: "@, t.token_background@),
{
    reveal_strlit("; --ta-token-bg: ");
    reveal_strlit("--ta-token-bg: ");
    reveal_strlit("; ");
    assert("; --ta-token-bg: "@ =~= "; "@ + "--ta-token-bg: "@);
    lemma_declares_last("--ta-text: "@ + t.text_color@ + "; --ta-muted-text: "@ + t.muted_text_color@ + "; --ta-placeholder: "@ + t.placeholder_color@ + "; --ta-border: "@ + t.border_color@ + "; --ta-radius: "@ + t.border_radius@ + "; --ta-accent: "@ + t.accent_color@ + "; --ta-active-bg: "@ + t.active_background@ + "; --ta-active-text: "@ + t.active_text_color@ + "; --ta-input-bg: "@ + t.input_background@ + "; --ta-menu-bg: "@ + t.menu_background@ + "; --ta-menu-shadow: "@ + t.menu_shadow@, "; --ta-token-bg: "@, "--ta-token-bg: "@, t.token_background@);
    lemma_declares_extend("--ta-text: "@ + t.text_color@ + "; --ta-muted-text: "@ + t.muted_text_color@ + "; --ta-placeholder: "@ + t.placeholder_color@ + "; --ta-border: "@ + t.border_color@ + "; --ta-radius: "@ + t.border_radius@ + "; --ta-accent: "@ + t.accent_color@ + "; --ta-active-bg: "@ + t.active_background@ + "; --ta-active-text: "@ + t.active_text_color@ + "; --ta-input-bg: "@ + t.input_background@ + "; --ta-menu-bg: "@ + t.menu_background@ + "; --ta-menu-shadow: "@ + t.menu_shadow@ + "; --ta-token-bg: "@ + t.token_background@, "--ta-token-bg: "@, t.token_background@, "; --ta-token-text: "@, t.token_text_color@);
    lemma_declares_extend("--ta-text: "@ + t.text_color@ + "; --ta-muted-text: "@ + t.muted_text_color@ + "; --ta-placeholder: "@ + t.placeholder_color@ + "; --ta-border: "@ + t.border_color@ + "; --ta-radius: "@ + t.border_radius@ + "; --ta-accent: "@ + t.accent_color@ + "; --ta-active-bg: "@ + t.active_background@ + "; --ta-active-text: "@ + t.active_text_color@ + "; --ta-input-bg: "@ + t.input_background@ + "; --ta-menu-bg: "@ + t.menu_background@ + "; --ta-menu-shadow: "@ + t.menu_shadow@ + "; --ta-token-bg: "@ + t.token_background@ + "; --ta-token-text: "@ + t.token_text_color@, "--ta-token-bg: "@, t.token_background@, "; --ta-token-border: "@, t.token_border_color@);
    lemma_declares_extend("--ta-text: "@ + t.text_color@ + "; --ta-muted-text: "@ + t.muted_text_color@ + "; --ta-placeholder: "@ + t.placeholder_color@ + "; --ta-border: "@ + t.border_color@ + "; --ta-radius: "@ + t.border_radius@ + "; --ta-accent: "@ + t.accent_color@ + "; --ta-active-bg: "@ + t.active_background@ + "; --ta-active-text: "@ + t.active_text_color@ + "; --ta-input-bg: "@ + t.input_background@ + "; --ta-menu-bg: "@ + t.menu_background@ + "; --ta-menu-shadow: "@ + t.menu_shadow@ + "; --ta-token-bg: "@ + t.token_background@ + "; --ta-token-text: "@ + t.token_text_color@ + "; --ta-token-border: "@ + t.token_border_color@, "--ta-token-bg: "@, t.token_background@, "; --ta-highlight-bg: "@, t.highlight_background@);
    lemma_declares_extend("--ta-text: "@ + t.text_color@ + "; --ta-muted-text: "@ + t.muted_text_color@ + "; --ta-placeholder: "@ + t.placeholder_color@ + "; --ta-border: "@ + t.border_color@ + "; --ta-radius: "@ + t.border_radius@ + "; --ta-accent: "@ + t.accent_color@ + "; --ta-active-bg: "@ + t.active_background@ + "; --ta-active-text: "@ + t.active_text_color@ + "; --ta-input-bg: "@ + t.input_background@ + "; --ta-menu-bg: "@ + t.menu_background@ + "; --ta-menu-shadow: "@ + t.menu_shadow@ + "; --ta-token-bg: "@ + t.token_background@ + "; --ta-token-text: "@ + t.token_text_color@ + "; --ta-token-border: "@ + t.token_border_color@ + "; --ta-highlight-bg: "@ + t.highlight_background@, "--ta-token-bg: "@, t.token_background@, "; --ta-font-family: "@, t.font_family@);
    lemma_declares_extend("--ta-text: "@ + t.text_color@ + "; --ta-muted-text: "@ + t.muted_text_color@ + "; --ta-placeholder: "@ + t.placeholder_color@ + "; --ta-border: "@ + t.border_color@ + "; --ta-radius: "@ + t.border_radius@ + "; --ta-accent: "@ + t.accent_color@ + "; --ta-active-bg: "@ + t.active_background@ + "; --ta-active-text: "@ + t.active_text_color@ + "; --ta-input-bg: "@ + t.input_background@ + "; --ta-menu-bg: "@ + t.menu_background@ + "; --ta-menu-shadow: "@ + t.menu_shadow@ + "; --ta-token-bg: "@ + t.token_background@ + "; --ta-token-text: "@ + t.token_text_color@ + "; --ta-token-border: "@ + t.token_border_color@ + "; --ta-highlight-bg: "@ + t.highlight_background@ + "; --ta-font-family: "@ + t.font_family@, "--ta-token-bg: "@, t.token_background@, "; --ta-font-size: "@, t.font_size@);
}

proof fn lemma_declares_token_text_color(t: TypeaheadTheme)
    ensures
        declares(style_text(t), "--ta-token-text: "@, t.token_text_color@),
{
    reveal_strlit("; --ta-token-text: ");
    reveal_strlit("--ta-token-text: ");
    reveal_strlit("; ");
    assert("; --ta-token-text: "@ =~= "; "@ + "--ta-token-text: "@);
    lemma_declares_last("--ta-text: "@ + t.text_color@ + "; --ta-muted-text: "@ + t.muted_text_color@ + "; --ta-placeholder: "@ + t.placeholder_color@ + "; --ta-border: "@ + t.border_color@ + "; --ta-radius: "@ + t.border_radius@ + "; --ta-accent: "@ + t.accent_color@ + "; --ta-active-bg: "@ + t.active_background@ + "; --ta-active-text: "@ + t.active_text_color@ + "; --ta-input-bg: "@ + t.input_background@ + "; --ta-menu-bg: "@ + t.menu_background@ + "; --ta-menu-shadow: "@ + t.menu_shadow@ + "; --ta-token-bg: "@ + t.token_background@, "; --ta-token-text: "@, "--ta-token-text: "@, t.token_text_color@);
    lemma_declares_extend("--ta-text: "@ + t.text_color@ + "; --ta-muted-text: "@ + t.muted_text_color@ + "; --ta-placeholder: "@ + t.placeholder_color@ + "; --ta-border: "@ + t.border_color@ + "; --ta-radius: "@ + t.border_radius@ + "; --ta-accent: "@ + t.accent_color@ + "; --ta-active-bg: "@ + t.active_background@ + "; --ta-active-text: "@ + t.active_text_color@ + "; --ta-input-bg: "@ + t.input_background@ + "; --ta-menu-bg: "@ + t.menu_background@ + "; --ta-menu-shadow: "@ + t.menu_shadow@ + "; --ta-token-bg: "@ + t.token_background@ + "; --ta-token-text: "@ + t.token_text_color@, "--ta-token-text: "@, t.token_text_color@, "; --ta-token-border: "@, t.token_border_color@);
    lemma_declares_extend("--ta-text: "@ + t.text_color@ + "; --ta-muted-text: "@ + t.muted_text_color@ + "; --ta-placeholder: "@ + t.placeholder_color@ + "; --ta-border: "@ + t.border_color@ + "; --ta-radius: "@ + t.border_radius@ + "; --ta-accent: "@ + t.accent_color@ + "; --ta-active-bg: "@ + t.active_background@ + "; --ta-active-text: "@ + t.active_text_color@ + "; --ta-input-bg: "@ + t.input_background@ + "; --ta-menu-bg: "@ + t.menu_background@ + "; --ta-menu-shadow: "@ + t.menu_shadow@ + "; --ta-token-bg: "@ + t.token_background@ + "; --ta-token-text: "@ + t.token_text_color@ + "; --ta-token-border: "@ + t.token_border_color@, "--ta-token-text: "@, t.token_text_color@, "; --ta-highlight-bg: "@, t.highlight_background@);
    lemma_declares_extend("--ta-text: "@ + t.text_color@ + "; --ta-muted-text: "@ + t.muted_text_color@ + "; --ta-placeholder: "@ + t.placeholder_color@ + "; --ta-border: "@ + t.border_color@ + "; --ta-radius: "@ + t.border_radius@ + "; --ta-accent: "@ + t.accent_color@ + "; --ta-active-bg: "@ + t.active_background@ + "; --ta-active-text: "@ + t.active_text_color@ + "; --ta-input-bg: "@ + t.input_background@ + "; --ta-menu-bg: "@ + t.menu_background@ + "; --ta-menu-shadow: "@ + t.menu_shadow@ + "; --ta-token-bg: "@ + t.token_background@ + "; --ta-token-text: "@ + t.token_text_color@ + "; --ta-token-border: "@ + t.token_border_color@ + "; --ta-highlight-bg: "@ + t.highlight_background@, "--ta-token-text: "@, t.token_text_color@, "; --ta-font-family: "@, t.font_family@);
    lemma_declares_extend("--ta-text: "@ + t.text_color@ + "; --ta-muted-text: "@ + t.muted_text_color@ + "; --ta-placeholder: "@ + t.placeholder_color@ + "; --ta-border: "@ + t.border_color@ + "; --ta-radius: "@ + t.border_radius@ + "; --ta-accent: "@ + t.accent_color@ + "; --ta-active-bg: "@ + t.active_background@ + "; --ta-active-text: "@ + t.active_text_color@ + "; --ta-input-bg: "@ + t.input_background@ + "; --ta-menu-bg: "@ + t.menu_background@ + "; --ta-menu-shadow: "@ + t.menu_shadow@ + "; --ta-token-bg: "@ + t.token_background@ + "; --ta-token-text: "@ + t.token_text_color@ + "; --ta-token-border: "@ + t.token_border_color@ + "; --ta-highlight-bg: "@ + t.highlight_background@ + "; --ta-font-family: "@ + t.font_family@, "--ta-token-text: "@, t.token_text_color@, "; --ta-font-size: "@, t.font_size@);
}

proof fn lemma_declares_token_border_color(t: TypeaheadTheme)
    ensures
        declares(style_text(t), "--ta-token-border: "@, t.token_border_color@),
{
    reveal_strlit("; --ta-token-border: ");
    reveal_strlit("--ta-token-border: ");
    reveal_strlit("; ");
    assert("; --ta-token-border: "@ =~= "; "@ + "--ta-token-border: "@);
    lemma_declares_last("--ta-text: "@ + t.text_color@ + "; --ta-muted-text: "@ + t.muted_text_color@ + "; --ta-placeholder: "@ + t.placeholder_color@ + "; --ta-border: "@ + t.border_color@ + "; --ta-radius: "@ + t.border_radius@ + "; --ta-accent: "@ + t.accent_color@ + "; --ta-active-bg: "@ + t.active_background@ + "; --ta-active-text: "@ + t.active_text_color@ + "; --ta-input-bg: "@ + t.input_background@ + "; --ta-menu-bg: "@ + t.menu_background@ + "; --ta-menu-shadow: "@ + t.menu_shadow@ + "; --ta-token-bg: "@ + t.token_background@ + "; --ta-token-text: "@ + t.token_text_color@, "; --ta-token-border: "@, "--ta-token-border: "@, t.token_border_color@);
    lemma_declares_extend("--ta-text: "@ + t.text_color@ + "; --ta-muted-text: "@ + t.muted_text_color@ + "; --ta-placeholder: "@ + t.placeholder_color@ + "; --ta-border: "@ + t.border_color@ + "; --ta-radius: "@ + t.border_radius@ + "; --ta-accent: "@ + t.accent_color@ + "; --ta-active-bg: "@ + t.active_background@ + "; --ta-active-text: "@ + t.active_text_color@ + "; --ta-input-bg: "@ + t.input_background@ + "; --ta-menu-bg: "@ + t.menu_background@ + "; --ta-menu-shadow: "@ + t.menu_shadow@ + "; --ta-token-bg: "@ + t.token_background@ + "; --ta-token-text: "@ + t.token_text_color@ + "; --ta-token-border: "@ + t.token_border_color@, "--ta-token-border: "@, t.token_border_color@, "; --ta-highlight-bg: "@, t.highlight_background@);
    lemma_declares_extend("--ta-text: "@ + t.text_color@ + "; --ta-muted-text: "@ + t.muted_text_color@ + "; --ta-placeholder: "@ + t.placeholder_color@ + "; --ta-border: "@ + t.border_color@ + "; --ta-radius: "@ + t.border_radius@ + "; --ta-accent: "@ + t.accent_color@ + "; --ta-active-bg: "@ + t.active_background@ + "; --ta-active-text: "@ + t.active_text_color@ + "; --ta-input-bg: "@ + t.input_background@ + "; --ta-menu-bg: "@ + t.menu_background@ + "; --ta-menu-shadow: "@ + t.menu_shadow@ + "; --ta-token-bg: "@ + t.token_background@ + "; --ta-token-text: "@ + t.token_text_color@ + "; --ta-token-border: "@ + t.token_border_color@ + "; --ta-highlight-bg: "@ + t.highlight_background@, "--ta-token-border: "@, t.token_border_color@, "; --ta-font-family: "@, t.font_family@);
    lemma_declares_extend("--ta-text: "@ + t.text_color@ + "; --ta-muted-text: "@ + t.muted_text_color@ + "; --ta-placeholder: "@ + t.placeholder_color@ + "; --ta-border: "@ + t.border_color@ + "; --ta-radius: "@ + t.border_radius@ + "; --ta-accent: "@ + t.accent_color@ + "; --ta-active-bg: "@ + t.active_background@ + "; --ta-active-text: "@ + t.active_text_color@ + "; --ta-input-bg: "@ + t.input_background@ + "; --ta-menu-bg: "@ + t.menu_background@ + "; --ta-menu-shadow: "@ + t.menu_shadow@ + "; --ta-token-bg: "@ + t.token_background@ + "; --ta-token-text: "@ + t.token_text_color@ + "; --ta-token-border: "@ + t.token_border_color@ + "; --ta-highlight-bg: "@ + t.highlight_background@ + "; --ta-font-family: "@ + t.font_family@, "--ta-token-border: "@, t.token_border_color@, "; --ta-font-size: "@, t.font_size@);
}

proof fn lemma_declares_highlight_background(t: TypeaheadTheme)
    ensures
        declares(style_text(t), "--ta-highlight-bg: "@, t.highlight_background@),
{
    reveal_strlit("; --ta-highlight-bg: ");
    reveal_strlit("--ta-highlight-bg: ");
    reveal_strlit("; ");
    assert("; --ta-highlight-bg: "@ =~= "; "@ + "--ta-highlight-bg: "@);
    lemma_declares_last("--ta-text: "@ + t.text_color@ + "; --ta-muted-text: "@ + t.muted_text_color@ + "; --ta-placeholder: "@ + t.placeholder_color@ + "; --ta-border: "@ + t.border_color@ + "; --ta-radius: "@ + t.border_radius@ + "; --ta-accent: "@ + t.accent_color@ + "; --ta-active-bg: "@ + t.active_background@ + "; --ta-active-text: "@ + t.active_text_color@ + "; --ta-input-bg: "@ + t.input_background@ + "; --ta-menu-bg: "@ + t.menu_background@ + "; --ta-menu-shadow: "@ + t.menu_shadow@ + "; --ta-token-bg: "@ + t.token_background@ + "; --ta-token-text: "@ + t.token_text_color@ + "; --ta-token-border: "@ + t.token_border_color@, "; --ta-highlight-bg: "@, "--ta-highlight-bg: "@, t.highlight_background@);
    lemma_declares_extend("--ta-text: "@ + t.text_color@ + "; --ta-muted-text: "@ + t.muted_text_color@ + "; --ta-placeholder: "@ + t.placeholder_color@ + "; --ta-border: "@ + t.border_color@ + "; --ta-radius: "@ + t.border_radius@ + "; --ta-accent: "@ + t.accent_color@ + "; --ta-active-bg: "@ + t.active_background@ + "; --ta-active-text: "@ + t.active_text_color@ + "; --ta-input-bg: "@ + t.input_background@ + "; --ta-menu-bg: "@ + t.menu_background@ + "; --ta-menu-shadow: "@ + t.menu_shadow@ + "; --ta-token-bg: "@ + t.token_background@ + "; --ta-token-text: "@ + t.token_text_color@ + "; --ta-token-border: "@ + t.token_border_color@ + "; --ta-highlight-bg: "@ + t.highlight_background@, "--ta-highlight-bg: "@, t.highlight_background@, "; --ta-font-family: "@, t.font_family@);
    lemma_declares_extend("--ta-text: "@ + t.text_color@ + "; --ta-muted-text: "@ + t.muted_text_color@ + "; --ta-placeholder: "@ + t.placeholder_color@ + "; --ta-border: "@ + t.border_color@ + "; --ta-radius: "@ + t.border_radius@ + "; --ta-accent: "@ + t.accent_color@ + "; --ta-active-bg: "@ + t.active_background@ + "; --ta-active-text: "@ + t.active_text_color@ + "; --ta-input-bg: "@ + t.input_background@ + "; --ta-menu-bg: "@ + t.menu_background@ + "; --ta-menu-shadow: "@ + t.menu_shadow@ + "; --ta-token-bg: "@ + t.token_background@ + "; --ta-token-text: "@ + t.token_text_color@ + "; --ta-token-border: "@ + t.token_border_color@ + "; --ta-highlight-bg: "@ + t.highlight_background@ + "; --ta-font-family: "@ + t.font_family@, "--ta-highlight-bg: "@, t.highlight_background@, "; --ta-font-size: "@, t.font_size@);
}

proof fn lemma_declares_font_family(t: TypeaheadTheme)
    ensures
        declares(style_text(t), "--ta-font-family: "@, t.font_family@),
{
    reveal_strlit("; --ta-font-family: ");
    reveal_strlit("--ta-font-family: ");
    reveal_strlit("; ");
    assert("; --ta-font-family: "@ =~= "; "@ + "--ta-font-family: "@);
    lemma_declares_last("--ta-text: "@ + t.text_color@ + "; --ta-muted-text: "@ + t.muted_text_color@ + "; --ta-placeholder: "@ + t.placeholder_color@ + "; --ta-border: "@ + t.border_color@ + "; --ta-radius: "@ + t.border_radius@ + "; --ta-accent: "@ + t.accent_color@ + "; --ta-active-bg: "@ + t.active_background@ + "; --ta-active-text: "@ + t.active_text_color@ + "; --ta-input-bg: "@ + t.input_background@ + "; --ta-menu-bg: "@ + t.menu_background@ + "; --ta-menu-shadow: "@ + t.menu_shadow@ + "; --ta-token-bg: "@ + t.token_background@ + "; --ta-token-text: "@ + t.token_text_color@ + "; --ta-token-border: "@ + t.token_border_color@ + "; --ta-highlight-bg: "@ + t.highlight_background@, "; --ta-font-family: "@, "--ta-font-family: "@, t.font_family@);
    lemma_declares_extend("--ta-text: "@ + t.text_color@ + "; --ta-muted-text: "@ + t.muted_text_color@ + "; --ta-placeholder: "@ + t.placeholder_color@ + "; --ta-border: "@ + t.border_color@ + "; --ta-radius: "@ + t.border_radius@ + "; --ta-accent: "@ + t.accent_color@ + "; --ta-active-bg: "@ + t.active_background@ + "; --ta-active-text: "@ + t.active_text_color@ + "; --ta-input-bg: "@ + t.input_background@ + "; --ta-menu-bg: "@ + t.menu_background@ + "; --ta-menu-shadow: "@ + t.menu_shadow@ + "; --ta-token-bg: "@ + t.token_background@ + "; --ta-token-text: "@ + t.token_text_color@ + "; --ta-token-border: "@ + t.token_border_color@ + "; --ta-highlight-bg: "@ + t.highlight_background@ + "; --ta-font-family: "@ + t.font_family@, "--ta-font-family: "@, t.font_family@, "; --ta-font-size: "@, t.font_size@);
}

proof fn lemma_declares_font_size(t: TypeaheadTheme)
    ensures
        declares(style_text(t), "--ta-font-size: "@, t.font_size@),
{
    reveal_strlit("; --ta-font-size: ");
    reveal_strlit("--ta-font-size: ");
    reveal_strlit("; ");
    assert("; --ta-font-size: "@ =~= "; "@ + "--ta-font-size: "@);
    lemma_declares_last("--ta-text: "@ + t.text_color@ + "; --ta-muted-text: "@ + t.muted_text_color@ + "; --ta-placeholder: "@ + t.placeholder_color@ + "; --ta-border: "@ + t.border_color@ + "; --ta-radius: "@ + t.border_radius@ + "; --ta-accent: "@ + t.accent_color@ + "; --ta-active-bg: "@ + t.active_background@ + "; --ta-active-text: "@ + t.active_text_color@ + "; --ta-input-bg: "@ + t.input_background@ + "; --ta-menu-bg: "@ + t.menu_background@ + "; --ta-menu-shadow: "@ + t.menu_shadow@ + "; --ta-token-bg: "@ + t.token_background@ + "; --ta-token-text: "@ + t.token_text_color@ + "; --ta-token-border: "@ + t.token_border_color@ + "; --ta-highlight-bg: "@ + t.highlight_background@ + "; --ta-font-family: "@ + t.font_family@, "; --ta-font-size: "@, "--ta-font-size: "@, t.font_size@);
}

/// Each `--ta-*` property of the style carries its own field of the theme.
pub proof fn lemma_style_declares_each_field(t: TypeaheadTheme)
    ensures
        declares(style_text(t), "--ta-text: "@, t.text_color@),
        declares(style_text(t), "--ta-muted-text: "@, t.muted_text_color@),
        declares(style_text(t), "--ta-placeholder: "@, t.placeholder_color@),
        declares(style_text(t), "--ta-border: "@, t.border_color@),
        declares(style_text(t), "--ta-radius: "@, t.border_radius@),
        declares(style_text(t), "--ta-accent: "@, t.accent_color@),
        declares(style_text(t), "--ta-active-bg: "@, t.active_background@),
        declares(style_text(t), "--ta-active-text: "@, t.active_text_color@),
        declares(style_text(t), "--ta-input-bg: "@, t.input_background@),
        declares(style_text(t), "--ta-menu-bg: "@, t.menu_background@),
        declares(style_text(t), "--ta-menu-shadow: "@, t.menu_shadow@),
        declares(style_text(t), "--ta-token-bg: "@, t.token_background@),
        declares(style_text(t), "--ta-token-text: "@, t.token_text_color@),
        declares(style_text(t), "--ta-token-border: "@, t.token_border_color@),
        declares(style_text(t), "--ta-highlight-bg: "@, t.highlight_background@),
        declares(style_text(t), "--ta-font-family: "@, t.font_family@),
        declares(style_text(t), "--ta-font-size: "@, t.font_size@),
{
    lemma_declares_text_color(t);
    lemma_declares_muted_text_color(t);
    lemma_declares_placeholder_color(t);
    lemma_declares_border_color(t);
    lemma_declares_border_radius(t);
    lemma_declares_accent_color(t);
    lemma_declares_active_background(t);
    lemma_declares_active_text_color(t);
    lemma_declares_input_background(t);
    lemma_declares_menu_background(t);
    lemma_declares_menu_shadow(t);
    lemma_declares_token_background(t);
    lemma_declares_token_text_color(t);
    lemma_declares_token_border_color(t);
    lemma_declares_highlight_background(t);
    lemma_declares_font_family(t);
    lemma_declares_font_size(t);
}

impl TypeaheadTheme {
    /// Serializes the theme as an inline `style` string of `--ta-*` custom
    /// properties.
    pub fn to_style(&self) -> (r: String)
        ensures
            r@ == style_text(*self),
            declares(r@, "--ta-text: "@, self.text_color@),
            declares(r@, "--ta-muted-text: "@, self.muted_text_color@),
            declares(r@, "--ta-placeholder: "@, self.placeholder_color@),
            declares(r@, "--ta-border: "@, self.border_color@),
            declares(r@, "--ta-radius: "@, self.border_radius@),
            declares(r@, "--ta-accent: "@, self.accent_color@),
            declares(r@, "--ta-active-bg: "@, self.active_background@),
            declares(r@, "--ta-active-text: "@, self.active_text_color@),
            declares(r@, "--ta-input-bg: "@, self.input_background@),
            declares(r@, "--ta-menu-bg: "@, self.menu_background@),
            declares(r@, "--ta-menu-shadow: "@, self.menu_shadow@),
            declares(r@, "--ta-token-bg: "@, self.token_background@),
            declares(r@, "--ta-token-text: "@, self.token_text_color@),
            declares(r@, "--ta-token-border: "@, self.token_border_color@),
            declares(r@, "--ta-highlight-bg: "@, self.highlight_background@),
            declares(r@, "--ta-font-family: "@, self.font_family@),
            declares(r@, "--ta-font-size: "@, self.font_size@),
    {
        let mut s = String::new();
        s.append("--ta-text: ");
        s.append(self.text_color.as_str());
        s.append("; --ta-muted-text: ");
        s.append(self.muted_text_color.as_str());
        s.append("; --ta-placeholder: ");
        s.append(self.placeholder_color.as_str());
        s.append("; --ta-border: ");
        s.append(self.border_color.as_str());
        s.append("; --ta-radius: ");
        s.append(self.border_radius.as_str());
        s.append("; --ta-accent: ");
        s.append(self.accent_color.as_str());
        s.append("; --ta-active-bg: ");
        s.append(self.active_background.as_str());
        s.append("; --ta-active-text: ");
        s.append(self.active_text_color.as_str());
        s.append("; --ta-input-bg: ");
        s.append(self.input_background.as_str());
        s.append("; --ta-menu-bg: ");
        s.append(self.menu_background.as_str());
        s.append("; --ta-menu-shadow: ");
        s.append(self.menu_shadow.as_str());
        s.append("; --ta-token-bg: ");
        s.append(self.token_background.as_str());
        s.append("; --ta-token-text: ");
        s.append(self.token_text_color.as_str());
        s.append("; --ta-token-border: ");
        s.append(self.token_border_color.as_str());
        s.append("; --ta-highlight-bg: ");
        s.append(self.highlight_background.as_str());
        s.append("; --ta-font-family: ");
        s.append(self.font_family.as_str());
        s.append("; --ta-font-size: ");
        s.append(self.font_size.as_str());
        proof {
            lemma_style_declares_each_field(*self);
        }
        s
    }
}

} // verus!
