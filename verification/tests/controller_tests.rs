use leptos_typeahead::{TypeaheadConfig, TypeaheadController, TypeaheadItem};

fn config(multiple: bool) -> TypeaheadConfig {
    TypeaheadConfig {
        multiple,
        min_length: 0,
        allow_new: false,
        disabled: false,
        clear_button: true,
        is_loading: false,
        has_on_search: false,
        search_delay_ms: 200,
    }
}

fn s(x: &str) -> String {
    x.to_string()
}

fn options() -> Vec<String> {
    vec![s("Rust"), s("TypeScript"), s("Svelte")]
}

fn no_new(t: String) -> String {
    t
}

#[test]
fn new_single_takes_first_label_as_query() {
    let c = TypeaheadController::new(vec![s("Rust"), s("Go")], config(false));
    assert_eq!(c.query, "Rust");
    assert!(!c.show_menu);
    assert_eq!(c.active_index, -1);
    assert_eq!(c.search_generation, 0);
}

#[test]
fn new_multiple_starts_with_empty_query() {
    let c = TypeaheadController::new(vec![s("Rust")], config(true));
    assert_eq!(c.query, "");
}

#[test]
fn filtered_options_with_default_filter() {
    let mut c = TypeaheadController::new(Vec::<String>::new(), config(false));
    assert_eq!(c.filtered_options(options()), options());
    c.query = s("S");
    assert_eq!(c.filtered_options(options()), vec![s("Rust"), s("TypeScript"), s("Svelte")]);
    c.query = s("script");
    assert_eq!(c.filtered_options(options()), vec![s("TypeScript")]);
}

#[test]
fn filtered_options_respect_min_length_in_bytes() {
    let mut cfg = config(false);
    cfg.min_length = 2;
    let mut c = TypeaheadController::new(Vec::<String>::new(), cfg);
    c.query = s("r");
    assert_eq!(c.filtered_options(options()), Vec::<String>::new());
    c.query = s("é");
    assert_eq!(c.filtered_options(vec![s("é")]), vec![s("é")]);
}

#[test]
fn filtered_options_drop_selected_in_multiple_mode() {
    let c = TypeaheadController::new(vec![s("Rust")], config(true));
    assert_eq!(c.filtered_options(options()), vec![s("TypeScript"), s("Svelte")]);
    let single = TypeaheadController::new(vec![s("Rust")], config(false));
    let mut single = single;
    single.query = s("");
    assert_eq!(single.filtered_options(options()), options());
}

#[test]
fn filtered_options_with_custom_verdicts() {
    let c = TypeaheadController::new(vec![s("Svelte")], config(true));
    assert_eq!(c.filtered_options_matching(options(), &vec![false, true, true]), vec![s("TypeScript")]);
}

#[test]
fn items_offer_new_entry() {
    let mut cfg = config(false);
    cfg.allow_new = true;
    let mut c = TypeaheadController::new(Vec::<String>::new(), cfg);
    c.query = s("  Elm ");
    let items = c.items(vec![s("Elmo")]);
    assert!(items == vec![TypeaheadItem::Existing(s("Elmo")), TypeaheadItem::New(s("Elm"))]);
}

#[test]
fn items_no_new_entry_on_exact_match() {
    let mut cfg = config(true);
    cfg.allow_new = true;
    let mut c = TypeaheadController::new(Vec::<String>::new(), cfg);
    c.query = s("rust");
    assert!(c.items(vec![s("Rust")]) == vec![TypeaheadItem::Existing(s("Rust"))]);
    let mut c = TypeaheadController::new(vec![s("RUST")], cfg);
    c.query = s("Rust ");
    assert!(c.items(Vec::new()) == Vec::<TypeaheadItem<String>>::new());
}

#[test]
fn items_no_new_entry_without_allow_new_or_text() {
    let mut c = TypeaheadController::new(Vec::<String>::new(), config(false));
    c.query = s("Elm");
    assert!(c.items(vec![]) == Vec::<TypeaheadItem<String>>::new());
    let mut cfg = config(false);
    cfg.allow_new = true;
    let mut c = TypeaheadController::new(Vec::<String>::new(), cfg);
    c.query = s("   ");
    assert!(c.items(vec![]) == Vec::<TypeaheadItem<String>>::new());
}

#[test]
fn effective_active_index_picks_only_row() {
    let mut c = TypeaheadController::new(Vec::<String>::new(), config(false));
    assert_eq!(c.effective_active_index(1), 0);
    assert_eq!(c.effective_active_index(2), -1);
    assert_eq!(c.effective_active_index(0), -1);
    c.active_index = 1;
    assert_eq!(c.effective_active_index(1), 1);
}

#[test]
fn empty_state_and_menu_open() {
    let mut cfg = config(false);
    cfg.min_length = 1;
    let mut c = TypeaheadController::new(Vec::<String>::new(), cfg);
    assert!(!c.is_empty(0));
    c.query = s("x");
    assert!(c.is_empty(0));
    assert!(!c.is_empty(1));
    assert!(!c.menu_open());
    c.open_menu();
    assert!(c.menu_open());
    c.config.disabled = true;
    assert!(!c.menu_open());
    c.config.disabled = false;
    c.config.is_loading = true;
    assert!(!c.is_empty(0));
}

#[test]
fn show_clear_rules() {
    let mut c = TypeaheadController::new(Vec::<String>::new(), config(false));
    assert!(!c.show_clear());
    c.query = s("a");
    assert!(c.show_clear());
    c.config.multiple = true;
    assert!(!c.show_clear());
    c.selected.push(s("x"));
    assert!(c.show_clear());
    c.config.clear_button = false;
    assert!(!c.show_clear());
    c.config.clear_button = true;
    c.config.disabled = true;
    assert!(!c.show_clear());
}

#[test]
fn arrow_down_opens_then_moves_and_stops_at_last() {
    let mut c = TypeaheadController::new(Vec::<String>::new(), config(false));
    c.move_active_down(2);
    assert!(c.show_menu);
    assert_eq!(c.active_index, -1);
    c.move_active_down(2);
    assert_eq!(c.active_index, 0);
    c.move_active_down(2);
    assert_eq!(c.active_index, 1);
    c.move_active_down(2);
    assert_eq!(c.active_index, 1);
    c.move_active_down(0);
    assert_eq!(c.active_index, -1);
}

#[test]
fn arrow_up_stops_at_none() {
    let mut c = TypeaheadController::new(Vec::<String>::new(), config(false));
    c.active_index = 1;
    c.move_active_up();
    assert_eq!(c.active_index, 0);
    c.move_active_up();
    assert_eq!(c.active_index, -1);
    c.move_active_up();
    assert_eq!(c.active_index, -1);
}

#[test]
fn arrows_stay_within_rows() {
    let mut c = TypeaheadController::new(Vec::<String>::new(), config(false));
    c.open_menu();
    for _ in 0..5 {
        c.move_active_down(3);
        assert!(c.active_index >= -1 && c.active_index < 3);
    }
    for _ in 0..5 {
        c.move_active_up();
        assert!(c.active_index >= -1 && c.active_index < 3);
    }
}

#[test]
fn input_without_search_callback() {
    let mut c = TypeaheadController::new(Vec::<String>::new(), config(false));
    c.active_index = 2;
    assert!(c.handle_input(s("ru")).is_none());
    assert_eq!(c.query, "ru");
    assert_eq!(c.active_index, -1);
    assert!(c.show_menu);
    assert_eq!(c.search_generation, 0);
}

#[test]
fn only_latest_search_is_due() {
    let mut cfg = config(false);
    cfg.has_on_search = true;
    cfg.min_length = 2;
    cfg.search_delay_ms = 150;
    let mut c = TypeaheadController::new(Vec::<String>::new(), cfg);
    let first = c.handle_input(s("ru")).unwrap();
    assert_eq!(first.generation, 1);
    assert_eq!(first.delay_ms, 150);
    assert_eq!(first.value, "ru");
    assert!(c.should_run_search(&first));
    let second = c.handle_input(s("rus")).unwrap();
    assert_eq!(second.generation, 2);
    assert!(!c.should_run_search(&first));
    assert!(c.should_run_search(&second));
    let short = c.handle_input(s("r")).unwrap();
    assert!(!c.should_run_search(&short));
}

#[test]
fn select_in_single_mode_replaces_and_sets_query() {
    let mut c = TypeaheadController::new(vec![s("Go")], config(false));
    c.open_menu();
    c.active_index = 1;
    c.select_item(TypeaheadItem::Existing(s("Rust")), no_new);
    assert_eq!(c.selected, vec![s("Rust")]);
    assert_eq!(c.query, "Rust");
    assert!(!c.show_menu);
    assert_eq!(c.active_index, -1);
    c.sync_query_with_selection();
    assert_eq!(c.query, "Rust");
}

#[test]
fn select_in_multiple_mode_appends_and_clears_query() {
    let mut c = TypeaheadController::new(vec![s("Go")], config(true));
    c.query = s("ru");
    c.select_item(TypeaheadItem::Existing(s("Rust")), no_new);
    assert_eq!(c.selected, vec![s("Go"), s("Rust")]);
    assert_eq!(c.query, "");
}

#[test]
fn select_new_entry_uses_constructor() {
    let mut cfg = config(true);
    cfg.allow_new = true;
    let mut c = TypeaheadController::new(Vec::<String>::new(), cfg);
    c.select_item(TypeaheadItem::New(s("Elm")), |t: String| format!("new:{t}"));
    assert_eq!(c.selected, vec![s("new:Elm")]);
}

#[test]
fn select_new_entry_without_allow_new_changes_nothing() {
    let mut c = TypeaheadController::new(vec![s("Go")], config(true));
    c.open_menu();
    c.query = s("el");
    c.select_item(TypeaheadItem::New(s("Elm")), no_new);
    assert_eq!(c.selected, vec![s("Go")]);
    assert_eq!(c.query, "el");
    assert!(c.show_menu);
}

#[test]
fn remove_token_in_and_out_of_range() {
    let mut c = TypeaheadController::new(vec![s("a"), s("b"), s("c")], config(true));
    c.remove_token(5);
    assert_eq!(c.selected, vec![s("a"), s("b"), s("c")]);
    c.remove_token(1);
    assert_eq!(c.selected, vec![s("a"), s("c")]);
}

#[test]
fn clear_empties_everything() {
    let mut c = TypeaheadController::new(vec![s("a")], config(false));
    c.open_menu();
    c.active_index = 0;
    c.clear();
    assert!(c.selected.is_empty());
    assert_eq!(c.query, "");
    assert!(!c.show_menu);
    assert_eq!(c.active_index, -1);
    assert!(!c.show_clear());
}

#[test]
fn sync_follows_selection_only_when_idle_and_single() {
    let mut c = TypeaheadController::new(vec![s("a")], config(false));
    c.selected = vec![s("b")];
    c.sync_query_with_selection();
    assert_eq!(c.query, "b");
    c.selected.clear();
    c.sync_query_with_selection();
    assert_eq!(c.query, "");
    c.selected = vec![s("z")];
    c.open_menu();
    c.sync_query_with_selection();
    assert_eq!(c.query, "");
    let mut m = TypeaheadController::new(vec![s("a")], config(true));
    m.query = s("typed");
    m.sync_query_with_selection();
    assert_eq!(m.query, "typed");
}

#[test]
fn close_menu_resets_active_row() {
    let mut c = TypeaheadController::new(Vec::<String>::new(), config(false));
    c.open_menu();
    c.active_index = 3;
    c.close_menu();
    assert!(!c.show_menu);
    assert_eq!(c.active_index, -1);
}

#[test]
fn delegated_filtering_shows_options_as_given() {
    let mut cfg = config(false);
    cfg.has_on_search = true;
    let mut c = TypeaheadController::new(Vec::<String>::new(), cfg);
    c.query = s("zzz");
    assert!(!c.needs_verdicts());
    assert_eq!(c.filtered_options(options()), options());
    assert_eq!(c.filtered_options_matching(options(), &vec![false, false, false]), options());
}

#[test]
fn delegated_filtering_still_respects_min_length_and_selection() {
    let mut cfg = config(true);
    cfg.has_on_search = true;
    cfg.min_length = 2;
    let mut c = TypeaheadController::new(vec![s("Rust")], cfg);
    c.query = s("x");
    assert_eq!(c.filtered_options(options()), Vec::<String>::new());
    c.query = s("xyz");
    assert_eq!(c.filtered_options(options()), vec![s("TypeScript"), s("Svelte")]);
}

#[test]
fn verdicts_needed_only_for_local_filtering() {
    let mut cfg = config(false);
    cfg.min_length = 1;
    let mut c = TypeaheadController::new(Vec::<String>::new(), cfg);
    assert!(!c.needs_verdicts());
    c.query = s("r");
    assert!(c.needs_verdicts());
}

#[test]
fn only_last_search_of_a_burst_is_due() {
    let mut cfg = config(false);
    cfg.has_on_search = true;
    cfg.min_length = 1;
    let mut c = TypeaheadController::new(Vec::<String>::new(), cfg);
    let requests: Vec<_> = ["r", "ru", "rus", "rust"].iter().map(|v| c.handle_input(s(v)).unwrap()).collect();
    for request in &requests[..3] {
        assert!(!c.should_run_search(request));
    }
    assert!(c.should_run_search(&requests[3]));
    assert_eq!(requests[3].value, "rust");
    assert_eq!(c.search_generation, 4);
}
