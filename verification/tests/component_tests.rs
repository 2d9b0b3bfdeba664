use leptos_typeahead::{
    active_descendant, decimal_string, input_id, item_id, listbox_id, remove_label, root_class, Adornment,
    KeyAction, MenuBody, TypeaheadConfig, TypeaheadController, TypeaheadItem,
};

fn config(multiple: bool) -> TypeaheadConfig {
    TypeaheadConfig {
        multiple,
        min_length: 0,
        allow_new: false,
        disabled: false,
        clear_button: true,
        is_loading: false,
        has_on_search: false,
        search_delay_ms: 200,
    }
}

fn s(x: &str) -> String {
    x.to_string()
}

#[test]
fn ids_and_labels() {
    assert_eq!(listbox_id("skills"), "skills-listbox");
    assert_eq!(input_id("skills"), "skills-input");
    assert_eq!(item_id("skills", 0), "skills-item-0");
    assert_eq!(item_id("skills", 12), "skills-item-12");
    assert_eq!(active_descendant("skills", 3), Some(s("skills-item-3")));
    assert_eq!(active_descendant("skills", -1), None);
    assert_eq!(root_class("wide"), "ta-root wide");
    assert_eq!(root_class(""), "ta-root ");
    assert_eq!(remove_label("Rust"), "Remove Rust");
}

#[test]
fn decimal_writing() {
    assert_eq!(decimal_string(0), "0");
    assert_eq!(decimal_string(7), "7");
    assert_eq!(decimal_string(10), "10");
    assert_eq!(decimal_string(1234567890), "1234567890");
    assert_eq!(decimal_string(usize::MAX), usize::MAX.to_string());
}

#[test]
fn arrow_keys() {
    let c = TypeaheadController::new(Vec::<String>::new(), config(false));
    assert_eq!(c.key_action("ArrowDown", 0), KeyAction::MoveDown);
    assert_eq!(c.key_action("ArrowUp", 0), KeyAction::MoveUp);
    assert!(KeyAction::MoveDown.prevents_default());
    assert!(KeyAction::MoveUp.prevents_default());
}

#[test]
fn enter_selects_highlighted_row_of_open_menu() {
    let mut c = TypeaheadController::new(Vec::<String>::new(), config(false));
    assert_eq!(c.key_action("Enter", 1), KeyAction::Ignore);
    c.open_menu();
    assert_eq!(c.key_action("Enter", 1), KeyAction::Select(0));
    assert_eq!(c.key_action("Enter", 2), KeyAction::Ignore);
    c.active_index = 1;
    assert_eq!(c.key_action("Enter", 2), KeyAction::Select(1));
    assert_eq!(c.key_action("Enter", 1), KeyAction::Ignore);
    assert!(KeyAction::Select(1).prevents_default());
    assert!(!KeyAction::Ignore.prevents_default());
}

#[test]
fn escape_closes_open_menu() {
    let mut c = TypeaheadController::new(Vec::<String>::new(), config(false));
    assert_eq!(c.key_action("Escape", 0), KeyAction::Ignore);
    c.open_menu();
    assert_eq!(c.key_action("Escape", 0), KeyAction::Close);
    assert!(KeyAction::Close.prevents_default());
}

#[test]
fn backspace_removes_last_token_in_empty_multiple_input() {
    let mut c = TypeaheadController::new(vec![s("a"), s("b")], config(true));
    assert_eq!(c.key_action("Backspace", 0), KeyAction::RemoveToken(1));
    assert!(!KeyAction::RemoveToken(1).prevents_default());
    c.query = s("x");
    assert_eq!(c.key_action("Backspace", 0), KeyAction::Ignore);
    let single = TypeaheadController::new(Vec::<String>::new(), config(false));
    assert_eq!(single.key_action("Backspace", 0), KeyAction::Ignore);
    let empty = TypeaheadController::new(Vec::<String>::new(), config(true));
    assert_eq!(empty.key_action("Backspace", 0), KeyAction::Ignore);
}

#[test]
fn other_keys_are_ignored() {
    let c = TypeaheadController::new(Vec::<String>::new(), config(false));
    assert_eq!(c.key_action("a", 3), KeyAction::Ignore);
    assert_eq!(c.key_action("enter", 3), KeyAction::Ignore);
}

#[test]
fn outside_click_closes_open_menu() {
    let mut c = TypeaheadController::new(Vec::<String>::new(), config(false));
    c.open_menu();
    c.active_index = 0;
    c.handle_outside_click(true);
    assert!(c.show_menu);
    c.handle_outside_click(false);
    assert!(!c.show_menu);
    assert_eq!(c.active_index, -1);
}

#[test]
fn adornment_and_menu_body() {
    let mut c = TypeaheadController::new(Vec::<String>::new(), config(false));
    assert_eq!(c.adornment(), Adornment::Nothing);
    c.query = s("x");
    assert_eq!(c.adornment(), Adornment::ClearButton);
    c.config.is_loading = true;
    assert_eq!(c.adornment(), Adornment::Spinner);
    assert_eq!(c.menu_body(0), MenuBody::Searching);
    c.config.is_loading = false;
    assert_eq!(c.menu_body(0), MenuBody::NoResults);
    assert_eq!(c.menu_body(2), MenuBody::Rows);
}

#[test]
fn placeholder_rules() {
    let mut m = TypeaheadController::new(Vec::<String>::new(), config(true));
    assert!(m.placeholder_shown());
    m.selected.push(s("a"));
    assert!(!m.placeholder_shown());
    let single = TypeaheadController::new(vec![s("a")], config(false));
    assert!(single.placeholder_shown());
}

#[test]
fn menu_rows() {
    let mut c = TypeaheadController::new(Vec::<String>::new(), config(false));
    c.query = s("ru");
    let row = c.menu_row("t", "New option: ", 0, &TypeaheadItem::Existing(s("Rust")), 2);
    assert_eq!(row.id, "t-item-0");
    assert_eq!(row.label, "Rust");
    assert_eq!(row.search, "ru");
    assert!(!row.active);
    assert!(!row.is_new);
    let row = c.menu_row("t", "New option: ", 0, &TypeaheadItem::New(s("ru")), 1);
    assert_eq!(row.label, "New option: ru");
    assert_eq!(row.search, "");
    assert!(row.active);
    assert!(row.is_new);
}

#[test]
fn hidden_inputs() {
    let m = TypeaheadController::new(vec![s("a"), s("b")], config(true));
    assert_eq!(m.hidden_input_values(), vec![s("a"), s("b")]);
    let single = TypeaheadController::new(vec![s("a"), s("b")], config(false));
    assert_eq!(single.hidden_input_values(), vec![s("a")]);
    let none = TypeaheadController::new(Vec::<&'static str>::new(), config(false));
    assert_eq!(none.hidden_input_values(), Vec::<String>::new());
}
