//! A themeable, accessible typeahead/autocomplete component: the option
//! model, the text matching and highlighting rules, the theme, the state
//! machine that drives the component, and the decisions its markup makes.

pub mod component;
pub mod controller;
pub mod option;
pub mod text;
pub mod theme;
pub mod utils;

pub use component::{
    active_descendant, decimal_string, input_id, item_id, listbox_id, remove_label, root_class,
    Adornment, KeyAction, MenuBody, MenuRow,
};
pub use controller::{
    ControllerView, SearchRequest, TypeaheadConfig, TypeaheadController, TypeaheadItem,
};
pub use option::TypeaheadOption;
pub use text::{normalize, text_contains, trim};
pub use theme::TypeaheadTheme;
pub use utils::{
    default_filter_by, highlight_lowered, highlight_segments, is_option_selected,
    MatchSegment,
};
