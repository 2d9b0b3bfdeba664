use vstd::prelude::*;

use crate::controller::{ControllerView, TypeaheadController, TypeaheadItem};
use crate::option::TypeaheadOption;
use crate::text::string_from_chars;

verus! {

broadcast use vstd::string::group_string_axioms;

/// The decimal digits of `n`, most significant first, without sign or
/// leading zeros (`0` is written `0`).
pub open spec fn decimal(n: nat) -> Seq<char>
    decreases n,
{
    if n < 10 {
        seq![digit_char(n)]
    } else {
        decimal(n / 10).push(digit_char(n % 10))
    }
}

/// The char of a decimal digit.
pub open spec fn digit_char(d: nat) -> char {
    (48 + d) as char
}

/// Writes `n` in decimal.
pub fn decimal_string(n: usize) -> (r: String)
    ensures
        r@ == decimal(n as nat),
{
    let mut digits: Vec<char> = Vec::new();
    let mut rest: usize = n;
    let ghost mut tail: Seq<char> = Seq::empty();
    loop
        invariant_except_break
            decimal(n as nat) == decimal(rest as nat) + tail,
        invariant
            digits@ == tail.reverse(),
        ensures
            decimal(n as nat) == tail,
            digits@ == tail.reverse(),
        decreases rest,
    {
        let d: u8 = (rest % 10) as u8;
        let c = (48u8 + d) as char;
        assert(c == digit_char((rest % 10) as nat));
        digits.push(c);
        if rest < 10 {
            proof {
                assert(decimal(rest as nat) == seq![c]);
                assert(seq![c] + tail == tail.insert(0, c));
                tail = seq![c] + tail;
                assert(tail.reverse() == digits@);
            }
            break;
        }
        proof {
            assert(decimal(rest as nat) == decimal((rest / 10) as nat).push(c));
            assert(decimal((rest / 10) as nat) + (seq![c] + tail) == decimal(rest as nat) + tail);
            let old_tail = tail;
            tail = seq![c] + tail;
            assert(tail.reverse() == old_tail.reverse().push(c));
        }
        rest = rest / 10;
    }
    let mut out: Vec<char> = Vec::new();
    let mut i: usize = digits.len();
    while i > 0
        invariant
            i <= digits@.len(),
            digits@ == tail.reverse(),
            out@ == digits@.subrange(i as int, digits@.len() as int).reverse(),
        decreases i,
    {
        i = i - 1;
        out.push(digits[i]);
        assert(digits@.subrange(i as int, digits@.len() as int).reverse()
            == digits@.subrange(i + 1, digits@.len() as int).reverse().push(digits@[i as int]));
    }
    assert(digits@.subrange(0, digits@.len() as int) == digits@);
    assert(digits@.reverse() == tail);
    string_from_chars(&out)
}


/// `a` followed by `b`.
fn concat(a: &str, b: &str) -> (r: String)
    ensures
        r@ == a@ + b@,
{
    let mut s = String::from_str(a);
    s.append(b);
    s
}

/// Whether two texts are the same.
fn same_text(a: &str, b: &str) -> (r: bool)
    ensures
        r == (a@ == b@),
{
    a.to_string() == b.to_string()
}

/// The id of the listbox of the typeahead with element id `id`.
pub fn listbox_id(id: &str) -> (r: String)
    ensures
        r@ == id@ + "-listbox"@,
{
    concat(id, "-listbox")
}

/// The id of the input of the typeahead with element id `id`.
pub fn input_id(id: &str) -> (r: String)
    ensures
        r@ == id@ + "-input"@,
{
    concat(id, "-input")
}

/// The id of menu row `index` of the typeahead with element id `id`.
pub fn item_id(id: &str, index: usize) -> (r: String)
    ensures
        r@ == id@ + "-item-"@ + decimal(index as nat),
{
    let prefix = concat(id, "-item-");
    let number = decimal_string(index);
    concat(prefix.as_str(), number.as_str())
}

/// The `aria-activedescendant` of the input: the id of the highlighted row,
/// if a row is highlighted.
pub fn active_descendant(id: &str, effective_index: i32) -> (r: Option<String>)
    ensures
        effective_index < 0 ==> r is None,
        effective_index >= 0 ==> (r matches Some(s) && s@ == id@ + "-item-"@ + decimal(effective_index as nat)),
{
    if effective_index >= 0 {
        Some(item_id(id, effective_index as usize))
    } else {
        None
    }
}

/// The class of the root element: `ta-root` and the caller's classes.
pub fn root_class(class: &str) -> (r: String)
    ensures
        r@ == "ta-root "@ + class@,
{
    concat("ta-root ", class)
}

/// The accessible label of a token's remove button.
pub fn remove_label(label: &str) -> (r: String)
    ensures
        r@ == "Remove "@ + label@,
{
    concat("Remove ", label)
}

/// What a key press in the input does.
#[derive(Clone, Copy, Debug, PartialEq, Eq, Structural)]
pub enum KeyAction {
    /// Arrow down: open the menu or move to the next row.
    MoveDown,
    /// Arrow up: move to the previous row.
    MoveUp,
    /// Enter on a highlighted row: choose the row at this index.
    Select(usize),
    /// Escape with the menu shown: close it.
    Close,
    /// Backspace in an empty multiple-mode input: remove this token.
    RemoveToken(usize),
    /// Nothing to do.
    Ignore,
}

impl KeyAction {
    /// Whether the browser's default handling of the key is suppressed.
    pub open spec fn suppresses_default(self) -> bool {
        self is MoveDown || self is MoveUp || self is Select || self is Close
    }

    /// Whether the browser's default handling of the key is suppressed.
    pub fn prevents_default(&self) -> (r: bool)
        ensures
            r == self.suppresses_default(),
    {
        match self {
            KeyAction::MoveDown | KeyAction::MoveUp | KeyAction::Select(_) | KeyAction::Close => true,
            _ => false,
        }
    }
}

/// What the end of the control shows.
#[derive(Clone, Copy, Debug, PartialEq, Eq, Structural)]
pub enum Adornment {
    Spinner,
    ClearButton,
    Nothing,
}

/// What the open menu shows.
#[derive(Clone, Copy, Debug, PartialEq, Eq, Structural)]
pub enum MenuBody {
    Searching,
    NoResults,
    Rows,
}

/// What a menu row shows: its label, the search to highlight in it, and
/// whether it is the new-entry row.
pub struct MenuRow {
    pub id: String,
    pub label: String,
    pub search: String,
    pub active: bool,
    pub is_new: bool,
}

impl<T: TypeaheadOption> TypeaheadController<T> {
    /// The action of `key` for `items_len` menu rows.
    pub open spec fn key_action_for(view: ControllerView<T>, key: Seq<char>, items_len: nat) -> KeyAction {
        let index: i32 = view.effective_active_index(items_len);
        if key == "ArrowDown"@ {
            KeyAction::MoveDown
        } else if key == "ArrowUp"@ {
            KeyAction::MoveUp
        } else if key == "Enter"@ {
            if view.menu_open() && 0 <= index && index < items_len {
                KeyAction::Select(index as usize)
            } else {
                KeyAction::Ignore
            }
        } else if key == "Escape"@ {
            if view.menu_open() {
                KeyAction::Close
            } else {
                KeyAction::Ignore
            }
        } else if key == "Backspace"@ && view.config.multiple && view.query.len() == 0 {
            if view.selected.len() > 0 {
                KeyAction::RemoveToken((view.selected.len() - 1) as usize)
            } else {
                KeyAction::Ignore
            }
        } else {
            KeyAction::Ignore
        }
    }

    /// Decides what a key press in the input does, with `items_len` menu
    /// rows.
    pub fn key_action(&self, key: &str, items_len: usize) -> (r: KeyAction)
        ensures
            r == Self::key_action_for(self@, key@, items_len as nat),
            r is Select ==> key@ == "Enter"@ && self@.menu_open() && r->Select_0 < items_len
                && r->Select_0 == self@.effective_active_index(items_len as nat),
            r is Close ==> key@ == "Escape"@ && self@.menu_open(),
            !self@.menu_open() ==> !(r is Select) && !(r is Close),
    {
        if same_text(key, "ArrowDown") {
            KeyAction::MoveDown
        } else if same_text(key, "ArrowUp") {
            KeyAction::MoveUp
        } else if same_text(key, "Enter") {
            let index: i32 = self.effective_active_index(items_len);
            if self.menu_open() && index >= 0 && (index as usize) < items_len {
                KeyAction::Select(index as usize)
            } else {
                KeyAction::Ignore
            }
        } else if same_text(key, "Escape") {
            if self.menu_open() {
                KeyAction::Close
            } else {
                KeyAction::Ignore
            }
        } else if same_text(key, "Backspace") && self.config.multiple && self.query.as_str().is_empty() {
            let len: usize = self.selected.len();
            if len > 0 {
                KeyAction::RemoveToken(len - 1)
            } else {
                KeyAction::Ignore
            }
        } else {
            KeyAction::Ignore
        }
    }

    /// A click somewhere in the window: closes the shown menu when the click
    /// fell outside the component.
    pub fn handle_outside_click(&mut self, clicked_inside: bool)
        ensures
            final(self)@ == (if old(self)@.menu_open() && !clicked_inside {
                old(self)@.closed()
            } else {
                old(self)@
            }),
    {
        if !self.menu_open() {
            return;
        }
        if !clicked_inside {
            self.close_menu();
        }
    }

    /// What the end of the control shows: a spinner while loading, else the
    /// clear button when it is due, else nothing.
    pub fn adornment(&self) -> (r: Adornment)
        ensures
            r == (if self.config.is_loading {
                Adornment::Spinner
            } else if self@.show_clear() {
                Adornment::ClearButton
            } else {
                Adornment::Nothing
            }),
    {
        if self.config.is_loading {
            Adornment::Spinner
        } else if self.show_clear() {
            Adornment::ClearButton
        } else {
            Adornment::Nothing
        }
    }

    /// What the open menu shows for `items_len` rows: the searching message
    /// while loading, else the no-results message when it is due, else the
    /// rows.
    pub fn menu_body(&self, items_len: usize) -> (r: MenuBody)
        ensures
            r == (if self.config.is_loading {
                MenuBody::Searching
            } else if self@.is_empty(items_len as nat) {
                MenuBody::NoResults
            } else {
                MenuBody::Rows
            }),
    {
        if self.config.is_loading {
            MenuBody::Searching
        } else if self.is_empty(items_len) {
            MenuBody::NoResults
        } else {
            MenuBody::Rows
        }
    }

    /// Whether the input shows its placeholder: always in single mode; in
    /// multiple mode only while nothing is selected.
    pub fn placeholder_shown(&self) -> (r: bool)
        ensures
            r == (!self.config.multiple || self.selected@.len() == 0),
    {
        !self.config.multiple || self.selected.len() == 0
    }

    /// What menu row `index` of `items_len` shows for `item`: an existing
    /// option shows its label with the query highlighted; the new-entry row
    /// shows `new_selection_prefix` and its text, unhighlighted.
    pub fn menu_row(&self, id: &str, new_selection_prefix: &str, index: usize, item: &TypeaheadItem<T>, items_len: usize) -> (r: MenuRow)
        ensures
            r.id@ == id@ + "-item-"@ + decimal(index as nat),
            r.active == (self@.effective_active_index(items_len as nat) == index as i32),
            item matches TypeaheadItem::Existing(o) ==> {
                &&& r.label@ == o.spec_label()
                &&& r.search@ == self.query@
                &&& !r.is_new
            },
            item matches TypeaheadItem::New(text) ==> {
                &&& r.label@ == new_selection_prefix@ + text@
                &&& r.search@ == Seq::<char>::empty()
                &&& r.is_new
            },
    {
        let (label, search, is_new) = match item {
            TypeaheadItem::Existing(option) => (option.label(), self.query.clone(), false),
            TypeaheadItem::New(text) => (concat(new_selection_prefix, text.as_str()), String::new(), true),
        };
        #[verifier::truncate]
        let position: i32 = index as i32;
        let active = self.effective_active_index(items_len) == position;
        MenuRow { id: item_id(id, index), label, search, active, is_new }
    }

    /// The values of the hidden form inputs: every selected option's value
    /// in multiple mode, the first selected option's value in single mode.
    pub fn hidden_input_values(&self) -> (r: Vec<String>)
        ensures
            r@.len() == (if self.config.multiple || self.selected@.len() == 0 {
                self.selected@.len() as int
            } else {
                1int
            }),
            forall|i: int| 0 <= i < r@.len() ==> call_ensures(T::value, (&self.selected@[i],), #[trigger] r@[i]),
    {
        let mut values: Vec<String> = Vec::new();
        let count: usize = if self.config.multiple || self.selected.len() == 0 { self.selected.len() } else { 1 };
        let mut i: usize = 0;
        while i < count
            invariant
                i <= count <= self.selected@.len(),
                count == (if self.config.multiple || self.selected@.len() == 0 {
                    self.selected@.len() as int
                } else {
                    1int
                }),
                values@.len() == i,
                forall|j: int| 0 <= j < i ==> call_ensures(T::value, (&self.selected@[j],), #[trigger] values@[j]),
            decreases count - i,
        {
            let v = self.selected[i].value();
            values.push(v);
            i = i + 1;
        }
        values
    }
}


/// Enter chooses a row only while the menu is shown, and only the
/// highlighted row when it exists; Escape closes only a shown menu; with
/// the menu hidden, Enter and Escape do nothing.
pub proof fn lemma_enter_and_escape_need_shown_menu<T: TypeaheadOption>(
    view: ControllerView<T>,
    key: Seq<char>,
    items_len: nat,
)
    ensures
        TypeaheadController::<T>::key_action_for(view, key, items_len) is Select ==> {
            let index = TypeaheadController::<T>::key_action_for(view, key, items_len)->Select_0;
            &&& key == "Enter"@
            &&& view.menu_open()
            &&& index < items_len
            &&& index == view.effective_active_index(items_len)
        },
        TypeaheadController::<T>::key_action_for(view, key, items_len) is Close ==> key == "Escape"@
            && view.menu_open(),
        !view.menu_open() ==> TypeaheadController::<T>::key_action_for(view, "Enter"@, items_len)
            == KeyAction::Ignore,
        !view.menu_open() ==> TypeaheadController::<T>::key_action_for(view, "Escape"@, items_len)
            == KeyAction::Ignore,
{
    reveal_strlit("Enter");
    reveal_strlit("Escape");
    reveal_strlit("ArrowDown");
    reveal_strlit("ArrowUp");
    reveal_strlit("Backspace");
    assert("Enter"@ != "ArrowDown"@ && "Enter"@ != "ArrowUp"@) by {
        assert("Enter"@.len() != "ArrowDown"@.len());
        assert("Enter"@[0] != "ArrowUp"@[0]);
    }
    assert("Escape"@ != "ArrowDown"@ && "Escape"@ != "ArrowUp"@ && "Escape"@ != "Enter"@) by {
        assert("Escape"@.len() != "ArrowDown"@.len());
        assert("Escape"@[0] != "ArrowUp"@[0]);
        assert("Escape"@.len() != "Enter"@.len());
    }
}

} // verus!
