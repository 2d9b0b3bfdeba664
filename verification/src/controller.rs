use vstd::prelude::*;
use vstd::std_specs::cmp::PartialEqSpec;
use vstd::utf8::encode_utf8;

use crate::option::TypeaheadOption;
use crate::text::{lowercase, to_lowercase, trim, trimmed};
use crate::utils::{
    all_compare_unequal, default_filter_by, default_filter_matches, is_option_selected, selected_contains,
    some_compares_equal,
};

verus! {

broadcast use {vstd::string::group_string_axioms, vstd::std_specs::vec::group_vec_axioms};

/// The length of a text in bytes, as UTF-8 encodes it: what `str::len`
/// gives.
pub open spec fn byte_len(s: Seq<char>) -> usize {
    encode_utf8(s).len() as usize
}

/// One rendered menu row: an existing option, or (when new entries are
/// allowed) the free-text query offered as a new one.
#[derive(Clone, PartialEq)]
pub enum TypeaheadItem<T: TypeaheadOption> {
    Existing(T),
    New(String),
}

/// The settings the controller's rules read. `allow_new` says whether a
/// constructor for free-text entries is configured, `has_on_search` whether
/// a search callback is; the callbacks themselves stay with the caller.
#[derive(Clone, Copy, Debug, PartialEq, Eq, Structural)]
pub struct TypeaheadConfig {
    pub multiple: bool,
    pub min_length: usize,
    pub allow_new: bool,
    pub disabled: bool,
    pub clear_button: bool,
    pub is_loading: bool,
    pub has_on_search: bool,
    pub search_delay_ms: u64,
}

/// A debounced search to run: after `delay_ms`, if the controller still
/// holds `generation` and `value` is long enough, the search callback gets
/// `value`.
#[derive(Clone, Debug)]
pub struct SearchRequest {
    pub generation: u64,
    pub delay_ms: u64,
    pub value: String,
    pub min_length: usize,
}

/// The state of a typeahead as mathematical values.
#[verifier::ext_equal]
pub struct ControllerView<T> {
    pub query: Seq<char>,
    pub show_menu: bool,
    pub active_index: i32,
    pub selected: Seq<T>,
    pub config: TypeaheadConfig,
    pub search_generation: u64,
}

impl<T: TypeaheadOption> ControllerView<T> {
    /// The state a controller starts in.
    pub open spec fn initial(selected: Seq<T>, config: TypeaheadConfig) -> Self {
        ControllerView {
            query: if !config.multiple && selected.len() > 0 {
                selected[0].spec_label()
            } else {
                Seq::empty()
            },
            show_menu: false,
            active_index: -1i32,
            selected,
            config,
            search_generation: 0,
        }
    }

    /// The query is at least `min_length` bytes long.
    pub open spec fn query_long_enough(self) -> bool {
        byte_len(self.query) >= self.config.min_length
    }

    /// The menu is shown: it was opened, the control is enabled and the
    /// query is long enough.
    pub open spec fn menu_open(self) -> bool {
        self.show_menu && !self.config.disabled && self.query_long_enough()
    }

    /// The "no results" message is due: not loading, the query is long
    /// enough, and there is no row.
    pub open spec fn is_empty(self, items_len: nat) -> bool {
        !self.config.is_loading && self.query_long_enough() && items_len == 0
    }

    /// The clear button is shown: it is configured, the control is enabled,
    /// and there is a selection (or, in single mode, a query) to clear.
    pub open spec fn show_clear(self) -> bool {
        &&& self.config.clear_button
        &&& !self.config.disabled
        &&& (self.selected.len() > 0 || (!self.config.multiple && self.query.len() > 0))
    }

    /// The row that is highlighted: the active one, or the only row when
    /// none is active and there is exactly one.
    pub open spec fn effective_active_index(self, items_len: nat) -> i32 {
        if self.active_index == -1 && items_len == 1 {
            0
        } else {
            self.active_index
        }
    }

    /// The menu is requested open.
    pub open spec fn opened(self) -> Self {
        ControllerView { show_menu: true, ..self }
    }

    /// The menu is closed and no row is active.
    pub open spec fn closed(self) -> Self {
        ControllerView { show_menu: false, active_index: -1i32, ..self }
    }

    /// Arrow down: opens a closed menu; else moves to the next row, staying
    /// on the last one.
    pub open spec fn moved_down(self, items_len: usize) -> Self {
        if !self.show_menu {
            self.opened()
        } else {
            let last: int = (items_len as i32) - 1;
            let next: int = self.active_index + 1;
            ControllerView { active_index: (if next < last { next } else { last }) as i32, ..self }
        }
    }

    /// Arrow up: moves to the previous row, down to none (`-1`).
    pub open spec fn moved_up(self) -> Self {
        let prev: int = self.active_index - 1;
        ControllerView { active_index: (if prev > -1 { prev } else { -1 }) as i32, ..self }
    }

    /// Typing `value`: it becomes the query, no row is active, the menu is
    /// open, and a search generation is started when searches are
    /// delegated.
    pub open spec fn typed(self, value: Seq<char>) -> Self {
        ControllerView {
            query: value,
            active_index: -1i32,
            show_menu: true,
            search_generation: if self.config.has_on_search {
                (self.search_generation + 1) as u64
            } else {
                self.search_generation
            },
            ..self
        }
    }

    /// A search started for `generation` is still due, and `value` is long
    /// enough for it.
    pub open spec fn search_due(self, generation: u64, value: Seq<char>, min_length: usize) -> bool {
        self.search_generation == generation && byte_len(value) >= min_length
    }

    /// After choosing `chosen`: appended with the query cleared (multiple
    /// mode), or the only selection with its label as the query (single
    /// mode); the menu is closed.
    pub open spec fn with_selection(self, chosen: T) -> Self {
        if self.config.multiple {
            ControllerView { selected: self.selected.push(chosen), query: Seq::empty(), ..self }.closed()
        } else {
            ControllerView { selected: seq![chosen], query: chosen.spec_label(), ..self }.closed()
        }
    }

    /// After removing the token at `index` (nothing happens out of range).
    pub open spec fn without_token(self, index: int) -> Self {
        if 0 <= index < self.selected.len() {
            ControllerView { selected: self.selected.remove(index), ..self }
        } else {
            self
        }
    }

    /// After clearing: no selection, empty query, menu closed.
    pub open spec fn cleared(self) -> Self {
        ControllerView { selected: Seq::empty(), query: Seq::empty(), ..self }.closed()
    }

    /// In single mode with the menu closed, the query follows the first
    /// selected option's label (or is empty).
    pub open spec fn synced(self) -> Self {
        if !self.config.multiple && !self.show_menu {
            ControllerView {
                query: if self.selected.len() > 0 {
                    self.selected[0].spec_label()
                } else {
                    Seq::empty()
                },
                ..self
            }
        } else {
            self
        }
    }
}

/// The options whose flag is set, in order.
pub open spec fn picked<T>(options: Seq<T>, keep: Seq<bool>) -> Seq<T>
    decreases options.len(),
{
    if options.len() == 0 {
        Seq::empty()
    } else {
        let rest = picked(options.drop_last(), keep.drop_last());
        if keep.last() {
            rest.push(options.last())
        } else {
            rest
        }
    }
}

/// Match flags narrowed to the options that are not selected.
pub open spec fn unselected_matches<T: PartialEq>(options: Seq<T>, matches: Seq<bool>, selected: Seq<T>) -> Seq<bool> {
    Seq::new(options.len(), |i: int| matches[i] && !selected_contains(&options[i], selected))
}

/// The default filter's verdict on each option for `query`.
pub open spec fn default_matches<T: TypeaheadOption>(options: Seq<T>, query: Seq<char>) -> Seq<bool> {
    Seq::new(options.len(), |i: int| default_filter_matches(options[i].spec_label(), query))
}

/// The filter's verdicts, or every option kept when filtering is
/// delegated to a search callback (the options are then taken as given).
pub open spec fn effective_matches(matches: Seq<bool>, delegated: bool) -> Seq<bool> {
    if delegated {
        Seq::new(matches.len(), |i: int| true)
    } else {
        matches
    }
}

/// `keep` is a possible outcome of dropping, from the options whose verdict
/// is `true`, those that a selected option compared equal to: a kept option
/// had a `true` verdict and every selected option compared unequal to it; a
/// dropped option with a `true` verdict had some selected option compare
/// equal to it.
pub open spec fn unselected_outcome<T: PartialEq>(options: Seq<T>, verdicts: Seq<bool>, selected: Seq<T>, keep: Seq<bool>) -> bool {
    &&& keep.len() == options.len()
    &&& forall|i: int|
        0 <= i < options.len() ==> {
            &&& (#[trigger] keep[i] ==> verdicts[i] && all_compare_unequal(&options[i], selected))
            &&& (verdicts[i] && !keep[i] ==> some_compares_equal(&options[i], selected))
        }
}

/// Some option's lowercased label equals `text_lower`.
pub open spec fn some_label_lowercases_to<T: TypeaheadOption>(options: Seq<T>, text_lower: Seq<char>) -> bool {
    exists|i: int| 0 <= i < options.len() && lowercase(options[i].spec_label()) == text_lower
}

/// Holds all typeahead state and the rules that change it. The component
/// wires its markup to this state and calls these methods on user
/// interaction; it never changes the state directly.
pub struct TypeaheadController<T: TypeaheadOption> {
    pub query: String,
    pub show_menu: bool,
    pub active_index: i32,
    pub selected: Vec<T>,
    pub config: TypeaheadConfig,
    pub search_generation: u64,
}

impl<T: TypeaheadOption> View for TypeaheadController<T> {
    type V = ControllerView<T>;

    open spec fn view(&self) -> ControllerView<T> {
        ControllerView {
            query: self.query@,
            show_menu: self.show_menu,
            active_index: self.active_index,
            selected: self.selected@,
            config: self.config,
            search_generation: self.search_generation,
        }
    }
}

/// Whether the lowercased label of some option equals `text_lower`.
fn any_label_lowercases_to<T: TypeaheadOption>(options: &Vec<T>, text_lower: &String) -> (r: bool)
    ensures
        r == some_label_lowercases_to(options@, text_lower@),
{
    let mut i: usize = 0;
    while i < options.len()
        invariant
            i <= options.len(),
            forall|j: int| 0 <= j < i ==> lowercase(options@[j].spec_label()) != text_lower@,
        decreases options.len() - i,
    {
        let label = options[i].label();
        let lowered = to_lowercase(label.as_str());
        if lowered == *text_lower {
            return true;
        }
        i = i + 1;
    }
    false
}

impl<T: TypeaheadOption> TypeaheadController<T> {
    /// A controller for the given selection; in single mode the query starts
    /// as the label of the first selected option.
    pub fn new(selected: Vec<T>, config: TypeaheadConfig) -> (r: Self)
        ensures
            r@ == ControllerView::initial(selected@, config),
    {
        let mut query = String::new();
        if !config.multiple && selected.len() > 0 {
            query = selected[0].label();
        }
        TypeaheadController {
            query,
            show_menu: false,
            active_index: -1i32,
            selected,
            config,
            search_generation: 0,
        }
    }

    /// Whether the options need the filter's verdicts: the query is long
    /// enough and filtering is not delegated to a search callback.
    pub fn needs_verdicts(&self) -> (r: bool)
        ensures
            r == (self@.query_long_enough() && !self.config.has_on_search),
    {
        self.query.as_str().len() >= self.config.min_length && !self.config.has_on_search
    }

    /// The options to show for the current query, given each option's
    /// verdict from the filter: none while the query is shorter than
    /// `min_length`; else the matching options in order (every option, as
    /// given, when filtering is delegated to a search callback), without
    /// those already selected in multiple mode. An option counts as selected
    /// when some selected option compared equal to it with `==`.
    pub fn filtered_options_matching(&self, options: Vec<T>, matches: &Vec<bool>) -> (r: Vec<T>)
        requires
            matches@.len() == options@.len(),
        ensures
            !self@.query_long_enough() ==> r@ == Seq::<T>::empty(),
            self@.query_long_enough() && !self.config.multiple ==> r@ == picked(
                options@,
                effective_matches(matches@, self.config.has_on_search),
            ),
            self@.query_long_enough() && self.config.multiple ==> exists|keep: Seq<bool>|
                {
                    &&& unselected_outcome(
                        options@,
                        effective_matches(matches@, self.config.has_on_search),
                        self.selected@,
                        keep,
                    )
                    &&& r@ == picked(options@, keep)
                },
            self@.query_long_enough() && self.config.multiple && T::obeys_eq_spec() ==> r@
                == picked(
                options@,
                unselected_matches(options@, effective_matches(matches@, self.config.has_on_search), self.selected@),
            ),
    {
        let mut list: Vec<T> = Vec::new();
        if self.query.as_str().len() < self.config.min_length {
            return list;
        }
        let ghost opts = options@;
        assert(opts.len() == options.len());
        let ghost verdicts = effective_matches(matches@, self.config.has_on_search);
        let ghost mut kept: Seq<bool> = Seq::empty();
        let multiple = self.config.multiple;
        let delegated = self.config.has_on_search;
        let mut i: usize = 0;
        for option in it: options.into_iter()
            invariant
                it.seq() == opts,
                i == it.index(),
                i <= opts.len(),
                opts.len() <= usize::MAX,
                matches@.len() == opts.len(),
                verdicts == effective_matches(matches@, self.config.has_on_search),
                multiple == self.config.multiple,
                delegated == self.config.has_on_search,
                kept.len() == i,
                list@ == picked(opts.take(i as int), kept),
                !multiple ==> kept == verdicts.take(i as int),
                multiple ==> unselected_outcome(opts.take(i as int), verdicts.take(i as int), self.selected@, kept),
                multiple && T::obeys_eq_spec() ==> kept == unselected_matches(opts, verdicts, self.selected@).take(i as int),
        {
            proof {
                assert(opts.take(i + 1).drop_last() == opts.take(i as int));
            }
            let mut wanted = delegated || matches[i];
            assert(wanted == verdicts[i as int]);
            if wanted && multiple {
                wanted = !is_option_selected(&option, self.selected.as_slice());
            }
            proof {
                let next = kept.push(wanted);
                assert(next.drop_last() == kept);
                assert(verdicts.take(i + 1) == verdicts.take(i as int).push(verdicts[i as int]));
                assert(unselected_matches(opts, verdicts, self.selected@).take(i + 1)
                    == unselected_matches(opts, verdicts, self.selected@).take(i as int).push(
                    unselected_matches(opts, verdicts, self.selected@)[i as int],
                ));
                if multiple {
                    assert forall|j: int| 0 <= j < i + 1 implies {
                        &&& (#[trigger] next[j] ==> verdicts.take(i + 1)[j] && all_compare_unequal(
                            &opts.take(i + 1)[j],
                            self.selected@,
                        ))
                        &&& (verdicts.take(i + 1)[j] && !next[j] ==> some_compares_equal(
                            &opts.take(i + 1)[j],
                            self.selected@,
                        ))
                    } by {
                        if j < i {
                            assert(next[j] == kept[j]);
                            assert(opts.take(i + 1)[j] == opts.take(i as int)[j]);
                            assert(verdicts.take(i + 1)[j] == verdicts.take(i as int)[j]);
                        }
                    }
                }
                kept = next;
            }
            if wanted {
                list.push(option);
            }
            i = i + 1;
        }
        proof {
            assert(opts.take(opts.len() as int) == opts);
            assert(verdicts.take(verdicts.len() as int) == verdicts);
            assert(unselected_matches(opts, verdicts, self.selected@).take(opts.len() as int)
                == unselected_matches(opts, verdicts, self.selected@));
        }
        list
    }

    /// The options to show for the current query under the default filter
    /// (case- and diacritic-insensitive substring match of the query in the
    /// label), or every option as given when filtering is delegated to a
    /// search callback; see `filtered_options_matching`.
    pub fn filtered_options(&self, options: Vec<T>) -> (r: Vec<T>)
        ensures
            !self@.query_long_enough() ==> r@ == Seq::<T>::empty(),
            self@.query_long_enough() && !self.config.multiple ==> r@ == picked(
                options@,
                effective_matches(default_matches(options@, self@.query), self.config.has_on_search),
            ),
            self@.query_long_enough() && self.config.multiple ==> exists|keep: Seq<bool>|
                {
                    &&& unselected_outcome(
                        options@,
                        effective_matches(default_matches(options@, self@.query), self.config.has_on_search),
                        self.selected@,
                        keep,
                    )
                    &&& r@ == picked(options@, keep)
                },
            self@.query_long_enough() && self.config.multiple && T::obeys_eq_spec() ==> r@
                == picked(
                options@,
                unselected_matches(
                    options@,
                    effective_matches(default_matches(options@, self@.query), self.config.has_on_search),
                    self.selected@,
                ),
            ),
    {
        let ghost defaults = default_matches(options@, self@.query);
        let delegated = self.config.has_on_search;
        let mut matches: Vec<bool> = Vec::new();
        let mut i: usize = 0;
        while i < options.len()
            invariant
                i <= options.len(),
                delegated == self.config.has_on_search,
                defaults == default_matches(options@, self@.query),
                matches@.len() == i,
                forall|j: int| 0 <= j < i ==> #[trigger] matches@[j] == (delegated || defaults[j]),
            decreases options.len() - i,
        {
            let m = if delegated {
                true
            } else {
                default_filter_by(&options[i], self.query.as_str())
            };
            matches.push(m);
            i = i + 1;
        }
        assert(effective_matches(matches@, delegated) == effective_matches(defaults, delegated));
        self.filtered_options_matching(options, &matches)
    }

    /// Whether the query offers itself as a new entry next to `filtered`:
    /// new entries are allowed, the trimmed query is not empty, and neither
    /// a shown option nor a selected one has a label equal to it ignoring
    /// case.
    pub open spec fn offers_new(view: ControllerView<T>, filtered: Seq<T>) -> bool {
        let text = trimmed(view.query);
        &&& view.config.allow_new
        &&& text.len() > 0
        &&& !some_label_lowercases_to(filtered, lowercase(text))
        &&& !some_label_lowercases_to(view.selected, lowercase(text))
    }

    /// The menu rows: each shown option in order, then the trimmed query
    /// as a new entry when it is offered.
    pub fn items(&self, filtered: Vec<T>) -> (r: Vec<TypeaheadItem<T>>)
        ensures
            r@.len() == filtered@.len() + (if Self::offers_new(self@, filtered@) { 1int } else { 0int }),
            forall|i: int| 0 <= i < filtered@.len() ==> r@[i] == TypeaheadItem::Existing(filtered@[i]),
            Self::offers_new(self@, filtered@) ==> (r@.last() matches TypeaheadItem::New(text) && text@
                == trimmed(self@.query)),
            (exists|i: int|
                0 <= i < filtered@.len() && lowercase(#[trigger] filtered@[i].spec_label()) == lowercase(
                    trimmed(self@.query),
                )) ==> r@.len() == filtered@.len(),
            (exists|i: int|
                0 <= i < self@.selected.len() && lowercase(#[trigger] self@.selected[i].spec_label())
                    == lowercase(trimmed(self@.query))) ==> r@.len() == filtered@.len(),
    {
        let trimmed_query = trim(self.query.as_str());
        let trimmed_lower = to_lowercase(trimmed_query.as_str());
        let has_exact_match = any_label_lowercases_to(&filtered, &trimmed_lower);
        let query_matches_selected = any_label_lowercases_to(&self.selected, &trimmed_lower);
        let show_new = self.config.allow_new && !trimmed_query.as_str().is_empty() && !has_exact_match
            && !query_matches_selected;
        let ghost opts = filtered@;
        assert(opts.len() == filtered.len());
        let mut list: Vec<TypeaheadItem<T>> = Vec::new();
        for option in it: filtered.into_iter()
            invariant
                it.seq() == opts,
                opts.len() <= usize::MAX,
                list@.len() == it.index(),
                forall|i: int| 0 <= i < it.index() ==> list@[i] == TypeaheadItem::Existing(opts[i]),
        {
            list.push(TypeaheadItem::Existing(option));
        }
        if show_new {
            list.push(TypeaheadItem::New(trimmed_query));
        }
        list
    }

    /// The highlighted row for `items_len` rows: the active one, or the
    /// only row when none is active.
    pub fn effective_active_index(&self, items_len: usize) -> (r: i32)
        ensures
            r == self@.effective_active_index(items_len as nat),
    {
        if self.active_index == -1 && items_len == 1 {
            0
        } else {
            self.active_index
        }
    }

    /// Whether the "no results" message is due for `items_len` rows.
    pub fn is_empty(&self, items_len: usize) -> (r: bool)
        ensures
            r == self@.is_empty(items_len as nat),
    {
        !self.config.is_loading && self.query.as_str().len() >= self.config.min_length && items_len == 0
    }

    /// Whether the query is at least `min_length` bytes long, below which
    /// no option is shown.
    pub fn query_long_enough(&self) -> (r: bool)
        ensures
            r == self@.query_long_enough(),
    {
        self.query.as_str().len() >= self.config.min_length
    }

    /// Whether the menu is shown.
    pub fn menu_open(&self) -> (r: bool)
        ensures
            r == self@.menu_open(),
    {
        self.show_menu && !self.config.disabled && self.query.as_str().len() >= self.config.min_length
    }

    /// Whether the clear button is shown.
    pub fn show_clear(&self) -> (r: bool)
        ensures
            r == self@.show_clear(),
    {
        if !self.config.clear_button || self.config.disabled {
            return false;
        }
        if self.config.multiple {
            self.selected.len() > 0
        } else {
            self.selected.len() > 0 || !self.query.as_str().is_empty()
        }
    }

    /// While the query is not being edited (menu closed) and selection is
    /// single, keeps the query following the selection: the first selected
    /// option's label, or empty.
    pub fn sync_query_with_selection(&mut self)
        ensures
            final(self)@ == old(self)@.synced(),
    {
        if !self.config.multiple && !self.show_menu {
            if self.selected.len() > 0 {
                self.query = self.selected[0].label();
            } else {
                self.query = String::new();
            }
        }
    }

    /// Requests the menu open (it shows while the query is long enough and
    /// the control enabled).
    pub fn open_menu(&mut self)
        ensures
            final(self)@ == old(self)@.opened(),
    {
        self.show_menu = true;
    }

    /// Closes the menu and forgets the active row.
    pub fn close_menu(&mut self)
        ensures
            final(self)@ == old(self)@.closed(),
    {
        self.show_menu = false;
        self.active_index = -1;
    }

    /// Arrow down with `items_len` rows: opens a closed menu; else moves to
    /// the next row, staying on the last one.
    pub fn move_active_down(&mut self, items_len: usize)
        requires
            old(self).show_menu ==> old(self).active_index < i32::MAX,
            old(self).show_menu ==> (items_len as i32) > i32::MIN,
        ensures
            final(self)@ == old(self)@.moved_down(items_len),
    {
        if !self.show_menu {
            self.open_menu();
            return;
        }
        #[verifier::truncate]
        let count: i32 = items_len as i32;
        let last_index: i32 = count - 1;
        let next: i32 = self.active_index + 1;
        self.active_index = if next < last_index { next } else { last_index };
    }

    /// Arrow up: moves to the previous row, down to none (`-1`).
    pub fn move_active_up(&mut self)
        requires
            old(self).active_index > i32::MIN,
        ensures
            final(self)@ == old(self)@.moved_up(),
    {
        let prev: i32 = self.active_index - 1;
        self.active_index = if prev > -1 { prev } else { -1 };
    }

    /// Typing `value` into the input. When searches are delegated, starts a
    /// new search generation and returns the search to run once the delay
    /// has passed.
    pub fn handle_input(&mut self, value: String) -> (r: Option<SearchRequest>)
        requires
            old(self).config.has_on_search ==> old(self).search_generation < u64::MAX,
        ensures
            final(self)@ == old(self)@.typed(value@),
            final(self).query@ == value@,
            final(self).active_index == -1,
            final(self).show_menu,
            final(self).selected@ == old(self).selected@,
            final(self).config == old(self).config,
            r is Some <==> old(self).config.has_on_search,
            r matches Some(req) ==> {
                &&& req.generation == final(self).search_generation
                &&& req.delay_ms == old(self).config.search_delay_ms
                &&& req.value@ == value@
                &&& req.min_length == old(self).config.min_length
            },
    {
        self.query = value.clone();
        self.active_index = -1;
        self.show_menu = true;
        if !self.config.has_on_search {
            return None;
        }
        let generation: u64 = self.search_generation + 1;
        self.search_generation = generation;
        Some(SearchRequest {
            generation,
            delay_ms: self.config.search_delay_ms,
            value,
            min_length: self.config.min_length,
        })
    }

    /// Whether a delayed search is still due: no later input has started
    /// another generation, and its value is at least `min_length` bytes.
    pub fn should_run_search(&self, request: &SearchRequest) -> (r: bool)
        ensures
            r == self@.search_due(request.generation, request.value@, request.min_length),
    {
        self.search_generation == request.generation && request.value.as_str().len() >= request.min_length
    }

    /// Applies the choice of a menu row to the selection. A new entry is
    /// built from its text by `make_new`, the configured constructor; when
    /// new entries are not allowed, choosing one changes nothing.
    pub fn select_item<F: FnOnce(String) -> T>(&mut self, item: TypeaheadItem<T>, make_new: F)
        requires
            old(self).config.allow_new ==> (item matches TypeaheadItem::New(text) ==> make_new.requires((text,))),
        ensures
            (item is New && !old(self).config.allow_new) ==> final(self)@ == old(self)@,
            !(item is New && !old(self).config.allow_new) ==> {
                &&& final(self)@.selected.len() > 0
                &&& final(self)@ == old(self)@.with_selection(final(self)@.selected.last())
                &&& (item matches TypeaheadItem::Existing(o) ==> final(self)@.selected.last() == o)
                &&& (item matches TypeaheadItem::New(text) ==> make_new.ensures(
                    (text,),
                    final(self)@.selected.last(),
                ))
            },
    {
        let option = match item {
            TypeaheadItem::Existing(option) => option,
            TypeaheadItem::New(text) => {
                if !self.config.allow_new {
                    return;
                }
                make_new(text)
            },
        };
        let ghost chosen = option;
        let label = option.label();
        if self.config.multiple {
            self.selected.push(option);
            self.query = String::new();
        } else {
            let mut only: Vec<T> = Vec::new();
            only.push(option);
            self.selected = only;
            self.query = label;
        }
        self.close_menu();
        assert(final(self)@.selected.last() == chosen);
    }

    /// Removes the token at `index`; an index out of range changes nothing.
    pub fn remove_token(&mut self, index: usize)
        ensures
            final(self)@ == old(self)@.without_token(index as int),
    {
        if index < self.selected.len() {
            self.selected.remove(index);
        }
    }

    /// Clears the selection and the query, and closes the menu.
    pub fn clear(&mut self)
        ensures
            final(self)@ == old(self)@.cleared(),
    {
        self.selected.clear();
        self.query = String::new();
        self.close_menu();
    }
}


/// The state after typing each of `values` in turn.
pub open spec fn typed_all<T: TypeaheadOption>(start: ControllerView<T>, values: Seq<Seq<char>>) -> ControllerView<T>
    decreases values.len(),
{
    if values.len() == 0 {
        start
    } else {
        typed_all(start, values.drop_last()).typed(values.last())
    }
}

/// With searches delegated, each input starts the next generation and
/// leaves the settings alone.
proof fn lemma_typed_all_generation<T: TypeaheadOption>(start: ControllerView<T>, values: Seq<Seq<char>>)
    requires
        start.config.has_on_search,
        start.search_generation + values.len() <= u64::MAX,
    ensures
        typed_all(start, values).search_generation == start.search_generation + values.len(),
        typed_all(start, values).config == start.config,
    decreases values.len(),
{
    if values.len() > 0 {
        lemma_typed_all_generation(start, values.drop_last());
    }
}

/// Debounced searching: after a burst of inputs, only the search started by
/// the last one is still due when its delay has passed, and it is due
/// exactly when its value is at least `min_length` bytes long. The search
/// started by input `k` carries the generation reached after typing the
/// first `k + 1` values.
pub proof fn lemma_only_last_search_is_due<T: TypeaheadOption>(start: ControllerView<T>, values: Seq<Seq<char>>)
    requires
        start.config.has_on_search,
        values.len() > 0,
        start.search_generation + values.len() <= u64::MAX,
    ensures
        forall|k: int|
            0 <= k < values.len() - 1 ==> !typed_all(start, values).search_due(
                #[trigger] typed_all(start, values.take(k + 1)).search_generation,
                values[k],
                start.config.min_length,
            ),
        typed_all(start, values).search_due(
            typed_all(start, values).search_generation,
            values.last(),
            start.config.min_length,
        ) <==> byte_len(values.last()) >= start.config.min_length,
{
    lemma_typed_all_generation(start, values);
    assert forall|k: int| 0 <= k < values.len() - 1 implies !typed_all(start, values).search_due(
        #[trigger] typed_all(start, values.take(k + 1)).search_generation,
        values[k],
        start.config.min_length,
    ) by {
        lemma_typed_all_generation(start, values.take(k + 1));
    }
}

/// Typing keeps the text exactly as typed: the query becomes the typed
/// value, no row is active, the menu is requested open, the selection and
/// settings stay, and a search generation starts only when searches are
/// delegated.
pub proof fn lemma_typing_keeps_text<T: TypeaheadOption>(view: ControllerView<T>, value: Seq<char>)
    ensures
        view.typed(value).query == value,
        view.typed(value).active_index == -1,
        view.typed(value).show_menu,
        view.typed(value).selected == view.selected,
        view.typed(value).config == view.config,
        view.config.has_on_search ==> view.typed(value).search_generation == view.search_generation + 1
            || view.search_generation == u64::MAX,
        !view.config.has_on_search ==> view.typed(value).search_generation == view.search_generation,
{
}

/// The new-entry row is offered exactly when new entries are allowed, the
/// trimmed query is not empty, and no shown option and no selected option,
/// at any position, has a label whose lowercase equals the lowercased
/// trimmed query.
pub proof fn lemma_new_row_offered_exactly<T: TypeaheadOption>(view: ControllerView<T>, filtered: Seq<T>)
    ensures
        TypeaheadController::<T>::offers_new(view, filtered) <==> {
            &&& view.config.allow_new
            &&& trimmed(view.query).len() > 0
            &&& forall|i: int|
                0 <= i < filtered.len() ==> lowercase(#[trigger] filtered[i].spec_label()) != lowercase(
                    trimmed(view.query),
                )
            &&& forall|i: int|
                0 <= i < view.selected.len() ==> lowercase(#[trigger] view.selected[i].spec_label())
                    != lowercase(trimmed(view.query))
        },
{
}

/// The derived values of any state: a sole row is highlighted by default;
/// the "no results" message shows when not loading, with a long enough
/// query and no row; the menu shows when opened, enabled and with a long
/// enough query; the clear button shows when configured, enabled and with
/// a selection (or, in single mode, a query).
pub proof fn lemma_derived_values<T: TypeaheadOption>(view: ControllerView<T>, items_len: nat)
    ensures
        view.effective_active_index(items_len) == (if view.active_index == -1 && items_len == 1 {
            0
        } else {
            view.active_index
        }),
        view.is_empty(items_len) == (!view.config.is_loading && byte_len(view.query) >= view.config.min_length
            && items_len == 0),
        view.menu_open() == (view.show_menu && !view.config.disabled && byte_len(view.query)
            >= view.config.min_length),
        view.show_clear() == (view.config.clear_button && !view.config.disabled && (view.selected.len() > 0
            || (!view.config.multiple && view.query.len() > 0))),
{
}

/// Arrow keys keep the active row within the rows: starting from no row
/// (`-1`) or an existing row, moving up or down leads to no row or an
/// existing row, and so does the highlighted row.
pub proof fn lemma_arrows_stay_within_rows<T: TypeaheadOption>(view: ControllerView<T>, items_len: usize)
    requires
        items_len <= i32::MAX,
        -1 <= view.active_index < items_len,
    ensures
        -1 <= view.moved_down(items_len).active_index < items_len,
        -1 <= view.moved_up().active_index < items_len,
        -1 <= view.effective_active_index(items_len as nat) < items_len,
{
    assert((items_len as i32) == items_len);
}

/// Closing, choosing an option and clearing all leave the menu hidden with
/// no active row.
pub proof fn lemma_menu_closed_after_choice<T: TypeaheadOption>(view: ControllerView<T>, chosen: T)
    ensures
        !view.closed().menu_open() && view.closed().active_index == -1,
        !view.with_selection(chosen).menu_open() && view.with_selection(chosen).active_index == -1,
        !view.cleared().menu_open() && view.cleared().active_index == -1,
{
}

/// After clearing, nothing is selected, the query is empty, and the clear
/// button is not shown.
pub proof fn lemma_clear_empties<T: TypeaheadOption>(view: ControllerView<T>)
    ensures
        view.cleared().selected.len() == 0,
        view.cleared().query.len() == 0,
        !view.cleared().show_clear(),
{
}

/// In single mode, choosing an option makes it the whole selection with its
/// label as the query, and keeping the query in step with the selection
/// afterwards changes nothing.
pub proof fn lemma_single_choice_is_in_step<T: TypeaheadOption>(view: ControllerView<T>, chosen: T)
    requires
        !view.config.multiple,
    ensures
        view.with_selection(chosen).selected == seq![chosen],
        view.with_selection(chosen).query == chosen.spec_label(),
        view.with_selection(chosen).synced() == view.with_selection(chosen),
{
}

/// In multiple mode, choosing an option appends it to the selection and
/// empties the query.
pub proof fn lemma_multiple_choice_appends<T: TypeaheadOption>(view: ControllerView<T>, chosen: T)
    requires
        view.config.multiple,
    ensures
        view.with_selection(chosen).selected == view.selected.push(chosen),
        view.with_selection(chosen).query.len() == 0,
{
}

/// Removing a token: an index out of range changes nothing; an index in
/// range removes exactly that token and keeps the others in order.
pub proof fn lemma_remove_token<T: TypeaheadOption>(view: ControllerView<T>, index: int)
    ensures
        !(0 <= index < view.selected.len()) ==> view.without_token(index) == view,
        0 <= index < view.selected.len() ==> {
            &&& view.without_token(index).selected.len() == view.selected.len() - 1
            &&& forall|k: int| 0 <= k < index ==> view.without_token(index).selected[k] == view.selected[k]
            &&& forall|k: int|
                index <= k < view.selected.len() - 1 ==> view.without_token(index).selected[k]
                    == view.selected[k + 1]
        },
{
}

/// The "no results" message and menu rows never show together.
pub proof fn lemma_no_results_means_no_rows<T: TypeaheadOption>(view: ControllerView<T>, items_len: nat)
    ensures
        view.is_empty(items_len) ==> items_len == 0,
{
}

/// Each option kept by `picked` is one whose flag is set.
pub proof fn lemma_picked_from_flags<T>(options: Seq<T>, keep: Seq<bool>, k: int)
    requires
        keep.len() == options.len(),
        0 <= k < picked(options, keep).len(),
    ensures
        exists|i: int| 0 <= i < options.len() && keep[i] && options[i] == picked(options, keep)[k],
    decreases options.len(),
{
    let rest = picked(options.drop_last(), keep.drop_last());
    if keep.last() && k == rest.len() {
        assert(options[options.len() - 1] == picked(options, keep)[k]);
    } else {
        lemma_picked_from_flags(options.drop_last(), keep.drop_last(), k);
        let i: int = choose|i: int|
            0 <= i < options.drop_last().len() && keep.drop_last()[i] && options.drop_last()[i] == rest[k];
        assert(options[i] == picked(options, keep)[k]);
    }
}

/// In multiple mode, the menu never offers an option that is already
/// selected: every option shown had a `true` verdict and every selected
/// option compared unequal to it.
pub proof fn lemma_shown_options_unselected<T: TypeaheadOption>(
    options: Seq<T>,
    verdicts: Seq<bool>,
    selected: Seq<T>,
    keep: Seq<bool>,
    k: int,
)
    requires
        unselected_outcome(options, verdicts, selected, keep),
        0 <= k < picked(options, keep).len(),
    ensures
        exists|i: int|
            0 <= i < options.len() && verdicts[i] && all_compare_unequal(&options[i], selected) && options[i]
                == picked(options, keep)[k],
{
    lemma_picked_from_flags(options, keep, k);
    let i: int = choose|i: int| 0 <= i < options.len() && keep[i] && options[i] == picked(options, keep)[k];
    assert(keep[i]);
}

/// Keeping every option keeps them all, in order.
proof fn lemma_picked_all<T>(options: Seq<T>, keep: Seq<bool>)
    requires
        keep.len() == options.len(),
        forall|i: int| 0 <= i < keep.len() ==> keep[i],
    ensures
        picked(options, keep) == options,
    decreases options.len(),
{
    if options.len() > 0 {
        lemma_picked_all(options.drop_last(), keep.drop_last());
        assert(options.drop_last().push(options.last()) == options);
    }
}

/// With filtering delegated to a search callback, the options are shown as
/// given: every option, in order (in single mode; in multiple mode, minus
/// those a selected option compares equal to).
pub proof fn lemma_delegated_options_as_given<T>(options: Seq<T>, matches: Seq<bool>)
    requires
        matches.len() == options.len(),
    ensures
        picked(options, effective_matches(matches, true)) == options,
{
    lemma_picked_all(options, effective_matches(matches, true));
}

} // verus!
