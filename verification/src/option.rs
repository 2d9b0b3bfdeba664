use vstd::prelude::*;

verus! {

broadcast use vstd::string::group_string_axioms;

/// Anything that can be offered and selected by a typeahead.
///
/// `spec_label` is the text that `label` returns: the text shown in the
/// input, the menu, and matched against the query.
pub trait TypeaheadOption: Clone + PartialEq + Send + Sync + 'static {
    /// The text that `label` gives back for this option.
    spec fn spec_label(&self) -> Seq<char>;

    /// Text shown in the input, the menu, and matched against the query.
    fn label(&self) -> (r: String)
        ensures
            r@ == self.spec_label(),
    ;

    /// Value used for the hidden `<input>` emitted when a form name is set,
    /// and as the list key. Defaults to the label.
    fn value(&self) -> (r: String)
        default_ensures
            r@ == self.spec_label(),
    {
        self.label()
    }
}

impl TypeaheadOption for String {
    open spec fn spec_label(&self) -> Seq<char> {
        self@
    }

    fn label(&self) -> (r: String) {
        self.clone()
    }
}

impl TypeaheadOption for &'static str {
    open spec fn spec_label(&self) -> Seq<char> {
        (*self)@
    }

    fn label(&self) -> (r: String) {
        (*self).to_string()
    }
}

} // verus!
