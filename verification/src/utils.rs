use vstd::prelude::*;
use vstd::std_specs::cmp::PartialEqSpec;

use crate::option::TypeaheadOption;
use crate::text::{
    chars_of, contains_text, lowercase, normalize, normalized, string_from_chars, text_contains,
    to_lowercase,
};

verus! {

/// The default filter: whether `text`, normalized, occurs in the option's
/// normalized label (an empty `text` matches everything).
pub open spec fn default_filter_matches(label: Seq<char>, text: Seq<char>) -> bool {
    text.len() == 0 || contains_text(normalized(label), normalized(text))
}

/// Case- and diacritic-insensitive substring match of `text` in the
/// option's label; an empty `text` matches every option.
pub fn default_filter_by<T: TypeaheadOption>(option: &T, text: &str) -> (r: bool)
    ensures
        r == default_filter_matches(option.spec_label(), text@),
        text@.len() > 0 ==> (r <==> exists|i: int|
            0 <= i && i + normalized(text@).len() <= normalized(option.spec_label()).len()
                && #[trigger] normalized(option.spec_label()).subrange(i, i + normalized(text@).len())
                == normalized(text@)),
{
    if text.is_empty() {
        return true;
    }
    let label = option.label();
    let hay = normalize(label.as_str());
    let needle = normalize(text);
    let r = text_contains(hay.as_str(), needle.as_str());
    proof {
        lemma_default_filter_is_substring_match(option.spec_label(), text@);
    }
    r
}

/// Whether some element of `selected` is equal to `option` by the
/// specification of `T`'s `==`.
pub open spec fn selected_contains<T: PartialEq>(option: &T, selected: Seq<T>) -> bool {
    exists|i: int| 0 <= i < selected.len() && selected[i].eq_spec(option)
}

/// `a == b` can return `is_equal`: a possible result of `T`'s `==`.
pub open spec fn compares<T: PartialEq>(a: &T, b: &T, is_equal: bool) -> bool {
    call_ensures(T::eq, (a, b), is_equal)
}

/// Some element of `selected` compared equal to `option`.
pub open spec fn some_compares_equal<T: PartialEq>(option: &T, selected: Seq<T>) -> bool {
    exists|i: int| 0 <= i < selected.len() && #[trigger] compares(&selected[i], option, true)
}

/// Every element of `selected` compared unequal to `option`.
pub open spec fn all_compare_unequal<T: PartialEq>(option: &T, selected: Seq<T>) -> bool {
    forall|i: int| 0 <= i < selected.len() ==> #[trigger] compares(&selected[i], option, false)
}

/// Whether `option` is among `selected`, each element compared with `==`
/// against `option` in order: `true` when an element compared equal,
/// `false` when every element compared unequal. Where `T`'s `==` follows
/// its specification, the result is exactly membership.
pub fn is_option_selected<T: TypeaheadOption>(option: &T, selected: &[T]) -> (r: bool)
    ensures
        r ==> some_compares_equal(option, selected@),
        !r ==> all_compare_unequal(option, selected@),
        T::obeys_eq_spec() ==> (r == selected_contains(option, selected@)),
{
    let mut i: usize = 0;
    while i < selected.len()
        invariant
            i <= selected@.len(),
            forall|j: int| 0 <= j < i ==> #[trigger] compares(&selected@[j], option, false),
            T::obeys_eq_spec() ==> forall|j: int| 0 <= j < i ==> !selected@[j].eq_spec(option),
        decreases selected@.len() - i,
    {
        let equal = selected[i] == *option;
        assert(compares(&selected@[i as int], option, equal));
        if equal {
            return true;
        }
        i = i + 1;
    }
    false
}

/// One piece of a label: its text, and whether it is an occurrence of the
/// search.
#[derive(Debug, Clone)]
pub struct MatchSegment {
    pub text: String,
    pub matched: bool,
}

impl PartialEq for MatchSegment {
    fn eq(&self, other: &Self) -> (r: bool) {
        self.text == other.text && self.matched == other.matched
    }
}

impl vstd::std_specs::cmp::PartialEqSpecImpl for MatchSegment {
    open spec fn obeys_eq_spec() -> bool {
        true
    }

    open spec fn eq_spec(&self, other: &Self) -> bool {
        self.text@ == other.text@ && self.matched == other.matched
    }
}

/// A segment as a mathematical value: its chars and its flag.
pub type SegmentView = (Seq<char>, bool);

/// The segments as mathematical values.
pub open spec fn segments_view(segs: Seq<MatchSegment>) -> Seq<SegmentView> {
    segs.map_values(|m: MatchSegment| (m.text@, m.matched))
}

/// The texts of the segments, one after the other.
pub open spec fn joined(segs: Seq<SegmentView>) -> Seq<char>
    decreases segs.len(),
{
    if segs.len() == 0 {
        Seq::empty()
    } else {
        joined(segs.drop_last()) + segs.last().0
    }
}

/// Where segment `k` starts in the label.
pub open spec fn segment_start(segs: Seq<SegmentView>, k: int) -> int {
    joined(segs.take(k)).len() as int
}

/// Whether the `needle.len()` chars of `chars` from position `p` on exist
/// and, lowercased, equal `needle`.
pub open spec fn window_matches(chars: Seq<char>, needle: Seq<char>, p: int) -> bool {
    &&& 0 <= p
    &&& p + needle.len() <= chars.len()
    &&& lowercase(chars.subrange(p, p + needle.len())) == needle
}

/// The segments, placed in `chars`, obey the highlighting rules: a matched
/// segment is an occurrence of `needle` (case-insensitively); an unmatched
/// segment is not empty and no occurrence starts inside it; no two
/// unmatched segments are adjacent.
pub open spec fn segments_well_formed(chars: Seq<char>, needle: Seq<char>, segs: Seq<SegmentView>) -> bool {
    &&& forall|k: int|
        0 <= k < segs.len() && (#[trigger] segs[k]).1 ==> segs[k].0.len() == needle.len()
            && lowercase(segs[k].0) == needle
    &&& forall|k: int| 0 <= k < segs.len() && !(#[trigger] segs[k]).1 ==> segs[k].0.len() > 0
    &&& forall|k: int, p: int|
        0 <= k < segs.len() && !(#[trigger] segs[k]).1 && segment_start(segs, k) <= p
            < segment_start(segs, k) + segs[k].0.len() ==> !#[trigger] window_matches(chars, needle, p)
    &&& forall|k: int| 0 <= k < segs.len() - 1 ==> (#[trigger] segs[k]).1 || segs[k + 1].1
}

/// `segs` splits `chars` into the highlighting of the occurrences of
/// `needle`: the texts put together give back `chars`, and the segments obey
/// the highlighting rules. The occurrences taken are those a left-to-right
/// scan finds, each one resuming after the previous one.
pub open spec fn is_highlighting(chars: Seq<char>, needle: Seq<char>, segs: Seq<SegmentView>) -> bool {
    &&& joined(segs) == chars
    &&& segments_well_formed(chars, needle, segs)
}

/// Appending a segment that obeys the rules keeps the rules, and appends
/// its text.
proof fn lemma_push_segment(chars: Seq<char>, needle: Seq<char>, segs: Seq<SegmentView>, seg: SegmentView)
    requires
        segments_well_formed(chars, needle, segs),
        seg.1 ==> seg.0.len() == needle.len() && lowercase(seg.0) == needle,
        !seg.1 ==> seg.0.len() > 0,
        !seg.1 ==> forall|p: int|
            joined(segs).len() <= p < joined(segs).len() + seg.0.len() ==> !#[trigger] window_matches(
                chars,
                needle,
                p,
            ),
        !seg.1 && segs.len() > 0 ==> segs.last().1,
    ensures
        segments_well_formed(chars, needle, segs.push(seg)),
        joined(segs.push(seg)) == joined(segs) + seg.0,
{
    let next = segs.push(seg);
    assert(next.drop_last() == segs);
    assert(next.take(segs.len() as int) == segs);
    assert forall|k: int, p: int|
        0 <= k < next.len() && !(#[trigger] next[k]).1 && segment_start(next, k) <= p
            < segment_start(next, k) + next[k].0.len() implies !#[trigger] window_matches(chars, needle, p) by {
        if k < segs.len() {
            assert(next.take(k) == segs.take(k));
            assert(next[k] == segs[k]);
        }
    }
}

/// The chars of `cs` from `from` (included) to `to` (excluded), as a string.
fn substring_of(cs: &Vec<char>, from: usize, to: usize) -> (r: String)
    requires
        from <= to <= cs.len(),
    ensures
        r@ == cs@.subrange(from as int, to as int),
{
    let mut out: Vec<char> = Vec::new();
    let mut k: usize = from;
    while k < to
        invariant
            from <= k <= to <= cs.len(),
            out@ == cs@.subrange(from as int, k as int),
        decreases to - k,
    {
        out.push(cs[k]);
        assert(cs@.subrange(from as int, k + 1) == cs@.subrange(from as int, k as int).push(cs@[k as int]));
        k = k + 1;
    }
    string_from_chars(&out)
}

/// Splits `label` into matched and unmatched segments against every
/// occurrence of `needle`, which is already lowercased, comparing each
/// window of `label` lowercased. Occurrences are taken left to right, each
/// one resuming after the previous one.
pub fn highlight_lowered(label: &str, needle: &str) -> (r: Vec<MatchSegment>)
    requires
        needle@.len() > 0,
    ensures
        is_highlighting(label@, needle@, segments_view(r@)),
{
    let needle_chars = chars_of(needle);
    let needle_len: usize = needle_chars.len();
    let chars = chars_of(label);
    let mut segments: Vec<MatchSegment> = Vec::new();
    let mut run_start: usize = 0;
    let mut cursor: usize = 0;
    while cursor < chars.len()
        invariant
            run_start <= cursor <= chars.len(),
            needle_len == needle@.len(),
            needle_len > 0,
            chars@ == label@,
            segments_well_formed(label@, needle@, segments_view(segments@)),
            joined(segments_view(segments@)) == label@.take(run_start as int),
            forall|p: int| run_start <= p < cursor ==> !window_matches(label@, needle@, p),
            segments@.len() > 0 ==> segments@.last().matched,
        decreases chars.len() - cursor,
    {
        let ghost before = segments_view(segments@);
        let mut is_match = false;
        if needle_len <= chars.len() - cursor {
            let window = substring_of(&chars, cursor, cursor + needle_len);
            let lowered = to_lowercase(window.as_str());
            is_match = lowered == needle.to_string();
        }
        assert(is_match == window_matches(label@, needle@, cursor as int));
        if is_match {
            let ghost mid = before;
            if cursor > run_start {
                let seg = MatchSegment { text: substring_of(&chars, run_start, cursor), matched: false };
                proof {
                    lemma_push_segment(label@, needle@, before, (seg.text@, false));
                    mid = before.push((seg.text@, false));
                    assert(label@.take(run_start as int) + label@.subrange(run_start as int, cursor as int)
                        == label@.take(cursor as int));
                }
                segments.push(seg);
                assert(segments_view(segments@) == mid);
            }
            assert(joined(mid) == label@.take(cursor as int));
            let seg = MatchSegment { text: substring_of(&chars, cursor, cursor + needle_len), matched: true };
            proof {
                lemma_push_segment(label@, needle@, mid, (seg.text@, true));
                assert(label@.take(cursor as int) + label@.subrange(cursor as int, cursor + needle_len)
                    == label@.take(cursor + needle_len));
            }
            segments.push(seg);
            assert(segments_view(segments@) == mid.push((seg.text@, true)));
            cursor = cursor + needle_len;
            run_start = cursor;
        } else {
            cursor = cursor + 1;
        }
    }
    if run_start < chars.len() {
        let ghost before = segments_view(segments@);
        let seg = MatchSegment { text: substring_of(&chars, run_start, chars.len()), matched: false };
        proof {
            lemma_push_segment(label@, needle@, before, (seg.text@, false));
            assert(label@.take(run_start as int) + label@.subrange(run_start as int, label@.len() as int)
                == label@);
        }
        segments.push(seg);
        assert(segments_view(segments@) == before.push((seg.text@, false)));
    } else {
        assert(label@.take(run_start as int) == label@);
    }
    segments
}


/// The highlighting of `label` for `search`: the whole label as one
/// unmatched segment when `search` is empty; else the highlighting of the
/// occurrences of the lowercased search.
pub open spec fn is_label_highlighting(label: Seq<char>, search: Seq<char>, segs: Seq<SegmentView>) -> bool {
    if search.len() == 0 {
        segs == seq![(label, false)]
    } else {
        is_highlighting(label, lowercase(search), segs)
    }
}

/// Splits `label` into matched/unmatched segments against every occurrence
/// of `search`, case-insensitively (each window of the label is lowercased
/// and compared with the lowercased search). Walks chars, so a case change
/// that alters the byte length cannot misalign a slice.
pub fn highlight_segments(label: &str, search: &str) -> (r: Vec<MatchSegment>)
    ensures
        is_label_highlighting(label@, search@, segments_view(r@)),
{
    if search.is_empty() {
        let mut only: Vec<MatchSegment> = Vec::new();
        only.push(MatchSegment { text: label.to_string(), matched: false });
        assert(segments_view(only@) == seq![(label@, false)]);
        return only;
    }
    let needle = to_lowercase(search);
    highlight_lowered(label, needle.as_str())
}

/// The default filter is a substring match: an empty text matches every
/// label; a non-empty text matches exactly when the whole normalized text
/// occurs, at some position, in the normalized label.
pub proof fn lemma_default_filter_is_substring_match(label: Seq<char>, text: Seq<char>)
    ensures
        text.len() == 0 ==> default_filter_matches(label, text),
        text.len() > 0 ==> (default_filter_matches(label, text) <==> exists|i: int|
            0 <= i && i + normalized(text).len() <= normalized(label).len()
                && #[trigger] normalized(label).subrange(i, i + normalized(text).len()) == normalized(text)),
{
    let h = normalized(label);
    let n = normalized(text);
    if contains_text(h, n) {
        let i: int = choose|i: int| crate::text::occurs_at(h, n, i);
        assert(h.subrange(i, i + n.len()) == n);
    }
    if exists|i: int| 0 <= i && i + n.len() <= h.len() && #[trigger] h.subrange(i, i + n.len()) == n {
        let i: int = choose|i: int| 0 <= i && i + n.len() <= h.len() && #[trigger] h.subrange(i, i + n.len()) == n;
        assert(crate::text::occurs_at(h, n, i));
    }
}

/// Every option matches its own label under the default filter.
pub proof fn lemma_option_matches_own_label(label: Seq<char>)
    ensures
        default_filter_matches(label, label),
{
    let n = normalized(label);
    assert(n.subrange(0, n.len() as int) == n);
    assert(crate::text::occurs_at(n, n, 0));
}

/// The texts of the first `m` segments followed by those of the others.
proof fn lemma_joined_split(segs: Seq<SegmentView>, m: int)
    requires
        0 <= m <= segs.len(),
    ensures
        joined(segs) == joined(segs.take(m)) + joined(segs.skip(m)),
    decreases segs.len(),
{
    if m == segs.len() {
        assert(segs.take(m) == segs);
        assert(segs.skip(m) == Seq::<SegmentView>::empty());
        assert(joined(segs) + Seq::<char>::empty() == joined(segs));
    } else {
        let dl = segs.drop_last();
        lemma_joined_split(dl, m);
        assert(dl.take(m) == segs.take(m));
        assert(segs.skip(m).drop_last() == dl.skip(m));
        assert(segs.skip(m).last() == segs.last());
        assert(joined(segs.take(m)) + (joined(dl.skip(m)) + segs.last().0) == (joined(segs.take(m))
            + joined(dl.skip(m))) + segs.last().0);
    }
}

/// Segment `k` lies in the joined text at its start, and the next one
/// starts where it ends.
proof fn lemma_segment_in_text(segs: Seq<SegmentView>, k: int)
    requires
        0 <= k < segs.len(),
    ensures
        segment_start(segs, k) + segs[k].0.len() <= joined(segs).len(),
        joined(segs).subrange(segment_start(segs, k), segment_start(segs, k) + segs[k].0.len())
            == segs[k].0,
        segment_start(segs, k + 1) == segment_start(segs, k) + segs[k].0.len(),
{
    lemma_joined_split(segs, k);
    let rest = segs.skip(k);
    lemma_joined_split(rest, 1);
    assert(rest.take(1).drop_last() == Seq::<SegmentView>::empty());
    assert(joined(Seq::<SegmentView>::empty()) == Seq::<char>::empty());
    assert(joined(rest.take(1)) == joined(rest.take(1).drop_last()) + rest.take(1).last().0);
    assert(rest.take(1).last() == segs[k]);
    assert(joined(rest.take(1)) == Seq::<char>::empty() + segs[k].0);
    assert(Seq::<char>::empty() + segs[k].0 == segs[k].0);
    assert(segs.take(k + 1).drop_last() == segs.take(k));
    assert(segs.take(k + 1).last() == segs[k]);
    let start: int = segment_start(segs, k);
    let whole = joined(segs);
    assert(whole == joined(segs.take(k)) + (segs[k].0 + joined(rest.skip(1))));
    assert(whole.subrange(start, start + segs[k].0.len()) == segs[k].0);
}

/// All segments start within the text and the last one ends at its end.
proof fn lemma_end_start(segs: Seq<SegmentView>)
    ensures
        segment_start(segs, segs.len() as int) == joined(segs).len(),
{
    assert(segs.take(segs.len() as int) == segs);
}

/// Two highlightings that agree on their first `k` segments agree on
/// segment `k`.
proof fn lemma_segment_agrees(
    chars: Seq<char>,
    needle: Seq<char>,
    s1: Seq<SegmentView>,
    s2: Seq<SegmentView>,
    k: int,
)
    requires
        needle.len() > 0,
        is_highlighting(chars, needle, s1),
        is_highlighting(chars, needle, s2),
        0 <= k < s1.len(),
        0 <= k < s2.len(),
        s1.take(k) == s2.take(k),
    ensures
        s1[k] == s2[k],
{
    let p: int = segment_start(s1, k);
    assert(segment_start(s2, k) == p);
    lemma_segment_in_text(s1, k);
    lemma_segment_in_text(s2, k);
    lemma_end_start(s1);
    lemma_end_start(s2);
    let (t1, m1) = s1[k];
    let (t2, m2) = s2[k];
    if window_matches(chars, needle, p) {
        if !m1 {
            assert(!window_matches(chars, needle, p));
        }
        if !m2 {
            assert(!window_matches(chars, needle, p));
        }
        assert(t1 == chars.subrange(p, p + needle.len()));
        assert(t2 == chars.subrange(p, p + needle.len()));
    } else {
        if m1 {
            assert(window_matches(chars, needle, p));
        }
        if m2 {
            assert(window_matches(chars, needle, p));
        }
        if t1.len() < t2.len() {
            let q: int = p + t1.len();
            if k + 1 == s1.len() {
                assert(segment_start(s1, k + 1) == chars.len());
            }
            assert(s1[k].1 || s1[k + 1].1);
            lemma_segment_in_text(s1, k + 1);
            assert(window_matches(chars, needle, q));
            assert(!window_matches(chars, needle, q));
        }
        if t2.len() < t1.len() {
            let q: int = p + t2.len();
            if k + 1 == s2.len() {
                assert(segment_start(s2, k + 1) == chars.len());
            }
            assert(s2[k].1 || s2[k + 1].1);
            lemma_segment_in_text(s2, k + 1);
            assert(window_matches(chars, needle, q));
            assert(!window_matches(chars, needle, q));
        }
        assert(t1 == chars.subrange(p, p + t1.len()));
        assert(t2 == chars.subrange(p, p + t2.len()));
    }
}

/// Two highlightings agree on their first `k` segments.
proof fn lemma_prefix_agrees(
    chars: Seq<char>,
    needle: Seq<char>,
    s1: Seq<SegmentView>,
    s2: Seq<SegmentView>,
    k: int,
)
    requires
        needle.len() > 0,
        is_highlighting(chars, needle, s1),
        is_highlighting(chars, needle, s2),
        0 <= k <= s1.len(),
        k <= s2.len(),
    ensures
        s1.take(k) == s2.take(k),
    decreases k,
{
    if k > 0 {
        lemma_prefix_agrees(chars, needle, s1, s2, k - 1);
        lemma_segment_agrees(chars, needle, s1, s2, k - 1);
        assert(s1.take(k) == s1.take(k - 1).push(s1[k - 1]));
        assert(s2.take(k) == s2.take(k - 1).push(s2[k - 1]));
    }
}

/// Two highlightings of one text have as many segments.
proof fn lemma_no_shorter_highlighting(
    chars: Seq<char>,
    needle: Seq<char>,
    s1: Seq<SegmentView>,
    s2: Seq<SegmentView>,
)
    requires
        needle.len() > 0,
        is_highlighting(chars, needle, s1),
        is_highlighting(chars, needle, s2),
    ensures
        s1.len() >= s2.len(),
{
    if s1.len() >= s2.len() {
        return;
    }
    let k: int = s1.len() as int;
    lemma_prefix_agrees(chars, needle, s1, s2, k);
    assert(s2.take(k) == s1);
    lemma_end_start(s1);
    lemma_segment_in_text(s2, k);
    let (t, m) = s2[k];
    assert(t.len() > 0);
}

/// The highlighting of a text for a non-empty needle is unique: the
/// contract of `highlight_segments` pins its result down.
pub proof fn lemma_highlighting_unique(
    chars: Seq<char>,
    needle: Seq<char>,
    s1: Seq<SegmentView>,
    s2: Seq<SegmentView>,
)
    requires
        needle.len() > 0,
        is_highlighting(chars, needle, s1),
        is_highlighting(chars, needle, s2),
    ensures
        s1 == s2,
{
    if s1.len() < s2.len() {
        lemma_no_shorter_highlighting(chars, needle, s1, s2);
    } else if s2.len() < s1.len() {
        lemma_no_shorter_highlighting(chars, needle, s2, s1);
    } else {
        lemma_prefix_agrees(chars, needle, s1, s2, s1.len() as int);
        assert(s1.take(s1.len() as int) == s1);
        assert(s2.take(s2.len() as int) == s2);
    }
}

/// The segments put back together give the label, for any search.
pub proof fn lemma_segments_rebuild_label(label: Seq<char>, search: Seq<char>, segs: Seq<SegmentView>)
    requires
        is_label_highlighting(label, search, segs),
    ensures
        joined(segs) == label,
{
    if search.len() == 0 {
        assert(segs.drop_last() == Seq::<SegmentView>::empty());
        assert(joined(Seq::<SegmentView>::empty()) == Seq::<char>::empty());
        assert(joined(segs) == joined(segs.drop_last()) + segs.last().0);
        assert(Seq::<char>::empty() + label == label);
    }
}

} // verus!
