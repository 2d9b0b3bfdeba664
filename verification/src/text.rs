use vstd::prelude::*;
use unicode_normalization::UnicodeNormalization;

verus! {

broadcast use vstd::string::group_string_axioms;

/// `String::push` appends the given char to the end of the string.
pub assume_specification[ String::push ](s: &mut String, ch: char)
    ensures
        final(s)@ == old(s)@.push(ch),
;

/// The chars of `s`, in order.
pub fn chars_of(s: &str) -> (r: Vec<char>)
    ensures
        r@ == s@,
{
    let mut v: Vec<char> = Vec::new();
    for c in it: s.chars()
        invariant
            it.seq() == s@,
            v@ == s@.take(it.index() as int),
    {
        v.push(c);
    }
    assert(s@.take(s@.len() as int) == s@);
    v
}


/// A string made of the given chars, in order.
pub fn string_from_chars(cs: &Vec<char>) -> (r: String)
    ensures
        r@ == cs@,
{
    let mut out = String::new();
    let mut i: usize = 0;
    while i < cs.len()
        invariant
            i <= cs.len(),
            out@ == cs@.take(i as int),
        decreases cs.len() - i,
    {
        out.push(cs[i]);
        assert(cs@.take(i + 1) == cs@.take(i as int).push(cs@[i as int]));
        i = i + 1;
    }
    assert(cs@.take(cs.len() as int) == cs@);
    out
}

/// The canonical decomposition (Unicode Normalization Form D) of a text.
pub uninterp spec fn canonical_decomposition(s: Seq<char>) -> Seq<char>;

/// Whether a char is a Unicode combining mark (general category `Mark`).
pub uninterp spec fn combining_mark(c: char) -> bool;

/// The lowercase equivalent of a text, as Unicode defines it.
pub uninterp spec fn lowercase(s: Seq<char>) -> Seq<char>;

/// Whether a char has the Unicode `White_Space` property: U+0009 to
/// U+000D, U+0020, U+0085, U+00A0, U+1680, U+2000 to U+200A, U+2028,
/// U+2029, U+202F, U+205F and U+3000.
pub open spec fn white_space(c: char) -> bool {
    let u = c as u32;
    ||| 0x9 <= u <= 0xD
    ||| u == 0x20
    ||| u == 0x85
    ||| u == 0xA0
    ||| u == 0x1680
    ||| 0x2000 <= u <= 0x200A
    ||| u == 0x2028
    ||| u == 0x2029
    ||| u == 0x202F
    ||| u == 0x205F
    ||| u == 0x3000
}

/// Calls `UnicodeNormalization::nfd` of the `unicode_normalization` crate
/// on `s` and collects the chars. The contract only names the result: it is
/// the canonical decomposition of `s`, a function of `s` alone.
#[verifier::external_body]
fn decompose(s: &str) -> (r: Vec<char>)
    ensures
        r@ == canonical_decomposition(s@),
{
    s.nfd().collect()
}

/// Calls `unicode_normalization::char::is_combining_mark`. The contract
/// only names the result, a table lookup on `c` alone.
#[verifier::external_body]
fn is_combining_mark(c: char) -> (r: bool)
    ensures
        r == combining_mark(c),
{
    unicode_normalization::char::is_combining_mark(c)
}

/// Calls `str::to_lowercase`. The contract names the result, which std
/// defines from the Unicode case tables and `s` alone, and states that a
/// non-empty text does not lowercase to the empty text (std maps each char
/// to one or more chars).
#[verifier::external_body]
pub(crate) fn to_lowercase(s: &str) -> (r: String)
    ensures
        r@ == lowercase(s@),
        s@.len() > 0 ==> r@.len() > 0,
{
    s.to_lowercase()
}

/// Whether `c` is white space (the Unicode `White_Space` property).
pub fn is_whitespace(c: char) -> (r: bool)
    ensures
        r == white_space(c),
{
    let u: u32 = c as u32;
    (0x9 <= u && u <= 0xD) || u == 0x20 || u == 0x85 || u == 0xA0 || u == 0x1680 || (0x2000 <= u && u
        <= 0x200A) || u == 0x2028 || u == 0x2029 || u == 0x202F || u == 0x205F || u == 0x3000
}

/// The chars that are not combining marks.
pub open spec fn without_marks(s: Seq<char>) -> Seq<char> {
    s.filter(|c: char| !combining_mark(c))
}

/// The text that matching compares: decomposed, stripped of combining
/// marks, then lowercased.
pub open spec fn normalized(s: Seq<char>) -> Seq<char> {
    lowercase(without_marks(canonical_decomposition(s)))
}

/// Drops the combining marks of a sequence of chars, keeping the order of
/// the others.
pub fn strip_marks(cs: &Vec<char>) -> (r: Vec<char>)
    ensures
        r@ == without_marks(cs@),
{
    let mut kept: Vec<char> = Vec::new();
    let mut i: usize = 0;
    while i < cs.len()
        invariant
            i <= cs.len(),
            kept@ == without_marks(cs@.take(i as int)),
        decreases cs.len() - i,
    {
        let c = cs[i];
        proof {
            reveal(Seq::filter);
            assert(cs@.take(i + 1).drop_last() == cs@.take(i as int));
        }
        if !is_combining_mark(c) {
            kept.push(c);
        }
        i = i + 1;
    }
    assert(cs@.take(cs.len() as int) == cs@);
    kept
}

/// Case- and diacritic-insensitive form of a text: canonical decomposition,
/// combining marks removed, lowercased.
pub fn normalize(value: &str) -> (r: String)
    ensures
        r@ == normalized(value@),
{
    let decomposed = decompose(value);
    let kept = strip_marks(&decomposed);
    let s = string_from_chars(&kept);
    to_lowercase(s.as_str())
}

/// Whether `needle` occurs in `hay` starting at position `i`.
pub open spec fn occurs_at(hay: Seq<char>, needle: Seq<char>, i: int) -> bool {
    &&& 0 <= i
    &&& i + needle.len() <= hay.len()
    &&& hay.subrange(i, i + needle.len()) == needle
}

/// Whether `needle` occurs somewhere in `hay` (the empty text occurs in
/// every text).
pub open spec fn contains_text(hay: Seq<char>, needle: Seq<char>) -> bool {
    exists|i: int| occurs_at(hay, needle, i)
}

/// Whether the chars of `needle` appear in `hay` at position `i`.
fn matches_at(hay: &Vec<char>, needle: &Vec<char>, i: usize) -> (r: bool)
    requires
        i + needle.len() <= hay.len(),
    ensures
        r == occurs_at(hay@, needle@, i as int),
{
    let mut k: usize = 0;
    while k < needle.len()
        invariant
            k <= needle.len(),
            i + needle.len() <= hay.len(),
            forall|m: int| 0 <= m < k ==> hay@[i + m] == needle@[m],
        decreases needle.len() - k,
    {
        if hay[i + k] != needle[k] {
            assert(hay@.subrange(i as int, i + needle.len())[k as int] != needle@[k as int]);
            return false;
        }
        k = k + 1;
    }
    assert(hay@.subrange(i as int, i + needle.len()) == needle@);
    true
}

/// Substring search: whether `needle` occurs in `hay`.
pub fn text_contains(hay: &str, needle: &str) -> (r: bool)
    ensures
        r == contains_text(hay@, needle@),
{
    let h = chars_of(hay);
    let n = chars_of(needle);
    if n.len() > h.len() {
        assert forall|i: int| !occurs_at(hay@, needle@, i) by {}
        return false;
    }
    let last: usize = h.len() - n.len();
    let mut i: usize = 0;
    loop
        invariant
            i <= last,
            last == h.len() - n.len(),
            h@ == hay@,
            n@ == needle@,
            forall|j: int| 0 <= j < i ==> !occurs_at(hay@, needle@, j),
        ensures
            forall|j: int| 0 <= j <= last ==> !occurs_at(hay@, needle@, j),
        decreases last - i,
    {
        if matches_at(&h, &n, i) {
            return true;
        }
        if i == last {
            break;
        }
        i = i + 1;
    }
    assert forall|j: int| !occurs_at(hay@, needle@, j) by {
        if 0 <= j && j <= last {
        }
    }
    false
}

/// `s` without its leading white space.
pub open spec fn trim_start(s: Seq<char>) -> Seq<char>
    decreases s.len(),
{
    if s.len() > 0 && white_space(s[0]) {
        trim_start(s.drop_first())
    } else {
        s
    }
}

/// `s` without its trailing white space.
pub open spec fn trim_end(s: Seq<char>) -> Seq<char>
    decreases s.len(),
{
    if s.len() > 0 && white_space(s.last()) {
        trim_end(s.drop_last())
    } else {
        s
    }
}

/// `s` without its leading and trailing white space.
pub open spec fn trimmed(s: Seq<char>) -> Seq<char> {
    trim_end(trim_start(s))
}

/// The text with leading and trailing white space removed.
pub fn trim(s: &str) -> (r: String)
    ensures
        r@ == trimmed(s@),
{
    let cs = chars_of(s);
    let len: usize = cs.len();
    let mut i: usize = 0;
    assert(s@.skip(0) == s@);
    while i < len && is_whitespace(cs[i])
        invariant
            len == cs@.len(),
            i <= len,
            cs@ == s@,
            trim_start(s@) == trim_start(s@.skip(i as int)),
        decreases len - i,
    {
        assert(s@.skip(i as int).drop_first() == s@.skip(i + 1));
        i = i + 1;
    }
    let mut j: usize = len;
    while j > i && is_whitespace(cs[j - 1])
        invariant
            len == cs@.len(),
            i <= j <= len,
            cs@ == s@,
            trim_end(s@.subrange(i as int, len as int)) == trim_end(s@.subrange(i as int, j as int)),
        decreases j,
    {
        assert(s@.subrange(i as int, j as int).drop_last() == s@.subrange(i as int, j - 1));
        j = j - 1;
    }
    assert(s@.skip(i as int) == s@.subrange(i as int, len as int));
    let mut out: Vec<char> = Vec::new();
    let mut k: usize = i;
    while k < j
        invariant
            i <= k <= j <= len,
            len == cs@.len(),
            out@ == cs@.subrange(i as int, k as int),
        decreases j - k,
    {
        out.push(cs[k]);
        assert(cs@.subrange(i as int, k + 1) == cs@.subrange(i as int, k as int).push(cs@[k as int]));
        k = k + 1;
    }
    string_from_chars(&out)
}


/// `trim_start` drops exactly the white space before the first other char.
proof fn lemma_trim_start(s: Seq<char>) -> (k: int)
    ensures
        0 <= k <= s.len(),
        trim_start(s) == s.skip(k),
        forall|j: int| 0 <= j < k ==> white_space(#[trigger] s[j]),
        k < s.len() ==> !white_space(s[k]),
    decreases s.len(),
{
    if s.len() > 0 && white_space(s[0]) {
        let k0 = lemma_trim_start(s.drop_first());
        assert(s.drop_first().skip(k0) == s.skip(k0 + 1));
        assert forall|j: int| 0 <= j < k0 + 1 implies white_space(#[trigger] s[j]) by {
            if j > 0 {
                assert(s[j] == s.drop_first()[j - 1]);
            }
        }
        k0 + 1
    } else {
        assert(s.skip(0) == s);
        0
    }
}

/// `trim_end` drops exactly the white space after the last other char.
proof fn lemma_trim_end(s: Seq<char>) -> (m: int)
    ensures
        0 <= m <= s.len(),
        trim_end(s) == s.take(m),
        forall|j: int| m <= j < s.len() ==> white_space(#[trigger] s[j]),
        m > 0 ==> !white_space(s[m - 1]),
    decreases s.len(),
{
    if s.len() > 0 && white_space(s.last()) {
        let m0 = lemma_trim_end(s.drop_last());
        assert(s.drop_last().take(m0) == s.take(m0));
        assert forall|j: int| m0 <= j < s.len() implies white_space(#[trigger] s[j]) by {
            if j < s.len() - 1 {
                assert(s[j] == s.drop_last()[j]);
            }
        }
        m0
    } else {
        assert(s.take(s.len() as int) == s);
        s.len() as int
    }
}

/// Trimming keeps a contiguous part of the text, drops only white space
/// around it, and leaves no white space at either end.
pub proof fn lemma_trimmed(s: Seq<char>)
    ensures
        exists|i: int, j: int|
            0 <= i <= j <= s.len() && trimmed(s) == s.subrange(i, j) && (forall|p: int|
                0 <= p < i ==> white_space(#[trigger] s[p])) && (forall|p: int|
                j <= p < s.len() ==> white_space(#[trigger] s[p])),
        trimmed(s).len() > 0 ==> !white_space(trimmed(s)[0]) && !white_space(trimmed(s).last()),
{
    let k = lemma_trim_start(s);
    let rest = s.skip(k);
    let m = lemma_trim_end(rest);
    assert(trimmed(s) == s.subrange(k, k + m));
    assert forall|p: int| k + m <= p < s.len() implies white_space(#[trigger] s[p]) by {
        assert(s[p] == rest[p - k]);
    }
    if m > 0 {
        assert(trimmed(s)[0] == rest[0]);
        assert(rest[0] == s[k]);
        assert(trimmed(s).last() == rest[m - 1]);
    }
}

} // verus!
