//! Text primitives: trimming, splitting at a separator, prefixes and equality, each stated over
//! the sequence of characters that a string holds.
use vstd::prelude::*;

verus! {

/// The characters with the Unicode property `White_Space`.
pub open spec fn is_white_space(c: char) -> bool {
    ||| '\u{9}' <= c <= '\u{d}'
    ||| c == '\u{20}'
    ||| c == '\u{85}'
    ||| c == '\u{a0}'
    ||| c == '\u{1680}'
    ||| '\u{2000}' <= c <= '\u{200a}'
    ||| c == '\u{2028}'
    ||| c == '\u{2029}'
    ||| c == '\u{202f}'
    ||| c == '\u{205f}'
    ||| c == '\u{3000}'
}

/// Whether every character of `s` is white space.
pub open spec fn is_blank(s: Seq<char>) -> bool {
    forall|i: int| 0 <= i < s.len() ==> is_white_space(#[trigger] s[i])
}

/// `s` without its leading white space.
pub open spec fn trimmed_start(s: Seq<char>) -> Seq<char>
    decreases s.len(),
{
    if s.len() > 0 && is_white_space(s[0]) {
        trimmed_start(s.drop_first())
    } else {
        s
    }
}

/// `s` without its trailing white space.
pub open spec fn trimmed_end(s: Seq<char>) -> Seq<char>
    decreases s.len(),
{
    if s.len() > 0 && is_white_space(s.last()) {
        trimmed_end(s.drop_last())
    } else {
        s
    }
}

/// `s` without its leading and trailing white space.
pub open spec fn trimmed(s: Seq<char>) -> Seq<char> {
    trimmed_end(trimmed_start(s))
}

/// The index of the first `c` in `s`, or the length of `s` where it holds none.
pub open spec fn first_index(s: Seq<char>, c: char) -> int
    decreases s.len(),
{
    if s.len() == 0 || s[0] == c {
        0
    } else {
        1 + first_index(s.drop_first(), c)
    }
}

/// What stands before and after the first `c` in `s`; `None` where `s` holds no `c`.
pub open spec fn split_at_first(s: Seq<char>, c: char) -> Option<(Seq<char>, Seq<char>)> {
    if s.contains(c) {
        Some((s.take(first_index(s, c)), s.skip(first_index(s, c) + 1)))
    } else {
        None
    }
}

/// What follows `prefix` in `s`; `None` where `s` does not begin with it.
pub open spec fn after_prefix(s: Seq<char>, prefix: Seq<char>) -> Option<Seq<char>> {
    if prefix.is_prefix_of(s) {
        Some(s.skip(prefix.len() as int))
    } else {
        None
    }
}

/// The characters behind an optional string slice.
pub open spec fn str_view(s: Option<&str>) -> Option<Seq<char>> {
    match s {
        Some(s) => Some(s@),
        None => None,
    }
}

/// The characters behind an optional owned string.
pub open spec fn string_view(s: Option<String>) -> Option<Seq<char>> {
    match s {
        Some(s) => Some(s@),
        None => None,
    }
}

/// The first index of `c` is the place of a `c` that none precedes, if `s` holds one.
pub proof fn lemma_first_index(s: Seq<char>, c: char)
    ensures
        0 <= first_index(s, c) <= s.len(),
        s.contains(c) <==> first_index(s, c) < s.len(),
        first_index(s, c) < s.len() ==> s[first_index(s, c)] == c,
        forall|j: int| 0 <= j < first_index(s, c) ==> #[trigger] s[j] != c,
    decreases s.len(),
{
    if s.len() > 0 && s[0] != c {
        let rest = s.drop_first();
        lemma_first_index(rest, c);
        assert forall|j: int| 0 <= j < first_index(s, c) implies #[trigger] s[j] != c by {
            if j > 0 {
                assert(s[j] == rest[j - 1]);
            }
        }
        if s.contains(c) {
            let i = choose|i: int| 0 <= i < s.len() && s[i] == c;
            assert(rest[i - 1] == c);
        }
    }
}

/// A head without `c`, then `c`, then any tail is split into that head and that tail.
pub proof fn lemma_split_at_first(head: Seq<char>, c: char, tail: Seq<char>)
    requires
        !head.contains(c),
    ensures
        split_at_first(head + seq![c] + tail, c) == Some((head, tail)),
{
    let s = head + seq![c] + tail;
    lemma_first_index(s, c);
    assert(s[head.len() as int] == c);
    let i = first_index(s, c);
    if i < head.len() {
        assert(head[i] == s[i]);
    }
    assert(i == head.len());
    assert(s.take(i) =~= head);
    assert(s.skip(i + 1) =~= tail);
}

/// White space in front is dropped, whatever follows it.
proof fn lemma_trimmed_start_padded(pad: Seq<char>, s: Seq<char>)
    requires
        is_blank(pad),
    ensures
        trimmed_start(pad + s) == trimmed_start(s),
    decreases pad.len(),
{
    if pad.len() == 0 {
        assert(pad + s =~= s);
    } else {
        assert((pad + s)[0] == pad[0]);
        assert((pad + s).drop_first() =~= pad.drop_first() + s);
        lemma_trimmed_start_padded(pad.drop_first(), s);
    }
}

/// White space at the end is dropped, whatever precedes it.
proof fn lemma_trimmed_end_padded(s: Seq<char>, pad: Seq<char>)
    requires
        is_blank(pad),
    ensures
        trimmed_end(s + pad) == trimmed_end(s),
    decreases pad.len(),
{
    if pad.len() == 0 {
        assert(s + pad =~= s);
    } else {
        assert((s + pad).last() == pad.last());
        assert((s + pad).drop_last() =~= s + pad.drop_last());
        lemma_trimmed_end_padded(s, pad.drop_last());
    }
}

/// Trimming the start of `s + pad` leaves what trimming the start of `s` leaves, and `pad`, unless
/// all of `s` is white space.
proof fn lemma_trimmed_start_append(s: Seq<char>, pad: Seq<char>)
    requires
        !is_blank(s),
    ensures
        trimmed_start(s + pad) == trimmed_start(s) + pad,
    decreases s.len(),
{
    assert((s + pad)[0] == s[0]);
    if is_white_space(s[0]) {
        let rest = s.drop_first();
        assert((s + pad).drop_first() =~= rest + pad);
        if is_blank(rest) {
            assert forall|i: int| 0 <= i < s.len() implies is_white_space(#[trigger] s[i]) by {
                if i > 0 {
                    assert(s[i] == rest[i - 1]);
                }
            }
        }
        lemma_trimmed_start_append(rest, pad);
    }
}

/// Nothing is left of white space.
pub proof fn lemma_trimmed_blank(s: Seq<char>)
    requires
        is_blank(s),
    ensures
        trimmed(s).len() == 0,
{
    let none = Seq::<char>::empty();
    lemma_trimmed_start_padded(s, none);
    assert(s + none =~= s);
}

/// Something is left of a text that is not all white space.
pub proof fn lemma_trimmed_not_blank(s: Seq<char>)
    requires
        !is_blank(s),
    ensures
        trimmed(s).len() > 0,
{
    lemma_trimmed_start_not_blank(s);
    lemma_trimmed_end_not_blank(trimmed_start(s));
}

/// Trimming the start of a text leaves what is not white space.
proof fn lemma_trimmed_start_not_blank(s: Seq<char>)
    requires
        !is_blank(s),
    ensures
        !is_blank(trimmed_start(s)),
    decreases s.len(),
{
    if is_white_space(s[0]) {
        let i = choose|i: int| 0 <= i < s.len() && !is_white_space(#[trigger] s[i]);
        assert(s.drop_first()[i - 1] == s[i]);
        lemma_trimmed_start_not_blank(s.drop_first());
    }
}

/// Trimming the end of a text leaves what is not white space.
proof fn lemma_trimmed_end_not_blank(s: Seq<char>)
    requires
        !is_blank(s),
    ensures
        trimmed_end(s).len() > 0,
    decreases s.len(),
{
    if is_white_space(s.last()) {
        let i = choose|i: int| 0 <= i < s.len() && !is_white_space(#[trigger] s[i]);
        assert(s.drop_last()[i] == s[i]);
        lemma_trimmed_end_not_blank(s.drop_last());
    }
}

/// White space around a text makes no difference to what trimming it leaves.
pub proof fn lemma_trimmed_padded(before: Seq<char>, s: Seq<char>, after: Seq<char>)
    requires
        is_blank(before),
        is_blank(after),
    ensures
        trimmed(before + s + after) == trimmed(s),
{
    assert(before + s + after =~= before + (s + after));
    lemma_trimmed_start_padded(before, s + after);
    if is_blank(s) {
        assert(is_blank(s + after));
        lemma_trimmed_blank(s);
        lemma_trimmed_blank(s + after);
        assert(trimmed(s) =~= trimmed(s + after));
    } else {
        lemma_trimmed_start_append(s, after);
        lemma_trimmed_end_padded(trimmed_start(s), after);
    }
}

/// What trimming the start leaves does not begin with white space.
proof fn lemma_trimmed_start(s: Seq<char>)
    ensures
        trimmed_start(s).len() > 0 ==> !is_white_space(trimmed_start(s)[0]),
    decreases s.len(),
{
    if s.len() > 0 && is_white_space(s[0]) {
        lemma_trimmed_start(s.drop_first());
    }
}

/// What trimming the end leaves does not end with white space, and is a prefix of the text.
proof fn lemma_trimmed_end(s: Seq<char>)
    ensures
        trimmed_end(s).len() > 0 ==> !is_white_space(trimmed_end(s).last()),
        trimmed_end(s).is_prefix_of(s),
    decreases s.len(),
{
    if s.len() > 0 && is_white_space(s.last()) {
        lemma_trimmed_end(s.drop_last());
        assert(trimmed_end(s) =~= s.take(trimmed_end(s).len() as int));
    }
}

/// Trimming a trimmed text changes nothing.
pub proof fn lemma_trimmed_idempotent(s: Seq<char>)
    ensures
        trimmed(trimmed(s)) == trimmed(s),
{
    lemma_trimmed_start(s);
    lemma_trimmed_end(trimmed_start(s));
    let t = trimmed(s);
    if t.len() > 0 {
        assert(t[0] == trimmed_start(s)[0]);
    }
}

/// Trimming keeps a stretch of the text, and all outside of the stretch is white space.
pub proof fn lemma_trimmed_stretch(s: Seq<char>)
    ensures
        exists|from: int, to: int|
            {
                &&& 0 <= from <= to <= s.len()
                &&& trimmed(s) == #[trigger] s.subrange(from, to)
                &&& forall|i: int|
                    0 <= i < s.len() && !(from <= i < to) ==> is_white_space(#[trigger] s[i])
            },
        trimmed(s).len() > 0 ==> !is_white_space(trimmed(s)[0]) && !is_white_space(
            trimmed(s).last(),
        ),
{
    let start = trimmed_start(s);
    let from = s.len() - start.len();
    let to = from + trimmed(s).len();
    lemma_trimmed_start_cut(s);
    lemma_trimmed_start(s);
    lemma_trimmed_end(start);
    lemma_trimmed_end_cut(start);
    assert(s.subrange(from, to) =~= trimmed(s)) by {
        assert(trimmed(s) =~= start.take(trimmed(s).len() as int));
    }
    assert forall|i: int| 0 <= i < s.len() && !(from <= i < to) implies is_white_space(
        #[trigger] s[i],
    ) by {
        if i >= to {
            assert(s[i] == start[i - from]);
        }
    }
    if trimmed(s).len() > 0 {
        assert(trimmed(s)[0] == start[0]);
    }
}

/// What trimming the start leaves is a suffix of the text, and white space precedes it.
proof fn lemma_trimmed_start_cut(s: Seq<char>)
    ensures
        trimmed_start(s).len() <= s.len(),
        trimmed_start(s) == s.skip(s.len() - trimmed_start(s).len()),
        forall|i: int|
            0 <= i < s.len() - trimmed_start(s).len() ==> is_white_space(#[trigger] s[i]),
    decreases s.len(),
{
    if s.len() > 0 && is_white_space(s[0]) {
        let rest = s.drop_first();
        lemma_trimmed_start_cut(rest);
        assert(trimmed_start(s) =~= s.skip(s.len() - trimmed_start(s).len()));
        assert forall|i: int| 0 <= i < s.len() - trimmed_start(s).len() implies is_white_space(
            #[trigger] s[i],
        ) by {
            if i > 0 {
                assert(s[i] == rest[i - 1]);
            }
        }
    } else {
        assert(s.skip(0) =~= s);
    }
}

/// White space follows what trimming the end leaves.
proof fn lemma_trimmed_end_cut(s: Seq<char>)
    ensures
        trimmed_end(s).len() <= s.len(),
        forall|i: int| trimmed_end(s).len() <= i < s.len() ==> is_white_space(#[trigger] s[i]),
    decreases s.len(),
{
    if s.len() > 0 && is_white_space(s.last()) {
        let rest = s.drop_last();
        lemma_trimmed_end_cut(rest);
        assert forall|i: int| trimmed_end(s).len() <= i < s.len() implies is_white_space(
            #[trigger] s[i],
        ) by {
            if i < rest.len() {
                assert(s[i] == rest[i]);
            }
        }
    }
}

/// The two parts of a split text, with the separator between them, are the text.
pub proof fn lemma_split_rejoins(s: Seq<char>, c: char)
    ensures
        split_at_first(s, c) matches Some((head, tail)) ==> head + seq![c] + tail == s,
{
    lemma_first_index(s, c);
    if s.contains(c) {
        let i = first_index(s, c);
        assert(s.take(i) + seq![c] + s.skip(i + 1) =~= s);
    }
}

/// Whether `c` is white space.
pub fn white_space(c: char) -> (b: bool)
    ensures
        b == is_white_space(c),
{
    ('\u{9}' <= c && c <= '\u{d}') || c == '\u{20}' || c == '\u{85}' || c == '\u{a0}' || c
        == '\u{1680}' || ('\u{2000}' <= c && c <= '\u{200a}') || c == '\u{2028}' || c == '\u{2029}'
        || c == '\u{202f}' || c == '\u{205f}' || c == '\u{3000}'
}

/// The characters of `s`, in order.
fn chars_of(s: &str) -> (chars: Vec<char>)
    ensures
        chars@ == s@,
{
    let mut chars: Vec<char> = Vec::new();
    for c in it: s.chars()
        invariant
            chars@ == it.seq().take(it.index()),
            it.seq() == s@,
    {
        chars.push(c);
        assert(chars@ =~= it.seq().take(it.index() + 1));
    }
    chars
}

/// Whether the two strings hold the same characters.
pub fn same(a: &str, b: &str) -> (r: bool)
    ensures
        r == (a@ == b@),
{
    a.to_owned() == b.to_owned()
}

/// `s` without its leading and trailing white space.
pub fn trim<'a>(s: &'a str) -> (t: &'a str)
    ensures
        t@ == trimmed(s@),
{
    let chars = chars_of(s);
    let mut from: usize = 0;
    assert(s@.skip(0) =~= s@);
    while from < chars.len() && white_space(chars[from])
        invariant
            chars@ == s@,
            from <= chars.len(),
            trimmed_start(s@) == trimmed_start(s@.skip(from as int)),
        decreases chars.len() - from,
    {
        assert(s@.skip(from as int).drop_first() =~= s@.skip(from + 1));
        from += 1;
    }
    let mut to: usize = chars.len();
    assert(trimmed_start(s@) == s@.skip(from as int));
    assert(s@.skip(from as int) =~= s@.subrange(from as int, to as int));
    while from < to && white_space(chars[to - 1])
        invariant
            chars@ == s@,
            from <= to <= chars.len(),
            trimmed(s@) == trimmed_end(s@.subrange(from as int, to as int)),
        decreases to,
    {
        assert(s@.subrange(from as int, to as int).drop_last() =~= s@.subrange(
            from as int,
            to - 1,
        ));
        to -= 1;
    }
    s.substring_char(from, to)
}

/// What stands before and after the first `sep` in `s`; `None` where `s` holds no `sep`.
pub fn split_once<'a>(s: &'a str, sep: char) -> (r: Option<(&'a str, &'a str)>)
    ensures
        r is Some == split_at_first(s@, sep) is Some,
        r matches Some((head, tail)) ==> split_at_first(s@, sep) == Some((head@, tail@)),
{
    let chars = chars_of(s);
    let len: usize = chars.len();
    let mut at: usize = 0;
    assert(s@.skip(0) =~= s@);
    while at < len && chars[at] != sep
        invariant
            chars@ == s@,
            len == chars.len(),
            at <= len,
            first_index(s@, sep) == at + first_index(s@.skip(at as int), sep),
        decreases len - at,
    {
        assert(s@.skip(at as int).drop_first() =~= s@.skip(at + 1));
        at += 1;
    }
    proof {
        lemma_first_index(s@, sep);
    }
    if at == len {
        return None;
    }
    let head = s.substring_char(0, at);
    let tail = s.substring_char(at + 1, len);
    assert(head@ =~= s@.take(at as int));
    assert(tail@ =~= s@.skip(at + 1));
    Some((head, tail))
}

/// What follows `prefix` in `s`; `None` where `s` does not begin with it.
pub fn strip_prefix<'a>(s: &'a str, prefix: &str) -> (r: Option<&'a str>)
    ensures
        str_view(r) == after_prefix(s@, prefix@),
{
    let len: usize = s.unicode_len();
    let n: usize = prefix.unicode_len();
    if n > len || !same(s.substring_char(0, n), prefix) {
        assert(n <= len && prefix@.is_prefix_of(s@) ==> s@.subrange(0, n as int) =~= prefix@);
        return None;
    }
    assert(prefix@.is_prefix_of(s@));
    let rest = s.substring_char(n, len);
    assert(rest@ =~= s@.skip(n as int));
    Some(rest)
}

} // verus!
