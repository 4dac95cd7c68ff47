//! Text primitives shared by the planners, the normaliser and the report writers.
//!
//! Text is modelled as `Seq<char>`, the view of `str` and `String`.

use vstd::prelude::*;
use vstd::string::*;

verus! {

/// `String::push` appends one character to the end of the string.
pub assume_specification[ String::push ](s: &mut String, c: char)
    ensures
        final(s)@ == old(s)@.push(c),
;

/// The texts that a sequence of strings holds, in order.
pub open spec fn texts(v: Seq<String>) -> Seq<Seq<char>> {
    Seq::new(v.len(), |i: int| v[i]@)
}

/// Appends a copy of `s` to `list`.
pub fn push_text(list: &mut Vec<String>, s: &str)
    ensures
        texts(final(list)@) == texts(old(list)@).push(s@),
{
    list.push(String::from_str(s));
    assert(texts(list@) =~= texts(old(list)@).push(s@));
}

/// The characters of `s`, in order.
pub fn chars_of(s: &str) -> (v: Vec<char>)
    ensures
        v@ == s@,
{
    let mut v: Vec<char> = Vec::new();
    for c in it: s.chars()
        invariant
            v@ == it.seq().take(it.index() as int),
    {
        v.push(c);
    }
    v
}

/// The text made of the characters `v[from..to]`.
pub(crate) fn text_between(v: &Vec<char>, from: usize, to: usize) -> (s: String)
    requires
        from <= to <= v.len(),
    ensures
        s@ == v@.subrange(from as int, to as int),
{
    let mut s = String::new();
    let mut i: usize = from;
    while i < to
        invariant
            from <= i <= to <= v.len(),
            s@ == v@.subrange(from as int, i as int),
        decreases to - i,
    {
        s.push(v[i]);
        i += 1;
    }
    s
}

/// Whether two texts hold the same characters.
pub fn same_text(a: &str, b: &str) -> (r: bool)
    ensures
        r == (a@ == b@),
{
    let x = chars_of(a);
    let y = chars_of(b);
    if x.len() != y.len() {
        return false;
    }
    let mut i: usize = 0;
    while i < x.len()
        invariant
            i <= x.len() == y.len(),
            x@ == a@,
            y@ == b@,
            x@.subrange(0, i as int) == y@.subrange(0, i as int),
        decreases x.len() - i,
    {
        if x[i] != y[i] {
            return false;
        }
        assert(x@.subrange(0, i + 1) == x@.subrange(0, i as int).push(x@[i as int]));
        assert(y@.subrange(0, i + 1) == y@.subrange(0, i as int).push(y@[i as int]));
        i += 1;
    }
    assert(x@ == x@.subrange(0, x.len() as int));
    assert(y@ == y@.subrange(0, y.len() as int));
    true
}

/// `needle` stands in `hay` at position `at`.
pub open spec fn occurs_at(needle: Seq<char>, hay: Seq<char>, at: int) -> bool {
    &&& 0 <= at
    &&& at + needle.len() <= hay.len()
    &&& hay.subrange(at, at + needle.len()) == needle
}

/// `needle` stands somewhere in `hay`. The empty text stands in every text.
pub open spec fn occurs_in(needle: Seq<char>, hay: Seq<char>) -> bool {
    exists|at: int| occurs_at(needle, hay, at)
}

pub(crate) fn matches_at(hay: &Vec<char>, needle: &Vec<char>, at: usize) -> (r: bool)
    requires
        at + needle.len() <= hay.len(),
    ensures
        r == occurs_at(needle@, hay@, at as int),
{
    let mut j: usize = 0;
    while j < needle.len()
        invariant
            j <= needle.len(),
            at + needle.len() <= hay.len(),
            hay@.subrange(at as int, at + j) == needle@.subrange(0, j as int),
        decreases needle.len() - j,
    {
        if hay[at + j] != needle[j] {
            assert(hay@.subrange(at as int, at + needle.len())[j as int] != needle@[j as int]);
            return false;
        }
        assert(hay@.subrange(at as int, at + j + 1) == hay@.subrange(at as int, at + j).push(
            hay@[at + j],
        ));
        assert(needle@.subrange(0, j + 1) == needle@.subrange(0, j as int).push(needle@[j as int]));
        j += 1;
    }
    assert(needle@ == needle@.subrange(0, needle.len() as int));
    true
}

/// Whether `needle` stands somewhere in `hay`.
pub fn contains_text(hay: &str, needle: &str) -> (r: bool)
    ensures
        r == occurs_in(needle@, hay@),
{
    let h = chars_of(hay);
    let n = chars_of(needle);
    if n.len() > h.len() {
        return false;
    }
    if n.len() == 0 {
        assert(h@.subrange(0, 0) =~= n@);
        assert(occurs_at(n@, h@, 0));
        return true;
    }
    let bound: usize = h.len() - n.len() + 1;
    let mut at: usize = 0;
    while at < bound
        invariant
            at <= bound,
            bound == h.len() - n.len() + 1,
            h@ == hay@,
            n@ == needle@,
            forall|k: int| 0 <= k < at ==> !occurs_at(n@, h@, k),
        decreases bound - at,
    {
        if matches_at(&h, &n, at) {
            return true;
        }
        at += 1;
    }
    false
}

/// How often `pattern` stands in `text`, counted by where each occurrence
/// ends. Occurrences that overlap count each. For a pattern that is not empty.
pub open spec fn occurrences(pattern: Seq<char>, text: Seq<char>) -> nat
    decreases text.len(),
{
    if text.len() == 0 || text.len() < pattern.len() {
        0
    } else {
        occurrences(pattern, text.drop_last()) + if occurs_at(
            pattern,
            text,
            text.len() - pattern.len(),
        ) {
            1nat
        } else {
            0nat
        }
    }
}

/// What stands in `a` from position `i` to its end is a beginning of `pattern`.
pub open spec fn tail_starts(a: Seq<char>, pattern: Seq<char>, i: int) -> bool {
    a.subrange(i, a.len() as int) == pattern.subrange(0, a.len() - i)
}

/// No end of `a` that is shorter than `pattern` is a beginning of `pattern`:
/// no occurrence can begin in `a` and go on behind it.
pub open spec fn clean_tail(a: Seq<char>, pattern: Seq<char>) -> bool {
    forall|i: int|
        0 <= i < a.len() && a.len() < i + pattern.len() ==> !#[trigger] tail_starts(a, pattern, i)
}

/// The first `k` characters of `b` are the last `k` characters of `pattern`.
pub open spec fn head_ends(b: Seq<char>, pattern: Seq<char>, k: int) -> bool {
    b.subrange(0, k) == pattern.subrange(pattern.len() - k, pattern.len() as int)
}

/// No beginning of `b` that is shorter than `pattern` is an end of `pattern`:
/// no occurrence can begin before `b` and end in it.
pub open spec fn clean_head(b: Seq<char>, pattern: Seq<char>) -> bool {
    forall|k: int|
        1 <= k < pattern.len() && k <= b.len() ==> !#[trigger] head_ends(b, pattern, k)
}

/// Where no occurrence can lie across the seam of two texts, the occurrences
/// in the whole are those in the two parts.
pub proof fn lemma_occurrences_concat(pattern: Seq<char>, a: Seq<char>, b: Seq<char>)
    requires
        clean_tail(a, pattern) || clean_head(b, pattern),
    ensures
        occurrences(pattern, a + b) == occurrences(pattern, a) + occurrences(pattern, b),
    decreases b.len(),
{
    let m = pattern.len() as int;
    let t = a + b;
    if b.len() == 0 {
        assert(t =~= a);
    } else {
        let rest = b.drop_last();
        assert(t.drop_last() =~= a + rest);
        if clean_head(b, pattern) {
            assert forall|k: int| 1 <= k < m && k <= rest.len() implies !#[trigger] head_ends(
                rest,
                pattern,
                k,
            ) by {
                assert(rest.subrange(0, k) =~= b.subrange(0, k));
                assert(!head_ends(b, pattern, k));
            }
        }
        lemma_occurrences_concat(pattern, a, rest);
        if t.len() >= m {
            let i = t.len() - m;
            if b.len() >= m {
                assert(t.subrange(i, i + m) =~= b.subrange(b.len() - m, b.len() as int));
            } else if occurs_at(pattern, t, i) {
                let whole = t.subrange(i, i + m);
                assert forall|j: int| 0 <= j < a.len() - i implies a.subrange(i, a.len() as int)[j]
                    == pattern.subrange(0, a.len() - i)[j] by {
                    assert(whole[j] == t[i + j]);
                }
                assert(a.subrange(i, a.len() as int) =~= pattern.subrange(0, a.len() - i));
                assert(tail_starts(a, pattern, i));
                assert forall|j: int| 0 <= j < b.len() implies b.subrange(0, b.len() as int)[j]
                    == pattern.subrange(m - b.len(), m)[j] by {
                    assert(whole[m - b.len() + j] == t[a.len() + j]);
                }
                assert(b.subrange(0, b.len() as int) =~= pattern.subrange(m - b.len(), m));
                assert(head_ends(b, pattern, b.len() as int));
                assert(false);
            }
        }
    }
}

/// A text in which the pattern stands nowhere counts no occurrence.
pub proof fn lemma_no_occurrence(pattern: Seq<char>, text: Seq<char>)
    requires
        !occurs_in(pattern, text),
    ensures
        occurrences(pattern, text) == 0,
    decreases text.len(),
{
    if text.len() > 0 && text.len() >= pattern.len() {
        let rest = text.drop_last();
        assert forall|at: int| !occurs_at(pattern, rest, at) by {
            if occurs_at(pattern, rest, at) {
                assert(rest.subrange(at, at + pattern.len()) =~= text.subrange(
                    at,
                    at + pattern.len(),
                ));
                assert(occurs_at(pattern, text, at));
            }
        }
        lemma_no_occurrence(pattern, rest);
        assert(!occurs_at(pattern, text, text.len() - pattern.len()));
    }
}

/// A text that lacks one character of the pattern holds the pattern nowhere.
pub proof fn lemma_lacking_a_character(pattern: Seq<char>, text: Seq<char>, k: int)
    requires
        0 <= k < pattern.len(),
        forall|j: int| 0 <= j < text.len() ==> text[j] != pattern[k],
    ensures
        !occurs_in(pattern, text),
        occurrences(pattern, text) == 0,
{
    assert forall|at: int| !occurs_at(pattern, text, at) by {
        if occurs_at(pattern, text, at) {
            assert(text.subrange(at, at + pattern.len())[k] == text[at + k]);
        }
    }
    lemma_no_occurrence(pattern, text);
}

/// What stands in `a` at position `i` differs from the beginning of
/// `pattern` in its first character, or in its second.
pub open spec fn starts_unlike(a: Seq<char>, pattern: Seq<char>, i: int) -> bool {
    a[i] != pattern[0] || (i + 1 < a.len() && a[i + 1] != pattern[1])
}

/// A text whose last characters do not begin like the pattern has a clean tail.
pub proof fn lemma_clean_tail(a: Seq<char>, pattern: Seq<char>)
    requires
        pattern.len() >= 2,
        forall|i: int|
            0 <= i < a.len() && a.len() < i + pattern.len() ==> #[trigger] starts_unlike(
                a,
                pattern,
                i,
            ),
    ensures
        clean_tail(a, pattern),
{
    assert forall|i: int| 0 <= i < a.len() && a.len() < i + pattern.len() implies !#[trigger] tail_starts(
        a,
        pattern,
        i,
    ) by {
        assert(starts_unlike(a, pattern, i));
        if tail_starts(a, pattern, i) {
            let tail = a.subrange(i, a.len() as int);
            let start = pattern.subrange(0, a.len() - i);
            assert(tail[0] == a[i] && start[0] == pattern[0]);
            if i + 1 < a.len() {
                assert(tail[1] == a[i + 1] && start[1] == pattern[1]);
            }
        }
    }
}

/// A text that begins with a character that the pattern lacks has a clean head.
pub proof fn lemma_clean_head(b: Seq<char>, pattern: Seq<char>)
    requires
        b.len() > 0 ==> forall|k: int| 0 <= k < pattern.len() ==> pattern[k] != b[0],
    ensures
        clean_head(b, pattern),
{
    assert forall|k: int| 1 <= k < pattern.len() && k <= b.len() implies !#[trigger] head_ends(
        b,
        pattern,
        k,
    ) by {
        if head_ends(b, pattern, k) {
            assert(b.subrange(0, k)[0] == b[0]);
            assert(pattern.subrange(pattern.len() - k, pattern.len() as int)[0] == pattern[
                pattern.len() - k
            ]);
        }
    }
}

/// The tail of a text that ends with `l` is as clean as the tail of `l`,
/// where `l` is long enough to hold every beginning of the pattern.
pub proof fn lemma_clean_tail_of_concat(x: Seq<char>, l: Seq<char>, pattern: Seq<char>)
    requires
        l.len() + 1 >= pattern.len(),
        clean_tail(l, pattern),
    ensures
        clean_tail(x + l, pattern),
{
    let t = x + l;
    assert forall|i: int| 0 <= i < t.len() && t.len() < i + pattern.len() implies !#[trigger] tail_starts(
        t,
        pattern,
        i,
    ) by {
        let j = i - x.len();
        assert(0 <= j < l.len());
        assert(t.subrange(i, t.len() as int) =~= l.subrange(j, l.len() as int));
        assert(!tail_starts(l, pattern, j));
    }
}

/// A text that lacks one character of the pattern, and whose last characters
/// are not the first of the pattern, counts no occurrence and has a clean tail.
pub proof fn lemma_calm(l: Seq<char>, pattern: Seq<char>, k: int)
    requires
        pattern.len() >= 2,
        0 <= k < pattern.len(),
        forall|j: int| 0 <= j < l.len() ==> l[j] != pattern[k],
        forall|i: int| 0 <= i < l.len() && l.len() < i + pattern.len() ==> l[i] != pattern[0],
    ensures
        occurrences(pattern, l) == 0,
        clean_tail(l, pattern),
{
    lemma_lacking_a_character(pattern, l, k);
    assert forall|i: int| 0 <= i < l.len() && l.len() < i + pattern.len() implies #[trigger] starts_unlike(
        l,
        pattern,
        i,
    ) by {
        assert(l[i] != pattern[0]);
    }
    lemma_clean_tail(l, pattern);
}

/// A frame is a fixed text between two fields that no occurrence can reach
/// into from either side. Behind a text `x`, a frame and a field add the
/// occurrences of the field and no other.
pub proof fn lemma_occurrences_framed(
    pattern: Seq<char>,
    x: Seq<char>,
    frame: Seq<char>,
    field: Seq<char>,
)
    requires
        clean_head(frame, pattern),
        clean_tail(frame, pattern),
        frame.len() + 1 >= pattern.len(),
        occurrences(pattern, frame) == 0,
    ensures
        occurrences(pattern, x + frame + field) == occurrences(pattern, x) + occurrences(
            pattern,
            field,
        ),
{
    lemma_occurrences_concat(pattern, x, frame);
    lemma_clean_tail_of_concat(x, frame, pattern);
    lemma_occurrences_concat(pattern, x + frame, field);
}

/// Whether `c` is white space: the characters that `char::is_whitespace` accepts.
pub open spec fn is_blank(c: char) -> bool {
    let n = c as u32;
    ||| 0x09 <= n <= 0x0D
    ||| n == 0x20
    ||| n == 0x85
    ||| n == 0xA0
    ||| n == 0x1680
    ||| 0x2000 <= n <= 0x200A
    ||| n == 0x2028
    ||| n == 0x2029
    ||| n == 0x202F
    ||| n == 0x205F
    ||| n == 0x3000
}

/// Whether `c` is white space.
pub fn is_blank_char(c: char) -> (r: bool)
    ensures
        r == is_blank(c),
{
    let n: u32 = c as u32;
    (0x09 <= n && n <= 0x0D) || n == 0x20 || n == 0x85 || n == 0xA0 || n == 0x1680 || (0x2000 <= n
        && n <= 0x200A) || n == 0x2028 || n == 0x2029 || n == 0x202F || n == 0x205F || n == 0x3000
}

/// The position of the last character of `t` that is not white space, or -1
/// where `t` holds none.
pub open spec fn last_ink(t: Seq<char>) -> int
    decreases t.len(),
{
    if t.len() == 0 {
        -1
    } else if !is_blank(t.last()) {
        t.len() - 1
    } else {
        last_ink(t.drop_last())
    }
}

/// Where the line that holds position `p` begins: just after the nearest line
/// feed before `p`, or at 0.
pub open spec fn line_start(t: Seq<char>, p: int) -> int
    decreases p,
{
    if p <= 0 {
        0
    } else if t[p - 1] == '\n' {
        p
    } else {
        line_start(t, p - 1)
    }
}

/// Where the line that holds position `p` stops: at the nearest line feed at or
/// after `p`, or at the end of the text.
pub open spec fn line_stop(t: Seq<char>, p: int) -> int
    decreases t.len() - p,
{
    if p >= t.len() {
        t.len() as int
    } else if t[p] == '\n' {
        p
    } else {
        line_stop(t, p + 1)
    }
}

/// The last line of `t` that holds a character other than white space.
///
/// Lines end at a line feed; a carriage return directly before that line feed
/// belongs to the line ending. The result is `None` exactly where `t` is white
/// space throughout.
pub open spec fn last_non_blank_line(t: Seq<char>) -> Option<Seq<char>> {
    let p = last_ink(t);
    if p < 0 {
        None
    } else {
        let from = line_start(t, p);
        let stop = line_stop(t, p);
        let to = if stop < t.len() && t[stop - 1] == '\r' {
            stop - 1
        } else {
            stop
        };
        Some(t.subrange(from, to))
    }
}

proof fn lemma_last_ink_bounds(t: Seq<char>)
    ensures
        -1 <= last_ink(t) < t.len(),
        last_ink(t) >= 0 ==> !is_blank(t[last_ink(t)]),
    decreases t.len(),
{
    if t.len() > 0 && is_blank(t.last()) {
        lemma_last_ink_bounds(t.drop_last());
    }
}

fn find_last_ink(v: &Vec<char>) -> (r: Option<usize>)
    ensures
        match r {
            Some(p) => p == last_ink(v@),
            None => last_ink(v@) == -1,
        },
{
    let mut i: usize = v.len();
    assert(v@ == v@.subrange(0, i as int));
    while i > 0
        invariant
            i <= v.len(),
            last_ink(v@) == last_ink(v@.subrange(0, i as int)),
        decreases i,
    {
        if !is_blank_char(v[i - 1]) {
            return Some(i - 1);
        }
        assert(v@.subrange(0, i as int).drop_last() == v@.subrange(0, i - 1));
        i -= 1;
    }
    None
}

/// The last line of `text` that is not blank, as `last_non_blank_line` defines it.
pub fn find_last_non_blank_line(text: &str) -> (r: Option<String>)
    ensures
        match r {
            Some(line) => last_non_blank_line(text@) == Some(line@),
            None => last_non_blank_line(text@) is None,
        },
{
    let v = chars_of(text);
    proof {
        lemma_last_ink_bounds(v@);
    }
    match find_last_ink(&v) {
        None => None,
        Some(p) => {
            let mut from: usize = p;
            while from > 0 && v[from - 1] != '\n'
                invariant
                    from <= p < v.len(),
                    line_start(v@, p as int) == line_start(v@, from as int),
                decreases from,
            {
                from -= 1;
            }
            let mut stop: usize = p;
            while stop < v.len() && v[stop] != '\n'
                invariant
                    p <= stop <= v.len(),
                    line_stop(v@, p as int) == line_stop(v@, stop as int),
                    forall|k: int| p <= k < stop ==> v@[k] != '\n',
                decreases v.len() - stop,
            {
                stop += 1;
            }
            assert(stop > p);
            let to: usize = if stop < v.len() && v[stop - 1] == '\r' {
                stop - 1
            } else {
                stop
            };
            Some(text_between(&v, from, to))
        },
    }
}

/// The character for the decimal digit `d`.
pub open spec fn digit(d: int) -> char {
    if d == 0 {
        '0'
    } else if d == 1 {
        '1'
    } else if d == 2 {
        '2'
    } else if d == 3 {
        '3'
    } else if d == 4 {
        '4'
    } else if d == 5 {
        '5'
    } else if d == 6 {
        '6'
    } else if d == 7 {
        '7'
    } else if d == 8 {
        '8'
    } else {
        '9'
    }
}

/// The decimal notation of `n`, without sign or leading zeros.
pub open spec fn decimal(n: nat) -> Seq<char>
    decreases n,
{
    if n < 10 {
        seq![digit(n as int)]
    } else {
        decimal(n / 10).push(digit((n % 10) as int))
    }
}

/// The decimal notation holds at least one digit.
pub proof fn lemma_decimal_is_not_empty(n: nat)
    ensures
        decimal(n).len() >= 1,
    decreases n,
{
    if n >= 10 {
        lemma_decimal_is_not_empty(n / 10);
    }
}

/// Different numbers have different decimal notations.
pub proof fn lemma_decimal_is_injective(a: nat, b: nat)
    requires
        decimal(a) == decimal(b),
    ensures
        a == b,
    decreases a,
{
    if a < 10 && b < 10 {
        assert(decimal(a)[0] == digit(a as int));
        assert(decimal(b)[0] == digit(b as int));
        assert(a == b);
    } else if a < 10 {
        lemma_decimal_is_not_empty(b / 10);
        assert(decimal(a).len() == 1);
        assert(decimal(b).len() >= 2);
    } else if b < 10 {
        lemma_decimal_is_not_empty(a / 10);
        assert(decimal(b).len() == 1);
        assert(decimal(a).len() >= 2);
    } else {
        assert(decimal(a).last() == digit((a % 10) as int));
        assert(decimal(b).last() == digit((b % 10) as int));
        assert(a % 10 == b % 10);
        assert(decimal(a).drop_last() =~= decimal(a / 10));
        assert(decimal(b).drop_last() =~= decimal(b / 10));
        lemma_decimal_is_injective(a / 10, b / 10);
        assert(a / 10 == b / 10);
        assert(a == b);
    }
}

/// What stands between the same two texts is the same if the whole is.
pub proof fn lemma_middle_is_determined(
    before: Seq<char>,
    x: Seq<char>,
    y: Seq<char>,
    after: Seq<char>,
)
    requires
        before + x + after == before + y + after,
    ensures
        x == y,
{
    let whole_x = before + x + after;
    let whole_y = before + y + after;
    assert(whole_x.len() == before.len() + x.len() + after.len());
    assert(whole_y.len() == before.len() + y.len() + after.len());
    assert forall|i: int| 0 <= i < x.len() implies x[i] == y[i] by {
        assert(whole_x[before.len() + i] == x[i]);
        assert(whole_y[before.len() + i] == y[i]);
    }
    assert(x =~= y);
}

fn digit_char(d: u32) -> (c: char)
    requires
        d < 10,
    ensures
        c == digit(d as int),
{
    if d == 0 {
        '0'
    } else if d == 1 {
        '1'
    } else if d == 2 {
        '2'
    } else if d == 3 {
        '3'
    } else if d == 4 {
        '4'
    } else if d == 5 {
        '5'
    } else if d == 6 {
        '6'
    } else if d == 7 {
        '7'
    } else if d == 8 {
        '8'
    } else {
        '9'
    }
}

/// Appends the decimal notation of `n` to `out`.
pub fn push_decimal(out: &mut String, n: u32)
    ensures
        final(out)@ == old(out)@ + decimal(n as nat),
    decreases n,
{
    if n >= 10 {
        push_decimal(out, n / 10);
    }
    out.push(digit_char(n % 10));
}

/// The lower-case form of a text, as `str::to_lowercase` computes it from the
/// Unicode case mappings.
pub uninterp spec fn lowercase_of(s: Seq<char>) -> Seq<char>;

/// `str::to_lowercase`: the result is the lower-case form of `s`, a function of
/// the characters of `s` alone.
#[verifier::external_body]
pub(crate) fn lowercase(s: &str) -> (r: String)
    ensures
        r@ == lowercase_of(s@),
{
    s.to_lowercase()
}

/// The text that `String::from_utf8_lossy` makes of `bytes`: the decoded
/// characters, with the replacement character in place of what is not UTF-8.
pub uninterp spec fn lossy_text(bytes: Seq<u8>) -> Seq<char>;

/// `String::from_utf8_lossy`: the result is the lossy text of `bytes`, a
/// function of the bytes alone.
#[verifier::external_body]
pub(crate) fn decode_lossy(bytes: &[u8]) -> (r: String)
    ensures
        r@ == lossy_text(bytes@),
{
    String::from_utf8_lossy(bytes).into_owned()
}

/// The text that bytes encode in UTF-8, or `None` where they are not UTF-8.
pub open spec fn strict_text(bytes: Seq<u8>) -> Option<Seq<char>> {
    if vstd::utf8::valid_utf8(bytes) {
        Some(vstd::utf8::decode_utf8(bytes))
    } else {
        None
    }
}

/// The text of a string that may be absent.
pub open spec fn text_of(s: Option<String>) -> Option<Seq<char>> {
    match s {
        Some(s) => Some(s@),
        None => None,
    }
}

/// `String::from_utf8`: succeeds exactly on valid UTF-8, and then holds the
/// characters that the bytes encode.
#[verifier::external_body]
pub(crate) fn decode_strict(bytes: &[u8]) -> (r: Option<String>)
    ensures
        text_of(r) == strict_text(bytes@),
{
    String::from_utf8(bytes.to_vec()).ok()
}

} // verus!
