//! Text helpers over sequences of characters.
//!
//! Strings are modelled by their view, a `Seq<char>`. The functions here turn
//! a string into its characters once and then work on indices, so that every
//! comparison, trim and split is proved against a specification over `Seq`.

use vstd::prelude::*;
use vstd::string::*;

verus! {

/// `suffix` closes `text`.
pub open spec fn ends_with(text: Seq<char>, suffix: Seq<char>) -> bool {
    suffix.len() <= text.len() && text.subrange(text.len() - suffix.len(), text.len() as int)
        == suffix
}

/// `prefix` opens `text`.
pub open spec fn starts_with(text: Seq<char>, prefix: Seq<char>) -> bool {
    prefix.len() <= text.len() && text.subrange(0, prefix.len() as int) == prefix
}

/// The character that writes the digit `d`.
pub open spec fn digit_char(d: nat) -> char {
    if d == 0 {
        '0'
    } else if d == 1 {
        '1'
    } else if d == 2 {
        '2'
    } else if d == 3 {
        '3'
    } else if d == 4 {
        '4'
    } else if d == 5 {
        '5'
    } else if d == 6 {
        '6'
    } else if d == 7 {
        '7'
    } else if d == 8 {
        '8'
    } else {
        '9'
    }
}

/// Decimal notation of `n`, without sign or leading zeros.
pub open spec fn decimal(n: nat) -> Seq<char>
    decreases n,
{
    if n < 10 {
        seq![digit_char(n)]
    } else {
        decimal(n / 10).push(digit_char(n % 10))
    }
}

/// The characters of a string, in order.
pub fn chars_of(s: &str) -> (r: Vec<char>)
    ensures
        r@ == s@,
{
    let mut v: Vec<char> = Vec::new();
    for c in it: s.chars()
        invariant
            it.seq() == s@,
            v@ == it.seq().take(it.index() as int),
    {
        v.push(c);
    }
    v
}

/// Whether `a[a_from..a_to]` and `b[b_from..b_to]` hold the same characters.
pub fn same_range(
    a: &Vec<char>,
    a_from: usize,
    a_to: usize,
    b: &Vec<char>,
    b_from: usize,
    b_to: usize,
) -> (r: bool)
    requires
        a_from <= a_to <= a.len(),
        b_from <= b_to <= b.len(),
    ensures
        r == (a@.subrange(a_from as int, a_to as int) == b@.subrange(b_from as int, b_to as int)),
{
    if a_to - a_from != b_to - b_from {
        assert(a@.subrange(a_from as int, a_to as int).len() != b@.subrange(
            b_from as int,
            b_to as int,
        ).len());
        return false;
    }
    let n = a_to - a_from;
    let ghost left = a@.subrange(a_from as int, a_to as int);
    let ghost right = b@.subrange(b_from as int, b_to as int);
    let mut i: usize = 0;
    while i < n
        invariant
            a_from <= a_to <= a.len(),
            b_from <= b_to <= b.len(),
            n == a_to - a_from,
            n == b_to - b_from,
            i <= n,
            left == a@.subrange(a_from as int, a_to as int),
            right == b@.subrange(b_from as int, b_to as int),
            forall|k: int| 0 <= k < i ==> left[k] == right[k],
        decreases n - i,
    {
        if a[a_from + i] != b[b_from + i] {
            assert(left[i as int] != right[i as int]);
            return false;
        }
        i += 1;
    }
    assert(left =~= right);
    true
}

/// Whether two character vectors are equal.
pub fn same_chars(a: &Vec<char>, b: &Vec<char>) -> (r: bool)
    ensures
        r == (a@ == b@),
{
    assert(a@.subrange(0, a@.len() as int) =~= a@);
    assert(b@.subrange(0, b@.len() as int) =~= b@);
    same_range(a, 0, a.len(), b, 0, b.len())
}

/// Whether two strings are equal, character by character.
pub fn same_text(a: &str, b: &str) -> (r: bool)
    ensures
        r == (a@ == b@),
{
    let x = chars_of(a);
    let y = chars_of(b);
    same_chars(&x, &y)
}

/// Whether `text` ends with `suffix`.
pub fn chars_end_with(text: &Vec<char>, suffix: &Vec<char>) -> (r: bool)
    ensures
        r == ends_with(text@, suffix@),
{
    if suffix.len() > text.len() {
        return false;
    }
    assert(suffix@.subrange(0, suffix@.len() as int) =~= suffix@);
    same_range(text, text.len() - suffix.len(), text.len(), suffix, 0, suffix.len())
}

/// Whether `text` starts with `prefix`.
pub fn chars_start_with(text: &Vec<char>, prefix: &Vec<char>) -> (r: bool)
    ensures
        r == starts_with(text@, prefix@),
{
    if prefix.len() > text.len() {
        return false;
    }
    assert(prefix@.subrange(0, prefix@.len() as int) =~= prefix@);
    same_range(text, 0, prefix.len(), prefix, 0, prefix.len())
}

/// The one-character string for a digit.
fn digit_text(d: u64) -> (r: &'static str)
    requires
        d < 10,
    ensures
        r@ == seq![digit_char(d as nat)],
{
    proof {
        reveal_strlit("0");
        reveal_strlit("1");
        reveal_strlit("2");
        reveal_strlit("3");
        reveal_strlit("4");
        reveal_strlit("5");
        reveal_strlit("6");
        reveal_strlit("7");
        reveal_strlit("8");
        reveal_strlit("9");
    }
    let r = if d == 0 {
        "0"
    } else if d == 1 {
        "1"
    } else if d == 2 {
        "2"
    } else if d == 3 {
        "3"
    } else if d == 4 {
        "4"
    } else if d == 5 {
        "5"
    } else if d == 6 {
        "6"
    } else if d == 7 {
        "7"
    } else if d == 8 {
        "8"
    } else {
        "9"
    };
    assert(r@ =~= seq![digit_char(d as nat)]);
    r
}

/// Writes `n` in decimal.
pub fn decimal_text(n: u64) -> (r: String)
    ensures
        r@ == decimal(n as nat),
    decreases n,
{
    if n < 10 {
        String::from_str(digit_text(n))
    } else {
        let mut s = decimal_text(n / 10);
        s.append(digit_text(n % 10));
        assert(s@ =~= decimal((n / 10) as nat).push(digit_char((n % 10) as nat)));
        s
    }
}

/// White space, as Unicode defines it.
pub open spec fn is_space(c: char) -> bool {
    let n = c as u32;
    ||| 0x09 <= n <= 0x0D
    ||| n == 0x20
    ||| n == 0x85
    ||| n == 0xA0
    ||| n == 0x1680
    ||| 0x2000 <= n <= 0x200A
    ||| n == 0x2028
    ||| n == 0x2029
    ||| n == 0x202F
    ||| n == 0x205F
    ||| n == 0x3000
}

/// Whether a character is white space.
pub fn is_whitespace(c: char) -> (r: bool)
    ensures
        r == is_space(c),
{
    let n: u32 = c as u32;
    (0x09 <= n && n <= 0x0D) || n == 0x20 || n == 0x85 || n == 0xA0 || n == 0x1680 || (0x2000 <= n
        && n <= 0x200A) || n == 0x2028 || n == 0x2029 || n == 0x202F || n == 0x205F || n == 0x3000
}

/// The text without the white space it starts with.
pub open spec fn trim_start(s: Seq<char>) -> Seq<char>
    decreases s.len(),
{
    if s.len() > 0 && is_space(s[0]) {
        trim_start(s.drop_first())
    } else {
        s
    }
}

/// The text without the white space it ends with.
pub open spec fn trim_end(s: Seq<char>) -> Seq<char>
    decreases s.len(),
{
    if s.len() > 0 && is_space(s.last()) {
        trim_end(s.drop_last())
    } else {
        s
    }
}

/// The text without white space at either end.
pub open spec fn trim(s: Seq<char>) -> Seq<char> {
    trim_end(trim_start(s))
}

/// The text without the run of `c` it ends with.
pub open spec fn strip_trailing(s: Seq<char>, c: char) -> Seq<char>
    decreases s.len(),
{
    if s.len() > 0 && s.last() == c {
        strip_trailing(s.drop_last(), c)
    } else {
        s
    }
}

/// The position of the first line feed, or the length without one.
pub open spec fn first_newline(s: Seq<char>) -> int
    decreases s.len(),
{
    if s.len() == 0 || s[0] == '\n' {
        0
    } else {
        1 + first_newline(s.drop_first())
    }
}

/// The text without a carriage return at its end.
pub open spec fn strip_cr(s: Seq<char>) -> Seq<char> {
    if s.len() > 0 && s.last() == '\r' {
        s.drop_last()
    } else {
        s
    }
}

/// The lines of a text. A line ends at a line feed, which is not part of it,
/// nor is a carriage return right before that line feed. What follows the
/// last line feed is a line of its own unless it is empty.
pub open spec fn lines(s: Seq<char>) -> Seq<Seq<char>>
    decreases s.len(),
{
    if s.len() == 0 {
        Seq::empty()
    } else {
        let n = first_newline(s);
        if n < 0 || n >= s.len() {
            seq![s]
        } else {
            seq![strip_cr(s.take(n))] + lines(s.skip(n + 1))
        }
    }
}

/// A stretch without a line feed that ends at one, or at the end of the
/// text, reaches the first line feed of what starts there.
pub proof fn lemma_first_newline_at(s: Seq<char>, from: int, to: int)
    requires
        0 <= from <= to <= s.len(),
        forall|k: int| from <= k < to ==> s[k] != '\n',
        to == s.len() || s[to] == '\n',
    ensures
        first_newline(s.skip(from)) == to - from,
    decreases to - from,
{
    let rest = s.skip(from);
    if from < to {
        assert(rest[0] == s[from]);
        assert(rest.drop_first() =~= s.skip(from + 1));
        lemma_first_newline_at(s, from + 1, to);
    } else if to < s.len() {
        assert(rest[0] == s[to]);
    }
}

/// The bounds of `text[from..to]` without white space at either end.
pub fn trim_bounds(text: &Vec<char>, from: usize, to: usize) -> (r: (usize, usize))
    requires
        from <= to <= text.len(),
    ensures
        from <= r.0 <= r.1 <= to,
        text@.subrange(r.0 as int, r.1 as int) == trim(text@.subrange(from as int, to as int)),
{
    let ghost whole = text@.subrange(from as int, to as int);
    let mut lo = from;
    while lo < to && is_whitespace(text[lo])
        invariant
            from <= lo <= to <= text.len(),
            trim_start(whole) == trim_start(text@.subrange(lo as int, to as int)),
        decreases to - lo,
    {
        assert(text@.subrange(lo as int, to as int).drop_first() =~= text@.subrange(
            lo + 1,
            to as int,
        ));
        lo += 1;
    }
    assert(trim_start(whole) == text@.subrange(lo as int, to as int));
    let mut hi = to;
    while lo < hi && is_whitespace(text[hi - 1])
        invariant
            lo <= hi <= to <= text.len(),
            trim(whole) == trim_end(text@.subrange(lo as int, hi as int)),
        decreases hi - lo,
    {
        assert(text@.subrange(lo as int, hi as int).drop_last() =~= text@.subrange(
            lo as int,
            hi - 1,
        ));
        hi -= 1;
    }
    (lo, hi)
}

/// The length of `text` without the run of `c` it ends with.
pub fn stripped_len(text: &Vec<char>, c: char) -> (r: usize)
    ensures
        r <= text.len(),
        text@.take(r as int) == strip_trailing(text@, c),
{
    let mut n = text.len();
    assert(text@.take(n as int) =~= text@);
    while n > 0 && text[n - 1] == c
        invariant
            n <= text.len(),
            strip_trailing(text@, c) == strip_trailing(text@.take(n as int), c),
        decreases n,
    {
        assert(text@.take(n as int).drop_last() =~= text@.take(n - 1));
        n -= 1;
    }
    n
}

/// `needle` stands in `text` at position `at`.
pub open spec fn occurs_at(text: Seq<char>, needle: Seq<char>, at: int) -> bool {
    0 <= at && at + needle.len() <= text.len() && text.subrange(at, at + needle.len()) == needle
}

/// `needle` occurs somewhere in `text`.
pub open spec fn contains(text: Seq<char>, needle: Seq<char>) -> bool {
    exists|at: int| occurs_at(text, needle, at)
}

/// Whether `needle` occurs somewhere in `text`.
pub fn chars_contain(text: &Vec<char>, needle: &Vec<char>) -> (r: bool)
    ensures
        r == contains(text@, needle@),
{
    if needle.len() > text.len() {
        return false;
    }
    assert(needle@.subrange(0, needle@.len() as int) =~= needle@);
    let last = text.len() - needle.len();
    let mut i: usize = 0;
    loop
        invariant
            needle.len() <= text.len(),
            last == text.len() - needle.len(),
            i <= last,
            needle@.subrange(0, needle@.len() as int) == needle@,
            forall|k: int| k < i ==> !occurs_at(text@, needle@, k),
        decreases last - i,
    {
        if same_range(text, i, i + needle.len(), needle, 0, needle.len()) {
            assert(occurs_at(text@, needle@, i as int));
            return true;
        }
        if i == last {
            return false;
        }
        i += 1;
    }
}

/// Whether `needle` occurs somewhere in `text`.
pub fn text_contains(text: &str, needle: &str) -> (r: bool)
    ensures
        r == contains(text@, needle@),
{
    let text = chars_of(text);
    let needle = chars_of(needle);
    chars_contain(&text, &needle)
}

/// The text without white space at either end.
pub fn trimmed(text: &str) -> (r: String)
    ensures
        r@ == trim(text@),
{
    let chars = chars_of(text);
    assert(chars@.subrange(0, chars@.len() as int) =~= chars@);
    let (lo, hi) = trim_bounds(&chars, 0, chars.len());
    text.substring_char(lo, hi).to_string()
}

/// The position of the first line feed, or the length without one.
pub fn newline_position(text: &Vec<char>) -> (r: usize)
    ensures
        r == first_newline(text@),
        r <= text.len(),
{
    let mut i: usize = 0;
    while i < text.len() && text[i] != '\n'
        invariant
            i <= text.len(),
            forall|k: int| 0 <= k < i ==> text@[k] != '\n',
        decreases text.len() - i,
    {
        i += 1;
    }
    proof {
        lemma_first_newline_at(text@, 0, i as int);
        assert(text@.skip(0) =~= text@);
    }
    i
}

/// The last component of a path whose components `/` separates: what
/// follows the last `/`, or the whole path without one.
pub open spec fn basename(path: Seq<char>) -> Seq<char>
    decreases path.len(),
{
    if path.len() == 0 {
        path
    } else if path.last() == '/' {
        Seq::empty()
    } else {
        basename(path.drop_last()).push(path.last())
    }
}

/// Where the last component of a path starts.
pub fn basename_start(path: &Vec<char>) -> (r: usize)
    ensures
        r <= path.len(),
        path@.subrange(r as int, path@.len() as int) == basename(path@),
{
    let mut start: usize = 0;
    let mut i: usize = 0;
    assert(path@.take(0) =~= Seq::<char>::empty());
    assert(path@.subrange(0, 0) =~= Seq::<char>::empty());
    while i < path.len()
        invariant
            start <= i <= path.len(),
            path@.subrange(start as int, i as int) == basename(path@.take(i as int)),
        decreases path.len() - i,
    {
        proof {
            assert(path@.take(i + 1).drop_last() =~= path@.take(i as int));
            assert(path@.take(i + 1).last() == path@[i as int]);
        }
        if path[i] == '/' {
            start = i + 1;
            assert(path@.subrange(start as int, i + 1) =~= Seq::<char>::empty());
        } else {
            assert(path@.subrange(start as int, i + 1) =~= path@.subrange(
                start as int,
                i as int,
            ).push(path@[i as int]));
        }
        i += 1;
    }
    assert(path@.take(i as int) =~= path@);
    start
}

/// The text of an optional string.
pub open spec fn optional_text(value: Option<String>) -> Option<Seq<char>> {
    match value {
        Some(text) => Some(text@),
        None => None,
    }
}

/// A copy of an optional string.
pub fn copy_of(value: &Option<String>) -> (r: Option<String>)
    ensures
        r == *value,
{
    match value {
        Some(text) => Some(text.clone()),
        None => None,
    }
}

/// The items written one after another with `separator` between them.
pub open spec fn join(items: Seq<Seq<char>>, separator: Seq<char>) -> Seq<char>
    decreases items.len(),
{
    if items.len() == 0 {
        Seq::empty()
    } else if items.len() == 1 {
        items[0]
    } else {
        join(items.drop_last(), separator) + separator + items.last()
    }
}

/// The views of a list of owned strings.
pub open spec fn texts(items: Seq<String>) -> Seq<Seq<char>> {
    Seq::new(items.len(), |i: int| items[i]@)
}

/// Writes the strings one after another with `separator` between them.
pub fn join_texts(items: &Vec<String>, separator: &str) -> (r: String)
    ensures
        r@ == join(texts(items@), separator@),
{
    let mut out = String::new();
    let mut i: usize = 0;
    while i < items.len()
        invariant
            i <= items.len(),
            out@ == join(texts(items@).take(i as int), separator@),
        decreases items.len() - i,
    {
        proof {
            assert(texts(items@).take(i + 1).drop_last() =~= texts(items@).take(i as int));
            assert(texts(items@).take(i + 1).last() == items@[i as int]@);
        }
        if i > 0 {
            out.append(separator);
        }
        out.append(items[i].as_str());
        assert(out@ =~= join(texts(items@).take(i + 1), separator@));
        i += 1;
    }
    assert(texts(items@).take(i as int) =~= texts(items@));
    out
}

/// The lower-case form of a text, as `str::to_lowercase` gives it.
pub uninterp spec fn lowercase(text: Seq<char>) -> Seq<char>;

/// Calls `str::to_lowercase`. Claims only that the result is the one that
/// `lowercase` names: what Unicode maps each character to is not stated.
#[verifier::external_body]
pub(crate) fn to_lowercase(text: &str) -> (r: String)
    ensures
        r@ == lowercase(text@),
{
    text.to_lowercase()
}

/// The views of a list of strings.
pub open spec fn views(items: Seq<&'static str>) -> Seq<Seq<char>> {
    Seq::new(items.len(), |i: int| items[i]@)
}

/// The rows of a table of character vectors.
pub open spec fn rows(table: Seq<Vec<char>>) -> Seq<Seq<char>> {
    Seq::new(table.len(), |i: int| table[i]@)
}

/// The characters of each string of a list.
pub fn table_of(items: &Vec<&'static str>) -> (r: Vec<Vec<char>>)
    ensures
        rows(r@) == views(items@),
{
    let mut table: Vec<Vec<char>> = Vec::new();
    let mut i: usize = 0;
    while i < items.len()
        invariant
            i <= items.len(),
            table@.len() == i,
            forall|k: int| 0 <= k < i ==> table@[k]@ == items@[k]@,
        decreases items.len() - i,
    {
        table.push(chars_of(items[i]));
        i += 1;
    }
    assert(rows(table@) =~= views(items@));
    table
}

/// `text` ends with one of `suffixes`.
pub open spec fn ends_with_any(text: Seq<char>, suffixes: Seq<Seq<char>>) -> bool {
    exists|i: int| 0 <= i < suffixes.len() && ends_with(text, suffixes[i])
}

/// Whether `text` ends with one of `suffixes`.
pub fn chars_end_with_any(text: &Vec<char>, suffixes: &Vec<Vec<char>>) -> (r: bool)
    ensures
        r == ends_with_any(text@, rows(suffixes@)),
{
    let mut i: usize = 0;
    while i < suffixes.len()
        invariant
            i <= suffixes.len(),
            forall|k: int| 0 <= k < i ==> !ends_with(text@, rows(suffixes@)[k]),
        decreases suffixes.len() - i,
    {
        assert(rows(suffixes@)[i as int] == suffixes@[i as int]@);
        if chars_end_with(text, &suffixes[i]) {
            return true;
        }
        i += 1;
    }
    false
}

} // verus!
