//! Text as sequences of characters: the searching, trimming and splitting
//! that the line formats of the package tools are described with.
//!
//! Every operation has a mathematical definition over `Seq<char>` and an
//! executable counterpart over `Vec<char>` that is proved to compute it.

use vstd::prelude::*;

verus! {

/// `String::push` appends one character to the end of the string.
pub assume_specification[ String::push ](s: &mut String, c: char)
    ensures
        final(s)@ == old(s)@.push(c),
;

/// White space in the sense of Unicode's `White_Space` property.
pub open spec fn is_space(c: char) -> bool {
    let n = c as u32;
    ||| 0x09 <= n <= 0x0D
    ||| n == 0x20
    ||| n == 0x85
    ||| n == 0xA0
    ||| n == 0x1680
    ||| 0x2000 <= n <= 0x200A
    ||| n == 0x2028
    ||| n == 0x2029
    ||| n == 0x202F
    ||| n == 0x205F
    ||| n == 0x3000
}

/// Whether `p` occurs in `s` starting at index `i`.
pub open spec fn matches_at(s: Seq<char>, p: Seq<char>, i: int) -> bool {
    &&& 0 <= i
    &&& i + p.len() <= s.len()
    &&& s.subrange(i, i + p.len()) == p
}

/// Whether `s` begins with `p`.
pub open spec fn starts_with(s: Seq<char>, p: Seq<char>) -> bool {
    matches_at(s, p, 0)
}

/// The first index at or after `i` at which `p` occurs in `s`.
pub open spec fn find_from(s: Seq<char>, p: Seq<char>, i: int) -> Option<int>
    decreases s.len() - i,
{
    if i < 0 || i + p.len() > s.len() {
        None
    } else if matches_at(s, p, i) {
        Some(i)
    } else if i < s.len() {
        find_from(s, p, i + 1)
    } else {
        None
    }
}

/// The first index at which `p` occurs in `s`.
pub open spec fn find(s: Seq<char>, p: Seq<char>) -> Option<int> {
    find_from(s, p, 0)
}

/// Whether `p` occurs somewhere in `s`.
pub open spec fn contains(s: Seq<char>, p: Seq<char>) -> bool {
    find(s, p) is Some
}

/// The first index at or after `i` that does not hold white space
/// (the length of `s` if there is none).
pub open spec fn skip_spaces(s: Seq<char>, i: int) -> int
    decreases s.len() - i,
{
    if 0 <= i < s.len() && is_space(s[i]) {
        skip_spaces(s, i + 1)
    } else {
        i
    }
}

/// The least `k` with `from <= k <= j` such that `s[k..j]` is all white space.
pub open spec fn back_spaces(s: Seq<char>, from: int, j: int) -> int
    decreases j,
{
    if 0 <= from < j <= s.len() && is_space(s[j - 1]) {
        back_spaces(s, from, j - 1)
    } else {
        j
    }
}

/// `s` without its leading and trailing white space.
pub open spec fn trim(s: Seq<char>) -> Seq<char> {
    let a = skip_spaces(s, 0);
    s.subrange(a, back_spaces(s, a, s.len() as int))
}

/// Whether `s` holds nothing but white space.
pub open spec fn is_blank(s: Seq<char>) -> bool {
    skip_spaces(s, 0) == s.len()
}

/// The first index at or after `i` that holds white space
/// (the length of `s` if there is none).
pub open spec fn word_end(s: Seq<char>, i: int) -> int
    decreases s.len() - i,
{
    if 0 <= i < s.len() && !is_space(s[i]) {
        word_end(s, i + 1)
    } else {
        i
    }
}

/// The maximal runs of non-white-space characters of `s` that begin at or
/// after index `i`, in order.
pub open spec fn words_from(s: Seq<char>, i: int) -> Seq<Seq<char>>
    decreases s.len() - i,
{
    let a = skip_spaces(s, i);
    let b = word_end(s, a);
    if 0 <= i <= a < b <= s.len() {
        seq![s.subrange(a, b)] + words_from(s, b)
    } else {
        Seq::empty()
    }
}

/// The words of `s`: its maximal runs of non-white-space characters.
pub open spec fn words(s: Seq<char>) -> Seq<Seq<char>> {
    words_from(s, 0)
}

/// The first index at or after `i` that holds `c` (the length of `s` if
/// there is none).
pub open spec fn field_end(s: Seq<char>, c: char, i: int) -> int
    decreases s.len() - i,
{
    if 0 <= i < s.len() && s[i] != c {
        field_end(s, c, i + 1)
    } else {
        i
    }
}

/// The fields of `s[i..]` when every `c` separates two fields. There is
/// always at least one field, and fields may be empty.
pub open spec fn fields_from(s: Seq<char>, c: char, i: int) -> Seq<Seq<char>>
    decreases s.len() - i,
{
    let e = field_end(s, c, i);
    if 0 <= i <= e < s.len() {
        seq![s.subrange(i, e)] + fields_from(s, c, e + 1)
    } else {
        seq![s.subrange(i, s.len() as int)]
    }
}

/// The fields of `s` when every `c` separates two fields.
pub open spec fn fields(s: Seq<char>, c: char) -> Seq<Seq<char>> {
    fields_from(s, c, 0)
}

/// The text of `s` before its first `c` (all of `s` if it has none).
pub open spec fn before_first(s: Seq<char>, c: char) -> Seq<char> {
    s.subrange(0, field_end(s, c, 0))
}

/// The last index below `j` at which `s` holds `c`.
pub open spec fn last_index_below(s: Seq<char>, c: char, j: int) -> Option<int>
    decreases j,
{
    if j <= 0 || j > s.len() {
        None
    } else if s[j - 1] == c {
        Some(j - 1)
    } else {
        last_index_below(s, c, j - 1)
    }
}

/// The text of `s` before its last `c` (all of `s` if it has none).
pub open spec fn before_last(s: Seq<char>, c: char) -> Seq<char> {
    match last_index_below(s, c, s.len() as int) {
        Some(k) => s.subrange(0, k),
        None => s,
    }
}

/// `l` without a carriage return at its end.
pub open spec fn strip_cr(l: Seq<char>) -> Seq<char> {
    if l.len() > 0 && l.last() == '\r' {
        l.drop_last()
    } else {
        l
    }
}

/// The lines of `s[i..]`. A line ends at a line feed, or at a carriage
/// return directly followed by one; neither belongs to the line. Text after
/// the last line feed is a line of its own unless it is empty.
pub open spec fn lines_from(s: Seq<char>, i: int) -> Seq<Seq<char>>
    decreases s.len() - i,
{
    let e = field_end(s, '\n', i);
    if 0 <= i <= e < s.len() {
        seq![strip_cr(s.subrange(i, e))] + lines_from(s, e + 1)
    } else if 0 <= i < s.len() {
        seq![s.subrange(i, s.len() as int)]
    } else {
        Seq::empty()
    }
}

/// The lines of `s`.
pub open spec fn lines(s: Seq<char>) -> Seq<Seq<char>> {
    lines_from(s, 0)
}

/// The decimal digit that stands for `d`.
pub open spec fn digit(d: nat) -> char {
    if d == 0 {
        '0'
    } else if d == 1 {
        '1'
    } else if d == 2 {
        '2'
    } else if d == 3 {
        '3'
    } else if d == 4 {
        '4'
    } else if d == 5 {
        '5'
    } else if d == 6 {
        '6'
    } else if d == 7 {
        '7'
    } else if d == 8 {
        '8'
    } else {
        '9'
    }
}

/// `n` in decimal, without leading zeros.
pub open spec fn decimal(n: nat) -> Seq<char>
    decreases n,
{
    if n < 10 {
        seq![digit(n)]
    } else {
        decimal(n / 10).push(digit(n % 10))
    }
}

/// The views of a sequence of character vectors.
pub open spec fn views(v: Seq<Vec<char>>) -> Seq<Seq<char>> {
    v.map_values(|x: Vec<char>| x@)
}

/// Whether `c` occurs nowhere in `s`.
pub open spec fn lacks(s: Seq<char>, c: char) -> bool {
    forall|j: int| 0 <= j < s.len() ==> s[j] != c
}

/// `find_from` gives the first index at or after `i` at which `p` occurs,
/// and none exactly when `p` does not occur there.
pub proof fn lemma_find_from(s: Seq<char>, p: Seq<char>, i: int)
    requires
        0 <= i,
    ensures
        match find_from(s, p, i) {
            Some(k) => i <= k && matches_at(s, p, k) && forall|j: int|
                i <= j < k ==> !matches_at(s, p, j),
            None => forall|j: int| i <= j ==> !matches_at(s, p, j),
        },
    decreases s.len() - i,
{
    if i + p.len() <= s.len() && !matches_at(s, p, i) && i < s.len() {
        lemma_find_from(s, p, i + 1);
    } else if i + p.len() <= s.len() && !matches_at(s, p, i) {
        assert(p.len() == 0);
        assert(s.subrange(i, i + p.len()) =~= p);
    }
}

/// `p` is found in `s` exactly when it occurs at some index.
pub proof fn lemma_contains(s: Seq<char>, p: Seq<char>)
    ensures
        contains(s, p) <==> exists|i: int| matches_at(s, p, i),
{
    lemma_find_from(s, p, 0);
    if contains(s, p) {
        assert(matches_at(s, p, find(s, p)->0));
    }
}

/// A text that lacks the first character of `p` does not contain `p`.
pub proof fn lemma_lacking_first_char(s: Seq<char>, p: Seq<char>)
    requires
        p.len() > 0,
        lacks(s, p[0]),
    ensures
        !contains(s, p),
{
    lemma_find_from(s, p, 0);
    if contains(s, p) {
        let k = find(s, p)->0;
        assert(s.subrange(k, k + p.len())[0] == s[k]);
    }
}

/// `skip_spaces` passes over white space and nothing else.
pub proof fn lemma_skip_spaces(s: Seq<char>, i: int)
    requires
        0 <= i <= s.len(),
    ensures
        i <= skip_spaces(s, i) <= s.len(),
        forall|j: int| i <= j < skip_spaces(s, i) ==> is_space(s[j]),
        skip_spaces(s, i) < s.len() ==> !is_space(s[skip_spaces(s, i)]),
    decreases s.len() - i,
{
    if i < s.len() && is_space(s[i]) {
        lemma_skip_spaces(s, i + 1);
    }
}

/// `back_spaces` passes backwards over white space and nothing else, and
/// not beyond `from`.
pub proof fn lemma_back_spaces(s: Seq<char>, from: int, j: int)
    requires
        0 <= from <= j <= s.len(),
    ensures
        from <= back_spaces(s, from, j) <= j,
        forall|k: int| back_spaces(s, from, j) <= k < j ==> is_space(s[k]),
        from < back_spaces(s, from, j) ==> !is_space(s[back_spaces(s, from, j) - 1]),
    decreases j,
{
    if from < j && is_space(s[j - 1]) {
        lemma_back_spaces(s, from, j - 1);
    }
}

/// `word_end` passes over what is not white space and nothing else.
pub proof fn lemma_word_end(s: Seq<char>, i: int)
    requires
        0 <= i <= s.len(),
    ensures
        i <= word_end(s, i) <= s.len(),
        forall|j: int| i <= j < word_end(s, i) ==> !is_space(s[j]),
        word_end(s, i) < s.len() ==> is_space(s[word_end(s, i)]),
    decreases s.len() - i,
{
    if i < s.len() && !is_space(s[i]) {
        lemma_word_end(s, i + 1);
    }
}

/// `field_end` passes over what is not `c` and nothing else.
pub proof fn lemma_field_end(s: Seq<char>, c: char, i: int)
    requires
        0 <= i <= s.len(),
    ensures
        i <= field_end(s, c, i) <= s.len(),
        forall|j: int| i <= j < field_end(s, c, i) ==> s[j] != c,
        field_end(s, c, i) < s.len() ==> s[field_end(s, c, i)] == c,
    decreases s.len() - i,
{
    if i < s.len() && s[i] != c {
        lemma_field_end(s, c, i + 1);
    }
}

/// Trimmed text neither begins nor ends with white space, what was cut
/// off at either end is white space, and nothing is left of a text
/// exactly when the text is blank.
pub proof fn lemma_trim(s: Seq<char>)
    ensures
        trim(s).len() > 0 ==> !is_space(trim(s).first()) && !is_space(trim(s).last()),
        trim(s).len() == 0 <==> is_blank(s),
        is_blank(s) <==> forall|j: int| 0 <= j < s.len() ==> is_space(s[j]),
        exists|a: int, b: int|
            0 <= a <= b <= s.len() && trim(s) == #[trigger] s.subrange(a, b) && (forall|j: int|
                0 <= j < a ==> is_space(s[j])) && (forall|j: int|
                b <= j < s.len() ==> is_space(s[j])),
{
    let a = skip_spaces(s, 0);
    lemma_skip_spaces(s, 0);
    lemma_back_spaces(s, a, s.len() as int);
    let b = back_spaces(s, a, s.len() as int);
    assert(trim(s) == s.subrange(a, b));
    if a < s.len() {
        assert(!is_space(s[a]));
        assert(a < b);
    }
    if trim(s).len() > 0 {
        assert(trim(s).first() == s[a]);
        assert(trim(s).last() == s[b - 1]);
    }
}

/// Every word holds at least one character and no white space.
pub proof fn lemma_words_from(s: Seq<char>, i: int)
    requires
        0 <= i <= s.len(),
    ensures
        forall|k: int|
            0 <= k < words_from(s, i).len() ==> (#[trigger] words_from(s, i)[k]).len() > 0,
        forall|k: int, j: int|
            0 <= k < words_from(s, i).len() && 0 <= j < words_from(s, i)[k].len() ==> !is_space(
                #[trigger] words_from(s, i)[k][j],
            ),
    decreases s.len() - i,
{
    lemma_skip_spaces(s, i);
    let a = skip_spaces(s, i);
    lemma_word_end(s, a);
    let b = word_end(s, a);
    if a < b {
        lemma_words_from(s, b);
        let first = s.subrange(a, b);
        let rest = words_from(s, b);
        let all = words_from(s, i);
        assert(all == seq![first] + rest);
        assert forall|k: int| 0 <= k < all.len() implies (#[trigger] all[k]).len() > 0 by {
            if k > 0 {
                assert(all[k] == rest[k - 1]);
            }
        }
        assert forall|k: int, j: int|
            0 <= k < all.len() && 0 <= j < all[k].len() implies !is_space(
            #[trigger] all[k][j],
        ) by {
            if k > 0 {
                assert(all[k] == rest[k - 1]);
            } else {
                assert(all[0][j] == s[a + j]);
            }
        }
    }
}

/// A blank text has no words.
pub proof fn lemma_blank_has_no_words(s: Seq<char>)
    requires
        is_blank(s),
    ensures
        words(s).len() == 0,
{
}

/// A text without `c` is one field.
pub proof fn lemma_fields_without_separator(s: Seq<char>, c: char)
    requires
        lacks(s, c),
    ensures
        fields(s, c) == seq![s],
        before_first(s, c) == s,
        before_last(s, c) == s,
{
    lemma_field_end(s, c, 0);
    assert(field_end(s, c, 0) == s.len());
    assert(s.subrange(0, s.len() as int) =~= s);
    lemma_last_index_below(s, c, s.len() as int);
}

/// In a text followed by another, a field that ends within the first text
/// ends where it ends in the first text alone.
pub proof fn lemma_field_end_prefix(a: Seq<char>, b: Seq<char>, c: char, i: int)
    requires
        0 <= i <= a.len(),
        field_end(a, c, i) < a.len(),
    ensures
        field_end(a + b, c, i) == field_end(a, c, i),
    decreases a.len() - i,
{
    if i < a.len() && a[i] != c {
        assert((a + b)[i] == a[i]);
        lemma_field_end_prefix(a, b, c, i + 1);
    } else {
        assert((a + b)[i] == a[i]);
    }
}

/// In a text that follows another, a field ends where it ends in the text
/// alone, moved by the length of the other.
pub proof fn lemma_field_end_suffix(a: Seq<char>, b: Seq<char>, c: char, j: int)
    requires
        0 <= j <= b.len(),
    ensures
        field_end(a + b, c, a.len() + j) == a.len() + field_end(b, c, j),
    decreases b.len() - j,
{
    if j < b.len() {
        assert((a + b)[a.len() + j] == b[j]);
        if b[j] != c {
            lemma_field_end_suffix(a, b, c, j + 1);
        }
    }
}

/// The lines of a text that follows another are the lines of the text
/// alone.
pub proof fn lemma_lines_suffix(a: Seq<char>, b: Seq<char>, j: int)
    requires
        0 <= j <= b.len(),
    ensures
        lines_from(a + b, a.len() + j) == lines_from(b, j),
    decreases b.len() - j,
{
    lemma_field_end_suffix(a, b, '\n', j);
    lemma_field_end(b, '\n', j);
    let e = field_end(b, '\n', j);
    if e < b.len() {
        lemma_lines_suffix(a, b, e + 1);
        assert((a + b).subrange(a.len() + j, a.len() + e) =~= b.subrange(j, e));
    } else if j < b.len() {
        assert((a + b).subrange(a.len() + j, (a + b).len() as int) =~= b.subrange(
            j,
            b.len() as int,
        ));
    }
}

/// The lines of two texts, one after the other, are the lines of the first
/// followed by those of the second, where the first text ends with a line
/// feed or is empty.
pub proof fn lemma_lines_concat(a: Seq<char>, b: Seq<char>)
    requires
        a.len() == 0 || a.last() == '\n',
    ensures
        lines(a + b) == lines(a) + lines(b),
{
    lemma_lines_concat_from(a, b, 0);
}

proof fn lemma_lines_concat_from(a: Seq<char>, b: Seq<char>, i: int)
    requires
        a.len() == 0 || a.last() == '\n',
        0 <= i <= a.len(),
    ensures
        lines_from(a + b, i) == lines_from(a, i) + lines(b),
    decreases a.len() - i,
{
    if i == a.len() {
        lemma_lines_suffix(a, b, 0);
        assert(lines_from(a, i) =~= Seq::<Seq<char>>::empty());
        assert(lines_from(a, i) + lines(b) =~= lines(b));
    } else {
        lemma_field_end(a, '\n', i);
        let e = field_end(a, '\n', i);
        assert(e < a.len()) by {
            if e == a.len() {
                assert(a[a.len() - 1] != '\n');
            }
        }
        lemma_field_end_prefix(a, b, '\n', i);
        lemma_lines_concat_from(a, b, e + 1);
        assert((a + b).subrange(i, e) =~= a.subrange(i, e));
        assert(seq![strip_cr(a.subrange(i, e))] + (lines_from(a, e + 1) + lines(b)) =~= (
        seq![strip_cr(a.subrange(i, e))] + lines_from(a, e + 1)) + lines(b));
    }
}

/// A text without a line feed, followed by one, is one line: the text
/// without a carriage return at its end.
pub proof fn lemma_one_line(l: Seq<char>)
    requires
        lacks(l, '\n'),
    ensures
        lines(l.push('\n')) == seq![strip_cr(l)],
{
    let t = l.push('\n');
    lemma_field_end(t, '\n', 0);
    let e = field_end(t, '\n', 0);
    assert(e == l.len()) by {
        if e < l.len() {
            assert(t[e] == l[e]);
        }
        assert(t[l.len() as int] == '\n');
    }
    assert(t.subrange(0, e) =~= l);
    assert(lines_from(t, e + 1) =~= Seq::<Seq<char>>::empty());
    assert(seq![strip_cr(l)] + Seq::<Seq<char>>::empty() =~= seq![strip_cr(l)]);
}

/// `last_index_below` gives the last index below `j` that holds `c`, and
/// none exactly when no index below `j` holds it.
pub proof fn lemma_last_index_below(s: Seq<char>, c: char, j: int)
    requires
        0 <= j <= s.len(),
    ensures
        match last_index_below(s, c, j) {
            Some(k) => 0 <= k < j && s[k] == c && forall|m: int| k < m < j ==> s[m] != c,
            None => forall|m: int| 0 <= m < j ==> s[m] != c,
        },
    decreases j,
{
    if j > 0 && s[j - 1] != c {
        lemma_last_index_below(s, c, j - 1);
    }
}

/// The characters of `s`, in order.
pub fn to_chars(s: &str) -> (out: Vec<char>)
    ensures
        out@ == s@,
{
    let mut out: Vec<char> = Vec::new();
    for c in it: s.chars()
        invariant
            out@ == it.seq().take(it.index() as int),
            it.seq() == s@,
    {
        out.push(c);
    }
    out
}

/// The string made of the characters `chars[from..to]`.
pub(crate) fn to_text(chars: &Vec<char>, from: usize, to: usize) -> (out: String)
    requires
        from <= to <= chars.len(),
    ensures
        out@ == chars@.subrange(from as int, to as int),
{
    let mut out = String::new();
    let mut i: usize = from;
    while i < to
        invariant
            from <= i <= to <= chars.len(),
            out@ == chars@.subrange(from as int, i as int),
        decreases to - i,
    {
        out.push(chars[i]);
        i += 1;
    }
    out
}

/// The string with the characters of `chars`.
pub fn text_of(chars: &Vec<char>) -> (out: String)
    ensures
        out@ == chars@,
{
    let out = to_text(chars, 0, chars.len());
    assert(chars@.subrange(0, chars.len() as int) == chars@);
    out
}

/// The vector `chars[from..to]`.
pub(crate) fn slice_of(chars: &Vec<char>, from: usize, to: usize) -> (out: Vec<char>)
    requires
        from <= to <= chars.len(),
    ensures
        out@ == chars@.subrange(from as int, to as int),
{
    let mut out: Vec<char> = Vec::new();
    let mut i: usize = from;
    while i < to
        invariant
            from <= i <= to <= chars.len(),
            out@ == chars@.subrange(from as int, i as int),
        decreases to - i,
    {
        out.push(chars[i]);
        i += 1;
    }
    out
}

/// Whether `c` is white space.
pub fn is_whitespace(c: char) -> (r: bool)
    ensures
        r == is_space(c),
{
    let n: u32 = c as u32;
    (0x09 <= n && n <= 0x0D) || n == 0x20 || n == 0x85 || n == 0xA0 || n == 0x1680 || (0x2000 <= n
        && n <= 0x200A) || n == 0x2028 || n == 0x2029 || n == 0x202F || n == 0x205F || n == 0x3000
}

/// Whether `p` occurs in `s` at index `i`.
pub fn occurs_at(s: &Vec<char>, p: &Vec<char>, i: usize) -> (r: bool)
    ensures
        r == matches_at(s@, p@, i as int),
{
    let n = s.len();
    let m = p.len();
    if m > n || i > n - m {
        return false;
    }
    let mut k: usize = 0;
    while k < m
        invariant
            k <= m,
            m == p.len(),
            i + m <= s.len(),
            forall|j: int| 0 <= j < k ==> s@[i + j] == p@[j],
        decreases m - k,
    {
        if s[i + k] != p[k] {
            proof {
                let sub = s@.subrange(i as int, i + m);
                assert(sub[k as int] == s@[i + k]);
            }
            return false;
        }
        k += 1;
    }
    assert(s@.subrange(i as int, i + m) =~= p@);
    true
}

/// Whether `s` begins with `p`.
pub fn has_prefix(s: &Vec<char>, p: &str) -> (r: bool)
    ensures
        r == starts_with(s@, p@),
{
    let pat = to_chars(p);
    occurs_at(s, &pat, 0)
}

/// The first index at which `p` occurs in `s`.
pub fn find_chars(s: &Vec<char>, p: &Vec<char>) -> (r: Option<usize>)
    ensures
        match r {
            Some(i) => find(s@, p@) == Some(i as int) && i + p.len() <= s.len(),
            None => find(s@, p@) is None,
        },
{
    let n = s.len();
    let m = p.len();
    if m > n {
        return None;
    }
    let last = n - m;
    let mut i: usize = 0;
    loop
        invariant
            n == s.len(),
            m == p.len(),
            last == n - m,
            i <= last,
            find_from(s@, p@, 0) == find_from(s@, p@, i as int),
        decreases last - i,
    {
        if occurs_at(s, p, i) {
            return Some(i);
        }
        if i == last {
            assert(find_from(s@, p@, i + 1) is None);
            return None;
        }
        i += 1;
    }
}

/// Whether `s` and `p` hold the same characters.
pub fn same_text(s: &Vec<char>, p: &str) -> (r: bool)
    ensures
        r == (s@ == p@),
{
    let pat = to_chars(p);
    if s.len() != pat.len() {
        return false;
    }
    let r = occurs_at(s, &pat, 0);
    assert(s@.subrange(0, s.len() as int) == s@);
    r
}

/// Whether `p` occurs somewhere in `s`.
pub fn has_infix(s: &Vec<char>, p: &str) -> (r: bool)
    ensures
        r == contains(s@, p@),
{
    let pat = to_chars(p);
    find_chars(s, &pat).is_some()
}

/// The first index at or after `i` that does not hold white space.
pub(crate) fn skip_spaces_at(s: &Vec<char>, i: usize) -> (r: usize)
    requires
        i <= s.len(),
    ensures
        r == skip_spaces(s@, i as int),
        i <= r <= s.len(),
{
    let mut k: usize = i;
    while k < s.len() && is_whitespace(s[k])
        invariant
            i <= k <= s.len(),
            skip_spaces(s@, i as int) == skip_spaces(s@, k as int),
        decreases s.len() - k,
    {
        k += 1;
    }
    k
}

/// The first index at or after `i` that holds white space.
pub(crate) fn word_end_at(s: &Vec<char>, i: usize) -> (r: usize)
    requires
        i <= s.len(),
    ensures
        r == word_end(s@, i as int),
        i <= r <= s.len(),
{
    let mut k: usize = i;
    while k < s.len() && !is_whitespace(s[k])
        invariant
            i <= k <= s.len(),
            word_end(s@, i as int) == word_end(s@, k as int),
        decreases s.len() - k,
    {
        k += 1;
    }
    k
}

/// The first index at or after `i` that holds `c`.
pub(crate) fn field_end_at(s: &Vec<char>, c: char, i: usize) -> (r: usize)
    requires
        i <= s.len(),
    ensures
        r == field_end(s@, c, i as int),
        i <= r <= s.len(),
{
    let mut k: usize = i;
    while k < s.len() && s[k] != c
        invariant
            i <= k <= s.len(),
            field_end(s@, c, i as int) == field_end(s@, c, k as int),
        decreases s.len() - k,
    {
        k += 1;
    }
    k
}

/// Whether `s` holds nothing but white space.
pub fn blank(s: &Vec<char>) -> (r: bool)
    ensures
        r == is_blank(s@),
{
    skip_spaces_at(s, 0) == s.len()
}

/// `s` without its leading and trailing white space.
pub fn trimmed(s: &Vec<char>) -> (out: Vec<char>)
    ensures
        out@ == trim(s@),
{
    let a = skip_spaces_at(s, 0);
    let mut b: usize = s.len();
    while a < b && is_whitespace(s[b - 1])
        invariant
            a <= b <= s.len(),
            back_spaces(s@, a as int, s.len() as int) == back_spaces(s@, a as int, b as int),
        decreases b,
    {
        b -= 1;
    }
    slice_of(s, a, b)
}

/// The words of `s`.
pub fn split_words(s: &Vec<char>) -> (out: Vec<Vec<char>>)
    ensures
        views(out@) == words(s@),
{
    let mut out: Vec<Vec<char>> = Vec::new();
    let n = s.len();
    let mut i: usize = 0;
    assert(views(out@) + words_from(s@, 0) =~= words(s@));
    loop
        invariant
            n == s.len(),
            i <= n,
            views(out@) + words_from(s@, i as int) == words(s@),
        ensures
            views(out@) == words(s@),
        decreases n - i,
    {
        let a = skip_spaces_at(s, i);
        let b = word_end_at(s, a);
        if a >= b {
            assert(words_from(s@, i as int) =~= Seq::<Seq<char>>::empty());
            assert(views(out@) + Seq::<Seq<char>>::empty() =~= views(out@));
            break ;
        }
        let word = slice_of(s, a, b);
        let ghost before = out@;
        out.push(word);
        proof {
            assert(views(out@) =~= views(before) + seq![s@.subrange(a as int, b as int)]);
            assert(words_from(s@, i as int) == seq![s@.subrange(a as int, b as int)] + words_from(
                s@,
                b as int,
            ));
            assert(views(out@) + words_from(s@, b as int) =~= views(before) + words_from(
                s@,
                i as int,
            ));
        }
        i = b;
    }
    out
}

/// The fields of `s` when every `c` separates two fields.
pub fn split_fields(s: &Vec<char>, c: char) -> (out: Vec<Vec<char>>)
    ensures
        views(out@) == fields(s@, c),
{
    let mut out: Vec<Vec<char>> = Vec::new();
    let n = s.len();
    let mut i: usize = 0;
    assert(views(out@) + fields_from(s@, c, 0) =~= fields(s@, c));
    loop
        invariant_except_break
            views(out@) + fields_from(s@, c, i as int) == fields(s@, c),
        invariant
            n == s.len(),
            i <= n,
        ensures
            views(out@) == fields(s@, c),
        decreases n - i,
    {
        let e = field_end_at(s, c, i);
        let ghost before = out@;
        if e >= n {
            let field = slice_of(s, i, n);
            out.push(field);
            proof {
                assert(views(out@) =~= views(before) + seq![s@.subrange(i as int, n as int)]);
            }
            break ;
        }
        let field = slice_of(s, i, e);
        out.push(field);
        proof {
            assert(views(out@) =~= views(before) + seq![s@.subrange(i as int, e as int)]);
            assert(views(out@) + fields_from(s@, c, e + 1) =~= views(before) + fields_from(
                s@,
                c,
                i as int,
            ));
        }
        i = e + 1;
    }
    out
}

/// The text of `s` before its first `c`.
pub fn prefix_before_first(s: &Vec<char>, c: char) -> (out: Vec<char>)
    ensures
        out@ == before_first(s@, c),
{
    let e = field_end_at(s, c, 0);
    slice_of(s, 0, e)
}

/// The text of `s` before its last `c`.
pub fn prefix_before_last(s: &Vec<char>, c: char) -> (out: Vec<char>)
    ensures
        out@ == before_last(s@, c),
{
    let mut j: usize = s.len();
    while j > 0
        invariant
            j <= s.len(),
            last_index_below(s@, c, s.len() as int) == last_index_below(s@, c, j as int),
        decreases j,
    {
        if s[j - 1] == c {
            return slice_of(s, 0, j - 1);
        }
        j -= 1;
    }
    assert(s@.subrange(0, s.len() as int) == s@);
    slice_of(s, 0, s.len())
}

/// The lines of `s`.
pub fn split_lines(s: &Vec<char>) -> (out: Vec<Vec<char>>)
    ensures
        views(out@) == lines(s@),
{
    let mut out: Vec<Vec<char>> = Vec::new();
    let n = s.len();
    let mut i: usize = 0;
    assert(views(out@) + lines_from(s@, 0) =~= lines(s@));
    while i < n
        invariant
            n == s.len(),
            i <= n,
            views(out@) + lines_from(s@, i as int) == lines(s@),
        decreases n - i,
    {
        let e = field_end_at(s, '\n', i);
        let ghost before = out@;
        if e >= n {
            let line = slice_of(s, i, n);
            out.push(line);
            proof {
                assert(views(out@) =~= views(before) + seq![s@.subrange(i as int, n as int)]);
                assert(lines_from(s@, n as int) =~= Seq::<Seq<char>>::empty());
                assert(views(out@) + lines_from(s@, n as int) =~= views(before) + lines_from(
                    s@,
                    i as int,
                ));
            }
            i = n;
        } else {
            let end = if e > i && s[e - 1] == '\r' {
                e - 1
            } else {
                e
            };
            let line = slice_of(s, i, end);
            out.push(line);
            proof {
                let raw = s@.subrange(i as int, e as int);
                assert(strip_cr(raw) =~= s@.subrange(i as int, end as int));
                assert(views(out@) =~= views(before) + seq![strip_cr(raw)]);
                assert(views(out@) + lines_from(s@, e + 1) =~= views(before) + lines_from(
                    s@,
                    i as int,
                ));
            }
            i = e + 1;
        }
    }
    assert(lines_from(s@, n as int) =~= Seq::<Seq<char>>::empty());
    assert(views(out@) + Seq::<Seq<char>>::empty() =~= views(out@));
    out
}

fn digit_of(d: u64) -> (c: char)
    requires
        d < 10,
    ensures
        c == digit(d as nat),
{
    if d == 0 {
        '0'
    } else if d == 1 {
        '1'
    } else if d == 2 {
        '2'
    } else if d == 3 {
        '3'
    } else if d == 4 {
        '4'
    } else if d == 5 {
        '5'
    } else if d == 6 {
        '6'
    } else if d == 7 {
        '7'
    } else if d == 8 {
        '8'
    } else {
        '9'
    }
}

/// Appends `n` in decimal to `out`.
pub fn push_decimal(out: &mut String, n: u64)
    ensures
        final(out)@ == old(out)@ + decimal(n as nat),
    decreases n,
{
    if n >= 10 {
        push_decimal(out, n / 10);
    }
    out.push(digit_of(n % 10));
    proof {
        if n >= 10 {
            assert(old(out)@ + decimal(n as nat) =~= (old(out)@ + decimal((n / 10) as nat)).push(
                digit((n % 10) as nat),
            ));
        } else {
            assert(old(out)@ + decimal(n as nat) =~= old(out)@.push(digit(n as nat)));
        }
    }
}

/// `n` in decimal.
pub fn decimal_text(n: u64) -> (out: String)
    ensures
        out@ == decimal(n as nat),
{
    let mut out = String::new();
    push_decimal(&mut out, n);
    assert(out@ =~= decimal(n as nat));
    out
}

} // verus!
