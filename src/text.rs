//! Character-level helpers shared by the request parser and the response
//! serialiser.
use vstd::prelude::*;

verus! {

/// The Unicode `White_Space` property, the set that `char::is_whitespace`
/// tests for.
pub open spec fn is_space(c: char) -> bool {
    ('\u{9}' <= c && c <= '\u{d}') || c == ' ' || c == '\u{85}' || c == '\u{a0}'
        || c == '\u{1680}' || ('\u{2000}' <= c && c <= '\u{200a}') || c == '\u{2028}'
        || c == '\u{2029}' || c == '\u{202f}' || c == '\u{205f}' || c == '\u{3000}'
}

/// Tests a character for the Unicode `White_Space` property.
pub fn is_space_char(c: char) -> (r: bool)
    ensures
        r == is_space(c),
{
    ('\u{9}' <= c && c <= '\u{d}') || c == ' ' || c == '\u{85}' || c == '\u{a0}'
        || c == '\u{1680}' || ('\u{2000}' <= c && c <= '\u{200a}') || c == '\u{2028}'
        || c == '\u{2029}' || c == '\u{202f}' || c == '\u{205f}' || c == '\u{3000}'
}

/// The characters of a string, one per element.
pub fn chars_of(s: &str) -> (v: Vec<char>)
    ensures
        v@ == s@,
{
    let mut v: Vec<char> = Vec::new();
    for c in it: s.chars()
        invariant
            v@ == it.seq().take(it.index() as int),
    {
        v.push(c);
    }
    v
}

/// Relies on `String::push`: the character is appended at the end.
#[verifier::external_body]
fn push_char(s: &mut String, c: char)
    ensures
        final(s)@ == old(s)@.push(c),
{
    s.push(c);
}

/// The string made of `v[lo..hi]`.
pub fn string_of(v: &Vec<char>, lo: usize, hi: usize) -> (r: String)
    requires
        lo <= hi <= v@.len(),
    ensures
        r@ == v@.subrange(lo as int, hi as int),
{
    let mut r = String::new();
    let mut i = lo;
    while i < hi
        invariant
            lo <= i <= hi <= v@.len(),
            r@ == v@.subrange(lo as int, i as int),
        decreases hi - i,
    {
        push_char(&mut r, v[i]);
        i += 1;
    }
    r
}


/// The first index at or after `i` that does not hold white space (or the
/// length, when there is none).
pub open spec fn skip_space(s: Seq<char>, i: int) -> int
    decreases s.len() - i,
{
    if i < 0 || i >= s.len() || !is_space(s[i]) {
        i
    } else {
        skip_space(s, i + 1)
    }
}

/// The first index at or after `i` that holds white space (or the length).
pub open spec fn word_end(s: Seq<char>, i: int) -> int
    decreases s.len() - i,
{
    if i < 0 || i >= s.len() || is_space(s[i]) {
        i
    } else {
        word_end(s, i + 1)
    }
}

/// The first index at or after `i` that holds `c` (or the length).
pub open spec fn find_char(s: Seq<char>, c: char, i: int) -> int
    decreases s.len() - i,
{
    if i < 0 || i >= s.len() || s[i] == c {
        i
    } else {
        find_char(s, c, i + 1)
    }
}

pub proof fn lemma_find_char_bounds(s: Seq<char>, c: char, i: int)
    requires
        0 <= i <= s.len(),
    ensures
        i <= find_char(s, c, i) <= s.len(),
    decreases s.len() - i,
{
    if i < s.len() && s[i] != c {
        lemma_find_char_bounds(s, c, i + 1);
    }
}

pub fn skip_space_from(v: &Vec<char>, i: usize) -> (r: usize)
    requires
        i <= v@.len(),
    ensures
        i <= r <= v@.len(),
        r == skip_space(v@, i as int),
{
    let mut j: usize = i;
    while j < v.len() && is_space_char(v[j])
        invariant
            i <= j <= v@.len(),
            skip_space(v@, i as int) == skip_space(v@, j as int),
        decreases v@.len() - j,
    {
        j += 1;
    }
    j
}

pub fn word_end_from(v: &Vec<char>, i: usize) -> (r: usize)
    requires
        i <= v@.len(),
    ensures
        i <= r <= v@.len(),
        r == word_end(v@, i as int),
{
    let mut j: usize = i;
    while j < v.len() && !is_space_char(v[j])
        invariant
            i <= j <= v@.len(),
            word_end(v@, i as int) == word_end(v@, j as int),
        decreases v@.len() - j,
    {
        j += 1;
    }
    j
}

pub fn find_char_from(v: &Vec<char>, c: char, i: usize) -> (r: usize)
    requires
        i <= v@.len(),
    ensures
        i <= r <= v@.len(),
        r == find_char(v@, c, i as int),
{
    let mut j: usize = i;
    while j < v.len() && v[j] != c
        invariant
            i <= j <= v@.len(),
            find_char(v@, c, i as int) == find_char(v@, c, j as int),
        decreases v@.len() - j,
    {
        j += 1;
    }
    j
}

/// `s` cut at every `sep`: one piece more than there are separators.
pub open spec fn split_on(s: Seq<char>, sep: char) -> Seq<Seq<char>>
    decreases s.len(),
{
    if s.len() == 0 {
        seq![Seq::<char>::empty()]
    } else {
        let p = split_on(s.drop_last(), sep);
        if s.last() == sep {
            p.push(Seq::<char>::empty())
        } else {
            p.update(p.len() - 1, p.last().push(s.last()))
        }
    }
}

pub proof fn lemma_split_on_nonempty(s: Seq<char>, sep: char)
    ensures
        split_on(s, sep).len() >= 1,
    decreases s.len(),
{
    if s.len() > 0 {
        lemma_split_on_nonempty(s.drop_last(), sep);
    }
}

/// A piece cut at its first `=` into key and value; `None` when it holds no `=`.
pub open spec fn split_pair(piece: Seq<char>) -> Option<(Seq<char>, Seq<char>)> {
    let k = find_char(piece, '=', 0);
    if k < piece.len() {
        Some((piece.subrange(0, k), piece.subrange(k + 1, piece.len() as int)))
    } else {
        None
    }
}

/// The key/value pairs of the pieces that hold a `=`, in order.
pub open spec fn pairs_in(pieces: Seq<Seq<char>>) -> Seq<(Seq<char>, Seq<char>)>
    decreases pieces.len(),
{
    if pieces.len() == 0 {
        Seq::empty()
    } else {
        let p = pairs_in(pieces.drop_last());
        match split_pair(pieces.last()) {
            Some(kv) => p.push(kv),
            None => p,
        }
    }
}

/// The pairs of an `&`-separated `key=value` list; a piece without `=` is
/// dropped.
pub open spec fn form_pairs(s: Seq<char>) -> Seq<(Seq<char>, Seq<char>)> {
    pairs_in(split_on(s, '&'))
}

pub open spec fn pairs_view(v: Seq<(String, String)>) -> Seq<(Seq<char>, Seq<char>)> {
    v.map_values(|p: (String, String)| (p.0@, p.1@))
}

/// Cuts `v[lo..hi]` at its first `=`.
fn split_piece(v: &Vec<char>, lo: usize, hi: usize) -> (r: Option<(String, String)>)
    requires
        lo <= hi <= v@.len(),
    ensures
        match split_pair(v@.subrange(lo as int, hi as int)) {
            Some(kv) => match r {
                Some(out) => out.0@ == kv.0 && out.1@ == kv.1,
                None => false,
            },
            None => r is None,
        },
{
    let ghost piece = v@.subrange(lo as int, hi as int);
    let mut j: usize = lo;
    while j < hi && v[j] != '='
        invariant
            lo <= j <= hi <= v@.len(),
            piece == v@.subrange(lo as int, hi as int),
            find_char(piece, '=', 0) == find_char(piece, '=', j - lo),
        decreases hi - j,
    {
        j += 1;
    }
    if j < hi {
        let key = string_of(v, lo, j);
        let value = string_of(v, j + 1, hi);
        assert(key@ =~= piece.subrange(0, j - lo));
        assert(value@ =~= piece.subrange(j - lo + 1, piece.len() as int));
        Some((key, value))
    } else {
        None
    }
}

/// The pairs of an `&`-separated `key=value` list, in order; a piece
/// without `=` is dropped.
pub fn split_pairs(v: &Vec<char>) -> (r: Vec<(String, String)>)
    ensures
        pairs_view(r@) == form_pairs(v@),
{
    let mut out: Vec<(String, String)> = Vec::new();
    let mut start: usize = 0;
    let mut i: usize = 0;
    while i < v.len()
        invariant
            start <= i <= v@.len(),
            split_on(v@.take(i as int), '&').len() >= 1,
            split_on(v@.take(i as int), '&').last() == v@.subrange(start as int, i as int),
            pairs_view(out@) == pairs_in(split_on(v@.take(i as int), '&').drop_last()),
        decreases v@.len() - i,
    {
        let ghost before = split_on(v@.take(i as int), '&');
        assert(v@.take(i + 1).drop_last() =~= v@.take(i as int));
        proof {
            lemma_split_on_nonempty(v@.take(i + 1), '&');
        }
        if v[i] == '&' {
            let piece = split_piece(v, start, i);
            assert(split_on(v@.take(i + 1), '&').drop_last() =~= before);
            assert(before =~= before.drop_last().push(before.last()));
            match piece {
                Some(kv) => {
                    out.push(kv);
                    assert(pairs_view(out@) =~= pairs_view(out@).drop_last().push((kv.0@, kv.1@)));
                },
                None => {},
            }
            start = i + 1;
        } else {
            assert(split_on(v@.take(i + 1), '&').drop_last() =~= before.drop_last());
            assert(v@.subrange(start as int, i + 1) =~= v@.subrange(start as int, i as int).push(v[i as int]));
        }
        i += 1;
    }
    assert(v@.take(v@.len() as int) =~= v@);
    let ghost all = split_on(v@, '&');
    assert(all =~= all.drop_last().push(all.last()));
    let piece = split_piece(v, start, v.len());
    match piece {
        Some(kv) => {
            out.push(kv);
            assert(pairs_view(out@) =~= pairs_view(out@).drop_last().push((kv.0@, kv.1@)));
        },
        None => {},
    }
    out
}


pub open spec fn digit_char(d: nat) -> char {
    seq!['0', '1', '2', '3', '4', '5', '6', '7', '8', '9'][d as int]
}

/// The index after the last character before `i` that is not white space
/// (or 0).
pub open spec fn trim_end_at(s: Seq<char>, i: int) -> int
    decreases i,
{
    if i <= 0 || i > s.len() || !is_space(s[i - 1]) {
        i
    } else {
        trim_end_at(s, i - 1)
    }
}

/// `s` without its leading and trailing white space.
pub open spec fn trim(s: Seq<char>) -> Seq<char> {
    let lo = skip_space(s, 0);
    let hi = trim_end_at(s, s.len() as int);
    if lo < hi {
        s.subrange(lo, hi)
    } else {
        Seq::empty()
    }
}

/// `v[lo..hi]` without its leading and trailing white space.
pub fn trimmed(v: &Vec<char>) -> (r: String)
    ensures
        r@ == trim(v@),
{
    let lo = skip_space_from(v, 0);
    let mut hi: usize = v.len();
    while hi > 0 && is_space_char(v[hi - 1])
        invariant
            0 <= hi <= v@.len(),
            trim_end_at(v@, v@.len() as int) == trim_end_at(v@, hi as int),
        decreases hi,
    {
        hi -= 1;
    }
    if lo < hi {
        string_of(v, lo, hi)
    } else {
        String::new()
    }
}

/// The decimal numeral of `n`, without sign or leading zeros.
pub open spec fn decimal(n: nat) -> Seq<char>
    decreases n,
{
    if n < 10 {
        seq![digit_char(n)]
    } else {
        decimal(n / 10).push(digit_char(n % 10))
    }
}

fn digit(d: usize) -> (c: char)
    requires
        d < 10,
    ensures
        c == digit_char(d as nat),
{
    match d {
        0 => '0',
        1 => '1',
        2 => '2',
        3 => '3',
        4 => '4',
        5 => '5',
        6 => '6',
        7 => '7',
        8 => '8',
        _ => '9',
    }
}

/// The decimal numeral of `n`.
pub fn decimal_string(n: usize) -> (r: String)
    ensures
        r@ == decimal(n as nat),
{
    let mut rest: usize = n;
    let mut tail: Vec<char> = Vec::new();
    while rest >= 10
        invariant
            decimal(n as nat) == decimal(rest as nat) + tail@,
        decreases rest,
    {
        let d = digit(rest % 10);
        let ghost prev = tail@;
        assert(decimal(rest as nat) + prev =~= decimal((rest / 10) as nat) + (seq![d] + prev));
        tail.insert(0, d);
        assert(tail@ =~= seq![d] + prev);
        rest = rest / 10;
    }
    let mut r = String::new();
    push_char(&mut r, digit(rest));
    let mut i: usize = 0;
    while i < tail.len()
        invariant
            0 <= i <= tail@.len(),
            decimal(n as nat) == decimal(rest as nat) + tail@,
            rest < 10,
            r@ == decimal(rest as nat) + tail@.take(i as int),
        decreases tail@.len() - i,
    {
        push_char(&mut r, tail[i]);
        assert(tail@.take(i + 1) =~= tail@.take(i as int).push(tail@[i as int]));
        i += 1;
    }
    assert(tail@.take(tail@.len() as int) =~= tail@);
    r
}

pub open spec fn is_digit(c: char) -> bool {
    '0' <= c && c <= '9'
}

/// The value of a string of decimal digits.
pub open spec fn digits_value(s: Seq<char>) -> nat
    decreases s.len(),
{
    if s.len() == 0 {
        0
    } else {
        digits_value(s.drop_last()) * 10 + (s.last() as nat - '0' as nat) as nat
    }
}

/// `s` read as a non-negative decimal integer that fits in `usize`.
pub open spec fn parse_count(s: Seq<char>) -> Option<usize> {
    if s.len() > 0 && (forall|i: int| 0 <= i < s.len() ==> is_digit(#[trigger] s[i]))
        && digits_value(s) <= usize::MAX {
        Some(digits_value(s) as usize)
    } else {
        None
    }
}

proof fn lemma_digits_value_grows(s: Seq<char>, i: int)
    requires
        0 <= i <= s.len(),
        forall|k: int| 0 <= k < s.len() ==> is_digit(#[trigger] s[k]),
    ensures
        digits_value(s.take(i)) <= digits_value(s),
    decreases s.len() - i,
{
    if i < s.len() {
        lemma_digits_value_grows(s, i + 1);
        assert(s.take(i + 1).drop_last() =~= s.take(i));
    } else {
        assert(s.take(i) =~= s);
    }
}

/// Reads a whole string as a non-negative decimal integer; `None` when it is
/// empty, holds a character other than a digit, or exceeds `usize::MAX`.
pub fn parse_count_str(s: &str) -> (r: Option<usize>)
    ensures
        r == parse_count(s@),
{
    let v = chars_of(s);
    if v.len() == 0 {
        return None;
    }
    let mut acc: usize = 0;
    let mut i: usize = 0;
    while i < v.len()
        invariant
            0 <= i <= v@.len(),
            v@ == s@,
            forall|k: int| 0 <= k < i ==> is_digit(#[trigger] v@[k]),
            acc as nat == digits_value(v@.take(i as int)),
        decreases v@.len() - i,
    {
        let c = v[i];
        if !('0' <= c && c <= '9') {
            return None;
        }
        assert(v@.take(i + 1).drop_last() =~= v@.take(i as int));
        let d = (c as u32 - '0' as u32) as usize;
        let next = acc.checked_mul(10);
        match next {
            Some(m) => match m.checked_add(d) {
                Some(a) => {
                    acc = a;
                },
                None => {
                    proof {
                        lemma_count_overflow(v@, i as int);
                    }
                    return None;
                },
            },
            None => {
                proof {
                    lemma_count_overflow(v@, i as int);
                }
                return None;
            },
        }
        i += 1;
    }
    assert(v@.take(v@.len() as int) =~= v@);
    Some(acc)
}

proof fn lemma_count_overflow(s: Seq<char>, i: int)
    requires
        0 <= i < s.len(),
        digits_value(s.take(i)) * 10 + (s[i] as nat - '0' as nat) > usize::MAX,
        is_digit(s[i]),
    ensures
        parse_count(s) is None,
{
    assert(s.take(i + 1).drop_last() =~= s.take(i));
    if forall|k: int| 0 <= k < s.len() ==> is_digit(#[trigger] s[k]) {
        lemma_digits_value_grows(s, i + 1);
    }
}

/// What `str::to_uppercase` makes of a string.
pub uninterp spec fn upper_of(s: Seq<char>) -> Seq<char>;

/// What `str::to_lowercase` makes of a string.
pub uninterp spec fn lower_of(s: Seq<char>) -> Seq<char>;

/// Relies on `str::to_uppercase`: the full Unicode upper-case mapping, a
/// function of the characters alone.
#[verifier::external_body]
pub(crate) fn to_upper(s: &str) -> (r: String)
    ensures
        r@ == upper_of(s@),
{
    s.to_uppercase()
}

/// Relies on `str::to_lowercase`: the full Unicode lower-case mapping, a
/// function of the characters alone.
#[verifier::external_body]
pub(crate) fn to_lower(s: &str) -> (r: String)
    ensures
        r@ == lower_of(s@),
{
    s.to_lowercase()
}

} // verus!
