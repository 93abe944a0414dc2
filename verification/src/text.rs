//! Character sequences: splitting at a separator, ASCII lowercase, suffixes
//! and decimal bytes.

use vstd::prelude::*;

verus! {

/// The pieces of `s` that lie between occurrences of `sep`, in order. There is
/// one more piece than there are separators, so the result is never empty and
/// a piece may be.
pub open spec fn split(s: Seq<char>, sep: char) -> Seq<Seq<char>>
    decreases s.len(),
{
    match s.index_of_first(sep) {
        Some(i) => {
            proof {
                s.index_of_first_ensures(sep);
            }
            seq![s.take(i)] + split(s.skip(i + 1), sep)
        },
        None => seq![s],
    }
}

/// No piece of a split holds the separator.
pub proof fn lemma_split_pieces(s: Seq<char>, sep: char)
    ensures
        forall|k: int, j: int|
            0 <= k < split(s, sep).len() && 0 <= j < split(s, sep)[k].len() ==> split(
                s,
                sep,
            )[k][j] != sep,
    decreases s.len(),
{
    s.index_of_first_ensures(sep);
    match s.index_of_first(sep) {
        Some(i) => {
            lemma_split_pieces(s.skip(i + 1), sep);
            let rest = split(s.skip(i + 1), sep);
            assert forall|k: int, j: int|
                0 <= k < split(s, sep).len() && 0 <= j < split(s, sep)[k].len() implies split(
                s,
                sep,
            )[k][j] != sep by {
                if k == 0 {
                    assert(split(s, sep)[0] == s.take(i));
                } else {
                    assert(split(s, sep)[k] == rest[k - 1]);
                }
            }
        },
        None => {
            assert forall|k: int, j: int|
                0 <= k < split(s, sep).len() && 0 <= j < split(s, sep)[k].len() implies split(
                s,
                sep,
            )[k][j] != sep by {
                assert(s.contains(s[j]));
            }
        },
    }
}

/// A sequence without the separator is a single piece.
pub proof fn lemma_split_single(s: Seq<char>, sep: char)
    requires
        forall|j: int| 0 <= j < s.len() ==> s[j] != sep,
    ensures
        split(s, sep) == seq![s],
{
    lemma_no_index(s, sep);
}

/// Splitting a sequence that joins `a` and `b` with a separator gives the
/// pieces of `a`, then the pieces of `b`.
pub proof fn lemma_split_concat(a: Seq<char>, b: Seq<char>, sep: char)
    ensures
        split(a + seq![sep] + b, sep) == split(a, sep) + split(b, sep),
    decreases a.len(),
{
    let whole = a + seq![sep] + b;
    a.index_of_first_ensures(sep);
    match a.index_of_first(sep) {
        Some(i) => {
            lemma_first_index(whole, sep, i);
            assert(whole.take(i) =~= a.take(i));
            assert(whole.skip(i + 1) =~= a.skip(i + 1) + seq![sep] + b);
            lemma_split_concat(a.skip(i + 1), b, sep);
            assert(split(whole, sep) =~= split(a, sep) + split(b, sep));
        },
        None => {
            assert forall|j: int| 0 <= j < a.len() implies whole[j] != sep by {
                assert(a.contains(a[j]));
            }
            lemma_first_index(whole, sep, a.len() as int);
            assert(whole.take(a.len() as int) =~= a);
            assert(whole.skip(a.len() + 1int) =~= b);
            assert(split(whole, sep) =~= split(a, sep) + split(b, sep));
        },
    }
}

/// Every character of a sequence that is not the separator stands in one of
/// the pieces.
pub proof fn lemma_split_covers(s: Seq<char>, sep: char)
    ensures
        forall|j: int|
            0 <= j < s.len() && s[j] != sep ==> exists|k: int|
                0 <= k < split(s, sep).len() && (#[trigger] split(s, sep)[k]).contains(s[j]),
    decreases s.len(),
{
    s.index_of_first_ensures(sep);
    match s.index_of_first(sep) {
        Some(i) => {
            let rest = s.skip(i + 1);
            lemma_split_covers(rest, sep);
            assert forall|j: int| 0 <= j < s.len() && s[j] != sep implies exists|k: int|
                0 <= k < split(s, sep).len() && (#[trigger] split(s, sep)[k]).contains(s[j]) by {
                if j < i {
                    assert(s.take(i)[j] == s[j]);
                    assert(split(s, sep)[0].contains(s[j]));
                } else {
                    assert(rest[j - i - 1] == s[j]);
                    let pieces = split(rest, sep);
                    let k = choose|k: int|
                        0 <= k < pieces.len() && (#[trigger] pieces[k]).contains(rest[j - i - 1]);
                    assert(split(s, sep)[k + 1] == split(rest, sep)[k]);
                    assert(split(s, sep)[k + 1].contains(s[j]));
                }
            }
        },
        None => {
            assert forall|j: int| 0 <= j < s.len() && s[j] != sep implies exists|k: int|
                0 <= k < split(s, sep).len() && (#[trigger] split(s, sep)[k]).contains(s[j]) by {
                assert(split(s, sep)[0].contains(s[j]));
            }
        },
    }
}

/// The characters of `s`, in order.
pub fn chars_of(s: &str) -> (chars: Vec<char>)
    ensures
        chars@ == s@,
{
    let mut chars: Vec<char> = Vec::new();
    for c in it: s.chars()
        invariant
            chars@ == it.seq().take(it.index()),
            it.seq() == s@,
    {
        chars.push(c);
    }
    chars
}

/// `i` is the place of the first `sep` in `s`.
pub proof fn lemma_first_index(s: Seq<char>, sep: char, i: int)
    requires
        0 <= i < s.len(),
        s[i] == sep,
        forall|j: int| 0 <= j < i ==> s[j] != sep,
    ensures
        s.index_of_first(sep) == Some(i),
{
    s.index_of_first_ensures(sep);
    assert(s.contains(sep));
    let k = s.index_of_first(sep).unwrap();
    if k < i {
        assert(s[k] != sep);
    }
    if i < k {
        assert(s[i] != sep);
    }
}

/// No `sep` occurs in `s`.
pub proof fn lemma_no_index(s: Seq<char>, sep: char)
    requires
        forall|j: int| 0 <= j < s.len() ==> s[j] != sep,
    ensures
        s.index_of_first(sep) is None,
{
    s.index_of_first_ensures(sep);
}

/// The place of the first `sep` at or after `from`, if there is one.
pub fn find(s: &[char], from: usize, sep: char) -> (found: Option<usize>)
    requires
        from <= s.len(),
    ensures
        match found {
            Some(i) => from <= i < s.len() && s@.skip(from as int).index_of_first(sep) == Some(
                i - from,
            ),
            None => s@.skip(from as int).index_of_first(sep) is None,
        },
{
    let mut i: usize = from;
    while i < s.len()
        invariant
            from <= i <= s.len(),
            forall|j: int| from <= j < i ==> s@[j] != sep,
        decreases s.len() - i,
    {
        if s[i] == sep {
            proof {
                lemma_first_index(s@.skip(from as int), sep, i - from);
            }
            return Some(i);
        }
        i += 1;
    }
    proof {
        lemma_no_index(s@.skip(from as int), sep);
    }
    None
}

/// A piece of a character sequence, given by the places where it starts and
/// ends.
#[derive(Clone, Copy, Debug)]
pub struct Span {
    pub start: usize,
    pub end: usize,
}

impl Span {
    /// The span lies within a sequence of `len` characters.
    pub open spec fn within(self, len: nat) -> bool {
        self.start <= self.end <= len
    }

    /// The characters of `s` that the span holds.
    pub open spec fn of(self, s: Seq<char>) -> Seq<char> {
        s.subrange(self.start as int, self.end as int)
    }
}

/// The spans mark out exactly `pieces` in `s`, one span for each piece.
pub open spec fn marks(spans: Seq<Span>, s: Seq<char>, pieces: Seq<Seq<char>>) -> bool {
    &&& spans.len() == pieces.len()
    &&& forall|k: int|
        0 <= k < spans.len() ==> (#[trigger] spans[k]).within(s.len()) && spans[k].of(s)
            == pieces[k]
}

/// Behind every span but the last stands `sep` in `s`.
pub open spec fn parted(spans: Seq<Span>, s: Seq<char>, sep: char) -> bool {
    forall|k: int|
        0 <= k < spans.len() - 1 ==> (#[trigger] spans[k]).end < s.len() && s[spans[k].end as int]
            == sep
}

/// Splits `s` at every `sep`, giving the span of each piece.
pub fn split_spans(s: &[char], sep: char) -> (spans: Vec<Span>)
    ensures
        marks(spans@, s@, split(s@, sep)),
        parted(spans@, s@, sep),
{
    let mut spans: Vec<Span> = Vec::new();
    let mut start: usize = 0;
    let ghost mut done: Seq<Seq<char>> = Seq::empty();
    assert(s@.skip(0) =~= s@);
    loop
        invariant
            start <= s.len(),
            split(s@, sep) =~= done + split(s@.skip(start as int), sep),
            marks(spans@, s@, done),
            forall|k: int|
                0 <= k < spans.len() ==> (#[trigger] spans[k]).end < s.len() && s[spans[k].end
                    as int] == sep,
        decreases s.len() - start,
    {
        let ghost rest = s@.skip(start as int);
        match find(s, start, sep) {
            Some(i) => {
                proof {
                    rest.index_of_first_ensures(sep);
                    assert(rest[i - start] == s@[i as int]);
                    assert(rest.take(i - start) =~= s@.subrange(start as int, i as int));
                    assert(rest.skip(i - start + 1) =~= s@.skip(i + 1));
                    done = done.push(s@.subrange(start as int, i as int));
                }
                spans.push(Span { start, end: i });
                start = i + 1;
            },
            None => {
                proof {
                    assert(rest =~= s@.subrange(start as int, s.len() as int));
                    done = done.push(rest);
                }
                spans.push(Span { start, end: s.len() });
                return spans;
            },
        }
    }
}

/// The ASCII lowercase form of `c`: the letters `A` to `Z` become `a` to `z`,
/// every other character stays.
pub open spec fn lower(c: char) -> char {
    if 'A' <= c && c <= 'Z' {
        ((c as u8) + 32) as char
    } else {
        c
    }
}

/// `s` with every character in its ASCII lowercase form.
pub open spec fn lowercase(s: Seq<char>) -> Seq<char> {
    s.map_values(|c: char| lower(c))
}

/// The ASCII lowercase form of `c`.
pub fn to_lower(c: char) -> (l: char)
    ensures
        l == lower(c),
{
    if c >= 'A' && c <= 'Z' {
        ((c as u8) + 32) as char
    } else {
        c
    }
}

/// A copy of `s` in ASCII lowercase.
pub fn to_lowercase(s: &[char]) -> (l: Vec<char>)
    ensures
        l@ == lowercase(s@),
{
    let mut l: Vec<char> = Vec::new();
    let mut i: usize = 0;
    while i < s.len()
        invariant
            i <= s.len(),
            l@ =~= lowercase(s@.take(i as int)),
        decreases s.len() - i,
    {
        l.push(to_lower(s[i]));
        i += 1;
    }
    assert(s@.take(s.len() as int) =~= s@);
    l
}

/// Whether `s` ends with `suffix`. The empty suffix ends every sequence.
pub fn ends_with(s: &[char], suffix: &[char]) -> (ends: bool)
    ensures
        ends == suffix@.is_suffix_of(s@),
{
    if suffix.len() > s.len() {
        return false;
    }
    let offset: usize = s.len() - suffix.len();
    let mut i: usize = 0;
    while i < suffix.len()
        invariant
            offset + suffix.len() == s.len(),
            i <= suffix.len(),
            forall|j: int| 0 <= j < i ==> suffix@[j] == s@[offset + j],
        decreases suffix.len() - i,
    {
        if suffix[i] != s[offset + i] {
            assert(s@.subrange(offset as int, s.len() as int)[i as int] != suffix@[i as int]);
            return false;
        }
        i += 1;
    }
    assert(suffix@ =~= s@.subrange(offset as int, s.len() as int));
    true
}

/// `c` is one of the ten decimal digits.
pub open spec fn is_digit(c: char) -> bool {
    '0' <= c && c <= '9'
}

/// Every character of `s` is a decimal digit.
pub open spec fn all_digits(s: Seq<char>) -> bool {
    forall|i: int| 0 <= i < s.len() ==> is_digit(#[trigger] s[i])
}

/// The number that the digits `s` spell in base ten; leading zeros do not
/// count and the empty sequence spells zero.
pub open spec fn decimal(s: Seq<char>) -> int
    decreases s.len(),
{
    if s.len() == 0 {
        0
    } else {
        decimal(s.drop_last()) * 10 + (s.last() as int - '0' as int)
    }
}

/// `s` without the `+` that it may begin with.
pub open spec fn unsigned(s: Seq<char>) -> Seq<char> {
    if s.len() > 0 && s[0] == '+' {
        s.drop_first()
    } else {
        s
    }
}

/// The byte that `s` spells: an optional `+`, then one or more decimal digits
/// whose number is at most 255. Anything else spells no byte.
pub open spec fn byte_of(s: Seq<char>) -> Option<u8> {
    let digits = unsigned(s);
    if digits.len() > 0 && all_digits(digits) && decimal(digits) <= 255 {
        Some(decimal(digits) as u8)
    } else {
        None
    }
}

/// A run of digits spells at least as much as any of its beginnings.
pub proof fn lemma_decimal_grows(s: Seq<char>, k: int)
    requires
        all_digits(s),
        0 <= k <= s.len(),
    ensures
        0 <= decimal(s.take(k)) <= decimal(s),
    decreases s.len(),
{
    if s.len() == 0 {
        assert(s.take(k) =~= s);
    } else if k == s.len() {
        assert(s.take(k) =~= s);
        lemma_decimal_grows(s.drop_last(), k - 1);
        assert(s.drop_last().take(k - 1) =~= s.drop_last());
        assert(is_digit(s[s.len() - 1]));
    } else {
        lemma_decimal_grows(s.drop_last(), k);
        assert(s.drop_last().take(k) =~= s.take(k));
        assert(is_digit(s[s.len() - 1]));
    }
}

/// Reads a byte in decimal notation.
pub fn parse_byte(s: &[char]) -> (byte: Option<u8>)
    ensures
        byte == byte_of(s@),
{
    let n: usize = s.len();
    let first: usize = if n > 0 && s[0] == '+' {
        1
    } else {
        0
    };
    if first == n {
        return None;
    }
    let ghost digits = s@.skip(first as int);
    assert(digits =~= unsigned(s@));
    let mut value: u32 = 0;
    let mut i: usize = first;
    while i < n
        invariant
            first <= i <= n,
            n == s.len(),
            digits == s@.skip(first as int),
            digits == unsigned(s@),
            all_digits(digits.take(i - first)),
            value == decimal(digits.take(i - first)),
            value <= 255,
        decreases n - i,
    {
        let c: char = s[i];
        let ghost seen = digits.take(i - first + 1);
        assert(seen.drop_last() =~= digits.take(i - first));
        assert(seen.last() == c);
        if !(c >= '0' && c <= '9') {
            assert(!is_digit(digits[i - first]));
            return None;
        }
        value = value * 10 + (c as u32 - '0' as u32);
        if value > 255 {
            proof {
                if all_digits(digits) {
                    lemma_decimal_grows(digits, i - first + 1);
                }
            }
            return None;
        }
        i += 1;
    }
    assert(digits.take(n - first) =~= digits);
    Some(value as u8)
}

} // verus!
