//! Sequences of characters: searching, splitting, cleaning and reading numbers.
//!
//! Each operation is defined on `Seq<char>` and has an executable counterpart on `Vec<char>`
//! that is proved to compute it.

use vstd::prelude::*;
use vstd::std_specs::iter::IteratorSpec;

verus! {

/// Index of the first `c` in `s`, or the length of `s` when `c` does not occur.
pub open spec fn first_index(s: Seq<char>, c: char) -> int
    decreases s.len(),
{
    if s.len() == 0 || s[0] == c {
        0
    } else {
        1 + first_index(s.skip(1), c)
    }
}

/// The pieces of `s` between the occurrences of `sep`. There is always at least one piece, and
/// two separators in a row have an empty piece between them.
pub open spec fn split(s: Seq<char>, sep: char) -> Seq<Seq<char>>
    decreases s.len(),
{
    let i = first_index(s, sep);
    if 0 <= i < s.len() {
        seq![s.take(i)].add(split(s.skip(i + 1), sep))
    } else {
        seq![s]
    }
}

/// The character sequences that a vector of pieces holds.
pub open spec fn pieces(tokens: Seq<Vec<char>>) -> Seq<Seq<char>> {
    Seq::new(tokens.len(), |k: int| tokens[k]@)
}

/// `s` with every `from` replaced by `to`.
pub open spec fn replaced(s: Seq<char>, from: char, to: char) -> Seq<char> {
    Seq::new(s.len(), |i: int| if s[i] == from { to } else { s[i] })
}

/// `s` without `suffix` at its end, or `s` itself when it does not end with `suffix`.
pub open spec fn without_suffix(s: Seq<char>, suffix: Seq<char>) -> Seq<char> {
    if ends_with(s, suffix) {
        s.take(s.len() - suffix.len())
    } else {
        s
    }
}

/// True if `pat` stands in `s` at index `i`.
pub open spec fn occurs_at(s: Seq<char>, pat: Seq<char>, i: int) -> bool {
    0 <= i && i + pat.len() <= s.len() && s.subrange(i, i + pat.len()) == pat
}

/// True if `pat` occurs somewhere in `s`.
pub open spec fn contains(s: Seq<char>, pat: Seq<char>) -> bool {
    exists|i: int| occurs_at(s, pat, i)
}

/// True if `s` ends with `suffix`.
pub open spec fn ends_with(s: Seq<char>, suffix: Seq<char>) -> bool {
    occurs_at(s, suffix, s.len() - suffix.len())
}

/// `s` without any occurrence of the character `c`.
pub open spec fn without(s: Seq<char>, c: char) -> Seq<char>
    decreases s.len(),
{
    if s.len() == 0 {
        s
    } else if s.last() == c {
        without(s.drop_last(), c)
    } else {
        without(s.drop_last(), c).push(s.last())
    }
}

/// `s` with every run of spaces reduced to a single space.
pub open spec fn squeezed(s: Seq<char>) -> Seq<char>
    decreases s.len(),
{
    if s.len() == 0 {
        s
    } else if s.last() == ' ' && s.len() >= 2 && s[s.len() - 2] == ' ' {
        squeezed(s.drop_last())
    } else {
        squeezed(s.drop_last()).push(s.last())
    }
}

/// The characters that count as blank: space, tab, line feed, vertical tab, form feed and
/// carriage return.
pub open spec fn is_blank_char(c: char) -> bool {
    c == ' ' || c == '\t' || c == '\n' || c == '\x0b' || c == '\x0c' || c == '\r'
}

/// True if `s` holds nothing but blank characters.
pub open spec fn is_blank(s: Seq<char>) -> bool {
    forall|i: int| 0 <= i < s.len() ==> is_blank_char(#[trigger] s[i])
}

/// `s` without its leading blank characters.
pub open spec fn trim_start(s: Seq<char>) -> Seq<char>
    decreases s.len(),
{
    if s.len() > 0 && is_blank_char(s[0]) {
        trim_start(s.skip(1))
    } else {
        s
    }
}

/// `s` without its trailing blank characters.
pub open spec fn trim_end(s: Seq<char>) -> Seq<char>
    decreases s.len(),
{
    if s.len() > 0 && is_blank_char(s.last()) {
        trim_end(s.drop_last())
    } else {
        s
    }
}

/// `s` without its leading and trailing blank characters.
pub open spec fn trimmed(s: Seq<char>) -> Seq<char> {
    trim_end(trim_start(s))
}

/// True if `c` is one of the decimal digits `0` to `9`.
pub open spec fn is_digit(c: char) -> bool {
    48 <= c as u32 <= 57
}

/// True if `s` holds nothing but decimal digits.
pub open spec fn all_digits(s: Seq<char>) -> bool {
    forall|i: int| 0 <= i < s.len() ==> is_digit(#[trigger] s[i])
}

/// Value of a decimal digit; 0 for any other character.
pub open spec fn digit_value(c: char) -> nat {
    if is_digit(c) {
        (c as u32 - 48) as nat
    } else {
        0
    }
}

/// The number that the digits of `s` write in base ten.
pub open spec fn digits_value(s: Seq<char>) -> nat
    decreases s.len(),
{
    if s.len() == 0 {
        0
    } else {
        digits_value(s.drop_last()) * 10 + digit_value(s.last())
    }
}

/// The digits of a number: one or more decimal digits that write at most `max`.
pub open spec fn magnitude_of(digits: Seq<char>, max: nat) -> Option<nat> {
    if digits.len() > 0 && all_digits(digits) && digits_value(digits) <= max {
        Some(digits_value(digits))
    } else {
        None
    }
}

/// The unsigned number that `s` writes: an optional `+`, then one or more decimal digits whose
/// value is at most `max`. Anything else writes no number.
pub open spec fn unsigned_of(s: Seq<char>, max: nat) -> Option<nat> {
    if s.len() > 0 && s[0] == '+' {
        magnitude_of(s.skip(1), max)
    } else {
        magnitude_of(s, max)
    }
}

/// The signed 32-bit number that `s` writes: an optional `+` or `-`, then one or more decimal
/// digits, the whole within the range of `i32`. Anything else writes no number.
pub open spec fn signed_of(s: Seq<char>) -> Option<int> {
    if s.len() > 0 && s[0] == '-' {
        match magnitude_of(s.skip(1), 2147483648) {
            Some(v) => Some(-(v as int)),
            None => None,
        }
    } else {
        match unsigned_of(s, 2147483647) {
            Some(v) => Some(v as int),
            None => None,
        }
    }
}

/// `first_index` is the index before which `c` does not occur and at which it does, or the
/// length of `s`.
pub proof fn lemma_first_index(s: Seq<char>, c: char, k: int)
    requires
        0 <= k <= s.len(),
        forall|j: int| 0 <= j < k ==> s[j] != c,
        k < s.len() ==> s[k] == c,
    ensures
        first_index(s, c) == k,
    decreases k,
{
    if k > 0 {
        lemma_first_index(s.skip(1), c, k - 1);
    }
}

/// Splitting always gives at least one piece.
pub proof fn lemma_split_nonempty(s: Seq<char>, sep: char)
    ensures
        split(s, sep).len() >= 1,
{
}

/// The value of a prefix of digits is at most the value of the whole.
pub proof fn lemma_digits_value_prefix(s: Seq<char>, i: int)
    requires
        0 <= i <= s.len(),
    ensures
        digits_value(s.take(i)) <= digits_value(s),
    decreases s.len() - i,
{
    if i < s.len() {
        lemma_digits_value_prefix(s, i + 1);
        assert(s.take(i + 1).drop_last() =~= s.take(i));
    } else {
        assert(s.take(i) =~= s);
    }
}

/// Copies the characters of `text` into a vector.
pub fn to_chars(text: &str) -> (out: Vec<char>)
    ensures
        out@ == text@,
{
    let mut out: Vec<char> = Vec::new();
    let mut it = text.chars();
    loop
        invariant
            out@ + it.remaining() == text@,
            it.obeys_prophetic_iter_laws(),
            it.decrease() is Some,
        ensures
            out@ == text@,
        decreases it.decrease()->0,
    {
        match it.next() {
            Some(c) => {
                out.push(c);
            },
            None => {
                break;
            },
        }
    }
    out
}

/// Copies the characters of `s` from index `from` up to, not including, index `to`.
pub fn copy_range(s: &Vec<char>, from: usize, to: usize) -> (out: Vec<char>)
    requires
        from <= to <= s@.len(),
    ensures
        out@ == s@.subrange(from as int, to as int),
{
    let mut out: Vec<char> = Vec::new();
    let mut i: usize = from;
    while i < to
        invariant
            from <= i <= to <= s@.len(),
            out@ == s@.subrange(from as int, i as int),
        decreases to - i,
    {
        out.push(s[i]);
        i += 1;
    }
    out
}

/// The pieces of `s` between the occurrences of `sep`, each as the range of indices it takes
/// in `s`.
pub fn split_ranges(s: &Vec<char>, sep: char) -> (out: Vec<(usize, usize)>)
    ensures
        out@.len() == split(s@, sep).len(),
        forall|k: int|
            0 <= k < out@.len() ==> (#[trigger] out@[k]).0 <= out@[k].1 <= s@.len() && s@.subrange(
                out@[k].0 as int,
                out@[k].1 as int,
            ) == split(s@, sep)[k],
{
    let mut out: Vec<(usize, usize)> = Vec::new();
    let ghost mut done: Seq<Seq<char>> = Seq::empty();
    let mut start: usize = 0;
    let mut i: usize = 0;
    assert(s@.skip(0) =~= s@);
    while i < s.len()
        invariant
            start <= i <= s@.len(),
            forall|j: int| start <= j < i ==> s@[j] != sep,
            done.len() == out@.len(),
            split(s@, sep) == done + split(s@.skip(start as int), sep),
            forall|k: int|
                0 <= k < out@.len() ==> (#[trigger] out@[k]).0 <= out@[k].1 <= s@.len()
                    && s@.subrange(out@[k].0 as int, out@[k].1 as int) == done[k],
        decreases s@.len() - i,
    {
        if s[i] == sep {
            proof {
                let rest = s@.skip(start as int);
                lemma_first_index(rest, sep, i - start);
                assert(rest.take(i - start) =~= s@.subrange(start as int, i as int));
                assert(rest.skip(i - start + 1) =~= s@.skip(i + 1));
                done = done.push(s@.subrange(start as int, i as int));
            }
            out.push((start, i));
            start = i + 1;
        }
        i += 1;
    }
    proof {
        let rest = s@.skip(start as int);
        lemma_first_index(rest, sep, rest.len() as int);
        done = done.push(rest);
    }
    out.push((start, s.len()));
    out
}

/// The pieces of `s` between the occurrences of `sep`.
pub fn split_chars(s: &Vec<char>, sep: char) -> (out: Vec<Vec<char>>)
    ensures
        pieces(out@) == split(s@, sep),
{
    let ranges = split_ranges(s, sep);
    let mut out: Vec<Vec<char>> = Vec::new();
    let mut k: usize = 0;
    while k < ranges.len()
        invariant
            k <= ranges@.len(),
            out@.len() == k,
            ranges@.len() == split(s@, sep).len(),
            forall|j: int|
                0 <= j < ranges@.len() ==> (#[trigger] ranges@[j]).0 <= ranges@[j].1 <= s@.len()
                    && s@.subrange(ranges@[j].0 as int, ranges@[j].1 as int) == split(s@, sep)[j],
            forall|j: int| 0 <= j < k ==> (#[trigger] out@[j])@ == split(s@, sep)[j],
        decreases ranges@.len() - k,
    {
        let range = ranges[k];
        let piece = copy_range(s, range.0, range.1);
        out.push(piece);
        k += 1;
    }
    out
}

/// `s` with every `from` replaced by `to`.
pub fn replace_char(s: &Vec<char>, from: char, to: char) -> (out: Vec<char>)
    ensures
        out@ == replaced(s@, from, to),
{
    let mut out: Vec<char> = Vec::new();
    let mut i: usize = 0;
    while i < s.len()
        invariant
            i <= s@.len(),
            out@.len() == i,
            forall|k: int| 0 <= k < i ==> out@[k] == replaced(s@, from, to)[k],
        decreases s@.len() - i,
    {
        if s[i] == from {
            out.push(to);
        } else {
            out.push(s[i]);
        }
        i += 1;
    }
    out
}

/// `s` without `suffix` at its end, or a copy of `s` when it does not end with `suffix`.
pub fn strip_suffix(s: &Vec<char>, suffix: &Vec<char>) -> (out: Vec<char>)
    ensures
        out@ == without_suffix(s@, suffix@),
{
    if ends_with_chars(s, suffix) {
        copy_range(s, 0, s.len() - suffix.len())
    } else {
        let out = copy_range(s, 0, s.len());
        out
    }
}

/// True if `pat` stands in `s` at index `i`.
pub fn matches_at(s: &Vec<char>, pat: &Vec<char>, i: usize) -> (out: bool)
    ensures
        out == occurs_at(s@, pat@, i as int),
{
    if pat.len() > s.len() || i > s.len() - pat.len() {
        return false;
    }
    let mut j: usize = 0;
    while j < pat.len()
        invariant
            j <= pat@.len(),
            i + pat@.len() <= s@.len() <= usize::MAX,
            forall|k: int| 0 <= k < j ==> s@[i + k] == pat@[k],
        decreases pat@.len() - j,
    {
        if s[i + j] != pat[j] {
            return false;
        }
        j += 1;
    }
    assert(s@.subrange(i as int, i + pat@.len()) =~= pat@);
    true
}

/// True if `pat` occurs somewhere in `s`.
pub fn contains_chars(s: &Vec<char>, pat: &Vec<char>) -> (out: bool)
    ensures
        out == contains(s@, pat@),
{
    if pat.len() > s.len() {
        return false;
    }
    let last: usize = s.len() - pat.len();
    let mut i: usize = 0;
    loop
        invariant
            i <= last,
            last == s@.len() - pat@.len(),
            forall|k: int| 0 <= k < i ==> !occurs_at(s@, pat@, k),
        decreases last - i,
    {
        if matches_at(s, pat, i) {
            return true;
        }
        if i == last {
            return false;
        }
        i += 1;
    }
}

/// True if `s` ends with `suffix`.
pub fn ends_with_chars(s: &Vec<char>, suffix: &Vec<char>) -> (out: bool)
    ensures
        out == ends_with(s@, suffix@),
{
    if suffix.len() > s.len() {
        return false;
    }
    matches_at(s, suffix, s.len() - suffix.len())
}

/// True if the character `c` occurs in `s`.
pub fn has_char(s: &Vec<char>, c: char) -> (out: bool)
    ensures
        out == s@.contains(c),
{
    let mut i: usize = 0;
    while i < s.len()
        invariant
            i <= s@.len(),
            forall|k: int| 0 <= k < i ==> s@[k] != c,
        decreases s@.len() - i,
    {
        if s[i] == c {
            return true;
        }
        i += 1;
    }
    false
}

/// `s` without any occurrence of the character `c`.
pub fn remove_char(s: &Vec<char>, c: char) -> (out: Vec<char>)
    ensures
        out@ == without(s@, c),
{
    let mut out: Vec<char> = Vec::new();
    let mut i: usize = 0;
    while i < s.len()
        invariant
            i <= s@.len(),
            out@ == without(s@.take(i as int), c),
        decreases s@.len() - i,
    {
        assert(s@.take(i + 1).drop_last() =~= s@.take(i as int));
        if s[i] != c {
            out.push(s[i]);
        }
        i += 1;
    }
    assert(s@.take(s@.len() as int) =~= s@);
    out
}

/// `s` with every run of spaces reduced to a single space.
pub fn squeeze_spaces(s: &Vec<char>) -> (out: Vec<char>)
    ensures
        out@ == squeezed(s@),
{
    let mut out: Vec<char> = Vec::new();
    let mut i: usize = 0;
    while i < s.len()
        invariant
            i <= s@.len(),
            out@ == squeezed(s@.take(i as int)),
        decreases s@.len() - i,
    {
        assert(s@.take(i + 1).drop_last() =~= s@.take(i as int));
        if !(s[i] == ' ' && i >= 1 && s[i - 1] == ' ') {
            out.push(s[i]);
        }
        i += 1;
    }
    assert(s@.take(s@.len() as int) =~= s@);
    out
}

/// True if `c` is a blank character.
pub fn blank_char(c: char) -> (out: bool)
    ensures
        out == is_blank_char(c),
{
    c == ' ' || c == '\t' || c == '\n' || c == '\x0b' || c == '\x0c' || c == '\r'
}

/// True if `s` holds nothing but blank characters.
pub fn blank(s: &Vec<char>) -> (out: bool)
    ensures
        out == is_blank(s@),
{
    let mut i: usize = 0;
    while i < s.len()
        invariant
            i <= s@.len(),
            forall|k: int| 0 <= k < i ==> is_blank_char(#[trigger] s@[k]),
        decreases s@.len() - i,
    {
        if !blank_char(s[i]) {
            return false;
        }
        i += 1;
    }
    true
}

/// `s` without its leading and trailing blank characters.
pub fn trim(s: &Vec<char>) -> (out: Vec<char>)
    ensures
        out@ == trimmed(s@),
{
    let mut from: usize = 0;
    assert(s@.skip(0) =~= s@);
    while from < s.len() && blank_char(s[from])
        invariant
            from <= s@.len(),
            trim_start(s@) == trim_start(s@.skip(from as int)),
        decreases s@.len() - from,
    {
        assert(s@.skip(from as int).skip(1) =~= s@.skip(from + 1));
        from += 1;
    }
    let mut to: usize = s.len();
    while to > from && blank_char(s[to - 1])
        invariant
            from <= to <= s@.len(),
            trimmed(s@) == trim_end(s@.subrange(from as int, to as int)),
        decreases to - from,
    {
        assert(s@.subrange(from as int, to as int).drop_last() =~= s@.subrange(
            from as int,
            to - 1,
        ));
        to -= 1;
    }
    copy_range(s, from, to)
}

/// The value of the decimal digit `c`, if it is one.
pub fn digit_of(c: char) -> (out: Option<u8>)
    ensures
        out is Some == is_digit(c),
        out is Some ==> out->0 == digit_value(c),
{
    let code: u32 = c as u32;
    if 48 <= code && code <= 57 {
        Some((code - 48) as u8)
    } else {
        None
    }
}

/// Reads the digits of `s` from index `from` on as a number that is at most `max`.
pub fn read_magnitude(s: &Vec<char>, from: usize, max: u64) -> (out: Option<u64>)
    requires
        from <= s@.len(),
    ensures
        match magnitude_of(s@.skip(from as int), max as nat) {
            Some(v) => out == Some(v as u64) && v == v as u64,
            None => out is None,
        },
{
    let ghost digits = s@.skip(from as int);
    if from == s.len() {
        return None;
    }
    let mut value: u64 = 0;
    let mut i: usize = from;
    while i < s.len()
        invariant
            from <= i <= s@.len(),
            digits == s@.skip(from as int),
            all_digits(digits.take(i - from)),
            value == digits_value(digits.take(i - from)),
            value <= max,
        decreases s@.len() - i,
    {
        proof {
            assert(digits.take(i - from + 1).drop_last() =~= digits.take(i - from));
        }
        match digit_of(s[i]) {
            Some(d) => {
                let wide: u128 = value as u128 * 10 + d as u128;
                if wide > max as u128 {
                    proof {
                        lemma_digits_value_prefix(digits, i - from + 1);
                    }
                    return None;
                }
                value = wide as u64;
            },
            None => {
                assert(digits[i - from] == s@[i as int]);
                return None;
            },
        }
        i += 1;
    }
    assert(digits.take(i - from) =~= digits);
    Some(value)
}

/// Reads `s` as an unsigned number that is at most `max`.
pub fn read_unsigned(s: &Vec<char>, max: u64) -> (out: Option<u64>)
    ensures
        match unsigned_of(s@, max as nat) {
            Some(v) => out == Some(v as u64) && v == v as u64,
            None => out is None,
        },
{
    if s.len() > 0 && s[0] == '+' {
        read_magnitude(s, 1, max)
    } else {
        assert(s@.skip(0) =~= s@);
        read_magnitude(s, 0, max)
    }
}

/// Reads `s` as a signed 32-bit number.
pub fn read_signed(s: &Vec<char>) -> (out: Option<i32>)
    ensures
        match signed_of(s@) {
            Some(v) => out == Some(v as i32) && v == v as i32,
            None => out is None,
        },
{
    if s.len() > 0 && s[0] == '-' {
        match read_magnitude(s, 1, 2147483648) {
            Some(v) => Some((-(v as i64)) as i32),
            None => None,
        }
    } else {
        match read_unsigned(s, 2147483647) {
            Some(v) => Some(v as i32),
            None => None,
        }
    }
}

} // verus!
