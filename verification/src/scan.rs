//! Reading text: whitespace, words, lines and numbers.
use crate::text::{chars_of, dec, dec_nat, text_of, views};
use vstd::prelude::*;

verus! {

/// The characters that Unicode counts as whitespace.
pub open spec fn is_white(c: char) -> bool {
    ||| '\u{9}' <= c <= '\u{d}'
    ||| c == ' '
    ||| c == '\u{85}'
    ||| c == '\u{a0}'
    ||| c == '\u{1680}'
    ||| '\u{2000}' <= c <= '\u{200a}'
    ||| c == '\u{2028}'
    ||| c == '\u{2029}'
    ||| c == '\u{202f}'
    ||| c == '\u{205f}'
    ||| c == '\u{3000}'
}

/// Whether a character is whitespace.
pub fn white(c: char) -> (r: bool)
    ensures
        r == is_white(c),
{
    ('\u{9}' <= c && c <= '\u{d}') || c == ' ' || c == '\u{85}' || c == '\u{a0}' || c == '\u{1680}'
        || ('\u{2000}' <= c && c <= '\u{200a}') || c == '\u{2028}' || c == '\u{2029}' || c
        == '\u{202f}' || c == '\u{205f}' || c == '\u{3000}'
}

/// `s` without the whitespace it starts with.
pub open spec fn trim_front(s: Seq<char>) -> Seq<char>
    decreases s.len(),
{
    if s.len() > 0 && is_white(s[0]) {
        trim_front(s.drop_first())
    } else {
        s
    }
}

/// `s` without the whitespace it ends with.
pub open spec fn trim_back(s: Seq<char>) -> Seq<char>
    decreases s.len(),
{
    if s.len() > 0 && is_white(s.last()) {
        trim_back(s.drop_last())
    } else {
        s
    }
}

/// `s` without the whitespace around it.
pub open spec fn trimmed(s: Seq<char>) -> Seq<char> {
    trim_back(trim_front(s))
}

/// Where the text without the whitespace around it starts and ends in
/// `v[from..to]`.
pub fn trim_range(v: &Vec<char>, from: usize, to: usize) -> (r: (usize, usize))
    requires
        from <= to <= v.len(),
    ensures
        from <= r.0 <= r.1 <= to,
        v@.subrange(r.0 as int, r.1 as int) == trimmed(v@.subrange(from as int, to as int)),
{
    let mut a: usize = from;
    let ghost whole = v@.subrange(from as int, to as int);
    while a < to && white(v[a])
        invariant
            from <= a <= to <= v.len(),
            trim_front(v@.subrange(a as int, to as int)) == trim_front(whole),
        decreases to - a,
    {
        assert(v@.subrange(a as int, to as int).drop_first() =~= v@.subrange(a + 1, to as int));
        a = a + 1;
    }
    let mut b: usize = to;
    assert(v@.subrange(a as int, to as int) == trim_front(whole));
    while b > a && white(v[b - 1])
        invariant
            from <= a <= b <= to <= v.len(),
            trim_back(v@.subrange(a as int, b as int)) == trimmed(whole),
        decreases b,
    {
        assert(v@.subrange(a as int, b as int).drop_last() =~= v@.subrange(a as int, b - 1));
        b = b - 1;
    }
    (a, b)
}

/// The text without the whitespace around it.
pub fn trim(s: &str) -> (r: String)
    ensures
        r@ == trimmed(s@),
{
    let v = chars_of(s);
    let (a, b) = trim_range(&v, 0, v.len());
    assert(v@.subrange(0, v.len() as int) =~= v@);
    text_of(&v, a, b)
}

/// How many characters come before the first whitespace.
pub open spec fn word_len(s: Seq<char>) -> nat
    decreases s.len(),
{
    if s.len() == 0 || is_white(s[0]) {
        0
    } else {
        1 + word_len(s.drop_first())
    }
}

/// A word is no longer than the text it starts.
pub proof fn lemma_word_len(s: Seq<char>)
    ensures
        word_len(s) <= s.len(),
    decreases s.len(),
{
    if s.len() > 0 && !is_white(s[0]) {
        lemma_word_len(s.drop_first());
    }
}

/// The words of `s`: what stands between its whitespace.
pub open spec fn words(s: Seq<char>) -> Seq<Seq<char>>
    decreases s.len(),
{
    if s.len() == 0 {
        seq![]
    } else if is_white(s[0]) {
        words(s.drop_first())
    } else {
        proof {
            lemma_word_len(s);
        }
        seq![s.take(word_len(s) as int)] + words(s.skip(word_len(s) as int))
    }
}

/// The words of `s`.
pub fn split_words(s: &str) -> (r: Vec<String>)
    ensures
        views(r@) == words(s@),
{
    let v = chars_of(s);
    let mut out: Vec<String> = Vec::new();
    let mut i: usize = 0;
    assert(v@.skip(0) =~= s@);
    assert(views(out@) + words(s@) =~= words(s@));
    while i < v.len()
        invariant
            i <= v.len(),
            v@ == s@,
            views(out@) + words(v@.skip(i as int)) == words(s@),
        decreases v.len() - i,
    {
        let ghost rest = v@.skip(i as int);
        if white(v[i]) {
            assert(rest.drop_first() =~= v@.skip(i + 1));
            i = i + 1;
        } else {
            let start: usize = i;
            assert(rest.skip(0) =~= rest);
            while i < v.len() && !white(v[i])
                invariant
                    start <= i <= v.len(),
                    rest == v@.skip(start as int),
                    word_len(rest) == (i - start) + word_len(v@.skip(i as int)),
                decreases v.len() - i,
            {
                assert(v@.skip(i as int).drop_first() =~= v@.skip(i + 1));
                i = i + 1;
            }
            let word = text_of(&v, start, i);
            proof {
                assert(word_len(rest) == i - start);
                assert(rest.take(i - start) =~= word@);
                assert(rest.skip(i - start) =~= v@.skip(i as int));
                assert(views(out@.push(word)) =~= views(out@).push(word@));
                assert(views(out@).push(word@) + words(v@.skip(i as int)) =~= views(out@) + (
                seq![word@] + words(v@.skip(i as int))));
            }
            out.push(word);
        }
    }
    assert(v@.skip(i as int) =~= Seq::<char>::empty());
    assert(views(out@) + words(v@.skip(i as int)) =~= views(out@));
    out
}

/// How many characters come before the first line feed.
pub open spec fn line_len(s: Seq<char>) -> nat
    decreases s.len(),
{
    if s.len() == 0 || s[0] == '\n' {
        0
    } else {
        1 + line_len(s.drop_first())
    }
}

/// The lines of `s`: what stands between its line feeds. Nothing after the
/// last line feed is no line.
pub open spec fn lines_of(s: Seq<char>) -> Seq<Seq<char>>
    decreases s.len(),
{
    if s.len() == 0 {
        seq![]
    } else {
        seq![s.take(line_len(s) as int)] + (if line_len(s) < s.len() {
            lines_of(s.skip(line_len(s) as int + 1))
        } else {
            seq![]
        })
    }
}

/// The lines of `s`.
pub fn split_lines(s: &str) -> (r: Vec<String>)
    ensures
        views(r@) == lines_of(s@),
{
    let v = chars_of(s);
    let mut out: Vec<String> = Vec::new();
    let mut i: usize = 0;
    assert(v@.skip(0) =~= s@);
    assert(views(out@) + lines_of(s@) =~= lines_of(s@));
    while i < v.len()
        invariant
            i <= v.len(),
            v@ == s@,
            views(out@) + lines_of(v@.skip(i as int)) == lines_of(s@),
        decreases v.len() - i,
    {
        let ghost rest = v@.skip(i as int);
        let start: usize = i;
        while i < v.len() && v[i] != '\n'
            invariant
                start <= i <= v.len(),
                rest == v@.skip(start as int),
                line_len(rest) == (i - start) + line_len(v@.skip(i as int)),
            decreases v.len() - i,
        {
            assert(v@.skip(i as int).drop_first() =~= v@.skip(i + 1));
            i = i + 1;
        }
        let line = text_of(&v, start, i);
        proof {
            assert(line_len(rest) == i - start);
            assert(rest.take(i - start) =~= line@);
            assert(views(out@.push(line)) =~= views(out@).push(line@));
            if i < v.len() {
                assert(rest.skip(i - start + 1) =~= v@.skip(i + 1));
                assert(views(out@).push(line@) + lines_of(v@.skip(i + 1)) =~= views(out@) + (
                seq![line@] + lines_of(v@.skip(i + 1))));
            } else {
                assert(v@.skip(i as int) =~= Seq::<char>::empty());
                assert(views(out@).push(line@) + lines_of(v@.skip(i as int)) =~= views(out@) + (
                seq![line@] + Seq::<Seq<char>>::empty()));
            }
        }
        out.push(line);
        if i < v.len() {
            i = i + 1;
        }
    }
    assert(v@.skip(i as int) =~= Seq::<char>::empty());
    assert(views(out@) + lines_of(v@.skip(i as int)) =~= views(out@));
    out
}

/// The decimal digits.
pub open spec fn is_digit(c: char) -> bool {
    '0' <= c <= '9'
}

/// Whether every character is a digit.
pub open spec fn all_digits(s: Seq<char>) -> bool {
    forall|i: int| 0 <= i < s.len() ==> is_digit(#[trigger] s[i])
}

/// The number that digits spell.
pub open spec fn digits_value(s: Seq<char>) -> int
    decreases s.len(),
{
    if s.len() == 0 {
        0
    } else {
        digits_value(s.drop_last()) * 10 + (s.last() as int - '0' as int)
    }
}

/// The number that `s` spells: digits, with a sign before them or not. A minus
/// sign counts only where `signed` holds.
pub open spec fn number_in(s: Seq<char>, signed: bool) -> Option<int> {
    if s.len() > 1 && s[0] == '+' && all_digits(s.drop_first()) {
        Some(digits_value(s.drop_first()))
    } else if signed && s.len() > 1 && s[0] == '-' && all_digits(s.drop_first()) {
        Some(-digits_value(s.drop_first()))
    } else if s.len() > 0 && all_digits(s) {
        Some(digits_value(s))
    } else {
        None
    }
}

proof fn lemma_more_digits(s: Seq<char>, k: int)
    requires
        all_digits(s),
        0 <= k <= s.len(),
    ensures
        0 <= digits_value(s.take(k)) <= digits_value(s),
    decreases s.len(),
{
    if s.len() == 0 {
        assert(s.take(k) =~= s);
    } else if k == s.len() {
        assert(s.take(k) =~= s);
        lemma_more_digits(s.drop_last(), s.len() - 1);
        assert(s.drop_last().take(s.len() - 1) =~= s.drop_last());
        assert(is_digit(s[s.len() - 1]));
    } else {
        lemma_more_digits(s.drop_last(), k);
        assert(s.drop_last().take(k) =~= s.take(k));
        assert(is_digit(s[s.len() - 1]));
    }
}

fn digit_of(c: char) -> (r: Option<u8>)
    ensures
        match r {
            Some(d) => is_digit(c) && d == c as int - '0' as int && d <= 9,
            None => !is_digit(c),
        },
{
    match c {
        '0' => Some(0),
        '1' => Some(1),
        '2' => Some(2),
        '3' => Some(3),
        '4' => Some(4),
        '5' => Some(5),
        '6' => Some(6),
        '7' => Some(7),
        '8' => Some(8),
        '9' => Some(9),
        _ => None,
    }
}

/// The digits of `v[from..to]`, as far as their number does not exceed
/// `0x1_0000_0000_0000_0000`.
fn read_digits(v: &Vec<char>, from: usize, to: usize) -> (r: Option<i128>)
    requires
        from <= to <= v.len(),
    ensures
        ({
            let s = v@.subrange(from as int, to as int);
            match r {
                Some(n) => s.len() > 0 && all_digits(s) && n == digits_value(s) && 0 <= n
                    <= 0x1_0000_0000_0000_0000,
                None => s.len() == 0 || !all_digits(s) || digits_value(s)
                    > 0x1_0000_0000_0000_0000,
            }
        }),
{
    if from == to {
        return None;
    }
    let ghost s = v@.subrange(from as int, to as int);
    let mut n: i128 = 0;
    let mut i: usize = from;
    let mut large = false;
    while i < to
        invariant
            from <= i <= to <= v.len(),
            s == v@.subrange(from as int, to as int),
            all_digits(s.take(i - from)),
            !large ==> n == digits_value(s.take(i - from)) && 0 <= n <= 0x1_0000_0000_0000_0000,
            large ==> digits_value(s.take(i - from)) > 0x1_0000_0000_0000_0000,
        decreases to - i,
    {
        let ghost k = i - from;
        proof {
            assert(s.take(k + 1).drop_last() =~= s.take(k));
            assert(s.take(k + 1).last() == v@[i as int]);
        }
        match digit_of(v[i]) {
            None => {
                assert(!is_digit(s[k]));
                return None;
            },
            Some(d) => {
                assert(all_digits(s.take(k + 1))) by {
                    assert forall|j: int| 0 <= j < k + 1 implies is_digit(
                        #[trigger] s.take(k + 1)[j],
                    ) by {
                        if j < k {
                            assert(s.take(k)[j] == s.take(k + 1)[j]);
                        }
                    }
                }
                if large {
                    assert(digits_value(s.take(k + 1)) == digits_value(s.take(k)) * 10 + d);
                } else {
                    n = n * 10 + d as i128;
                    if n > 0x1_0000_0000_0000_0000 {
                        large = true;
                    }
                }
            },
        }
        i = i + 1;
    }
    assert(s.take(i - from) =~= s);
    if large {
        None
    } else {
        Some(n)
    }
}

/// The signed number of sixty-four bits that `v[from..to]` spells.
pub fn parse_i64(v: &Vec<char>, from: usize, to: usize) -> (r: Option<i64>)
    requires
        from <= to <= v.len(),
    ensures
        match (r, number_in(v@.subrange(from as int, to as int), true)) {
            (Some(n), Some(want)) => n == want,
            (None, Some(want)) => want < i64::MIN || want > i64::MAX,
            (None, None) => true,
            _ => false,
        },
{
    let ghost s = v@.subrange(from as int, to as int);
    if from == to {
        return None;
    }
    assert(s[0] == v@[from as int]);
    assert(s.drop_first() =~= v@.subrange(from + 1, to as int));
    let plus = v[from] == '+';
    let minus = v[from] == '-';
    proof {
        if plus || minus {
            assert(!is_digit(s[0]));
        }
        if all_digits(s) {
            lemma_more_digits(s, 0);
        }
        if all_digits(s.drop_first()) {
            lemma_more_digits(s.drop_first(), 0);
        }
    }
    if plus || minus {
        match read_digits(v, from + 1, to) {
            None => None,
            Some(n) => {
                if plus {
                    if n <= i64::MAX as i128 {
                        Some(n as i64)
                    } else {
                        None
                    }
                } else if n <= 0x8000_0000_0000_0000 {
                    Some((-n) as i64)
                } else {
                    None
                }
            },
        }
    } else {
        match read_digits(v, from, to) {
            None => None,
            Some(n) => {
                if n <= i64::MAX as i128 {
                    Some(n as i64)
                } else {
                    None
                }
            },
        }
    }
}

/// The text of the error that parsing `s` as a `u8` gives.
pub uninterp spec fn u8_error(s: Seq<char>) -> Seq<char>;

/// Reads an unsigned number of eight bits: `str::parse::<u8>`.
///
/// Claimed of it: it succeeds on an optional plus sign and digits whose number
/// fits, and gives that number; the text of its error is a function of `s`.
#[verifier::external_body]
pub(crate) fn parse_u8(s: &str) -> (r: Result<u8, String>)
    ensures
        match (r, number_in(s@, false)) {
            (Ok(n), Some(want)) => n == want,
            (Ok(_), None) => false,
            (Err(e), Some(want)) => want > u8::MAX && e@ == u8_error(s@),
            (Err(e), None) => e@ == u8_error(s@),
        },
{
    s.parse::<u8>().map_err(|e| e.to_string())
}

/// The text of the error that parsing `s` as a `u16` gives.
pub uninterp spec fn u16_error(s: Seq<char>) -> Seq<char>;

/// Reads an unsigned number of sixteen bits: `str::parse::<u16>`.
///
/// Claimed of it: it succeeds on an optional plus sign and digits whose number
/// fits, and gives that number; the text of its error is a function of `s`.
#[verifier::external_body]
pub(crate) fn parse_u16(s: &str) -> (r: Result<u16, String>)
    ensures
        match (r, number_in(s@, false)) {
            (Ok(n), Some(want)) => n == want,
            (Ok(_), None) => false,
            (Err(e), Some(want)) => want > u16::MAX && e@ == u16_error(s@),
            (Err(e), None) => e@ == u16_error(s@),
        },
{
    s.parse::<u16>().map_err(|e| e.to_string())
}

/// The text of the error that parsing `s` as an `i32` gives.
pub uninterp spec fn i32_error(s: Seq<char>) -> Seq<char>;

/// Reads a signed number of thirty-two bits: `str::parse::<i32>`.
///
/// Claimed of it: it succeeds on an optional sign and digits whose number
/// fits, and gives that number; the text of its error is a function of `s`.
#[verifier::external_body]
pub(crate) fn parse_i32(s: &str) -> (r: Result<i32, String>)
    ensures
        match (r, number_in(s@, true)) {
            (Ok(n), Some(want)) => n == want,
            (Ok(_), None) => false,
            (Err(e), Some(want)) => (want < i32::MIN || want > i32::MAX) && e@ == i32_error(s@),
            (Err(e), None) => e@ == i32_error(s@),
        },
{
    s.parse::<i32>().map_err(|e| e.to_string())
}

/// The lowercase form of an ASCII letter; any other character as it is.
pub open spec fn lower(c: char) -> char {
    if 'A' <= c <= 'Z' {
        (c as int + 32) as char
    } else {
        c
    }
}

fn lower_of(c: char) -> (r: char)
    ensures
        r == lower(c),
{
    match c {
        'A' => 'a',
        'B' => 'b',
        'C' => 'c',
        'D' => 'd',
        'E' => 'e',
        'F' => 'f',
        'G' => 'g',
        'H' => 'h',
        'I' => 'i',
        'J' => 'j',
        'K' => 'k',
        'L' => 'l',
        'M' => 'm',
        'N' => 'n',
        'O' => 'o',
        'P' => 'p',
        'Q' => 'q',
        'R' => 'r',
        'S' => 's',
        'T' => 't',
        'U' => 'u',
        'V' => 'v',
        'W' => 'w',
        'X' => 'x',
        'Y' => 'y',
        'Z' => 'z',
        _ => c,
    }
}

/// `s` without a sign at its start.
pub open spec fn unsigned(s: Seq<char>) -> Seq<char> {
    if s.len() > 0 && (s[0] == '+' || s[0] == '-') {
        s.drop_first()
    } else {
        s
    }
}

/// Digits with a point among, before or after them, or none.
pub open spec fn is_mantissa(s: Seq<char>) -> bool {
    (s.len() > 0 && all_digits(s)) || (s.len() > 1 && exists|p: int|
        0 <= p < s.len() && #[trigger] s[p] == '.' && all_digits(s.take(p)) && all_digits(
            s.skip(p + 1),
        ))
}

/// A decimal number in lowercase: a mantissa, and behind an `e` an exponent,
/// or none.
pub open spec fn is_decimal(s: Seq<char>) -> bool {
    is_mantissa(s) || exists|e: int|
        0 <= e < s.len() && #[trigger] s[e] == 'e' && is_mantissa(s.take(e)) && unsigned(
            s.skip(e + 1),
        ).len() > 0 && all_digits(unsigned(s.skip(e + 1)))
}

/// A floating-point number: a decimal number, an infinity or a NaN, signed or
/// not, in either case of letters.
pub open spec fn is_float(s: Seq<char>) -> bool {
    let t = unsigned(s.map_values(|c: char| lower(c)));
    t == "inf"@ || t == "infinity"@ || t == "nan"@ || is_decimal(t)
}

fn digits_to(v: &Vec<char>, from: usize, to: usize) -> (r: usize)
    requires
        from <= to <= v.len(),
    ensures
        from <= r <= to,
        all_digits(v@.subrange(from as int, r as int)),
        r < to ==> !is_digit(v@[r as int]),
{
    let mut i: usize = from;
    while i < to
        invariant
            from <= i <= to <= v.len(),
            all_digits(v@.subrange(from as int, i as int)),
        decreases to - i,
    {
        match digit_of(v[i]) {
            None => {
                return i;
            },
            Some(_) => {
                assert(all_digits(v@.subrange(from as int, i + 1))) by {
                    let t = v@.subrange(from as int, i + 1);
                    assert forall|j: int| 0 <= j < t.len() implies is_digit(#[trigger] t[j]) by {
                        if j < i - from {
                            assert(v@.subrange(from as int, i as int)[j] == t[j]);
                        }
                    }
                }
            },
        }
        i = i + 1;
    }
    i
}

fn mantissa(v: &Vec<char>, to: usize) -> (r: bool)
    requires
        to <= v.len(),
    ensures
        r == is_mantissa(v@.subrange(0, to as int)),
{
    let ghost s = v@.subrange(0, to as int);
    let p = digits_to(v, 0, to);
    if p == to {
        proof {
            if exists|q: int|
                0 <= q < s.len() && #[trigger] s[q] == '.' && all_digits(s.take(q)) && all_digits(
                    s.skip(q + 1),
                ) {
                let q = choose|q: int| 0 <= q < s.len() && #[trigger] s[q] == '.';
                assert(is_digit(s[q]));
            }
        }
        return to > 0;
    }
    assert(!is_digit(s[p as int]));
    if v[p] != '.' {
        proof {
            if exists|q: int|
                0 <= q < s.len() && #[trigger] s[q] == '.' && all_digits(s.take(q)) && all_digits(
                    s.skip(q + 1),
                ) {
                let q = choose|q: int|
                    0 <= q < s.len() && #[trigger] s[q] == '.' && all_digits(s.take(q))
                        && all_digits(s.skip(q + 1));
                if q < p {
                    assert(v@.subrange(0, p as int)[q] == s[q]);
                } else if q > p {
                    assert(s.take(q)[p as int] == s[p as int]);
                }
            }
        }
        return false;
    }
    let q = digits_to(v, p + 1, to);
    proof {
        assert(s.take(p as int) =~= v@.subrange(0, p as int));
        if q == to {
            assert(s.skip(p + 1) =~= v@.subrange(p + 1, to as int));
            assert(s[p as int] == '.' && all_digits(s.take(p as int)) && all_digits(
                s.skip(p + 1),
            ));
        } else {
            assert(!is_digit(s[q as int]));
            if exists|k: int|
                0 <= k < s.len() && #[trigger] s[k] == '.' && all_digits(s.take(k)) && all_digits(
                    s.skip(k + 1),
                ) {
                let k = choose|k: int|
                    0 <= k < s.len() && #[trigger] s[k] == '.' && all_digits(s.take(k))
                        && all_digits(s.skip(k + 1));
                if k < p {
                    assert(v@.subrange(0, p as int)[k] == s[k]);
                } else if k > p {
                    assert(s.take(k)[p as int] == s[p as int]);
                } else {
                    assert(s.skip(k + 1)[q - k - 1] == s[q as int]);
                }
            }
        }
    }
    q == to && to > 1
}

fn exponent(v: &Vec<char>, from: usize) -> (r: bool)
    requires
        from <= v.len(),
    ensures
        r == (unsigned(v@.skip(from as int)).len() > 0 && all_digits(
            unsigned(v@.skip(from as int)),
        )),
{
    let ghost s = v@.skip(from as int);
    let mut start: usize = from;
    if from < v.len() {
        assert(s[0] == v@[from as int]);
        if v[from] == '+' || v[from] == '-' {
            start = from + 1;
        }
    }
    let ghost u = unsigned(s);
    assert(u =~= v@.skip(start as int));
    let end = digits_to(v, start, v.len());
    proof {
        if end == v.len() {
            assert(v@.subrange(start as int, end as int) =~= u);
        } else {
            assert(!is_digit(u[end - start]));
        }
    }
    end == v.len() && start < v.len()
}

fn decimal(v: &Vec<char>) -> (r: bool)
    ensures
        r == is_decimal(v@),
{
    let mut e: usize = 0;
    while e < v.len() && v[e] != 'e'
        invariant
            e <= v.len(),
            forall|i: int| 0 <= i < e ==> v@[i] != 'e',
        decreases v.len() - e,
    {
        e = e + 1;
    }
    let front = mantissa(v, e);
    if e == v.len() {
        assert(v@.subrange(0, e as int) =~= v@);
        front
    } else {
        let back = exponent(v, e + 1);
        proof {
            let s = v@;
            assert(s.take(e as int) =~= v@.subrange(0, e as int));
            assert(!is_digit('e'));
            assert(!is_mantissa(s)) by {
                if all_digits(s) {
                    assert(is_digit(s[e as int]));
                }
                if exists|p: int|
                    0 <= p < s.len() && #[trigger] s[p] == '.' && all_digits(s.take(p))
                        && all_digits(s.skip(p + 1)) {
                    let p = choose|p: int|
                        0 <= p < s.len() && #[trigger] s[p] == '.' && all_digits(s.take(p))
                            && all_digits(s.skip(p + 1));
                    if e < p {
                        assert(s.take(p)[e as int] == 'e');
                    } else {
                        assert(s.skip(p + 1)[e - p - 1] == 'e');
                    }
                }
            }
            if is_decimal(s) {
                let k = choose|k: int|
                    0 <= k < s.len() && #[trigger] s[k] == 'e' && is_mantissa(s.take(k))
                        && unsigned(s.skip(k + 1)).len() > 0 && all_digits(
                        unsigned(s.skip(k + 1)),
                    );
                if k > e {
                    let t = s.take(k);
                    assert(t[e as int] == 'e');
                    if all_digits(t) {
                        assert(is_digit(t[e as int]));
                    }
                    if exists|p: int|
                        0 <= p < t.len() && #[trigger] t[p] == '.' && all_digits(t.take(p))
                            && all_digits(t.skip(p + 1)) {
                        let p = choose|p: int|
                            0 <= p < t.len() && #[trigger] t[p] == '.' && all_digits(t.take(p))
                                && all_digits(t.skip(p + 1));
                        if e < p {
                            assert(t.take(p)[e as int] == 'e');
                        } else {
                            assert(t.skip(p + 1)[e - p - 1] == 'e');
                        }
                    }
                }
            }
        }
        front && back
    }
}

/// Whether a text is a floating-point number.
pub fn float(s: &str) -> (r: bool)
    ensures
        r == is_float(s@),
{
    let v = chars_of(s);
    let mut t: Vec<char> = Vec::new();
    let mut i: usize = 0;
    let ghost low = s@.map_values(|c: char| lower(c));
    let mut skip: usize = 0;
    if v.len() > 0 && (v[0] == '+' || v[0] == '-') {
        skip = 1;
    }
    i = skip;
    proof {
        if v.len() > 0 {
            assert(low[0] == lower(v@[0]));
        }
    }
    while i < v.len()
        invariant
            skip <= i <= v.len(),
            v@ == s@,
            low == s@.map_values(|c: char| lower(c)),
            t@ == low.subrange(skip as int, i as int),
        decreases v.len() - i,
    {
        t.push(lower_of(v[i]));
        i = i + 1;
        assert(t@ =~= low.subrange(skip as int, i as int));
    }
    assert(t@ =~= unsigned(low));
    let text = text_of(&t, 0, t.len());
    assert(text@ =~= t@);
    crate::text::same(text.as_str(), "inf") || crate::text::same(text.as_str(), "infinity")
        || crate::text::same(text.as_str(), "nan") || decimal(&t)
}

/// A number without a minus sign is not negative.
pub proof fn lemma_unsigned_numbers(s: Seq<char>)
    ensures
        number_in(s, false) is Some ==> number_in(s, false)->0 >= 0,
{
    if all_digits(s) {
        lemma_more_digits(s, 0);
    }
    if s.len() > 0 && all_digits(s.drop_first()) {
        lemma_more_digits(s.drop_first(), 0);
    }
}

/// Blanks, tabs and the ends of lines are whitespace; letters, digits and the
/// signs of numbers and names are not.
pub proof fn law_what_is_whitespace(c: char)
    ensures
        c == ' ' || c == '\t' || c == '\n' || c == '\r' ==> is_white(c),
        'a' <= c <= 'z' || 'A' <= c <= 'Z' || '0' <= c <= '9' || c == '+' || c == '-' || c == '.'
            || c == '_' || c == '/' || c == ':' ==> !is_white(c),
{
}

proof fn lemma_trim_front(s: Seq<char>) -> (k: int)
    ensures
        0 <= k <= s.len(),
        trim_front(s) == s.skip(k),
        forall|i: int| 0 <= i < k ==> is_white(#[trigger] s[i]),
        k < s.len() ==> !is_white(s[k]),
    decreases s.len(),
{
    if s.len() > 0 && is_white(s[0]) {
        let rest = s.drop_first();
        let k = lemma_trim_front(rest);
        assert(rest.skip(k) =~= s.skip(k + 1));
        assert forall|i: int| 0 <= i < k + 1 implies is_white(#[trigger] s[i]) by {
            if i > 0 {
                assert(rest[i - 1] == s[i]);
            }
        }
        k + 1
    } else {
        assert(s.skip(0) =~= s);
        0
    }
}

proof fn lemma_trim_back(s: Seq<char>) -> (k: int)
    ensures
        0 <= k <= s.len(),
        trim_back(s) == s.take(k),
        forall|i: int| k <= i < s.len() ==> is_white(#[trigger] s[i]),
        k > 0 ==> !is_white(s[k - 1]),
    decreases s.len(),
{
    if s.len() > 0 && is_white(s.last()) {
        let front = s.drop_last();
        let k = lemma_trim_back(front);
        assert(front.take(k) =~= s.take(k));
        assert forall|i: int| k <= i < s.len() implies is_white(#[trigger] s[i]) by {
            if i < front.len() {
                assert(front[i] == s[i]);
            }
        }
        k
    } else {
        assert(s.take(s.len() as int) =~= s);
        s.len() as int
    }
}

/// What is trimmed is what is left when only whitespace is taken away, at both
/// ends, until neither end is whitespace.
pub proof fn law_trimming_takes_only_whitespace(s: Seq<char>)
    ensures
        exists|a: int, b: int|
            0 <= a <= b <= s.len() && trimmed(s) == #[trigger] s.subrange(a, b) && (forall|i: int|
                0 <= i < a || b <= i < s.len() ==> is_white(#[trigger] s[i])),
        trimmed(s).len() > 0 ==> !is_white(trimmed(s)[0]) && !is_white(trimmed(s).last()),
{
    let a = lemma_trim_front(s);
    let t = s.skip(a);
    let k = lemma_trim_back(t);
    let b = a + k;
    assert(t.take(k) =~= s.subrange(a, b));
    assert forall|i: int| 0 <= i < a || b <= i < s.len() implies is_white(#[trigger] s[i]) by {
        if i >= b {
            assert(t[i - a] == s[i]);
        }
    }
    if k > 0 {
        assert(t[0] == s[a]);
    }
}

/// The words hold all that is not whitespace, in its order, and no word holds
/// whitespace or nothing.
pub proof fn law_words_hold_all_but_whitespace(s: Seq<char>)
    ensures
        forall|i: int|
            0 <= i < words(s).len() ==> (#[trigger] words(s)[i]).len() > 0 && forall|j: int|
                0 <= j < words(s)[i].len() ==> !is_white(#[trigger] words(s)[i][j]),
        words(s).len() == 0 <==> forall|i: int| 0 <= i < s.len() ==> is_white(#[trigger] s[i]),
    decreases s.len(),
{
    if s.len() > 0 {
        if is_white(s[0]) {
            let rest = s.drop_first();
            law_words_hold_all_but_whitespace(rest);
            if words(s).len() == 0 {
                assert forall|i: int| 0 <= i < s.len() implies is_white(#[trigger] s[i]) by {
                    if i > 0 {
                        assert(rest[i - 1] == s[i]);
                    }
                }
            } else if forall|i: int| 0 <= i < s.len() ==> is_white(#[trigger] s[i]) {
                assert forall|i: int| 0 <= i < rest.len() implies is_white(#[trigger] rest[i]) by {
                    assert(s[i + 1] == rest[i]);
                }
            }
        } else {
            lemma_word_len(s);
            lemma_word_is_black(s);
            let n = word_len(s) as int;
            law_words_hold_all_but_whitespace(s.skip(n));
            let first = s.take(n);
            let rest = words(s.skip(n));
            assert forall|i: int| 0 <= i < words(s).len() implies (#[trigger] words(s)[i]).len() > 0
                && forall|j: int|
                0 <= j < words(s)[i].len() ==> !is_white(#[trigger] words(s)[i][j]) by {
                if i == 0 {
                    assert(words(s)[0] == first);
                } else {
                    assert(words(s)[i] == rest[i - 1]);
                }
            }
            assert(!is_white(s[0]));
        }
    }
}

proof fn lemma_word_is_black(s: Seq<char>)
    ensures
        word_len(s) <= s.len(),
        forall|i: int| 0 <= i < word_len(s) ==> !is_white(#[trigger] s[i]),
        word_len(s) < s.len() ==> is_white(s[word_len(s) as int]),
    decreases s.len(),
{
    if s.len() > 0 && !is_white(s[0]) {
        let rest = s.drop_first();
        lemma_word_is_black(rest);
        assert forall|i: int| 0 <= i < word_len(s) implies !is_white(#[trigger] s[i]) by {
            if i > 0 {
                assert(rest[i - 1] == s[i]);
            }
        }
        if word_len(s) < s.len() {
            assert(rest[word_len(rest) as int] == s[word_len(s) as int]);
        }
    }
}

/// A word before whitespace is the first word, and what follows the
/// whitespace gives the others.
pub proof fn law_words_are_cut_at_whitespace(w: Seq<char>, c: char, rest: Seq<char>)
    requires
        w.len() > 0,
        forall|i: int| 0 <= i < w.len() ==> !is_white(#[trigger] w[i]),
        is_white(c),
    ensures
        words(w + seq![c] + rest) == seq![w] + words(rest),
        words(w) == seq![w],
        words(seq![c] + rest) == words(rest),
{
    let s = w + seq![c] + rest;
    lemma_word_is_black(s);
    let n = word_len(s) as int;
    if n < w.len() {
        assert(s[n] == w[n]);
    }
    if n > w.len() {
        assert(s[w.len() as int] == c);
    }
    assert(s.take(n) =~= w);
    assert(s[0] == w[0]);
    let t = seq![c] + rest;
    assert(s.skip(n) =~= t);
    assert(t.drop_first() =~= rest);
    assert(t[0] == c);
    assert(words(t) == words(rest));
    lemma_word_is_black(w);
    let m = word_len(w) as int;
    assert(m == w.len());
    assert(w.take(m) =~= w);
    assert(w.skip(m) =~= Seq::<char>::empty());
    assert(words(w.skip(m)) =~= Seq::<Seq<char>>::empty());
    assert(seq![w] + Seq::<Seq<char>>::empty() =~= seq![w]);
}

proof fn lemma_line_len(s: Seq<char>)
    ensures
        line_len(s) <= s.len(),
        forall|i: int| 0 <= i < line_len(s) ==> #[trigger] s[i] != '\n',
        line_len(s) < s.len() ==> s[line_len(s) as int] == '\n',
    decreases s.len(),
{
    if s.len() > 0 && s[0] != '\n' {
        let rest = s.drop_first();
        lemma_line_len(rest);
        assert forall|i: int| 0 <= i < line_len(s) implies #[trigger] s[i] != '\n' by {
            if i > 0 {
                assert(rest[i - 1] == s[i]);
            }
        }
        if line_len(s) < s.len() {
            assert(rest[line_len(rest) as int] == s[line_len(s) as int]);
        }
    }
}

/// What comes before a line feed is the first line, and what follows it gives
/// the others.
pub proof fn law_lines_are_cut_at_line_feeds(l: Seq<char>, rest: Seq<char>)
    requires
        forall|i: int| 0 <= i < l.len() ==> #[trigger] l[i] != '\n',
    ensures
        lines_of(l + seq!['\n'] + rest) == seq![l] + lines_of(rest),
        l.len() > 0 ==> lines_of(l) == seq![l],
        lines_of(Seq::<char>::empty()).len() == 0,
{
    let s = l + seq!['\n'] + rest;
    lemma_line_len(s);
    let n = line_len(s) as int;
    if n < l.len() {
        assert(s[n] == l[n]);
    }
    if n > l.len() {
        assert(s[l.len() as int] == '\n');
    }
    assert(s.take(n) =~= l);
    assert(s.skip(n + 1) =~= rest);
    lemma_line_len(l);
    assert(line_len(l) == l.len());
    assert(l.take(l.len() as int) =~= l);
    assert(seq![l] + Seq::<Seq<char>>::empty() =~= seq![l]);
}

proof fn lemma_digits_of_dec(n: nat)
    ensures
        all_digits(dec_nat(n)),
        digits_value(dec_nat(n)) == n,
        dec_nat(n).len() > 0,
    decreases n,
{
    reveal_with_fuel(digits_value, 2);
    if n >= 10 {
        lemma_digits_of_dec(n / 10);
        let d = dec_nat(n);
        assert(d.drop_last() =~= dec_nat(n / 10));
        assert forall|i: int| 0 <= i < d.len() implies is_digit(#[trigger] d[i]) by {
            if i < d.len() - 1 {
                assert(dec_nat(n / 10)[i] == d[i]);
            }
        }
    } else {
        assert(dec_nat(n).drop_last() =~= Seq::<char>::empty());
    }
}

/// A number is read back from its decimal text.
pub proof fn law_numbers_are_read_back(n: int)
    ensures
        number_in(dec(n), true) == Some(n),
        n >= 0 ==> number_in(dec(n), false) == Some(n),
        n >= 0 ==> number_in(seq!['+'] + dec(n), false) == Some(n),
        n < 0 ==> number_in(dec(n), false) is None,
{
    let m = if n < 0 {
        (-n) as nat
    } else {
        n as nat
    };
    lemma_digits_of_dec(m);
    let d = dec_nat(m);
    assert(is_digit(d[0]));
    if n < 0 {
        let s = dec(n);
        assert(s.drop_first() =~= d);
        assert(s[0] == '-');
        assert(!is_digit(s[0]));
    } else {
        let s = seq!['+'] + d;
        assert(s.drop_first() =~= d);
    }
}

/// A text is no number where it holds anything but digits behind its sign.
pub proof fn law_only_digits_are_numbers(s: Seq<char>, i: int)
    requires
        0 <= i < s.len(),
        !('0' <= s[i] <= '9'),
        i > 0 || (s[0] != '+' && s[0] != '-'),
    ensures
        number_in(s, true) is None,
        number_in(s, false) is None,
{
    assert(!is_digit(s[i]));
    if i > 0 {
        assert(s.drop_first()[i - 1] == s[i]);
        assert(!is_digit(s.drop_first()[i - 1]));
    }
}

/// Whole numbers, and digits with a point between them, are floating-point
/// numbers; what holds no digit and is no name of an infinity or a NaN is not.
pub proof fn law_decimal_numbers_are_floats(a: nat, b: nat)
    ensures
        is_float(dec(a as int)),
        is_float(dec(a as int) + seq!['.'] + dec(b as int)),
        is_float(seq!['-'] + dec(a as int)),
        !is_float(Seq::<char>::empty()),
{
    lemma_digits_of_dec(a);
    lemma_digits_of_dec(b);
    let x = dec_nat(a);
    let y = dec_nat(b);
    let low = |c: char| lower(c);
    lemma_digits_are_lower(x);
    assert(is_digit(x[0]));
    assert(unsigned(x) == x);
    assert(is_float(x));
    let p = x + seq!['.'] + y;
    assert(p.map_values(low) =~= p) by {
        lemma_digits_are_lower(y);
        assert forall|i: int| 0 <= i < p.len() implies #[trigger] p.map_values(low)[i] == p[i] by {
            if i < x.len() {
                assert(x.map_values(low)[i] == x[i]);
            } else if i > x.len() {
                assert(y.map_values(low)[i - x.len() - 1] == y[i - x.len() - 1]);
            }
        }
    }
    assert(p[0] == x[0]);
    assert(unsigned(p) == p);
    let k = x.len() as int;
    assert(p.take(k) =~= x);
    assert(p.skip(k + 1) =~= y);
    assert(p[k] == '.');
    assert(is_mantissa(p));
    assert(is_float(p));
    let n = seq!['-'] + x;
    assert(n.map_values(low) =~= n) by {
        assert forall|i: int| 0 <= i < n.len() implies #[trigger] n.map_values(low)[i] == n[i] by {
            if i > 0 {
                assert(x.map_values(low)[i - 1] == x[i - 1]);
            }
        }
    }
    assert(n.drop_first() =~= x);
    assert(is_float(n));
    let e = Seq::<char>::empty();
    assert(e.map_values(low) =~= e);
    reveal_strlit("inf");
    reveal_strlit("infinity");
    reveal_strlit("nan");
    assert("inf"@.len() == 3 && "infinity"@.len() == 8 && "nan"@.len() == 3);
    assert(!is_float(e));
}

proof fn lemma_digits_are_lower(s: Seq<char>)
    requires
        all_digits(s),
    ensures
        s.map_values(|c: char| lower(c)) == s,
{
    let low = |c: char| lower(c);
    assert forall|i: int| 0 <= i < s.len() implies #[trigger] s.map_values(low)[i] == s[i] by {
        assert(is_digit(s[i]));
    }
    assert(s.map_values(low) =~= s);
}

/// A number with an exponent is a floating-point number.
pub proof fn law_exponents_are_floats(a: nat, b: nat)
    ensures
        is_float(dec(a as int) + seq!['e'] + dec(b as int)),
        is_float(dec(a as int) + seq!['e', '-'] + dec(b as int)),
{
    lemma_digits_of_dec(a);
    lemma_digits_of_dec(b);
    let x = dec_nat(a);
    let y = dec_nat(b);
    lemma_digits_are_lower(x);
    lemma_digits_are_lower(y);
    assert(is_digit(x[0]) && is_digit(y[0]));
    let k = x.len() as int;
    let s = x + seq!['e'] + y;
    let t = x + seq!['e', '-'] + y;
    let low = |c: char| lower(c);
    assert(s.map_values(low) =~= s) by {
        assert forall|i: int| 0 <= i < s.len() implies #[trigger] s.map_values(low)[i] == s[i] by {
            if i < k {
                assert(x.map_values(low)[i] == x[i]);
            } else if i > k {
                assert(y.map_values(low)[i - k - 1] == y[i - k - 1]);
            }
        }
    }
    assert(t.map_values(low) =~= t) by {
        assert forall|i: int| 0 <= i < t.len() implies #[trigger] t.map_values(low)[i] == t[i] by {
            if i < k {
                assert(x.map_values(low)[i] == x[i]);
            } else if i > k + 1 {
                assert(y.map_values(low)[i - k - 2] == y[i - k - 2]);
            }
        }
    }
    assert(s[0] == x[0] && t[0] == x[0]);
    assert(s.take(k) =~= x && t.take(k) =~= x);
    assert(s.skip(k + 1) =~= y);
    assert(t.skip(k + 1) =~= seq!['-'] + y);
    assert(t.skip(k + 1).drop_first() =~= y);
    assert(s[k] == 'e' && t[k] == 'e');
    assert(is_mantissa(x));
    assert(is_decimal(s));
    assert(is_decimal(t));
}

proof fn lemma_mantissa_holds(s: Seq<char>, i: int)
    requires
        is_mantissa(s),
        0 <= i < s.len(),
    ensures
        is_digit(s[i]) || s[i] == '.',
{
    if !all_digits(s) {
        let p = choose|p: int|
            0 <= p < s.len() && #[trigger] s[p] == '.' && all_digits(s.take(p)) && all_digits(
                s.skip(p + 1),
            );
        if i < p {
            assert(is_digit(s.take(p)[i]));
        } else if i > p {
            assert(is_digit(s.skip(p + 1)[i - p - 1]));
        }
    }
}

proof fn lemma_decimal_holds(s: Seq<char>, i: int)
    requires
        is_decimal(s),
        0 <= i < s.len(),
    ensures
        is_digit(s[i]) || s[i] == '.' || s[i] == 'e' || s[i] == '+' || s[i] == '-',
{
    if is_mantissa(s) {
        lemma_mantissa_holds(s, i);
    } else {
        let e = choose|e: int|
            0 <= e < s.len() && #[trigger] s[e] == 'e' && is_mantissa(s.take(e)) && unsigned(
                s.skip(e + 1),
            ).len() > 0 && all_digits(unsigned(s.skip(e + 1)));
        if i < e {
            lemma_mantissa_holds(s.take(e), i);
        } else if i > e {
            let t = s.skip(e + 1);
            assert(t[i - e - 1] == s[i]);
            if unsigned(t) == t {
                assert(is_digit(t[i - e - 1]));
            } else if i > e + 1 {
                assert(unsigned(t)[i - e - 2] == s[i]);
                assert(is_digit(unsigned(t)[i - e - 2]));
            }
        }
    }
}

/// A text that holds a character of no floating-point number is none.
pub proof fn law_other_texts_are_no_floats(s: Seq<char>, i: int)
    requires
        0 <= i < s.len(),
        ({
            let c = lower(s[i]);
            !is_digit(c) && c != '.' && c != '+' && c != '-' && c != 'e' && c != 'i' && c != 'n'
                && c != 'f' && c != 't' && c != 'y' && c != 'a'
        }),
    ensures
        !is_float(s),
{
    let low = s.map_values(|c: char| lower(c));
    let t = unsigned(low);
    assert(low[i] == lower(s[i]));
    let j = if t == low {
        i
    } else {
        i - 1
    };
    assert(t[j] == low[i]);
    reveal_strlit("inf");
    reveal_strlit("infinity");
    reveal_strlit("nan");
    assert("inf"@ =~= seq!['i', 'n', 'f']);
    assert("infinity"@ =~= seq!['i', 'n', 'f', 'i', 'n', 'i', 't', 'y']);
    assert("nan"@ =~= seq!['n', 'a', 'n']);
    if is_decimal(t) {
        lemma_decimal_holds(t, j);
    }
}

/// Letters are compared in either case.
pub proof fn law_lowercase_of_letters(c: char)
    ensures
        'A' <= c <= 'Z' ==> 'a' <= lower(c) <= 'z' && lower(c) as int - 'a' as int == c as int
            - 'A' as int,
        !('A' <= c <= 'Z') ==> lower(c) == c,
{
}

} // verus!
