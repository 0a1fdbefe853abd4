//! Text: numbers in decimal and hexadecimal, joining, searching, trimming,
//! ordering, and the few conversions that the standard library performs.
use vstd::prelude::*;

verus! {

/// Appends one character to a string: `String::push`.
///
/// Claimed of it: the characters that were there stay, and `c` follows them.
pub assume_specification[ String::push ](s: &mut String, c: char)
    ensures
        final(s)@ == old(s)@.push(c),
;

/// The text that `{:?}` gives for a string slice.
pub uninterp spec fn quoted(s: Seq<char>) -> Seq<char>;

/// The text of `s` between quotes with its special characters escaped:
/// `format!("{:?}", s)`.
///
/// Claimed of it: the result is a function of the characters of `s` alone.
/// Which characters are escaped, and how, is left unsaid.
#[verifier::external_body]
pub(crate) fn debug_text(s: &str) -> (r: String)
    ensures
        r@ == quoted(s@),
{
    format!("{:?}", s)
}

/// The text that `str::to_lowercase` gives.
pub uninterp spec fn lowercased(s: Seq<char>) -> Seq<char>;

/// The lowercase equivalent of a string slice: `str::to_lowercase`.
///
/// Claimed of it: the result is a function of the characters of `s` alone.
#[verifier::external_body]
pub(crate) fn lowercase_text(s: &str) -> (r: String)
    ensures
        r@ == lowercased(s@),
{
    s.to_lowercase()
}

/// The text that `String::from_utf8_lossy` gives.
pub uninterp spec fn lossy(bytes: Seq<u8>) -> Seq<char>;

/// Bytes as text, with replacement characters where they are not valid UTF-8:
/// `String::from_utf8_lossy`.
///
/// Claimed of it: the result is a function of the bytes alone, and valid
/// UTF-8 comes back as the text that it encodes.
#[verifier::external_body]
pub(crate) fn lossy_text(bytes: &[u8]) -> (r: String)
    ensures
        r@ == lossy(bytes@),
        vstd::utf8::valid_utf8(bytes@) ==> vstd::utf8::encode_utf8(r@) == bytes@,
{
    String::from_utf8_lossy(bytes).into_owned()
}

/// The character of one digit in a base up to sixteen.
pub open spec fn digit_char(d: int) -> char {
    if d < 10 {
        (48 + d) as char
    } else {
        (55 + d) as char
    }
}

/// A natural number in decimal.
pub open spec fn dec_nat(n: nat) -> Seq<char>
    decreases n,
{
    if n < 10 {
        seq![digit_char(n as int)]
    } else {
        dec_nat(n / 10).push(digit_char((n % 10) as int))
    }
}

/// An integer in decimal, with a minus sign where it is negative.
pub open spec fn dec(i: int) -> Seq<char> {
    if i < 0 {
        seq!['-'] + dec_nat((-i) as nat)
    } else {
        dec_nat(i as nat)
    }
}

proof fn lemma_dec_nat_shape(n: nat)
    ensures
        dec_nat(n).len() > 0,
        forall|i: int| 0 <= i < dec_nat(n).len() ==> '0' <= #[trigger] dec_nat(n)[i] <= '9',
    decreases n,
{
    if n >= 10 {
        lemma_dec_nat_shape(n / 10);
    }
}

proof fn lemma_dec_nat_differs(a: nat, b: nat)
    requires
        dec_nat(a) == dec_nat(b),
    ensures
        a == b,
    decreases a,
{
    let x = dec_nat(a);
    let y = dec_nat(b);
    lemma_dec_nat_shape(a / 10);
    lemma_dec_nat_shape(b / 10);
    assert(x.last() == digit_char((a % 10) as int));
    assert(y.last() == digit_char((b % 10) as int));
    assert(a % 10 == b % 10);
    if a >= 10 && b >= 10 {
        assert(x.drop_last() =~= dec_nat(a / 10));
        assert(y.drop_last() =~= dec_nat(b / 10));
        lemma_dec_nat_differs(a / 10, b / 10);
    } else if a >= 10 {
        assert(y.len() == 1);
        assert(x.len() == dec_nat(a / 10).len() + 1);
    } else if b >= 10 {
        assert(x.len() == 1);
        assert(y.len() == dec_nat(b / 10).len() + 1);
    }
}

/// Different integers have different decimal texts, and a decimal text holds
/// only digits and a minus sign.
pub proof fn lemma_dec_differs(a: int, b: int)
    ensures
        dec(a) == dec(b) ==> a == b,
        dec(a).len() > 0,
        forall|i: int|
            0 <= i < dec(a).len() ==> '0' <= #[trigger] dec(a)[i] <= '9' || dec(a)[i] == '-',
{
    let x = if a < 0 {
        (-a) as nat
    } else {
        a as nat
    };
    let y = if b < 0 {
        (-b) as nat
    } else {
        b as nat
    };
    lemma_dec_nat_shape(x);
    lemma_dec_nat_shape(y);
    if dec(a) == dec(b) {
        assert(dec(a)[0] == dec(b)[0]);
        if a < 0 && b < 0 {
            assert(dec(a).drop_first() =~= dec_nat(x));
            assert(dec(b).drop_first() =~= dec_nat(y));
        }
        lemma_dec_nat_differs(x, y);
    }
}

/// The decimal text of a natural number holds no minus sign.
pub proof fn lemma_dec_digits(n: nat)
    ensures
        forall|i: int| 0 <= i < dec(n as int).len() ==> #[trigger] dec(n as int)[i] != '-',
{
    lemma_dec_nat_shape(n);
}

/// Two texts that hold no comma, each followed by a text that starts with
/// one, are told apart by what they make together.
pub proof fn lemma_split_at_comma(a: Seq<char>, b: Seq<char>, x: Seq<char>, y: Seq<char>)
    requires
        a + x == b + y,
        x.len() > 0,
        y.len() > 0,
        x[0] == ',',
        y[0] == ',',
        !a.contains(','),
        !b.contains(','),
    ensures
        a == b,
        x == y,
{
    let s = a + x;
    if a.len() < b.len() {
        assert(s[a.len() as int] == ',');
        assert(b[a.len() as int] == (b + y)[a.len() as int]);
        assert(b.contains(b[a.len() as int]));
    } else if b.len() < a.len() {
        assert((b + y)[b.len() as int] == ',');
        assert(a[b.len() as int] == s[b.len() as int]);
        assert(a.contains(a[b.len() as int]));
    }
    assert(a =~= s.take(a.len() as int));
    assert(b =~= (b + y).take(b.len() as int));
    assert(x =~= s.skip(a.len() as int));
    assert(y =~= (b + y).skip(b.len() as int));
}

/// A natural number in uppercase hexadecimal, without leading zeros.
pub open spec fn hex_nat(n: nat) -> Seq<char>
    decreases n,
{
    if n < 16 {
        seq![digit_char(n as int)]
    } else {
        hex_nat(n / 16).push(digit_char((n % 16) as int))
    }
}

/// The lowest `width` hexadecimal digits of `n`, highest first.
pub open spec fn hex_pad(n: nat, width: nat) -> Seq<char>
    decreases width,
{
    if width == 0 {
        seq![]
    } else {
        hex_pad(n / 16, (width - 1) as nat).push(digit_char((n % 16) as int))
    }
}

/// A WAL position as PostgreSQL prints it: the upper half in hexadecimal, a
/// slash, and the lower half in eight hexadecimal digits.
pub open spec fn lsn_text(lsn: u64) -> Seq<char> {
    hex_nat((lsn / 0x1_0000_0000) as nat) + "/"@ + hex_pad((lsn % 0x1_0000_0000) as nat, 8)
}

fn digit(d: u64) -> (r: char)
    requires
        d < 16,
    ensures
        r == digit_char(d as int),
{
    match d {
        0 => '0',
        1 => '1',
        2 => '2',
        3 => '3',
        4 => '4',
        5 => '5',
        6 => '6',
        7 => '7',
        8 => '8',
        9 => '9',
        10 => 'A',
        11 => 'B',
        12 => 'C',
        13 => 'D',
        14 => 'E',
        _ => 'F',
    }
}

fn push_dec(s: &mut String, n: u64)
    ensures
        final(s)@ == old(s)@ + dec_nat(n as nat),
    decreases n,
{
    if n >= 10 {
        push_dec(s, n / 10);
    }
    s.push(digit(n % 10));
    assert(s@ =~= old(s)@ + dec_nat(n as nat));
}

fn push_hex(s: &mut String, n: u64)
    ensures
        final(s)@ == old(s)@ + hex_nat(n as nat),
    decreases n,
{
    if n >= 16 {
        push_hex(s, n / 16);
    }
    s.push(digit(n % 16));
    assert(s@ =~= old(s)@ + hex_nat(n as nat));
}

fn push_hex_pad(s: &mut String, n: u64, width: u32)
    ensures
        final(s)@ == old(s)@ + hex_pad(n as nat, width as nat),
    decreases width,
{
    if width > 0 {
        push_hex_pad(s, n / 16, width - 1);
        s.push(digit(n % 16));
    }
    assert(s@ =~= old(s)@ + hex_pad(n as nat, width as nat));
}

/// A natural number in decimal.
pub fn nat_text(n: u64) -> (r: String)
    ensures
        r@ == dec(n as int),
{
    let mut s = String::new();
    push_dec(&mut s, n);
    assert(s@ =~= dec(n as int));
    s
}

/// An integer in decimal.
pub fn int_text(i: i64) -> (r: String)
    ensures
        r@ == dec(i as int),
{
    let mut s = String::new();
    if i < 0 {
        s.push('-');
        let m: i128 = -(i as i128);
        push_dec(&mut s, m as u64);
        assert(s@ =~= seq!['-'] + dec_nat(m as nat));
    } else {
        push_dec(&mut s, i as u64);
        assert(s@ =~= dec(i as int));
    }
    s
}

/// A WAL position as PostgreSQL prints it.
pub fn lsn_string(lsn: u64) -> (r: String)
    ensures
        r@ == lsn_text(lsn),
{
    let mut s = String::new();
    push_hex(&mut s, lsn / 0x1_0000_0000);
    s.append("/");
    push_hex_pad(&mut s, lsn % 0x1_0000_0000, 8);
    assert(s@ =~= lsn_text(lsn));
    s
}

/// Whether two string slices hold the same characters.
pub fn same(a: &str, b: &str) -> (r: bool)
    ensures
        r == (a@ == b@),
{
    a.to_owned() == b.to_owned()
}

/// The text of two parts, one after the other.
pub fn text2(a: &str, b: &str) -> (r: String)
    ensures
        r@ == a@ + b@,
{
    let mut s = a.to_owned();
    s.append(b);
    s
}

/// The text of three parts, one after the other.
pub fn text3(a: &str, b: &str, c: &str) -> (r: String)
    ensures
        r@ == a@ + b@ + c@,
{
    let mut s = text2(a, b);
    s.append(c);
    s
}

/// The text of four parts, one after the other.
pub fn text4(a: &str, b: &str, c: &str, d: &str) -> (r: String)
    ensures
        r@ == a@ + b@ + c@ + d@,
{
    let mut s = text3(a, b, c);
    s.append(d);
    s
}

/// The text of five parts, one after the other.
pub fn text5(a: &str, b: &str, c: &str, d: &str, e: &str) -> (r: String)
    ensures
        r@ == a@ + b@ + c@ + d@ + e@,
{
    let mut s = text4(a, b, c, d);
    s.append(e);
    s
}

/// The characters of the texts in `v`.
pub open spec fn views(v: Seq<String>) -> Seq<Seq<char>> {
    v.map_values(|s: String| s@)
}

/// The texts of `parts` in order, with `sep` between each two.
pub open spec fn joined(parts: Seq<Seq<char>>, sep: Seq<char>) -> Seq<char>
    decreases parts.len(),
{
    if parts.len() == 0 {
        seq![]
    } else if parts.len() == 1 {
        parts[0]
    } else {
        joined(parts.drop_last(), sep) + sep + parts.last()
    }
}

/// The texts of `parts` in order, with `sep` between each two.
pub fn join(parts: &Vec<String>, sep: &str) -> (r: String)
    ensures
        r@ == joined(views(parts@), sep@),
{
    let mut s = String::new();
    let mut i: usize = 0;
    while i < parts.len()
        invariant
            i <= parts.len(),
            s@ == joined(views(parts@.take(i as int)), sep@),
        decreases parts.len() - i,
    {
        let ghost before = views(parts@.take(i as int));
        let ghost after = views(parts@.take(i + 1));
        proof {
            assert(after.drop_last() =~= before);
            assert(after.last() == parts[i as int]@);
        }
        if i > 0 {
            s.append(sep);
        } else {
            assert(s@ + parts[0]@ =~= parts[0]@);
        }
        s.append(parts[i].as_str());
        i = i + 1;
    }
    assert(parts@.take(i as int) =~= parts@);
    s
}

/// The characters of a string slice.
pub fn chars_of(s: &str) -> (r: Vec<char>)
    ensures
        r@ == s@,
{
    let mut v: Vec<char> = Vec::new();
    for c in it: s.chars()
        invariant
            v@ == it.seq().take(it.index() as int),
    {
        v.push(c);
        assert(v@ =~= it.seq().take(it.index() + 1));
    }
    assert(v@ =~= s@);
    v
}

/// The text that `v[from..to]` spells.
pub fn text_of(v: &Vec<char>, from: usize, to: usize) -> (r: String)
    requires
        from <= to <= v.len(),
    ensures
        r@ == v@.subrange(from as int, to as int),
{
    let mut s = String::new();
    let mut i: usize = from;
    while i < to
        invariant
            from <= i <= to <= v.len(),
            s@ == v@.subrange(from as int, i as int),
        decreases to - i,
    {
        s.push(v[i]);
        i = i + 1;
        assert(s@ =~= v@.subrange(from as int, i as int));
    }
    s
}

/// Whether `needle` stands in `hay` at `i`.
pub open spec fn stands_at(hay: Seq<char>, needle: Seq<char>, i: int) -> bool {
    0 <= i && i + needle.len() <= hay.len() && hay.subrange(i, i + needle.len()) == needle
}

/// Whether `needle` stands somewhere in `hay`.
pub open spec fn holds_text(hay: Seq<char>, needle: Seq<char>) -> bool {
    exists|i: int| stands_at(hay, needle, i)
}

fn stands(hay: &Vec<char>, needle: &Vec<char>, i: usize) -> (r: bool)
    requires
        i <= hay.len(),
    ensures
        r == stands_at(hay@, needle@, i as int),
{
    if needle.len() > hay.len() - i {
        return false;
    }
    let mut k: usize = 0;
    while k < needle.len()
        invariant
            i + needle.len() <= hay.len(),
            k <= needle.len(),
            forall|j: int| 0 <= j < k ==> hay[i + j] == needle[j],
        decreases needle.len() - k,
    {
        if hay[i + k] != needle[k] {
            assert(hay@.subrange(i as int, i + needle.len())[k as int] != needle@[k as int]);
            return false;
        }
        k = k + 1;
    }
    assert(hay@.subrange(i as int, i + needle.len()) =~= needle@);
    true
}

/// The first place at which `needle` stands in `hay`.
pub fn find(hay: &Vec<char>, needle: &str) -> (r: Option<usize>)
    ensures
        match r {
            Some(i) => stands_at(hay@, needle@, i as int) && forall|j: int|
                0 <= j < i ==> !stands_at(hay@, needle@, j),
            None => !holds_text(hay@, needle@),
        },
{
    let n = chars_of(needle);
    let mut i: usize = 0;
    while i < hay.len()
        invariant
            n@ == needle@,
            i <= hay.len(),
            forall|j: int| 0 <= j < i ==> !stands_at(hay@, needle@, j),
        decreases hay.len() - i,
    {
        if stands(hay, &n, i) {
            return Some(i);
        }
        i = i + 1;
    }
    if stands(hay, &n, i) {
        return Some(i);
    }
    assert(forall|j: int| !stands_at(hay@, needle@, j));
    None
}

/// Whether `needle` stands somewhere in `hay`.
pub fn contains_text(hay: &str, needle: &str) -> (r: bool)
    ensures
        r == holds_text(hay@, needle@),
{
    let h = chars_of(hay);
    match find(&h, needle) {
        Some(_) => true,
        None => false,
    }
}

/// Whether text `a` comes before text `b`: at the first character in which
/// they differ, or because it is where `b` starts.
pub open spec fn text_before(a: Seq<char>, b: Seq<char>) -> bool
    decreases a.len(),
{
    if b.len() == 0 {
        false
    } else if a.len() == 0 {
        true
    } else if a[0] != b[0] {
        (a[0] as int) < (b[0] as int)
    } else {
        text_before(a.drop_first(), b.drop_first())
    }
}

proof fn lemma_texts_differ(a: Seq<char>, b: Seq<char>)
    ensures
        !text_before(a, a),
        text_before(a, b) ==> !text_before(b, a),
        !text_before(a, b) && !text_before(b, a) ==> a == b,
    decreases a.len(),
{
    if a.len() > 0 && b.len() > 0 {
        lemma_texts_differ(a.drop_first(), b.drop_first());
        if a[0] == b[0] {
            if a.drop_first() == b.drop_first() {
                assert(a =~= seq![a[0]] + a.drop_first());
                assert(b =~= seq![b[0]] + b.drop_first());
            }
        } else {
            assert((a[0] as int) != (b[0] as int));
        }
    } else if a.len() > 0 {
        lemma_texts_differ(a.drop_first(), a.drop_first());
    } else if b.len() == 0 {
        assert(a =~= b);
    }
}

/// The order of texts is strict, and not to come before is transitive.
pub proof fn lemma_text_order(a: Seq<char>, b: Seq<char>, c: Seq<char>)
    ensures
        !text_before(a, a),
        text_before(a, b) ==> !text_before(b, a),
        !text_before(a, b) && !text_before(b, a) ==> a == b,
        !text_before(b, a) && !text_before(c, b) ==> !text_before(c, a),
    decreases a.len(),
{
    lemma_texts_differ(a, b);
    if a.len() > 0 && b.len() > 0 && c.len() > 0 {
        lemma_text_order(a.drop_first(), b.drop_first(), c.drop_first());
        assert((a[0] as int) == (b[0] as int) ==> a[0] == b[0]);
        assert((c[0] as int) == (b[0] as int) ==> c[0] == b[0]);
    }
}

/// The number of a character.
fn code(c: char) -> (r: u32)
    ensures
        r == c as int,
{
    c as u32
}

/// Whether text `a` comes before text `b`.
pub fn is_text_before(a: &str, b: &str) -> (r: bool)
    ensures
        r == text_before(a@, b@),
{
    let x = chars_of(a);
    let y = chars_of(b);
    let mut i: usize = 0;
    assert(x@.skip(0) =~= x@ && y@.skip(0) =~= y@);
    while i < x.len() && i < y.len()
        invariant
            i <= x.len(),
            i <= y.len(),
            x@ == a@,
            y@ == b@,
            text_before(a@, b@) == text_before(x@.skip(i as int), y@.skip(i as int)),
        decreases x.len() - i,
    {
        assert(x@.skip(i as int).drop_first() =~= x@.skip(i + 1));
        assert(y@.skip(i as int).drop_first() =~= y@.skip(i + 1));
        if x[i] != y[i] {
            return code(x[i]) < code(y[i]);
        }
        i = i + 1;
    }
    i < y.len()
}

/// Whether `s` ends with `tail`.
pub open spec fn ends_with(s: Seq<char>, tail: Seq<char>) -> bool {
    s.len() >= tail.len() && s.skip(s.len() - tail.len()) == tail
}

/// Joined texts are those of two parts with the separator between them, where
/// neither part is empty.
pub proof fn law_joining_two_parts(a: Seq<Seq<char>>, b: Seq<Seq<char>>, sep: Seq<char>)
    requires
        a.len() > 0,
        b.len() > 0,
    ensures
        joined(a + b, sep) == joined(a, sep) + sep + joined(b, sep),
        joined(seq![a[0]], sep) == a[0],
    decreases b.len(),
{
    let s = a + b;
    assert(s.last() == b.last());
    if b.len() == 1 {
        assert(s.drop_last() =~= a);
    } else {
        let front = b.drop_last();
        assert(s.drop_last() =~= a + front);
        law_joining_two_parts(a, front, sep);
        assert(joined(a, sep) + sep + joined(front, sep) + sep + b.last() =~= joined(a, sep) + sep
            + (joined(front, sep) + sep + b.last()));
    }
}

/// One text comes before another exactly where, behind what they share, it ends
/// or has the character with the lower number.
pub proof fn law_order_of_texts(p: Seq<char>, a: Seq<char>, b: Seq<char>)
    requires
        b.len() > 0,
        a.len() > 0 ==> a[0] != b[0],
    ensures
        text_before(p + a, p + b) <==> a.len() == 0 || (a[0] as int) < (b[0] as int),
        a.len() == 0 ==> !text_before(p + b, p + a),
    decreases p.len(),
{
    if p.len() > 0 {
        let q = p.drop_first();
        assert((p + a).drop_first() =~= q + a);
        assert((p + b).drop_first() =~= q + b);
        law_order_of_texts(q, a, b);
    } else {
        assert(p + a =~= a);
        assert(p + b =~= b);
    }
}

/// The number of a hexadecimal digit.
pub open spec fn hex_digit_value(c: char) -> int {
    if c as int <= '9' as int {
        c as int - '0' as int
    } else {
        c as int - 'A' as int + 10
    }
}

/// The number that hexadecimal digits spell.
pub open spec fn hex_value(s: Seq<char>) -> int
    decreases s.len(),
{
    if s.len() == 0 {
        0
    } else {
        hex_value(s.drop_last()) * 16 + hex_digit_value(s.last())
    }
}

proof fn lemma_hex_nat(n: nat)
    ensures
        hex_value(hex_nat(n)) == n,
        hex_nat(n).len() > 0,
        n > 0 ==> hex_nat(n)[0] != '0',
        n == 0 ==> hex_nat(n) == seq!['0'],
    decreases n,
{
    reveal_with_fuel(hex_value, 2);
    if n >= 16 {
        lemma_hex_nat(n / 16);
        assert(hex_nat(n).drop_last() =~= hex_nat(n / 16));
        assert(hex_nat(n)[0] == hex_nat(n / 16)[0]);
    } else {
        assert(hex_nat(n).drop_last() =~= Seq::<char>::empty());
    }
}

proof fn lemma_hex_pad(n: nat, width: nat)
    requires
        width <= 8,
        n < pow16(width),
    ensures
        hex_value(hex_pad(n, width)) == n,
        hex_pad(n, width).len() == width,
    decreases width,
{
    if width > 0 {
        lemma_hex_pad(n / 16, (width - 1) as nat);
        assert(hex_pad(n, width).drop_last() =~= hex_pad(n / 16, (width - 1) as nat));
    }
}

spec fn pow16(k: nat) -> nat
    decreases k,
{
    if k == 0 {
        1
    } else {
        16 * pow16((k - 1) as nat)
    }
}

/// A WAL position is read back from its text: the number before the slash is
/// the upper half, without leading zeros, and the eight digits behind it are the
/// lower half.
pub proof fn law_wal_positions_are_read_back(lsn: u64)
    ensures
        ({
            let s = lsn_text(lsn);
            let n = s.len() - 9;
            &&& n > 0
            &&& s[n] == '/'
            &&& hex_value(s.take(n)) * 0x1_0000_0000 + hex_value(s.skip(n + 1)) == lsn
            &&& s[0] == '0' ==> n == 1
        }),
{
    reveal_strlit("/");
    reveal_with_fuel(pow16, 9);
    let hi = (lsn / 0x1_0000_0000) as nat;
    let lo = (lsn % 0x1_0000_0000) as nat;
    lemma_hex_nat(hi);
    lemma_hex_pad(lo, 8);
    let s = lsn_text(lsn);
    let n = s.len() - 9;
    assert(s.take(n) =~= hex_nat(hi));
    assert(s.skip(n + 1) =~= hex_pad(lo, 8));
    assert(s[0] == hex_nat(hi)[0]);
}

} // verus!
