//! Text helpers shared across the service: character access, decimal and
//! hexadecimal formatting, whitespace trimming and prefix handling.

use vstd::prelude::*;

verus! {

broadcast use vstd::string::group_string_axioms;

/// Appends one character to a string.
#[verifier::external_body]
pub(crate) fn push_char(s: &mut String, c: char)
    ensures
        final(s)@ == old(s)@.push(c),
{
    s.push(c);
}

/// The characters of a string slice, in order.
pub fn chars_of(s: &str) -> (v: Vec<char>)
    ensures
        v@ == s@,
{
    let mut v: Vec<char> = Vec::new();
    for c in it: s.chars()
        invariant
            v@ == it.seq().take(it.index() as int),
    {
        v.push(c);
    }
    v
}


/// The decimal digit character for `d` (`d < 10`).
pub open spec fn digit_char(d: nat) -> char {
    if d == 0 { '0' } else if d == 1 { '1' } else if d == 2 { '2' } else if d == 3 { '3' }
    else if d == 4 { '4' } else if d == 5 { '5' } else if d == 6 { '6' } else if d == 7 { '7' }
    else if d == 8 { '8' } else { '9' }
}

/// The lowercase hexadecimal digit character for `d` (`d < 16`).
pub open spec fn hex_char(d: nat) -> char {
    if d < 10 { digit_char(d) } else if d == 10 { 'a' } else if d == 11 { 'b' }
    else if d == 12 { 'c' } else if d == 13 { 'd' } else if d == 14 { 'e' } else { 'f' }
}

/// The decimal representation of `n`, without leading zeros (as `Display` prints integers).
pub open spec fn decimal(n: nat) -> Seq<char>
    decreases n,
{
    if n < 10 {
        seq![digit_char(n)]
    } else {
        decimal(n / 10).push(digit_char(n % 10))
    }
}

/// The two lowercase hexadecimal digits of a byte (as `{:02x}` prints it).
pub open spec fn hex_byte(b: u8) -> Seq<char> {
    seq![hex_char((b / 16) as nat), hex_char((b % 16) as nat)]
}

/// The `width` lowercase hexadecimal digits of `n`, most significant first,
/// keeping leading zeros.
pub open spec fn hex_fixed(n: nat, width: nat) -> Seq<char>
    decreases width,
{
    if width == 0 {
        Seq::empty()
    } else {
        hex_fixed(n / 16, (width - 1) as nat).push(hex_char(n % 16))
    }
}

fn exec_digit_char(d: u8) -> (c: char)
    requires
        d < 16,
    ensures
        c == hex_char(d as nat),
{
    if d == 0 { '0' } else if d == 1 { '1' } else if d == 2 { '2' } else if d == 3 { '3' }
    else if d == 4 { '4' } else if d == 5 { '5' } else if d == 6 { '6' } else if d == 7 { '7' }
    else if d == 8 { '8' } else if d == 9 { '9' } else if d == 10 { 'a' } else if d == 11 { 'b' }
    else if d == 12 { 'c' } else if d == 13 { 'd' } else if d == 14 { 'e' } else { 'f' }
}

/// Appends the decimal representation of `n` to `s`.
pub fn push_decimal(s: &mut String, n: u64)
    ensures
        final(s)@ == old(s)@ + decimal(n as nat),
    decreases n,
{
    if n < 10 {
        push_char(s, exec_digit_char(n as u8));
        assert(decimal(n as nat) == seq![digit_char(n as nat)]);
    } else {
        push_decimal(s, n / 10);
        push_char(s, exec_digit_char((n % 10) as u8));
    }
}

/// Appends the two lowercase hexadecimal digits of `b` to `s`.
pub fn push_hex_byte(s: &mut String, b: u8)
    ensures
        final(s)@ == old(s)@ + hex_byte(b),
{
    push_char(s, exec_digit_char(b / 16));
    push_char(s, exec_digit_char(b % 16));
}

/// Appends the `width` lowercase hexadecimal digits of `n` to `s`.
pub fn push_hex_fixed(s: &mut String, n: u128, width: u32)
    ensures
        final(s)@ == old(s)@ + hex_fixed(n as nat, width as nat),
    decreases width,
{
    if width > 0 {
        push_hex_fixed(s, n / 16, width - 1);
        push_char(s, exec_digit_char((n % 16) as u8));
    }
}

/// Characters with the Unicode `White_Space` property (what `char::is_whitespace` accepts).
pub open spec fn is_whitespace(c: char) -> bool {
    ('\u{9}' <= c <= '\u{d}') || c == ' ' || c == '\u{85}' || c == '\u{a0}' || c == '\u{1680}'
        || ('\u{2000}' <= c <= '\u{200a}') || c == '\u{2028}' || c == '\u{2029}' || c == '\u{202f}'
        || c == '\u{205f}' || c == '\u{3000}'
}

/// Whether a character is whitespace.
pub fn exec_is_whitespace(c: char) -> (b: bool)
    ensures
        b == is_whitespace(c),
{
    ('\u{9}' <= c && c <= '\u{d}') || c == ' ' || c == '\u{85}' || c == '\u{a0}' || c == '\u{1680}'
        || ('\u{2000}' <= c && c <= '\u{200a}') || c == '\u{2028}' || c == '\u{2029}' || c
        == '\u{202f}' || c == '\u{205f}' || c == '\u{3000}'
}

/// `s` without its leading whitespace.
pub open spec fn trim_start(s: Seq<char>) -> Seq<char>
    decreases s.len(),
{
    if s.len() > 0 && is_whitespace(s[0]) {
        trim_start(s.drop_first())
    } else {
        s
    }
}

/// `s` without its trailing whitespace.
pub open spec fn trim_end(s: Seq<char>) -> Seq<char>
    decreases s.len(),
{
    if s.len() > 0 && is_whitespace(s.last()) {
        trim_end(s.drop_last())
    } else {
        s
    }
}

/// `s` without leading and trailing whitespace (as `str::trim` returns it).
pub open spec fn trim(s: Seq<char>) -> Seq<char> {
    trim_end(trim_start(s))
}

/// Whether `s` begins with `prefix`.
pub open spec fn has_prefix(s: Seq<char>, prefix: Seq<char>) -> bool {
    prefix.len() <= s.len() && s.subrange(0, prefix.len() as int) == prefix
}

/// A string made of the characters `v[from..to]`.
pub fn string_of_range(v: &Vec<char>, from: usize, to: usize) -> (r: String)
    requires
        from <= to <= v.len(),
    ensures
        r@ == v@.subrange(from as int, to as int),
{
    let mut r = String::new();
    let mut i = from;
    while i < to
        invariant
            from <= i <= to <= v.len(),
            r@ == v@.subrange(from as int, i as int),
        decreases to - i,
    {
        push_char(&mut r, v[i]);
        assert(v@.subrange(from as int, i + 1) == v@.subrange(from as int, i as int).push(v@[i as int]));
        i += 1;
    }
    r
}

proof fn lemma_trim_start_index(s: Seq<char>, i: int)
    requires
        0 <= i <= s.len(),
        forall|j: int| 0 <= j < i ==> is_whitespace(#[trigger] s[j]),
        i == s.len() || !is_whitespace(s[i]),
    ensures
        trim_start(s) == s.subrange(i, s.len() as int),
    decreases i,
{
    if i > 0 {
        assert(is_whitespace(s[0]));
        let t = s.drop_first();
        assert forall|j: int| 0 <= j < i - 1 implies is_whitespace(#[trigger] t[j]) by {
            assert(t[j] == s[j + 1]);
        }
        lemma_trim_start_index(t, i - 1);
        assert(t.subrange(i - 1, t.len() as int) == s.subrange(i, s.len() as int));
    } else {
        assert(s.subrange(0, s.len() as int) == s);
    }
}

proof fn lemma_trim_end_index(s: Seq<char>, e: int)
    requires
        0 <= e <= s.len(),
        forall|j: int| e <= j < s.len() ==> is_whitespace(#[trigger] s[j]),
        e == 0 || !is_whitespace(s[e - 1]),
    ensures
        trim_end(s) == s.subrange(0, e),
    decreases s.len() - e,
{
    if e < s.len() {
        assert(is_whitespace(s.last()));
        let t = s.drop_last();
        assert forall|j: int| e <= j < t.len() implies is_whitespace(#[trigger] t[j]) by {
            assert(t[j] == s[j]);
        }
        lemma_trim_end_index(t, e);
        assert(t.subrange(0, e) == s.subrange(0, e));
    } else {
        assert(s.subrange(0, s.len() as int) == s);
    }
}

/// The indices `[start, end)` of `v` that remain once leading and trailing whitespace is removed.
pub fn trim_bounds(v: &Vec<char>) -> (r: (usize, usize))
    ensures
        r.0 <= r.1 <= v.len(),
        v@.subrange(r.0 as int, r.1 as int) == trim(v@),
{
    let mut start: usize = 0;
    while start < v.len() && exec_is_whitespace(v[start])
        invariant
            start <= v.len(),
            forall|j: int| 0 <= j < start ==> is_whitespace(#[trigger] v@[j]),
        decreases v.len() - start,
    {
        start += 1;
    }
    proof {
        lemma_trim_start_index(v@, start as int);
    }
    let ghost ts = v@.subrange(start as int, v.len() as int);
    let mut end: usize = v.len();
    while end > start && exec_is_whitespace(v[end - 1])
        invariant
            start <= end <= v.len(),
            forall|j: int| end <= j < v.len() ==> is_whitespace(#[trigger] v@[j]),
        decreases end - start,
    {
        end -= 1;
    }
    proof {
        assert forall|j: int| end - start <= j < ts.len() implies is_whitespace(#[trigger] ts[j]) by {
            assert(ts[j] == v@[j + start]);
        }
        if end > start {
            assert(ts[end - start - 1] == v@[end - 1]);
        }
        lemma_trim_end_index(ts, end - start);
        assert(ts.subrange(0, end - start) == v@.subrange(start as int, end as int));
    }
    (start, end)
}

/// `s` without leading and trailing whitespace.
pub fn trim_string(s: &str) -> (r: String)
    ensures
        r@ == trim(s@),
{
    let v = chars_of(s);
    let (a, b) = trim_bounds(&v);
    string_of_range(&v, a, b)
}

/// Whether `v[from..]` begins with `prefix`.
pub fn has_prefix_at(v: &Vec<char>, from: usize, prefix: &str) -> (b: bool)
    requires
        from <= v.len(),
    ensures
        b == has_prefix(v@.subrange(from as int, v.len() as int), prefix@),
{
    let p = chars_of(prefix);
    if p.len() > v.len() - from {
        return false;
    }
    let mut i: usize = 0;
    while i < p.len()
        invariant
            p@ == prefix@,
            p.len() <= v.len() - from,
            i <= p.len(),
            forall|j: int| 0 <= j < i ==> v@[from + j] == p@[j],
        decreases p.len() - i,
    {
        if v[from + i] != p[i] {
            assert(v@.subrange(from as int, v.len() as int).subrange(0, p.len() as int)[i as int]
                != p@[i as int]);
            return false;
        }
        i += 1;
    }
    assert(v@.subrange(from as int, v.len() as int).subrange(0, p.len() as int) == p@);
    true
}

/// `s` with `prefix` removed, if `s` begins with it (as `str::strip_prefix`).
pub open spec fn strip_prefix(s: Seq<char>, prefix: Seq<char>) -> Option<Seq<char>> {
    if has_prefix(s, prefix) {
        Some(s.subrange(prefix.len() as int, s.len() as int))
    } else {
        None
    }
}

/// `s` with `prefix` removed, if `s` begins with it.
pub fn strip_prefix_string(s: &str, prefix: &str) -> (r: Option<String>)
    ensures
        r is Some == strip_prefix(s@, prefix@) is Some,
        r matches Some(t) ==> t@ == strip_prefix(s@, prefix@)->0,
{
    let v = chars_of(s);
    if has_prefix_at(&v, 0, prefix) {
        assert(v@.subrange(0, v@.len() as int) == v@);
        let n = prefix.unicode_len();
        Some(string_of_range(&v, n, v.len()))
    } else {
        assert(v@.subrange(0, v@.len() as int) == v@);
        None
    }
}

/// Hexadecimal digit characters, in either case.
pub open spec fn is_hex_char(c: char) -> bool {
    ('0' <= c <= '9') || ('a' <= c <= 'f') || ('A' <= c <= 'F')
}

/// The value of a hexadecimal digit character.
pub open spec fn hex_char_value(c: char) -> nat {
    if '0' <= c <= '9' {
        (c as nat - '0' as nat) as nat
    } else if 'a' <= c <= 'f' {
        (c as nat - 'a' as nat + 10) as nat
    } else {
        (c as nat - 'A' as nat + 10) as nat
    }
}

/// Whether every character of `s` is a hexadecimal digit.
pub open spec fn all_hex(s: Seq<char>) -> bool {
    forall|i: int| 0 <= i < s.len() ==> is_hex_char(#[trigger] s[i])
}

/// The number written in hexadecimal by `s`, most significant digit first.
pub open spec fn hex_value(s: Seq<char>) -> nat
    decreases s.len(),
{
    if s.len() == 0 {
        0
    } else {
        hex_value(s.drop_last()) * 16 + hex_char_value(s.last())
    }
}

/// `16` to the power `n`.
pub open spec fn pow16(n: nat) -> nat
    decreases n,
{
    if n == 0 {
        1
    } else {
        16 * pow16((n - 1) as nat)
    }
}

proof fn lemma_hex_char_roundtrip(d: nat)
    requires
        d < 16,
    ensures
        is_hex_char(hex_char(d)),
        hex_char_value(hex_char(d)) == d,
{
}

/// Writing a number below `16^width` with `width` hexadecimal digits and reading
/// it back gives the number.
pub proof fn lemma_hex_fixed_roundtrip(n: nat, width: nat)
    requires
        n < pow16(width),
    ensures
        hex_fixed(n, width).len() == width,
        all_hex(hex_fixed(n, width)),
        hex_value(hex_fixed(n, width)) == n,
    decreases width,
{
    if width > 0 {
        assert(n / 16 < pow16((width - 1) as nat)) by (nonlinear_arith)
            requires
                n < 16 * pow16((width - 1) as nat),
        ;
        lemma_hex_fixed_roundtrip(n / 16, (width - 1) as nat);
        lemma_hex_char_roundtrip(n % 16);
        let h = hex_fixed(n, width);
        assert(h.drop_last() == hex_fixed(n / 16, (width - 1) as nat));
        assert forall|i: int| 0 <= i < h.len() implies is_hex_char(#[trigger] h[i]) by {
            if i < h.len() - 1 {
                assert(h[i] == hex_fixed(n / 16, (width - 1) as nat)[i]);
            }
        }
    }
}

/// `s` with every leading occurrence of `pat` removed (an empty `pat` removes nothing; as
/// `str::trim_start_matches`).
pub open spec fn trim_start_matches(s: Seq<char>, pat: Seq<char>) -> Seq<char>
    decreases s.len(),
{
    if pat.len() > 0 && has_prefix(s, pat) {
        trim_start_matches(s.subrange(pat.len() as int, s.len() as int), pat)
    } else {
        s
    }
}

/// `s` with every leading occurrence of `pat` removed (nothing for an empty `pat`).
pub fn trim_start_matches_string(s: &str, pat: &str) -> (r: String)
    ensures
        r@ == trim_start_matches(s@, pat@),
{
    let v = chars_of(s);
    let n = pat.unicode_len();
    if n == 0 {
        return s.to_owned();
    }
    let mut i: usize = 0;
    assert(v@.subrange(0, v@.len() as int) == v@);
    while has_prefix_at(&v, i, pat)
        invariant
            i <= v.len(),
            n == pat@.len(),
            n > 0,
            v@ == s@,
            trim_start_matches(s@, pat@) == trim_start_matches(v@.subrange(i as int, v@.len() as int), pat@),
        decreases v.len() - i,
    {
        let ghost rest = v@.subrange(i as int, v@.len() as int);
        assert(rest.subrange(n as int, rest.len() as int) == v@.subrange(i + n, v@.len() as int));
        i = i + n;
    }
    string_of_range(&v, i, v.len())
}

/// The index of the first occurrence of `c` in `v`, if any.
pub fn find_char(v: &Vec<char>, c: char) -> (r: Option<usize>)
    ensures
        r is None <==> !(exists|i: int| 0 <= i < v@.len() && v@[i] == c),
        r matches Some(i) ==> i < v@.len() && v@[i as int] == c && forall|j: int| 0 <= j < i ==> v@[j] != c,
{
    let mut i: usize = 0;
    while i < v.len()
        invariant
            i <= v.len(),
            forall|j: int| 0 <= j < i ==> v@[j] != c,
        decreases v.len() - i,
    {
        if v[i] == c {
            return Some(i);
        }
        i += 1;
    }
    None
}

/// Whether `s` contains the character `c`.
pub fn contains_char(s: &str, c: char) -> (r: bool)
    ensures
        r == s@.contains(c),
{
    let v = chars_of(s);
    match find_char(&v, c) {
        Some(i) => {
            assert(s@[i as int] == c);
            true
        },
        None => false,
    }
}

/// Whether `s` ends with the character `c`.
pub fn ends_with_char(s: &str, c: char) -> (r: bool)
    ensures
        r == (s@.len() > 0 && s@.last() == c),
{
    let v = chars_of(s);
    v.len() > 0 && v[v.len() - 1] == c
}

/// Whether two strings hold the same characters.
pub fn str_eq(a: &str, b: &str) -> (r: bool)
    ensures
        r == (a@ == b@),
{
    let x = a.to_owned();
    let y = b.to_owned();
    x == y
}

/// ASCII decimal digits.
pub open spec fn is_digit(c: char) -> bool {
    '0' <= c <= '9'
}

/// The number written in decimal by the digits `s`.
pub open spec fn decimal_value(s: Seq<char>) -> nat
    decreases s.len(),
{
    if s.len() == 0 {
        0
    } else {
        decimal_value(s.drop_last()) * 10 + (s.last() as nat - '0' as nat) as nat
    }
}

/// The digits of a `usize` text: without its optional leading `+` sign.
pub open spec fn usize_digits(s: Seq<char>) -> Seq<char> {
    if s.len() > 0 && s[0] == '+' {
        s.drop_first()
    } else {
        s
    }
}

/// Whether every character of `s` is a decimal digit.
pub open spec fn all_digits(s: Seq<char>) -> bool {
    forall|i: int| 0 <= i < s.len() ==> is_digit(#[trigger] s[i])
}

/// What `usize::from_str` yields: an optional `+` sign followed by at least one
/// decimal digit, whose value fits in `usize`.
pub open spec fn parse_usize_spec(s: Seq<char>) -> Option<nat> {
    let digits = usize_digits(s);
    if digits.len() > 0 && all_digits(digits) && decimal_value(digits) <= usize::MAX {
        Some(decimal_value(digits))
    } else {
        None
    }
}

proof fn lemma_decimal_value_monotone(s: Seq<char>, i: int)
    requires
        0 <= i <= s.len(),
        forall|j: int| 0 <= j < s.len() ==> is_digit(#[trigger] s[j]),
    ensures
        decimal_value(s.subrange(0, i)) <= decimal_value(s),
    decreases s.len() - i,
{
    if i < s.len() {
        lemma_decimal_value_monotone(s, i + 1);
        let t = s.subrange(0, i + 1);
        assert(t.drop_last() == s.subrange(0, i));
        assert(is_digit(t.last()));
    } else {
        assert(s.subrange(0, i) == s);
    }
}

proof fn lemma_digit_char_value(d: nat)
    requires
        d < 10,
    ensures
        is_digit(digit_char(d)),
        (digit_char(d) as nat - '0' as nat) as nat == d,
{
}

/// The decimal text of a number is made of digits, does not start with `+`
/// and reads back as the number.
pub proof fn lemma_decimal_roundtrip(n: nat)
    ensures
        decimal(n).len() > 0,
        all_digits(decimal(n)),
        decimal_value(decimal(n)) == n,
    decreases n,
{
    if n < 10 {
        lemma_digit_char_value(n);
        assert(decimal(n) == seq![digit_char(n)]);
        assert(seq![digit_char(n)].drop_last() =~= Seq::<char>::empty());
        assert(decimal_value(Seq::<char>::empty()) == 0);
        assert(decimal_value(decimal(n)) == decimal_value(decimal(n).drop_last()) * 10 + (decimal(n).last() as nat
            - '0' as nat) as nat);
    } else {
        lemma_digit_char_value(n % 10);
        lemma_decimal_roundtrip(n / 10);
        let t = decimal(n);
        assert(t == decimal(n / 10).push(digit_char(n % 10)));
        assert(t.drop_last() == decimal(n / 10));
        assert(t.last() == digit_char(n % 10));
        assert(decimal_value(t) == decimal_value(t.drop_last()) * 10 + (t.last() as nat - '0' as nat) as nat);
        assert((n / 10) * 10 + n % 10 == n);
        assert forall|i: int| 0 <= i < t.len() implies is_digit(#[trigger] t[i]) by {
            if i < t.len() - 1 {
                assert(t[i] == decimal(n / 10)[i]);
            }
        }
    }
}

/// Parses a decimal `usize` (as `usize::from_str`).
pub fn parse_usize(s: &str) -> (r: Option<usize>)
    ensures
        match parse_usize_spec(s@) {
            Some(n) => r == Some(n as usize),
            None => r is None,
        },
{
    let v = chars_of(s);
    let start: usize = if v.len() > 0 && v[0] == '+' {
        1
    } else {
        0
    };
    let ghost digits = usize_digits(s@);
    assert(digits == v@.subrange(start as int, v@.len() as int));
    if start >= v.len() {
        return None;
    }
    let mut value: usize = 0;
    let mut i: usize = start;
    while i < v.len()
        invariant
            start <= i <= v.len(),
            v@ == s@,
            digits == v@.subrange(start as int, v@.len() as int),
            digits == usize_digits(s@),
            forall|j: int| start <= j < i ==> is_digit(#[trigger] v@[j]),
            value == decimal_value(v@.subrange(start as int, i as int)),
        decreases v.len() - i,
    {
        let c = v[i];
        if !('0' <= c && c <= '9') {
            assert(digits[i - start] == v@[i as int]);
            assert(!is_digit(digits[i - start]));
            return None;
        }
        let d = (c as u32 - '0' as u32) as usize;
        assert(v@.subrange(start as int, i + 1).drop_last() == v@.subrange(start as int, i as int));
        if value > (usize::MAX - d) / 10 {
            proof {
                let pre = digits.subrange(0, i + 1 - start);
                assert(pre == v@.subrange(start as int, i + 1));
                assert(decimal_value(pre) == value * 10 + d);
                assert(value * 10 + d > usize::MAX) by (nonlinear_arith)
                    requires
                        value > (usize::MAX - d) / 10,
                        d <= 9,
                ;
                if all_digits(digits) {
                    lemma_decimal_value_monotone(digits, i + 1 - start);
                    assert(decimal_value(digits) > usize::MAX);
                }
                assert(parse_usize_spec(s@) is None);
            }
            return None;
        }
        value = value * 10 + d;
        i += 1;
    }
    assert(v@.subrange(start as int, i as int) == digits);
    Some(value)
}

/// `to` before, between and after the characters of `s` (what replacing the
/// empty pattern gives).
pub open spec fn interleave(s: Seq<char>, to: Seq<char>) -> Seq<char>
    decreases s.len(),
{
    if s.len() == 0 {
        to
    } else {
        to + seq![s[0]] + interleave(s.drop_first(), to)
    }
}

/// `to` before, between and after the characters of `v`.
fn interleave_string(v: &Vec<char>, to: &str) -> (r: String)
    ensures
        r@ == interleave(v@, to@),
{
    let mut r = String::new();
    let mut i: usize = 0;
    assert(v@.subrange(0, v@.len() as int) == v@);
    while i < v.len()
        invariant
            i <= v.len(),
            r@ + interleave(v@.subrange(i as int, v@.len() as int), to@) == interleave(v@, to@),
        decreases v.len() - i,
    {
        let ghost rest = v@.subrange(i as int, v@.len() as int);
        let ghost before = r@;
        assert(rest.drop_first() == v@.subrange(i + 1, v@.len() as int));
        assert(rest[0] == v@[i as int]);
        r.append(to);
        push_char(&mut r, v[i]);
        assert(r@ == before + to@ + seq![rest[0]]);
        assert(before + interleave(rest, to@) == r@ + interleave(rest.drop_first(), to@));
        i = i + 1;
    }
    assert(v@.subrange(i as int, v@.len() as int).len() == 0);
    r.append(to);
    r
}

/// `s` with every non-overlapping occurrence of `pat` replaced by `to`,
/// scanning from the left (as `str::replace`; the empty pattern matches
/// before, between and after every character).
pub open spec fn replace_all(s: Seq<char>, pat: Seq<char>, to: Seq<char>) -> Seq<char>
    decreases s.len(),
{
    if pat.len() == 0 {
        interleave(s, to)
    } else if s.len() == 0 {
        s
    } else if has_prefix(s, pat) {
        to + replace_all(s.subrange(pat.len() as int, s.len() as int), pat, to)
    } else {
        seq![s[0]] + replace_all(s.drop_first(), pat, to)
    }
}

/// `s` with every occurrence of `pat` replaced by `to` (`to` around every character for an empty `pat`).
pub fn replace_all_string(s: &str, pat: &str, to: &str) -> (r: String)
    ensures
        r@ == replace_all(s@, pat@, to@),
{
    let v = chars_of(s);
    let n = pat.unicode_len();
    if n == 0 {
        return interleave_string(&v, to);
    }
    let mut r = String::new();
    let mut i: usize = 0;
    assert(v@.subrange(0, v@.len() as int) == v@);
    while i < v.len()
        invariant
            i <= v.len(),
            n == pat@.len(),
            n > 0,
            v@ == s@,
            r@ + replace_all(v@.subrange(i as int, v@.len() as int), pat@, to@) == replace_all(s@, pat@, to@),
        decreases v.len() - i,
    {
        let ghost rest = v@.subrange(i as int, v@.len() as int);
        if has_prefix_at(&v, i, pat) {
            assert(rest.subrange(n as int, rest.len() as int) == v@.subrange(i + n, v@.len() as int));
            assert(r@ + to@ + replace_all(v@.subrange(i + n, v@.len() as int), pat@, to@) == r@ + (to@
                + replace_all(v@.subrange(i + n, v@.len() as int), pat@, to@)));
            r.append(to);
            i = i + n;
        } else {
            assert(rest.drop_first() == v@.subrange(i + 1, v@.len() as int));
            assert(rest[0] == v@[i as int]);
            assert(r@.push(v@[i as int]) + replace_all(v@.subrange(i + 1, v@.len() as int), pat@, to@)
                == r@ + (seq![rest[0]] + replace_all(rest.drop_first(), pat@, to@)));
            push_char(&mut r, v[i]);
            i = i + 1;
        }
    }
    assert(v@.subrange(i as int, v@.len() as int).len() == 0);
    assert(r@ + Seq::<char>::empty() == r@);
    r
}

} // verus!
