//! Color tokens: classification, hexadecimal and `rgb(...)` decoding.
use vstd::prelude::*;
use crate::text::{
    chars_of, decimal, digit_char, is_white_space, slice_chars, string_from, white_space,
};

verus! {

/// A 24-bit color: one byte per channel.
#[derive(Debug, Clone, Copy, PartialEq, Eq, Structural)]
pub struct RGB {
    pub r: u8,
    pub g: u8,
    pub b: u8,
}

/// The lexical class of a style token.
#[derive(Debug, Clone, Copy, PartialEq, Eq, Structural)]
pub enum ColorType {
    Hex,
    RGB,
    Accent,
    Default,
}

pub open spec fn is_hex_digit(c: char) -> bool {
    ||| '0' <= c <= '9'
    ||| 'a' <= c <= 'f'
    ||| 'A' <= c <= 'F'
}

pub open spec fn hex_value(c: char) -> nat {
    if '0' <= c <= '9' {
        (c as u32 - 48) as nat
    } else if 'a' <= c <= 'f' {
        (c as u32 - 87) as nat
    } else {
        (c as u32 - 55) as nat
    }
}

/// The lowercase hexadecimal digit for a value below sixteen.
pub open spec fn hex_digit_char(v: nat) -> char {
    if v < 10 {
        digit_char(v)
    } else {
        ((v + 87) as u8) as char
    }
}

/// Two lowercase hexadecimal digits for a byte.
pub open spec fn hex_byte(b: u8) -> Seq<char> {
    seq![hex_digit_char(b as nat / 16), hex_digit_char(b as nat % 16)]
}

/// `#rrggbb`, lowercase.
pub open spec fn hex_form(c: RGB) -> Seq<char> {
    seq!['#'] + hex_byte(c.r) + hex_byte(c.g) + hex_byte(c.b)
}

/// The token without one leading `#`, if it has one.
pub open spec fn strip_hash(s: Seq<char>) -> Seq<char> {
    if s.len() > 0 && s[0] == '#' {
        s.skip(1)
    } else {
        s
    }
}

/// An optional `#` followed by exactly six hexadecimal digits.
pub open spec fn is_hex_token(s: Seq<char>) -> bool {
    let h = strip_hash(s);
    h.len() == 6 && forall|i: int| 0 <= i < 6 ==> is_hex_digit(#[trigger] h[i])
}

/// The byte written by the two hexadecimal digits at `i` and `i + 1`.
pub open spec fn pair_value(h: Seq<char>, i: int) -> nat {
    hex_value(h[i]) * 16 + hex_value(h[i + 1])
}

pub open spec fn hex_decode(s: Seq<char>) -> Option<RGB> {
    if is_hex_token(s) {
        let h = strip_hash(s);
        Some(
            RGB {
                r: pair_value(h, 0) as u8,
                g: pair_value(h, 2) as u8,
                b: pair_value(h, 4) as u8,
            },
        )
    } else {
        None
    }
}

/// Starts with `rgb(` and ends with `)`.
pub open spec fn is_rgb_form(s: Seq<char>) -> bool {
    &&& s.len() >= 4
    &&& s.take(4) == seq!['r', 'g', 'b', '(']
    &&& s.len() >= 1
    &&& s.last() == ')'
}

/// Starts with `text_` or `bg_`.
pub open spec fn is_accent_form(s: Seq<char>) -> bool {
    ||| (s.len() >= 5 && s.take(5) == seq!['t', 'e', 'x', 't', '_'])
    ||| (s.len() >= 3 && s.take(3) == seq!['b', 'g', '_'])
}

/// The class of a token; every token has exactly one.
pub open spec fn color_type_of(s: Seq<char>) -> ColorType {
    if is_hex_token(s) {
        ColorType::Hex
    } else if is_rgb_form(s) {
        ColorType::RGB
    } else if is_accent_form(s) {
        ColorType::Accent
    } else {
        ColorType::Default
    }
}

/// The first position at or after `i` that holds `c`, or the length.
pub open spec fn find_char(s: Seq<char>, c: char, i: int) -> int
    decreases s.len() - i,
{
    if i >= s.len() {
        s.len() as int
    } else if s[i] == c {
        i
    } else {
        find_char(s, c, i + 1)
    }
}

/// The first position at or after `i` that is not white space, or the length.
pub open spec fn trim_start_at(f: Seq<char>, i: int) -> int
    decreases f.len() - i,
{
    if i >= f.len() {
        f.len() as int
    } else if is_white_space(f[i]) {
        trim_start_at(f, i + 1)
    } else {
        i
    }
}

/// Below `j`, the end of the last character that is not white space, or 0.
pub open spec fn trim_end_at(f: Seq<char>, j: int) -> int
    decreases j,
{
    if j <= 0 {
        0
    } else if is_white_space(f[j - 1]) {
        trim_end_at(f, j - 1)
    } else {
        j
    }
}

/// The field without leading and trailing white space.
pub open spec fn trimmed(f: Seq<char>) -> Seq<char> {
    let a = trim_start_at(f, 0);
    let b = trim_end_at(f, f.len() as int);
    if a < b {
        f.subrange(a, b)
    } else {
        Seq::empty()
    }
}

pub open spec fn is_ascii_digit(c: char) -> bool {
    '0' <= c <= '9'
}

/// The value of a string of decimal digits.
pub open spec fn digits_value(d: Seq<char>) -> nat
    decreases d.len(),
{
    if d.len() == 0 {
        0
    } else {
        digits_value(d.drop_last()) * 10 + (d.last() as u32 - 48) as nat
    }
}

/// The digits of a field without one leading `+`.
pub open spec fn unsigned_digits(f: Seq<char>) -> Seq<char> {
    if f.len() > 0 && f[0] == '+' {
        f.skip(1)
    } else {
        f
    }
}

/// A byte written in decimal: an optional `+`, then one or more digits whose
/// value is at most 255.
pub open spec fn parse_byte(f: Seq<char>) -> Option<u8> {
    let d = unsigned_digits(f);
    if d.len() > 0 && (forall|i: int| 0 <= i < d.len() ==> is_ascii_digit(#[trigger] d[i]))
        && digits_value(d) <= 255 {
        Some(digits_value(d) as u8)
    } else {
        None
    }
}

/// Between `rgb(` and `)`.
pub open spec fn rgb_inner(s: Seq<char>) -> Seq<char> {
    s.subrange(4, s.len() - 1)
}

/// The three comma-separated fields of `c`, when it has exactly two commas.
pub open spec fn three_fields(c: Seq<char>) -> Option<(Seq<char>, Seq<char>, Seq<char>)> {
    let p = find_char(c, ',', 0);
    let q = find_char(c, ',', p + 1);
    if p < c.len() && q < c.len() && find_char(c, ',', q + 1) == c.len() {
        Some((c.take(p), c.subrange(p + 1, q), c.skip(q + 1)))
    } else {
        None
    }
}

pub open spec fn rgb_decode(s: Seq<char>) -> Option<RGB> {
    if !is_rgb_form(s) {
        None
    } else {
        match three_fields(rgb_inner(s)) {
            Some((a, b, c)) => match (
                parse_byte(trimmed(a)),
                parse_byte(trimmed(b)),
                parse_byte(trimmed(c)),
            ) {
                (Some(r), Some(g), Some(b)) => Some(RGB { r, g, b }),
                _ => None,
            },
            None => None,
        }
    }
}

proof fn lemma_hex_digit_char(v: nat)
    requires
        v < 16,
    ensures
        is_hex_digit(hex_digit_char(v)),
        hex_value(hex_digit_char(v)) == v,
        hex_digit_char(v) != '#',
{
    let c = hex_digit_char(v);
    if v < 10 {
        assert(c as u32 == v + 48);
    } else {
        assert(c as u32 == v + 87);
    }
}

/// Every token of an optional `#` and six hexadecimal digits is classified
/// as hexadecimal.
pub proof fn lemma_hex_tokens_are_hex(s: Seq<char>)
    requires
        is_hex_token(s),
    ensures
        color_type_of(s) == ColorType::Hex,
        hex_decode(s) is Some,
{
}

/// `#rrggbb` of a color is classified as hexadecimal and decodes to the same
/// color, with the `#` and without it.
pub proof fn lemma_hex_round_trip(c: RGB)
    ensures
        color_type_of(hex_form(c)) == ColorType::Hex,
        hex_decode(hex_form(c)) == Some(c),
        color_type_of(hex_form(c).skip(1)) == ColorType::Hex,
        hex_decode(hex_form(c).skip(1)) == Some(c),
{
    let s = hex_form(c);
    let h = s.skip(1);
    lemma_hex_digit_char(c.r as nat / 16);
    lemma_hex_digit_char(c.r as nat % 16);
    lemma_hex_digit_char(c.g as nat / 16);
    lemma_hex_digit_char(c.g as nat % 16);
    lemma_hex_digit_char(c.b as nat / 16);
    lemma_hex_digit_char(c.b as nat % 16);
    assert(h =~= hex_byte(c.r) + hex_byte(c.g) + hex_byte(c.b));
    assert(strip_hash(s) == h);
    assert(strip_hash(h) == h);
    assert(is_hex_token(s));
    assert(pair_value(h, 0) == c.r);
    assert(pair_value(h, 2) == c.g);
    assert(pair_value(h, 4) == c.b);
}

/// `rgb(r,g,b)` with each number in decimal.
pub open spec fn rgb_literal(r: nat, g: nat, b: nat) -> Seq<char> {
    seq!['r', 'g', 'b', '('] + decimal(r) + seq![','] + decimal(g) + seq![','] + decimal(b) + seq![
        ')',
    ]
}

proof fn lemma_decimal_digits(n: nat)
    ensures
        decimal(n).len() >= 1,
        forall|i: int| 0 <= i < decimal(n).len() ==> is_ascii_digit(#[trigger] decimal(n)[i]),
        digits_value(decimal(n)) == n,
    decreases n,
{
    let d = decimal(n);
    assert(digit_char(n % 10) as u32 == n % 10 + 48);
    assert(d.last() == digit_char(n % 10));
    assert(digits_value(d) == digits_value(d.drop_last()) * 10 + n % 10);
    if n >= 10 {
        lemma_decimal_digits(n / 10);
        assert(d.drop_last() =~= decimal(n / 10));
        assert(n == (n / 10) * 10 + n % 10);
    } else {
        assert(d.drop_last() =~= Seq::<char>::empty());
    }
}

proof fn lemma_find_char_skips(s: Seq<char>, c: char, i: int, j: int)
    requires
        0 <= i <= j <= s.len(),
        forall|k: int| i <= k < j ==> s[k] != c,
    ensures
        find_char(s, c, i) == find_char(s, c, j),
    decreases j - i,
{
    if i < j {
        lemma_find_char_skips(s, c, i + 1, j);
    }
}

proof fn lemma_decimal_field(n: nat)
    ensures
        parse_byte(trimmed(decimal(n))) == (if n <= 255 {
            Some(n as u8)
        } else {
            None
        }),
{
    let f = decimal(n);
    lemma_decimal_digits(n);
    assert(is_ascii_digit(f[0]));
    assert(is_ascii_digit(f[f.len() - 1]));
    assert(trim_start_at(f, 0) == 0);
    assert(trim_end_at(f, f.len() as int) == f.len());
    assert(f.subrange(0, f.len() as int) =~= f);
    assert(unsigned_digits(f) == f);
}

/// `rgb(r,g,b)` decodes to exactly `(r, g, b)` when every number is at most
/// 255, and does not resolve when one is larger.
pub proof fn lemma_rgb_literal(r: nat, g: nat, b: nat)
    ensures
        color_type_of(rgb_literal(r, g, b)) == ColorType::RGB,
        rgb_decode(rgb_literal(r, g, b)) == (if r <= 255 && g <= 255 && b <= 255 {
            Some(RGB { r: r as u8, g: g as u8, b: b as u8 })
        } else {
            None
        }),
{
    let s = rgb_literal(r, g, b);
    let (dr, dg, db) = (decimal(r), decimal(g), decimal(b));
    lemma_decimal_digits(r);
    lemma_decimal_digits(g);
    lemma_decimal_digits(b);
    assert(s.take(4) =~= seq!['r', 'g', 'b', '(']);
    assert(is_rgb_form(s));
    assert(s[0] == 'r');
    assert(!is_hex_token(s)) by {
        let h = strip_hash(s);
        if h.len() == 6 {
            assert(h[0] == 'r');
        }
    }
    let inner = rgb_inner(s);
    assert(inner =~= dr + seq![','] + dg + seq![','] + db);
    let p = dr.len() as int;
    let q = p + 1 + dg.len();
    assert forall|k: int| 0 <= k < p implies inner[k] != ',' by {
        assert(inner[k] == dr[k]);
        assert(is_ascii_digit(dr[k]));
    }
    lemma_find_char_skips(inner, ',', 0, p);
    assert forall|k: int| p + 1 <= k < q implies inner[k] != ',' by {
        assert(inner[k] == dg[k - p - 1]);
        assert(is_ascii_digit(dg[k - p - 1]));
    }
    lemma_find_char_skips(inner, ',', p + 1, q);
    assert forall|k: int| q + 1 <= k < inner.len() implies inner[k] != ',' by {
        assert(inner[k] == db[k - q - 1]);
        assert(is_ascii_digit(db[k - q - 1]));
    }
    lemma_find_char_skips(inner, ',', q + 1, inner.len() as int);
    assert(inner.take(p) =~= dr);
    assert(inner.subrange(p + 1, q) =~= dg);
    assert(inner.skip(q + 1) =~= db);
    lemma_decimal_field(r);
    lemma_decimal_field(g);
    lemma_decimal_field(b);
}

impl RGB {
    pub fn new(r: u8, g: u8, b: u8) -> (c: Self)
        ensures
            c == (RGB { r, g, b }),
    {
        RGB { r, g, b }
    }

    /// `#rrggbb` in lowercase hexadecimal.
    pub fn to_hex(&self) -> (s: String)
        ensures
            s@ == hex_form(*self),
    {
        let mut out: Vec<char> = Vec::new();
        out.push('#');
        push_hex_byte(&mut out, self.r);
        push_hex_byte(&mut out, self.g);
        push_hex_byte(&mut out, self.b);
        assert(out@ =~= hex_form(*self));
        string_from(out)
    }
}

fn hex_digit(v: u8) -> (c: char)
    requires
        v < 16,
    ensures
        c == hex_digit_char(v as nat),
{
    if v < 10 {
        (v + 48) as char
    } else {
        (v + 87) as char
    }
}

fn push_hex_byte(out: &mut Vec<char>, b: u8)
    ensures
        final(out)@ == old(out)@ + hex_byte(b),
{
    out.push(hex_digit(b / 16));
    out.push(hex_digit(b % 16));
    assert(final(out)@ =~= old(out)@ + hex_byte(b));
}

fn hex_nibble(c: char) -> (r: Option<u8>)
    ensures
        r == (if is_hex_digit(c) {
            Some(hex_value(c) as u8)
        } else {
            None
        }),
        r matches Some(n) ==> n < 16 && n == hex_value(c),
{
    if '0' <= c && c <= '9' {
        Some((c as u32 - 48) as u8)
    } else if 'a' <= c && c <= 'f' {
        Some((c as u32 - 87) as u8)
    } else if 'A' <= c && c <= 'F' {
        Some((c as u32 - 55) as u8)
    } else {
        None
    }
}

fn decode_hex_chars(v: &Vec<char>) -> (r: Option<RGB>)
    ensures
        r == hex_decode(v@),
{
    let start: usize = if v.len() > 0 && v[0] == '#' {
        1
    } else {
        0
    };
    let ghost h = strip_hash(v@);
    assert(h =~= v@.skip(start as int));
    if v.len() - start != 6 {
        return None;
    }
    let mut nibs: Vec<u8> = Vec::new();
    let mut i: usize = 0;
    while i < 6
        invariant
            i <= 6,
            v.len() == start + 6,
            h == v@.skip(start as int),
            nibs.len() == i,
            forall|j: int| 0 <= j < i ==> is_hex_digit(#[trigger] h[j]),
            forall|j: int| 0 <= j < i ==> #[trigger] nibs@[j] < 16 && nibs@[j] == hex_value(h[j]),
        decreases 6 - i,
    {
        match hex_nibble(v[start + i]) {
            Some(n) => {
                assert(h[i as int] == v@[start + i]);
                nibs.push(n);
            },
            None => {
                assert(!is_hex_digit(h[i as int]));
                return None;
            },
        }
        i += 1;
    }
    assert(forall|j: int| 0 <= j < 6 ==> #[trigger] nibs@[j] < 16 && nibs@[j] == hex_value(h[j]));
    let r = RGB {
        r: nibs[0] * 16 + nibs[1],
        g: nibs[2] * 16 + nibs[3],
        b: nibs[4] * 16 + nibs[5],
    };
    Some(r)
}

/// Decodes an optional `#` and six hexadecimal digits.
pub fn hex_to_rgb(hex: &str) -> (r: Option<RGB>)
    ensures
        r == hex_decode(hex@),
{
    decode_hex_chars(&chars_of(hex))
}

/// Whether the token is an optional `#` and six hexadecimal digits.
pub fn is_hex_color(s: &str) -> (b: bool)
    ensures
        b == is_hex_token(s@),
{
    hex_to_rgb(s).is_some()
}

fn rgb_form_chars(v: &Vec<char>) -> (b: bool)
    ensures
        b == is_rgb_form(v@),
{
    let b = v.len() >= 4 && v[0] == 'r' && v[1] == 'g' && v[2] == 'b' && v[3] == '(' && v[v.len()
        - 1] == ')';
    proof {
        if v.len() >= 4 {
            let t = v@.take(4);
            let w = seq!['r', 'g', 'b', '('];
            assert(t[0] == v@[0] && t[1] == v@[1] && t[2] == v@[2] && t[3] == v@[3]);
            assert(w[0] == 'r' && w[1] == 'g' && w[2] == 'b' && w[3] == '(');
            if v@[0] == 'r' && v@[1] == 'g' && v@[2] == 'b' && v@[3] == '(' {
                assert(t =~= w);
            }
        }
    }
    b
}

/// Whether the token starts with `rgb(` and ends with `)`.
pub fn is_rgb_color(s: &str) -> (b: bool)
    ensures
        b == is_rgb_form(s@),
{
    rgb_form_chars(&chars_of(s))
}

fn accent_chars(v: &Vec<char>) -> (b: bool)
    ensures
        b == is_accent_form(v@),
{
    let text = v.len() >= 5 && v[0] == 't' && v[1] == 'e' && v[2] == 'x' && v[3] == 't' && v[4]
        == '_';
    let bg = v.len() >= 3 && v[0] == 'b' && v[1] == 'g' && v[2] == '_';
    proof {
        let w5 = seq!['t', 'e', 'x', 't', '_'];
        let w3 = seq!['b', 'g', '_'];
        assert(w5[0] == 't' && w5[1] == 'e' && w5[2] == 'x' && w5[3] == 't' && w5[4] == '_');
        assert(w3[0] == 'b' && w3[1] == 'g' && w3[2] == '_');
        if v.len() >= 5 {
            let t = v@.take(5);
            assert(t[0] == v@[0] && t[1] == v@[1] && t[2] == v@[2] && t[3] == v@[3] && t[4]
                == v@[4]);
            if text {
                assert(t =~= w5);
            }
        }
        if v.len() >= 3 {
            let t = v@.take(3);
            assert(t[0] == v@[0] && t[1] == v@[1] && t[2] == v@[2]);
            if bg {
                assert(t =~= w3);
            }
        }
    }
    text || bg
}

fn find_from(v: &Vec<char>, c: char, from: usize) -> (r: usize)
    requires
        from <= v.len(),
    ensures
        r == find_char(v@, c, from as int),
        from <= r <= v.len(),
{
    let mut i: usize = from;
    while i < v.len() && v[i] != c
        invariant
            from <= i <= v.len(),
            find_char(v@, c, from as int) == find_char(v@, c, i as int),
        decreases v.len() - i,
    {
        i += 1;
    }
    i
}

fn trim_chars(f: &Vec<char>) -> (r: Vec<char>)
    ensures
        r@ == trimmed(f@),
{
    let mut a: usize = 0;
    while a < f.len() && white_space(f[a])
        invariant
            a <= f.len(),
            trim_start_at(f@, 0) == trim_start_at(f@, a as int),
        decreases f.len() - a,
    {
        a += 1;
    }
    let mut b: usize = f.len();
    while b > 0 && white_space(f[b - 1])
        invariant
            b <= f.len(),
            trim_end_at(f@, f.len() as int) == trim_end_at(f@, b as int),
        decreases b,
    {
        b -= 1;
    }
    if a < b {
        slice_chars(f, a, b)
    } else {
        Vec::new()
    }
}

fn parse_byte_chars(f: &Vec<char>) -> (r: Option<u8>)
    ensures
        r == parse_byte(f@),
{
    let start: usize = if f.len() > 0 && f[0] == '+' {
        1
    } else {
        0
    };
    let ghost d = unsigned_digits(f@);
    assert(d =~= f@.skip(start as int));
    if f.len() == start {
        return None;
    }
    let mut v: u32 = 0;
    let mut i: usize = start;
    while i < f.len()
        invariant
            start <= i <= f.len(),
            d == f@.skip(start as int),
            d == unsigned_digits(f@),
            v <= 2559,
            v <= 255 ==> v == digits_value(d.take(i - start)),
            v > 255 ==> digits_value(d.take(i - start)) > 255,
            forall|j: int| 0 <= j < i - start ==> is_ascii_digit(#[trigger] d[j]),
        decreases f.len() - i,
    {
        let c = f[i];
        assert(d[i - start] == c);
        if !('0' <= c && c <= '9') {
            assert(!is_ascii_digit(d[i - start]));
            return None;
        }
        let ghost k = i - start;
        assert(d.take(k + 1).drop_last() =~= d.take(k));
        assert(d.take(k + 1).last() == c);
        if v <= 255 {
            v = v * 10 + (c as u32 - 48);
        }
        i += 1;
    }
    assert(d.take(f.len() - start) =~= d);
    if v <= 255 {
        Some(v as u8)
    } else {
        None
    }
}

/// Decodes `rgb(r, g, b)`: three comma-separated decimal bytes, white space
/// around each allowed.
pub fn parse_rgb(s: &str) -> (r: Option<RGB>)
    ensures
        r == rgb_decode(s@),
{
    let v = chars_of(s);
    if !rgb_form_chars(&v) {
        return None;
    }
    let inner = slice_chars(&v, 4, v.len() - 1);
    let p = find_from(&inner, ',', 0);
    if p >= inner.len() {
        return None;
    }
    let q = find_from(&inner, ',', p + 1);
    if q >= inner.len() {
        return None;
    }
    let z = find_from(&inner, ',', q + 1);
    if z < inner.len() {
        return None;
    }
    let a = slice_chars(&inner, 0, p);
    let b = slice_chars(&inner, p + 1, q);
    let c = slice_chars(&inner, q + 1, inner.len());
    assert(a@ =~= inner@.take(p as int));
    assert(c@ =~= inner@.skip(q + 1));
    let red = parse_byte_chars(&trim_chars(&a));
    let green = parse_byte_chars(&trim_chars(&b));
    let blue = parse_byte_chars(&trim_chars(&c));
    match (red, green, blue) {
        (Some(r), Some(g), Some(b)) => Some(RGB { r, g, b }),
        _ => None,
    }
}

/// Classifies a style token; total and deterministic.
pub fn identify_color_type(s: &str) -> (t: ColorType)
    ensures
        t == color_type_of(s@),
{
    let v = chars_of(s);
    if decode_hex_chars(&v).is_some() {
        ColorType::Hex
    } else if rgb_form_chars(&v) {
        ColorType::RGB
    } else if accent_chars(&v) {
        ColorType::Accent
    } else {
        ColorType::Default
    }
}

} // verus!
