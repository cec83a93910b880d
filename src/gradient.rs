//! Per-character color gradients: stop tokens are resolved to colors, and
//! each character gets the color that piecewise-linear interpolation across
//! the stops gives at its position.
use vstd::prelude::*;
use crate::color::{
    color_type_of, hex_decode, hex_to_rgb, identify_color_type, parse_rgb, rgb_decode, ColorType, RGB,
};
use crate::escape::{reset, reset_chars, sgr_rgb, sgr_rgb_chars};
use crate::text::{chars_of, push_all, string_from};
use vstd::arithmetic::div_mod::{lemma_fundamental_div_mod, lemma_fundamental_div_mod_converse};

verus! {

/// Which color a gradient sets.
#[derive(Debug, Clone, Copy, PartialEq, Eq, Structural)]
pub enum Target {
    Foreground,
    Background,
}

/// The SGR code that introduces a 24-bit color for the target.
pub open spec fn target_code(t: Target) -> nat {
    match t {
        Target::Foreground => 38,
        Target::Background => 48,
    }
}

/// The color a stop token resolves to: hexadecimal and `rgb(...)` tokens
/// resolve, every other token does not.
pub open spec fn resolve_stop(tok: Seq<char>) -> Option<RGB> {
    match color_type_of(tok) {
        ColorType::Hex => hex_decode(tok),
        ColorType::RGB => rgb_decode(tok),
        _ => None,
    }
}

/// The colors of the first `k` tokens that resolve, in order.
pub open spec fn resolved_stops(tokens: Seq<Seq<char>>, k: int) -> Seq<RGB>
    decreases k,
{
    if k <= 0 {
        Seq::empty()
    } else {
        let prev = resolved_stops(tokens, k - 1);
        match resolve_stop(tokens[k - 1]) {
            Some(c) => prev.push(c),
            None => prev,
        }
    }
}

pub open spec fn token_views(steps: Seq<&str>) -> Seq<Seq<char>> {
    steps.map_values(|t: &str| t@)
}

/// `a + (b - a) * rem / d`, truncated: the channel a fraction `rem / d` of
/// the way from `a` to `b`.
pub open spec fn lerp_channel(a: int, b: int, rem: int, d: int) -> int {
    (a * (d - rem) + b * rem) / d
}

/// The stop at or below the position of character `i` of `n`.
pub open spec fn stop_index(k: int, i: int, n: int) -> int {
    if n <= 1 {
        0
    } else {
        (i * (k - 1)) / (n - 1)
    }
}

/// How far character `i` of `n` lies past its stop, in units of `1 / (n - 1)`.
pub open spec fn stop_offset(k: int, i: int, n: int) -> int {
    if n <= 1 {
        0
    } else {
        (i * (k - 1)) % (n - 1)
    }
}

/// The color of character `i` of `n` in a gradient across `colors`.
pub open spec fn gradient_color(colors: Seq<RGB>, i: int, n: int) -> RGB {
    let k = colors.len() as int;
    let idx = stop_index(k, i, n);
    let nxt = if idx + 1 < k {
        idx + 1
    } else {
        k - 1
    };
    let rem = stop_offset(k, i, n);
    let d = if n <= 1 {
        1
    } else {
        n - 1
    };
    RGB {
        r: lerp_channel(colors[idx].r as int, colors[nxt].r as int, rem, d) as u8,
        g: lerp_channel(colors[idx].g as int, colors[nxt].g as int, rem, d) as u8,
        b: lerp_channel(colors[idx].b as int, colors[nxt].b as int, rem, d) as u8,
    }
}

/// Character `i` preceded by the sequence that selects its color.
pub open spec fn gradient_cell(text: Seq<char>, colors: Seq<RGB>, code: nat, i: int) -> Seq<char> {
    let c = gradient_color(colors, i, text.len() as int);
    sgr_rgb(code, c.r as nat, c.g as nat, c.b as nat).push(text[i])
}

/// The cells of the first `k` characters.
pub open spec fn gradient_cells(text: Seq<char>, colors: Seq<RGB>, code: nat, k: int) -> Seq<char>
    decreases k,
{
    if k <= 0 {
        Seq::empty()
    } else {
        gradient_cells(text, colors, code, k - 1) + gradient_cell(text, colors, code, k - 1)
    }
}

/// The text as a gradient across the stops that resolve; unchanged when
/// there are no stops, no text, or fewer than two colors.
pub open spec fn gradient_text(text: Seq<char>, tokens: Seq<Seq<char>>, target: Target) -> Seq<
    char,
> {
    let colors = resolved_stops(tokens, tokens.len() as int);
    if tokens.len() == 0 || text.len() == 0 || colors.len() < 2 {
        text
    } else {
        gradient_cells(text, colors, target_code(target), text.len() as int) + reset()
    }
}

/// With no text, no stops, or fewer than two stops that resolve, a gradient
/// leaves the text as it is.
pub proof fn lemma_gradient_degenerate(text: Seq<char>, tokens: Seq<Seq<char>>, target: Target)
    ensures
        text.len() == 0 ==> gradient_text(text, tokens, target) == text,
        tokens.len() == 0 ==> gradient_text(text, tokens, target) == text,
        resolved_stops(tokens, tokens.len() as int).len() < 2 ==> gradient_text(
            text,
            tokens,
            target,
        ) == text,
{
}

proof fn lemma_lerp_at_stop(a: int, b: int, d: int)
    requires
        d > 0,
    ensures
        lerp_channel(a, b, 0, d) == a,
{
    assert(a * (d - 0) + b * 0 == a * d) by (nonlinear_arith);
    lemma_fundamental_div_mod_converse(a * d, d, a, 0);
}

/// The first character takes the first stop's color exactly, and the last
/// character the last stop's.
pub proof fn lemma_gradient_ends(colors: Seq<RGB>, n: int)
    requires
        colors.len() >= 2,
        n >= 1,
    ensures
        gradient_color(colors, 0, n) == colors[0],
        n >= 2 ==> gradient_color(colors, n - 1, n) == colors.last(),
{
    let k = colors.len() as int;
    let d = if n <= 1 {
        1
    } else {
        n - 1
    };
    assert(stop_index(k, 0, n) == 0 && stop_offset(k, 0, n) == 0);
    lemma_lerp_at_stop(colors[0].r as int, colors[1].r as int, d);
    lemma_lerp_at_stop(colors[0].g as int, colors[1].g as int, d);
    lemma_lerp_at_stop(colors[0].b as int, colors[1].b as int, d);
    if n >= 2 {
        assert((n - 1) * (k - 1) == (k - 1) * (n - 1)) by (nonlinear_arith);
        lemma_fundamental_div_mod_converse((n - 1) * (k - 1), n - 1, k - 1, 0);
        let c = colors.last();
        lemma_lerp_at_stop(c.r as int, c.r as int, d);
        lemma_lerp_at_stop(c.g as int, c.g as int, d);
        lemma_lerp_at_stop(c.b as int, c.b as int, d);
    }
}

proof fn lemma_half(x: int, h: int)
    requires
        x >= 0,
        h > 0,
    ensures
        (x * h) / (2 * h) == x / 2,
{
    let q = x / 2;
    let r = x % 2;
    assert(x * h == q * (2 * h) + r * h && 0 <= r * h < 2 * h) by (nonlinear_arith)
        requires
            x == 2 * q + r,
            0 <= r < 2,
            h > 0,
    ;
    lemma_fundamental_div_mod_converse(x * h, 2 * h, q, r * h);
}

/// At the middle character of an odd number of characters, a gradient
/// between two stops gives each channel the average of the stops' channels,
/// truncated.
pub proof fn lemma_gradient_midpoint(a: RGB, b: RGB, n: int)
    requires
        n >= 3,
        n % 2 == 1,
    ensures
        gradient_color(seq![a, b], (n - 1) / 2, n) == (RGB {
            r: ((a.r + b.r) / 2) as u8,
            g: ((a.g + b.g) / 2) as u8,
            b: ((a.b + b.b) / 2) as u8,
        }),
{
    let colors = seq![a, b];
    let h = (n - 1) / 2;
    assert(n - 1 == 2 * h);
    lemma_fundamental_div_mod_converse(h, 2 * h, 0, h);
    assert(stop_index(2, h, n) == 0);
    assert(stop_offset(2, h, n) == h);
    assert forall|x: int, y: int| 0 <= x && 0 <= y implies #[trigger] lerp_channel(x, y, h, 2 * h)
        == (x + y) / 2 by {
        assert(x * (2 * h - h) + y * h == (x + y) * h) by (nonlinear_arith);
        lemma_half(x + y, h);
    }
    assert(colors[0] == a && colors[1] == b);
    assert(lerp_channel(a.r as int, b.r as int, h, 2 * h) == (a.r + b.r) / 2);
    assert(lerp_channel(a.g as int, b.g as int, h, 2 * h) == (a.g + b.g) / 2);
    assert(lerp_channel(a.b as int, b.b as int, h, 2 * h) == (a.b + b.b) / 2);
}

proof fn lemma_lerp_bounds(x: int, y: int, rem: int, d: int)
    requires
        0 <= x <= 255,
        0 <= y <= 255,
        0 <= rem <= d,
        d > 0,
    ensures
        0 <= lerp_channel(x, y, rem, d) <= 255,
{
    let p = x * (d - rem) + y * rem;
    assert(0 <= p <= 255 * d) by (nonlinear_arith)
        requires
            p == x * (d - rem) + y * rem,
            0 <= x <= 255,
            0 <= y <= 255,
            0 <= rem <= d,
    ;
    lemma_fundamental_div_mod(p, d);
    assert(0 <= p / d <= 255) by (nonlinear_arith)
        requires
            p == d * (p / d) + p % d,
            0 <= p % d < d,
            0 <= p <= 255 * d,
    ;
}

proof fn lemma_below_half(c: int, p: int, x: int, d: int)
    requires
        d > 0,
        c * d <= p,
        2 * p <= x * d,
    ensures
        c <= x / 2,
{
    assert((2 * c - x) * d <= 0) by (nonlinear_arith)
        requires
            c * d <= p,
            2 * p <= x * d,
    ;
    assert(2 * c - x <= 0) by (nonlinear_arith)
        requires
            (2 * c - x) * d <= 0,
            d > 0,
    ;
}

proof fn lemma_above_half(c: int, p: int, x: int, d: int)
    requires
        d > 0,
        p < (c + 1) * d,
        x * d <= 2 * p,
        x >= 0,
    ensures
        x / 2 <= c,
{
    let m = x / 2;
    assert(2 * m <= x);
    assert((2 * m - 2 * c - 2) * d < 0) by (nonlinear_arith)
        requires
            p < (c + 1) * d,
            x * d <= 2 * p,
            2 * m <= x,
            d > 0,
    ;
    assert(2 * m - 2 * c - 2 < 0) by (nonlinear_arith)
        requires
            (2 * m - 2 * c - 2) * d < 0,
            d > 0,
    ;
}

/// The two characters on either side of the middle of `2h + 2` characters:
/// the truncated average lies between their channels.
proof fn lemma_middle_pair_channel(x: int, y: int, h: int)
    requires
        0 <= x,
        0 <= y,
        h >= 0,
    ensures
        x <= y ==> lerp_channel(x, y, h, 2 * h + 1) <= (x + y) / 2 <= lerp_channel(
            x,
            y,
            h + 1,
            2 * h + 1,
        ),
        y <= x ==> lerp_channel(x, y, h + 1, 2 * h + 1) <= (x + y) / 2 <= lerp_channel(
            x,
            y,
            h,
            2 * h + 1,
        ),
{
    let d = 2 * h + 1;
    let pi = x * (d - h) + y * h;
    let pj = x * (d - h - 1) + y * (h + 1);
    let ci = pi / d;
    let cj = pj / d;
    lemma_fundamental_div_mod(pi, d);
    lemma_fundamental_div_mod(pj, d);
    assert(pi == d * ci + pi % d && 0 <= pi % d < d);
    assert(pj == d * cj + pj % d && 0 <= pj % d < d);
    assert(ci * d <= pi < (ci + 1) * d) by (nonlinear_arith)
        requires
            pi == d * ci + pi % d,
            0 <= pi % d < d,
    ;
    assert(cj * d <= pj < (cj + 1) * d) by (nonlinear_arith)
        requires
            pj == d * cj + pj % d,
            0 <= pj % d < d,
    ;
    assert(2 * pi - (x + y) * d == x - y) by (nonlinear_arith)
        requires
            pi == x * (d - h) + y * h,
            d == 2 * h + 1,
    ;
    assert(2 * pj - (x + y) * d == y - x) by (nonlinear_arith)
        requires
            pj == x * (d - h - 1) + y * (h + 1),
            d == 2 * h + 1,
    ;
    if x <= y {
        lemma_below_half(ci, pi, x + y, d);
        lemma_above_half(cj, pj, x + y, d);
    }
    if y <= x {
        lemma_below_half(cj, pj, x + y, d);
        lemma_above_half(ci, pi, x + y, d);
    }
}

/// For an even number of characters, no character sits at the middle of a
/// gradient between two stops; the truncated average of the stops' channels
/// lies between the channels of the two characters on either side of it.
pub proof fn lemma_gradient_middle_pair(a: RGB, b: RGB, n: int)
    requires
        n >= 2,
        n % 2 == 0,
    ensures
        ({
            let lo = gradient_color(seq![a, b], n / 2 - 1, n);
            let hi = gradient_color(seq![a, b], n / 2, n);
            &&& a.r <= b.r ==> lo.r <= (a.r + b.r) / 2 <= hi.r
            &&& b.r <= a.r ==> hi.r <= (a.r + b.r) / 2 <= lo.r
            &&& a.g <= b.g ==> lo.g <= (a.g + b.g) / 2 <= hi.g
            &&& b.g <= a.g ==> hi.g <= (a.g + b.g) / 2 <= lo.g
            &&& a.b <= b.b ==> lo.b <= (a.b + b.b) / 2 <= hi.b
            &&& b.b <= a.b ==> hi.b <= (a.b + b.b) / 2 <= lo.b
        }),
{
    let colors = seq![a, b];
    let h = n / 2 - 1;
    let d = 2 * h + 1;
    assert(n - 1 == d);
    assert(colors[0] == a && colors[1] == b);
    lemma_fundamental_div_mod_converse(h, d, 0, h);
    assert(stop_index(2, h, n) == 0 && stop_offset(2, h, n) == h);
    if h >= 1 {
        lemma_fundamental_div_mod_converse(h + 1, d, 0, h + 1);
        assert(stop_index(2, h + 1, n) == 0 && stop_offset(2, h + 1, n) == h + 1);
    } else {
        lemma_gradient_ends(colors, n);
        assert(colors.last() == b);
        assert(lerp_channel(a.r as int, b.r as int, 1, 1) == b.r);
        assert(lerp_channel(a.g as int, b.g as int, 1, 1) == b.g);
        assert(lerp_channel(a.b as int, b.b as int, 1, 1) == b.b);
    }
    lemma_middle_pair_channel(a.r as int, b.r as int, h);
    lemma_middle_pair_channel(a.g as int, b.g as int, h);
    lemma_middle_pair_channel(a.b as int, b.b as int, h);
    lemma_lerp_bounds(a.r as int, b.r as int, h, d);
    lemma_lerp_bounds(a.g as int, b.g as int, h, d);
    lemma_lerp_bounds(a.b as int, b.b as int, h, d);
    lemma_lerp_bounds(a.r as int, b.r as int, h + 1, d);
    lemma_lerp_bounds(a.g as int, b.g as int, h + 1, d);
    lemma_lerp_bounds(a.b as int, b.b as int, h + 1, d);
    let lo = gradient_color(colors, h, n);
    let hi = gradient_color(colors, h + 1, n);
    assert(lo.r == lerp_channel(a.r as int, b.r as int, h, d));
    assert(hi.r == lerp_channel(a.r as int, b.r as int, h + 1, d));
    assert(lo.g == lerp_channel(a.g as int, b.g as int, h, d));
    assert(hi.g == lerp_channel(a.g as int, b.g as int, h + 1, d));
    assert(lo.b == lerp_channel(a.b as int, b.b as int, h, d));
    assert(hi.b == lerp_channel(a.b as int, b.b as int, h + 1, d));
}

fn resolve_token(tok: &str) -> (r: Option<RGB>)
    ensures
        r == resolve_stop(tok@),
{
    match identify_color_type(tok) {
        ColorType::Hex => hex_to_rgb(tok),
        ColorType::RGB => parse_rgb(tok),
        _ => None,
    }
}

fn resolve_all(steps: &[&str]) -> (colors: Vec<RGB>)
    ensures
        colors@ == resolved_stops(token_views(steps@), steps@.len() as int),
{
    let ghost toks = token_views(steps@);
    let mut colors: Vec<RGB> = Vec::new();
    let mut i: usize = 0;
    while i < steps.len()
        invariant
            i <= steps@.len(),
            toks == token_views(steps@),
            colors@ == resolved_stops(toks, i as int),
        decreases steps.len() - i,
    {
        let step: &str = steps[i];
        assert(toks[i as int] == step@);
        match resolve_token(step) {
            Some(c) => colors.push(c),
            None => {},
        }
        i += 1;
    }
    colors
}

fn lerp(a: u8, b: u8, rem: u128, d: u128) -> (v: u8)
    requires
        rem < d,
        d <= u64::MAX,
    ensures
        v as int == lerp_channel(a as int, b as int, rem as int, d as int),
{
    let ghost (ai, bi, ri, di) = (a as int, b as int, rem as int, d as int);
    assert(ai * (di - ri) <= 255 * (di - ri) && bi * ri <= 255 * ri) by (nonlinear_arith)
        requires
            0 <= ai <= 255,
            0 <= bi <= 255,
            0 <= ri < di,
    ;
    let x: u128 = a as u128 * (d - rem);
    let y: u128 = b as u128 * rem;
    let q: u128 = (x + y) / d;
    assert(q <= 255) by (nonlinear_arith)
        requires
            q == (x + y) as int / d as int,
            x + y <= 255 * d,
            d > 0,
    ;
    q as u8
}

fn color_at(colors: &Vec<RGB>, i: usize, n: usize) -> (c: RGB)
    requires
        colors.len() >= 2,
        i < n,
    ensures
        c == gradient_color(colors@, i as int, n as int),
{
    if n <= 1 {
        return RGB { r: colors[0].r, g: colors[0].g, b: colors[0].b };
    }
    let k: usize = colors.len();
    assert(i as int * (k - 1) <= u64::MAX * u64::MAX) by (nonlinear_arith)
        requires
            0 <= i <= u64::MAX,
            1 <= k <= u64::MAX,
    ;
    let d: u128 = (n - 1) as u128;
    let seg: u128 = (i as u128) * ((k - 1) as u128);
    assert(seg <= d * (k - 1)) by (nonlinear_arith)
        requires
            seg == i * (k - 1),
            i <= d,
            k >= 1,
    ;
    let idx128: u128 = seg / d;
    let rem: u128 = seg % d;
    assert(idx128 <= k - 1) by (nonlinear_arith)
        requires
            idx128 == seg as int / d as int,
            seg <= d * (k - 1),
            d > 0,
    ;
    let idx: usize = idx128 as usize;
    let nxt: usize = if idx + 1 < k {
        idx + 1
    } else {
        k - 1
    };
    let lo = colors[idx];
    let hi = colors[nxt];
    RGB { r: lerp(lo.r, hi.r, rem, d), g: lerp(lo.g, hi.g, rem, d), b: lerp(lo.b, hi.b, rem, d) }
}

/// Renders `text` as a gradient across the stop tokens, as `gradient_text`
/// describes.
pub fn render_gradient(text: &str, steps: &[&str], target: Target) -> (r: String)
    ensures
        r@ == gradient_text(text@, token_views(steps@), target),
{
    let t = chars_of(text);
    if steps.len() == 0 || t.len() == 0 {
        return string_from(t);
    }
    let colors = resolve_all(steps);
    if colors.len() < 2 {
        return string_from(t);
    }
    let code: usize = match target {
        Target::Foreground => 38,
        Target::Background => 48,
    };
    let n = t.len();
    let mut out: Vec<char> = Vec::new();
    let mut i: usize = 0;
    while i < n
        invariant
            i <= n == t@.len(),
            colors@.len() >= 2,
            code == target_code(target),
            out@ == gradient_cells(t@, colors@, code as nat, i as int),
        decreases n - i,
    {
        let c = color_at(&colors, i, n);
        let cell = sgr_rgb_chars(code, c.r as usize, c.g as usize, c.b as usize);
        push_all(&mut out, &cell);
        out.push(t[i]);
        assert(out@ =~= gradient_cells(t@, colors@, code as nat, i + 1));
        i += 1;
    }
    push_all(&mut out, &reset_chars());
    string_from(out)
}

} // verus!
