//! Padding, centering, frames and brightness fades.
use vstd::prelude::*;
use crate::escape::{csi, csi_chars, reset, reset_chars};
use crate::text::{decimal, push_all, push_decimal, push_repeat, repeat};

verus! {

/// `s` preceded by spaces up to `width` characters; never truncated.
pub open spec fn padded_left(s: Seq<char>, width: nat) -> Seq<char> {
    if s.len() >= width {
        s
    } else {
        repeat(' ', (width - s.len()) as nat) + s
    }
}

/// `s` followed by spaces up to `width` characters; never truncated.
pub open spec fn padded_right(s: Seq<char>, width: nat) -> Seq<char> {
    if s.len() >= width {
        s
    } else {
        s + repeat(' ', (width - s.len()) as nat)
    }
}

/// `s` in the middle of `width` characters, the odd space on the right;
/// never truncated.
pub open spec fn centered(s: Seq<char>, width: nat) -> Seq<char> {
    if s.len() >= width {
        s
    } else {
        let left = (width - s.len()) as nat / 2;
        let right = (width - s.len() - left) as nat;
        repeat(' ', left) + s + repeat(' ', right)
    }
}

/// The four corners and the two edges of a frame.
pub struct Frame {
    pub top_left: char,
    pub top_right: char,
    pub bottom_left: char,
    pub bottom_right: char,
    pub horizontal: char,
    pub vertical: char,
}

/// `s` on one line inside the frame `f`, as three lines.
pub open spec fn framed(s: Seq<char>, f: Frame) -> Seq<char> {
    let edge = repeat(f.horizontal, s.len());
    seq![f.top_left] + edge + seq![f.top_right, '\n', f.vertical] + s + seq![
        f.vertical,
        '\n',
        f.bottom_left,
    ] + edge + seq![f.bottom_right]
}

pub open spec fn square_frame() -> Frame {
    Frame {
        top_left: '┌',
        top_right: '┐',
        bottom_left: '└',
        bottom_right: '┘',
        horizontal: '─',
        vertical: '│',
    }
}

pub open spec fn rounded_frame() -> Frame {
    Frame {
        top_left: '╭',
        top_right: '╮',
        bottom_left: '╰',
        bottom_right: '╯',
        horizontal: '─',
        vertical: '│',
    }
}

pub open spec fn double_frame() -> Frame {
    Frame {
        top_left: '╔',
        top_right: '╗',
        bottom_left: '╚',
        bottom_right: '╝',
        horizontal: '═',
        vertical: '║',
    }
}

/// `ESC [ 38 ; 5 ; n m`: a foreground color of the 256-color palette.
pub open spec fn sgr_palette(n: nat) -> Seq<char> {
    csi() + seq!['3', '8', ';', '5', ';'] + decimal(n) + seq!['m']
}

/// The gray of character `i` in a fade: six steps of the gray ramp, from
/// dark to light when `rising`, from light to dark otherwise, repeated.
pub open spec fn fade_shade(rising: bool, i: int) -> nat {
    if rising {
        (232 + 4 * (i % 6)) as nat
    } else {
        (252 - 4 * (i % 6)) as nat
    }
}

/// The first `k` characters of `s`, each preceded by its gray.
pub open spec fn fade_cells(s: Seq<char>, rising: bool, k: int) -> Seq<char>
    decreases k,
{
    if k <= 0 {
        Seq::empty()
    } else {
        fade_cells(s, rising, k - 1) + sgr_palette(fade_shade(rising, k - 1)).push(s[k - 1])
    }
}

/// `s` faded character by character, then reset.
pub open spec fn faded(s: Seq<char>, rising: bool) -> Seq<char> {
    fade_cells(s, rising, s.len() as int) + reset()
}

pub fn pad_chars_left(s: &Vec<char>, width: usize) -> (r: Vec<char>)
    ensures
        r@ == padded_left(s@, width as nat),
{
    let mut out: Vec<char> = Vec::new();
    if s.len() < width {
        push_repeat(&mut out, ' ', width - s.len());
    }
    push_all(&mut out, s);
    out
}

pub fn pad_chars_right(s: &Vec<char>, width: usize) -> (r: Vec<char>)
    ensures
        r@ == padded_right(s@, width as nat),
{
    let mut out: Vec<char> = Vec::new();
    push_all(&mut out, s);
    if s.len() < width {
        push_repeat(&mut out, ' ', width - s.len());
    }
    out
}

pub fn center_chars(s: &Vec<char>, width: usize) -> (r: Vec<char>)
    ensures
        r@ == centered(s@, width as nat),
{
    let mut out: Vec<char> = Vec::new();
    if s.len() >= width {
        push_all(&mut out, s);
        return out;
    }
    let left = (width - s.len()) / 2;
    let right = width - s.len() - left;
    push_repeat(&mut out, ' ', left);
    push_all(&mut out, s);
    push_repeat(&mut out, ' ', right);
    out
}

pub fn frame_chars(s: &Vec<char>, f: Frame) -> (r: Vec<char>)
    ensures
        r@ == framed(s@, f),
{
    let mut out: Vec<char> = Vec::new();
    out.push(f.top_left);
    push_repeat(&mut out, f.horizontal, s.len());
    out.push(f.top_right);
    out.push('\n');
    out.push(f.vertical);
    push_all(&mut out, s);
    out.push(f.vertical);
    out.push('\n');
    out.push(f.bottom_left);
    push_repeat(&mut out, f.horizontal, s.len());
    out.push(f.bottom_right);
    assert(out@ =~= framed(s@, f));
    out
}

pub fn fade_chars(s: &Vec<char>, rising: bool) -> (r: Vec<char>)
    ensures
        r@ == faded(s@, rising),
{
    let mut out: Vec<char> = Vec::new();
    let mut i: usize = 0;
    while i < s.len()
        invariant
            i <= s.len(),
            out@ == fade_cells(s@, rising, i as int),
        decreases s.len() - i,
    {
        let step: usize = 4 * (i % 6);
        let shade: usize = if rising {
            232 + step
        } else {
            252 - step
        };
        let mut cell = csi_chars();
        cell.push('3');
        cell.push('8');
        cell.push(';');
        cell.push('5');
        cell.push(';');
        push_decimal(&mut cell, shade);
        cell.push('m');
        assert(cell@ =~= sgr_palette(fade_shade(rising, i as int)));
        push_all(&mut out, &cell);
        out.push(s[i]);
        assert(out@ =~= fade_cells(s@, rising, i + 1));
        i += 1;
    }
    push_all(&mut out, &reset_chars());
    out
}

} // verus!
