//! ANSI select-graphic-rendition sequences, and wrapping text in one without
//! disturbing the sequences that the text already holds.
use vstd::prelude::*;
use crate::text::{
    chars_of, decimal, matches_at, occurs_at, push_all, push_decimal, slice_chars, string_from,
};

verus! {

/// The control sequence introducer: `ESC [`.
pub open spec fn csi() -> Seq<char> {
    seq!['\x1b', '[']
}

/// The sequence that resets every attribute: `ESC [ 0 m`.
pub open spec fn reset() -> Seq<char> {
    seq!['\x1b', '[', '0', 'm']
}

/// `ESC [ n m`.
pub open spec fn sgr(n: nat) -> Seq<char> {
    csi() + decimal(n) + seq!['m']
}

/// `ESC [ initial ; 2 ; r ; g ; b m`: a 24-bit color.
pub open spec fn sgr_rgb(initial: nat, r: nat, g: nat, b: nat) -> Seq<char> {
    csi() + decimal(initial) + seq![';', '2', ';'] + decimal(r) + seq![';'] + decimal(g) + seq![
        ';',
    ] + decimal(b) + seq!['m']
}

pub open spec fn has_csi(s: Seq<char>) -> bool {
    exists|i: int| occurs_at(s, csi(), i)
}

pub open spec fn starts_with_csi(s: Seq<char>) -> bool {
    occurs_at(s, csi(), 0)
}

/// The first position at or after `i` where a reset begins, or the length.
pub open spec fn find_reset(s: Seq<char>, i: int) -> int
    decreases s.len() - i,
{
    if i >= s.len() {
        s.len() as int
    } else if occurs_at(s, reset(), i) {
        i
    } else {
        find_reset(s, i + 1)
    }
}

/// The end of the segment that starts at `i`: just after the next reset, or
/// the end of the text.
pub open spec fn segment_end(s: Seq<char>, i: int) -> int {
    let j = find_reset(s, i);
    if j < s.len() {
        j + 4
    } else {
        s.len() as int
    }
}

pub proof fn lemma_find_reset_bounds(s: Seq<char>, i: int)
    requires
        0 <= i,
    ensures
        i <= find_reset(s, i) || i > s.len(),
        find_reset(s, i) <= s.len(),
        find_reset(s, i) < s.len() ==> occurs_at(s, reset(), find_reset(s, i)),
    decreases s.len() - i,
{
    if i < s.len() && !occurs_at(s, reset(), i) {
        lemma_find_reset_bounds(s, i + 1);
    }
}

/// A segment keeps its styling if it has any, and is opened with `opening`
/// otherwise.
pub open spec fn spliced_piece(p: Seq<char>, opening: Seq<char>) -> Seq<char> {
    if starts_with_csi(p) {
        p
    } else {
        opening + p
    }
}

/// The segments of `s` from position `i` on, each kept or opened.
pub open spec fn splice_from(s: Seq<char>, i: int, opening: Seq<char>) -> Seq<char>
    decreases s.len() - i,
{
    if i < 0 || i >= s.len() {
        Seq::empty()
    } else {
        let e = segment_end(s, i);
        proof {
            lemma_find_reset_bounds(s, i);
        }
        spliced_piece(s.subrange(i, e), opening) + splice_from(s, e, opening)
    }
}

/// `s` styled with the sequence `opening`: plain text is wrapped whole and
/// closed with a reset; text that already holds escape sequences is split
/// after each reset, and only its unstyled segments are opened with `opening`.
pub open spec fn styled(s: Seq<char>, opening: Seq<char>) -> Seq<char> {
    if has_csi(s) {
        splice_from(s, 0, opening)
    } else {
        opening + s + reset()
    }
}

proof fn lemma_find_reset_skips(s: Seq<char>, i: int, j: int)
    requires
        0 <= i <= j <= s.len(),
        forall|k: int| i <= k < j ==> !occurs_at(s, reset(), k),
    ensures
        find_reset(s, i) == find_reset(s, j),
    decreases j - i,
{
    if i < j {
        lemma_find_reset_skips(s, i + 1, j);
    }
}

/// Styling text that holds one styled segment closed by a reset, followed by
/// plain text, keeps the styled segment as it is and opens only the plain
/// remainder, with no reset added after it.
pub proof fn lemma_styled_keeps_colored_segment(p: Seq<char>, q: Seq<char>, opening: Seq<char>)
    requires
        starts_with_csi(p),
        forall|i: int| !occurs_at(p, reset(), i),
        q.len() > 0,
        !has_csi(q),
    ensures
        styled(p + reset() + q, opening) == p + reset() + (opening + q),
{
    let s = p + reset() + q;
    let l = p.len() as int;
    let n = s.len() as int;
    assert(s.subrange(0, 2) =~= p.subrange(0, 2));
    assert(occurs_at(s, csi(), 0));
    assert forall|k: int| 0 <= k < l implies !occurs_at(s, reset(), k) by {
        if k + 4 <= l {
            assert(s.subrange(k, k + 4) =~= p.subrange(k, k + 4));
            assert(!occurs_at(p, reset(), k));
        } else if k + 4 <= n {
            let w = s.subrange(k, k + 4);
            assert(w[l - k] == '\x1b');
            assert(reset()[l - k] != '\x1b');
        }
    }
    lemma_find_reset_skips(s, 0, l);
    assert(s.subrange(l, l + 4) =~= reset());
    assert(find_reset(s, 0) == l);
    assert(s.subrange(0, l + 4) =~= p + reset());
    assert(s.subrange(0, 2) == (p + reset()).subrange(0, 2));
    assert forall|k: int| l + 4 <= k < n implies !occurs_at(s, reset(), k) by {
        if occurs_at(s, reset(), k) {
            let w = s.subrange(k, k + 4);
            assert(q.subrange(k - l - 4, k - l - 2) =~= w.subrange(0, 2));
            assert(reset().subrange(0, 2) =~= csi());
            assert(occurs_at(q, csi(), k - l - 4));
        }
    }
    lemma_find_reset_skips(s, l + 4, n);
    assert(find_reset(s, l + 4) == n);
    assert(s.subrange(l + 4, n) =~= q);
    assert(!starts_with_csi(q));
    assert(splice_from(s, n, opening) =~= Seq::<char>::empty());
    assert(splice_from(s, l + 4, opening) =~= opening + q);
}

pub fn csi_chars() -> (v: Vec<char>)
    ensures
        v@ == csi(),
{
    let v = vec!['\x1b', '['];
    assert(v@ =~= csi());
    v
}

pub fn reset_chars() -> (v: Vec<char>)
    ensures
        v@ == reset(),
{
    let v = vec!['\x1b', '[', '0', 'm'];
    assert(v@ =~= reset());
    v
}

/// The characters of `ESC [ n m`.
pub fn sgr_chars(n: usize) -> (v: Vec<char>)
    ensures
        v@ == sgr(n as nat),
{
    let mut v = csi_chars();
    push_decimal(&mut v, n);
    v.push('m');
    assert(v@ =~= sgr(n as nat));
    v
}

/// The characters of `ESC [ initial ; 2 ; r ; g ; b m`.
pub fn sgr_rgb_chars(initial: usize, r: usize, g: usize, b: usize) -> (v: Vec<char>)
    ensures
        v@ == sgr_rgb(initial as nat, r as nat, g as nat, b as nat),
{
    let mut v = csi_chars();
    push_decimal(&mut v, initial);
    v.push(';');
    v.push('2');
    v.push(';');
    push_decimal(&mut v, r);
    v.push(';');
    push_decimal(&mut v, g);
    v.push(';');
    push_decimal(&mut v, b);
    v.push('m');
    assert(v@ =~= sgr_rgb(initial as nat, r as nat, g as nat, b as nat));
    v
}

fn contains_csi(v: &Vec<char>) -> (b: bool)
    ensures
        b == has_csi(v@),
{
    let pat = csi_chars();
    let mut i: usize = 0;
    while i < v.len()
        invariant
            i <= v.len(),
            pat@ == csi(),
            forall|j: int| 0 <= j < i ==> !occurs_at(v@, csi(), j),
        decreases v.len() - i,
    {
        if matches_at(v, &pat, i) {
            return true;
        }
        i += 1;
    }
    assert forall|j: int| !occurs_at(v@, csi(), j) by {
        if 0 <= j < v.len() {
        }
    }
    false
}

fn next_reset(v: &Vec<char>, from: usize) -> (r: usize)
    requires
        from <= v.len(),
    ensures
        r == find_reset(v@, from as int),
{
    let pat = reset_chars();
    let mut k: usize = from;
    while k < v.len() && !matches_at(v, &pat, k)
        invariant
            from <= k <= v.len(),
            pat@ == reset(),
            find_reset(v@, from as int) == find_reset(v@, k as int),
        decreases v.len() - k,
    {
        k += 1;
    }
    k
}

/// `text` between `ESC [ n m` and a reset, whatever it holds.
pub fn wrap_whole(text: &str, n: usize) -> (r: String)
    ensures
        r@ == sgr(n as nat) + text@ + reset(),
{
    let mut out = sgr_chars(n);
    push_all(&mut out, &chars_of(text));
    push_all(&mut out, &reset_chars());
    string_from(out)
}

/// Styles `text` with the sequence `opening`, as `styled` describes.
pub fn compose(text: &Vec<char>, opening: &Vec<char>) -> (r: Vec<char>)
    ensures
        r@ == styled(text@, opening@),
{
    let mut out: Vec<char> = Vec::new();
    if !contains_csi(text) {
        push_all(&mut out, opening);
        push_all(&mut out, text);
        push_all(&mut out, &reset_chars());
        return out;
    }
    let intro = csi_chars();
    let mut i: usize = 0;
    while i < text.len()
        invariant
            i <= text.len(),
            intro@ == csi(),
            out@ + splice_from(text@, i as int, opening@) == splice_from(text@, 0, opening@),
        decreases text.len() - i,
    {
        let j = next_reset(text, i);
        proof {
            lemma_find_reset_bounds(text@, i as int);
        }
        let e: usize = if j < text.len() {
            j + 4
        } else {
            text.len()
        };
        let part = slice_chars(text, i, e);
        let ghost before = out@;
        if matches_at(&part, &intro, 0) {
            push_all(&mut out, &part);
        } else {
            push_all(&mut out, opening);
            push_all(&mut out, &part);
        }
        assert(out@ =~= before + spliced_piece(text@.subrange(i as int, e as int), opening@));
        i = e;
    }
    out
}

} // verus!
