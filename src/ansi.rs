use vstd::prelude::*;
use crate::gfx::{Color, Point};

verus! {

/// ASCII decimal digits of `n`, without leading zeros.
pub open spec fn decimal(n: nat) -> Seq<u8>
    decreases n,
{
    if n < 10 {
        seq![(48 + n) as u8]
    } else {
        decimal(n / 10).push((48 + n % 10) as u8)
    }
}

/// Escape sequence that moves the cursor to a zero-based position.
pub open spec fn cursor_seq(p: Point) -> Seq<u8> {
    seq![27u8, 91u8] + decimal((p.y + 1) as nat) + seq![59u8] + decimal((p.x + 1) as nat) + seq![72u8]
}

/// Escape sequence that selects a 24-bit color; `layer` is 48 (background) or 38 (foreground).
pub open spec fn rgb_seq(layer: nat, c: Color) -> Seq<u8> {
    seq![27u8, 91u8] + decimal(layer) + seq![59u8, 50u8, 59u8] + decimal(c.r as nat) + seq![59u8]
        + decimal(c.g as nat) + seq![59u8] + decimal(c.b as nat) + seq![109u8]
}

/// Escape sequence that selects a palette color; `layer` is 48 (background) or 38 (foreground).
pub open spec fn indexed_seq(layer: nat, code: u8) -> Seq<u8> {
    seq![27u8, 91u8] + decimal(layer) + seq![59u8, 53u8, 59u8] + decimal(code as nat) + seq![109u8]
}

/// Hides the cursor and stops its blinking: `ESC[?25l ESC[?12l`.
pub open spec fn hide_cursor_seq() -> Seq<u8> {
    seq![27u8, 91u8, 63u8, 50u8, 53u8, 108u8, 27u8, 91u8, 63u8, 49u8, 50u8, 108u8]
}

/// Shows the cursor and lets it blink: `ESC[?25h ESC[?12h`.
pub open spec fn show_cursor_seq() -> Seq<u8> {
    seq![27u8, 91u8, 63u8, 50u8, 53u8, 104u8, 27u8, 91u8, 63u8, 49u8, 50u8, 104u8]
}

/// Sixel scrolling on (`ESC[?80h`) or off (`ESC[?80l`).
pub open spec fn sixel_scroll_seq(on: bool) -> Seq<u8> {
    seq![27u8, 91u8, 63u8, 56u8, 48u8, if on { 104u8 } else { 108u8 }]
}

/// Moves the cursor to the top-left corner: `ESC[H`.
pub open spec fn home_seq() -> Seq<u8> {
    seq![27u8, 91u8, 72u8]
}

/// Appends the decimal digits of `n`.
pub fn push_decimal(buf: &mut Vec<u8>, n: u64)
    ensures
        final(buf)@ == old(buf)@ + decimal(n as nat),
    decreases n,
{
    if n >= 10 {
        push_decimal(buf, n / 10);
    }
    buf.push((48 + n % 10) as u8);
    assert(final(buf)@ =~= old(buf)@ + decimal(n as nat));
}

/// Appends every byte of `s`.
pub fn push_all(buf: &mut Vec<u8>, s: &[u8])
    ensures
        final(buf)@ == old(buf)@ + s@,
{
    let ghost start = buf@;
    let mut i: usize = 0;
    while i < s.len()
        invariant
            i <= s@.len(),
            buf@ == start + s@.subrange(0, i as int),
        decreases s@.len() - i,
    {
        buf.push(s[i]);
        i = i + 1;
        assert(buf@ =~= start + s@.subrange(0, i as int));
    }
    assert(s@.subrange(0, s@.len() as int) =~= s@);
}

pub fn push_cursor(buf: &mut Vec<u8>, p: Point)
    ensures
        final(buf)@ == old(buf)@ + cursor_seq(p),
{
    let ghost start = buf@;
    buf.push(27u8);
    buf.push(91u8);
    push_decimal(buf, p.y as u64 + 1);
    buf.push(59u8);
    push_decimal(buf, p.x as u64 + 1);
    buf.push(72u8);
    assert(buf@ =~= start + cursor_seq(p));
}

pub fn push_rgb(buf: &mut Vec<u8>, layer: u64, c: Color)
    ensures
        final(buf)@ == old(buf)@ + rgb_seq(layer as nat, c),
{
    let ghost start = buf@;
    buf.push(27u8);
    buf.push(91u8);
    push_decimal(buf, layer);
    buf.push(59u8);
    buf.push(50u8);
    buf.push(59u8);
    push_decimal(buf, c.r as u64);
    buf.push(59u8);
    push_decimal(buf, c.g as u64);
    buf.push(59u8);
    push_decimal(buf, c.b as u64);
    buf.push(109u8);
    assert(buf@ =~= start + rgb_seq(layer as nat, c));
}

pub fn push_indexed(buf: &mut Vec<u8>, layer: u64, code: u8)
    ensures
        final(buf)@ == old(buf)@ + indexed_seq(layer as nat, code),
{
    let ghost start = buf@;
    buf.push(27u8);
    buf.push(91u8);
    push_decimal(buf, layer);
    buf.push(59u8);
    buf.push(53u8);
    buf.push(59u8);
    push_decimal(buf, code as u64);
    buf.push(109u8);
    assert(buf@ =~= start + indexed_seq(layer as nat, code));
}

pub fn push_hide_cursor(buf: &mut Vec<u8>)
    ensures
        final(buf)@ == old(buf)@ + hide_cursor_seq(),
{
    let ghost start = buf@;
    buf.push(27u8);
    buf.push(91u8);
    buf.push(63u8);
    buf.push(50u8);
    buf.push(53u8);
    buf.push(108u8);
    buf.push(27u8);
    buf.push(91u8);
    buf.push(63u8);
    buf.push(49u8);
    buf.push(50u8);
    buf.push(108u8);
    assert(buf@ =~= start + hide_cursor_seq());
}

pub fn push_show_cursor(buf: &mut Vec<u8>)
    ensures
        final(buf)@ == old(buf)@ + show_cursor_seq(),
{
    let ghost start = buf@;
    buf.push(27u8);
    buf.push(91u8);
    buf.push(63u8);
    buf.push(50u8);
    buf.push(53u8);
    buf.push(104u8);
    buf.push(27u8);
    buf.push(91u8);
    buf.push(63u8);
    buf.push(49u8);
    buf.push(50u8);
    buf.push(104u8);
    assert(buf@ =~= start + show_cursor_seq());
}

pub fn push_sixel_scroll(buf: &mut Vec<u8>, on: bool)
    ensures
        final(buf)@ == old(buf)@ + sixel_scroll_seq(on),
{
    let ghost start = buf@;
    buf.push(27u8);
    buf.push(91u8);
    buf.push(63u8);
    buf.push(56u8);
    buf.push(48u8);
    buf.push(if on { 104u8 } else { 108u8 });
    assert(buf@ =~= start + sixel_scroll_seq(on));
}

pub fn push_home(buf: &mut Vec<u8>)
    ensures
        final(buf)@ == old(buf)@ + home_seq(),
{
    let ghost start = buf@;
    buf.push(27u8);
    buf.push(91u8);
    buf.push(72u8);
    assert(buf@ =~= start + home_seq());
}

} // verus!
