use vstd::prelude::*;
use crate::gfx::Size;
use crate::graphics::{digits_value, is_digit, lemma_value_grows};

verus! {

/// Columns and rows to use when the terminal driver reports an empty size:
/// the environment's values where they are set and non-zero, else 80x24.
pub open spec fn fallback_size(cols: u32, rows: u32, env_cols: Option<u32>, env_rows: Option<u32>) -> Size {
    if cols != 0 && rows != 0 {
        Size { width: cols, height: rows }
    } else {
        Size {
            width: match env_cols {
                Some(c) if c != 0 => c,
                _ => 80,
            },
            height: match env_rows {
                Some(r) if r != 0 => r,
                _ => 24,
            },
        }
    }
}

/// Cells left for the page: at least one column, and one row kept for the UI.
pub open spec fn page_cells(term: Size) -> Size {
    Size {
        width: if term.width >= 1 { term.width } else { 1 },
        height: ((if term.height >= 2 { term.height } else { 2 }) - 1) as u32,
    }
}

/// The terminal size in cells, from the driver's report and the environment.
pub fn terminal_size(cols: u32, rows: u32, env_cols: Option<u32>, env_rows: Option<u32>) -> (s: Size)
    ensures
        s == fallback_size(cols, rows, env_cols, env_rows),
        s.width >= 1 && s.height >= 1,
{
    if cols != 0 && rows != 0 {
        return Size { width: cols, height: rows };
    }
    let width = match env_cols {
        Some(c) if c != 0 => c,
        _ => 80,
    };
    let height = match env_rows {
        Some(r) if r != 0 => r,
        _ => 24,
    };
    Size { width, height }
}

/// The cells that the page is drawn on, for a terminal of `term` cells.
pub fn page_size(term: Size) -> (s: Size)
    ensures
        s == page_cells(term),
        s.width >= 1 && s.height >= 1,
{
    let width = if term.width >= 1 { term.width } else { 1 };
    let height = if term.height >= 2 { term.height } else { 2 };
    Size { width, height: height - 1 }
}

/// `ESC [ code ;` starts at `k`.
pub open spec fn prefix_at(s: Seq<u8>, k: int, code: u8) -> bool {
    0 <= k && k + 4 <= s.len() && s[k] == 27 && s[k + 1] == 91 && s[k + 2] == code && s[k + 3] == 59
}

/// Start of the last `ESC [ code ;` that begins before `n`.
pub open spec fn last_prefix_before(s: Seq<u8>, code: u8, n: nat) -> Option<nat>
    decreases n,
{
    if n == 0 {
        None
    } else if prefix_at(s, n - 1, code) {
        Some((n - 1) as nat)
    } else {
        last_prefix_before(s, code, (n - 1) as nat)
    }
}

/// First index in `i..end` that holds `b`, or `end`.
pub open spec fn find_in(s: Seq<u8>, b: u8, i: int, end: int) -> int
    decreases end - i,
{
    if i >= end {
        end
    } else if s[i] == b {
        i
    } else {
        find_in(s, b, i + 1, end)
    }
}

/// A non-empty string of digits whose value is positive and fits in 32 bits.
pub open spec fn positive_field(d: Seq<u8>) -> Option<u32> {
    if d.len() > 0 && (forall|i: int| 0 <= i < d.len() ==> is_digit(#[trigger] d[i])) && 0
        < digits_value(d) <= u32::MAX {
        Some(digits_value(d) as u32)
    } else {
        None
    }
}

/// The size in a terminal reply `ESC [ code ; height ; width t`: the last
/// such prefix in `s` is taken, and the reply ends at the first `t` after it.
pub open spec fn reply_size(s: Seq<u8>, code: u8) -> Option<Size> {
    match last_prefix_before(s, code, s.len()) {
        None => None,
        Some(k) => {
            let start = k + 4int;
            let t = find_in(s, 116, start, s.len() as int);
            let semi = find_in(s, 59, start, t);
            let semi2 = find_in(s, 59, semi + 1, t);
            if t == s.len() || semi == t {
                None
            } else {
                match (positive_field(s.subrange(start, semi)), positive_field(s.subrange(semi + 1, semi2))) {
                    (Some(h), Some(w)) => Some(Size { width: w, height: h }),
                    _ => None,
                }
            }
        },
    }
}

proof fn lemma_find_in_bounds(s: Seq<u8>, b: u8, i: int, end: int)
    requires
        i <= end,
    ensures
        i <= find_in(s, b, i, end) <= end,
    decreases end - i,
{
    if i < end && s[i] != b {
        lemma_find_in_bounds(s, b, i + 1, end);
    }
}

fn last_prefix(s: &[u8], code: u8) -> (r: Option<usize>)
    ensures
        r is None <==> last_prefix_before(s@, code, s@.len()) is None,
        r is Some ==> last_prefix_before(s@, code, s@.len()) == Some(r->Some_0 as nat),
        r is Some ==> r->Some_0 + 4 <= s@.len(),
{
    let mut i: usize = s.len();
    while i > 0
        invariant
            i <= s@.len(),
            last_prefix_before(s@, code, s@.len()) == last_prefix_before(s@, code, i as nat),
        decreases i,
    {
        let k = i - 1;
        if s.len() - k >= 4 && s[k] == 27 && s[k + 1] == 91 && s[k + 2] == code && s[k + 3] == 59 {
            return Some(k);
        }
        i = k;
    }
    None
}

fn find_byte(s: &[u8], b: u8, from: usize, end: usize) -> (r: usize)
    requires
        from <= end <= s@.len(),
    ensures
        r as int == find_in(s@, b, from as int, end as int),
        from <= r <= end,
{
    let mut i = from;
    while i < end
        invariant
            from <= i <= end,
            end <= s@.len(),
            find_in(s@, b, from as int, end as int) == find_in(s@, b, i as int, end as int),
        decreases end - i,
    {
        if s[i] == b {
            return i;
        }
        i = i + 1;
    }
    i
}

fn parse_field(s: &[u8], from: usize, to: usize) -> (r: Option<u32>)
    requires
        from <= to <= s@.len(),
    ensures
        r == positive_field(s@.subrange(from as int, to as int)),
{
    if from == to {
        return None;
    }
    let mut acc: u64 = 0;
    let mut overflow = false;
    let mut i = from;
    while i < to
        invariant
            from <= i <= to,
            to <= s@.len(),
            forall|j: int| from <= j < i ==> is_digit(#[trigger] s@[j]),
            !overflow ==> acc as nat == digits_value(s@.subrange(from as int, i as int)) && acc <= u32::MAX,
            overflow ==> digits_value(s@.subrange(from as int, i as int)) > u32::MAX,
        decreases to - i,
    {
        let d = s[i];
        if !(48 <= d && d <= 57) {
            assert(!is_digit(s@.subrange(from as int, to as int)[i - from]));
            return None;
        }
        proof {
            lemma_value_grows(s@.subrange(from as int, i as int), d);
            assert(s@.subrange(from as int, i as int).push(d) =~= s@.subrange(from as int, i + 1));
        }
        if !overflow {
            acc = acc * 10 + (d - 48) as u64;
            if acc > 0xffff_ffff {
                overflow = true;
            }
        }
        i = i + 1;
    }
    let ghost d = s@.subrange(from as int, to as int);
    assert forall|j: int| 0 <= j < d.len() implies is_digit(#[trigger] d[j]) by {
        assert(d[j] == s@[from + j]);
    }
    if overflow || acc == 0 {
        None
    } else {
        Some(acc as u32)
    }
}

/// Reads the size out of a terminal's reply to a size query: `code` is
/// `6` for the size of a cell, `4` for the size of the window. Gives `None`
/// when no well-formed reply with a positive height and width is found.
pub fn parse_size_reply(response: &[u8], code: u8) -> (r: Option<Size>)
    ensures
        r == reply_size(response@, code),
{
    let found = last_prefix(response, code);
    let k = match found {
        None => return None,
        Some(k) => k,
    };
    assert(k + 4 <= response.len());
    let start = k + 4;
    let t = find_byte(response, 116, start, response.len());
    if t == response.len() {
        return None;
    }
    let semi = find_byte(response, 59, start, t);
    if semi == t {
        return None;
    }
    let semi2 = find_byte(response, 59, semi + 1, t);
    let height = parse_field(response, start, semi);
    let width = parse_field(response, semi + 1, semi2);
    match (height, width) {
        (Some(h), Some(w)) => Some(Size { width: w, height: h }),
        _ => None,
    }
}

} // verus!
