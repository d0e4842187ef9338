use vstd::prelude::*;
use crate::ansi::{
    cursor_seq, hide_cursor_seq, home_seq, indexed_seq, push_all, push_cursor, push_hide_cursor,
    push_home, push_indexed, push_rgb, push_show_cursor, push_sixel_scroll, rgb_seq,
    show_cursor_seq, sixel_scroll_seq,
};
use crate::gfx::{binarize_quadrant, binarized, folded_mean, xterm_code, Cell, Color, Point, Size};
use crate::sixel::{is_valid_size, EncodeFailure, Frame};

verus! {

/// Sixel output settings and the frame waiting to be drawn.
#[derive(Clone, Debug)]
pub struct SixelState {
    /// Whether the scrolling mode has been sent to the terminal.
    pub configured: bool,
    /// Largest image the terminal accepts; 0 means unbounded.
    pub geometry: Size,
    /// The image to draw at the start of the next frame.
    pub pending: Option<Frame>,
    /// Whether sixel scrolling is on.
    pub scrolling: bool,
}

/// Turns cells into a minimal stream of terminal escape sequences, remembering
/// across frames what the terminal already shows.
pub struct Painter {
    /// Bytes of the frame being built.
    pub buffer: Vec<u8>,
    /// Where the terminal cursor is, if known.
    pub cursor: Option<Point>,
    pub true_color: bool,
    /// Last background and foreground sent, and their palette codes.
    pub background: Option<Color>,
    pub foreground: Option<Color>,
    pub background_code: Option<u8>,
    pub foreground_code: Option<u8>,
    /// Present once sixel output is enabled.
    pub sixel: Option<SixelState>,
}

/// Text, background, foreground and width of a cell that draws something;
/// `None` for the continuation of a wide character.
pub open spec fn cell_plan(cell: Cell) -> Option<(Seq<u8>, Color, Color, u32)> {
    match cell.grapheme {
        Some(g) => if g.index > 0 {
            None
        } else {
            Some((g.text@, folded_mean(cell.quadrant), g.color, g.width))
        },
        None => {
            let (text, bg, fg) = binarized(cell.quadrant);
            Some((text, bg, fg, 1u32))
        },
    }
}

/// Whether painting `cell` leaves the painter as it is.
pub open spec fn paint_skips(p: Painter, cell: Cell) -> bool {
    (p.sixel is Some && cell.grapheme is None && cell.image) || cell_plan(cell) is None
}

/// The cursor column stays representable after the cell.
pub open spec fn paint_fits(cell: Cell) -> bool {
    match cell_plan(cell) {
        Some(plan) => cell.cursor.x + plan.3 <= u32::MAX,
        None => true,
    }
}

/// Bytes that select color `c` on `layer` (48 background, 38 foreground),
/// given the last color and palette code sent there, with the code remembered after.
pub open spec fn color_update(true_color: bool, layer: nat, last: Option<Color>, last_code: Option<u8>, c: Color) -> (Seq<u8>, Option<u8>) {
    if last == Some(c) {
        (Seq::empty(), last_code)
    } else if true_color {
        (rgb_seq(layer, c), last_code)
    } else if last_code == Some(xterm_code(c) as u8) {
        (Seq::empty(), last_code)
    } else {
        (indexed_seq(layer, xterm_code(c) as u8), Some(xterm_code(c) as u8))
    }
}

/// Bytes that move the cursor to `p`, given where it is.
pub open spec fn move_update(at: Option<Point>, p: Point) -> Seq<u8> {
    if at == Some(p) {
        Seq::empty()
    } else {
        cursor_seq(p)
    }
}

/// What `paint` appends for a cell that draws something.
pub open spec fn paint_bytes(p: Painter, cell: Cell) -> Seq<u8> {
    let plan = cell_plan(cell).unwrap();
    move_update(p.cursor, cell.cursor)
        + color_update(p.true_color, 48, p.background, p.background_code, plan.1).0
        + color_update(p.true_color, 38, p.foreground, p.foreground_code, plan.2).0
        + plan.0
}

/// What `begin` appends.
pub open spec fn begin_bytes(s: Option<SixelState>) -> Seq<u8> {
    hide_cursor_seq() + match s {
        None => Seq::empty(),
        Some(st) => (if st.configured {
            Seq::empty()
        } else {
            sixel_scroll_seq(st.scrolling)
        }) + match st.pending {
            Some(f) => home_seq() + f.bytes@ + home_seq(),
            None => Seq::empty(),
        },
    }
}

/// What `end` hands out for writing.
pub open spec fn end_bytes(buffer: Seq<u8>, cursor: Option<Point>) -> Seq<u8> {
    match cursor {
        Some(c) => buffer + cursor_seq(c) + show_cursor_seq(),
        None => buffer,
    }
}

/// Sixel state once `begin` has run: scrolling mode sent, pending frame used.
pub open spec fn begun(s: Option<SixelState>) -> Option<SixelState> {
    match s {
        None => None,
        Some(st) => Some(
            SixelState { configured: true, geometry: st.geometry, pending: None, scrolling: st.scrolling },
        ),
    }
}

/// Whether sixel output can take an image of `size` from a buffer of `len` bytes.
pub open spec fn accepts_image(s: Option<SixelState>, len: nat, size: Size) -> bool {
    match s {
        None => false,
        Some(st) => !(st.geometry.width != 0 && size.width > st.geometry.width) && !(
        st.geometry.height != 0 && size.height > st.geometry.height) && len >= size.width * size.height
            * 4,
    }
}

/// Once a cell has been painted, painting another cell with the same
/// background and foreground sends no color sequence: only the cursor move,
/// if one is needed, and the text.
pub proof fn lemma_colors_sent_once(p: Painter, first: Cell, second: Cell)
    requires
        cell_plan(first) is Some,
        cell_plan(second) is Some,
        p.background == Some(cell_plan(first).unwrap().1),
        p.foreground == Some(cell_plan(first).unwrap().2),
        cell_plan(second).unwrap().1 == cell_plan(first).unwrap().1,
        cell_plan(second).unwrap().2 == cell_plan(first).unwrap().2,
    ensures
        paint_bytes(p, second) == move_update(p.cursor, second.cursor) + cell_plan(second).unwrap().0,
{
    assert(paint_bytes(p, second) =~= move_update(p.cursor, second.cursor) + cell_plan(second).unwrap().0);
}

/// In palette mode a color that maps to the code last sent is not sent again,
/// even when it differs from the last color.
pub proof fn lemma_same_code_not_resent(layer: nat, last: Option<Color>, c: Color)
    ensures
        color_update(false, layer, last, Some(xterm_code(c) as u8), c).0 == Seq::<u8>::empty(),
{
}

/// The continuation cells of a wide character are skipped: painting one
/// changes nothing and writes nothing.
pub proof fn lemma_continuation_skipped(p: Painter, cell: Cell)
    requires
        cell.grapheme matches Some(g) && g.index > 0,
    ensures
        paint_skips(p, cell),
{
}

/// A cell painted where the cursor already is gets no cursor move.
pub proof fn lemma_no_move_in_place(p: Painter, cell: Cell)
    requires
        cell_plan(cell) is Some,
        p.cursor == Some(cell.cursor),
    ensures
        paint_bytes(p, cell) == color_update(p.true_color, 48, p.background, p.background_code, cell_plan(cell).unwrap().1).0
            + color_update(p.true_color, 38, p.foreground, p.foreground_code, cell_plan(cell).unwrap().2).0
            + cell_plan(cell).unwrap().0,
{
    let plan = cell_plan(cell).unwrap();
    assert(paint_bytes(p, cell) =~= color_update(p.true_color, 48, p.background, p.background_code, plan.1).0
        + color_update(p.true_color, 38, p.foreground, p.foreground_code, plan.2).0 + plan.0);
}

fn same_point(a: Option<Point>, b: Point) -> (r: bool)
    ensures
        r == (a == Some(b)),
{
    match a {
        Some(p) => p == b,
        None => false,
    }
}

fn same_color(a: Option<Color>, b: Color) -> (r: bool)
    ensures
        r == (a == Some(b)),
{
    match a {
        Some(c) => c == b,
        None => false,
    }
}

fn same_code(a: Option<u8>, b: u8) -> (r: bool)
    ensures
        r == (a == Some(b)),
{
    match a {
        Some(c) => c == b,
        None => false,
    }
}

fn update_color(
    buf: &mut Vec<u8>,
    true_color: bool,
    layer: u64,
    last: &mut Option<Color>,
    last_code: &mut Option<u8>,
    c: Color,
)
    ensures
        final(buf)@ == old(buf)@ + color_update(true_color, layer as nat, *old(last), *old(last_code), c).0,
        *final(last) == Some(c),
        *final(last_code) == color_update(true_color, layer as nat, *old(last), *old(last_code), c).1,
{
    if !same_color(*last, c) {
        *last = Some(c);
        if true_color {
            push_rgb(buf, layer, c);
        } else {
            let code = c.to_xterm();
            if !same_code(*last_code, code) {
                *last_code = Some(code);
                push_indexed(buf, layer, code);
            }
        }
    }
    assert(final(buf)@ =~= old(buf)@ + color_update(true_color, layer as nat, *old(last), *old(last_code), c).0);
}

impl Painter {
    /// A painter with an empty buffer that knows nothing of the terminal yet.
    pub fn new(true_color: bool) -> (p: Painter)
        ensures
            p.buffer@ == Seq::<u8>::empty(),
            p.cursor is None,
            p.true_color == true_color,
            p.background is None,
            p.foreground is None,
            p.background_code is None,
            p.foreground_code is None,
            p.sixel is None,
    {
        Painter {
            buffer: Vec::new(),
            cursor: None,
            true_color,
            background: None,
            foreground: None,
            background_code: None,
            foreground_code: None,
            sixel: None,
        }
    }

    /// Writes the escape sequences and the text that draw `cell`, leaving out
    /// the cursor move and colors that the terminal already has.
    pub fn paint(&mut self, cell: &Cell)
        requires
            paint_fits(*cell),
        ensures
            paint_skips(*old(self), *cell) ==> *final(self) == *old(self),
            !paint_skips(*old(self), *cell) ==> {
                let plan = cell_plan(*cell).unwrap();
                let bg = color_update(old(self).true_color, 48, old(self).background, old(self).background_code, plan.1);
                let fg = color_update(old(self).true_color, 38, old(self).foreground, old(self).foreground_code, plan.2);
                &&& final(self).buffer@ == old(self).buffer@ + paint_bytes(*old(self), *cell)
                &&& final(self).cursor == Some(Point { x: (cell.cursor.x + plan.3) as u32, y: cell.cursor.y })
                &&& final(self).background == Some(plan.1)
                &&& final(self).foreground == Some(plan.2)
                &&& final(self).background_code == bg.1
                &&& final(self).foreground_code == fg.1
                &&& final(self).true_color == old(self).true_color
                &&& final(self).sixel == old(self).sixel
            },
    {
        if self.sixel.is_some() && cell.grapheme.is_none() && cell.image {
            return;
        }
        let (background, foreground, width, block) = match &cell.grapheme {
            Some(g) => {
                if g.index > 0 {
                    return;
                }
                let q = cell.quadrant;
                let bg = q.0.avg_with(q.1).avg_with(q.2).avg_with(q.3);
                proof {
                    reveal(folded_mean);
                }
                (bg, g.color, g.width, None)
            },
            None => {
                let (t, bg, fg) = binarize_quadrant(cell.quadrant);
                (bg, fg, 1u32, Some(t))
            },
        };
        if !same_point(self.cursor, cell.cursor) {
            push_cursor(&mut self.buffer, cell.cursor);
        }
        self.cursor = Some(Point { x: cell.cursor.x + width, y: cell.cursor.y });
        update_color(
            &mut self.buffer,
            self.true_color,
            48,
            &mut self.background,
            &mut self.background_code,
            background,
        );
        update_color(
            &mut self.buffer,
            self.true_color,
            38,
            &mut self.foreground,
            &mut self.foreground_code,
            foreground,
        );
        match block {
            Some(t) => push_all(&mut self.buffer, t.as_slice()),
            None => match &cell.grapheme {
                Some(g) => push_all(&mut self.buffer, g.text.as_slice()),
                None => {},
            },
        }
        assert(self.buffer@ =~= old(self).buffer@ + paint_bytes(*old(self), *cell));
    }

    pub fn true_color(&self) -> (r: bool)
        ensures
            r == self.true_color,
    {
        self.true_color
    }

    pub fn set_true_color(&mut self, true_color: bool)
        ensures
            *final(self) == (Painter { true_color, ..*old(self) }),
    {
        self.true_color = true_color
    }

    /// Switches sixel output on with the terminal's graphics bound and
    /// scrolling preference; a painter that has it already keeps its settings.
    pub fn enable_sixel(&mut self, geometry: Size, scrolling: bool)
        ensures
            old(self).sixel is Some ==> *final(self) == *old(self),
            old(self).sixel is None ==> *final(self) == (Painter {
                sixel: Some(SixelState { configured: false, geometry, pending: None, scrolling }),
                ..*old(self)
            }),
    {
        if self.sixel.is_none() {
            self.sixel = Some(SixelState { configured: false, geometry, pending: None, scrolling });
        }
    }

    pub fn sixel_enabled(&self) -> (r: bool)
        ensures
            r == self.sixel is Some,
    {
        self.sixel.is_some()
    }

    /// Whether an image of `size` read from `len` bytes fits the sixel settings:
    /// sixel output is on, the image is within the graphics bound, and there
    /// are four bytes for each pixel.
    pub fn sixel_accepts(&self, len: usize, size: Size) -> (r: bool)
        ensures
            r == accepts_image(self.sixel, len as nat, size),
    {
        match &self.sixel {
            None => false,
            Some(st) => {
                let exceeds_width = st.geometry.width != 0 && size.width > st.geometry.width;
                let exceeds_height = st.geometry.height != 0 && size.height > st.geometry.height;
                let (w, h) = (size.width as u128, size.height as u128);
                assert(w * h <= 0xffff_ffffu128 * 0xffff_ffffu128) by (nonlinear_arith)
                    requires
                        w <= 0xffff_ffff,
                        h <= 0xffff_ffff,
                ;
                let expected = w * h * 4;
                !exceeds_width && !exceeds_height && len as u128 >= expected
            },
        }
    }

    /// Queues the sixel image of `pixels` (RGBA, `size`), given what the
    /// encoder returned for it, to be drawn by the next `begin`. Returns
    /// whether a frame was queued; on any failure the pending frame is dropped.
    pub fn queue_sixel_background(
        &mut self,
        pixels: &[u8],
        size: Size,
        encoded: Result<Vec<u8>, EncodeFailure>,
    ) -> (r: bool)
        ensures
            old(self).sixel is None ==> !r && *final(self) == *old(self),
            old(self).sixel is Some ==> {
                let st = old(self).sixel.unwrap();
                let fs = final(self).sixel.unwrap();
                &&& final(self).sixel is Some
                &&& fs.configured == st.configured
                &&& fs.geometry == st.geometry
                &&& fs.scrolling == st.scrolling
                &&& r == (accepts_image(old(self).sixel, pixels@.len(), size) && is_valid_size(size)
                    && encoded is Ok)
                &&& r ==> (fs.pending matches Some(f) && f.bytes@ == encoded->Ok_0@)
                &&& !r ==> fs.pending is None
                &&& *final(self) == (Painter { sixel: final(self).sixel, ..*old(self) })
            },
    {
        let accepted = self.sixel_accepts(pixels.len(), size);
        let st = match self.sixel.take() {
            None => return false,
            Some(st) => st,
        };
        let (pending, queued) = if !accepted {
            (None, false)
        } else {
            match Frame::from_encoded(size, encoded) {
                Ok(frame) => (Some(frame), true),
                Err(_) => (None, false),
            }
        };
        self.sixel = Some(
            SixelState { configured: st.configured, geometry: st.geometry, pending, scrolling: st.scrolling },
        );
        queued
    }

    /// Starts a frame: hides the cursor, sends the sixel scrolling mode once,
    /// and draws the pending sixel image from the top-left corner.
    pub fn begin(&mut self)
        ensures
            final(self).buffer@ == old(self).buffer@ + begin_bytes(old(self).sixel),
            *final(self) == (Painter { buffer: final(self).buffer, sixel: begun(old(self).sixel), ..*old(self) }),
    {
        let ghost start = self.buffer@;
        push_hide_cursor(&mut self.buffer);
        match self.sixel.take() {
            None => {},
            Some(st) => {
                if !st.configured {
                    push_sixel_scroll(&mut self.buffer, st.scrolling);
                }
                match st.pending {
                    Some(frame) => {
                        push_home(&mut self.buffer);
                        push_all(&mut self.buffer, frame.bytes.as_slice());
                        push_home(&mut self.buffer);
                    },
                    None => {},
                }
                self.sixel = Some(
                    SixelState { configured: true, geometry: st.geometry, pending: None, scrolling: st.scrolling },
                );
            },
        }
        assert(self.buffer@ =~= start + begin_bytes(old(self).sixel));
    }

    /// Ends a frame: places and shows the cursor when a position is given,
    /// and hands out every byte of the frame for one write. The buffer is
    /// emptied and the cursor position forgotten; colors stay known.
    pub fn end(&mut self, cursor: Option<Point>) -> (out: Vec<u8>)
        ensures
            out@ == end_bytes(old(self).buffer@, cursor),
            final(self).buffer@ == Seq::<u8>::empty(),
            *final(self) == (Painter { buffer: final(self).buffer, cursor: None, ..*old(self) }),
    {
        match cursor {
            Some(c) => {
                push_cursor(&mut self.buffer, c);
                push_show_cursor(&mut self.buffer);
            },
            None => {},
        }
        let mut out: Vec<u8> = Vec::new();
        std::mem::swap(&mut out, &mut self.buffer);
        self.cursor = None;
        out
    }
}

} // verus!
