//! The header: short texts in the four corners and at the middle of the top and
//! bottom edges of the landscape screen, 296 pixels wide and 128 high.
use vstd::prelude::*;
use vstd::string::StrSliceExecFns;
use epd_waveshare::epd2in9bc::Display2in9bc;
use crate::display::{display_buffer, display_rotation, text_8x16_drawn, fits, keeps_outside, draw_text_8x16};

verus! {

pub const MARGIN: i32 = 0;
pub const FONT_HEIGHT: i32 = 16;
pub const FONT_WIDTH: i32 = 8;
pub const BOTTOM_Y: i32 = 112;

/// Column of a text of `len` characters that ends at the right edge (column 295).
pub open spec fn right_x(len: nat) -> int {
    295 - MARGIN - FONT_WIDTH * len
}

/// Column of a text of `len` characters centred on column 148.
pub open spec fn center_x(len: nat) -> int {
    296int / 2 - FONT_WIDTH * len / 2
}

/// A text of the header can be measured and drawn at `(x, y)` without overflow.
pub open spec fn header_text_ok(s: Seq<char>, x: int, y: int) -> bool {
    &&& FONT_WIDTH * s.len() <= i32::MAX
    &&& fits(s, x, y, 8, 16)
}

pub struct Header<'a> {
    pub display: &'a mut Display2in9bc,
}

impl<'a> Header<'a> {
    pub open spec fn buffer(&self) -> Seq<u8> {
        display_buffer(*self.display)
    }

    pub open spec fn rotation(&self) -> nat {
        display_rotation(*self.display)
    }

    /// `self` is `before` with the text drawn at `(x, y)`; the bytes outside its box are kept.
    pub open spec fn drawn_from(&self, before: &Header<'a>, s: Seq<char>, x: int, y: int) -> bool {
        &&& self.buffer() == text_8x16_drawn(before.buffer(), before.rotation(), s, x as i32, y as i32)
        &&& self.rotation() == before.rotation()
        &&& keeps_outside(before.buffer(), self.buffer(), before.rotation(), s, x, y, 8, 16)
    }

    pub fn new(display: &'a mut Display2in9bc) -> (h: Self)
        ensures
            *h.display == *old(display),
            *final(h.display) == *final(display),
    {
        Self { display }
    }

    /// Draws `s` at the top-left corner.
    pub fn top_left(&mut self, s: &str)
        requires
            header_text_ok(s@, MARGIN as int, MARGIN as int),
        ensures
            final(self).drawn_from(old(self), s@, MARGIN as int, MARGIN as int),
            *final(final(self).display) == *final(old(self).display),
    {
        self.render(s, MARGIN, MARGIN);
    }

    /// Draws `s` centred at the top.
    pub fn _top_center(&mut self, s: &str)
        requires
            header_text_ok(s@, center_x(s@.len()), MARGIN as int),
        ensures
            final(self).drawn_from(old(self), s@, center_x(s@.len()), MARGIN as int),
            *final(final(self).display) == *final(old(self).display),
    {
        let len = s.unicode_len() as i32;
        self.render(s, 296 / 2 - FONT_WIDTH * len / 2, MARGIN);
    }

    /// Draws `s` so that it ends at the right edge of the top.
    pub fn top_right(&mut self, s: &str)
        requires
            header_text_ok(s@, right_x(s@.len()), MARGIN as int),
        ensures
            final(self).drawn_from(old(self), s@, right_x(s@.len()), MARGIN as int),
            *final(final(self).display) == *final(old(self).display),
    {
        let len = s.unicode_len() as i32;
        self.render(s, 295 - MARGIN - FONT_WIDTH * len, MARGIN);
    }

    /// Draws `s` at the bottom-left corner.
    pub fn bottom_left(&mut self, s: &str)
        requires
            header_text_ok(s@, MARGIN as int, BOTTOM_Y as int),
        ensures
            final(self).drawn_from(old(self), s@, MARGIN as int, BOTTOM_Y as int),
            *final(final(self).display) == *final(old(self).display),
    {
        self.render(s, MARGIN, BOTTOM_Y);
    }

    /// Draws `s` centred at the bottom.
    pub fn _bottom_center(&mut self, s: &str)
        requires
            header_text_ok(s@, center_x(s@.len()), BOTTOM_Y as int),
        ensures
            final(self).drawn_from(old(self), s@, center_x(s@.len()), BOTTOM_Y as int),
            *final(final(self).display) == *final(old(self).display),
    {
        let len = s.unicode_len() as i32;
        self.render(s, 296 / 2 - FONT_WIDTH * len / 2, BOTTOM_Y);
    }

    /// Draws `s` so that it ends at the right edge of the bottom.
    pub fn bottom_right(&mut self, s: &str)
        requires
            header_text_ok(s@, right_x(s@.len()), BOTTOM_Y as int),
        ensures
            final(self).drawn_from(old(self), s@, right_x(s@.len()), BOTTOM_Y as int),
            *final(final(self).display) == *final(old(self).display),
    {
        let len = s.unicode_len() as i32;
        self.render(s, 295 - MARGIN - FONT_WIDTH * len, BOTTOM_Y);
    }

    fn render(&mut self, s: &str, x: i32, y: i32)
        requires
            fits(s@, x as int, y as int, 8, 16),
        ensures
            final(self).drawn_from(old(self), s@, x as int, y as int),
            *final(final(self).display) == *final(old(self).display),
    {
        draw_text_8x16(self.display, s, x, y);
    }
}

} // verus!
