//! The frame buffer that the screens are drawn into, and the text drawing on it.
//!
//! Drawing is done by `embedded-graphics` onto the `Display2in9bc` buffer of
//! `epd-waveshare`. Verus sees the display only through two names: the bytes of
//! its buffer and the rotation it draws with. What a drawn text does to the
//! bytes is named, not written out: the library's contracts say which texts are
//! drawn, where, in which font and in which order.
use vstd::prelude::*;
use embedded_graphics::drawable::Drawable;
use embedded_graphics::fonts::{Font6x8, Font8x16, Text};
use embedded_graphics::geometry::Point;
use embedded_graphics::pixelcolor::BinaryColor;
use embedded_graphics::style::TextStyle;
use epd_waveshare::epd2in9bc::Display2in9bc;
use epd_waveshare::graphics::{Display, DisplayRotation};

verus! {

/// The full-size frame buffer of the 2.9 inch b/c e-paper display.
#[verifier::external_type_specification]
#[verifier::external_body]
pub struct ExDisplay2in9bc(Display2in9bc);

/// The bytes of the frame buffer of a display.
pub uninterp spec fn display_buffer(d: Display2in9bc) -> Seq<u8>;

/// The rotation a display draws with, as a code: 0, 1, 2, 3 stand for `Rotate0`,
/// `Rotate90`, `Rotate180`, `Rotate270`.
pub uninterp spec fn display_rotation(d: Display2in9bc) -> nat;

/// The frame buffer after a text is drawn in black with `Font8x16`, its top-left corner at `(x, y)`.
pub uninterp spec fn text_8x16_drawn(buffer: Seq<u8>, rotation: nat, text: Seq<char>, x: i32, y: i32) -> Seq<u8>;

/// The frame buffer after a text is drawn in black with `Font6x8`, its top-left corner at `(x, y)`.
pub uninterp spec fn text_6x8_drawn(buffer: Seq<u8>, rotation: nat, text: Seq<char>, x: i32, y: i32) -> Seq<u8>;

/// Number of bytes of the buffer: 128 x 296 pixels, one bit each.
pub const BUFFER_LEN: usize = 4736;

/// The number of lines of a text: one more than its newlines.
pub open spec fn line_count(text: Seq<char>) -> nat
    decreases text.len(),
{
    if text.len() == 0 {
        1
    } else {
        line_count(text.drop_last()) + if text.last() == '\n' { 1nat } else { 0nat }
    }
}

/// The text's pixel walk stays within `i32` for a font of the given glyph size:
/// no column reaches past `x + width * len` and no row past `y + height * lines`.
pub open spec fn fits(text: Seq<char>, x: int, y: int, width: int, height: int) -> bool {
    &&& x + width * text.len() <= i32::MAX
    &&& y + height * line_count(text) <= i32::MAX + 1
}

/// A text has at most one line more than characters.
pub proof fn lemma_line_count(text: Seq<char>)
    ensures
        line_count(text) <= text.len() + 1,
    decreases text.len(),
{
    if text.len() > 0 {
        lemma_line_count(text.drop_last());
    }
}

/// A short text near the screen fits in either font.
pub proof fn lemma_short_fits(text: Seq<char>, x: int, y: int)
    requires
        text.len() <= 1000,
        x <= 100000,
        y <= 100000,
    ensures
        fits(text, x, y, 8, 16),
        fits(text, x, y, 6, 8),
        8 * text.len() <= i32::MAX,
{
    lemma_line_count(text);
}

/// The byte of the buffer that holds the on-screen pixel `(px, py)` for a rotation, as
/// `find_position` of `epd-waveshare` computes it for the 128 x 296 panel (16 bytes a row).
pub open spec fn pixel_byte(px: int, py: int, rotation: nat) -> int {
    if rotation == 0 {
        px / 8 + 16 * py
    } else if rotation == 1 {
        (127 - py) / 8 + 16 * px
    } else if rotation == 2 {
        (16 * 296 - 1) - (px / 8 + 16 * py)
    } else {
        py / 8 + (295 - px) * 16
    }
}

/// The pixel is on the panel for the rotation (`outside_display` of `epd-waveshare` is false).
pub open spec fn on_screen(px: int, py: int, rotation: nat) -> bool {
    &&& 0 <= px && 0 <= py
    &&& if rotation == 0 || rotation == 2 {
        px < 128 && py < 296
    } else {
        py < 128 && px < 296
    }
}

/// No on-screen pixel of the box `[x, x + width) x [y, y + height)` lies in byte `i`.
pub open spec fn outside_box(i: int, rotation: nat, x: int, y: int, width: int, height: int) -> bool {
    forall|px: int, py: int|
        x <= px < x + width && y <= py < y + height && on_screen(px, py, rotation)
            ==> #[trigger] pixel_byte(px, py, rotation) != i
}

/// Drawing `text` with glyphs `w` by `h` at `(x, y)` keeps the buffer's length and every byte
/// outside the text's box: `w` times its characters wide, `h` times its lines high.
pub open spec fn keeps_outside(
    before: Seq<u8>,
    after: Seq<u8>,
    rotation: nat,
    text: Seq<char>,
    x: int,
    y: int,
    w: int,
    h: int,
) -> bool {
    &&& after.len() == before.len()
    &&& forall|i: int|
        0 <= i < before.len() && outside_box(i, rotation, x, y, w * text.len(), h * line_count(text))
            ==> #[trigger] after[i] == before[i]
}

/// One text drawn onto the display.
pub struct TextDraw {
    pub text: Seq<char>,
    pub x: i32,
    pub y: i32,
    /// `Font6x8` when set, else `Font8x16`.
    pub small: bool,
}

/// A text in `Font8x16` at `(x, y)`, the position taken as `i32`.
pub open spec fn text_draw(text: Seq<char>, x: int, y: int) -> TextDraw {
    TextDraw { text, x: x as i32, y: y as i32, small: false }
}

/// The text can be drawn without overflow in its font.
pub open spec fn draw_fits(d: TextDraw) -> bool {
    if d.small {
        fits(d.text, d.x as int, d.y as int, 6, 8)
    } else {
        fits(d.text, d.x as int, d.y as int, 8, 16)
    }
}

pub open spec fn all_fit(draws: Seq<TextDraw>) -> bool {
    forall|i: int| 0 <= i < draws.len() ==> draw_fits(#[trigger] draws[i])
}

/// The buffer after one text is drawn.
pub open spec fn draw_one(buffer: Seq<u8>, rotation: nat, d: TextDraw) -> Seq<u8> {
    if d.small {
        text_6x8_drawn(buffer, rotation, d.text, d.x, d.y)
    } else {
        text_8x16_drawn(buffer, rotation, d.text, d.x, d.y)
    }
}

/// The buffer after the texts are drawn one after the other, first to last.
pub open spec fn draw_all(buffer: Seq<u8>, rotation: nat, draws: Seq<TextDraw>) -> Seq<u8>
    decreases draws.len(),
{
    if draws.len() == 0 {
        buffer
    } else {
        draw_one(draw_all(buffer, rotation, draws.drop_last()), rotation, draws.last())
    }
}

/// Drawing `a` and then `b` is drawing `a + b`.
pub proof fn lemma_draw_all_append(buffer: Seq<u8>, rotation: nat, a: Seq<TextDraw>, b: Seq<TextDraw>)
    ensures
        draw_all(draw_all(buffer, rotation, a), rotation, b) == draw_all(buffer, rotation, a + b),
    decreases b.len(),
{
    if b.len() == 0 {
        assert(a + b =~= a);
    } else {
        lemma_draw_all_append(buffer, rotation, a, b.drop_last());
        assert((a + b).drop_last() =~= a + b.drop_last());
    }
}

/// A blank display: every byte white (0xff), no rotation.
pub open spec fn blank_buffer() -> Seq<u8> {
    Seq::new(BUFFER_LEN as nat, |i: int| 0xffu8)
}

/// `Display2in9bc::default()`: the source fills the buffer with the white byte 0xff
/// and takes the default rotation, `Rotate0`.
#[verifier::external_body]
pub(crate) fn new_display() -> (d: Display2in9bc)
    ensures
        display_buffer(d) == blank_buffer(),
        display_rotation(d) == 0,
{
    Display2in9bc::default()
}

/// The rotation of the landscape screen, 296 pixels wide and 128 high, with the ribbon
/// on the left: the panel turned by 90 degrees clockwise.
pub open spec fn landscape() -> nat {
    1
}

/// `Display::set_rotation(DisplayRotation::Rotate90)`: the source only sets the rotation
/// field; the buffer is kept.
#[verifier::external_body]
pub(crate) fn set_landscape(display: &mut Display2in9bc)
    ensures
        display_buffer(*final(display)) == display_buffer(*old(display)),
        display_rotation(*final(display)) == landscape(),
{
    display.set_rotation(DisplayRotation::Rotate90);
}

/// Draws a text with `Font8x16` in `BinaryColor::On` through `Text::into_styled(..).draw(..)`.
/// The claim: the buffer becomes the named result of the call, which depends on the
/// old buffer, the rotation, the text and the position alone, and the rotation is kept.
/// Pixels outside the display are skipped by `epd-waveshare`; the display's error type is
/// `Infallible`. Only the pixels of the text's box are drawn, one bit each, so every other
/// byte keeps its value; the rotation is one of the four of `DisplayRotation`. The pixel walk adds glyph sizes to `x` and `y` in `i32`, hence the `requires`.
#[verifier::external_body]
pub(crate) fn draw_text_8x16(display: &mut Display2in9bc, text: &str, x: i32, y: i32)
    requires
        fits(text@, x as int, y as int, 8, 16),
    ensures
        display_buffer(*final(display)) == text_8x16_drawn(
            display_buffer(*old(display)),
            display_rotation(*old(display)),
            text@,
            x,
            y,
        ),
        display_rotation(*final(display)) == display_rotation(*old(display)),
        display_rotation(*final(display)) <= 3,
        keeps_outside(
            display_buffer(*old(display)),
            display_buffer(*final(display)),
            display_rotation(*old(display)),
            text@,
            x as int,
            y as int,
            8,
            16,
        ),
{
    Text::new(text, Point::new(x, y)).into_styled(TextStyle::new(Font8x16, BinaryColor::On)).draw(
        display,
    ).unwrap();
}

/// Draws a text with `Font6x8` in `BinaryColor::On`; the same claims as for `draw_text_8x16`.
#[verifier::external_body]
pub(crate) fn draw_text_6x8(display: &mut Display2in9bc, text: &str, x: i32, y: i32)
    requires
        fits(text@, x as int, y as int, 6, 8),
    ensures
        display_buffer(*final(display)) == text_6x8_drawn(
            display_buffer(*old(display)),
            display_rotation(*old(display)),
            text@,
            x,
            y,
        ),
        display_rotation(*final(display)) == display_rotation(*old(display)),
        display_rotation(*final(display)) <= 3,
        keeps_outside(
            display_buffer(*old(display)),
            display_buffer(*final(display)),
            display_rotation(*old(display)),
            text@,
            x as int,
            y as int,
            6,
            8,
        ),
{
    Text::new(text, Point::new(x, y)).into_styled(TextStyle::new(Font6x8, BinaryColor::On)).draw(
        display,
    ).unwrap();
}

/// The buffer after the texts drawn so far and one more.
pub proof fn lemma_draw_all_push(buffer: Seq<u8>, rotation: nat, done: Seq<TextDraw>, d: TextDraw)
    ensures
        draw_all(buffer, rotation, done.push(d)) == draw_one(draw_all(buffer, rotation, done), rotation, d),
{
    assert(done.push(d).drop_last() =~= done);
}

/// Draws one more text in `Font8x16` after the texts `done`, drawn from `start`.
pub(crate) fn draw_next(
    display: &mut Display2in9bc,
    text: &str,
    x: i32,
    y: i32,
    Ghost(start): Ghost<Seq<u8>>,
    Ghost(done): Ghost<Seq<TextDraw>>,
)
    requires
        display_buffer(*old(display)) == draw_all(start, display_rotation(*old(display)), done),
        fits(text@, x as int, y as int, 8, 16),
    ensures
        display_buffer(*final(display)) == draw_all(
            start,
            display_rotation(*old(display)),
            done.push(text_draw(text@, x as int, y as int)),
        ),
        display_rotation(*final(display)) == display_rotation(*old(display)),
        keeps_outside(
            display_buffer(*old(display)),
            display_buffer(*final(display)),
            display_rotation(*old(display)),
            text@,
            x as int,
            y as int,
            8,
            16,
        ),
{
    proof {
        lemma_draw_all_push(start, display_rotation(*display), done, text_draw(text@, x as int, y as int));
    }
    draw_text_8x16(display, text, x, y);
}

/// Draws one more text in `Font6x8` after the texts `done`, drawn from `start`.
pub(crate) fn draw_next_small(
    display: &mut Display2in9bc,
    text: &str,
    x: i32,
    y: i32,
    Ghost(start): Ghost<Seq<u8>>,
    Ghost(done): Ghost<Seq<TextDraw>>,
)
    requires
        display_buffer(*old(display)) == draw_all(start, display_rotation(*old(display)), done),
        fits(text@, x as int, y as int, 6, 8),
    ensures
        display_buffer(*final(display)) == draw_all(
            start,
            display_rotation(*old(display)),
            done.push(TextDraw { text: text@, x, y, small: true }),
        ),
        display_rotation(*final(display)) == display_rotation(*old(display)),
        keeps_outside(
            display_buffer(*old(display)),
            display_buffer(*final(display)),
            display_rotation(*old(display)),
            text@,
            x as int,
            y as int,
            6,
            8,
        ),
{
    proof {
        lemma_draw_all_push(start, display_rotation(*display), done, TextDraw { text: text@, x, y, small: true });
    }
    draw_text_6x8(display, text, x, y);
}

} // verus!
