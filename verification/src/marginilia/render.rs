use vstd::prelude::*;

use embedded_graphics::geometry::{Point, Size};
use embedded_graphics::mono_font::ascii::{FONT_10X20, FONT_8X13_ITALIC, FONT_9X18_BOLD};
use embedded_graphics::mono_font::MonoTextStyle;
use embedded_graphics::prelude::{DrawTarget, Drawable};
use embedded_graphics::primitives::Rectangle;
use embedded_text::alignment::{HorizontalAlignment, VerticalAlignment};
use embedded_text::style::TextBoxStyleBuilder;
use embedded_text::TextBox;
use epd_waveshare::color::Color;
use epd_waveshare::graphics::Display;

verus! {

/// A rectangle on the panel: its top-left corner and its size, in pixels.
#[derive(Debug, Clone, Copy, PartialEq, Eq, Structural)]
pub struct Area {
    pub x: i32,
    pub y: i32,
    pub width: u32,
    pub height: u32,
}

/// The monospaced fonts the screens use.
#[derive(Debug, Clone, Copy, PartialEq, Eq, Structural)]
pub enum Font {
    /// 10 x 20 pixels a glyph.
    Regular10x20,
    /// 9 x 18 pixels a glyph, bold.
    Bold9x18,
    /// 8 x 13 pixels a glyph, italic.
    Italic8x13,
}

/// The two inks of the panel's buffer. The panel shows them inverted: `Lit`
/// (bits set) appears black, `Unlit` (bits clear) appears white.
#[derive(Debug, Clone, Copy, PartialEq, Eq, Structural)]
pub enum Ink {
    Unlit,
    Lit,
}

/// Where text sits across its area.
#[derive(Debug, Clone, Copy, PartialEq, Eq, Structural)]
pub enum HAlign {
    Left,
    Center,
    Right,
}

/// Where text sits up and down its area.
#[derive(Debug, Clone, Copy, PartialEq, Eq, Structural)]
pub enum VAlign {
    Top,
    Middle,
    Bottom,
}

/// The frame buffer of the 800 x 480 panel (one bit a pixel, 48000 bytes),
/// as `epd_waveshare` keeps it. The buffer is private and opaque: it is only
/// reached through the functions below, and `frame_bytes` names what it
/// holds.
#[verifier::external_body]
pub struct Frame {
    buffer: Display<800, 480, false, 48000, Color>,
}

/// The bytes of a frame buffer, row by row, eight pixels a byte.
pub uninterp spec fn frame_bytes(frame: Frame) -> Seq<u8>;

/// `epd_waveshare`'s `Display::default`: a frame buffer whose bytes are all 0.
#[verifier::external_body]
pub fn new_frame() -> (f: Frame)
    ensures
        frame_bytes(f) == Seq::new(48000, |i: int| 0u8),
{
    Frame { buffer: Display::default() }
}

/// The frame that `embedded_text` leaves when it lays `text` out in `area`
/// (wrapping words at the area's width) with `font` in `ink` and the given
/// alignment, drawn over the frame `before`.
pub uninterp spec fn text_drawn(
    before: Seq<u8>,
    text: Seq<char>,
    area: Area,
    font: Font,
    ink: Ink,
    h_align: HAlign,
    v_align: VAlign,
) -> Seq<u8>;

impl Frame {
    /// `DrawTarget::clear` with `Color::Black` on the buffer: every pixel's
    /// bit is cleared, whatever the buffer held.
    #[verifier::external_body]
    pub fn clear_unlit(&mut self)
        ensures
            frame_bytes(*final(self)) == Seq::new(48000, |i: int| 0u8),
    {
        let _ = self.buffer.clear(Color::Black);
    }

    /// Draws `text` with `embedded_text`'s `TextBox` (built by
    /// `with_textbox_style` and drawn by `Drawable::draw`): the buffer becomes
    /// `text_drawn` of what it held. Drawing into the buffer never fails.
    /// The area must lie on the panel: the layout arithmetic of
    /// `embedded_text` overflows for areas near the ends of the `i32` range.
    #[verifier::external_body]
    pub fn draw_text(&mut self, text: &str, area: Area, font: Font, ink: Ink, h_align: HAlign, v_align: VAlign)
        requires
            inside_panel(area),
        ensures
            frame_bytes(*final(self)) == text_drawn(frame_bytes(*old(self)), text@, area, font, ink, h_align, v_align),
    {
        let font = match font { Font::Regular10x20 => &FONT_10X20, Font::Bold9x18 => &FONT_9X18_BOLD, Font::Italic8x13 => &FONT_8X13_ITALIC };
        let color = match ink { Ink::Unlit => Color::Black, Ink::Lit => Color::White };
        let h = match h_align { HAlign::Left => HorizontalAlignment::Left, HAlign::Center => HorizontalAlignment::Center, HAlign::Right => HorizontalAlignment::Right };
        let v = match v_align { VAlign::Top => VerticalAlignment::Top, VAlign::Middle => VerticalAlignment::Middle, VAlign::Bottom => VerticalAlignment::Bottom };
        let bounds = Rectangle::new(Point::new(area.x, area.y), Size::new(area.width, area.height));
        let _ = TextBox::with_textbox_style(text, bounds, MonoTextStyle::new(font, color), TextBoxStyleBuilder::new().alignment(h).vertical_alignment(v).build()).draw(&mut self.buffer);
    }

    /// `Display::buffer`: the bytes to send to the panel.
    #[verifier::external_body]
    pub fn bytes(&self) -> (b: &[u8])
        ensures
            b@ == frame_bytes(*self),
    {
        self.buffer.buffer()
    }
}

/// The blank area around the content, in pixels.
pub const MARGIN: i32 = 40;

/// The width of every text area, in pixels.
pub const CONTENT_WIDTH: u32 = 720;

/// The height of the quote's body area, in pixels.
pub const BODY_HEIGHT: u32 = 340;

/// The top of the author's line, in pixels.
pub const AUTHOR_Y: i32 = 390;

/// The height of the author's line, in pixels.
pub const AUTHOR_HEIGHT: u32 = 22;

/// The top of the work's line, in pixels.
pub const WORK_Y: i32 = 416;

/// The height of the work's line, in pixels.
pub const WORK_HEIGHT: u32 = 16;

/// The height of the area of a full-screen message, in pixels.
pub const FULL_HEIGHT: u32 = 400;

/// What the standby screen says.
pub const STANDBY_MESSAGE: &'static str = "Updating quote bank...";

/// A quote and where it comes from.
pub struct Quote<'a> {
    pub body: &'a str,
    pub author: &'a str,
    pub work: &'a str,
}

pub open spec fn body_area() -> Area {
    Area { x: MARGIN, y: MARGIN, width: CONTENT_WIDTH, height: BODY_HEIGHT }
}

pub open spec fn author_area() -> Area {
    Area { x: MARGIN, y: AUTHOR_Y, width: CONTENT_WIDTH, height: AUTHOR_HEIGHT }
}

pub open spec fn work_area() -> Area {
    Area { x: MARGIN, y: WORK_Y, width: CONTENT_WIDTH, height: WORK_HEIGHT }
}

pub open spec fn full_area() -> Area {
    Area { x: MARGIN, y: MARGIN, width: CONTENT_WIDTH, height: FULL_HEIGHT }
}

/// A cleared frame.
pub open spec fn blank() -> Seq<u8> {
    Seq::new(48000, |i: int| 0u8)
}

/// The quote screen: on a cleared frame, the body centred in the large
/// area in the regular font, then the author and, below it, the work, both
/// right-aligned, in bold and in italics. All text is lit and vertically
/// centred in its area.
pub open spec fn quote_screen(body: Seq<char>, author: Seq<char>, work: Seq<char>) -> Seq<u8> {
    let with_body = text_drawn(blank(), body, body_area(), Font::Regular10x20, Ink::Lit, HAlign::Center, VAlign::Middle);
    let with_author = text_drawn(with_body, author, author_area(), Font::Bold9x18, Ink::Lit, HAlign::Right, VAlign::Middle);
    text_drawn(with_author, work, work_area(), Font::Italic8x13, Ink::Lit, HAlign::Right, VAlign::Middle)
}

/// A full-screen message: on a cleared frame, `message` centred in the
/// regular font across the whole content area.
pub open spec fn message_screen(message: Seq<char>) -> Seq<u8> {
    text_drawn(blank(), message, full_area(), Font::Regular10x20, Ink::Lit, HAlign::Center, VAlign::Middle)
}

/// Draws the quote screen for `quote`.
pub fn render_quote(frame: &mut Frame, quote: &Quote)
    ensures
        frame_bytes(*final(frame)) == quote_screen(quote.body@, quote.author@, quote.work@),
        frame_bytes(*final(frame)) == text_drawn(
            text_drawn(
                text_drawn(
                    Seq::new(48000, |i: int| 0u8),
                    quote.body@,
                    Area { x: 40, y: 40, width: 720, height: 340 },
                    Font::Regular10x20,
                    Ink::Lit,
                    HAlign::Center,
                    VAlign::Middle,
                ),
                quote.author@,
                Area { x: 40, y: 390, width: 720, height: 22 },
                Font::Bold9x18,
                Ink::Lit,
                HAlign::Right,
                VAlign::Middle,
            ),
            quote.work@,
            Area { x: 40, y: 416, width: 720, height: 16 },
            Font::Italic8x13,
            Ink::Lit,
            HAlign::Right,
            VAlign::Middle,
        ),
{
    frame.clear_unlit();
    let body = Area { x: MARGIN, y: MARGIN, width: CONTENT_WIDTH, height: BODY_HEIGHT };
    frame.draw_text(quote.body, body, Font::Regular10x20, Ink::Lit, HAlign::Center, VAlign::Middle);
    let author = Area { x: MARGIN, y: AUTHOR_Y, width: CONTENT_WIDTH, height: AUTHOR_HEIGHT };
    frame.draw_text(quote.author, author, Font::Bold9x18, Ink::Lit, HAlign::Right, VAlign::Middle);
    let work = Area { x: MARGIN, y: WORK_Y, width: CONTENT_WIDTH, height: WORK_HEIGHT };
    frame.draw_text(quote.work, work, Font::Italic8x13, Ink::Lit, HAlign::Right, VAlign::Middle);
}

/// Draws the standby screen, shown while the quotes are refreshed.
pub fn render_standby(frame: &mut Frame)
    ensures
        frame_bytes(*final(frame)) == message_screen(STANDBY_MESSAGE@),
{
    render_message(frame, STANDBY_MESSAGE);
}

/// Draws an error screen that shows `message`, the error's text.
pub fn render_error(frame: &mut Frame, message: &str)
    ensures
        frame_bytes(*final(frame)) == message_screen(message@),
{
    render_message(frame, message);
}

fn render_message(frame: &mut Frame, message: &str)
    ensures
        frame_bytes(*final(frame)) == message_screen(message@),
{
    frame.clear_unlit();
    let full = Area { x: MARGIN, y: MARGIN, width: CONTENT_WIDTH, height: FULL_HEIGHT };
    frame.draw_text(message, full, Font::Regular10x20, Ink::Lit, HAlign::Center, VAlign::Middle);
}

/// The panel is 800 x 480 pixels.
pub open spec fn inside_panel(a: Area) -> bool {
    &&& 0 <= a.x && a.x + a.width <= 800
    &&& 0 <= a.y && a.y + a.height <= 480
}

/// `a` ends above the top of `b`.
pub open spec fn above(a: Area, b: Area) -> bool {
    a.y + a.height <= b.y
}

/// Every area of the screens lies on the panel, and the quote's body, author
/// and work areas are stacked without overlapping, so no line draws over
/// another.
pub proof fn law_layout_fits_the_panel()
    ensures
        inside_panel(body_area()),
        inside_panel(author_area()),
        inside_panel(work_area()),
        inside_panel(full_area()),
        above(body_area(), author_area()),
        above(author_area(), work_area()),
{
}

/// The quote screen draws, on a cleared frame, the body in the large area,
/// then the author in the bold line at y = 390, then the work in the italic
/// line at y = 416: what it shows in each area is the quote's own part for
/// that area.
pub proof fn law_quote_screen_places_each_part(body: Seq<char>, author: Seq<char>, work: Seq<char>)
    ensures
        quote_screen(body, author, work) == text_drawn(
            text_drawn(
                text_drawn(
                    Seq::new(48000, |i: int| 0u8),
                    body,
                    Area { x: 40, y: 40, width: 720, height: 340 },
                    Font::Regular10x20,
                    Ink::Lit,
                    HAlign::Center,
                    VAlign::Middle,
                ),
                author,
                Area { x: 40, y: 390, width: 720, height: 22 },
                Font::Bold9x18,
                Ink::Lit,
                HAlign::Right,
                VAlign::Middle,
            ),
            work,
            Area { x: 40, y: 416, width: 720, height: 16 },
            Font::Italic8x13,
            Ink::Lit,
            HAlign::Right,
            VAlign::Middle,
        ),
{
}

} // verus!
