//! Contracts for display controllers with a memory-backed framebuffer.
//!
//! Such controllers are integrated into a microcontroller or SoC and scan a
//! framebuffer out to a larger display. Libraries that operate on display
//! layers can be written against these contracts independently of the exact
//! controller architecture.
//!
//! Small displays driven by commands over a low-speed bus (SPI, I2C) and the
//! panel's own line drivers are out of scope.
use vstd::prelude::*;

pub mod dsi;
pub mod layer;

verus! {

/// Pixel memory layouts, each bound to the code the controller expects.
///
/// * `L8`: 8-bit luminance or CLUT index
/// * `AL44`: 4-bit alpha + 4-bit luminance
/// * `AL88`: 8-bit alpha + 8-bit luminance
#[derive(Clone, Copy, Debug, PartialEq, Eq, Structural)]
pub enum PixelFormat {
    ARGB8888,
    RGB888,
    RGB565,
    ARGB1555,
    ARGB4444,
    L8,
    AL44,
    AL88,
}

impl PixelFormat {
    /// The register code of the layout.
    pub open spec fn spec_code(self) -> u8 {
        match self {
            PixelFormat::ARGB8888 => 0,
            PixelFormat::RGB888 => 1,
            PixelFormat::RGB565 => 2,
            PixelFormat::ARGB1555 => 3,
            PixelFormat::ARGB4444 => 4,
            PixelFormat::L8 => 5,
            PixelFormat::AL44 => 6,
            PixelFormat::AL88 => 7,
        }
    }

    /// Returns the register code of the layout.
    pub fn code(&self) -> (r: u8)
        ensures
            r == self.spec_code(),
    {
        match self {
            PixelFormat::ARGB8888 => 0,
            PixelFormat::RGB888 => 1,
            PixelFormat::RGB565 => 2,
            PixelFormat::ARGB1555 => 3,
            PixelFormat::ARGB4444 => 4,
            PixelFormat::L8 => 5,
            PixelFormat::AL44 => 6,
            PixelFormat::AL88 => 7,
        }
    }

    /// The layout with a given register code, if any.
    pub fn from_code(code: u8) -> (r: Option<PixelFormat>)
        ensures
            r matches Some(f) ==> f.spec_code() == code,
            r is None <==> code > 7,
    {
        match code {
            0 => Some(PixelFormat::ARGB8888),
            1 => Some(PixelFormat::RGB888),
            2 => Some(PixelFormat::RGB565),
            3 => Some(PixelFormat::ARGB1555),
            4 => Some(PixelFormat::ARGB4444),
            5 => Some(PixelFormat::L8),
            6 => Some(PixelFormat::AL44),
            7 => Some(PixelFormat::AL88),
            _ => None,
        }
    }

    /// Bytes that one pixel of the layout occupies.
    pub open spec fn spec_bytes_per_pixel(self) -> nat {
        match self {
            PixelFormat::ARGB8888 => 4,
            PixelFormat::RGB888 => 3,
            PixelFormat::RGB565 => 2,
            PixelFormat::ARGB1555 => 2,
            PixelFormat::ARGB4444 => 2,
            PixelFormat::L8 => 1,
            PixelFormat::AL44 => 1,
            PixelFormat::AL88 => 2,
        }
    }

    /// Returns the bytes that one pixel of the layout occupies.
    pub fn bytes_per_pixel(&self) -> (r: u8)
        ensures
            r as nat == self.spec_bytes_per_pixel(),
    {
        match self {
            PixelFormat::ARGB8888 => 4,
            PixelFormat::RGB888 => 3,
            PixelFormat::RGB565 => 2,
            PixelFormat::ARGB1555 => 2,
            PixelFormat::ARGB4444 => 2,
            PixelFormat::L8 => 1,
            PixelFormat::AL44 => 1,
            PixelFormat::AL88 => 2,
        }
    }
}

/// Each layout has its own code, and the code gives the layout back.
pub proof fn pixel_format_code_round_trip(f: PixelFormat, g: PixelFormat)
    ensures
        f.spec_code() <= 7,
        (f.spec_code() == g.spec_code()) == (f == g),
{
}

/// The storage widths a framebuffer word may have.
#[derive(Clone, Copy, Debug, PartialEq, Eq, Structural)]
pub enum WordWidth {
    Bits8,
    Bits16,
    Bits32,
}

impl WordWidth {
    pub open spec fn spec_bytes(self) -> nat {
        match self {
            WordWidth::Bits8 => 1,
            WordWidth::Bits16 => 2,
            WordWidth::Bits32 => 4,
        }
    }

    /// Returns the bytes in one word.
    pub fn bytes(&self) -> (r: u8)
        ensures
            r as nat == self.spec_bytes(),
    {
        match self {
            WordWidth::Bits8 => 1,
            WordWidth::Bits16 => 2,
            WordWidth::Bits32 => 4,
        }
    }
}

/// A word type for the display memory buffer: `u8`, `u16` or `u32`.
pub trait PixelWord: Copy {
    spec fn spec_width() -> WordWidth;

    fn width() -> (r: WordWidth)
        ensures
            r == Self::spec_width(),
    ;
}

impl PixelWord for u8 {
    open spec fn spec_width() -> WordWidth {
        WordWidth::Bits8
    }

    fn width() -> (r: WordWidth) {
        WordWidth::Bits8
    }
}

impl PixelWord for u16 {
    open spec fn spec_width() -> WordWidth {
        WordWidth::Bits16
    }

    fn width() -> (r: WordWidth) {
        WordWidth::Bits16
    }
}

impl PixelWord for u32 {
    open spec fn spec_width() -> WordWidth {
        WordWidth::Bits32
    }

    fn width() -> (r: WordWidth) {
        WordWidth::Bits32
    }
}

/// Display timing parameters.
#[derive(Clone, Copy, Debug, PartialEq, Eq, Structural)]
pub struct DisplayConfiguration {
    pub active_width: u16,
    pub active_height: u16,
    pub h_back_porch: u16,
    pub h_front_porch: u16,
    pub v_back_porch: u16,
    pub v_front_porch: u16,
    pub h_sync: u16,
    pub v_sync: u16,
    /// horizontal synchronization: `false`: active low, `true`: active high
    pub h_sync_pol: bool,
    /// vertical synchronization: `false`: active low, `true`: active high
    pub v_sync_pol: bool,
    /// data enable: `false`: active low, `true`: active high
    pub not_data_enable_pol: bool,
    /// pixel clock: `false`: active low, `true`: active high
    pub pixel_clock_pol: bool,
}

/// Bytes that a frame of `lines` lines, `pitch` pixels apart, occupies.
pub open spec fn frame_bytes(pitch: nat, lines: nat, format: PixelFormat) -> nat {
    pitch * lines * format.spec_bytes_per_pixel()
}

/// A region of memory handed to the display for scan-out: `len` words of
/// width `word`, the first at address `start`.
#[derive(Clone, Copy, Debug, PartialEq, Eq, Structural)]
pub struct FrameBuffer {
    pub start: usize,
    pub len: usize,
    pub word: WordWidth,
}

impl FrameBuffer {
    /// A handle on `len` words of type `T` starting at address `start`.
    pub fn new<T: PixelWord>(start: usize, len: usize) -> (r: FrameBuffer)
        ensures
            r.start == start,
            r.len == len,
            r.word == T::spec_width(),
    {
        FrameBuffer { start, len, word: T::width() }
    }

    /// The size of the region in bytes.
    pub open spec fn spec_byte_len(self) -> nat {
        self.len as nat * self.word.spec_bytes()
    }

    /// Whether the region is large enough for a frame of `lines` lines,
    /// `pitch` pixels apart, in layout `format`.
    pub open spec fn spec_holds(self, pitch: nat, lines: nat, format: PixelFormat) -> bool {
        self.spec_byte_len() >= frame_bytes(pitch, lines, format)
    }

    /// Returns whether the region is large enough for a frame of `lines`
    /// lines, `pitch` pixels apart, in layout `format`.
    pub fn holds(&self, pitch: u32, lines: u16, format: PixelFormat) -> (r: bool)
        ensures
            r == self.spec_holds(pitch as nat, lines as nat, format),
    {
        let len: u128 = self.len as u128;
        let word: u128 = self.word.bytes() as u128;
        assert(len * word <= 4 * 0xffff_ffff_ffff_ffffu128) by (nonlinear_arith)
            requires
                len <= 0xffff_ffff_ffff_ffffu128,
                word <= 4,
        ;
        let have: u128 = len * word;
        let p: u128 = pitch as u128;
        let l: u128 = lines as u128;
        assert(p * l <= 0xffff_ffff_ffff_ffffu128) by (nonlinear_arith)
            requires
                p <= 0xffff_ffffu128,
                l <= 0xffffu128,
        ;
        let area: u128 = p * l;
        let bpp: u128 = format.bytes_per_pixel() as u128;
        assert(area * bpp <= 4 * 0xffff_ffff_ffff_ffffu128) by (nonlinear_arith)
            requires
                area <= 0xffff_ffff_ffff_ffffu128,
                bpp <= 4,
        ;
        let need: u128 = area * bpp;
        have >= need
    }
}

/// A microcontroller peripheral that drives a LCD-TFT display.
pub trait DisplayController {
    /// The timing parameters in effect, once the controller is initialised.
    spec fn spec_configuration(&self) -> Option<DisplayConfiguration>;

    /// The pixel clock frequency, in Hz.
    spec fn spec_clock(&self) -> u32;

    /// Initialize the controller with a given configuration.
    fn init(&mut self, config: DisplayConfiguration)
        ensures
            final(self).spec_configuration() == Some(config),
    ;

    /// Returns the clock frequency (Hz) of the controller.
    fn clock(&self) -> (r: u32)
        ensures
            r == self.spec_clock(),
    ;
}

/// A layer of a microcontroller peripheral that drives a LCD-TFT display.
///
/// May be implemented alongside `DisplayController` if the peripheral only
/// supports one layer.
///
/// A framebuffer handed to `enable` or `swap_framebuffer` belongs to the
/// peripheral until a later swap has taken effect. The peripheral takes up a
/// swapped-in framebuffer at its next vertical blank; until then the swap is
/// pending and the framebuffer scanned out so far is still in use.
pub trait DisplayControllerLayer {
    /// Active width and height of the output window, in pixels.
    spec fn spec_window(&self) -> (u16, u16);

    /// Pixels from the start of one line of the framebuffer to the next.
    spec fn spec_pitch(&self) -> u32;

    /// Layout of the pixels scanned out.
    spec fn spec_format(&self) -> PixelFormat;

    /// The framebuffer scanned out; `None` while the layer is disabled.
    spec fn spec_displayed(&self) -> Option<FrameBuffer>;

    /// The framebuffer to be taken up at the next vertical blank.
    spec fn spec_pending(&self) -> Option<FrameBuffer>;

    /// Enable this display layer, scanning out `fb`.
    fn enable(&mut self, fb: FrameBuffer, pixel_format: PixelFormat)
        requires
            old(self).spec_displayed() is None,
            fb.spec_holds(
                old(self).spec_pitch() as nat,
                old(self).spec_window().1 as nat,
                pixel_format,
            ),
        ensures
            final(self).spec_displayed() == Some(fb),
            final(self).spec_pending() is None,
            final(self).spec_format() == pixel_format,
            final(self).spec_window() == old(self).spec_window(),
            final(self).spec_pitch() == old(self).spec_pitch(),
    ;

    /// Swap the framebuffer to a new one, at the next vertical blank.
    fn swap_framebuffer(&mut self, fb: FrameBuffer)
        requires
            old(self).spec_displayed() is Some,
            fb.spec_holds(
                old(self).spec_pitch() as nat,
                old(self).spec_window().1 as nat,
                old(self).spec_format(),
            ),
        ensures
            final(self).spec_pending() == Some(fb),
            final(self).spec_displayed() == old(self).spec_displayed(),
            final(self).spec_format() == old(self).spec_format(),
            final(self).spec_window() == old(self).spec_window(),
            final(self).spec_pitch() == old(self).spec_pitch(),
    ;

    /// Indicates that a framebuffer swap is pending. In this situation, the
    /// framebuffer supplied before the most recent swap is still owned by the
    /// display.
    fn is_swap_pending(&self) -> (r: bool)
        ensures
            r == self.spec_pending() is Some,
    ;

    /// Resizes the framebuffer pitch, at once. This does not change the
    /// output window size.
    ///
    /// The framebuffer pitch is the increment from the start of one line of
    /// pixels to the start of the next line.
    fn resize_buffer_pitch(&mut self, width: u32)
        requires
            old(self).spec_displayed() matches Some(fb) ==> fb.spec_holds(
                width as nat,
                old(self).spec_window().1 as nat,
                old(self).spec_format(),
            ),
            old(self).spec_pending() matches Some(fb) ==> fb.spec_holds(
                width as nat,
                old(self).spec_window().1 as nat,
                old(self).spec_format(),
            ),
        ensures
            final(self).spec_pitch() == width,
            final(self).spec_window() == old(self).spec_window(),
            final(self).spec_displayed() == old(self).spec_displayed(),
            final(self).spec_pending() == old(self).spec_pending(),
            final(self).spec_format() == old(self).spec_format(),
    ;
}

} // verus!
