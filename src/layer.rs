//! A display with a single layer, whose shadow-register reload at vertical
//! blank is an explicit event.
use vstd::prelude::*;
use crate::{
    DisplayConfiguration, DisplayController, DisplayControllerLayer, FrameBuffer, PixelFormat,
};

verus! {

/// The state of a `SingleLayerDisplay`.
pub struct DisplayState {
    pub config: DisplayConfiguration,
    pub clock_hz: u32,
    pub pitch: u32,
    pub format: PixelFormat,
    /// While enabled: the framebuffer scanned out, and the one waiting in
    /// the shadow register.
    pub scan: Option<(FrameBuffer, Option<FrameBuffer>)>,
    /// Framebuffers no longer read by the display, oldest first.
    pub released: Seq<FrameBuffer>,
}

impl DisplayState {
    pub open spec fn displayed(self) -> Option<FrameBuffer> {
        match self.scan {
            Some((d, _)) => Some(d),
            None => None,
        }
    }

    pub open spec fn pending(self) -> Option<FrameBuffer> {
        match self.scan {
            Some((_, p)) => p,
            None => None,
        }
    }

    /// New timing parameters; the pitch becomes the new active width.
    pub open spec fn after_init(self, config: DisplayConfiguration) -> DisplayState {
        DisplayState { config, pitch: config.active_width as u32, ..self }
    }

    /// `fb` is scanned out, in layout `format`, with no swap pending.
    pub open spec fn after_enable(self, fb: FrameBuffer, format: PixelFormat) -> DisplayState {
        DisplayState { scan: Some((fb, None)), format, ..self }
    }

    /// `fb` waits for the next vertical blank. A framebuffer that was
    /// waiting is never scanned out, and is released.
    pub open spec fn after_swap(self, fb: FrameBuffer) -> DisplayState {
        match self.scan {
            Some((d, p)) => DisplayState {
                scan: Some((d, Some(fb))),
                released: match p {
                    Some(p) => self.released.push(p),
                    None => self.released,
                },
                ..self
            },
            None => self,
        }
    }

    /// The pitch changes at once; nothing else does.
    pub open spec fn after_resize(self, width: u32) -> DisplayState {
        DisplayState { pitch: width, ..self }
    }

    /// A waiting framebuffer is scanned out from now on, and the one it
    /// replaces is released.
    pub open spec fn after_vertical_blank(self) -> DisplayState {
        match self.scan {
            Some((d, Some(p))) => DisplayState {
                scan: Some((p, None)),
                released: self.released.push(d),
                ..self
            },
            _ => self,
        }
    }
}

/// A display controller with one layer.
///
/// A swapped-in framebuffer waits in the shadow register until
/// `vertical_blank` takes it up. Framebuffers the display no longer reads are
/// kept, oldest first, until `reclaim` hands them back.
pub struct SingleLayerDisplay {
    config: DisplayConfiguration,
    clock_hz: u32,
    pitch: u32,
    format: PixelFormat,
    scan: Option<(FrameBuffer, Option<FrameBuffer>)>,
    released: Vec<FrameBuffer>,
}

impl View for SingleLayerDisplay {
    type V = DisplayState;

    closed spec fn view(&self) -> DisplayState {
        DisplayState {
            config: self.config,
            clock_hz: self.clock_hz,
            pitch: self.pitch,
            format: self.format,
            scan: self.scan,
            released: self.released@,
        }
    }
}

impl SingleLayerDisplay {
    /// A disabled display with timing `config` and pixel clock `clock_hz`.
    /// The pitch starts out as the active width.
    pub fn new(config: DisplayConfiguration, clock_hz: u32) -> (r: SingleLayerDisplay)
        ensures
            r@ == (DisplayState {
                config,
                clock_hz,
                pitch: config.active_width as u32,
                format: PixelFormat::ARGB8888,
                scan: None,
                released: Seq::empty(),
            }),
    {
        SingleLayerDisplay {
            config,
            clock_hz,
            pitch: config.active_width as u32,
            format: PixelFormat::ARGB8888,
            scan: None,
            released: Vec::new(),
        }
    }

    /// Returns the timing parameters in effect.
    pub fn configuration(&self) -> (r: DisplayConfiguration)
        ensures
            r == self@.config,
    {
        self.config
    }

    /// The shadow-register reload at vertical blank.
    pub fn vertical_blank(&mut self)
        ensures
            final(self)@ == old(self)@.after_vertical_blank(),
    {
        if let Some((d, Some(fb))) = self.scan {
            self.released.push(d);
            self.scan = Some((fb, None));
        }
    }

    /// Hands back the oldest framebuffer that the display no longer reads.
    pub fn reclaim(&mut self) -> (r: Option<FrameBuffer>)
        ensures
            old(self)@.released.len() == 0 ==> r is None && final(self)@ == old(self)@,
            old(self)@.released.len() > 0 ==> r == Some(old(self)@.released[0]) && final(self)@
                == (DisplayState { released: old(self)@.released.drop_first(), ..old(self)@ }),
    {
        if self.released.len() == 0 {
            None
        } else {
            Some(self.released.remove(0))
        }
    }
}

impl DisplayController for SingleLayerDisplay {
    open spec fn spec_configuration(&self) -> Option<DisplayConfiguration> {
        Some(self@.config)
    }

    open spec fn spec_clock(&self) -> u32 {
        self@.clock_hz
    }

    fn init(&mut self, config: DisplayConfiguration)
        ensures
            final(self)@ == old(self)@.after_init(config),
    {
        self.config = config;
        self.pitch = config.active_width as u32;
    }

    fn clock(&self) -> (r: u32) {
        self.clock_hz
    }
}

impl DisplayControllerLayer for SingleLayerDisplay {
    open spec fn spec_window(&self) -> (u16, u16) {
        (self@.config.active_width, self@.config.active_height)
    }

    open spec fn spec_pitch(&self) -> u32 {
        self@.pitch
    }

    open spec fn spec_format(&self) -> PixelFormat {
        self@.format
    }

    open spec fn spec_displayed(&self) -> Option<FrameBuffer> {
        self@.displayed()
    }

    open spec fn spec_pending(&self) -> Option<FrameBuffer> {
        self@.pending()
    }

    fn enable(&mut self, fb: FrameBuffer, pixel_format: PixelFormat)
        ensures
            final(self)@ == old(self)@.after_enable(fb, pixel_format),
    {
        self.scan = Some((fb, None));
        self.format = pixel_format;
    }

    fn swap_framebuffer(&mut self, fb: FrameBuffer)
        ensures
            final(self)@ == old(self)@.after_swap(fb),
    {
        if let Some((d, pending)) = self.scan {
            if let Some(p) = pending {
                self.released.push(p);
            }
            self.scan = Some((d, Some(fb)));
        }
    }

    fn is_swap_pending(&self) -> (r: bool) {
        match self.scan {
            Some((_, Some(_))) => true,
            _ => false,
        }
    }

    fn resize_buffer_pitch(&mut self, width: u32)
        ensures
            final(self)@ == old(self)@.after_resize(width),
    {
        self.pitch = width;
    }
}

/// After `enable` and one `swap_framebuffer`, a swap is pending; the next
/// vertical blank scans the new framebuffer out, clears the pending swap and
/// releases the first framebuffer.
pub proof fn swap_pending_until_vertical_blank(
    s: DisplayState,
    first: FrameBuffer,
    format: PixelFormat,
    next: FrameBuffer,
)
    ensures
        s.after_enable(first, format).after_swap(next).pending() == Some(next),
        s.after_enable(first, format).after_swap(next).displayed() == Some(first),
        s.after_enable(first, format).after_swap(next).after_vertical_blank().pending() is None,
        s.after_enable(first, format).after_swap(next).after_vertical_blank().displayed() == Some(
            next,
        ),
        s.after_enable(first, format).after_swap(next).after_vertical_blank().released
            == s.released.push(first),
{
}

/// Resizing the pitch keeps the configuration, and so the active width and
/// height, along with the framebuffers and their ownership.
pub proof fn resize_keeps_window(s: DisplayState, width: u32)
    ensures
        s.after_resize(width).config == s.config,
        s.after_resize(width).scan == s.scan,
        s.after_resize(width).released == s.released,
        s.after_resize(width).format == s.format,
        s.after_resize(width).pitch == width,
{
}

} // verus!
