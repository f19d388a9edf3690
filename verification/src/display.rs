//! Display protocol responder: what the gadget answers to the host's display requests.

use vstd::prelude::*;
use crate::AppEvent;

verus! {

/// Width of the emulated display in pixels.
pub const WIDTH: u32 = 768;

/// Height of the emulated display in pixels.
pub const HEIGHT: u32 = 1024;

/// Refresh rate that the single display mode claims, in Hz.
pub const REFRESH_HZ: u32 = 60;

/// Bytes that one pixel takes in the frame buffer.
pub const BYTES_PER_PIXEL: u32 = 4;

/// How long one wait for a host request may take, in milliseconds.
pub const POLL_TIMEOUT_MS: u64 = 100;

/// Largest width and height that a display mode can state.
pub const MAX_DIMENSION: u32 = 0xFFFF;

/// Largest number of pixels for which the pixel clock at `REFRESH_HZ` fits its field.
pub const MAX_PIXELS: u32 = 71_582_788;

/// Pixel layouts of the frame buffer.
#[derive(Clone, Copy, Debug, PartialEq, Eq, Structural)]
pub enum PixelFormat {
    /// 32 bits per pixel: one unused byte, then red, green and blue.
    Xrgb8888,
}

/// A region of the frame that the host is about to send.
#[derive(Clone, Copy, Debug, PartialEq, Eq, Structural)]
pub struct TransferDescriptor {
    pub x: u32,
    pub y: u32,
    pub width: u32,
    pub height: u32,
    pub length: u32,
    pub compression: u8,
    pub compressed_length: u32,
}

/// A request of the host on the display interface.
#[derive(Clone, Copy, Debug, PartialEq, Eq, Structural)]
pub enum GudRequest {
    GetDescriptor,
    GetPixelFormats,
    GetDisplayModes,
    Buffer(TransferDescriptor),
}

/// What one bounded wait for a host request came back with.
#[derive(Clone, Copy, Debug, PartialEq, Eq, Structural)]
pub enum Polled {
    /// Nothing arrived in time.
    TimedOut,
    /// Something arrived that is no display request.
    Unrecognized,
    /// A display request arrived.
    Request(GudRequest),
}

/// The display as the descriptor reply states it.
#[derive(Clone, Copy, Debug, PartialEq, Eq, Structural)]
pub struct DisplayDescriptor {
    pub width: u32,
    pub height: u32,
    pub buffer_width: u32,
    pub buffer_height: u32,
}

/// One display mode in the layout of the host's mode-setting interface.
#[derive(Clone, Copy, Debug, PartialEq, Eq, Structural)]
pub struct DisplayMode {
    pub clock: u32,
    pub hdisplay: u16,
    pub hsync_start: u16,
    pub hsync_end: u16,
    pub htotal: u16,
    pub vdisplay: u16,
    pub vsync_start: u16,
    pub vsync_end: u16,
    pub vtotal: u16,
    pub flags: u32,
}

/// What the engine does about one polled outcome.
#[derive(Clone, Debug, PartialEq, Eq)]
pub enum EngineAction {
    /// Nothing; wait again.
    Idle,
    /// Reply with the display descriptor.
    SendDescriptor(DisplayDescriptor),
    /// Reply with the supported pixel formats.
    SendPixelFormats(Vec<PixelFormat>),
    /// Reply with the supported display modes.
    SendDisplayModes(Vec<DisplayMode>),
    /// Take the announced bytes into the frame buffer with this row stride and pixel size.
    ReceiveBuffer { transfer: TransferDescriptor, stride: usize, bytes_per_pixel: usize },
}

/// What an `EngineAction` says, over sequences.
pub enum EngineActionView {
    Idle,
    SendDescriptor(DisplayDescriptor),
    SendPixelFormats(Seq<PixelFormat>),
    SendDisplayModes(Seq<DisplayMode>),
    ReceiveBuffer { transfer: TransferDescriptor, stride: int, bytes_per_pixel: int },
}

impl View for EngineAction {
    type V = EngineActionView;

    open spec fn view(&self) -> EngineActionView {
        match *self {
            EngineAction::Idle => EngineActionView::Idle,
            EngineAction::SendDescriptor(descriptor) => EngineActionView::SendDescriptor(descriptor),
            EngineAction::SendPixelFormats(formats) => EngineActionView::SendPixelFormats(formats@),
            EngineAction::SendDisplayModes(modes) => EngineActionView::SendDisplayModes(modes@),
            EngineAction::ReceiveBuffer { transfer, stride, bytes_per_pixel } => {
                EngineActionView::ReceiveBuffer {
                    transfer,
                    stride: stride as int,
                    bytes_per_pixel: bytes_per_pixel as int,
                }
            },
        }
    }
}

/// What follows once an action has been carried out.
#[derive(Clone, Debug, PartialEq, Eq)]
pub enum EngineFollowUp {
    /// Wait for the next request.
    Continue,
    /// Tell the foreground loop, then wait for the next request.
    Notify(AppEvent),
    /// The endpoint is gone; the engine stops.
    Stop,
}

/// Whether a resolution can be served: both sides are nonzero and fit a display mode's
/// fields, and the pixel clock at `REFRESH_HZ` fits its field.
pub open spec fn valid_resolution(width: u32, height: u32) -> bool {
    &&& 0 < width <= MAX_DIMENSION
    &&& 0 < height <= MAX_DIMENSION
    &&& width * height <= MAX_PIXELS
}

/// The pixel clock in kHz of a mode without blanking at `REFRESH_HZ`.
pub open spec fn pixel_clock_khz(width: u32, height: u32) -> int {
    width * height * REFRESH_HZ / 1000
}

/// Bytes from one row of the frame buffer to the next.
pub open spec fn row_stride(width: u32) -> int {
    width * BYTES_PER_PIXEL
}

/// The descriptor of a display with this resolution: display and buffer have the same size.
pub open spec fn descriptor_of(width: u32, height: u32) -> DisplayDescriptor {
    DisplayDescriptor { width, height, buffer_width: width, buffer_height: height }
}

/// The one mode of a display with this resolution: no blanking, so every horizontal field
/// is the width and every vertical field the height.
pub open spec fn mode_of(width: u32, height: u32) -> DisplayMode {
    DisplayMode {
        clock: pixel_clock_khz(width, height) as u32,
        hdisplay: width as u16,
        hsync_start: width as u16,
        hsync_end: width as u16,
        htotal: width as u16,
        vdisplay: height as u16,
        vsync_start: height as u16,
        vsync_end: height as u16,
        vtotal: height as u16,
        flags: 0,
    }
}

/// The engine's answer to a polled outcome on a display with this resolution.
pub open spec fn engine_action(width: u32, height: u32, polled: Polled) -> EngineActionView {
    match polled {
        Polled::TimedOut | Polled::Unrecognized => EngineActionView::Idle,
        Polled::Request(GudRequest::GetDescriptor) => EngineActionView::SendDescriptor(
            descriptor_of(width, height),
        ),
        Polled::Request(GudRequest::GetPixelFormats) => EngineActionView::SendPixelFormats(
            seq![PixelFormat::Xrgb8888],
        ),
        Polled::Request(GudRequest::GetDisplayModes) => EngineActionView::SendDisplayModes(
            seq![mode_of(width, height)],
        ),
        Polled::Request(GudRequest::Buffer(transfer)) => EngineActionView::ReceiveBuffer {
            transfer,
            stride: row_stride(width),
            bytes_per_pixel: BYTES_PER_PIXEL as int,
        },
    }
}

/// The display protocol responder for one fixed resolution.
#[derive(Clone, Copy, Debug, PartialEq, Eq)]
pub struct GudEngine {
    width: u32,
    height: u32,
}

impl GudEngine {
    #[verifier::type_invariant]
    pub closed spec fn well_formed(self) -> bool {
        valid_resolution(self.width, self.height)
    }

    /// The width served.
    pub closed spec fn spec_width(self) -> u32 {
        self.width
    }

    /// The height served.
    pub closed spec fn spec_height(self) -> u32 {
        self.height
    }

    /// An engine for the given resolution, if it can be served.
    pub fn with_resolution(width: u32, height: u32) -> (engine: Option<GudEngine>)
        ensures
            engine is Some <==> valid_resolution(width, height),
            engine matches Some(e) ==> e.spec_width() == width && e.spec_height() == height,
    {
        if width == 0 || height == 0 || width > MAX_DIMENSION || height > MAX_DIMENSION {
            return None;
        }
        assert(width * height <= 0xFFFF * 0xFFFF) by (nonlinear_arith)
            requires
                0 < width <= 0xFFFF,
                0 < height <= 0xFFFF,
        ;
        let pixels: u64 = (width as u64) * (height as u64);
        if pixels > MAX_PIXELS as u64 {
            return None;
        }
        Some(GudEngine { width, height })
    }

    /// An engine for the built-in resolution of `WIDTH` by `HEIGHT`.
    pub fn new() -> (engine: GudEngine)
        ensures
            engine.spec_width() == WIDTH,
            engine.spec_height() == HEIGHT,
    {
        assert(WIDTH * HEIGHT == 786432);
        GudEngine { width: WIDTH, height: HEIGHT }
    }

    /// The width served.
    pub fn width(&self) -> (width: u32)
        ensures
            width == self.spec_width(),
    {
        self.width
    }

    /// The height served.
    pub fn height(&self) -> (height: u32)
        ensures
            height == self.spec_height(),
    {
        self.height
    }

    /// Bytes from one row of the frame buffer to the next.
    pub fn stride(&self) -> (stride: usize)
        ensures
            stride == row_stride(self.spec_width()),
    {
        proof {
            use_type_invariant(self);
        }
        (self.width * BYTES_PER_PIXEL) as usize
    }

    /// Size of the frame buffer in bytes: every pixel of every row.
    pub fn frame_len(&self) -> (len: usize)
        ensures
            len == self.spec_width() * self.spec_height() * BYTES_PER_PIXEL,
    {
        proof {
            use_type_invariant(self);
        }
        let pixels: u32 = self.pixels();
        (pixels * BYTES_PER_PIXEL) as usize
    }

    fn pixels(&self) -> (pixels: u32)
        ensures
            pixels == self.spec_width() * self.spec_height(),
            pixels <= MAX_PIXELS,
    {
        proof {
            use_type_invariant(self);
        }
        self.width * self.height
    }

    /// The reply to a descriptor request.
    pub fn descriptor(&self) -> (descriptor: DisplayDescriptor)
        ensures
            descriptor == descriptor_of(self.spec_width(), self.spec_height()),
    {
        DisplayDescriptor {
            width: self.width,
            height: self.height,
            buffer_width: self.width,
            buffer_height: self.height,
        }
    }

    /// The one display mode served.
    pub fn display_mode(&self) -> (mode: DisplayMode)
        ensures
            mode == mode_of(self.spec_width(), self.spec_height()),
            mode.clock == pixel_clock_khz(self.spec_width(), self.spec_height()),
            mode.hdisplay == self.spec_width(),
            mode.vdisplay == self.spec_height(),
    {
        proof {
            use_type_invariant(self);
        }
        let pixels: u32 = self.pixels();
        let clock: u32 = pixels * REFRESH_HZ / 1000;
        let horizontal: u16 = self.width as u16;
        let vertical: u16 = self.height as u16;
        DisplayMode {
            clock,
            hdisplay: horizontal,
            hsync_start: horizontal,
            hsync_end: horizontal,
            htotal: horizontal,
            vdisplay: vertical,
            vsync_start: vertical,
            vsync_end: vertical,
            vtotal: vertical,
            flags: 0,
        }
    }

    /// Decides what to do about the outcome of one wait for a host request. A timeout and
    /// an unrecognized request are dropped.
    pub fn handle(&self, polled: Polled) -> (action: EngineAction)
        ensures
            action@ == engine_action(self.spec_width(), self.spec_height(), polled),
    {
        match polled {
            Polled::TimedOut | Polled::Unrecognized => EngineAction::Idle,
            Polled::Request(GudRequest::GetDescriptor) => EngineAction::SendDescriptor(
                self.descriptor(),
            ),
            Polled::Request(GudRequest::GetPixelFormats) => {
                let mut formats: Vec<PixelFormat> = Vec::new();
                formats.push(PixelFormat::Xrgb8888);
                assert(formats@ =~= seq![PixelFormat::Xrgb8888]);
                EngineAction::SendPixelFormats(formats)
            },
            Polled::Request(GudRequest::GetDisplayModes) => {
                let mut modes: Vec<DisplayMode> = Vec::new();
                let mode = self.display_mode();
                modes.push(mode);
                assert(modes@ =~= seq![mode]);
                EngineAction::SendDisplayModes(modes)
            },
            Polled::Request(GudRequest::Buffer(transfer)) => EngineAction::ReceiveBuffer {
                transfer,
                stride: self.stride(),
                bytes_per_pixel: BYTES_PER_PIXEL as usize,
            },
        }
    }
}

/// What an `EngineFollowUp` says, over sequences.
pub enum EngineFollowUpView {
    Continue,
    Notify(crate::AppEventView),
    Stop,
}

impl View for EngineFollowUp {
    type V = EngineFollowUpView;

    open spec fn view(&self) -> EngineFollowUpView {
        match *self {
            EngineFollowUp::Continue => EngineFollowUpView::Continue,
            EngineFollowUp::Notify(event) => EngineFollowUpView::Notify(event@),
            EngineFollowUp::Stop => EngineFollowUpView::Stop,
        }
    }
}

/// What follows once `action` has been carried out and `succeeded` says how it went: a
/// reply or a transfer that failed stops the engine, a frame that arrived is announced to
/// the foreground, and everything else just goes on.
pub open spec fn follow_up(action: EngineActionView, succeeded: bool) -> EngineFollowUpView {
    if action is Idle {
        EngineFollowUpView::Continue
    } else if !succeeded {
        EngineFollowUpView::Stop
    } else if action is ReceiveBuffer {
        EngineFollowUpView::Notify(crate::AppEventView::DisplayFrameArrived)
    } else {
        EngineFollowUpView::Continue
    }
}

/// Decides what follows once `action` has been carried out.
pub fn completed(action: &EngineAction, succeeded: bool) -> (next: EngineFollowUp)
    ensures
        next@ == follow_up(action@, succeeded),
{
    match action {
        EngineAction::Idle => EngineFollowUp::Continue,
        EngineAction::ReceiveBuffer { .. } => {
            if succeeded {
                EngineFollowUp::Notify(AppEvent::DisplayFrameArrived)
            } else {
                EngineFollowUp::Stop
            }
        },
        _ => {
            if succeeded {
                EngineFollowUp::Continue
            } else {
                EngineFollowUp::Stop
            }
        },
    }
}

} // verus!
