//! What the orchestrator knows of the render surface: its configuration, the
//! ways in which acquiring a frame can fail, and the choice of the alpha mode
//! at startup.

use vstd::prelude::*;
use crate::camera::Viewport;

verus! {

/// The pixel format of the surface.
#[derive(Clone, Copy, Debug, PartialEq, Eq, Structural)]
pub enum PixelFormat {
    Bgra8Unorm,
    Bgra8UnormSrgb,
    Rgba8Unorm,
    Rgba8UnormSrgb,
}

/// How finished frames reach the display.
#[derive(Clone, Copy, Debug, PartialEq, Eq, Structural)]
pub enum PresentMode {
    AutoVsync,
    AutoNoVsync,
    Fifo,
    FifoRelaxed,
    Immediate,
    Mailbox,
}

/// How the compositor treats the alpha channel of the surface.
#[derive(Clone, Copy, Debug, PartialEq, Eq, Structural)]
pub enum AlphaMode {
    Auto,
    Opaque,
    PreMultiplied,
    PostMultiplied,
    Inherit,
}

/// The configuration that the surface is given at startup and after every
/// change of the window's size.
#[derive(Clone, Copy, Debug, PartialEq, Eq, Structural)]
pub struct SurfaceConfig {
    pub width: u32,
    pub height: u32,
    pub format: PixelFormat,
    pub present_mode: PresentMode,
    pub alpha_mode: AlphaMode,
}

/// Why the surface handed out no frame.
#[derive(Clone, Copy, Debug, PartialEq, Eq, Structural)]
pub enum FrameError {
    /// The surface was lost and has to be configured again.
    Lost,
    /// The surface no longer fits the window and has to be configured again.
    Outdated,
    /// No frame became free in time.
    Timeout,
    /// The device is gone; nothing can be drawn any more.
    DeviceLost,
}

impl FrameError {
    /// Whether the error ends the loop. Only the loss of the device does.
    pub open spec fn fatal(self) -> bool {
        self is DeviceLost
    }

    /// Whether the error ends the loop.
    pub fn is_fatal(&self) -> (fatal: bool)
        ensures
            fatal == self.fatal(),
    {
        match self {
            FrameError::DeviceLost => true,
            _ => false,
        }
    }
}

impl SurfaceConfig {
    /// The size that the surface is configured for.
    pub open spec fn size(self) -> Viewport {
        Viewport { width: self.width, height: self.height }
    }

    /// The same configuration for another size.
    pub open spec fn resized(self, width: u32, height: u32) -> SurfaceConfig {
        SurfaceConfig { width, height, ..self }
    }

    /// The size that the surface is configured for.
    pub fn viewport(&self) -> (v: Viewport)
        ensures
            v == self.size(),
    {
        Viewport { width: self.width, height: self.height }
    }
}

impl Viewport {
    /// A viewport is degenerate when it has no width or no height, as that of
    /// a minimised window.
    pub open spec fn degenerate(self) -> bool {
        self.width == 0 || self.height == 0
    }

    /// Whether the viewport has no width or no height.
    pub fn is_degenerate(&self) -> (d: bool)
        ensures
            d == self.degenerate(),
    {
        self.width == 0 || self.height == 0
    }
}

/// The alpha mode to configure the surface with, out of those that it
/// supports: premultiplied alpha where it is among them, the first of them
/// otherwise.
pub open spec fn preferred_alpha_mode(supported: Seq<AlphaMode>) -> AlphaMode {
    if supported.contains(AlphaMode::PreMultiplied) {
        AlphaMode::PreMultiplied
    } else {
        supported[0]
    }
}

/// Chooses the alpha mode to configure the surface with, out of those that
/// it supports.
pub fn select_alpha_mode(supported: &Vec<AlphaMode>) -> (mode: AlphaMode)
    requires
        supported.len() > 0,
    ensures
        mode == preferred_alpha_mode(supported@),
{
    let mut i: usize = 0;
    while i < supported.len()
        invariant
            i <= supported.len(),
            forall|j: int| 0 <= j < i ==> supported@[j] != AlphaMode::PreMultiplied,
        decreases supported.len() - i,
    {
        match supported[i] {
            AlphaMode::PreMultiplied => {
                assert(supported@[i as int] == AlphaMode::PreMultiplied);
                return AlphaMode::PreMultiplied;
            },
            _ => {},
        }
        i = i + 1;
    }
    supported[0]
}

} // verus!
