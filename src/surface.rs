//! The presentation state of the surface: its size, its present mode, and
//! the requests that arrive between frames.

use vstd::prelude::*;

verus! {

/// How frames are presented to the surface.
#[derive(Debug, Clone, Copy, PartialEq, Eq, Structural)]
pub enum PresentMode {
    /// Wait for vertical sync where the platform offers it.
    AutoVsync,
    /// Present as soon as a frame is ready.
    AutoNoVsync,
}

/// Why the next surface image could not be acquired.
#[derive(Debug, Clone, Copy, PartialEq, Eq, Structural)]
pub enum SurfaceError {
    Timeout,
    Outdated,
    Lost,
    OutOfMemory,
    Other,
}

/// What to do when the surface image cannot be acquired.
#[derive(Debug, Clone, Copy, PartialEq, Eq, Structural)]
pub enum SurfaceAction {
    /// Configure the surface again and render nothing this frame.
    ReconfigureAndSkip,
    /// Stop the process: the GPU state is no longer usable.
    Fatal,
    /// Report the error, render nothing this frame, and try the next one.
    SkipFrame,
}

/// How a frame starts.
#[derive(Debug, Clone, Copy, PartialEq, Eq, Structural)]
pub enum FrameStart {
    /// The surface has a zero side: render nothing and ask for the next frame.
    Skip,
    /// Render the frame, rebuilding the render pass manager first when
    /// `rebuild` holds.
    Render { rebuild: bool },
}

/// The present mode that a vsync setting asks for.
pub open spec fn present_mode_for(vsync_enabled: bool) -> PresentMode {
    if vsync_enabled {
        PresentMode::AutoVsync
    } else {
        PresentMode::AutoNoVsync
    }
}

/// The action each surface error calls for: an outdated or lost surface is
/// configured again, running out of memory is fatal, and anything else skips
/// the frame.
pub open spec fn action_for(e: SurfaceError) -> SurfaceAction {
    match e {
        SurfaceError::Outdated | SurfaceError::Lost => SurfaceAction::ReconfigureAndSkip,
        SurfaceError::OutOfMemory => SurfaceAction::Fatal,
        _ => SurfaceAction::SkipFrame,
    }
}

/// Decides what to do when the surface image cannot be acquired.
pub fn surface_error_action(e: SurfaceError) -> (r: SurfaceAction)
    ensures
        r == action_for(e),
{
    match e {
        SurfaceError::Outdated | SurfaceError::Lost => SurfaceAction::ReconfigureAndSkip,
        SurfaceError::OutOfMemory => SurfaceAction::Fatal,
        SurfaceError::Timeout | SurfaceError::Other => SurfaceAction::SkipFrame,
    }
}

/// The presentation settings of the surface and the requests that the user
/// interface hands back between frames.
#[derive(Debug, Clone, Copy, PartialEq, Eq, Structural)]
pub struct SurfaceState {
    pub width: u32,
    pub height: u32,
    pub present_mode: PresentMode,
    pub vsync_enabled: bool,
    pub recreate_requested: bool,
}

/// What a resize of the surface to `width` by `height` does: a size with a
/// zero side, or the current one, changes nothing; any other size is taken,
/// and the surface must be configured for it.
pub open spec fn surface_resize_outcome(
    before: SurfaceState,
    after: SurfaceState,
    width: u32,
    height: u32,
    reconfigure: bool,
) -> bool {
    &&& reconfigure == (width != 0 && height != 0 && !(width == before.width && height
        == before.height))
    &&& reconfigure ==> after == (SurfaceState { width, height, ..before })
    &&& !reconfigure ==> after == before
}

impl SurfaceState {
    /// The present mode is the one that the vsync setting asks for.
    pub open spec fn wf(&self) -> bool {
        self.present_mode == present_mode_for(self.vsync_enabled)
    }

    /// The settings for a window of `width` by `height` pixels: each side is
    /// at least one pixel, vsync is on, and no rebuild is pending.
    pub fn new(width: u32, height: u32) -> (r: SurfaceState)
        ensures
            r.width == if width == 0 { 1 } else { width },
            r.height == if height == 0 { 1 } else { height },
            r.wf(),
            r.present_mode == PresentMode::AutoVsync,
            r.vsync_enabled,
            !r.recreate_requested,
    {
        SurfaceState {
            width: if width == 0 { 1 } else { width },
            height: if height == 0 { 1 } else { height },
            present_mode: PresentMode::AutoVsync,
            vsync_enabled: true,
            recreate_requested: false,
        }
    }

    /// Takes a new surface size. A size with a zero side, or the current one,
    /// changes nothing. Returns whether the surface (and the render passes)
    /// must be configured for the new size.
    pub fn resize_surface(&mut self, width: u32, height: u32) -> (reconfigure: bool)
        ensures
            surface_resize_outcome(*old(self), *final(self), width, height, reconfigure),
    {
        if width == 0 || height == 0 {
            return false;
        }
        if self.width == width && self.height == height {
            return false;
        }
        self.width = width;
        self.height = height;
        true
    }

    /// Applies a vsync setting. Returns whether the present mode changed, in
    /// which case the surface must be configured again.
    pub fn set_vsync_enabled(&mut self, enabled: bool) -> (reconfigure: bool)
        ensures
            final(self).wf(),
            reconfigure == (old(self).present_mode != present_mode_for(enabled)),
            *final(self) == (SurfaceState {
                present_mode: present_mode_for(enabled),
                vsync_enabled: enabled,
                ..*old(self)
            }),
    {
        let mode = if enabled {
            PresentMode::AutoVsync
        } else {
            PresentMode::AutoNoVsync
        };
        let reconfigure = self.present_mode != mode;
        self.present_mode = mode;
        self.vsync_enabled = enabled;
        reconfigure
    }

    /// Starts a frame. A surface with a zero side renders nothing and keeps
    /// any pending rebuild. Otherwise the frame renders, taking a pending
    /// rebuild with it.
    pub fn begin_frame(&mut self) -> (r: FrameStart)
        ensures
            (old(self).width == 0 || old(self).height == 0) ==> r == FrameStart::Skip
                && *final(self) == *old(self),
            (old(self).width != 0 && old(self).height != 0) ==> r == (FrameStart::Render {
                rebuild: old(self).recreate_requested,
            }) && *final(self) == (SurfaceState { recreate_requested: false, ..*old(self) }),
    {
        if self.width == 0 || self.height == 0 {
            return FrameStart::Skip;
        }
        let rebuild = self.recreate_requested;
        self.recreate_requested = false;
        FrameStart::Render { rebuild }
    }

    /// Ends a frame with the settings the user interface handed back: a
    /// vsync setting and whether a rebuild was asked for. Returns whether the
    /// surface must be configured again for a new present mode.
    pub fn end_frame(&mut self, vsync_enabled: bool, recreate_requested: bool) -> (reconfigure:
        bool)
        requires
            old(self).wf(),
        ensures
            final(self).wf(),
            reconfigure == (old(self).vsync_enabled != vsync_enabled),
            *final(self) == (SurfaceState {
                present_mode: present_mode_for(vsync_enabled),
                vsync_enabled,
                recreate_requested,
                ..*old(self)
            }),
    {
        self.recreate_requested = recreate_requested;
        if self.vsync_enabled != vsync_enabled {
            self.set_vsync_enabled(vsync_enabled)
        } else {
            false
        }
    }
}

} // verus!
