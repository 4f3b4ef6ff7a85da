//! The presentation surface: its size, its configuration and the
//! classification of what a frame attempt returned.

use vstd::prelude::*;

verus! {

/// Extent of a presentable area, in physical pixels.
#[derive(Clone, Copy, Debug, PartialEq, Eq, Structural)]
pub struct SurfaceSize {
    pub width: u32,
    pub height: u32,
}

impl SurfaceSize {
    /// A size can be applied to a surface only when neither dimension is zero.
    pub open spec fn is_drawable(self) -> bool {
        self.width > 0 && self.height > 0
    }

    pub fn new(width: u32, height: u32) -> (size: SurfaceSize)
        ensures
            size == (SurfaceSize { width, height }),
    {
        SurfaceSize { width, height }
    }

    /// Whether neither dimension is zero.
    pub fn drawable(&self) -> (r: bool)
        ensures
            r == self.is_drawable(),
    {
        self.width > 0 && self.height > 0
    }
}

/// Why the backend could not hand out the next frame.
#[derive(Clone, Copy, Debug, PartialEq, Eq, Structural)]
pub enum BackendError {
    /// Acquiring the frame took too long.
    Timeout,
    /// The surface no longer matches the window.
    Outdated,
    /// The swap chain is gone.
    Lost,
    /// No memory is left for a new frame.
    OutOfMemory,
}

/// A failure that rebuilding the surface configuration cures.
#[derive(Clone, Copy, Debug, PartialEq, Eq, Structural)]
pub enum RecoverableReason {
    Lost,
    Outdated,
}

/// A failure after which no frame can ever be drawn again.
#[derive(Clone, Copy, Debug, PartialEq, Eq, Structural)]
pub enum FatalReason {
    OutOfMemory,
}

/// Result of one render attempt.
#[derive(Clone, Copy, Debug, PartialEq, Eq, Structural)]
pub enum FrameOutcome {
    Presented,
    RecoverableSurfaceError(RecoverableReason),
    FatalSurfaceError(FatalReason),
    TransientTimeout,
}

impl FrameOutcome {
    /// The failure classification: lost and outdated surfaces are
    /// recoverable, exhausted memory is fatal, a timeout is transient.
    pub open spec fn of(result: Result<(), BackendError>) -> FrameOutcome {
        match result {
            Ok(()) => FrameOutcome::Presented,
            Err(BackendError::Lost) => FrameOutcome::RecoverableSurfaceError(
                RecoverableReason::Lost,
            ),
            Err(BackendError::Outdated) => FrameOutcome::RecoverableSurfaceError(
                RecoverableReason::Outdated,
            ),
            Err(BackendError::OutOfMemory) => FrameOutcome::FatalSurfaceError(
                FatalReason::OutOfMemory,
            ),
            Err(BackendError::Timeout) => FrameOutcome::TransientTimeout,
        }
    }

    /// Classifies what the backend returned for a frame.
    pub fn classify(result: Result<(), BackendError>) -> (outcome: FrameOutcome)
        ensures
            outcome == FrameOutcome::of(result),
    {
        match result {
            Ok(()) => FrameOutcome::Presented,
            Err(BackendError::Lost) => FrameOutcome::RecoverableSurfaceError(
                RecoverableReason::Lost,
            ),
            Err(BackendError::Outdated) => FrameOutcome::RecoverableSurfaceError(
                RecoverableReason::Outdated,
            ),
            Err(BackendError::OutOfMemory) => FrameOutcome::FatalSurfaceError(
                FatalReason::OutOfMemory,
            ),
            Err(BackendError::Timeout) => FrameOutcome::TransientTimeout,
        }
    }
}

/// Everything the backend is told when a surface is configured.
#[derive(Clone, Copy, Debug, PartialEq, Eq)]
pub struct SurfaceConfiguration {
    pub size: SurfaceSize,
    pub format: wgpu::TextureFormat,
    pub present_mode: wgpu::PresentMode,
}

/// What a surface is, mathematically: the window it is bound to, the
/// presentation format and present mode chosen when it was made, and the size
/// last applied to it, if any was.
pub struct SurfaceModel {
    pub window: u64,
    pub format: wgpu::TextureFormat,
    pub present_mode: wgpu::PresentMode,
    pub size: Option<SurfaceSize>,
}

impl SurfaceModel {
    /// A zero-sized configuration is never applied.
    pub open spec fn wf(self) -> bool {
        self.size matches Some(size) ==> size.is_drawable()
    }

    /// The configuration in force, if the surface has been configured.
    pub open spec fn config(self) -> Option<SurfaceConfiguration> {
        match self.size {
            Some(size) => Some(
                SurfaceConfiguration { size, format: self.format, present_mode: self.present_mode },
            ),
            None => None,
        }
    }

    /// A fresh surface on `window`, configured at `client_size` unless that
    /// size has a zero dimension, in which case configuring is deferred.
    pub open spec fn bound(
        window: u64,
        client_size: SurfaceSize,
        format: wgpu::TextureFormat,
        present_mode: wgpu::PresentMode,
    ) -> SurfaceModel {
        SurfaceModel {
            window,
            format,
            present_mode,
            size: if client_size.is_drawable() {
                Some(client_size)
            } else {
                None
            },
        }
    }

    /// The surface after a request to configure it at `size`: a drawable size
    /// replaces the one in force, any other leaves the surface as it was.
    /// Format and present mode never change.
    pub open spec fn reconfigured(self, size: SurfaceSize) -> SurfaceModel {
        if size.is_drawable() {
            SurfaceModel { size: Some(size), ..self }
        } else {
            self
        }
    }
}

/// The presentation surface of one window.
#[derive(Clone, Copy, Debug)]
pub struct RenderSurface {
    window: u64,
    format: wgpu::TextureFormat,
    present_mode: wgpu::PresentMode,
    size: Option<SurfaceSize>,
}

impl View for RenderSurface {
    type V = SurfaceModel;

    closed spec fn view(&self) -> SurfaceModel {
        SurfaceModel {
            window: self.window,
            format: self.format,
            present_mode: self.present_mode,
            size: self.size,
        }
    }
}

impl RenderSurface {
    #[verifier::type_invariant]
    spec fn inv(self) -> bool {
        self@.wf()
    }

    /// Binds a new surface to the window `window`, whose client area is
    /// `client_size`, to present in `format` and `present_mode`.
    pub fn bind(
        window: u64,
        client_size: SurfaceSize,
        format: wgpu::TextureFormat,
        present_mode: wgpu::PresentMode,
    ) -> (surface: RenderSurface)
        ensures
            surface@ == SurfaceModel::bound(window, client_size, format, present_mode),
            surface@.wf(),
    {
        let size = if client_size.drawable() {
            Some(client_size)
        } else {
            None
        };
        RenderSurface { window, format, present_mode, size }
    }

    /// Applies `size` as the new size and returns `true`, or, where `size`
    /// has a zero dimension, changes nothing and returns `false`.
    pub fn reconfigure(&mut self, size: SurfaceSize) -> (applied: bool)
        ensures
            final(self)@ == old(self)@.reconfigured(size),
            applied == size.is_drawable(),
            final(self)@.wf(),
    {
        proof {
            use_type_invariant(&*self);
        }
        if size.drawable() {
            self.size = Some(size);
            true
        } else {
            false
        }
    }

    /// The configuration in force, or `None` while configuring is deferred.
    /// Its size is never zero in either dimension.
    pub fn config(&self) -> (config: Option<SurfaceConfiguration>)
        ensures
            config == self@.config(),
            config matches Some(c) ==> c.size.is_drawable(),
    {
        proof {
            use_type_invariant(self);
        }
        match self.size {
            Some(size) => Some(
                SurfaceConfiguration { size, format: self.format, present_mode: self.present_mode },
            ),
            None => None,
        }
    }

    /// The size the surface is configured at, or `None` while configuring is
    /// deferred.
    pub fn size(&self) -> (size: Option<SurfaceSize>)
        ensures
            size == self@.size,
            self@.wf(),
    {
        proof {
            use_type_invariant(self);
        }
        self.size
    }

    /// Identity of the window this surface presents to.
    pub fn window(&self) -> (window: u64)
        ensures
            window == self@.window,
    {
        self.window
    }

    /// The presentation format, fixed when the surface was bound.
    pub fn format(&self) -> (format: wgpu::TextureFormat)
        ensures
            format == self@.format,
    {
        self.format
    }

    /// The present mode, fixed when the surface was bound.
    pub fn present_mode(&self) -> (present_mode: wgpu::PresentMode)
        ensures
            present_mode == self@.present_mode,
    {
        self.present_mode
    }
}

} // verus!
