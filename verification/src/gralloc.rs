//! The native-surface buffer manager.
//!
//! A `GrallocManager` wraps one host window handle, configures the surface's
//! pixel geometry, and exposes the lock / unlock-and-post pair of the
//! CPU-blit presentation path. The host surface itself — its validity, its
//! outstanding lock, the reference count on the handle and what has been
//! posted for display — is modeled here as a value, and every operation
//! states exactly how it moves that value. The process side that calls the
//! host windowing API drives these operations and mirrors their outcomes.

use vstd::prelude::*;

use crate::error::RendererError;

verus! {

/// The RGBA 8888 pixel format code used for every buffer.
pub const FORMAT_RGBA_8888: i32 = 1;

/// The host surface behind a native window handle.
pub struct NativeSurface {
    /// Whether the host currently considers the surface usable; geometry,
    /// lock and post calls fail while this is false.
    pub valid: bool,
    /// The nonzero code the host returns for a failing call.
    pub error_code: i32,
    /// Whether a CPU lock is outstanding.
    pub locked: bool,
    /// The row stride, in pixels, the host hands out with a locked buffer.
    pub stride: i32,
    /// References acquired on the handle and not yet released.
    pub refs: u32,
    /// The configured geometry, once a configuration has succeeded:
    /// width, height and pixel format.
    pub geometry: Option<(i32, i32, i32)>,
    /// How many buffers have been queued for on-screen presentation.
    pub posted: u64,
}

impl NativeSurface {
    /// A failing host call reports a nonzero code.
    pub open spec fn wf(self) -> bool {
        self.error_code != 0
    }
}

/// One transient CPU-writable buffer description, valid only between a lock
/// and the matching unlock-and-post.
#[derive(Clone, Copy, Debug, PartialEq, Eq, Structural)]
pub struct SurfaceBuffer {
    pub width: i32,
    pub height: i32,
    pub stride: i32,
    pub format: i32,
}

/// The manager of one window handle's buffers.
pub struct GrallocManager {
    /// The host window handle, held as an opaque nonzero address.
    pub window: u64,
    /// The configured buffer width.
    pub width: i32,
    /// The configured buffer height.
    pub height: i32,
    /// The configured pixel format.
    pub format: i32,
}

/// What a geometry configuration returns on the given surface: success
/// exactly while the host considers the surface usable.
pub open spec fn spec_configure_result(surface: NativeSurface) -> Result<(), RendererError> {
    if surface.valid {
        Ok(())
    } else {
        Err(RendererError::ConfigurationFailed(surface.error_code))
    }
}

/// What a lock attempt returns on the given surface: a buffer with the
/// manager's geometry and the host's stride, unless the surface is unusable
/// or already locked.
pub open spec fn spec_lock_result(manager: GrallocManager, surface: NativeSurface) -> Result<
    SurfaceBuffer,
    RendererError,
> {
    if surface.valid && !surface.locked {
        Ok(
            SurfaceBuffer {
                width: manager.width,
                height: manager.height,
                stride: surface.stride,
                format: manager.format,
            },
        )
    } else {
        Err(RendererError::LockFailed(surface.error_code))
    }
}

/// What an unlock-and-post returns on the given surface: success exactly
/// when a lock is outstanding on a usable surface.
pub open spec fn spec_post_result(surface: NativeSurface) -> Result<(), RendererError> {
    if surface.valid && surface.locked {
        Ok(())
    } else {
        Err(RendererError::PresentFailed(surface.error_code))
    }
}

/// The surface as a successful lock leaves it.
pub open spec fn spec_after_lock(surface: NativeSurface) -> NativeSurface {
    NativeSurface { locked: true, ..surface }
}

impl GrallocManager {
    /// Wraps a window handle: rejects a null handle, acquires one reference
    /// on it, and configures the surface's pixel geometry in the fixed
    /// RGBA 8888 format. When the configuration fails the acquired
    /// reference is released again and the surface is left as it was.
    pub fn new(surface: &mut NativeSurface, window: u64, width: i32, height: i32) -> (r: Result<
        GrallocManager,
        RendererError,
    >)
        requires
            old(surface).wf(),
            old(surface).refs < 0xffff_ffff_u32,
        ensures
            final(surface).valid == old(surface).valid,
            final(surface).error_code == old(surface).error_code,
            final(surface).locked == old(surface).locked,
            final(surface).stride == old(surface).stride,
            final(surface).posted == old(surface).posted,
            match r {
                Ok(manager) => {
                    &&& window != 0
                    &&& old(surface).valid
                    &&& manager.window == window
                    &&& manager.width == width
                    &&& manager.height == height
                    &&& manager.format == FORMAT_RGBA_8888
                    &&& final(surface).refs == old(surface).refs + 1
                    &&& final(surface).geometry == Some((width, height, FORMAT_RGBA_8888))
                },
                Err(RendererError::InvalidWindow) => {
                    &&& window == 0
                    &&& *final(surface) == *old(surface)
                },
                Err(e) => {
                    &&& window != 0
                    &&& e == RendererError::ConfigurationFailed(old(surface).error_code)
                    &&& !old(surface).valid
                    &&& final(surface).refs == old(surface).refs
                    &&& final(surface).geometry == old(surface).geometry
                },
            },
    {
        if window == 0 {
            return Err(RendererError::InvalidWindow);
        }
        surface.refs = surface.refs + 1;
        let manager = GrallocManager { window, width, height, format: FORMAT_RGBA_8888 };
        match manager.configure_buffers(surface) {
            Ok(()) => Ok(manager),
            Err(e) => {
                surface.refs = surface.refs - 1;
                Err(e)
            }
        }
    }

    /// Configures the surface's pixel geometry to this manager's size and
    /// format, surfacing the host's code on failure.
    fn configure_buffers(&self, surface: &mut NativeSurface) -> (r: Result<(), RendererError>)
        ensures
            final(surface).valid == old(surface).valid,
            final(surface).error_code == old(surface).error_code,
            final(surface).locked == old(surface).locked,
            final(surface).stride == old(surface).stride,
            final(surface).refs == old(surface).refs,
            final(surface).posted == old(surface).posted,
            r == spec_configure_result(*old(surface)),
            final(surface).geometry == if r is Ok {
                Some((self.width, self.height, self.format))
            } else {
                old(surface).geometry
            },
    {
        if surface.valid {
            surface.geometry = Some((self.width, self.height, self.format));
            Ok(())
        } else {
            Err(RendererError::ConfigurationFailed(surface.error_code))
        }
    }

    /// Updates the buffer size and reconfigures the surface geometry. The
    /// size is recorded before the host call, so after a failure the
    /// manager's size and the surface's configured geometry diverge until
    /// the next successful configuration.
    pub fn set_size(&mut self, surface: &mut NativeSurface, width: i32, height: i32) -> (r:
        Result<(), RendererError>)
        requires
            old(surface).wf(),
        ensures
            final(self).window == old(self).window,
            final(self).format == old(self).format,
            final(self).width == width,
            final(self).height == height,
            final(surface).valid == old(surface).valid,
            final(surface).error_code == old(surface).error_code,
            final(surface).locked == old(surface).locked,
            final(surface).stride == old(surface).stride,
            final(surface).refs == old(surface).refs,
            final(surface).posted == old(surface).posted,
            r == spec_configure_result(*old(surface)),
            final(surface).geometry == if r is Ok {
                Some((width, height, old(self).format))
            } else {
                old(surface).geometry
            },
    {
        self.width = width;
        self.height = height;
        self.configure_buffers(surface)
    }

    /// Locks a CPU-writable buffer with this manager's geometry and the
    /// host's stride. Locking is not reentrant: a second lock before the
    /// matching unlock fails at the host.
    pub fn lock_buffer(&self, surface: &mut NativeSurface) -> (r: Result<
        SurfaceBuffer,
        RendererError,
    >)
        requires
            old(surface).wf(),
        ensures
            r == spec_lock_result(*self, *old(surface)),
            *final(surface) == if r is Ok {
                spec_after_lock(*old(surface))
            } else {
                *old(surface)
            },
    {
        if surface.valid && !surface.locked {
            surface.locked = true;
            Ok(
                SurfaceBuffer {
                    width: self.width,
                    height: self.height,
                    stride: surface.stride,
                    format: self.format,
                },
            )
        } else {
            Err(RendererError::LockFailed(surface.error_code))
        }
    }

    /// Releases the outstanding lock and queues the buffer for on-screen
    /// presentation.
    pub fn unlock_and_post(&self, surface: &mut NativeSurface) -> (r: Result<(), RendererError>)
        requires
            old(surface).wf(),
            old(surface).posted < 0xffff_ffff_ffff_ffff_u64,
        ensures
            r == spec_post_result(*old(surface)),
            *final(surface) == if r is Ok {
                NativeSurface {
                    locked: false,
                    posted: (old(surface).posted + 1) as u64,
                    ..*old(surface)
                }
            } else {
                *old(surface)
            },
    {
        if surface.valid && surface.locked {
            surface.locked = false;
            surface.posted = surface.posted + 1;
            Ok(())
        } else {
            Err(RendererError::PresentFailed(surface.error_code))
        }
    }

    /// Releases this manager's reference on the window handle. Consuming the
    /// manager makes the release happen exactly once per acquisition.
    pub fn release(self, surface: &mut NativeSurface)
        requires
            old(surface).refs > 0,
        ensures
            *final(surface) == (NativeSurface {
                refs: (old(surface).refs - 1) as u32,
                ..*old(surface)
            }),
    {
        surface.refs = surface.refs - 1;
    }

    /// The configured size.
    pub fn get_size(&self) -> (r: (i32, i32))
        ensures
            r.0 == self.width,
            r.1 == self.height,
    {
        (self.width, self.height)
    }

    /// The configured pixel format.
    pub fn get_format(&self) -> (r: i32)
        ensures
            r == self.format,
    {
        self.format
    }
}

/// Law: once geometry configuration has succeeded — which it does exactly
/// while the host considers the surface usable, a condition no operation
/// here changes — a lock with no lock outstanding succeeds, and the
/// unlock-and-post on the locked surface succeeds in turn: the pair never
/// errors, whatever the configured width and height.
pub proof fn lemma_lock_then_post_never_errors(manager: GrallocManager, surface: NativeSurface)
    requires
        spec_configure_result(surface) is Ok,
        !surface.locked,
    ensures
        spec_lock_result(manager, surface) is Ok,
        spec_post_result(spec_after_lock(surface)) is Ok,
{
}

} // verus!
