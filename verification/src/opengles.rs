//! The OpenGL ES session-control context.
//!
//! A `GLContext` pairs one channel with the session's surface dimensions and
//! an `initialized` flag, and frames every lifecycle operation as one command
//! written and flushed on that channel. The protocol is fire-and-forget: no
//! acknowledgement is ever read back.

use vstd::prelude::*;

use crate::command::Command;
use crate::command::spec_encode;
use crate::error::RendererError;
use crate::pipe::PipeConnection;
use crate::pipe::PipeDevice;
use crate::pipe::create_opengles_connection;
use crate::pipe::spec_attempts;
use crate::pipe::spec_negotiated;

verus! {

/// One session-control context, owning its channel exclusively.
pub struct GLContext {
    /// The negotiated channel; closed when the context is dropped.
    pub pipe: PipeConnection,
    /// The framebuffer width the guest was last told.
    pub width: i32,
    /// The framebuffer height the guest was last told.
    pub height: i32,
    /// Whether an Initialize command has been sent and not yet followed by
    /// Destroy. A Destroy command is never sent while this is false.
    pub initialized: bool,
}

impl GLContext {
    /// Creates an uninitialized context on a freshly negotiated channel.
    pub fn new(device: &mut PipeDevice) -> (r: Result<GLContext, RendererError>)
        ensures
            final(device).present == old(device).present,
            final(device).accepts_es3 == old(device).accepts_es3,
            final(device).accepts_es2 == old(device).accepts_es2,
            final(device).accepts_es1 == old(device).accepts_es1,
            final(device).healthy == old(device).healthy,
            final(device).connect_log@ == old(device).connect_log@ + spec_attempts(*old(device)),
            match r {
                Ok(ctx) => {
                    &&& spec_negotiated(*old(device)) == Some(ctx.pipe.endpoint)
                    &&& ctx.pipe.sent@ == ctx.pipe.endpoint.spec_name_bytes()
                    &&& ctx.width == 0
                    &&& ctx.height == 0
                    &&& !ctx.initialized
                },
                Err(e) => {
                    &&& e == RendererError::NoEndpoint
                    &&& spec_negotiated(*old(device)) is None
                },
            },
    {
        let pipe = create_opengles_connection(device)?;
        Ok(GLContext { pipe, width: 0, height: 0, initialized: false })
    }

    /// Sends one command and flushes, leaving everything but the channel's
    /// sent bytes unchanged; on an unhealthy transport nothing is sent.
    fn send_command(&mut self, device: &PipeDevice, command: &Command) -> (r: Result<
        (),
        RendererError,
    >)
        ensures
            final(self).width == old(self).width,
            final(self).height == old(self).height,
            final(self).initialized == old(self).initialized,
            final(self).pipe.endpoint == old(self).pipe.endpoint,
            final(self).pipe.inbound == old(self).pipe.inbound,
            match r {
                Ok(()) => {
                    &&& device.healthy
                    &&& final(self).pipe.sent@ == old(self).pipe.sent@ + spec_encode(*command)
                },
                Err(e) => {
                    &&& e == RendererError::IoError
                    &&& !device.healthy
                    &&& final(self).pipe.sent == old(self).pipe.sent
                },
            },
    {
        let frame = command.encode();
        self.pipe.write_all(device, frame.as_slice())?;
        self.pipe.flush(device)?;
        Ok(())
    }

    /// Initializes the session: sends the Initialize command with the given
    /// geometry, and only on success records the dimensions and marks the
    /// context initialized.
    pub fn initialize(
        &mut self,
        device: &PipeDevice,
        width: i32,
        height: i32,
        xdpi: i32,
        ydpi: i32,
        fps: i32,
    ) -> (r: Result<(), RendererError>)
        ensures
            final(self).pipe.endpoint == old(self).pipe.endpoint,
            final(self).pipe.inbound == old(self).pipe.inbound,
            match r {
                Ok(()) => {
                    &&& device.healthy
                    &&& final(self).pipe.sent@ == old(self).pipe.sent@ + spec_encode(
                        Command::Initialize { width, height, xdpi, ydpi, fps },
                    )
                    &&& final(self).width == width
                    &&& final(self).height == height
                    &&& final(self).initialized
                },
                Err(e) => {
                    &&& e == RendererError::IoError
                    &&& !device.healthy
                    &&& final(self).pipe.sent == old(self).pipe.sent
                    &&& final(self).width == old(self).width
                    &&& final(self).height == old(self).height
                    &&& final(self).initialized == old(self).initialized
                },
            },
    {
        let command = Command::Initialize { width, height, xdpi, ydpi, fps };
        self.send_command(device, &command)?;
        self.width = width;
        self.height = height;
        self.initialized = true;
        Ok(())
    }

    /// Sends the SetWindowSize command with the surface and framebuffer
    /// geometry, and on success records the framebuffer dimensions.
    pub fn set_window_size(
        &mut self,
        device: &PipeDevice,
        width: i32,
        height: i32,
        fb_width: i32,
        fb_height: i32,
    ) -> (r: Result<(), RendererError>)
        ensures
            final(self).pipe.endpoint == old(self).pipe.endpoint,
            final(self).pipe.inbound == old(self).pipe.inbound,
            final(self).initialized == old(self).initialized,
            match r {
                Ok(()) => {
                    &&& device.healthy
                    &&& final(self).pipe.sent@ == old(self).pipe.sent@ + spec_encode(
                        Command::SetWindowSize { width, height, fb_width, fb_height },
                    )
                    &&& final(self).width == fb_width
                    &&& final(self).height == fb_height
                },
                Err(e) => {
                    &&& e == RendererError::IoError
                    &&& !device.healthy
                    &&& final(self).pipe.sent == old(self).pipe.sent
                    &&& final(self).width == old(self).width
                    &&& final(self).height == old(self).height
                },
            },
    {
        let command = Command::SetWindowSize { width, height, fb_width, fb_height };
        self.send_command(device, &command)?;
        self.width = fb_width;
        self.height = fb_height;
        Ok(())
    }

    /// Sends the SwapBuffers command.
    pub fn swap_buffers(&mut self, device: &PipeDevice) -> (r: Result<(), RendererError>)
        ensures
            final(self).width == old(self).width,
            final(self).height == old(self).height,
            final(self).initialized == old(self).initialized,
            final(self).pipe.endpoint == old(self).pipe.endpoint,
            final(self).pipe.inbound == old(self).pipe.inbound,
            match r {
                Ok(()) => device.healthy && final(self).pipe.sent@ == old(self).pipe.sent@
                    + spec_encode(Command::SwapBuffers),
                Err(e) => {
                    &&& e == RendererError::IoError
                    &&& !device.healthy
                    &&& final(self).pipe.sent == old(self).pipe.sent
                },
            },
    {
        self.send_command(device, &Command::SwapBuffers)
    }

    /// Sends the Repaint command.
    pub fn repaint(&mut self, device: &PipeDevice) -> (r: Result<(), RendererError>)
        ensures
            final(self).width == old(self).width,
            final(self).height == old(self).height,
            final(self).initialized == old(self).initialized,
            final(self).pipe.endpoint == old(self).pipe.endpoint,
            final(self).pipe.inbound == old(self).pipe.inbound,
            match r {
                Ok(()) => device.healthy && final(self).pipe.sent@ == old(self).pipe.sent@
                    + spec_encode(Command::Repaint),
                Err(e) => {
                    &&& e == RendererError::IoError
                    &&& !device.healthy
                    &&& final(self).pipe.sent == old(self).pipe.sent
                },
            },
    {
        self.send_command(device, &Command::Repaint)
    }

    /// Tears the session down: sends the Destroy command and clears the
    /// initialized flag only once the send went through, so Destroy goes out
    /// at most once per initialized transition and never while uninitialized.
    pub fn destroy(&mut self, device: &PipeDevice) -> (r: Result<(), RendererError>)
        requires
            old(self).initialized,
        ensures
            final(self).width == old(self).width,
            final(self).height == old(self).height,
            final(self).pipe.endpoint == old(self).pipe.endpoint,
            final(self).pipe.inbound == old(self).pipe.inbound,
            match r {
                Ok(()) => {
                    &&& device.healthy
                    &&& final(self).pipe.sent@ == old(self).pipe.sent@ + spec_encode(
                        Command::Destroy,
                    )
                    &&& !final(self).initialized
                },
                Err(e) => {
                    &&& e == RendererError::IoError
                    &&& !device.healthy
                    &&& final(self).pipe.sent == old(self).pipe.sent
                    &&& final(self).initialized
                },
            },
    {
        self.send_command(device, &Command::Destroy)?;
        self.initialized = false;
        Ok(())
    }

    /// Whether an Initialize has been sent and not yet followed by Destroy.
    pub fn is_initialized(&self) -> (r: bool)
        ensures
            r == self.initialized,
    {
        self.initialized
    }
}

} // verus!
