//! The composition point: routing between the legacy renderer function
//! table and the session state machine.
//!
//! The renderer boots once per process; window churn afterward is cheap.
//! The selector decides, per window-attach event, whether the event performs
//! the full first-time bring-up — launching the guest container and the
//! input subsystem, then starting a session — or only re-attaches the window
//! to the session that already runs. It also fixes which renderer
//! implementation serves the process; the choice cannot change once a
//! session has started.

use vstd::prelude::*;

verus! {

/// Which renderer implementation serves the process.
#[derive(Clone, Copy, Debug, PartialEq, Eq, Structural)]
pub enum RendererKind {
    /// The session state machine over the guest transport.
    New,
    /// The closed legacy renderer, reached through its function table.
    Legacy,
}

/// What one window-attach event must do.
#[derive(Clone, Copy, Debug, PartialEq, Eq, Structural)]
pub enum AttachAction {
    /// First attach: launch the guest container and the input subsystem,
    /// then perform the full session start.
    StartSession,
    /// The renderer already started: swap the window in and push the new
    /// geometry, reusing the existing channel.
    Reattach,
}

/// The once-per-process routing state.
pub struct RendererSelector {
    /// Whether the session state machine, rather than the legacy function
    /// table, serves this process.
    pub use_new_renderer: bool,
    /// Whether the first-time bring-up has been claimed by an attach event.
    pub started: bool,
}

impl RendererSelector {
    /// A selector that has not yet seen an attach event.
    pub fn new(use_new_renderer: bool) -> (r: RendererSelector)
        ensures
            r.use_new_renderer == use_new_renderer,
            !r.started,
    {
        RendererSelector { use_new_renderer, started: false }
    }

    /// Which implementation this process renders with.
    pub fn select(&self) -> (r: RendererKind)
        ensures
            r == if self.use_new_renderer {
                RendererKind::New
            } else {
                RendererKind::Legacy
            },
    {
        if self.use_new_renderer {
            RendererKind::New
        } else {
            RendererKind::Legacy
        }
    }

    /// Chooses the implementation; the selection is made before the first
    /// attach and never changes mid-session.
    pub fn select_renderer_mode(&mut self, use_new_renderer: bool)
        requires
            !old(self).started,
        ensures
            final(self).use_new_renderer == use_new_renderer,
            !final(self).started,
    {
        self.use_new_renderer = use_new_renderer;
    }

    /// Routes one window-attach event: exactly the first event claims the
    /// full bring-up, and every later one re-attaches.
    pub fn on_window_attach(&mut self) -> (r: AttachAction)
        ensures
            final(self).use_new_renderer == old(self).use_new_renderer,
            final(self).started,
            r == if old(self).started {
                AttachAction::Reattach
            } else {
                AttachAction::StartSession
            },
    {
        if self.started {
            AttachAction::Reattach
        } else {
            self.started = true;
            AttachAction::StartSession
        }
    }
}

} // verus!
