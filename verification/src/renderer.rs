//! The renderer session state machine.
//!
//! A `Renderer` owns at most one live session: a negotiated context plus the
//! window handle and framebuffer geometry published to callers. The object's
//! existence is the "at most one session" invariant — the composition root
//! holds one `Renderer` and serializes every call into it. Each operation
//! records the control frames it sends, so the whole lifecycle of a session
//! stays visible in the contracts.

use vstd::prelude::*;

use crate::command::Command;
use crate::command::GLCommand;
use crate::command::spec_encode;
use crate::error::RendererError;
use crate::opengles::GLContext;
use crate::pipe::PipeDevice;
use crate::pipe::is_pipe_available;
use crate::pipe::spec_attempts;
use crate::pipe::spec_negotiated;

verus! {

/// The published state of one active session.
pub struct RendererState {
    /// The session's control context and channel.
    pub gl_context: GLContext,
    /// The host window handle, held as an opaque address; the host windowing
    /// system owns the surface behind it.
    pub window: u64,
    /// The framebuffer width last published.
    pub width: i32,
    /// The framebuffer height last published.
    pub height: i32,
}

/// The owner of at most one live session.
pub struct Renderer {
    /// The session, present exactly between a successful start and a
    /// destroy.
    pub state: Option<RendererState>,
    /// Every control frame sent over any session of this renderer, in order.
    pub history: Ghost<Seq<Command>>,
}

/// A live session always holds an initialized context, so a Destroy command
/// can be sent on teardown and never while uninitialized.
pub open spec fn wf(r: Renderer) -> bool {
    r.state matches Some(st) ==> st.gl_context.initialized
}

/// The Initialize frame a session start sends.
pub open spec fn start_frame(width: i32, height: i32, xdpi: i32, ydpi: i32, fps: i32) -> Command {
    Command::Initialize { width, height, xdpi, ydpi, fps }
}

/// The SetWindowSize frame a window reset sends.
pub open spec fn resize_frame(width: i32, height: i32, fb_width: i32, fb_height: i32) -> Command {
    Command::SetWindowSize { width, height, fb_width, fb_height }
}

/// What a start attempt returns on a device in the given condition: the
/// device must be present, and negotiation must find an endpoint.
pub open spec fn spec_start_outcome(device: PipeDevice) -> Result<(), RendererError> {
    if !device.present {
        Err(RendererError::NotAvailable)
    } else if spec_negotiated(device) is None {
        Err(RendererError::NoEndpoint)
    } else {
        Ok(())
    }
}

impl Renderer {
    /// A renderer with no session and nothing sent.
    pub fn new() -> (r: Renderer)
        ensures
            r.state is None,
            r.history@ == Seq::<Command>::empty(),
            wf(r),
    {
        Renderer { state: None, history: Ghost(Seq::empty()) }
    }

    /// Whether a session is active.
    pub fn is_active(&self) -> (r: bool)
        ensures
            r == (self.state is Some),
    {
        self.state.is_some()
    }
}

/// Starts a session: checks transport availability, negotiates a channel,
/// sends Initialize, and only then publishes the session state. A failure at
/// any step leaves the renderer exactly as it was, so a retried start
/// behaves like the first attempt.
pub fn start_renderer(
    r: &mut Renderer,
    device: &mut PipeDevice,
    window: u64,
    width: i32,
    height: i32,
    xdpi: i32,
    ydpi: i32,
    fps: i32,
) -> (res: Result<(), RendererError>)
    requires
        old(r).state is None,
        wf(*old(r)),
    ensures
        wf(*final(r)),
        final(device).present == old(device).present,
        final(device).accepts_es3 == old(device).accepts_es3,
        final(device).accepts_es2 == old(device).accepts_es2,
        final(device).accepts_es1 == old(device).accepts_es1,
        final(device).healthy == old(device).healthy,
        res == spec_start_outcome(*old(device)),
        match res {
            Ok(()) => {
                &&& final(device).connect_log@ == old(device).connect_log@ + spec_attempts(
                    *old(device),
                )
                &&& final(r).history@ == old(r).history@ + seq![
                    start_frame(width, height, xdpi, ydpi, fps),
                ]
                &&& final(r).state matches Some(st) && {
                    &&& st.window == window
                    &&& st.width == width
                    &&& st.height == height
                    &&& st.gl_context.initialized
                    &&& st.gl_context.width == width
                    &&& st.gl_context.height == height
                    &&& Some(st.gl_context.pipe.endpoint) == spec_negotiated(*old(device))
                    &&& st.gl_context.pipe.sent@ == st.gl_context.pipe.endpoint.spec_name_bytes()
                        + spec_encode(start_frame(width, height, xdpi, ydpi, fps))
                }
            },
            Err(_) => {
                &&& final(device).connect_log@ == old(device).connect_log@ + spec_attempts(
                    *old(device),
                )
                &&& *final(r) == *old(r)
            },
        },
{
    if !is_pipe_available(device) {
        return Err(RendererError::NotAvailable);
    }
    let mut gl_context = match GLContext::new(device) {
        Ok(ctx) => ctx,
        Err(_) => {
            return Err(RendererError::NoEndpoint);
        }
    };
    match gl_context.initialize(device, width, height, xdpi, ydpi, fps) {
        Ok(()) => {}
        Err(e) => {
            // A negotiated channel implies a healthy transport, so the
            // Initialize send cannot have failed here.
            proof {
                assert(false);
            }
            return Err(e);
        }
    }
    r.state = Some(RendererState { gl_context, window, width, height });
    proof {
        r.history@ = r.history@ + seq![start_frame(width, height, xdpi, ydpi, fps)];
    }
    Ok(())
}

/// Replaces the stored window handle without touching the channel; with no
/// active session nothing is stored and the call fails with `NotStarted`.
pub fn set_native_window(r: &mut Renderer, window: u64) -> (res: Result<(), RendererError>)
    requires
        wf(*old(r)),
    ensures
        wf(*final(r)),
        final(r).history == old(r).history,
        match res {
            Ok(()) => {
                &&& old(r).state matches Some(st) && final(r).state == Some(
                    RendererState { window, ..st },
                )
            },
            Err(e) => {
                &&& e == RendererError::NotStarted
                &&& old(r).state is None
                &&& *final(r) == *old(r)
            },
        },
{
    match &mut r.state {
        Some(st) => {
            st.window = window;
            Ok(())
        }
        None => Err(RendererError::NotStarted),
    }
}

/// Updates the stored window handle and framebuffer geometry, then sends
/// SetWindowSize on the session's channel. The stored geometry is updated
/// before the send goes out, to keep the legacy handle-swap ordering: when
/// the send fails the published geometry and the guest's last-known geometry
/// deliberately diverge, and the session stays alive. With no active session
/// the call fails with `NotStarted` and stores nothing.
pub fn reset_window(
    r: &mut Renderer,
    device: &PipeDevice,
    window: u64,
    _wx: i32,
    _wy: i32,
    width: i32,
    height: i32,
    fb_width: i32,
    fb_height: i32,
) -> (res: Result<(), RendererError>)
    requires
        wf(*old(r)),
    ensures
        wf(*final(r)),
        match res {
            Ok(()) => {
                &&& device.healthy
                &&& old(r).state is Some
                &&& final(r).state matches Some(st) && {
                    &&& old(r).state matches Some(prev) && {
                        &&& st.window == window
                        &&& st.width == fb_width
                        &&& st.height == fb_height
                        &&& st.gl_context.width == fb_width
                        &&& st.gl_context.height == fb_height
                        &&& st.gl_context.initialized == prev.gl_context.initialized
                        &&& st.gl_context.pipe.endpoint == prev.gl_context.pipe.endpoint
                        &&& st.gl_context.pipe.sent@ == prev.gl_context.pipe.sent@ + spec_encode(
                            resize_frame(width, height, fb_width, fb_height),
                        )
                    }
                }
                &&& final(r).history@ == old(r).history@ + seq![
                    resize_frame(width, height, fb_width, fb_height),
                ]
            },
            Err(RendererError::NotStarted) => {
                &&& old(r).state is None
                &&& *final(r) == *old(r)
            },
            Err(RendererError::IoError) => {
                &&& !device.healthy
                &&& old(r).state is Some
                &&& final(r).history == old(r).history
                &&& final(r).state matches Some(st) && {
                    &&& old(r).state matches Some(prev) && {
                        &&& st.window == window
                        &&& st.width == fb_width
                        &&& st.height == fb_height
                        &&& st.gl_context == prev.gl_context
                    }
                }
            },
            Err(_) => false,
        },
{
    match &mut r.state {
        Some(st) => {
            st.window = window;
            st.width = fb_width;
            st.height = fb_height;
            match st.gl_context.set_window_size(device, width, height, fb_width, fb_height) {
                Ok(()) => {
                    proof {
                        r.history@ = r.history@ + seq![
                            resize_frame(width, height, fb_width, fb_height),
                        ];
                    }
                    Ok(())
                }
                Err(e) => Err(e),
            }
        }
        None => Err(RendererError::NotStarted),
    }
}

/// Acknowledges removal of the window while keeping the session alive for a
/// later re-attach; nothing goes out on the wire. With no active session the
/// call fails with `NotStarted`.
pub fn remove_window(r: &mut Renderer, _window: u64) -> (res: Result<(), RendererError>)
    requires
        wf(*old(r)),
    ensures
        wf(*final(r)),
        *final(r) == *old(r),
        match res {
            Ok(()) => old(r).state is Some,
            Err(e) => e == RendererError::NotStarted && old(r).state is None,
        },
{
    match &r.state {
        Some(_) => Ok(()),
        None => Err(RendererError::NotStarted),
    }
}

/// Tears the session down: the session is unpublished either way, and on a
/// healthy transport exactly one Destroy frame goes out. A second call
/// observes no session and fails with `NotStarted` without sending anything.
pub fn destroy_subwindow(r: &mut Renderer, device: &PipeDevice) -> (res: Result<
    (),
    RendererError,
>)
    requires
        wf(*old(r)),
    ensures
        wf(*final(r)),
        final(r).state is None,
        match res {
            Ok(()) => {
                &&& device.healthy
                &&& old(r).state is Some
                &&& final(r).history@ == old(r).history@ + seq![Command::Destroy]
            },
            Err(RendererError::NotStarted) => {
                &&& old(r).state is None
                &&& *final(r) == *old(r)
            },
            Err(RendererError::IoError) => {
                &&& !device.healthy
                &&& old(r).state is Some
                &&& final(r).history == old(r).history
            },
            Err(_) => false,
        },
{
    let result;
    match &mut r.state {
        Some(st) => {
            result = st.gl_context.destroy(device);
        }
        None => {
            return Err(RendererError::NotStarted);
        }
    }
    r.state = None;
    match result {
        Ok(()) => {
            proof {
                r.history@ = r.history@ + seq![Command::Destroy];
            }
            Ok(())
        }
        Err(e) => Err(e),
    }
}

/// Sends a Repaint on the session's channel; a failure leaves the session in
/// its last-known-good state rather than tearing it down. With no active
/// session the call fails with `NotStarted`.
pub fn repaint_display(r: &mut Renderer, device: &PipeDevice) -> (res: Result<
    (),
    RendererError,
>)
    requires
        wf(*old(r)),
    ensures
        wf(*final(r)),
        match res {
            Ok(()) => {
                &&& device.healthy
                &&& old(r).state is Some
                &&& final(r).history@ == old(r).history@ + seq![Command::Repaint]
                &&& final(r).state matches Some(st) && {
                    &&& old(r).state matches Some(prev) && {
                        &&& st.window == prev.window
                        &&& st.width == prev.width
                        &&& st.height == prev.height
                        &&& st.gl_context.pipe.sent@ == prev.gl_context.pipe.sent@ + spec_encode(
                            Command::Repaint,
                        )
                    }
                }
            },
            Err(RendererError::NotStarted) => {
                &&& old(r).state is None
                &&& *final(r) == *old(r)
            },
            Err(RendererError::IoError) => {
                &&& !device.healthy
                &&& *final(r) == *old(r)
            },
            Err(_) => false,
        },
{
    match &mut r.state {
        Some(st) => {
            match st.gl_context.repaint(device) {
                Ok(()) => {
                    proof {
                        r.history@ = r.history@ + seq![Command::Repaint];
                    }
                    Ok(())
                }
                Err(e) => Err(e),
            }
        }
        None => Err(RendererError::NotStarted),
    }
}

/// Whether a frame is a lifecycle frame: an Initialize or a Destroy.
pub open spec fn is_lifecycle(c: Command) -> bool {
    c.spec_tag() == GLCommand::Initialize || c.spec_tag() == GLCommand::Destroy
}

/// How many frames of a log carry the given tag.
pub open spec fn count_tag(s: Seq<Command>, tag: GLCommand) -> int
    decreases s.len(),
{
    if s.len() == 0 {
        0
    } else {
        (if s[0].spec_tag() == tag {
            1int
        } else {
            0int
        }) + count_tag(s.drop_first(), tag)
    }
}

/// The lifecycle frames of a control-frame log, in order.
pub open spec fn lifecycle_of(s: Seq<Command>) -> Seq<Command>
    decreases s.len(),
{
    if s.len() == 0 {
        seq![]
    } else if is_lifecycle(s[0]) {
        seq![s[0]] + lifecycle_of(s.drop_first())
    } else {
        lifecycle_of(s.drop_first())
    }
}

pub proof fn lemma_lifecycle_of_concat(a: Seq<Command>, b: Seq<Command>)
    ensures
        lifecycle_of(a + b) == lifecycle_of(a) + lifecycle_of(b),
    decreases a.len(),
{
    if a.len() == 0 {
        assert(a + b =~= b);
        assert(lifecycle_of(a) + lifecycle_of(b) =~= lifecycle_of(b));
    } else {
        assert((a + b).drop_first() =~= a.drop_first() + b);
        lemma_lifecycle_of_concat(a.drop_first(), b);
        if is_lifecycle(a[0]) {
            assert(seq![a[0]] + (lifecycle_of(a.drop_first()) + lifecycle_of(b)) =~= (seq![a[0]]
                + lifecycle_of(a.drop_first())) + lifecycle_of(b));
        }
    }
}

pub proof fn lemma_lifecycle_of_non_lifecycle(s: Seq<Command>)
    requires
        forall|i: int| 0 <= i < s.len() ==> !is_lifecycle(#[trigger] s[i]),
    ensures
        lifecycle_of(s) == Seq::<Command>::empty(),
    decreases s.len(),
{
    if s.len() != 0 {
        lemma_lifecycle_of_non_lifecycle(s.drop_first());
    }
}

/// Law: a session that starts, resizes any number of times, and is then
/// destroyed sends exactly one Initialize and exactly one Destroy, in that
/// order, and no lifecycle frame anywhere else in the run. The three
/// premises are exactly what the contracts of `start_renderer`,
/// `reset_window` and `destroy_subwindow` say those operations append to the
/// renderer's control-frame log.
pub proof fn lemma_exactly_one_initialize_and_destroy(
    init: Command,
    resizes: Seq<Command>,
    last: Command,
)
    requires
        init.spec_tag() == GLCommand::Initialize,
        forall|i: int|
            0 <= i < resizes.len() ==> (#[trigger] resizes[i]).spec_tag()
                == GLCommand::SetWindowSize,
        last.spec_tag() == GLCommand::Destroy,
    ensures
        lifecycle_of(seq![init] + resizes + seq![last]) == seq![init, last],
        count_tag(seq![init] + resizes + seq![last], GLCommand::Initialize) == 1,
        count_tag(seq![init] + resizes + seq![last], GLCommand::Destroy) == 1,
{
    lemma_lifecycle_of_concat(seq![init] + resizes, seq![last]);
    lemma_lifecycle_of_concat(seq![init], resizes);
    lemma_lifecycle_of_non_lifecycle(resizes);
    assert(seq![init].drop_first() =~= Seq::<Command>::empty());
    assert(seq![last].drop_first() =~= Seq::<Command>::empty());
    assert(lifecycle_of(Seq::<Command>::empty()) =~= Seq::<Command>::empty()) by {
        reveal_with_fuel(lifecycle_of, 2);
    }
    assert(lifecycle_of(seq![init]) =~= seq![init]);
    assert(lifecycle_of(seq![last]) =~= seq![last]);
    assert(lifecycle_of(seq![init] + resizes + seq![last]) =~= seq![init, last]);
    lemma_count_follows_lifecycle(seq![init] + resizes + seq![last], GLCommand::Initialize);
    lemma_count_follows_lifecycle(seq![init] + resizes + seq![last], GLCommand::Destroy);
    assert(count_tag(seq![init, last], GLCommand::Initialize) == 1) by {
        reveal_with_fuel(count_tag, 3);
        assert(seq![init, last].drop_first() =~= seq![last]);
        assert(seq![last].drop_first() =~= Seq::<Command>::empty());
    }
    assert(count_tag(seq![init, last], GLCommand::Destroy) == 1) by {
        reveal_with_fuel(count_tag, 3);
        assert(seq![init, last].drop_first() =~= seq![last]);
        assert(seq![last].drop_first() =~= Seq::<Command>::empty());
    }
}

/// A log and its lifecycle frames hold Initialize and Destroy frames in the
/// same number.
proof fn lemma_count_follows_lifecycle(s: Seq<Command>, tag: GLCommand)
    requires
        tag == GLCommand::Initialize || tag == GLCommand::Destroy,
    ensures
        count_tag(s, tag) == count_tag(lifecycle_of(s), tag),
    decreases s.len(),
{
    if s.len() != 0 {
        lemma_count_follows_lifecycle(s.drop_first(), tag);
        if is_lifecycle(s[0]) {
            assert((seq![s[0]] + lifecycle_of(s.drop_first())).drop_first() =~= lifecycle_of(
                s.drop_first(),
            ));
        }
    }
}

/// Law: a failed start is idempotent. A start attempt that fails leaves the
/// renderer untouched (the contract of `start_renderer` says so directly),
/// and its outcome depends only on the device's condition, not on the
/// connect attempts already recorded — so a retry under the same conditions
/// fails the same way, and a retry on a repaired device behaves like a first
/// start.
pub proof fn lemma_failed_start_idempotent(first: PipeDevice, second: PipeDevice)
    requires
        first.present == second.present,
        first.accepts_es3 == second.accepts_es3,
        first.accepts_es2 == second.accepts_es2,
        first.accepts_es1 == second.accepts_es1,
        first.healthy == second.healthy,
    ensures
        spec_start_outcome(second) == spec_start_outcome(first),
        spec_negotiated(second) == spec_negotiated(first),
        spec_attempts(second) == spec_attempts(first),
{
}

} // verus!
