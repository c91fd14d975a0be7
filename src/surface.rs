//! The per-output surface controller, the session that routes events to the
//! controllers, and the discipline of the single rendering context.
//!
//! Each controller decides, from its state and one event, its next state and
//! the one action that the caller must perform on the display connection and
//! the GPU context.

use vstd::prelude::*;

use std::collections::HashMap;

use crate::wallpaper::Wallpaper;

verus! {

broadcast use vstd::std_specs::hash::group_hash_axioms;

/// The width a controller asks for when its output reports none.
pub const DEFAULT_WIDTH: u32 = 1280;

/// The height a controller asks for when its output reports none.
pub const DEFAULT_HEIGHT: u32 = 720;

/// Where a controller stands in the life of its surface.
#[derive(Debug, Clone, Copy, PartialEq, Eq, Structural)]
pub enum SurfaceState {
    Created,
    AwaitingFirstConfigure,
    Active,
    Closed,
}

/// Why drawing a frame failed.
#[derive(Debug, Clone, Copy, PartialEq, Eq, Structural)]
pub enum SurfaceError {
    /// The GPU context could not be bound to the drawing surface.
    ContextBind,
    /// The buffers could not be swapped.
    Swap,
}

/// What the compositor, or the caller's own draw, reports for one output.
#[derive(Debug, Clone, Copy, PartialEq, Eq, Structural)]
pub enum SurfaceEvent {
    /// A configure event; a zero dimension leaves the choice to the client.
    Configure { width: u32, height: u32 },
    /// The compositor is ready for the next frame.
    FrameAvailable,
    /// The compositor closed the layer surface.
    Closed,
    /// The output went away.
    OutputRemoved,
    /// A draw that this controller asked for failed.
    DrawFailed(SurfaceError),
}

/// What the caller must do next for one output.
#[derive(Debug, Clone, Copy, PartialEq, Eq, Structural)]
pub enum SurfaceAction {
    Nothing,
    /// Create a background layer surface anchored to all edges of the output,
    /// with no exclusive zone and no keyboard interactivity, at this size,
    /// and its drawing surface.
    CreateSurface { width: u32, height: u32 },
    /// Bind the context, render, damage the whole surface, swap, unbind,
    /// request the next frame and commit, at this size.
    Draw { width: u32, height: u32 },
    /// Release the drawing surface and the layer surface.
    Release,
}

/// The surface of one output and the wallpaper it shows.
pub struct SurfaceController {
    pub output_id: u64,
    pub state: SurfaceState,
    pub width: u32,
    pub height: u32,
    /// The number of draws issued, saturating.
    pub frames: u64,
    pub wallpaper: Option<Wallpaper>,
}

/// The value of a controller, with only whether it holds a wallpaper.
#[derive(Clone, Copy)]
pub struct ControllerView {
    pub output_id: u64,
    pub state: SurfaceState,
    pub width: u32,
    pub height: u32,
    pub frames: u64,
    pub has_wallpaper: bool,
}

impl View for SurfaceController {
    type V = ControllerView;

    open spec fn view(&self) -> ControllerView {
        ControllerView {
            output_id: self.output_id,
            state: self.state,
            width: self.width,
            height: self.height,
            frames: self.frames,
            has_wallpaper: self.wallpaper is Some,
        }
    }
}

/// The frame counter after one more draw.
pub open spec fn tick(n: u64) -> u64 {
    if n < u64::MAX {
        (n + 1) as u64
    } else {
        n
    }
}

/// `v` after a configure event: a zero dimension keeps the current one.
pub open spec fn resized(v: ControllerView, width: u32, height: u32) -> ControllerView {
    ControllerView {
        width: if width != 0 { width } else { v.width },
        height: if height != 0 { height } else { v.height },
        ..v
    }
}

/// A draw, where there is a wallpaper to draw.
pub open spec fn draw_if_ready(v: ControllerView) -> (ControllerView, SurfaceAction) {
    if v.has_wallpaper {
        (ControllerView { frames: tick(v.frames), ..v }, SurfaceAction::Draw { width: v.width, height: v.height })
    } else {
        (v, SurfaceAction::Nothing)
    }
}

/// `v`, closed.
pub open spec fn closed(v: ControllerView) -> ControllerView {
    ControllerView { state: SurfaceState::Closed, ..v }
}

/// Whether an event ends the life of a surface.
pub open spec fn is_terminal(e: SurfaceEvent) -> bool {
    match e {
        SurfaceEvent::Closed | SurfaceEvent::OutputRemoved | SurfaceEvent::DrawFailed(_) => true,
        _ => false,
    }
}

/// The transition of a controller on one event, and the action it asks for.
pub open spec fn step(v: ControllerView, e: SurfaceEvent) -> (ControllerView, SurfaceAction) {
    match v.state {
        SurfaceState::Closed => (v, SurfaceAction::Nothing),
        SurfaceState::Created => if is_terminal(e) {
            (closed(v), SurfaceAction::Nothing)
        } else {
            (v, SurfaceAction::Nothing)
        },
        SurfaceState::AwaitingFirstConfigure => match e {
            SurfaceEvent::Configure { width, height } => draw_if_ready(
                ControllerView { state: SurfaceState::Active, ..resized(v, width, height) },
            ),
            SurfaceEvent::FrameAvailable => (v, SurfaceAction::Nothing),
            _ => (closed(v), SurfaceAction::Release),
        },
        SurfaceState::Active => match e {
            SurfaceEvent::Configure { width, height } => (resized(v, width, height), SurfaceAction::Nothing),
            SurfaceEvent::FrameAvailable => draw_if_ready(v),
            _ => (closed(v), SurfaceAction::Release),
        },
    }
}

/// A controller after one event: the transition of its value, with its
/// output and its wallpaper kept.
pub open spec fn stepped(c: SurfaceController, e: SurfaceEvent) -> (SurfaceController, SurfaceAction) {
    let (v, a) = step(c@, e);
    (SurfaceController { state: v.state, width: v.width, height: v.height, frames: v.frames, ..c }, a)
}

/// A controller after it is given the wallpaper `w`.
pub open spec fn assigned(c: SurfaceController, w: Wallpaper) -> (SurfaceController, SurfaceAction) {
    if c.state == SurfaceState::Closed {
        (c, SurfaceAction::Nothing)
    } else if c.state == SurfaceState::Active && c.wallpaper is None {
        (
            SurfaceController { frames: tick(c.frames), wallpaper: Some(w), ..c },
            SurfaceAction::Draw { width: c.width, height: c.height },
        )
    } else {
        (SurfaceController { wallpaper: Some(w), ..c }, SurfaceAction::Nothing)
    }
}

impl SurfaceController {
    /// A controller for an output of the given logical size; a zero
    /// dimension is replaced by the default one.
    pub fn new(output_id: u64, width: u32, height: u32) -> (r: SurfaceController)
        ensures
            r@ == (ControllerView {
                output_id,
                state: SurfaceState::Created,
                width: if width != 0 { width } else { DEFAULT_WIDTH },
                height: if height != 0 { height } else { DEFAULT_HEIGHT },
                frames: 0,
                has_wallpaper: false,
            }),
    {
        SurfaceController {
            output_id,
            state: SurfaceState::Created,
            width: if width != 0 { width } else { DEFAULT_WIDTH },
            height: if height != 0 { height } else { DEFAULT_HEIGHT },
            frames: 0,
            wallpaper: None,
        }
    }

    /// Asks for the surface to be created, once.
    pub fn request_surface(&mut self) -> (r: SurfaceAction)
        ensures
            old(self).state == SurfaceState::Created ==> r == (SurfaceAction::CreateSurface {
                width: old(self).width,
                height: old(self).height,
            }) && final(self)@ == (ControllerView { state: SurfaceState::AwaitingFirstConfigure, ..old(self)@ }),
            old(self).state != SurfaceState::Created ==> r == SurfaceAction::Nothing && final(self)@ == old(self)@,
            final(self).wallpaper == old(self).wallpaper,
    {
        if self.state == SurfaceState::Created {
            self.state = SurfaceState::AwaitingFirstConfigure;
            SurfaceAction::CreateSurface { width: self.width, height: self.height }
        } else {
            SurfaceAction::Nothing
        }
    }

    /// Counts a draw and asks for it.
    fn issue_draw(&mut self) -> (r: SurfaceAction)
        requires
            old(self).wallpaper is Some,
        ensures
            (final(self)@, r) == draw_if_ready(old(self)@),
            final(self).wallpaper == old(self).wallpaper,
    {
        if self.frames < u64::MAX {
            self.frames = self.frames + 1;
        }
        SurfaceAction::Draw { width: self.width, height: self.height }
    }

    /// Applies one event.
    pub fn handle(&mut self, e: SurfaceEvent) -> (r: SurfaceAction)
        ensures
            (final(self)@, r) == step(old(self)@, e),
            (*final(self), r) == stepped(*old(self), e),
    {
        match self.state {
            SurfaceState::Closed => SurfaceAction::Nothing,
            SurfaceState::Created => {
                match e {
                    SurfaceEvent::Configure { .. } | SurfaceEvent::FrameAvailable => {},
                    _ => {
                        self.state = SurfaceState::Closed;
                    },
                }
                SurfaceAction::Nothing
            },
            SurfaceState::AwaitingFirstConfigure => match e {
                SurfaceEvent::Configure { width, height } => {
                    self.resize(width, height);
                    self.state = SurfaceState::Active;
                    if self.wallpaper.is_some() {
                        self.issue_draw()
                    } else {
                        SurfaceAction::Nothing
                    }
                },
                SurfaceEvent::FrameAvailable => SurfaceAction::Nothing,
                _ => {
                    self.state = SurfaceState::Closed;
                    SurfaceAction::Release
                },
            },
            SurfaceState::Active => match e {
                SurfaceEvent::Configure { width, height } => {
                    self.resize(width, height);
                    SurfaceAction::Nothing
                },
                SurfaceEvent::FrameAvailable => {
                    if self.wallpaper.is_some() {
                        self.issue_draw()
                    } else {
                        SurfaceAction::Nothing
                    }
                },
                _ => {
                    self.state = SurfaceState::Closed;
                    SurfaceAction::Release
                },
            },
        }
    }

    /// Takes the non-zero dimensions of a configure event.
    fn resize(&mut self, width: u32, height: u32)
        ensures
            final(self)@ == resized(old(self)@, width, height),
            final(self).wallpaper == old(self).wallpaper,
    {
        if width != 0 {
            self.width = width;
        }
        if height != 0 {
            self.height = height;
        }
    }

    /// Gives the controller a wallpaper, replacing any it had. An active
    /// controller that had none starts drawing at once; a closed one keeps
    /// none.
    pub fn assign_wallpaper(&mut self, w: Wallpaper) -> (r: SurfaceAction)
        ensures
            old(self).state == SurfaceState::Closed ==> *final(self) == *old(self) && r == SurfaceAction::Nothing,
            old(self).state != SurfaceState::Closed ==> final(self).wallpaper == Some(w),
            old(self).state == SurfaceState::Active && old(self).wallpaper is None ==> (final(self)@, r)
                == draw_if_ready(ControllerView { has_wallpaper: true, ..old(self)@ }),
            old(self).state != SurfaceState::Closed && !(old(self).state == SurfaceState::Active
                && old(self).wallpaper is None) ==> r == SurfaceAction::Nothing && final(self)@ == (
            ControllerView { has_wallpaper: true, ..old(self)@ }),
            (*final(self), r) == assigned(*old(self), w),
    {
        if self.state == SurfaceState::Closed {
            return SurfaceAction::Nothing;
        }
        let start = self.state == SurfaceState::Active && self.wallpaper.is_none();
        self.wallpaper = Some(w);
        if start {
            self.issue_draw()
        } else {
            SurfaceAction::Nothing
        }
    }
}

/// The live controllers, each under the identity of its output. A
/// controller leaves the session when it closes, and gets no more events.
pub struct Session {
    pub controllers: HashMap<u64, SurfaceController>,
}

/// The controllers after an event for `output_id`, and the action asked for.
pub open spec fn session_step(m: Map<u64, SurfaceController>, output_id: u64, e: SurfaceEvent) -> (
    Map<u64, SurfaceController>,
    SurfaceAction,
) {
    if m.contains_key(output_id) {
        let (c, a) = stepped(m[output_id], e);
        if c.state == SurfaceState::Closed {
            (m.remove(output_id), a)
        } else {
            (m.insert(output_id, c), a)
        }
    } else {
        (m, SurfaceAction::Nothing)
    }
}

/// The controller that a new output of the given logical size starts with,
/// once its surface is asked for.
pub open spec fn fresh_controller(output_id: u64, width: u32, height: u32) -> SurfaceController {
    SurfaceController {
        output_id,
        state: SurfaceState::AwaitingFirstConfigure,
        width: if width != 0 { width } else { DEFAULT_WIDTH },
        height: if height != 0 { height } else { DEFAULT_HEIGHT },
        frames: 0,
        wallpaper: None,
    }
}

impl Session {
    /// Each controller is filed under its own output, and none is closed.
    pub open spec fn wf(&self) -> bool {
        forall|id: u64| #[trigger]
            self.controllers@.contains_key(id) ==> self.controllers@[id].output_id == id
                && self.controllers@[id].state != SurfaceState::Closed
    }

    /// A session with no outputs yet.
    pub fn new() -> (r: Session)
        ensures
            r.wf(),
            r.controllers@ == Map::<u64, SurfaceController>::empty(),
    {
        Session { controllers: HashMap::new() }
    }

    /// Whether every controller has closed, so that the loop may end.
    pub fn is_finished(&self) -> (r: bool)
        ensures
            r == (self.controllers@.len() == 0),
    {
        self.controllers.len() == 0
    }

    /// The controller of `output_id`, if it is live.
    pub fn controller(&self, output_id: u64) -> (r: Option<&SurfaceController>)
        ensures
            r is None <==> !self.controllers@.contains_key(output_id),
            r matches Some(c) ==> *c == self.controllers@[output_id],
    {
        self.controllers.get(&output_id)
    }

    /// Starts a controller for a new output of the given logical size and
    /// asks for its surface. An output that already has one is left alone.
    pub fn add_output(&mut self, output_id: u64, width: u32, height: u32) -> (r: SurfaceAction)
        requires
            old(self).wf(),
        ensures
            final(self).wf(),
            old(self).controllers@.contains_key(output_id) ==> r == SurfaceAction::Nothing
                && final(self).controllers@ == old(self).controllers@,
            !old(self).controllers@.contains_key(output_id) ==> {
                let c = fresh_controller(output_id, width, height);
                &&& r == (SurfaceAction::CreateSurface { width: c.width, height: c.height })
                &&& final(self).controllers@ == old(self).controllers@.insert(output_id, c)
            },
    {
        if self.controllers.contains_key(&output_id) {
            return SurfaceAction::Nothing;
        }
        let mut c = SurfaceController::new(output_id, width, height);
        let r = c.request_surface();
        self.controllers.insert(output_id, c);
        r
    }

    /// Routes one event to the controller of `output_id`. A controller that
    /// closes leaves the session; an event for an output with no controller
    /// does nothing. No other controller changes.
    pub fn handle(&mut self, output_id: u64, e: SurfaceEvent) -> (r: SurfaceAction)
        requires
            old(self).wf(),
        ensures
            final(self).wf(),
            (final(self).controllers@, r) == session_step(old(self).controllers@, output_id, e),
    {
        let ghost m = self.controllers@;
        let mut c = match self.controllers.remove(&output_id) {
            Some(c) => c,
            None => {
                assert(self.controllers@ =~= m);
                return SurfaceAction::Nothing;
            },
        };
        let r = c.handle(e);
        if c.state != SurfaceState::Closed {
            self.controllers.insert(output_id, c);
            assert(self.controllers@ =~= m.insert(output_id, c));
        }
        r
    }

    /// Gives the controller of `output_id` a wallpaper; see
    /// `SurfaceController::assign_wallpaper`. Without a controller for that
    /// output the wallpaper is dropped. No other controller changes.
    pub fn assign_wallpaper(&mut self, output_id: u64, w: Wallpaper) -> (r: SurfaceAction)
        requires
            old(self).wf(),
        ensures
            final(self).wf(),
            !old(self).controllers@.contains_key(output_id) ==> r == SurfaceAction::Nothing
                && final(self).controllers@ == old(self).controllers@,
            old(self).controllers@.contains_key(output_id) ==> {
                let (c, a) = assigned(old(self).controllers@[output_id], w);
                &&& r == a
                &&& final(self).controllers@ == old(self).controllers@.insert(output_id, c)
                &&& c.wallpaper == Some(w)
            },
    {
        let ghost m = self.controllers@;
        let mut c = match self.controllers.remove(&output_id) {
            Some(c) => c,
            None => {
                assert(self.controllers@ =~= m);
                return SurfaceAction::Nothing;
            },
        };
        let r = c.assign_wallpaper(w);
        self.controllers.insert(output_id, c);
        assert(self.controllers@ =~= m.insert(output_id, c));
        r
    }
}

/// The single GPU context: which drawing surface, if any, it is bound to.
pub struct RenderContext {
    pub bound: Option<u64>,
}

impl RenderContext {
    /// A context bound to nothing.
    pub fn new() -> (r: RenderContext)
        ensures
            r.bound is None,
    {
        RenderContext { bound: None }
    }

    /// Whether a drawing surface is bound.
    pub fn is_bound(&self) -> (r: bool)
        ensures
            r == self.bound is Some,
    {
        self.bound.is_some()
    }

    /// Binds the context to a drawing surface. Nesting two bindings is ruled
    /// out: nothing may be bound already.
    pub fn bind(&mut self, surface: u64)
        requires
            old(self).bound is None,
        ensures
            final(self).bound == Some(surface),
    {
        self.bound = Some(surface);
    }

    /// Runs `f` on the context while it is bound to `surface`, and unbinds
    /// it after, whatever `f` returned.
    pub fn with_bound<T, F: FnOnce(&RenderContext) -> T>(&mut self, surface: u64, f: F) -> (r: T)
        requires
            old(self).bound is None,
            f.requires((&RenderContext { bound: Some(surface) },)),
        ensures
            f.ensures((&RenderContext { bound: Some(surface) },), r),
            final(self).bound is None,
    {
        self.bind(surface);
        let r = f(&*self);
        self.unbind();
        r
    }

    /// Releases the binding, whatever it was.
    pub fn unbind(&mut self)
        ensures
            final(self).bound is None,
    {
        self.bound = None;
    }
}

/// Closed is terminal: a closed controller ignores every event and asks for
/// nothing, so its surface is released at most once.
pub proof fn law_closed_is_terminal(v: ControllerView, e: SurfaceEvent)
    requires
        v.state == SurfaceState::Closed,
    ensures
        step(v, e) == (v, SurfaceAction::Nothing),
{
}

/// A surface that exists is released exactly when its life ends: on close,
/// on removal of its output, or on a failed draw; it then becomes closed.
pub proof fn law_terminal_event_releases(v: ControllerView, e: SurfaceEvent)
    requires
        v.state == SurfaceState::AwaitingFirstConfigure || v.state == SurfaceState::Active,
    ensures
        (step(v, e).1 == SurfaceAction::Release) == is_terminal(e),
        is_terminal(e) ==> step(v, e).0.state == SurfaceState::Closed,
{
}

/// A configure event that leaves both dimensions to the client keeps the
/// size that the controller had.
pub proof fn law_zero_configure_keeps_size(v: ControllerView)
    ensures
        step(v, SurfaceEvent::Configure { width: 0, height: 0 }).0.width == v.width,
        step(v, SurfaceEvent::Configure { width: 0, height: 0 }).0.height == v.height,
{
}

/// An event for one output leaves every other controller as it was, and a
/// frame for an active output holding a wallpaper draws it once.
pub proof fn law_events_stay_with_their_output(
    m: Map<u64, SurfaceController>,
    output_id: u64,
    e: SurfaceEvent,
    other: u64,
)
    requires
        other != output_id,
        m.contains_key(other),
    ensures
        session_step(m, output_id, e).0.contains_key(other),
        session_step(m, output_id, e).0[other] == m[other],
        m.contains_key(output_id) && m[output_id].state == SurfaceState::Active && m[output_id].wallpaper is Some
            && m[output_id].frames < u64::MAX && e == SurfaceEvent::FrameAvailable ==> {
            let (n, a) = session_step(m, output_id, e);
            &&& a == (SurfaceAction::Draw { width: m[output_id].width, height: m[output_id].height })
            &&& n[output_id].frames == m[output_id].frames + 1
            &&& n[output_id].wallpaper == m[output_id].wallpaper
        },
{
}

} // verus!
