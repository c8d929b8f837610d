//! The input router: from pointer, button and keyboard events of the scene,
//! and from pointer motion that the X server reports, to what is injected
//! into the X11 session.
//!
//! Moving the pointer in the scene makes the X server move its cursor, which
//! it then reports like any other motion. The router remembers the last
//! position it asked for and treats a report of exactly that position as the
//! echo of its own request.

use crate::geometry::Geometry;
use crate::lifecycle::RegistryView;
use crate::registry::Registry;
use vstd::prelude::*;

verus! {

/// The id that stands for "no window" in X11.
pub const NO_WINDOW: u32 = 0;

/// An event on its way to the input router. Offsets are in pixels from the
/// target window's top-left corner.
#[derive(Debug, Clone, PartialEq, Eq)]
pub enum InputEvent {
    /// The pointer in the scene moved over a window.
    Move { wid: u32, x: i32, y: i32 },
    /// A button was pressed or released over a window in the scene.
    Click { wid: u32, x: i32, y: i32, button: u32, pressed: bool },
    /// Text was typed on the scene's keyboard.
    KeyPresses { string: Vec<i8> },
    /// The X server reports the pointer at a position inside a window.
    X11Move { wid: u32, x: i32, y: i32 },
}

/// What is to be done with the pointer once the target window has been
/// raised and located.
#[derive(Clone, Copy, Debug, PartialEq, Eq, Structural)]
pub enum PointerAction {
    Move { x: i32, y: i32 },
    Click { x: i32, y: i32, button: u32, pressed: bool },
}

/// What to inject for a pointer action, in absolute screen coordinates.
#[derive(Clone, Copy, Debug, PartialEq, Eq, Structural)]
pub enum Injection {
    /// Move the cursor; before that, hide the cursor mirror if `hide_mirror`.
    MoveCursor { x: i64, y: i64, hide_mirror: bool },
    /// Press or release a button at the given position.
    Button { x: i64, y: i64, button: u32, pressed: bool },
}

/// What a motion report of the X server amounts to.
#[derive(Clone, Copy, Debug, PartialEq, Eq, Structural)]
pub enum Motion {
    /// The report repeats the router's own last request.
    Echo,
    /// The window is not mirrored.
    UnknownWindow,
    /// The window is mirrored but has no textures yet.
    NoTextures,
    /// The user moved the physical pointer: put the cursor mirror over the
    /// window `wid`, at pixel (`x`, `y`) of its `width` by `height` surface.
    Mirror { wid: u32, x: i32, y: i32, width: u32, height: u32 },
}

/// The first step for an event.
#[derive(Debug, PartialEq, Eq)]
pub enum InputStep {
    /// Raise the window above its siblings and query its geometry, then go
    /// on with `then`.
    RaiseAndLocate { wid: u32, then: PointerAction },
    /// Inject these characters, one after another.
    Type(Vec<i8>),
    /// Act on a motion report.
    Report(Motion),
}

/// What an [`InputStep`] holds.
pub enum InputStepView {
    RaiseAndLocate { wid: u32, then: PointerAction },
    Type(Seq<i8>),
    Report(Motion),
}

impl View for InputStep {
    type V = InputStepView;

    open spec fn view(&self) -> InputStepView {
        match *self {
            InputStep::RaiseAndLocate { wid, then } => InputStepView::RaiseAndLocate { wid, then },
            InputStep::Type(text) => InputStepView::Type(text@),
            InputStep::Report(motion) => InputStepView::Report(motion),
        }
    }
}

/// State of the input router: the position, as a window and an offset inside
/// it, of the last cursor motion that the router asked for, until the user
/// moves the physical pointer.
#[derive(Clone, Copy, Debug, PartialEq, Eq)]
pub struct InputRouter {
    pub last_set_cursor: Option<(u32, i32, i32)>,
}

/// The character that is injected for a typed one: a line feed becomes a
/// carriage return, everything else stays.
pub open spec fn injected_char(ch: i8) -> i8 {
    if ch == 10 {
        13
    } else {
        ch
    }
}

/// What a motion report amounts to, given the router's last request and the
/// registry's state.
pub open spec fn motion_of<N, R>(
    last: Option<(u32, i32, i32)>,
    state: RegistryView<N, R>,
    wid: u32,
    x: i32,
    y: i32,
) -> Motion {
    if last == Some((wid, x, y)) {
        Motion::Echo
    } else if !state.is_live(wid) {
        Motion::UnknownWindow
    } else {
        match state.windows[wid].textures {
            None => Motion::NoTextures,
            Some(t) => Motion::Mirror {
                wid,
                x,
                y,
                width: t.source.spec_width(),
                height: t.source.spec_height(),
            },
        }
    }
}

/// The first step for an event.
pub open spec fn first_step_of<N, R>(
    last: Option<(u32, i32, i32)>,
    state: RegistryView<N, R>,
    event: InputEvent,
) -> InputStepView {
    match event {
        InputEvent::Move { wid, x, y } => InputStepView::RaiseAndLocate {
            wid,
            then: PointerAction::Move { x, y },
        },
        InputEvent::Click { wid, x, y, button, pressed } => InputStepView::RaiseAndLocate {
            wid,
            then: PointerAction::Click { x, y, button, pressed },
        },
        InputEvent::KeyPresses { string } => InputStepView::Type(
            string@.map_values(|ch: i8| injected_char(ch)),
        ),
        InputEvent::X11Move { wid, x, y } => InputStepView::Report(
            motion_of(last, state, wid, x, y),
        ),
    }
}

/// Translates one typed character.
pub fn translate_key(ch: i8) -> (out: i8)
    ensures
        out == injected_char(ch),
{
    if ch == 10 {
        13
    } else {
        ch
    }
}

/// Translates typed text, character by character.
pub fn translate_keys(string: &Vec<i8>) -> (out: Vec<i8>)
    ensures
        out@ == string@.map_values(|ch: i8| injected_char(ch)),
{
    let mut out: Vec<i8> = Vec::new();
    let n = string.len();
    let mut i: usize = 0;
    while i < n
        invariant
            n == string@.len(),
            i <= n,
            out@ == string@.subrange(0, i as int).map_values(|ch: i8| injected_char(ch)),
        decreases n - i,
    {
        out.push(translate_key(string[i]));
        i += 1;
    }
    out
}

/// Follows the pointer down the window tree: given the window that was just
/// queried and the child that the pointer is in, the window to query next.
/// The walk ends when there is no child or the server names the window as
/// its own child.
pub fn next_under_pointer(current: u32, child: u32) -> (next: Option<u32>)
    ensures
        next == if child == current || child == NO_WINDOW {
            None
        } else {
            Some(child)
        },
{
    if child == current || child == NO_WINDOW {
        None
    } else {
        Some(child)
    }
}

/// The motion report to pass on for a window that the pointer is in: one for
/// every mirrored window, none for any other.
pub fn motion_report<N, R>(registry: &Registry<N, R>, wid: u32, x: i32, y: i32) -> (report: Option<
    InputEvent,
>)
    ensures
        report == if registry@.is_live(wid) {
            Some(InputEvent::X11Move { wid, x, y })
        } else {
            None
        },
{
    if registry.contains(wid) {
        Some(InputEvent::X11Move { wid, x, y })
    } else {
        None
    }
}

impl InputRouter {
    pub fn new() -> (router: Self)
        ensures
            router.last_set_cursor is None,
    {
        InputRouter { last_set_cursor: None }
    }

    /// Classifies a motion report of the X server.
    pub fn classify_motion<N, R>(&self, registry: &Registry<N, R>, wid: u32, x: i32, y: i32) -> (motion:
        Motion)
        ensures
            motion == motion_of(self.last_set_cursor, registry@, wid, x, y),
    {
        let echo = match self.last_set_cursor {
            Some((w, lx, ly)) => w == wid && lx == x && ly == y,
            None => false,
        };
        if echo {
            return Motion::Echo;
        }
        match registry.get(wid) {
            None => Motion::UnknownWindow,
            Some(window) => match window.texture_size() {
                None => Motion::NoTextures,
                Some((width, height)) => Motion::Mirror { wid, x, y, width, height },
            },
        }
    }

    /// Decides the first step for an event.
    pub fn first_step<N, R>(&self, registry: &Registry<N, R>, event: InputEvent) -> (step: InputStep)
        ensures
            step@ == first_step_of(self.last_set_cursor, registry@, event),
    {
        match event {
            InputEvent::Move { wid, x, y } => InputStep::RaiseAndLocate {
                wid,
                then: PointerAction::Move { x, y },
            },
            InputEvent::Click { wid, x, y, button, pressed } => InputStep::RaiseAndLocate {
                wid,
                then: PointerAction::Click { x, y, button, pressed },
            },
            InputEvent::KeyPresses { string } => InputStep::Type(translate_keys(&string)),
            InputEvent::X11Move { wid, x, y } => InputStep::Report(
                self.classify_motion(registry, wid, x, y),
            ),
        }
    }

    /// Resolves a pointer action against the located window and says what to
    /// inject. A cursor move is remembered as the router's last request.
    pub fn resolve(&mut self, wid: u32, origin: &Geometry, action: PointerAction) -> (injection:
        Injection)
        ensures
            match action {
                PointerAction::Move { x, y } => {
                    &&& injection == (Injection::MoveCursor {
                        x: (origin.x + x) as i64,
                        y: (origin.y + y) as i64,
                        hide_mirror: old(self).last_set_cursor is None,
                    })
                    &&& final(self).last_set_cursor == Some((wid, x, y))
                },
                PointerAction::Click { x, y, button, pressed } => {
                    &&& injection == (Injection::Button {
                        x: (origin.x + x) as i64,
                        y: (origin.y + y) as i64,
                        button,
                        pressed,
                    })
                    &&& *final(self) == *old(self)
                },
            },
    {
        match action {
            PointerAction::Move { x, y } => {
                let hide_mirror = self.last_set_cursor.is_none();
                self.last_set_cursor = Some((wid, x, y));
                Injection::MoveCursor {
                    x: origin.x as i64 + x as i64,
                    y: origin.y as i64 + y as i64,
                    hide_mirror,
                }
            },
            PointerAction::Click { x, y, button, pressed } => Injection::Button {
                x: origin.x as i64 + x as i64,
                y: origin.y as i64 + y as i64,
                button,
                pressed,
            },
        }
    }

    /// Records that the cursor mirror has been placed for a motion of the
    /// physical pointer. Returns whether the mirror has to be shown: it was
    /// hidden exactly if the router's last request was still standing.
    pub fn mirror_placed(&mut self) -> (show: bool)
        ensures
            show == old(self).last_set_cursor is Some,
            final(self).last_set_cursor is None,
    {
        let show = self.last_set_cursor.is_some();
        self.last_set_cursor = None;
        show
    }
}

/// The report of the position that the router last asked for is an echo, and
/// is recognised as one whatever the registry holds.
pub proof fn lemma_own_motion_is_echo<N, R>(state: RegistryView<N, R>, wid: u32, x: i32, y: i32)
    ensures
        motion_of(Some((wid, x, y)), state, wid, x, y) == Motion::Echo,
{
}

} // verus!
