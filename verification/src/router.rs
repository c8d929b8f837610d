//! The event router: one decision per event of the main loop.
//!
//! The main loop waits on its sources, hands each event to [`route`], and
//! carries out the [`Dispatch`] that comes back. Structural changes of the
//! registry happen inside [`route`]; everything slow happens afterwards,
//! outside of it.

use crate::input::InputEvent;
use crate::lifecycle::RegistryView;
use crate::lifecycle::Ticket;
use crate::registry::Registry;
use crate::registry::Removed;
use crate::registry::WindowStateError;
use vstd::prelude::*;

verus! {

/// The key under which the cursor mirror is registered in the scene. No
/// mirrored window has it.
pub const CURSOR_MIRROR_KEY: u64 = u64::MAX;

/// An event of the X11 stream.
#[derive(Clone, Copy, Debug, PartialEq, Eq, Structural)]
pub enum X11Event {
    /// Part of a drawable changed.
    Damage { drawable: u32 },
    /// The cursor shape changed to the one with this serial.
    CursorChanged { serial: u32 },
    /// Anything else.
    Other,
}

/// Why the VR runtime asks the bridge to quit.
#[derive(Clone, Copy, Debug, PartialEq, Eq, Structural)]
pub enum QuitReason {
    Shutdown,
    ProcessQuit,
    ApplicationTransition,
}

/// A source of events.
#[derive(Clone, Copy, Debug, PartialEq, Eq, Structural)]
pub enum Source {
    X11,
    Directory,
    Input,
    Quit,
}

/// A connection that the bridge cannot run without has broken.
#[derive(Clone, Copy, Debug, PartialEq, Eq, Structural)]
pub enum ProtocolError {
    X11ConnectionBroke,
    DirectoryConnectionBroke,
    InputChannelBroke,
    QuitChannelBroke,
}

/// One event of the main loop.
#[derive(Debug, PartialEq, Eq)]
pub enum Event {
    X11(X11Event),
    /// The window directory reports a window as mapped.
    Mapped(u32),
    /// The window directory reports a window as unmapped.
    Unmapped(u32),
    Input(InputEvent),
    /// The VR runtime asks to quit.
    QuitRequested(QuitReason),
    /// A source has ended.
    Closed(Source),
}

/// What the main loop has to do for an event.
#[derive(Debug)]
pub enum Dispatch<N, R> {
    /// Nothing.
    Ignore,
    /// Acknowledge the damage on the window's damage handle and render the
    /// window again.
    Render { window: u32, damage: u32 },
    /// Show the cursor shape with this serial.
    RefreshCursor { serial: u32 },
    /// Start the creation of the ticket's window.
    Create(Ticket),
    /// The event does not fit the registry's state. Log it and go on.
    Skipped(WindowStateError),
    /// The window was unmapped. A creation in flight has been called off if
    /// `cancelled`; a window that was live has left the registry and has to
    /// be torn down.
    Destroy { cancelled: bool, removed: Option<Removed<N, R>> },
    /// Hand the event to the input router.
    Forward(InputEvent),
    /// Acknowledge the request to the runtime and leave the loop.
    Quit,
    /// Leave the loop with this error.
    Fatal(ProtocolError),
}

/// The error that the end of a source amounts to.
pub open spec fn broken(source: Source) -> ProtocolError {
    match source {
        Source::X11 => ProtocolError::X11ConnectionBroke,
        Source::Directory => ProtocolError::DirectoryConnectionBroke,
        Source::Input => ProtocolError::InputChannelBroke,
        Source::Quit => ProtocolError::QuitChannelBroke,
    }
}

/// The registry's state after an event has been routed: a mapped window
/// gets a creation in flight, unless it has one; an unmapped window loses
/// its creation in flight and leaves the registry; nothing else changes
/// anything.
pub open spec fn state_after<N, R>(state: RegistryView<N, R>, event: Event) -> RegistryView<N, R> {
    match event {
        Event::Mapped(wid) => if !state.is_pending(wid) && state.issued < u64::MAX {
            state.begin(wid)
        } else {
            state
        },
        Event::Unmapped(wid) => state.cancel(wid).without(wid),
        _ => state,
    }
}

/// Whether `dispatch` is what the main loop has to do for `event` in the
/// given state.
pub open spec fn dispatch_for<N, R>(
    state: RegistryView<N, R>,
    event: Event,
    dispatch: Dispatch<N, R>,
) -> bool {
    match event {
        Event::X11(X11Event::Damage { drawable }) => if state.is_live(drawable) {
            dispatch == (Dispatch::<N, R>::Render {
                window: drawable,
                damage: state.windows[drawable].damage,
            })
        } else {
            dispatch is Ignore
        },
        Event::X11(X11Event::CursorChanged { serial }) => dispatch == (Dispatch::<
            N,
            R,
        >::RefreshCursor { serial }),
        Event::X11(X11Event::Other) => dispatch is Ignore,
        Event::Mapped(wid) => if state.is_pending(wid) {
            dispatch == Dispatch::<N, R>::Skipped(WindowStateError::CreationPending(wid))
        } else if state.issued == u64::MAX {
            dispatch == Dispatch::<N, R>::Skipped(WindowStateError::TicketsExhausted)
        } else {
            dispatch == Dispatch::<N, R>::Create(Ticket { window: wid, serial: state.issued })
        },
        Event::Unmapped(wid) => {
            &&& dispatch matches Dispatch::Destroy { cancelled, removed }
            &&& cancelled == state.is_pending(wid)
            &&& match removed {
                Some(r) => {
                    &&& state.is_live(wid)
                    &&& r.window@ == state.windows[wid]
                    &&& r.relink == state.relink_of(wid)
                },
                None => !state.is_live(wid),
            }
        },
        Event::Input(input) => dispatch == Dispatch::<N, R>::Forward(input),
        Event::QuitRequested(reason) => if reason == QuitReason::Shutdown {
            dispatch is Quit
        } else {
            dispatch is Ignore
        },
        Event::Closed(source) => dispatch == Dispatch::<N, R>::Fatal(broken(source)),
    }
}

/// The mirrored window that a node of the scene stands for, from the key it
/// was registered with: the low 32 bits of the key, and none for the cursor
/// mirror.
pub fn window_of_node(key: u64) -> (window: Option<u32>)
    ensures
        window == if key == CURSOR_MIRROR_KEY {
            None
        } else {
            Some((key % 0x1_0000_0000) as u32)
        },
{
    if key == CURSOR_MIRROR_KEY {
        None
    } else {
        Some((key % 0x1_0000_0000) as u32)
    }
}

/// Whether damage on a window leads to a new render pass: only if the damage
/// could be acknowledged, which fails for a window that has just closed, and
/// only while the window's node is visible in the scene.
pub fn should_render(damage_acknowledged: bool, node_visible: bool) -> (render: bool)
    ensures
        render == (damage_acknowledged && node_visible),
{
    damage_acknowledged && node_visible
}

/// Routes one event.
pub fn route<N, R>(registry: &mut Registry<N, R>, event: Event) -> (dispatch: Dispatch<N, R>)
    ensures
        final(registry)@.wf(),
        final(registry)@ == state_after(old(registry)@, event),
        dispatch_for(old(registry)@, event, dispatch),
{
    registry.well_formed();
    match event {
        Event::X11(X11Event::Damage { drawable }) => match registry.get(drawable) {
            Some(window) => Dispatch::Render { window: drawable, damage: window.damage() },
            None => Dispatch::Ignore,
        },
        Event::X11(X11Event::CursorChanged { serial }) => Dispatch::RefreshCursor { serial },
        Event::X11(X11Event::Other) => Dispatch::Ignore,
        Event::Mapped(wid) => match registry.begin_creation(wid) {
            Ok(ticket) => Dispatch::Create(ticket),
            Err(e) => Dispatch::Skipped(e),
        },
        Event::Unmapped(wid) => {
            let cancelled = registry.cancel_creation(wid);
            let removed = registry.remove(wid);
            Dispatch::Destroy { cancelled, removed }
        },
        Event::Input(input) => Dispatch::Forward(input),
        Event::QuitRequested(reason) => match reason {
            QuitReason::Shutdown => Dispatch::Quit,
            _ => Dispatch::Ignore,
        },
        Event::Closed(source) => Dispatch::Fatal(
            match source {
                Source::X11 => ProtocolError::X11ConnectionBroke,
                Source::Directory => ProtocolError::DirectoryConnectionBroke,
                Source::Input => ProtocolError::InputChannelBroke,
                Source::Quit => ProtocolError::QuitChannelBroke,
            },
        ),
    }
}

/// Routes one entry of the list of windows that exist at startup: a window
/// id is treated like a report that the window was mapped, and an entry
/// that is no window id is skipped.
pub fn route_listed<N, R>(registry: &mut Registry<N, R>, listed: Option<u32>) -> (dispatch: Dispatch<
    N,
    R,
>)
    ensures
        final(registry)@.wf(),
        match listed {
            Some(wid) => {
                &&& final(registry)@ == state_after(old(registry)@, Event::Mapped(wid))
                &&& dispatch_for(old(registry)@, Event::Mapped(wid), dispatch)
            },
            None => final(registry)@ == old(registry)@ && dispatch is Ignore,
        },
{
    match listed {
        Some(wid) => route(registry, Event::Mapped(wid)),
        None => {
            registry.well_formed();
            Dispatch::Ignore
        },
    }
}

/// A window that is mapped and then unmapped before its creation has
/// published anything is not live afterwards, and the ticket that its
/// creation holds can no longer make it live.
pub proof fn lemma_unmap_cancels_creation<N, R>(state: RegistryView<N, R>, wid: u32)
    requires
        state.wf(),
        !state.is_live(wid),
        !state.is_pending(wid),
        state.issued < u64::MAX,
    ensures
        !state_after(state_after(state, Event::Mapped(wid)), Event::Unmapped(wid)).is_live(wid),
        !state_after(state_after(state, Event::Mapped(wid)), Event::Unmapped(wid)).is_current(
            Ticket { window: wid, serial: state.issued },
        ),
        state_after(state_after(state, Event::Mapped(wid)), Event::Unmapped(wid)).windows
            == state.windows,
{
}

} // verus!
