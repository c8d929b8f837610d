//! The window lifecycle as an abstract state machine.
//!
//! [`RegistryView`] is what a [`Registry`](crate::registry::Registry) stands
//! for: the live windows, the parent/child chains between them, the index
//! from client windows, and the creations that are in flight. The functions
//! on it say what each operation of the registry does to that state.
//!
//! A window id is *absent* while it is neither live nor has a creation in
//! flight, *pending* from [`RegistryView::begin`] until its ticket is
//! published, cancelled or abandoned, and *live* while it is in
//! [`RegistryView::windows`]. A window that has been removed and not yet torn
//! down is held by whoever runs its teardown, as a
//! [`Removed`](crate::registry::Removed).

use crate::window::Relink;
use crate::window::WindowView;
use vstd::prelude::*;

verus! {

/// Where a live window stands in its chain. A chain is a list of windows, each
/// the child of the one before it; the offsets say where a child sits
/// relative to its parent's centre, in pixels, x to the right and y up.
#[derive(Clone, Copy, Debug, PartialEq, Eq, Structural)]
pub struct Link {
    pub parent: Option<u32>,
    pub child: Option<u32>,
    pub offset_x: i32,
    pub offset_y: i32,
}

/// Request to hang a new window below a live one.
#[derive(Clone, Copy, Debug, PartialEq, Eq, Structural)]
pub struct Attachment {
    pub parent: u32,
    pub offset_x: i32,
    pub offset_y: i32,
}

/// Proof of having started the creation of a window. Only the ticket that is
/// current for its window at the time of publishing can make the window live.
#[derive(Clone, Copy, Debug, PartialEq, Eq, Structural)]
pub struct Ticket {
    pub window: u32,
    pub serial: u64,
}

/// Where a window id stands in its lifecycle, as far as the registry knows.
#[derive(Clone, Copy, Debug, PartialEq, Eq, Structural)]
pub enum Phase {
    Absent,
    PendingCreation,
    Live,
}

/// The abstract state of a registry.
pub struct RegistryView<N, R> {
    /// The live windows by id.
    pub windows: Map<u32, WindowView<N, R>>,
    /// The place of each live window in its chain.
    pub links: Map<u32, Link>,
    /// From the id of a client window to the id of the live window that
    /// holds it.
    pub clients: Map<u32, u32>,
    /// The serial of the current ticket of each window whose creation is in
    /// flight.
    pub pending: Map<u32, u64>,
    /// The number of tickets issued so far, which is the serial of the next.
    pub issued: u64,
}

/// `value` brought into the range of `i32`.
pub open spec fn clamp(value: int) -> i32 {
    if value < i32::MIN {
        i32::MIN
    } else if value > i32::MAX {
        i32::MAX
    } else {
        value as i32
    }
}

/// Whether the links of a set of windows agree with each other: a window's
/// child is another live window that names it as its parent, and the other
/// way round.
pub open spec fn chain_ok(links: Map<u32, Link>) -> bool {
    &&& forall|k: u32| #[trigger]
        links.contains_key(k) ==> (links[k].child matches Some(c) ==> c != k
            && links.contains_key(c) && links[c].parent == Some(k))
    &&& forall|k: u32| #[trigger]
        links.contains_key(k) ==> (links[k].parent matches Some(p) ==> p != k
            && links.contains_key(p) && links[p].child == Some(k))
}

/// How the scene graph has to join the neighbours of `window` when it
/// leaves: only a window with both a parent and a child leaves a gap.
pub open spec fn gap_left(links: Map<u32, Link>, window: u32) -> Option<Relink> {
    if links.contains_key(window) {
        let link = links[window];
        match (link.parent, link.child) {
            (Some(p), Some(c)) => Some(
                Relink {
                    parent: p,
                    child: c,
                    offset_x: clamp(link.offset_x + links[c].offset_x),
                    offset_y: clamp(link.offset_y + links[c].offset_y),
                },
            ),
            _ => None,
        }
    } else {
        None
    }
}

/// The chains after `window` has left: its parent adopts its child, at the
/// sum of the two offsets; a child without a new parent stands alone at the
/// head of what is left of the chain.
pub open spec fn chain_without(links: Map<u32, Link>, window: u32) -> Map<u32, Link> {
    if links.contains_key(window) {
        let link = links[window];
        let rest = links.remove(window);
        let above = match link.parent {
            Some(p) => rest.insert(p, Link { child: link.child, ..rest[p] }),
            None => rest,
        };
        match link.child {
            Some(c) => above.insert(
                c,
                match link.parent {
                    Some(p) => Link {
                        parent: Some(p),
                        offset_x: clamp(link.offset_x + above[c].offset_x),
                        offset_y: clamp(link.offset_y + above[c].offset_y),
                        ..above[c]
                    },
                    None => Link { parent: None, ..above[c] },
                },
            ),
            None => above,
        }
    } else {
        links
    }
}

/// A link without neighbours.
pub open spec fn alone() -> Link {
    Link { parent: None, child: None, offset_x: 0, offset_y: 0 }
}

/// The window that `hops` child links lead to from `from`, if the chain is
/// that long.
pub open spec fn descend(links: Map<u32, Link>, from: u32, hops: nat) -> Option<u32>
    decreases hops,
{
    if !links.contains_key(from) {
        None
    } else if hops == 0 {
        Some(from)
    } else {
        match links[from].child {
            Some(c) => descend(links, c, (hops - 1) as nat),
            None => None,
        }
    }
}

impl<N, R> RegistryView<N, R> {
    /// No window, no creation in flight, no ticket issued.
    pub open spec fn empty() -> Self {
        RegistryView {
            windows: Map::empty(),
            links: Map::empty(),
            clients: Map::empty(),
            pending: Map::empty(),
            issued: 0,
        }
    }

    /// What holds of the state of every registry.
    pub open spec fn wf(self) -> bool {
        &&& self.windows.dom().finite()
        &&& self.windows.dom() == self.links.dom()
        &&& forall|k: u32| #[trigger]
            self.windows.contains_key(k) ==> self.windows[k].id == k
        &&& forall|c: u32| #[trigger]
            self.clients.contains_key(c) ==> self.windows.contains_key(self.clients[c])
                && self.windows[self.clients[c]].client_wid == c
        &&& chain_ok(self.links)
        &&& forall|w: u32| #[trigger]
            self.pending.contains_key(w) ==> self.pending[w] < self.issued
    }

    pub open spec fn is_live(self, window: u32) -> bool {
        self.windows.contains_key(window)
    }

    pub open spec fn is_pending(self, window: u32) -> bool {
        self.pending.contains_key(window)
    }

    pub open spec fn phase(self, window: u32) -> Phase {
        if self.is_live(window) {
            Phase::Live
        } else if self.is_pending(window) {
            Phase::PendingCreation
        } else {
            Phase::Absent
        }
    }

    /// Whether `ticket` is the one that may publish its window.
    pub open spec fn is_current(self, ticket: Ticket) -> bool {
        self.pending.contains_key(ticket.window) && self.pending[ticket.window] == ticket.serial
    }

    /// The state after a creation of `window` has been started.
    pub open spec fn begin(self, window: u32) -> Self {
        RegistryView {
            pending: self.pending.insert(window, self.issued),
            issued: (self.issued + 1) as u64,
            ..self
        }
    }

    /// The state after whatever creation of `window` was in flight has been
    /// called off.
    pub open spec fn cancel(self, window: u32) -> Self {
        RegistryView { pending: self.pending.remove(window), ..self }
    }

    /// How the scene graph has to join the neighbours of `window` when it
    /// leaves.
    pub open spec fn relink_of(self, window: u32) -> Option<Relink> {
        gap_left(self.links, window)
    }

    /// The chains after `window` has left.
    pub open spec fn links_without(self, window: u32) -> Map<u32, Link> {
        chain_without(self.links, window)
    }

    /// The client index after `window` has left.
    pub open spec fn clients_without(self, window: u32) -> Map<u32, u32> {
        if self.windows.contains_key(window) {
            let client = self.windows[window].client_wid;
            if self.clients.contains_key(client) && self.clients[client] == window {
                self.clients.remove(client)
            } else {
                self.clients
            }
        } else {
            self.clients
        }
    }

    /// The state after the live window `window` has been removed. Nothing
    /// changes where it was not live.
    pub open spec fn without(self, window: u32) -> Self {
        RegistryView {
            windows: self.windows.remove(window),
            links: self.links_without(window),
            clients: self.clients_without(window),
            ..self
        }
    }

    /// Whether a new window `window` can be hung below `attachment.parent`:
    /// the parent is live, is another window, and is the last of its chain.
    pub open spec fn can_attach(self, window: u32, attachment: Attachment) -> bool {
        &&& attachment.parent != window
        &&& self.links.contains_key(attachment.parent)
        &&& self.links[attachment.parent].child is None
    }

    /// The attachment that takes effect when `window` is added: the
    /// requested one where it can, else none.
    pub open spec fn effective(self, window: u32, attachment: Option<Attachment>) -> Option<
        Attachment,
    > {
        match attachment {
            Some(a) if self.can_attach(window, a) => Some(a),
            _ => None,
        }
    }

    /// The state after `window`, whose id is not live, has been added.
    pub open spec fn with(self, window: WindowView<N, R>, attachment: Option<Attachment>) -> Self {
        let links = match self.effective(window.id, attachment) {
            Some(a) => self.links.insert(
                a.parent,
                Link { child: Some(window.id), ..self.links[a.parent] },
            ).insert(
                window.id,
                Link {
                    parent: Some(a.parent),
                    child: None,
                    offset_x: a.offset_x,
                    offset_y: a.offset_y,
                },
            ),
            None => self.links.insert(window.id, alone()),
        };
        RegistryView {
            windows: self.windows.insert(window.id, window),
            links,
            clients: self.clients.insert(window.client_wid, window.id),
            ..self
        }
    }

    /// The state after the creation of `window` has been published: its
    /// ticket is used up, a live window of the same id is superseded, and the
    /// new window takes its place.
    pub open spec fn publish(self, window: WindowView<N, R>, attachment: Option<Attachment>) -> Self {
        self.cancel(window.id).without(window.id).with(window, attachment)
    }

    /// The live window to start from when looking for the group of `window`:
    /// the window itself, or the live window that holds it as its client.
    pub open spec fn group_entry(self, window: u32) -> Option<u32> {
        if self.windows.contains_key(window) {
            Some(window)
        } else if self.clients.contains_key(window) {
            Some(self.clients[window])
        } else {
            None
        }
    }

    /// Whether `tail` is the last window of the chain that `from` stands in.
    pub open spec fn is_tail(self, from: u32, tail: u32) -> bool {
        &&& exists|hops: nat| descend(self.links, from, hops) == Some(tail)
        &&& self.links.contains_key(tail)
        &&& self.links[tail].child is None
    }

    /// The state after all windows have been taken out for shutdown: no
    /// window is live and no creation can publish any more.
    pub open spec fn drained(self) -> Self {
        RegistryView { issued: self.issued, ..Self::empty() }
    }
}

/// A creation that was called off can no longer make its window live:
/// publishing is only open to the current ticket, and after `begin` and then
/// `cancel` for the same window the ticket that `begin` issued is not current.
pub proof fn lemma_cancelled_ticket_is_stale<N, R>(state: RegistryView<N, R>, window: u32)
    requires
        state.wf(),
    ensures
        state.begin(window).is_current(Ticket { window, serial: state.issued }),
        !state.begin(window).cancel(window).is_current(Ticket { window, serial: state.issued }),
        state.begin(window).cancel(window).windows == state.windows,
{
}

/// A ticket that was superseded by a later one for the same window is not
/// current either.
pub proof fn lemma_older_ticket_is_stale<N, R>(state: RegistryView<N, R>, window: u32)
    requires
        state.wf(),
        state.issued < u64::MAX - 1,
    ensures
        !state.begin(window).cancel(window).begin(window).is_current(
            Ticket { window, serial: state.issued },
        ),
{
}

/// After a window has been published there is exactly one live window under
/// its id, and it is the new one.
pub proof fn lemma_publish_replaces<N, R>(
    state: RegistryView<N, R>,
    window: WindowView<N, R>,
    attachment: Option<Attachment>,
)
    ensures
        state.publish(window, attachment).windows.contains_key(window.id),
        state.publish(window, attachment).windows[window.id] == window,
        state.publish(window, attachment).windows.dom() == state.windows.dom().insert(window.id),
        forall|k: u32|
            k != window.id && state.windows.contains_key(k) ==> #[trigger] state.publish(
                window,
                attachment,
            ).windows[k] == state.windows[k],
{
    assert(state.publish(window, attachment).windows.dom() =~= state.windows.dom().insert(
        window.id,
    ));
}

/// No live window is linked to a window that is not live. In particular a
/// window that has been removed is out of every chain.
pub proof fn lemma_absent_window_is_unlinked<N, R>(state: RegistryView<N, R>, window: u32)
    requires
        state.wf(),
        !state.is_live(window),
    ensures
        forall|k: u32| #[trigger]
            state.links.contains_key(k) ==> state.links[k].parent != Some(window)
                && state.links[k].child != Some(window),
{
}

} // verus!
