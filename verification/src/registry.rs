//! The window registry: the live windows, their chains, and the creations in
//! flight.

use crate::lifecycle::chain_ok;
use crate::lifecycle::chain_without;
use crate::lifecycle::clamp;
use crate::lifecycle::descend;
use crate::lifecycle::gap_left;
use crate::lifecycle::Attachment;
use crate::lifecycle::Link;
use crate::lifecycle::Phase;
use crate::lifecycle::RegistryView;
use crate::lifecycle::Ticket;
use crate::texture_set::TextureSet;
use crate::window::after_refresh;
use crate::window::refresh_for;
use crate::window::teardown_steps;
use crate::window::Refresh;
use crate::window::Relink;
use crate::window::TeardownStep;
use crate::window::Window;
use crate::window::WindowView;
use std::collections::HashMap;
use vstd::prelude::*;
use vstd::std_specs::iter::IteratorSpec;

verus! {

broadcast use vstd::std_specs::hash::group_hash_axioms;

/// Recoverable inconsistencies between what an event expects of the registry
/// and what the registry holds.
#[derive(Clone, Copy, Debug, PartialEq, Eq, Structural)]
pub enum WindowStateError {
    /// A creation of this window is already in flight.
    CreationPending(u32),
    /// No further ticket can be issued.
    TicketsExhausted,
    /// The window is not live.
    Missing(u32),
}

/// Whether the X server would show a window.
#[derive(Clone, Copy, Debug, PartialEq, Eq, Structural)]
pub enum MapState {
    Unmapped,
    Unviewable,
    Viewable,
}

/// A window that has left the registry and waits for its teardown.
#[derive(Debug)]
pub struct Removed<N, R> {
    pub window: Window<N, R>,
    pub relink: Option<Relink>,
}

/// How an attempt to publish a new window ended.
#[derive(Debug)]
pub enum Published<N, R> {
    /// The ticket is not current, or is for another window: the creation was
    /// called off. Nothing changed; the window has to be torn down.
    Stale(Window<N, R>),
    /// The window is no longer viewable. The creation is over; the window
    /// has to be torn down.
    NotViewable(Window<N, R>),
    /// The window is live. `attached` tells whether it hangs below the
    /// requested parent; `superseded` is the live window of the same id that
    /// it replaced, which has to be torn down.
    Live { attached: bool, superseded: Option<Removed<N, R>> },
}

#[derive(Debug)]
struct Entry<N, R> {
    window: Window<N, R>,
    link: Link,
}

/// The authoritative map from window id to window, with the chains between
/// windows, the index from client windows, and the set of creations in
/// flight.
pub struct Registry<N, R> {
    windows: HashMap<u32, Entry<N, R>>,
    clients: HashMap<u32, u32>,
    pending: HashMap<u32, u64>,
    issued: u64,
    ranks: Ghost<Map<u32, nat>>,
    limit: Ghost<nat>,
}

spec fn windows_of<N, R>(entries: Map<u32, Entry<N, R>>) -> Map<u32, WindowView<N, R>> {
    Map::new(|k: u32| entries.contains_key(k), |k: u32| entries[k].window@)
}

spec fn links_of<N, R>(entries: Map<u32, Entry<N, R>>) -> Map<u32, Link> {
    Map::new(|k: u32| entries.contains_key(k), |k: u32| entries[k].link)
}

spec fn state_of<N, R>(
    entries: Map<u32, Entry<N, R>>,
    clients: Map<u32, u32>,
    pending: Map<u32, u64>,
    issued: u64,
) -> RegistryView<N, R> {
    RegistryView {
        windows: windows_of(entries),
        links: links_of(entries),
        clients,
        pending,
        issued,
    }
}

/// Ranks grow strictly from parent to child, so no chain runs in a circle.
spec fn ranked(links: Map<u32, Link>, ranks: Map<u32, nat>, limit: nat) -> bool {
    forall|k: u32| #[trigger]
        links.contains_key(k) ==> ranks.contains_key(k) && ranks[k] < limit && (
        links[k].child matches Some(c) ==> ranks.contains_key(c) && ranks[k] < ranks[c])
}

/// The sum of two offsets, kept within the range of `i32`.
fn saturating_sum(a: i32, b: i32) -> (sum: i32)
    ensures
        sum == clamp(a + b),
{
    let wide: i64 = a as i64 + b as i64;
    if wide < i32::MIN as i64 {
        i32::MIN
    } else if wide > i32::MAX as i64 {
        i32::MAX
    } else {
        wide as i32
    }
}

proof fn lemma_views_insert<N, R>(entries: Map<u32, Entry<N, R>>, id: u32, entry: Entry<N, R>)
    ensures
        windows_of(entries.insert(id, entry)) == windows_of(entries).insert(id, entry.window@),
        links_of(entries.insert(id, entry)) == links_of(entries).insert(id, entry.link),
{
    assert(windows_of(entries.insert(id, entry)) =~= windows_of(entries).insert(
        id,
        entry.window@,
    ));
}

proof fn lemma_views_remove<N, R>(entries: Map<u32, Entry<N, R>>, id: u32)
    ensures
        windows_of(entries.remove(id)) == windows_of(entries).remove(id),
        links_of(entries.remove(id)) == links_of(entries).remove(id),
{
}

/// The link of an entry that is known to exist.
fn link_at<N, R>(entries: &HashMap<u32, Entry<N, R>>, id: u32) -> (link: Link)
    requires
        entries@.contains_key(id),
    ensures
        link == entries@[id].link,
{
    match entries.get(&id) {
        Some(entry) => entry.link,
        None => Link { parent: None, child: None, offset_x: 0, offset_y: 0 },
    }
}

/// Replaces the link of an entry and leaves its window alone.
fn set_link<N, R>(entries: &mut HashMap<u32, Entry<N, R>>, id: u32, link: Link)
    requires
        old(entries)@.contains_key(id),
    ensures
        windows_of(final(entries)@) == windows_of(old(entries)@),
        links_of(final(entries)@) == links_of(old(entries)@).insert(id, link),
        final(entries)@.dom() == old(entries)@.dom(),
{
    let ghost before = entries@;
    match entries.remove(&id) {
        Some(entry) => {
            let Entry { window, .. } = entry;
            let updated = Entry { window, link };
            entries.insert(id, updated);
            proof {
                lemma_views_insert(before, id, updated);
            }
        },
        None => {},
    }
}

/// Takes a window out of the entries and closes the gap it leaves in its
/// chain.
fn detach<N, R>(
    entries: &mut HashMap<u32, Entry<N, R>>,
    window: u32,
    Ghost(ranks): Ghost<Map<u32, nat>>,
    Ghost(limit): Ghost<nat>,
) -> (removed: Option<Removed<N, R>>)
    requires
        chain_ok(links_of(old(entries)@)),
        ranked(links_of(old(entries)@), ranks, limit),
    ensures
        match removed {
            Some(r) => {
                &&& old(entries)@.contains_key(window)
                &&& r.window == old(entries)@[window].window
                &&& r.relink == gap_left(links_of(old(entries)@), window)
            },
            None => !old(entries)@.contains_key(window),
        },
        final(entries)@.dom() == old(entries)@.dom().remove(window),
        windows_of(final(entries)@) == windows_of(old(entries)@).remove(window),
        links_of(final(entries)@) == chain_without(links_of(old(entries)@), window),
        chain_ok(links_of(final(entries)@)),
        ranked(links_of(final(entries)@), ranks, limit),
{
    let ghost before = entries@;
    let ghost links = links_of(before);
    match entries.remove(&window) {
        None => {
            proof {
                lemma_views_remove(before, window);
            }
            None
        },
        Some(entry) => {
            let Entry { window: leaving, link } = entry;
            proof {
                lemma_views_remove(before, window);
                assert(links.contains_key(window));
            }
            let ghost rest = links.remove(window);
            match link.parent {
                Some(p) => {
                    let above = link_at(entries, p);
                    set_link(entries, p, Link { child: link.child, ..above });
                },
                None => {},
            }
            let ghost above = links_of(entries@);
            proof {
                assert(above == match link.parent {
                    Some(p) => rest.insert(p, Link { child: link.child, ..rest[p] }),
                    None => rest,
                });
            }
            let relink = match link.child {
                Some(c) => {
                    let below = link_at(entries, c);
                    match link.parent {
                        Some(p) => {
                            let offset_x = saturating_sum(link.offset_x, below.offset_x);
                            let offset_y = saturating_sum(link.offset_y, below.offset_y);
                            set_link(
                                entries,
                                c,
                                Link { parent: Some(p), offset_x, offset_y, ..below },
                            );
                            Some(Relink { parent: p, child: c, offset_x, offset_y })
                        },
                        None => {
                            set_link(entries, c, Link { parent: None, ..below });
                            None
                        },
                    }
                },
                None => None,
            };
            proof {
                assert(links_of(entries@) == chain_without(links, window));
            }
            Some(Removed { window: leaving, relink })
        },
    }
}

impl<N, R> View for Registry<N, R> {
    type V = RegistryView<N, R>;

    closed spec fn view(&self) -> RegistryView<N, R> {
        state_of(self.windows@, self.clients@, self.pending@, self.issued)
    }
}

impl<N, R> Removed<N, R> {
    /// Ends the window's life: the complete teardown, in order.
    pub fn teardown(self) -> (steps: Vec<TeardownStep<N, R>>)
        ensures
            steps@ == teardown_steps(self.window@, self.relink),
    {
        let Removed { window, relink } = self;
        window.teardown(relink)
    }
}

impl<N, R> Registry<N, R> {
    #[verifier::type_invariant]
    spec fn inv(self) -> bool {
        &&& state_of(self.windows@, self.clients@, self.pending@, self.issued).wf()
        &&& ranked(links_of(self.windows@), self.ranks@, self.limit@)
    }

    /// A registry without windows.
    pub fn new() -> (registry: Self)
        ensures
            registry@ == RegistryView::<N, R>::empty(),
            registry@.wf(),
    {
        let windows: HashMap<u32, Entry<N, R>> = HashMap::new();
        let clients: HashMap<u32, u32> = HashMap::new();
        let pending: HashMap<u32, u64> = HashMap::new();
        proof {
            assert(windows_of(windows@) =~= Map::<u32, WindowView<N, R>>::empty());
            assert(links_of(windows@) =~= Map::<u32, Link>::empty());
        }
        Registry { windows, clients, pending, issued: 0, ranks: Ghost(Map::empty()), limit: Ghost(0) }
    }

    /// Does nothing when run. It tells the verifier what holds of every
    /// registry at all times: its state is well-formed.
    pub fn well_formed(&self)
        ensures
            self@.wf(),
    {
        proof {
            use_type_invariant(self);
        }
    }

    /// Number of live windows.
    pub fn len(&self) -> (n: usize)
        ensures
            n == self@.windows.len(),
            self@.wf(),
    {
        proof {
            use_type_invariant(self);
            assert(windows_of(self.windows@).dom() =~= self.windows@.dom());
        }
        self.windows.len()
    }

    /// Whether `window` is live.
    pub fn contains(&self, window: u32) -> (live: bool)
        ensures
            live == self@.is_live(window),
            self@.wf(),
    {
        proof {
            use_type_invariant(self);
        }
        self.windows.contains_key(&window)
    }

    /// The live window with the given id.
    pub fn get(&self, window: u32) -> (found: Option<&Window<N, R>>)
        ensures
            self@.wf(),
            match found {
                Some(w) => self@.is_live(window) && w@ == self@.windows[window],
                None => !self@.is_live(window),
            },
    {
        proof {
            use_type_invariant(self);
        }
        match self.windows.get(&window) {
            Some(entry) => Some(&entry.window),
            None => None,
        }
    }

    /// The place of a live window in its chain.
    pub fn link(&self, window: u32) -> (found: Option<Link>)
        ensures
            self@.wf(),
            match found {
                Some(l) => self@.links.contains_key(window) && l == self@.links[window],
                None => !self@.links.contains_key(window),
            },
    {
        proof {
            use_type_invariant(self);
        }
        match self.windows.get(&window) {
            Some(entry) => Some(entry.link),
            None => None,
        }
    }

    /// The live window that holds `client` as its client window.
    pub fn by_client(&self, client: u32) -> (found: Option<u32>)
        ensures
            self@.wf(),
            match found {
                Some(w) => self@.clients.contains_key(client) && w == self@.clients[client],
                None => !self@.clients.contains_key(client),
            },
    {
        proof {
            use_type_invariant(self);
        }
        match self.clients.get(&client) {
            Some(w) => Some(*w),
            None => None,
        }
    }

    /// Where `window` stands in its lifecycle.
    pub fn phase(&self, window: u32) -> (phase: Phase)
        ensures
            phase == self@.phase(window),
            self@.wf(),
    {
        proof {
            use_type_invariant(self);
        }
        if self.windows.contains_key(&window) {
            Phase::Live
        } else if self.pending.contains_key(&window) {
            Phase::PendingCreation
        } else {
            Phase::Absent
        }
    }

    /// Whether `ticket` may still publish its window.
    pub fn is_current(&self, ticket: Ticket) -> (current: bool)
        ensures
            current == self@.is_current(ticket),
            self@.wf(),
    {
        proof {
            use_type_invariant(self);
        }
        match self.pending.get(&ticket.window) {
            Some(serial) => *serial == ticket.serial,
            None => false,
        }
    }

    /// Starts the creation of `window` and issues the ticket for it. Fails,
    /// and changes nothing, while an earlier creation of the same window is
    /// in flight.
    pub fn begin_creation(&mut self, window: u32) -> (ticket: Result<Ticket, WindowStateError>)
        ensures
            final(self)@.wf(),
            old(self)@.is_pending(window) ==> ticket == Err::<Ticket, WindowStateError>(
                WindowStateError::CreationPending(window),
            ) && final(self)@ == old(self)@,
            !old(self)@.is_pending(window) && old(self)@.issued == u64::MAX ==> ticket == Err::<
                Ticket,
                WindowStateError,
            >(WindowStateError::TicketsExhausted) && final(self)@ == old(self)@,
            !old(self)@.is_pending(window) && old(self)@.issued < u64::MAX ==> ticket == Ok::<
                Ticket,
                WindowStateError,
            >(Ticket { window, serial: old(self)@.issued }) && final(self)@ == old(self)@.begin(
                window,
            ),
    {
        proof {
            use_type_invariant(&*self);
        }
        if self.pending.contains_key(&window) {
            return Err(WindowStateError::CreationPending(window));
        }
        if self.issued == u64::MAX {
            return Err(WindowStateError::TicketsExhausted);
        }
        let mut taken = Registry::new();
        core::mem::swap(self, &mut taken);
        let Registry { windows, clients, mut pending, issued, ranks, limit } = taken;
        pending.insert(window, issued);
        *self = Registry { windows, clients, pending, issued: issued + 1, ranks, limit };
        Ok(Ticket { window, serial: issued })
    }

    /// Calls off whatever creation of `window` is in flight. Returns whether
    /// there was one.
    pub fn cancel_creation(&mut self, window: u32) -> (cancelled: bool)
        ensures
            final(self)@.wf(),
            cancelled == old(self)@.is_pending(window),
            final(self)@ == old(self)@.cancel(window),
    {
        let mut taken = Registry::new();
        core::mem::swap(self, &mut taken);
        proof {
            use_type_invariant(&taken);
        }
        let Registry { windows, clients, mut pending, issued, ranks, limit } = taken;
        let ghost before = pending@;
        assert(state_of(windows@, clients@, before, issued).wf());
        let removed = pending.remove(&window);
        let cancelled = removed.is_some();
        *self = Registry { windows, clients, pending, issued, ranks, limit };
        cancelled
    }

    /// Ends a creation that decided not to make a window. Only the current
    /// ticket has an effect. Returns whether it was current.
    pub fn abandon(&mut self, ticket: Ticket) -> (current: bool)
        ensures
            final(self)@.wf(),
            current == old(self)@.is_current(ticket),
            final(self)@ == if current {
                old(self)@.cancel(ticket.window)
            } else {
                old(self)@
            },
    {
        if self.is_current(ticket) {
            self.cancel_creation(ticket.window);
            true
        } else {
            false
        }
    }

    /// Takes the live window `window` out of the registry and closes the gap
    /// it leaves in its chain. What comes back has to be torn down.
    pub fn remove(&mut self, window: u32) -> (removed: Option<Removed<N, R>>)
        ensures
            final(self)@.wf(),
            final(self)@ == old(self)@.without(window),
            match removed {
                Some(r) => {
                    &&& old(self)@.is_live(window)
                    &&& r.window@ == old(self)@.windows[window]
                    &&& r.relink == old(self)@.relink_of(window)
                },
                None => !old(self)@.is_live(window),
            },
    {
        let mut taken = Registry::new();
        core::mem::swap(self, &mut taken);
        proof {
            use_type_invariant(&taken);
        }
        let Registry { mut windows, mut clients, pending, issued, ranks, limit } = taken;
        let ghost before = state_of(windows@, clients@, pending@, issued);
        let removed = detach(&mut windows, window, Ghost(ranks@), Ghost(limit@));
        match &removed {
            Some(r) => {
                let client = r.window.client_wid();
                let indexed = match clients.get(&client) {
                    Some(w) => *w == window,
                    None => false,
                };
                if indexed {
                    clients.remove(&client);
                }
            },
            None => {},
        }
        proof {
            let after = state_of(windows@, clients@, pending@, issued);
            assert(after == before.without(window));
        }
        *self = Registry { windows, clients, pending, issued, ranks, limit };
        removed
    }

    /// Makes a newly created window live.
    ///
    /// Only the current ticket for the window's own id can publish, and only
    /// while the window is viewable. A live window of the same id is
    /// superseded and handed back. The new window is hung below
    /// `attachment.parent` if that window is live, is another window and has
    /// no child yet; else it stands alone.
    pub fn publish(
        &mut self,
        ticket: Ticket,
        window: Window<N, R>,
        map_state: MapState,
        attachment: Option<Attachment>,
    ) -> (published: Published<N, R>)
        ensures
            final(self)@.wf(),
            !old(self)@.is_current(ticket) || window@.id != ticket.window ==> published
                == Published::Stale(window) && final(self)@ == old(self)@,
            old(self)@.is_current(ticket) && window@.id == ticket.window && map_state
                != MapState::Viewable ==> published == Published::NotViewable(window)
                && final(self)@ == old(self)@.cancel(ticket.window),
            old(self)@.is_current(ticket) && window@.id == ticket.window && map_state
                == MapState::Viewable ==> {
                &&& final(self)@ == old(self)@.publish(window@, attachment)
                &&& published matches Published::Live { attached, superseded }
                &&& attached == (old(self)@.cancel(ticket.window).without(
                    ticket.window,
                ).effective(ticket.window, attachment) is Some)
                &&& match superseded {
                    Some(r) => {
                        &&& old(self)@.is_live(ticket.window)
                        &&& r.window@ == old(self)@.windows[ticket.window]
                        &&& r.relink == old(self)@.relink_of(ticket.window)
                    },
                    None => !old(self)@.is_live(ticket.window),
                }
            },
    {
        let id = window.id();
        if !self.is_current(ticket) || id != ticket.window {
            return Published::Stale(window);
        }
        match map_state {
            MapState::Viewable => {},
            _ => {
                self.cancel_creation(id);
                return Published::NotViewable(window);
            },
        }
        self.cancel_creation(id);
        let superseded = self.remove(id);
        let client = window.client_wid();

        let mut taken = Registry::new();
        core::mem::swap(self, &mut taken);
        proof {
            use_type_invariant(&taken);
        }
        let Registry { mut windows, mut clients, pending, issued, ranks, limit } = taken;
        let attached = match attachment {
            Some(a) => a.parent != id && match windows.get(&a.parent) {
                Some(entry) => entry.link.child.is_none(),
                None => false,
            },
            None => false,
        };
        let link = if attached {
            match attachment {
                Some(a) => {
                    let above = link_at(&windows, a.parent);
                    set_link(&mut windows, a.parent, Link { child: Some(id), ..above });
                    Link {
                        parent: Some(a.parent),
                        child: None,
                        offset_x: a.offset_x,
                        offset_y: a.offset_y,
                    }
                },
                None => Link { parent: None, child: None, offset_x: 0, offset_y: 0 },
            }
        } else {
            Link { parent: None, child: None, offset_x: 0, offset_y: 0 }
        };
        let ghost raised = windows@;
        clients.insert(client, id);
        let entry = Entry { window, link };
        windows.insert(id, entry);
        let ghost new_ranks = ranks@.insert(id, limit@);
        let ghost new_limit = limit@ + 1;
        proof {
            lemma_views_insert(raised, id, entry);
        }
        *self = Registry {
            windows,
            clients,
            pending,
            issued,
            ranks: Ghost(new_ranks),
            limit: Ghost(new_limit),
        };
        Published::Live { attached, superseded }
    }

    /// Finds the window group that `window` belongs to and returns the last
    /// window of its chain. `window` may name a live window or the client
    /// window of one.
    pub fn find_window_group(&self, window: u32) -> (tail: Option<u32>)
        ensures
            self@.wf(),
            match tail {
                Some(t) => self@.group_entry(window) matches Some(from) && self@.is_tail(from, t),
                None => self@.group_entry(window) is None,
            },
    {
        proof {
            use_type_invariant(self);
        }
        let from = if self.windows.contains_key(&window) {
            window
        } else {
            match self.clients.get(&window) {
                Some(w) => *w,
                None => {
                    return None;
                },
            }
        };
        let ghost links = links_of(self.windows@);
        let ghost ranks = self.ranks@;
        let ghost limit = self.limit@;
        let mut current = from;
        let ghost mut hops: nat = 0;
        loop
            invariant
                links == links_of(self.windows@),
                links == self@.links,
                self@.wf(),
                self@.group_entry(window) == Some(from),
                ranked(links, ranks, limit),
                links.contains_key(current),
                descend(links, from, hops) == Some(current),
            decreases limit - ranks[current],
        {
            let link = link_at(&self.windows, current);
            match link.child {
                Some(c) => {
                    proof {
                        lemma_descend_extends(links, from, hops, current, c);
                        hops = hops + 1;
                    }
                    current = c;
                },
                None => {
                    return Some(current);
                },
            }
        }
    }

    /// Decides what a refresh of the live window `window` has to do now that
    /// its geometry is `width` by `height`. An outdated set leaves the window
    /// at once, so that no half-valid set can be observed. Fails, and changes
    /// nothing, for a window that is not live.
    pub fn begin_refresh(&mut self, window: u32, width: u16, height: u16) -> (refresh: Result<
        Refresh<R>,
        WindowStateError,
    >)
        ensures
            final(self)@.wf(),
            match refresh {
                Ok(r) => {
                    &&& old(self)@.is_live(window)
                    &&& refresh_for(old(self)@.windows[window], width, height, r)
                    &&& final(self)@ == (RegistryView {
                        windows: old(self)@.windows.insert(
                            window,
                            after_refresh(old(self)@.windows[window], width, height),
                        ),
                        ..old(self)@
                    })
                },
                Err(e) => {
                    &&& e == WindowStateError::Missing(window)
                    &&& !old(self)@.is_live(window)
                    &&& final(self)@ == old(self)@
                },
            },
    {
        let mut taken = Registry::new();
        core::mem::swap(self, &mut taken);
        proof {
            use_type_invariant(&taken);
        }
        let Registry { mut windows, clients, pending, issued, ranks, limit } = taken;
        let ghost before = windows@;
        let refresh = match windows.remove(&window) {
            Some(entry) => {
                let Entry { window: mut subject, link } = entry;
                let refresh = subject.begin_refresh(width, height);
                let updated = Entry { window: subject, link };
                windows.insert(window, updated);
                proof {
                    assert(windows@ =~= before.insert(window, updated));
                    lemma_views_insert(before, window, updated);
                    assert(links_of(before).insert(window, link) =~= links_of(before));
                }
                Ok(refresh)
            },
            None => {
                proof {
                    assert(windows@ =~= before);
                }
                Err(WindowStateError::Missing(window))
            },
        };
        *self = Registry { windows, clients, pending, issued, ranks, limit };
        refresh
    }

    /// Stores a completed texture set in the live window `window`. Where the
    /// window is gone, or has a set already, nothing changes and the set
    /// comes back to be released.
    pub fn install_textures(&mut self, window: u32, set: TextureSet<R>) -> (rejected: Result<
        (),
        TextureSet<R>,
    >)
        ensures
            final(self)@.wf(),
            old(self)@.is_live(window) && old(self)@.windows[window].textures is None ==> {
                &&& rejected is Ok
                &&& final(self)@ == (RegistryView {
                    windows: old(self)@.windows.insert(
                        window,
                        WindowView { textures: Some(set@), ..old(self)@.windows[window] },
                    ),
                    ..old(self)@
                })
            },
            !(old(self)@.is_live(window) && old(self)@.windows[window].textures is None) ==> {
                &&& rejected == Err::<(), TextureSet<R>>(set)
                &&& final(self)@ == old(self)@
            },
    {
        let mut taken = Registry::new();
        core::mem::swap(self, &mut taken);
        proof {
            use_type_invariant(&taken);
        }
        let Registry { mut windows, clients, pending, issued, ranks, limit } = taken;
        let ghost before = windows@;
        let rejected = match windows.remove(&window) {
            Some(entry) => {
                let Entry { window: mut subject, link } = entry;
                let rejected = subject.install(set);
                let updated = Entry { window: subject, link };
                windows.insert(window, updated);
                proof {
                    assert(windows@ =~= before.insert(window, updated));
                    lemma_views_insert(before, window, updated);
                    assert(links_of(before).insert(window, link) =~= links_of(before));
                    if rejected is Err {
                        assert(windows_of(before).insert(window, updated.window@) =~= windows_of(
                            before,
                        ));
                    }
                }
                rejected
            },
            None => {
                proof {
                    assert(windows@ =~= before);
                }
                Err(set)
            },
        };
        *self = Registry { windows, clients, pending, issued, ranks, limit };
        rejected
    }

    /// Takes every live window out of the registry, for the teardown at
    /// shutdown, and calls off every creation in flight. No window is
    /// relinked: the whole of every chain goes.
    pub fn drain(&mut self) -> (removed: Vec<Removed<N, R>>)
        ensures
            final(self)@.wf(),
            final(self)@ == old(self)@.drained(),
            removed@.len() == old(self)@.windows.len(),
            forall|i: int|
                0 <= i < removed@.len() ==> {
                    &&& old(self)@.is_live((#[trigger] removed@[i]).window@.id)
                    &&& removed@[i].window@ == old(self)@.windows[removed@[i].window@.id]
                    &&& removed@[i].relink is None
                },
            forall|i: int, j: int|
                0 <= i < j < removed@.len() ==> (#[trigger] removed@[i]).window@.id != (
                #[trigger] removed@[j]).window@.id,
            forall|w: u32|
                old(self)@.is_live(w) ==> exists|i: int|
                    0 <= i < removed@.len() && (#[trigger] removed@[i]).window@.id == w,
    {
        let mut taken = Registry::new();
        core::mem::swap(self, &mut taken);
        proof {
            use_type_invariant(&taken);
        }
        let Registry { mut windows, clients, pending, issued, ranks, limit } = taken;
        let ghost before = windows@;
        let ghost state = state_of(before, clients@, pending@, issued);
        assert(state.windows.dom() =~= before.dom());

        let mut ids: Vec<u32> = Vec::new();
        let ghost all = vstd::std_specs::hash::spec_keys_iter(&windows).remaining();
        for k in it: windows.keys()
            invariant
                it.seq() == all,
                ids@.len() == it.index(),
                forall|j: int| 0 <= j < ids@.len() ==> ids@[j] == *it.seq()[j],
        {
            ids.push(*k);
        }
        assert(ids@ =~= all.unref());

        let mut removed: Vec<Removed<N, R>> = Vec::new();
        let n = ids.len();
        let mut i: usize = 0;
        while i < n
            invariant
                n == ids@.len(),
                i <= n,
                ids@.no_duplicates(),
                ids@.to_set() == before.dom(),
                removed@.len() == i,
                forall|k: u32|
                    windows@.contains_key(k) <==> exists|j: int|
                        i <= j < n && #[trigger] ids@[j] == k,
                forall|k: u32| #[trigger] windows@.contains_key(k) ==> windows@[k] == before[k],
                forall|j: int|
                    0 <= j < i ==> {
                        &&& (#[trigger] removed@[j]).window == before[ids@[j]].window
                        &&& removed@[j].relink is None
                    },
            decreases n - i,
        {
            let id = ids[i];
            match windows.remove(&id) {
                Some(entry) => {
                    let Entry { window, .. } = entry;
                    removed.push(Removed { window, relink: None });
                },
                None => {},
            }
            proof {
                assert forall|k: u32| windows@.contains_key(k) <==> exists|j: int|
                    i + 1 <= j < n && #[trigger] ids@[j] == k by {
                }
            }
            i += 1;
        }
        proof {
            assert(windows_of(windows@) =~= Map::<u32, WindowView<N, R>>::empty());
            assert(links_of(windows@) =~= Map::<u32, Link>::empty());
            assert forall|j: int| 0 <= j < removed@.len() implies {
                &&& state.is_live((#[trigger] removed@[j]).window@.id)
                &&& removed@[j].window@ == state.windows[removed@[j].window@.id]
                &&& removed@[j].relink is None
            } by {
                assert(ids@.to_set().contains(ids@[j]));
            }
            assert forall|a: int, b: int| 0 <= a < b < removed@.len() implies (
            #[trigger] removed@[a]).window@.id != (#[trigger] removed@[b]).window@.id by {
                assert(state.windows.contains_key(ids@[a]));
                assert(state.windows.contains_key(ids@[b]));
            }
            assert forall|w: u32| state.is_live(w) implies exists|j: int|
                0 <= j < removed@.len() && (#[trigger] removed@[j]).window@.id == w by {
                let j = choose|j: int| 0 <= j < ids@.len() && ids@[j] == w;
                assert(removed@[j].window@.id == w);
            }
        }
        let fresh_clients: HashMap<u32, u32> = HashMap::new();
        let fresh_pending: HashMap<u32, u64> = HashMap::new();
        *self = Registry {
            windows,
            clients: fresh_clients,
            pending: fresh_pending,
            issued,
            ranks,
            limit,
        };
        removed
    }
}

proof fn lemma_descend_extends(links: Map<u32, Link>, from: u32, hops: nat, at: u32, child: u32)
    requires
        descend(links, from, hops) == Some(at),
        links.contains_key(at),
        links[at].child == Some(child),
        links.contains_key(child),
    ensures
        descend(links, from, hops + 1) == Some(child),
    decreases hops,
{
    if hops == 0 {
        assert(descend(links, child, 0) == Some(child));
    } else {
        let next = links[from].child->0;
        lemma_descend_extends(links, next, (hops - 1) as nat, at, child);
    }
}

} // verus!
