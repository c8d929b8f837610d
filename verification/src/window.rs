//! One mirrored window and its teardown protocol.

use crate::guard::arm_guard;
use crate::guard::defuse_guard;
use crate::handoff::Build;
use crate::texture::Texture;
use crate::texture::TextureSlot;
use crate::texture_set::free_steps;
use crate::texture_set::inventory_after;
use crate::texture_set::lemma_release_clears_inventory;
use crate::texture_set::release_steps;
use crate::texture_set::ReleaseStep;
use crate::texture_set::TextureSet;
use crate::texture_set::TextureSetView;
use drop_bomb::DropBomb;
use vstd::prelude::*;

verus! {

/// A mirrored on-screen window: its X11 identity, the damage handle that
/// tracks its changes, its node in the scene graph and, once the first
/// handoff has succeeded, its texture set.
///
/// A window must end through [`Window::teardown`]. Letting one fall out of
/// scope in any other way panics.
#[derive(Debug)]
pub struct Window<N, R> {
    id: u32,
    name: String,
    damage: u32,
    client_wid: u32,
    textures: Option<TextureSet<R>>,
    node: N,
    guard: DropBomb,
}

/// What a [`Window`] holds.
pub struct WindowView<N, R> {
    pub id: u32,
    pub name: Seq<char>,
    pub damage: u32,
    pub client_wid: u32,
    pub textures: Option<TextureSetView<R>>,
    pub node: N,
}

/// Instruction for the scene graph when a window leaves the middle of a
/// chain: its child becomes the child of its parent, at the given offset in
/// pixels from the parent's centre.
#[derive(Clone, Copy, Debug, PartialEq, Eq, Structural)]
pub struct Relink {
    pub parent: u32,
    pub child: u32,
    pub offset_x: i32,
    pub offset_y: i32,
}

/// One step of a window's teardown, to be carried out in the order in which
/// the steps are listed.
#[derive(Debug, PartialEq, Eq)]
pub enum TeardownStep<N, R> {
    /// Take the node out of its parent/child chain, joining its neighbours
    /// where it had both.
    Unlink(Option<Relink>),
    /// Remove the node from the scene and close it.
    CloseNode(N),
    /// Destroy the damage-tracking handle.
    DestroyDamage(u32),
    /// Give back a GPU resource.
    Release(ReleaseStep<R>),
}

/// What the scene has to do with a window's textures after a render pass.
#[derive(Debug, PartialEq, Eq)]
pub enum Submit<'a, R> {
    /// The set is new: hand the destination texture to the node.
    Fresh(&'a R),
    /// The set was reused: resubmit what the node already has.
    Again,
}

/// One render pass over a window that has textures: blit `source` into
/// `target`, then submit.
#[derive(Debug)]
pub struct Presentation<'a, R> {
    pub source: &'a Texture,
    pub target: &'a Texture,
    pub submit: Submit<'a, R>,
}

/// The decision at the start of a refresh.
#[derive(Debug)]
pub enum Refresh<R> {
    /// The window's set matches its geometry and is used as it is.
    Reuse,
    /// A new set has to be built, after the steps in `release` have given
    /// back the outdated one. `release` is empty where the window had none.
    Rebuild { release: Vec<ReleaseStep<R>>, build: Build },
}

/// The complete teardown of a window, in the mandatory order: unlink from the
/// chain, close the scene node, destroy the damage handle, and only then
/// release the GPU resources, the pixmap last.
pub open spec fn teardown_steps<N, R>(window: WindowView<N, R>, relink: Option<Relink>) -> Seq<
    TeardownStep<N, R>,
> {
    seq![
        TeardownStep::Unlink(relink),
        TeardownStep::CloseNode(window.node),
        TeardownStep::DestroyDamage(window.damage),
    ] + free_steps(window.textures).map_values(|s: ReleaseStep<R>| TeardownStep::Release(s))
}

/// Whether a set was built for the given size.
pub open spec fn fits<R>(set: TextureSetView<R>, width: u16, height: u16) -> bool {
    set.source.spec_width() == width && set.source.spec_height() == height
}

/// Whether a refresh for the given size can go on with the textures at hand.
pub open spec fn reusable<R>(textures: Option<TextureSetView<R>>, width: u16, height: u16) -> bool {
    textures matches Some(t) && fits(t, width, height)
}

/// The window after a refresh for the given size has begun: unchanged where
/// its textures fit, without textures where they do not.
pub open spec fn after_refresh<N, R>(window: WindowView<N, R>, width: u16, height: u16) -> WindowView<
    N,
    R,
> {
    if reusable(window.textures, width, height) {
        window
    } else {
        WindowView { textures: None, ..window }
    }
}

/// Whether `refresh` is the decision for `window` at the given size: reuse
/// where the textures fit; else release all of the outdated set, if there is
/// one, and build a set of the new size.
pub open spec fn refresh_for<N, R>(
    window: WindowView<N, R>,
    width: u16,
    height: u16,
    refresh: Refresh<R>,
) -> bool {
    if reusable(window.textures, width, height) {
        refresh is Reuse
    } else {
        &&& refresh matches Refresh::Rebuild { release, build }
        &&& release@ == free_steps(window.textures)
        &&& build == (Build { window: window.id, width, height })
    }
}

impl<N, R> View for Window<N, R> {
    type V = WindowView<N, R>;

    closed spec fn view(&self) -> WindowView<N, R> {
        WindowView {
            id: self.id,
            name: self.name@,
            damage: self.damage,
            client_wid: self.client_wid,
            textures: match self.textures {
                Some(t) => Some(t@),
                None => None,
            },
            node: self.node,
        }
    }
}

impl<N, R> Window<N, R> {
    /// A window without textures. From here on the value has to be torn down
    /// explicitly.
    pub fn new(id: u32, name: String, damage: u32, client_wid: u32, node: N) -> (window: Self)
        ensures
            window@ == (WindowView::<N, R> {
                id,
                name: name@,
                damage,
                client_wid,
                textures: None,
                node,
            }),
    {
        Window {
            id,
            name,
            damage,
            client_wid,
            textures: None,
            node,
            guard: arm_guard("window released without teardown"),
        }
    }

    pub fn id(&self) -> (id: u32)
        ensures
            id == self@.id,
    {
        self.id
    }

    pub fn name(&self) -> (name: &String)
        ensures
            name@ == self@.name,
    {
        &self.name
    }

    pub fn damage(&self) -> (damage: u32)
        ensures
            damage == self@.damage,
    {
        self.damage
    }

    pub fn client_wid(&self) -> (client_wid: u32)
        ensures
            client_wid == self@.client_wid,
    {
        self.client_wid
    }

    pub fn node(&self) -> (node: &N)
        ensures
            *node == self@.node,
    {
        &self.node
    }

    pub fn textures(&self) -> (textures: Option<&TextureSet<R>>)
        ensures
            match textures {
                Some(t) => self@.textures == Some(t@),
                None => self@.textures is None,
            },
    {
        self.textures.as_ref()
    }

    /// Size of the window contents that the current textures were built for.
    pub fn texture_size(&self) -> (size: Option<(u32, u32)>)
        ensures
            match self@.textures {
                Some(t) => size == Some((t.source.spec_width(), t.source.spec_height())),
                None => size is None,
            },
    {
        match &self.textures {
            Some(t) => Some((t.width(), t.height())),
            None => None,
        }
    }

    /// Decides what a refresh has to do for a window whose geometry is now
    /// `width` by `height`: reuse the set if it fits, else give it up
    /// completely and build a new one.
    pub fn begin_refresh(&mut self, width: u16, height: u16) -> (refresh: Refresh<R>)
        ensures
            refresh_for(old(self)@, width, height, refresh),
            final(self)@ == after_refresh(old(self)@, width, height),
    {
        let reuse = match &self.textures {
            Some(t) => t.width() == width as u32 && t.height() == height as u32,
            None => false,
        };
        if reuse {
            Refresh::Reuse
        } else {
            let stale = self.textures.take();
            let release = TextureSet::free(stale);
            Refresh::Rebuild { release, build: Build { window: self.id, width, height } }
        }
    }

    /// Stores a completed set. A window that already has one keeps it, and
    /// the new set comes back to be released.
    pub fn install(&mut self, set: TextureSet<R>) -> (rejected: Result<(), TextureSet<R>>)
        ensures
            match old(self)@.textures {
                None => {
                    &&& rejected is Ok
                    &&& final(self)@ == (WindowView { textures: Some(set@), ..old(self)@ })
                },
                Some(_) => {
                    &&& rejected == Err::<(), TextureSet<R>>(set)
                    &&& final(self)@ == old(self)@
                },
            },
    {
        if self.textures.is_some() {
            Err(set)
        } else {
            self.textures = Some(set);
            Ok(())
        }
    }

    /// What a render pass has to do once the refresh is over: nothing for a
    /// window without textures, else a blit followed by the submission that
    /// matches whether the set is new.
    pub fn present(&self, refreshed: bool) -> (pass: Option<Presentation<'_, R>>)
        ensures
            match self@.textures {
                None => pass is None,
                Some(t) => {
                    &&& pass matches Some(p)
                    &&& *p.source == t.source
                    &&& *p.target == t.imported
                    &&& refreshed ==> (p.submit matches Submit::Fresh(r) && *r == t.remote)
                    &&& !refreshed ==> p.submit is Again
                },
            },
    {
        match &self.textures {
            None => None,
            Some(t) => {
                let submit = if refreshed {
                    Submit::Fresh(t.remote())
                } else {
                    Submit::Again
                };
                Some(Presentation { source: t.source(), target: t.imported(), submit })
            },
        }
    }

    /// Ends the window's life and lists, in order, everything that has to be
    /// done for it. `relink` says how the scene graph joins the window's
    /// neighbours, where it stood between two of them.
    pub fn teardown(self, relink: Option<Relink>) -> (steps: Vec<TeardownStep<N, R>>)
        ensures
            steps@ == teardown_steps(self@, relink),
    {
        let Window { damage, textures, node, mut guard, .. } = self;
        defuse_guard(&mut guard);
        let mut steps: Vec<TeardownStep<N, R>> = Vec::new();
        steps.push(TeardownStep::Unlink(relink));
        steps.push(TeardownStep::CloseNode(node));
        steps.push(TeardownStep::DestroyDamage(damage));
        match textures {
            Some(set) => {
                let (pixmap, source, remote, imported) = set.into_parts();
                steps.push(TeardownStep::Release(ReleaseStep::ReleaseTexture(imported)));
                steps.push(TeardownStep::Release(ReleaseStep::ReleaseTexture(source)));
                steps.push(TeardownStep::Release(ReleaseStep::DropRemote(remote)));
                steps.push(TeardownStep::Release(ReleaseStep::FreePixmap(pixmap)));
            },
            None => {},
        }
        steps
    }
}

/// In every teardown the node is unlinked before it is closed, and the damage
/// handle is destroyed after that and before any GPU resource is released.
pub proof fn lemma_teardown_order<N, R>(window: WindowView<N, R>, relink: Option<Relink>)
    ensures
        teardown_steps(window, relink).len() >= 3,
        teardown_steps(window, relink)[0] == TeardownStep::<N, R>::Unlink(relink),
        teardown_steps(window, relink)[1] == TeardownStep::<N, R>::CloseNode(window.node),
        teardown_steps(window, relink)[2] == TeardownStep::<N, R>::DestroyDamage(window.damage),
        forall|i: int|
            0 <= i < teardown_steps(window, relink).len() && (#[trigger] teardown_steps(
                window,
                relink,
            )[i]) is Release ==> i > 2,
        forall|i: int|
            3 <= i < teardown_steps(window, relink).len() ==> (#[trigger] teardown_steps(
                window,
                relink,
            )[i]) is Release,
        window.textures matches Some(t) ==> teardown_steps(window, relink).subrange(3, 7)
            == release_steps(t).map_values(|s: ReleaseStep<R>| TeardownStep::<N, R>::Release(s)),
        window.textures is None ==> teardown_steps(window, relink).len() == 3,
{
    let steps = teardown_steps(window, relink);
    let tail = free_steps(window.textures).map_values(
        |s: ReleaseStep<R>| TeardownStep::<N, R>::Release(s),
    );
    match window.textures {
        Some(t) => {
            assert(steps.subrange(3, 7) =~= release_steps(t).map_values(
                |s: ReleaseStep<R>| TeardownStep::<N, R>::Release(s),
            ));
        },
        None => {},
    }
}

/// A refresh at the size that the window's textures were built for reuses
/// them: the window stays as it is and nothing is released or built.
pub proof fn lemma_refresh_at_same_size_reuses<N, R>(
    window: WindowView<N, R>,
    width: u16,
    height: u16,
    refresh: Refresh<R>,
)
    requires
        window.textures matches Some(t) && fits(t, width, height),
        refresh_for(window, width, height, refresh),
    ensures
        refresh is Reuse,
        after_refresh(window, width, height) == window,
{
}

/// A refresh at another size gives the old set up completely before a new
/// one is built: the window is left without textures, the release steps are
/// those of the whole old set, after them neither of its textures is in the
/// worker's inventory, and the set to build has the new size.
pub proof fn lemma_refresh_at_new_size_rebuilds<T, N, R>(
    inventory: Map<usize, TextureSlot<T>>,
    window: WindowView<N, R>,
    width: u16,
    height: u16,
    refresh: Refresh<R>,
)
    requires
        window.textures matches Some(t) && !fits(t, width, height),
        refresh_for(window, width, height, refresh),
    ensures
        refresh matches Refresh::Rebuild { release, build } && {
            &&& release@ == release_steps(window.textures->0)
            &&& build == (Build { window: window.id, width, height })
            &&& !inventory_after(inventory, release@).contains_key(
                window.textures->0.source.spec_id(),
            )
            &&& !inventory_after(inventory, release@).contains_key(
                window.textures->0.imported.spec_id(),
            )
        },
        after_refresh(window, width, height).textures is None,
{
    lemma_release_clears_inventory(inventory, window.textures->0);
}

} // verus!
