//! The bundle of GPU resources behind one mirrored window.

use crate::texture::Texture;
use crate::texture::TextureSlot;
use vstd::prelude::*;

verus! {

/// The four resources that carry a window's pixels from the X server into the
/// scene: the server-side pixmap naming the window's contents, the worker's
/// texture bound to that pixmap, the destination texture in the scene device's
/// memory, and the worker's texture imported from that same memory.
///
/// A set only ever exists complete. It is built by
/// [`Importing::imported`](crate::handoff::Importing::imported) and taken apart
/// by [`TextureSet::release`].
#[derive(Debug)]
pub struct TextureSet<R> {
    x11_pixmap: u32,
    x11_texture: Texture,
    remote_texture: R,
    imported_texture: Texture,
}

/// What a [`TextureSet`] holds.
pub struct TextureSetView<R> {
    pub pixmap: u32,
    pub source: Texture,
    pub remote: R,
    pub imported: Texture,
}

/// One step of giving GPU resources back, to be carried out in the order in
/// which the steps are listed.
#[derive(Debug, PartialEq, Eq)]
pub enum ReleaseStep<R> {
    /// Release a texture in the GPU worker's context.
    ReleaseTexture(Texture),
    /// Give up the destination texture in the scene device's memory.
    DropRemote(R),
    /// Free the server-side pixmap.
    FreePixmap(u32),
}

/// The steps that release a complete set: first the two textures in the
/// worker's context, the imported one before the memory it depends on goes
/// away, then the destination texture, and the server-side pixmap last.
pub open spec fn release_steps<R>(set: TextureSetView<R>) -> Seq<ReleaseStep<R>> {
    seq![
        ReleaseStep::ReleaseTexture(set.imported),
        ReleaseStep::ReleaseTexture(set.source),
        ReleaseStep::DropRemote(set.remote),
        ReleaseStep::FreePixmap(set.pixmap),
    ]
}

/// The steps that release an optional set: none where there is no set.
pub open spec fn free_steps<R>(set: Option<TextureSetView<R>>) -> Seq<ReleaseStep<R>> {
    match set {
        Some(s) => release_steps(s),
        None => Seq::empty(),
    }
}

/// The worker's inventory after it has carried out one release step.
pub open spec fn inventory_after_step<T, R>(
    inventory: Map<usize, TextureSlot<T>>,
    step: ReleaseStep<R>,
) -> Map<usize, TextureSlot<T>> {
    match step {
        ReleaseStep::ReleaseTexture(t) => inventory.remove(t.spec_id()),
        _ => inventory,
    }
}

/// The worker's inventory after it has carried out a list of release steps in
/// order.
pub open spec fn inventory_after<T, R>(
    inventory: Map<usize, TextureSlot<T>>,
    steps: Seq<ReleaseStep<R>>,
) -> Map<usize, TextureSlot<T>>
    decreases steps.len(),
{
    if steps.len() == 0 {
        inventory
    } else {
        inventory_after(inventory_after_step(inventory, steps[0]), steps.drop_first())
    }
}

impl<R> View for TextureSet<R> {
    type V = TextureSetView<R>;

    closed spec fn view(&self) -> TextureSetView<R> {
        TextureSetView {
            pixmap: self.x11_pixmap,
            source: self.x11_texture,
            remote: self.remote_texture,
            imported: self.imported_texture,
        }
    }
}

impl<R> TextureSet<R> {
    pub(crate) fn assemble(
        x11_pixmap: u32,
        x11_texture: Texture,
        remote_texture: R,
        imported_texture: Texture,
    ) -> (set: Self)
        ensures
            set@ == (TextureSetView {
                pixmap: x11_pixmap,
                source: x11_texture,
                remote: remote_texture,
                imported: imported_texture,
            }),
    {
        TextureSet { x11_pixmap, x11_texture, remote_texture, imported_texture }
    }

    pub(crate) fn into_parts(self) -> (parts: (u32, Texture, R, Texture))
        ensures
            parts.0 == self@.pixmap,
            parts.1 == self@.source,
            parts.2 == self@.remote,
            parts.3 == self@.imported,
    {
        let TextureSet { x11_pixmap, x11_texture, remote_texture, imported_texture } = self;
        (x11_pixmap, x11_texture, remote_texture, imported_texture)
    }

    /// The server-side pixmap that names the window's contents.
    pub fn pixmap(&self) -> (pixmap: u32)
        ensures
            pixmap == self@.pixmap,
    {
        self.x11_pixmap
    }

    /// The worker's texture bound to the pixmap: the source of every blit.
    pub fn source(&self) -> (texture: &Texture)
        ensures
            *texture == self@.source,
    {
        &self.x11_texture
    }

    /// The destination texture in the scene device's memory.
    pub fn remote(&self) -> (texture: &R)
        ensures
            *texture == self@.remote,
    {
        &self.remote_texture
    }

    /// The worker's texture imported from the destination texture's memory:
    /// the target of every blit.
    pub fn imported(&self) -> (texture: &Texture)
        ensures
            *texture == self@.imported,
    {
        &self.imported_texture
    }

    /// Width in pixels of the window contents that the set was built for.
    pub fn width(&self) -> (width: u32)
        ensures
            width == self@.source.spec_width(),
    {
        self.x11_texture.width()
    }

    /// Height in pixels of the window contents that the set was built for.
    pub fn height(&self) -> (height: u32)
        ensures
            height == self@.source.spec_height(),
    {
        self.x11_texture.height()
    }

    /// Takes the set apart into the steps that release all of it.
    pub fn release(self) -> (steps: Vec<ReleaseStep<R>>)
        ensures
            steps@ == release_steps(self@),
    {
        let (x11_pixmap, x11_texture, remote_texture, imported_texture) = self.into_parts();
        let mut steps: Vec<ReleaseStep<R>> = Vec::new();
        steps.push(ReleaseStep::ReleaseTexture(imported_texture));
        steps.push(ReleaseStep::ReleaseTexture(x11_texture));
        steps.push(ReleaseStep::DropRemote(remote_texture));
        steps.push(ReleaseStep::FreePixmap(x11_pixmap));
        steps
    }

    /// The steps that release an optional set.
    pub fn free(this: Option<Self>) -> (steps: Vec<ReleaseStep<R>>)
        ensures
            steps@ == free_steps(
                match this {
                    Some(s) => Some(s@),
                    None => None,
                },
            ),
    {
        match this {
            Some(set) => set.release(),
            None => Vec::new(),
        }
    }
}

/// Releasing a set removes both of its textures from the worker's inventory
/// and touches no other entry.
pub proof fn lemma_release_clears_inventory<T, R>(
    inventory: Map<usize, TextureSlot<T>>,
    set: TextureSetView<R>,
)
    ensures
        inventory_after(inventory, release_steps(set)) == inventory.remove(
            set.imported.spec_id(),
        ).remove(set.source.spec_id()),
        !inventory_after(inventory, release_steps(set)).contains_key(set.imported.spec_id()),
        !inventory_after(inventory, release_steps(set)).contains_key(set.source.spec_id()),
{
    let s0 = release_steps(set);
    let i1 = inventory.remove(set.imported.spec_id());
    let i2 = i1.remove(set.source.spec_id());
    let s1 = s0.drop_first();
    let s2 = s1.drop_first();
    let s3 = s2.drop_first();
    let s4 = s3.drop_first();
    assert(inventory_after(i2, s4) == i2);
    assert(inventory_after(i2, s3) == i2);
    assert(inventory_after(i2, s2) == i2);
    assert(inventory_after(i1, s1) == i2);
}

} // verus!
