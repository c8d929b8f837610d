//! Texture handles and the GPU worker's texture inventory.

use std::collections::HashMap;
use vstd::prelude::*;
use vstd::std_specs::iter::IteratorSpec;

verus! {

broadcast use vstd::std_specs::hash::group_hash_axioms;

/// Failures of the GPU resource worker.
#[derive(Clone, Copy, Debug, PartialEq, Eq, Structural)]
pub enum GpuError {
    /// No framebuffer configuration matches the visual with this id.
    NoFbConfig(u32),
    /// The visual with this id is unknown or is not a true-colour visual.
    InvalidVisual(u32),
    /// The server-side pixmap wrapper could not be created.
    PixmapCreation,
    /// The driver refused to import the memory handle as a texture.
    TextureImport,
    /// The driver rejected a draw call or a framebuffer.
    DriverValidation,
}

/// Handle to a texture that lives in the GPU worker's context.
#[derive(Debug, PartialEq, Eq)]
pub struct Texture {
    id: usize,
    width: u32,
    height: u32,
}

impl Texture {
    /// Key of the texture in the worker's inventory.
    pub closed spec fn spec_id(&self) -> usize {
        self.id
    }

    pub closed spec fn spec_width(&self) -> u32 {
        self.width
    }

    pub closed spec fn spec_height(&self) -> u32 {
        self.height
    }

    #[verifier::when_used_as_spec(spec_id)]
    pub fn id(&self) -> (id: usize)
        ensures
            id == self.spec_id(),
    {
        self.id
    }

    #[verifier::when_used_as_spec(spec_width)]
    pub fn width(&self) -> (width: u32)
        ensures
            width == self.spec_width(),
    {
        self.width
    }

    #[verifier::when_used_as_spec(spec_height)]
    pub fn height(&self) -> (height: u32)
        ensures
            height == self.spec_height(),
    {
        self.height
    }
}

/// What the worker keeps for one texture: the driver's texture object and,
/// for a texture bound to an X11 pixmap, the server-side pixmap wrapper that
/// has to be destroyed together with it.
#[derive(Debug)]
pub struct TextureSlot<T> {
    pub object: T,
    pub glx_pixmap: Option<u64>,
}

/// The GPU worker's inventory: every texture that exists in its context,
/// keyed by texture id.
#[derive(Debug)]
pub struct TextureTable<T> {
    slots: HashMap<usize, TextureSlot<T>>,
}

impl<T> View for TextureTable<T> {
    type V = Map<usize, TextureSlot<T>>;

    closed spec fn view(&self) -> Map<usize, TextureSlot<T>> {
        self.slots@
    }
}

impl<T> TextureTable<T> {
    pub fn new() -> (table: Self)
        ensures
            table@ == Map::<usize, TextureSlot<T>>::empty(),
    {
        TextureTable { slots: HashMap::new() }
    }

    /// Number of textures in the inventory.
    pub fn len(&self) -> (n: usize)
        ensures
            n == self@.len(),
            self@.dom().finite(),
    {
        self.slots.len()
    }

    pub fn is_empty(&self) -> (empty: bool)
        ensures
            empty == (self@ == Map::<usize, TextureSlot<T>>::empty()),
    {
        let n = self.slots.len();
        proof {
            if n == 0 {
                assert(self@.dom() =~= Set::<usize>::empty()) by {
                    if self@.dom().len() == 0 {
                        vstd::set_lib::lemma_set_empty_equivalency_len(self@.dom());
                    }
                }
                assert(self@ =~= Map::<usize, TextureSlot<T>>::empty());
            }
        }
        n == 0
    }

    pub fn contains(&self, id: usize) -> (present: bool)
        ensures
            present == self@.contains_key(id),
    {
        self.slots.contains_key(&id)
    }

    /// Records a texture that was bound to an X11 pixmap. An earlier entry
    /// under the same id is replaced.
    pub fn register_bound(
        &mut self,
        id: usize,
        glx_pixmap: u64,
        width: u32,
        height: u32,
        object: T,
    ) -> (texture: Texture)
        ensures
            final(self)@ == old(self)@.insert(
                id,
                (TextureSlot { object, glx_pixmap: Some(glx_pixmap) }),
            ),
            texture.spec_id() == id,
            texture.spec_width() == width,
            texture.spec_height() == height,
    {
        self.slots.insert(id, TextureSlot { object, glx_pixmap: Some(glx_pixmap) });
        Texture { id, width, height }
    }

    /// Records a texture that was imported from a memory handle. An earlier
    /// entry under the same id is replaced.
    pub fn register_imported(&mut self, id: usize, width: u32, height: u32, object: T) -> (texture:
        Texture)
        ensures
            final(self)@ == old(self)@.insert(id, (TextureSlot { object, glx_pixmap: None })),
            texture.spec_id() == id,
            texture.spec_width() == width,
            texture.spec_height() == height,
    {
        self.slots.insert(id, TextureSlot { object, glx_pixmap: None });
        Texture { id, width, height }
    }

    /// Takes a texture out of the inventory. The caller destroys the returned
    /// texture object and, if there is one, the pixmap wrapper. `None` means
    /// the handle was not in the inventory, and nothing changed.
    pub fn release(&mut self, texture: Texture) -> (slot: Option<TextureSlot<T>>)
        ensures
            final(self)@ == old(self)@.remove(texture.spec_id()),
            match slot {
                Some(s) => old(self)@.contains_key(texture.spec_id()) && s == old(self)@[
                    texture.spec_id()
                ],
                None => !old(self)@.contains_key(texture.spec_id()),
            },
    {
        let id = texture.id;
        self.slots.remove(&id)
    }

    /// The texture objects of a source and a destination for a blit. Both
    /// have to be in the inventory.
    pub fn pair(&self, src: usize, dst: usize) -> (objects: (&T, &T))
        requires
            self@.contains_key(src),
            self@.contains_key(dst),
        ensures
            *objects.0 == self@[src].object,
            *objects.1 == self@[dst].object,
    {
        let source = self.slots.get(&src).unwrap();
        let target = self.slots.get(&dst).unwrap();
        (&source.object, &target.object)
    }

    /// Empties the inventory and returns what it held, each entry with its
    /// id, so that the texture objects and the pixmap wrappers can be
    /// destroyed.
    pub fn drain(&mut self) -> (entries: Vec<(usize, TextureSlot<T>)>)
        ensures
            final(self)@ == Map::<usize, TextureSlot<T>>::empty(),
            entries@.len() == old(self)@.len(),
            forall|i: int|
                0 <= i < entries@.len() ==> old(self)@.contains_key((#[trigger] entries@[i]).0)
                    && old(self)@[entries@[i].0] == entries@[i].1,
            forall|i: int, j: int|
                0 <= i < j < entries@.len() ==> (#[trigger] entries@[i]).0 != (
                #[trigger] entries@[j]).0,
            forall|id: usize|
                old(self)@.contains_key(id) ==> exists|i: int|
                    0 <= i < entries@.len() && (#[trigger] entries@[i]).0 == id,
    {
        let ghost before = self.slots@;
        let mut ids: Vec<usize> = Vec::new();
        let ghost all = vstd::std_specs::hash::spec_keys_iter(&self.slots).remaining();
        for k in it: self.slots.keys()
            invariant
                it.seq() == all,
                ids@.len() == it.index(),
                forall|j: int| 0 <= j < ids@.len() ==> ids@[j] == *it.seq()[j],
        {
            ids.push(*k);
        }
        assert(ids@ =~= all.unref());

        let mut entries: Vec<(usize, TextureSlot<T>)> = Vec::new();
        let n = ids.len();
        let mut i: usize = 0;
        while i < n
            invariant
                n == ids@.len(),
                i <= n,
                ids@.no_duplicates(),
                ids@.to_set() == before.dom(),
                entries@.len() == i,
                forall|k: usize|
                    self.slots@.contains_key(k) <==> exists|j: int|
                        i <= j < n && #[trigger] ids@[j] == k,
                forall|k: usize| #[trigger]
                    self.slots@.contains_key(k) ==> self.slots@[k] == before[k],
                forall|j: int|
                    0 <= j < i ==> (#[trigger] entries@[j]).0 == ids@[j] && entries@[j].1
                        == before[ids@[j]],
            decreases n - i,
        {
            let id = ids[i];
            match self.slots.remove(&id) {
                Some(slot) => {
                    entries.push((id, slot));
                },
                None => {},
            }
            proof {
                assert forall|k: usize| self.slots@.contains_key(k) <==> exists|j: int|
                    i + 1 <= j < n && #[trigger] ids@[j] == k by {
                }
            }
            i += 1;
        }
        proof {
            assert forall|id: usize| before.contains_key(id) implies exists|j: int|
                0 <= j < entries@.len() && (#[trigger] entries@[j]).0 == id by {
                let j = choose|j: int| 0 <= j < ids@.len() && ids@[j] == id;
                assert(entries@[j].0 == id);
            }
        }
        entries
    }
}

} // verus!
