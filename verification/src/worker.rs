//! The GPU resource worker: the single owner of the graphics context.
//!
//! Every GPU operation is a [`Request`] that the worker's thread takes from
//! its queue and carries out, one after another in the order of arrival. The
//! driver calls themselves are made by the embedding program; [`Worker`]
//! holds what the worker knows and decides what each request amounts to.

use crate::texture::GpuError;
use crate::texture::Texture;
use crate::texture::TextureSlot;
use crate::texture::TextureTable;
use crate::visual::fbconfig_request;
use crate::visual::find_visual;
use crate::visual::is_lookup;
use crate::visual::request_for;
use crate::visual::select_fbconfig;
use crate::visual::serves;
use crate::visual::Depth;
use crate::visual::FbConfig;
use crate::visual::FbConfigRequest;
use crate::visual::VisualType;
use vstd::prelude::*;

verus! {

/// A request to the worker.
#[derive(Debug, PartialEq, Eq)]
pub enum Request {
    /// Bind an X11 pixmap of the given visual as a texture.
    BindTexture { pixmap: u32, visual: u32 },
    /// Import externally allocated memory, given as a file descriptor and a
    /// size in bytes, as a texture of the given size.
    ImportFd { width: u32, height: u32, fd: i32, size: u64 },
    /// Destroy a texture and what belongs to it.
    ReleaseTexture { texture: Texture },
    /// Draw the texture `src` into the texture `dst` and wait until the GPU
    /// has finished.
    Blit { src: usize, dst: usize },
    /// Start or stop a frame capture.
    Capture { start: bool },
}

/// What a capture request amounts to.
#[derive(Clone, Copy, Debug, PartialEq, Eq, Structural)]
pub enum CaptureAction {
    Nothing,
    StartFrame,
    EndFrame,
}

/// What binding a pixmap of some visual needs: the depth and the visual, and
/// what to ask of a framebuffer configuration.
#[derive(Clone, Copy, Debug, PartialEq, Eq, Structural)]
pub struct BindPlan {
    pub depth: u8,
    pub visual: VisualType,
    pub request: FbConfigRequest,
}

/// What the worker knows: the visuals of the screen, the textures in its
/// context, and whether a frame-capture tool is attached.
#[derive(Debug)]
pub struct Worker<T> {
    depths: Vec<Depth>,
    table: TextureTable<T>,
    capture_attached: bool,
}

/// The plan for a visual, from the outcome of looking it up: an unknown
/// visual is invalid; for a known one the plan stands or falls with the
/// request for its configuration.
pub open spec fn plan_for(found: Option<(u8, VisualType)>, visual: u32) -> Result<BindPlan, GpuError> {
    match found {
        None => Err(GpuError::InvalidVisual(visual)),
        Some((depth, visual_type)) => match request_for(depth, visual_type) {
            Err(e) => Err(e),
            Ok(request) => Ok(BindPlan { depth, visual: visual_type, request }),
        },
    }
}

impl Request {
    /// The request to draw one texture into another.
    pub fn blit(src: &Texture, dst: &Texture) -> (request: Request)
        ensures
            request == (Request::Blit { src: src.spec_id(), dst: dst.spec_id() }),
    {
        Request::Blit { src: src.id(), dst: dst.id() }
    }
}

impl<T> Worker<T> {
    /// The textures in the worker's context.
    pub closed spec fn inventory(&self) -> Map<usize, TextureSlot<T>> {
        self.table@
    }

    /// The visuals of the screen, by depth.
    pub closed spec fn depths(&self) -> Seq<Depth> {
        self.depths@
    }

    /// Whether a frame-capture tool is attached.
    pub closed spec fn captures(&self) -> bool {
        self.capture_attached
    }

    /// A worker without textures.
    pub fn new(depths: Vec<Depth>, capture_attached: bool) -> (worker: Self)
        ensures
            worker.inventory() == Map::<usize, TextureSlot<T>>::empty(),
            worker.depths() == depths@,
            worker.captures() == capture_attached,
    {
        Worker { depths, table: TextureTable::new(), capture_attached }
    }

    /// Number of textures in the worker's context.
    pub fn texture_count(&self) -> (n: usize)
        ensures
            n == self.inventory().len(),
    {
        self.table.len()
    }

    /// Whether the worker's context holds a texture with this id.
    pub fn has_texture(&self, id: usize) -> (present: bool)
        ensures
            present == self.inventory().contains_key(id),
    {
        self.table.contains(id)
    }

    /// First step of binding a pixmap: looks the visual up and works out
    /// what to ask of a framebuffer configuration.
    pub fn plan_bind(&self, visual: u32) -> (plan: Result<BindPlan, GpuError>)
        ensures
            exists|found: Option<(u8, VisualType)>|
                is_lookup(self.depths(), visual, found) && plan == plan_for(found, visual),
    {
        let found = find_visual(&self.depths, visual);
        let plan = match found {
            None => Err(GpuError::InvalidVisual(visual)),
            Some((depth, visual_type)) => match fbconfig_request(depth, &visual_type) {
                Err(e) => Err(e),
                Ok(request) => Ok(BindPlan { depth, visual: visual_type, request }),
            },
        };
        assert(is_lookup(self.depths(), visual, found) && plan == plan_for(found, visual));
        plan
    }

    /// Second step of binding a pixmap: picks the first of the reported
    /// configurations that serves the plan.
    pub fn choose_config(&self, plan: &BindPlan, configs: &Vec<FbConfig>) -> (chosen: Result<
        usize,
        GpuError,
    >)
        ensures
            match chosen {
                Ok(i) => {
                    &&& i < configs@.len()
                    &&& serves(self.depths(), plan.request, configs@[i as int])
                    &&& forall|j: int|
                        0 <= j < i ==> !serves(self.depths(), plan.request, #[trigger] configs@[j])
                },
                Err(e) => {
                    &&& e == GpuError::NoFbConfig(plan.request.visual_id)
                    &&& forall|j: int|
                        0 <= j < configs@.len() ==> !serves(
                            self.depths(),
                            plan.request,
                            #[trigger] configs@[j],
                        )
                },
            },
    {
        select_fbconfig(&self.depths, &plan.request, configs)
    }

    /// Third step of binding a pixmap: the display hands out 0 where it
    /// could not create the server-side wrapper.
    pub fn wrapper_created(glx_pixmap: u64) -> (created: Result<u64, GpuError>)
        ensures
            created == if glx_pixmap == 0 {
                Err::<u64, GpuError>(GpuError::PixmapCreation)
            } else {
                Ok::<u64, GpuError>(glx_pixmap)
            },
    {
        if glx_pixmap == 0 {
            Err(GpuError::PixmapCreation)
        } else {
            Ok(glx_pixmap)
        }
    }

    /// Last step of binding a pixmap: records the texture that was bound to
    /// the wrapper, with the size of the pixmap.
    pub fn bound(&mut self, id: usize, glx_pixmap: u64, width: u16, height: u16, object: T) -> (texture:
        Texture)
        ensures
            final(self).inventory() == old(self).inventory().insert(
                id,
                (TextureSlot { object, glx_pixmap: Some(glx_pixmap) }),
            ),
            final(self).depths() == old(self).depths(),
            final(self).captures() == old(self).captures(),
            texture.spec_id() == id,
            texture.spec_width() == width,
            texture.spec_height() == height,
    {
        self.table.register_bound(id, glx_pixmap, width as u32, height as u32, object)
    }

    /// Takes the driver's answer to an import: the id and the object of the
    /// new texture, or nothing where the driver refused.
    pub fn imported(&mut self, outcome: Option<(usize, T)>, width: u32, height: u32) -> (texture:
        Result<Texture, GpuError>)
        ensures
            final(self).depths() == old(self).depths(),
            final(self).captures() == old(self).captures(),
            match outcome {
                Some((id, object)) => {
                    &&& texture matches Ok(t)
                    &&& t.spec_id() == id
                    &&& t.spec_width() == width
                    &&& t.spec_height() == height
                    &&& final(self).inventory() == old(self).inventory().insert(
                        id,
                        (TextureSlot { object, glx_pixmap: None }),
                    )
                },
                None => {
                    &&& texture == Err::<Texture, GpuError>(GpuError::TextureImport)
                    &&& final(self).inventory() == old(self).inventory()
                },
            },
    {
        match outcome {
            Some((id, object)) => Ok(self.table.register_imported(id, width, height, object)),
            None => Err(GpuError::TextureImport),
        }
    }

    /// Takes a texture out of the worker's context. The caller destroys the
    /// texture object and, where the texture was bound to a pixmap, the
    /// server-side wrapper. A handle that is not in the context changes
    /// nothing.
    pub fn release(&mut self, texture: Texture) -> (slot: Option<TextureSlot<T>>)
        ensures
            final(self).inventory() == old(self).inventory().remove(texture.spec_id()),
            final(self).depths() == old(self).depths(),
            final(self).captures() == old(self).captures(),
            match slot {
                Some(s) => old(self).inventory().contains_key(texture.spec_id()) && s == old(
                    self,
                ).inventory()[texture.spec_id()],
                None => !old(self).inventory().contains_key(texture.spec_id()),
            },
    {
        self.table.release(texture)
    }

    /// The texture objects to draw from and into for a blit. Both textures
    /// have to be in the worker's context, which is left as it is.
    pub fn blit_pair(&self, src: usize, dst: usize) -> (objects: (&T, &T))
        requires
            self.inventory().contains_key(src),
            self.inventory().contains_key(dst),
        ensures
            *objects.0 == self.inventory()[src].object,
            *objects.1 == self.inventory()[dst].object,
    {
        self.table.pair(src, dst)
    }

    /// What a capture request amounts to: nothing unless a capture tool is
    /// attached.
    pub fn capture(&self, start: bool) -> (action: CaptureAction)
        ensures
            action == if !self.captures() {
                CaptureAction::Nothing
            } else if start {
                CaptureAction::StartFrame
            } else {
                CaptureAction::EndFrame
            },
    {
        if !self.capture_attached {
            CaptureAction::Nothing
        } else if start {
            CaptureAction::StartFrame
        } else {
            CaptureAction::EndFrame
        }
    }

    /// Ends the worker: hands out every texture that is left, so that no
    /// server-side wrapper outlives the worker.
    pub fn shutdown(&mut self) -> (entries: Vec<(usize, TextureSlot<T>)>)
        ensures
            final(self).inventory() == Map::<usize, TextureSlot<T>>::empty(),
            final(self).depths() == old(self).depths(),
            final(self).captures() == old(self).captures(),
            entries@.len() == old(self).inventory().len(),
            forall|i: int|
                0 <= i < entries@.len() ==> old(self).inventory().contains_key(
                    (#[trigger] entries@[i]).0,
                ) && old(self).inventory()[entries@[i].0] == entries@[i].1,
            forall|i: int, j: int|
                0 <= i < j < entries@.len() ==> (#[trigger] entries@[i]).0 != (
                #[trigger] entries@[j]).0,
            forall|id: usize|
                old(self).inventory().contains_key(id) ==> exists|i: int|
                    0 <= i < entries@.len() && (#[trigger] entries@[i]).0 == id,
    {
        self.table.drain()
    }
}

} // verus!
