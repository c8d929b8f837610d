//! The texture handoff: building a complete [`TextureSet`] for a window, one
//! outside step at a time.
//!
//! Each stage of the build is a value of its own type. The embedding program
//! performs the outside step that the stage asks for and hands the outcome to
//! the stage, which either yields the next stage or an [`Abort`] that lists
//! what has to be released again. A [`TextureSet`] comes into being only when
//! the last step has succeeded.

use crate::texture::GpuError;
use crate::texture::Texture;
use crate::texture::TextureSlot;
use crate::texture_set::inventory_after;
use crate::texture_set::ReleaseStep;
use crate::texture_set::TextureSet;
use crate::texture_set::TextureSetView;
use vstd::prelude::*;

verus! {

/// Why a handoff did not complete.
#[derive(Clone, Copy, Debug, PartialEq, Eq, Structural)]
pub enum HandoffError {
    /// The worker could not bind the window's pixmap.
    Bind(GpuError),
    /// The scene device could not allocate or export the destination texture.
    Export,
    /// The worker could not import the exported memory.
    Import(GpuError),
}

/// A handoff that failed, with the steps that give back what it had already
/// acquired. Nothing of the attempt stays registered once the steps are done.
#[derive(Debug)]
pub struct Abort<R> {
    pub error: HandoffError,
    pub cleanup: Vec<ReleaseStep<R>>,
}

/// First stage: the window's contents have to be named by a fresh
/// server-side pixmap, and the window's visual looked up.
#[derive(Clone, Copy, Debug, PartialEq, Eq, Structural)]
pub struct Build {
    pub window: u32,
    pub width: u16,
    pub height: u16,
}

/// Second stage: the worker has to bind the pixmap as a texture.
#[derive(Clone, Copy, Debug, PartialEq, Eq, Structural)]
pub struct Binding {
    pub width: u16,
    pub height: u16,
    pub pixmap: u32,
    pub visual: u32,
}

/// Third stage: the scene device has to allocate a destination texture of the
/// window's size and export its memory.
#[derive(Debug)]
pub struct Exporting {
    pub width: u16,
    pub height: u16,
    pub pixmap: u32,
    pub source: Texture,
}

/// Fourth stage: the worker has to import the exported memory as a texture.
#[derive(Debug)]
pub struct Importing<R> {
    pub width: u16,
    pub height: u16,
    pub pixmap: u32,
    pub source: Texture,
    pub remote: R,
    pub fd: i32,
    pub size: u64,
}

/// What has to be released when binding failed: only the pixmap exists.
pub open spec fn cleanup_after_bind<R>(pixmap: u32) -> Seq<ReleaseStep<R>> {
    seq![ReleaseStep::FreePixmap(pixmap)]
}

/// What has to be released when the export failed: the bound texture, then
/// the pixmap.
pub open spec fn cleanup_after_export<R>(pixmap: u32, source: Texture) -> Seq<ReleaseStep<R>> {
    seq![ReleaseStep::ReleaseTexture(source), ReleaseStep::FreePixmap(pixmap)]
}

/// What has to be released when the import failed: the bound texture, the
/// destination texture, then the pixmap.
pub open spec fn cleanup_after_import<R>(pixmap: u32, source: Texture, remote: R) -> Seq<
    ReleaseStep<R>,
> {
    seq![
        ReleaseStep::ReleaseTexture(source),
        ReleaseStep::DropRemote(remote),
        ReleaseStep::FreePixmap(pixmap),
    ]
}

impl Build {
    /// The pixmap was named. Binding it is next.
    pub fn named(self, pixmap: u32, visual: u32) -> (next: Binding)
        ensures
            next == (Binding { width: self.width, height: self.height, pixmap, visual }),
    {
        Binding { width: self.width, height: self.height, pixmap, visual }
    }
}

impl Binding {
    /// Takes the worker's answer to the bind request.
    pub fn bound<R>(self, outcome: Result<Texture, GpuError>) -> (next: Result<Exporting, Abort<R>>)
        ensures
            match outcome {
                Ok(source) => next == Ok::<Exporting, Abort<R>>(
                    Exporting {
                        width: self.width,
                        height: self.height,
                        pixmap: self.pixmap,
                        source,
                    },
                ),
                Err(e) => {
                    &&& next is Err
                    &&& next->Err_0.error == HandoffError::Bind(e)
                    &&& next->Err_0.cleanup@ == cleanup_after_bind::<R>(self.pixmap)
                },
            },
    {
        match outcome {
            Ok(source) => Ok(
                Exporting { width: self.width, height: self.height, pixmap: self.pixmap, source },
            ),
            Err(e) => {
                let mut cleanup: Vec<ReleaseStep<R>> = Vec::new();
                cleanup.push(ReleaseStep::FreePixmap(self.pixmap));
                Err(Abort { error: HandoffError::Bind(e), cleanup })
            },
        }
    }
}

impl Exporting {
    /// Takes the scene device's answer to the export request: the
    /// destination texture with the file descriptor and size of its memory,
    /// or nothing if it failed.
    pub fn exported<R>(self, outcome: Option<(R, i32, u64)>) -> (next: Result<
        Importing<R>,
        Abort<R>,
    >)
        ensures
            match outcome {
                Some((remote, fd, size)) => next == Ok::<Importing<R>, Abort<R>>(
                    Importing {
                        width: self.width,
                        height: self.height,
                        pixmap: self.pixmap,
                        source: self.source,
                        remote,
                        fd,
                        size,
                    },
                ),
                None => {
                    &&& next is Err
                    &&& next->Err_0.error == HandoffError::Export
                    &&& next->Err_0.cleanup@ == cleanup_after_export::<R>(self.pixmap, self.source)
                },
            },
    {
        let Exporting { width, height, pixmap, source } = self;
        match outcome {
            Some((remote, fd, size)) => Ok(
                Importing { width, height, pixmap, source, remote, fd, size },
            ),
            None => {
                let mut cleanup: Vec<ReleaseStep<R>> = Vec::new();
                cleanup.push(ReleaseStep::ReleaseTexture(source));
                cleanup.push(ReleaseStep::FreePixmap(pixmap));
                Err(Abort { error: HandoffError::Export, cleanup })
            },
        }
    }
}

impl<R> Importing<R> {
    /// Takes the worker's answer to the import request. Success completes the
    /// set; failure releases everything acquired so far.
    pub fn imported(self, outcome: Result<Texture, GpuError>) -> (next: Result<
        TextureSet<R>,
        Abort<R>,
    >)
        ensures
            match outcome {
                Ok(imported) => {
                    &&& next is Ok
                    &&& next->Ok_0@ == (TextureSetView {
                        pixmap: self.pixmap,
                        source: self.source,
                        remote: self.remote,
                        imported,
                    })
                },
                Err(e) => {
                    &&& next is Err
                    &&& next->Err_0.error == HandoffError::Import(e)
                    &&& next->Err_0.cleanup@ == cleanup_after_import(
                        self.pixmap,
                        self.source,
                        self.remote,
                    )
                },
            },
    {
        let Importing { pixmap, source, remote, .. } = self;
        match outcome {
            Ok(imported) => Ok(TextureSet::assemble(pixmap, source, remote, imported)),
            Err(e) => {
                let mut cleanup: Vec<ReleaseStep<R>> = Vec::new();
                cleanup.push(ReleaseStep::ReleaseTexture(source));
                cleanup.push(ReleaseStep::DropRemote(remote));
                cleanup.push(ReleaseStep::FreePixmap(pixmap));
                Err(Abort { error: HandoffError::Import(e), cleanup })
            },
        }
    }
}

/// After a failed import has been cleaned up, the texture that the bind step
/// had registered is gone from the worker's inventory, and no other entry was
/// touched. In particular an inventory that held nothing else is empty again.
pub proof fn lemma_failed_import_leaves_nothing<T, R>(
    inventory: Map<usize, TextureSlot<T>>,
    pixmap: u32,
    source: Texture,
    remote: R,
)
    ensures
        inventory_after(inventory, cleanup_after_import(pixmap, source, remote))
            == inventory.remove(source.spec_id()),
        inventory.dom().subset_of(set![source.spec_id()]) ==> inventory_after(
            inventory,
            cleanup_after_import(pixmap, source, remote),
        ) == Map::<usize, TextureSlot<T>>::empty(),
{
    let s0 = cleanup_after_import(pixmap, source, remote);
    let i1 = inventory.remove(source.spec_id());
    let s1 = s0.drop_first();
    let s2 = s1.drop_first();
    let s3 = s2.drop_first();
    assert(inventory_after(i1, s3) == i1);
    assert(inventory_after(i1, s2) == i1);
    assert(inventory_after(i1, s1) == i1);
}

/// After a failed export has been cleaned up, the texture that the bind step
/// had registered is gone from the worker's inventory.
pub proof fn lemma_failed_export_leaves_nothing<T, R>(
    inventory: Map<usize, TextureSlot<T>>,
    pixmap: u32,
    source: Texture,
)
    ensures
        inventory_after(inventory, cleanup_after_export::<R>(pixmap, source)) == inventory.remove(
            source.spec_id(),
        ),
{
    let s0 = cleanup_after_export::<R>(pixmap, source);
    let i1 = inventory.remove(source.spec_id());
    let s1 = s0.drop_first();
    let s2 = s1.drop_first();
    assert(inventory_after(i1, s2) == i1);
    assert(inventory_after(i1, s1) == i1);
}

} // verus!
