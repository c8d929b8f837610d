//! X11 visuals and the framebuffer configurations that can present them.

use crate::texture::GpuError;
use vstd::prelude::*;

verus! {

pub const GLX_BUFFER_SIZE: i32 = 2;

pub const GLX_RED_SIZE: i32 = 8;

pub const GLX_GREEN_SIZE: i32 = 9;

pub const GLX_BLUE_SIZE: i32 = 10;

pub const GLX_ALPHA_SIZE: i32 = 11;

pub const GLX_X_VISUAL_TYPE: i32 = 0x22;

pub const GLX_TRUE_COLOR: i32 = 0x8002;

pub const GLX_DRAWABLE_TYPE: i32 = 0x8010;

pub const GLX_RENDER_TYPE: i32 = 0x8011;

pub const GLX_X_RENDERABLE: i32 = 0x8012;

pub const GLX_RGBA_BIT: i32 = 0x1;

pub const GLX_PIXMAP_BIT: i32 = 0x2;

pub const GLX_TEXTURE_2D_BIT_EXT: i32 = 0x2;

pub const GLX_TEXTURE_FORMAT_EXT: i32 = 0x20D5;

pub const GLX_TEXTURE_TARGET_EXT: i32 = 0x20D6;

pub const GLX_TEXTURE_FORMAT_RGB_EXT: i32 = 0x20D9;

pub const GLX_TEXTURE_FORMAT_RGBA_EXT: i32 = 0x20DA;

pub const GLX_TEXTURE_2D_EXT: i32 = 0x20DC;

/// How a visual turns pixel values into colours.
#[derive(Clone, Copy, Debug, PartialEq, Eq, Structural)]
pub enum VisualClass {
    StaticGray,
    GrayScale,
    StaticColor,
    PseudoColor,
    /// Pixel values encode the colour channels directly, through fixed masks.
    TrueColor,
    DirectColor,
}

/// A visual of the X server.
#[derive(Clone, Copy, Debug, PartialEq, Eq, Structural)]
pub struct VisualType {
    pub visual_id: u32,
    pub class: VisualClass,
    pub red_mask: u32,
    pub green_mask: u32,
    pub blue_mask: u32,
}

/// The visuals that the screen offers at one colour depth.
#[derive(Clone, Debug, PartialEq, Eq)]
pub struct Depth {
    pub depth: u8,
    pub visuals: Vec<VisualType>,
}

/// What is asked of a framebuffer configuration: the size of each colour
/// channel and of the whole pixel, in bits.
#[derive(Clone, Copy, Debug, PartialEq, Eq, Structural)]
pub struct FbConfigRequest {
    pub visual_id: u32,
    pub red_bits: u8,
    pub green_bits: u8,
    pub blue_bits: u8,
    pub alpha_bits: u8,
    pub depth: u8,
}

/// What the display reports of one of its framebuffer configurations.
#[derive(Clone, Copy, Debug, PartialEq, Eq, Structural)]
pub struct FbConfig {
    /// The id of the configuration's visual, 0 if it has none.
    pub visual_id: u32,
    /// The texture targets that a pixmap of this configuration can be bound
    /// to, as a bit set.
    pub texture_targets: i32,
    pub red_bits: i32,
    pub green_bits: i32,
    pub blue_bits: i32,
    pub buffer_size: i32,
}

/// The number of one bits in `x`.
pub open spec fn ones(x: u32) -> nat
    decreases x,
{
    if x == 0 {
        0
    } else {
        ((x % 2) + ones(x / 2)) as nat
    }
}

/// `u32::count_ones` returns the number of ones in the binary representation
/// of its argument.
pub assume_specification[ u32::count_ones ](x: u32) -> (count: u32)
    ensures
        count == ones(x),
        count <= 32,
;

/// Whether the visual number `v` of the depth number `d` has the id `visual`.
pub open spec fn names_visual(depths: Seq<Depth>, d: int, v: int, visual: u32) -> bool {
    &&& 0 <= d < depths.len()
    &&& 0 <= v < depths[d].visuals@.len()
    &&& depths[d].visuals@[v].visual_id == visual
}

/// Whether place (`d1`, `v1`) comes before place (`d2`, `v2`) when the depths
/// and their visuals are read in order.
pub open spec fn comes_before(d1: int, v1: int, d2: int, v2: int) -> bool {
    d1 < d2 || (d1 == d2 && v1 < v2)
}

/// Whether `found` is the outcome of looking up `visual`: the depth and the
/// visual at the first place that has this id, or nothing if no place has it.
pub open spec fn is_lookup(depths: Seq<Depth>, visual: u32, found: Option<(u8, VisualType)>) -> bool {
    match found {
        Some((depth, visual_type)) => exists|d: int, v: int|
            {
                &&& #[trigger] names_visual(depths, d, v, visual)
                &&& depth == depths[d].depth
                &&& visual_type == depths[d].visuals@[v]
                &&& forall|d0: int, v0: int|
                    comes_before(d0, v0, d, v) ==> !#[trigger] names_visual(depths, d0, v0, visual)
            },
        None => forall|d: int, v: int| !#[trigger] names_visual(depths, d, v, visual),
    }
}

/// Whether a reported configuration serves a request: it has a visual, a
/// pixmap of it can be bound to a 2D texture, its channels and its pixel have
/// the requested sizes, and its visual is one of the requested depth.
pub open spec fn serves(depths: Seq<Depth>, request: FbConfigRequest, config: FbConfig) -> bool {
    &&& config.visual_id != 0
    &&& config.texture_targets & GLX_TEXTURE_2D_BIT_EXT != 0
    &&& config.red_bits == request.red_bits
    &&& config.green_bits == request.green_bits
    &&& config.blue_bits == request.blue_bits
    &&& config.buffer_size == request.depth
    &&& exists|visual_type: VisualType|
        is_lookup(depths, config.visual_id, Some((request.depth, visual_type)))
}

/// The attribute list that asks the display for configurations that may
/// serve the request, in the form that `glXChooseFBConfig` takes.
pub open spec fn request_attributes(request: FbConfigRequest) -> Seq<i32> {
    seq![
        GLX_RED_SIZE,
        request.red_bits as i32,
        GLX_GREEN_SIZE,
        request.green_bits as i32,
        GLX_BLUE_SIZE,
        request.blue_bits as i32,
        GLX_ALPHA_SIZE,
        request.alpha_bits as i32,
        GLX_BUFFER_SIZE,
        request.depth as i32,
        GLX_RENDER_TYPE,
        GLX_RGBA_BIT,
        GLX_DRAWABLE_TYPE,
        GLX_PIXMAP_BIT,
        GLX_X_VISUAL_TYPE,
        GLX_TRUE_COLOR,
        GLX_X_RENDERABLE,
        1,
        0,
    ]
}

/// The attribute list for the server-side wrapper of a pixmap of the given
/// depth: a 2D texture with an alpha channel exactly for 32-bit pixels.
pub open spec fn wrapper_attributes(depth: u8) -> Seq<i32> {
    seq![
        GLX_TEXTURE_FORMAT_EXT,
        if depth == 32 {
            GLX_TEXTURE_FORMAT_RGBA_EXT
        } else {
            GLX_TEXTURE_FORMAT_RGB_EXT
        },
        GLX_TEXTURE_TARGET_EXT,
        GLX_TEXTURE_2D_EXT,
        0,
    ]
}

/// What is asked of a configuration for a visual of the given depth, or the
/// reason why none can be had: the visual has to be a true-colour visual, and
/// its three channels have to fit into the depth; what is left of the depth
/// is the alpha channel.
pub open spec fn request_for(depth: u8, visual: VisualType) -> Result<FbConfigRequest, GpuError> {
    if visual.class != VisualClass::TrueColor {
        Err(GpuError::InvalidVisual(visual.visual_id))
    } else if ones(visual.red_mask) + ones(visual.green_mask) + ones(visual.blue_mask) > depth {
        Err(GpuError::NoFbConfig(visual.visual_id))
    } else {
        Ok(
            FbConfigRequest {
                visual_id: visual.visual_id,
                red_bits: ones(visual.red_mask) as u8,
                green_bits: ones(visual.green_mask) as u8,
                blue_bits: ones(visual.blue_mask) as u8,
                alpha_bits: (depth - ones(visual.red_mask) - ones(visual.green_mask) - ones(
                    visual.blue_mask,
                )) as u8,
                depth,
            },
        )
    }
}

/// Looks up a visual by its id among the visuals of all depths.
pub fn find_visual(depths: &Vec<Depth>, visual: u32) -> (found: Option<(u8, VisualType)>)
    ensures
        is_lookup(depths@, visual, found),
{
    let mut d: usize = 0;
    while d < depths.len()
        invariant
            d <= depths@.len(),
            forall|d0: int, v0: int| d0 < d ==> !#[trigger] names_visual(depths@, d0, v0, visual),
        decreases depths@.len() - d,
    {
        let visuals = &depths[d].visuals;
        let mut v: usize = 0;
        while v < visuals.len()
            invariant
                d < depths@.len(),
                *visuals == depths@[d as int].visuals,
                v <= visuals@.len(),
                forall|d0: int, v0: int|
                    comes_before(d0, v0, d as int, v as int) ==> !#[trigger] names_visual(
                        depths@,
                        d0,
                        v0,
                        visual,
                    ),
            decreases visuals@.len() - v,
        {
            if visuals[v].visual_id == visual {
                assert(names_visual(depths@, d as int, v as int, visual));
                return Some((depths[d].depth, visuals[v]));
            }
            v += 1;
        }
        d += 1;
    }
    None
}

/// Works out what to ask of a framebuffer configuration for a visual.
pub fn fbconfig_request(depth: u8, visual: &VisualType) -> (request: Result<
    FbConfigRequest,
    GpuError,
>)
    ensures
        request == request_for(depth, *visual),
{
    match visual.class {
        VisualClass::TrueColor => {},
        _ => {
            return Err(GpuError::InvalidVisual(visual.visual_id));
        },
    }
    let red_bits = visual.red_mask.count_ones();
    let green_bits = visual.green_mask.count_ones();
    let blue_bits = visual.blue_mask.count_ones();
    let colour_bits = red_bits + green_bits + blue_bits;
    if colour_bits > depth as u32 {
        return Err(GpuError::NoFbConfig(visual.visual_id));
    }
    Ok(
        FbConfigRequest {
            visual_id: visual.visual_id,
            red_bits: red_bits as u8,
            green_bits: green_bits as u8,
            blue_bits: blue_bits as u8,
            alpha_bits: (depth as u32 - colour_bits) as u8,
            depth,
        },
    )
}

impl FbConfigRequest {
    /// The request as an attribute list for the display.
    pub fn attributes(&self) -> (list: Vec<i32>)
        ensures
            list@ == request_attributes(*self),
    {
        let list = vec![
            GLX_RED_SIZE,
            self.red_bits as i32,
            GLX_GREEN_SIZE,
            self.green_bits as i32,
            GLX_BLUE_SIZE,
            self.blue_bits as i32,
            GLX_ALPHA_SIZE,
            self.alpha_bits as i32,
            GLX_BUFFER_SIZE,
            self.depth as i32,
            GLX_RENDER_TYPE,
            GLX_RGBA_BIT,
            GLX_DRAWABLE_TYPE,
            GLX_PIXMAP_BIT,
            GLX_X_VISUAL_TYPE,
            GLX_TRUE_COLOR,
            GLX_X_RENDERABLE,
            1,
            0,
        ];
        list
    }

    /// Whether a reported configuration serves this request.
    pub fn is_served_by(&self, depths: &Vec<Depth>, config: &FbConfig) -> (served: bool)
        ensures
            served == serves(depths@, *self, *config),
    {
        if config.visual_id == 0 {
            return false;
        }
        if config.texture_targets & GLX_TEXTURE_2D_BIT_EXT == 0 {
            return false;
        }
        if config.red_bits != self.red_bits as i32 || config.green_bits != self.green_bits as i32
            || config.blue_bits != self.blue_bits as i32 || config.buffer_size
            != self.depth as i32 {
            return false;
        }
        match find_visual(depths, config.visual_id) {
            Some((depth, visual_type)) => {
                proof {
                    if depth == self.depth {
                    } else {
                        lemma_lookup_is_unique(depths@, config.visual_id, depth, visual_type);
                    }
                }
                depth == self.depth
            },
            None => false,
        }
    }
}

/// A lookup has one outcome: if a visual is found at one depth, no lookup of
/// the same id finds one at another depth.
pub proof fn lemma_lookup_is_unique(
    depths: Seq<Depth>,
    visual: u32,
    depth: u8,
    visual_type: VisualType,
)
    requires
        is_lookup(depths, visual, Some((depth, visual_type))),
    ensures
        forall|other_depth: u8, other: VisualType|
            is_lookup(depths, visual, Some((other_depth, other))) ==> other_depth == depth
                && other == visual_type,
{
    assert forall|other_depth: u8, other: VisualType|
        is_lookup(depths, visual, Some((other_depth, other))) implies other_depth == depth
        && other == visual_type by {
        let (d, v) = choose|d: int, v: int|
            {
                &&& #[trigger] names_visual(depths, d, v, visual)
                &&& depth == depths[d].depth
                &&& visual_type == depths[d].visuals@[v]
                &&& forall|d0: int, v0: int|
                    comes_before(d0, v0, d, v) ==> !#[trigger] names_visual(depths, d0, v0, visual)
            };
        let (e, w) = choose|e: int, w: int|
            {
                &&& #[trigger] names_visual(depths, e, w, visual)
                &&& other_depth == depths[e].depth
                &&& other == depths[e].visuals@[w]
                &&& forall|d0: int, v0: int|
                    comes_before(d0, v0, e, w) ==> !#[trigger] names_visual(depths, d0, v0, visual)
            };
        assert(d == e && v == w);
    }
}

/// The attribute list for the server-side wrapper of a pixmap.
pub fn pixmap_attributes(depth: u8) -> (list: Vec<i32>)
    ensures
        list@ == wrapper_attributes(depth),
{
    let format = if depth == 32 {
        GLX_TEXTURE_FORMAT_RGBA_EXT
    } else {
        GLX_TEXTURE_FORMAT_RGB_EXT
    };
    let list = vec![GLX_TEXTURE_FORMAT_EXT, format, GLX_TEXTURE_TARGET_EXT, GLX_TEXTURE_2D_EXT, 0];
    list
}

/// Picks, among the configurations that the display reported, the first one
/// that serves the request.
pub fn select_fbconfig(depths: &Vec<Depth>, request: &FbConfigRequest, configs: &Vec<FbConfig>) -> (chosen:
    Result<usize, GpuError>)
    ensures
        match chosen {
            Ok(i) => {
                &&& i < configs@.len()
                &&& serves(depths@, *request, configs@[i as int])
                &&& forall|j: int| 0 <= j < i ==> !serves(depths@, *request, #[trigger] configs@[j])
            },
            Err(e) => {
                &&& e == GpuError::NoFbConfig(request.visual_id)
                &&& forall|j: int|
                    0 <= j < configs@.len() ==> !serves(depths@, *request, #[trigger] configs@[j])
            },
        },
{
    let mut i: usize = 0;
    while i < configs.len()
        invariant
            i <= configs@.len(),
            forall|j: int| 0 <= j < i ==> !serves(depths@, *request, #[trigger] configs@[j]),
        decreases configs@.len() - i,
    {
        if request.is_served_by(depths, &configs[i]) {
            return Ok(i);
        }
        i += 1;
    }
    Err(GpuError::NoFbConfig(request.visual_id))
}

/// Finds the framebuffer configuration for a visual: works out the request
/// for the visual and picks the first reported configuration that serves it.
pub fn find_fbconfig(
    depths: &Vec<Depth>,
    depth: u8,
    visual: &VisualType,
    configs: &Vec<FbConfig>,
) -> (chosen: Result<usize, GpuError>)
    ensures
        match request_for(depth, *visual) {
            Err(e) => chosen == Err::<usize, GpuError>(e),
            Ok(request) => match chosen {
                Ok(i) => {
                    &&& i < configs@.len()
                    &&& serves(depths@, request, configs@[i as int])
                    &&& forall|j: int|
                        0 <= j < i ==> !serves(depths@, request, #[trigger] configs@[j])
                },
                Err(e) => {
                    &&& e == GpuError::NoFbConfig(visual.visual_id)
                    &&& forall|j: int|
                        0 <= j < configs@.len() ==> !serves(
                            depths@,
                            request,
                            #[trigger] configs@[j],
                        )
                },
            },
        },
{
    match fbconfig_request(depth, visual) {
        Err(e) => Err(e),
        Ok(request) => select_fbconfig(depths, &request, configs),
    }
}

} // verus!
