//! Admission and placement of newly mapped windows.
//!
//! A window is mirrored only if the window directory reports it as mapped,
//! its type is one of the accepted ones, and some part of it can be on
//! screen. Menus and utility windows are hung below the window they belong
//! to; every other window gets a place of its own in front of the viewer.

use crate::geometry::Geometry;
use crate::lifecycle::RegistryView;
use crate::registry::Registry;
use vstd::prelude::*;
use vstd::string::StrSliceExecFns;

verus! {

/// Scale between window pixels and metres in the scene.
pub const PIXELS_PER_METER: u32 = 600;

/// The window types that are mirrored.
#[derive(Clone, Copy, Debug, PartialEq, Eq, Structural)]
pub enum WindowType {
    Normal,
    Menu,
    PopupMenu,
    DropdownMenu,
    Utility,
}

/// Why a mapped window is not mirrored.
#[derive(Clone, Copy, Debug, PartialEq, Eq, Structural)]
pub enum Rejection {
    /// The window directory does not report the window as mapped.
    NotMapped,
    /// The window's type is not one of the accepted ones.
    WrongType,
    /// No part of the window can be on screen.
    OffScreen,
}

/// Where a window without a parent is put. `x` and `y` are the position of
/// its centre in pixels, relative to the point the viewer faces, x to the
/// right and y up; `depth` counts the windows that were live before it, each
/// of which pushes it a step farther back.
#[derive(Clone, Copy, Debug, PartialEq, Eq, Structural)]
pub struct Placement {
    pub x: i32,
    pub y: i32,
    pub depth: usize,
}

/// What the creation of a window has to do.
#[derive(Clone, Copy, Debug, PartialEq, Eq, Structural)]
pub enum CreationPlan {
    /// Nothing: the window is not admitted.
    Skip(Rejection),
    /// Create the window and give it a place of its own.
    Standalone(WindowType, Placement),
    /// Create the window and hang it below `parent`.
    Child(WindowType, u32),
}

/// What is known of a newly mapped window when its creation is planned.
#[derive(Debug)]
pub struct WindowFacts {
    /// Whether the window directory reports the window as mapped.
    pub mapped: bool,
    /// The window's type as the window directory names it.
    pub kind: String,
    /// The window's geometry.
    pub geometry: Geometry,
    /// The root window's geometry.
    pub root: Geometry,
    /// The window that this one is transient for, if it names one.
    pub transient_for: Option<u32>,
    /// The window that the pointer in the scene hovers over, if any.
    pub hovered: Option<u32>,
}

/// Whether two texts hold the same characters in the same order. Type names
/// are a dozen characters at most, so they are simply compared one by one.
fn same_text(a: &str, b: &str) -> (same: bool)
    ensures
        same == (a@ == b@),
{
    let n = a.unicode_len();
    if b.unicode_len() != n {
        return false;
    }
    let mut i: usize = 0;
    while i < n
        invariant
            n == a@.len(),
            n == b@.len(),
            i <= n,
            forall|j: int| 0 <= j < i ==> a@[j] == b@[j],
        decreases n - i,
    {
        if a.get_char(i) != b.get_char(i) {
            return false;
        }
        i += 1;
    }
    assert(a@ =~= b@);
    true
}

/// The type that a name of the window directory stands for, if it is one of
/// the accepted ones.
pub open spec fn window_type_of(kind: Seq<char>) -> Option<WindowType> {
    if kind == "normal"@ {
        Some(WindowType::Normal)
    } else if kind == "menu"@ {
        Some(WindowType::Menu)
    } else if kind == "popup_menu"@ {
        Some(WindowType::PopupMenu)
    } else if kind == "dropdown_menu"@ {
        Some(WindowType::DropdownMenu)
    } else if kind == "utility"@ {
        Some(WindowType::Utility)
    } else {
        None
    }
}

/// The decision on what the window directory says of a window, before its
/// geometry is known: it has to be mapped and of an accepted type.
pub open spec fn directory_admission(mapped: bool, kind: Seq<char>) -> Result<WindowType, Rejection> {
    if !mapped {
        Err(Rejection::NotMapped)
    } else {
        match window_type_of(kind) {
            None => Err(Rejection::WrongType),
            Some(t) => Ok(t),
        }
    }
}

/// The decision on a window: the first of the three rules that it breaks, or
/// its type if it breaks none.
pub open spec fn admission(mapped: bool, kind: Seq<char>, geometry: Geometry, root: Geometry) -> Result<
    WindowType,
    Rejection,
> {
    match directory_admission(mapped, kind) {
        Err(rejection) => Err(rejection),
        Ok(t) => if geometry.off_screen(root.width, root.height) {
            Err(Rejection::OffScreen)
        } else {
            Ok(t)
        },
    }
}

/// The place of a window without a parent: its centre relative to the point
/// that lies at half the root's width and three quarters of its height, with
/// the y axis flipped, behind the windows that are already live.
pub open spec fn placement(geometry: Geometry, root: Geometry, live: usize) -> Placement {
    Placement {
        x: (geometry.center_x() - root.width / 2) as i32,
        y: (-(geometry.center_y() - root.height * 3 / 4)) as i32,
        depth: live,
    }
}

/// The window below which a new window of the given type is to be hung, as a
/// relation between the registry's state, what is known of the new window,
/// and the choice. Windows that seek no parent get none. A window that names
/// the one it is transient for goes to the end of that window's group, and
/// stands alone if there is no such group. Any other goes to the end of the
/// chain of the window that the pointer hovers over, if that window is live.
pub open spec fn parent_choice<N, R>(
    state: RegistryView<N, R>,
    kind: WindowType,
    transient_for: Option<u32>,
    hovered: Option<u32>,
    parent: Option<u32>,
) -> bool {
    if !kind.spec_seeks_parent() {
        parent is None
    } else {
        let entry = match transient_for {
            Some(leader) => state.group_entry(leader),
            None => match hovered {
                Some(h) if state.is_live(h) => Some(h),
                _ => None,
            },
        };
        match entry {
            Some(from) => parent matches Some(p) && state.is_tail(from, p),
            None => parent is None,
        }
    }
}

impl WindowType {
    /// Menus of every kind and utility windows belong to another window.
    pub open spec fn spec_seeks_parent(self) -> bool {
        self != WindowType::Normal
    }

    /// Reads a type name of the window directory.
    pub fn parse(kind: &str) -> (parsed: Option<WindowType>)
        ensures
            parsed == window_type_of(kind@),
    {
        if same_text(kind, "normal") {
            Some(WindowType::Normal)
        } else if same_text(kind, "menu") {
            Some(WindowType::Menu)
        } else if same_text(kind, "popup_menu") {
            Some(WindowType::PopupMenu)
        } else if same_text(kind, "dropdown_menu") {
            Some(WindowType::DropdownMenu)
        } else if same_text(kind, "utility") {
            Some(WindowType::Utility)
        } else {
            None
        }
    }

    /// Whether a window of this type is hung below another window.
    #[verifier::when_used_as_spec(spec_seeks_parent)]
    pub fn seeks_parent(self) -> (seeks: bool)
        ensures
            seeks == self.spec_seeks_parent(),
    {
        match self {
            WindowType::Normal => false,
            _ => true,
        }
    }
}

/// Decides on what the window directory says of a window. A window that
/// fails here needs no further query.
pub fn check_directory(mapped: bool, kind: &str) -> (decision: Result<WindowType, Rejection>)
    ensures
        decision == directory_admission(mapped, kind@),
{
    if !mapped {
        return Err(Rejection::NotMapped);
    }
    match WindowType::parse(kind) {
        None => Err(Rejection::WrongType),
        Some(t) => Ok(t),
    }
}

/// Decides whether a newly mapped window is mirrored.
pub fn check_admission(mapped: bool, kind: &str, geometry: &Geometry, root: &Geometry) -> (decision: Result<
    WindowType,
    Rejection,
>)
    ensures
        decision == admission(mapped, kind@, *geometry, *root),
{
    match check_directory(mapped, kind) {
        Err(rejection) => Err(rejection),
        Ok(t) => {
            if geometry.is_off_screen(root.width, root.height) {
                Err(Rejection::OffScreen)
            } else {
                Ok(t)
            }
        },
    }
}

/// Chooses the window below which a new window is to be hung.
pub fn choose_parent<N, R>(
    registry: &Registry<N, R>,
    kind: WindowType,
    transient_for: Option<u32>,
    hovered: Option<u32>,
) -> (parent: Option<u32>)
    ensures
        parent_choice(registry@, kind, transient_for, hovered, parent),
{
    if !kind.seeks_parent() {
        return None;
    }
    match transient_for {
        Some(leader) => registry.find_window_group(leader),
        None => match hovered {
            Some(h) => {
                if registry.contains(h) {
                    registry.find_window_group(h)
                } else {
                    None
                }
            },
            None => None,
        },
    }
}

/// Computes the place of a window that has no parent.
pub fn place_unparented(geometry: &Geometry, root: &Geometry, live: usize) -> (place: Placement)
    ensures
        place == placement(*geometry, *root, live),
{
    let (cx, cy) = geometry.center();
    let x: i32 = cx - (root.width / 2) as i32;
    let y: i32 = -(cy - (root.height as i32 * 3) / 4);
    Placement { x, y, depth: live }
}

/// Offset of a child window from its parent's centre, in pixels: the
/// difference of the two centres with the y axis flipped, since the screen's
/// y grows downwards and the scene's upwards.
pub fn child_offset(geometry: &Geometry, parent: &Geometry) -> (offset: (i32, i32))
    ensures
        offset.0 == geometry.center_x() - parent.center_x(),
        offset.1 == -(geometry.center_y() - parent.center_y()),
{
    let (cx, cy) = geometry.center();
    let (px, py) = parent.center();
    (cx - px, -(cy - py))
}

/// Plans the creation of a newly mapped window from what is known of it:
/// whether it is mirrored at all, and if so whether it hangs below a live
/// window or gets a place of its own.
pub fn plan_creation<N, R>(registry: &Registry<N, R>, facts: &WindowFacts) -> (plan: CreationPlan)
    ensures
        match admission(facts.mapped, facts.kind@, facts.geometry, facts.root) {
            Err(rejection) => plan == CreationPlan::Skip(rejection),
            Ok(kind) => match plan {
                CreationPlan::Skip(_) => false,
                CreationPlan::Standalone(k, place) => {
                    &&& k == kind
                    &&& parent_choice(registry@, kind, facts.transient_for, facts.hovered, None)
                    &&& place == placement(facts.geometry, facts.root, registry@.windows.len() as usize)
                },
                CreationPlan::Child(k, parent) => {
                    &&& k == kind
                    &&& parent_choice(
                        registry@,
                        kind,
                        facts.transient_for,
                        facts.hovered,
                        Some(parent),
                    )
                },
            },
        },
{
    match check_admission(facts.mapped, facts.kind.as_str(), &facts.geometry, &facts.root) {
        Err(rejection) => CreationPlan::Skip(rejection),
        Ok(kind) => match choose_parent(registry, kind, facts.transient_for, facts.hovered) {
            Some(parent) => CreationPlan::Child(kind, parent),
            None => CreationPlan::Standalone(
                kind,
                place_unparented(&facts.geometry, &facts.root, registry.len()),
            ),
        },
    }
}

/// A window that lies entirely off one side of the root window is never
/// admitted, whatever else holds of it.
pub proof fn lemma_off_screen_never_admitted(
    mapped: bool,
    kind: Seq<char>,
    geometry: Geometry,
    root: Geometry,
)
    requires
        geometry.off_screen(root.width, root.height),
    ensures
        admission(mapped, kind, geometry, root) is Err,
{
}

} // verus!
