use xr_mirror::admission::check_admission;
use xr_mirror::admission::check_directory;
use xr_mirror::admission::child_offset;
use xr_mirror::admission::choose_parent;
use xr_mirror::admission::place_unparented;
use xr_mirror::admission::plan_creation;
use xr_mirror::admission::CreationPlan;
use xr_mirror::admission::Placement;
use xr_mirror::admission::Rejection;
use xr_mirror::admission::WindowFacts;
use xr_mirror::admission::WindowType;
use xr_mirror::admission::PIXELS_PER_METER;
use xr_mirror::geometry::Geometry;
use xr_mirror::lifecycle::Attachment;
use xr_mirror::registry::MapState;
use xr_mirror::registry::Published;
use xr_mirror::registry::Registry;
use xr_mirror::window::Window;

fn root() -> Geometry {
    Geometry::new(0, 0, 1920, 1080)
}

fn add(registry: &mut Registry<u32, u32>, id: u32, client: u32, parent: Option<u32>) {
    let ticket = registry.begin_creation(id).unwrap();
    let window = Window::new(id, format!("w{}", id), id + 1000, client, id);
    let attachment = parent.map(|p| Attachment { parent: p, offset_x: 0, offset_y: 0 });
    match registry.publish(ticket, window, MapState::Viewable, attachment) {
        Published::Live { superseded, .. } => assert!(superseded.is_none()),
        _ => panic!("not published"),
    }
}

fn finish(mut registry: Registry<u32, u32>) {
    for removed in registry.drain() {
        removed.teardown();
    }
}

#[test]
fn accepted_type_names() {
    assert_eq!(WindowType::parse("normal"), Some(WindowType::Normal));
    assert_eq!(WindowType::parse("menu"), Some(WindowType::Menu));
    assert_eq!(WindowType::parse("popup_menu"), Some(WindowType::PopupMenu));
    assert_eq!(WindowType::parse("dropdown_menu"), Some(WindowType::DropdownMenu));
    assert_eq!(WindowType::parse("utility"), Some(WindowType::Utility));
}

#[test]
fn other_type_names_are_not_accepted() {
    assert_eq!(WindowType::parse("dock"), None);
    assert_eq!(WindowType::parse("Normal"), None);
    assert_eq!(WindowType::parse(""), None);
    assert_eq!(WindowType::parse("tooltip"), None);
    assert_eq!(WindowType::parse("normal "), None);
}

#[test]
fn only_normal_windows_seek_no_parent() {
    assert!(!WindowType::Normal.seeks_parent());
    assert!(WindowType::Menu.seeks_parent());
    assert!(WindowType::PopupMenu.seeks_parent());
    assert!(WindowType::DropdownMenu.seeks_parent());
    assert!(WindowType::Utility.seeks_parent());
}

#[test]
fn directory_stage_needs_no_geometry() {
    assert_eq!(check_directory(false, "normal"), Err(Rejection::NotMapped));
    assert_eq!(check_directory(true, "dock"), Err(Rejection::WrongType));
    assert_eq!(check_directory(true, "menus"), Err(Rejection::WrongType));
    assert_eq!(check_directory(true, "men"), Err(Rejection::WrongType));
    assert_eq!(check_directory(true, "utility"), Ok(WindowType::Utility));
    assert_eq!(check_directory(true, "dropdown_menu"), Ok(WindowType::DropdownMenu));
}

#[test]
fn type_names_are_compared_character_by_character() {
    assert_eq!(WindowType::parse("normel"), None);
    assert_eq!(WindowType::parse("mormal"), None);
    assert_eq!(WindowType::parse("norma"), None);
    assert_eq!(WindowType::parse("n\u{f6}rmal"), None);
    assert_eq!(WindowType::parse("popup-menu"), None);
    assert_eq!(WindowType::parse("popup_menu"), Some(WindowType::PopupMenu));
}

#[test]
fn unmapped_window_is_rejected_first() {
    let g = Geometry::new(-5000, 0, 10, 10);
    assert_eq!(check_admission(false, "dock", &g, &root()), Err(Rejection::NotMapped));
}

#[test]
fn wrong_type_is_rejected_before_geometry() {
    let g = Geometry::new(-5000, 0, 10, 10);
    assert_eq!(check_admission(true, "dock", &g, &root()), Err(Rejection::WrongType));
}

#[test]
fn window_inside_the_root_is_admitted() {
    let g = Geometry::new(100, 100, 400, 300);
    assert_eq!(check_admission(true, "normal", &g, &root()), Ok(WindowType::Normal));
}

#[test]
fn off_screen_boundary_on_the_left() {
    let at_edge = Geometry::new(-400, 100, 400, 300);
    let inside = Geometry::new(-399, 100, 400, 300);
    assert_eq!(check_admission(true, "normal", &at_edge, &root()), Err(Rejection::OffScreen));
    assert_eq!(check_admission(true, "normal", &inside, &root()), Ok(WindowType::Normal));
}

#[test]
fn off_screen_boundary_on_the_top() {
    let at_edge = Geometry::new(100, -300, 400, 300);
    let inside = Geometry::new(100, -299, 400, 300);
    assert_eq!(check_admission(true, "menu", &at_edge, &root()), Err(Rejection::OffScreen));
    assert_eq!(check_admission(true, "menu", &inside, &root()), Ok(WindowType::Menu));
}

#[test]
fn off_screen_boundary_on_the_right() {
    let at_edge = Geometry::new(1920, 100, 400, 300);
    let inside = Geometry::new(1919, 100, 400, 300);
    assert_eq!(check_admission(true, "utility", &at_edge, &root()), Err(Rejection::OffScreen));
    assert_eq!(check_admission(true, "utility", &inside, &root()), Ok(WindowType::Utility));
}

#[test]
fn off_screen_boundary_at_the_bottom() {
    let at_edge = Geometry::new(100, 1080, 400, 300);
    let inside = Geometry::new(100, 1079, 400, 300);
    assert_eq!(check_admission(true, "normal", &at_edge, &root()), Err(Rejection::OffScreen));
    assert_eq!(check_admission(true, "normal", &inside, &root()), Ok(WindowType::Normal));
}

#[test]
fn one_pixel_window_far_outside_is_rejected() {
    let g = Geometry::new(-100, -100, 1, 1);
    assert_eq!(check_admission(true, "normal", &g, &root()), Err(Rejection::OffScreen));
}

#[test]
fn very_wide_window_is_judged_without_overflow() {
    let g = Geometry::new(-32768, 0, 65535, 10);
    assert_eq!(check_admission(true, "normal", &g, &root()), Ok(WindowType::Normal));
    let gone = Geometry::new(-32768, 0, 32768, 10);
    assert_eq!(check_admission(true, "normal", &gone, &root()), Err(Rejection::OffScreen));
}

#[test]
fn placement_of_the_first_window() {
    let g = Geometry::new(100, 100, 400, 300);
    assert_eq!(place_unparented(&g, &root(), 0), Placement { x: -660, y: 560, depth: 0 });
}

#[test]
fn placement_moves_back_with_each_live_window() {
    let g = Geometry::new(760, 660, 400, 300);
    assert_eq!(place_unparented(&g, &root(), 3), Placement { x: 0, y: 0, depth: 3 });
}

#[test]
fn placement_in_metres() {
    let g = Geometry::new(100, 100, 400, 300);
    let place = place_unparented(&g, &root(), 6);
    let x = place.x as f64 / PIXELS_PER_METER as f64;
    let y = place.y as f64 / PIXELS_PER_METER as f64;
    let z = place.depth as f64 / 3.0 - 8.0;
    assert!((x + 1.1).abs() < 1e-9);
    assert!((y - 560.0 / 600.0).abs() < 1e-9);
    assert!((z + 6.0).abs() < 1e-9);
}

#[test]
fn child_offset_flips_the_y_axis() {
    let parent = Geometry::new(100, 100, 400, 300);
    let child = Geometry::new(150, 120, 200, 100);
    assert_eq!(child_offset(&child, &parent), (-50, 80));
}

#[test]
fn child_offset_of_extreme_geometries() {
    let parent = Geometry::new(-32768, -32768, 0, 0);
    let child = Geometry::new(32767, 32767, 65535, 65535);
    assert_eq!(child_offset(&child, &parent), (98302, -98302));
}

#[test]
fn normal_window_gets_no_parent() {
    let mut registry: Registry<u32, u32> = Registry::new();
    add(&mut registry, 1, 11, None);
    assert_eq!(choose_parent(&registry, WindowType::Normal, Some(1), Some(1)), None);
    finish(registry);
}

#[test]
fn menu_goes_to_the_end_of_its_leaders_group() {
    let mut registry: Registry<u32, u32> = Registry::new();
    add(&mut registry, 1, 11, None);
    add(&mut registry, 2, 12, Some(1));
    add(&mut registry, 3, 13, Some(2));
    assert_eq!(choose_parent(&registry, WindowType::Menu, Some(1), None), Some(3));
    assert_eq!(choose_parent(&registry, WindowType::PopupMenu, Some(2), None), Some(3));
    finish(registry);
}

#[test]
fn leader_may_be_named_by_its_client_window() {
    let mut registry: Registry<u32, u32> = Registry::new();
    add(&mut registry, 1, 11, None);
    add(&mut registry, 2, 12, Some(1));
    assert_eq!(choose_parent(&registry, WindowType::Utility, Some(11), None), Some(2));
    finish(registry);
}

#[test]
fn unknown_leader_leaves_the_window_alone_even_with_a_hovered_one() {
    let mut registry: Registry<u32, u32> = Registry::new();
    add(&mut registry, 1, 11, None);
    assert_eq!(choose_parent(&registry, WindowType::Menu, Some(99), Some(1)), None);
    finish(registry);
}

#[test]
fn without_leader_the_hovered_window_is_taken() {
    let mut registry: Registry<u32, u32> = Registry::new();
    add(&mut registry, 1, 11, None);
    add(&mut registry, 2, 12, Some(1));
    assert_eq!(choose_parent(&registry, WindowType::DropdownMenu, None, Some(1)), Some(2));
    assert_eq!(choose_parent(&registry, WindowType::DropdownMenu, None, Some(2)), Some(2));
    finish(registry);
}

#[test]
fn hovered_window_that_is_not_mirrored_gives_no_parent() {
    let mut registry: Registry<u32, u32> = Registry::new();
    add(&mut registry, 1, 11, None);
    assert_eq!(choose_parent(&registry, WindowType::Menu, None, Some(11)), None);
    assert_eq!(choose_parent(&registry, WindowType::Menu, None, Some(7)), None);
    assert_eq!(choose_parent(&registry, WindowType::Menu, None, None), None);
    finish(registry);
}

#[test]
fn plan_skips_what_is_not_admitted() {
    let registry: Registry<u32, u32> = Registry::new();
    let facts = WindowFacts {
        mapped: true,
        kind: "desktop".to_string(),
        geometry: Geometry::new(0, 0, 10, 10),
        root: root(),
        transient_for: None,
        hovered: None,
    };
    assert_eq!(plan_creation(&registry, &facts), CreationPlan::Skip(Rejection::WrongType));
}

#[test]
fn plan_places_a_normal_window_behind_the_live_ones() {
    let mut registry: Registry<u32, u32> = Registry::new();
    add(&mut registry, 1, 11, None);
    add(&mut registry, 2, 12, None);
    let facts = WindowFacts {
        mapped: true,
        kind: "normal".to_string(),
        geometry: Geometry::new(100, 100, 400, 300),
        root: root(),
        transient_for: Some(1),
        hovered: Some(2),
    };
    assert_eq!(
        plan_creation(&registry, &facts),
        CreationPlan::Standalone(WindowType::Normal, Placement { x: -660, y: 560, depth: 2 })
    );
    finish(registry);
}

#[test]
fn plan_hangs_a_menu_below_its_leader() {
    let mut registry: Registry<u32, u32> = Registry::new();
    add(&mut registry, 1, 11, None);
    let facts = WindowFacts {
        mapped: true,
        kind: "popup_menu".to_string(),
        geometry: Geometry::new(100, 100, 40, 30),
        root: root(),
        transient_for: Some(1),
        hovered: None,
    };
    assert_eq!(plan_creation(&registry, &facts), CreationPlan::Child(WindowType::PopupMenu, 1));
    finish(registry);
}
