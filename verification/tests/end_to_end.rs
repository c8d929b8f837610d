use xr_mirror::admission::child_offset;
use xr_mirror::admission::plan_creation;
use xr_mirror::admission::CreationPlan;
use xr_mirror::admission::Placement;
use xr_mirror::admission::WindowFacts;
use xr_mirror::admission::WindowType;
use xr_mirror::admission::PIXELS_PER_METER;
use xr_mirror::geometry::Geometry;
use xr_mirror::lifecycle::Attachment;
use xr_mirror::lifecycle::Link;
use xr_mirror::lifecycle::Phase;
use xr_mirror::lifecycle::Ticket;
use xr_mirror::registry::MapState;
use xr_mirror::registry::Published;
use xr_mirror::registry::Registry;
use xr_mirror::router::route;
use xr_mirror::router::should_render;
use xr_mirror::router::Dispatch;
use xr_mirror::router::Event;
use xr_mirror::router::X11Event;
use xr_mirror::texture_set::ReleaseStep;
use xr_mirror::visual::Depth;
use xr_mirror::window::Refresh;
use xr_mirror::window::Submit;
use xr_mirror::window::Window;
use xr_mirror::worker::Request;
use xr_mirror::worker::Worker;

type Reg = Registry<&'static str, &'static str>;

struct World {
    registry: Reg,
    worker: Worker<&'static str>,
    next_texture: usize,
    next_pixmap: u32,
    allocations: usize,
    log: Vec<String>,
}

fn world() -> World {
    World {
        registry: Registry::new(),
        worker: Worker::new(Vec::<Depth>::new(), false),
        next_texture: 1,
        next_pixmap: 0x500,
        allocations: 0,
        log: Vec::new(),
    }
}

fn root() -> Geometry {
    Geometry::new(0, 0, 1920, 1080)
}

fn begin(world: &mut World, wid: u32) -> Ticket {
    match route(&mut world.registry, Event::Mapped(wid)) {
        Dispatch::Create(ticket) => ticket,
        other => panic!("unexpected {:?}", other),
    }
}

fn render(world: &mut World, wid: u32, geometry: &Geometry) -> bool {
    let refreshed = match world.registry.begin_refresh(wid, geometry.width, geometry.height).unwrap() {
        Refresh::Reuse => false,
        Refresh::Rebuild { release, build } => {
            for step in release {
                if let ReleaseStep::ReleaseTexture(t) = step {
                    world.worker.release(t).unwrap();
                }
            }
            let pixmap = world.next_pixmap;
            world.next_pixmap += 1;
            let binding = build.named(pixmap, 0x21);
            let id = world.next_texture;
            world.next_texture += 2;
            world.allocations += 1;
            let source = world.worker.bound(id, 0x900, binding.width, binding.height, "bound");
            let exporting = binding.bound::<&'static str>(Ok(source)).unwrap();
            let importing = exporting.exported(Some(("destination", 3, 4096))).unwrap();
            let imported = world
                .worker
                .imported(Some((id + 1, "imported")), importing.width as u32, importing.height as u32)
                .unwrap();
            let set = importing.imported(Ok(imported)).unwrap();
            assert!(world.registry.install_textures(wid, set).is_ok());
            true
        },
    };
    let window = world.registry.get(wid).unwrap();
    let pass = window.present(refreshed).unwrap();
    match Request::blit(pass.source, pass.target) {
        Request::Blit { src, dst } => {
            assert!(world.worker.has_texture(src) && world.worker.has_texture(dst));
            assert_eq!(world.worker.blit_pair(src, dst), (&"bound", &"imported"));
            world.log.push(format!("blit {} -> {}", src, dst));
        },
        other => panic!("unexpected {:?}", other),
    }
    match pass.submit {
        Submit::Fresh(remote) => world.log.push(format!("set and submit {}", remote)),
        Submit::Again => world.log.push("submit".to_string()),
    }
    refreshed
}

fn map_main_window(world: &mut World) -> Geometry {
    let geometry = Geometry::new(100, 100, 400, 300);
    assert_eq!(world.registry.phase(0x1001), Phase::Absent);
    let ticket = begin(world, 0x1001);
    let facts = WindowFacts {
        mapped: true,
        kind: "normal".to_string(),
        geometry,
        root: root(),
        transient_for: None,
        hovered: None,
    };
    let plan = plan_creation(&world.registry, &facts);
    assert_eq!(
        plan,
        CreationPlan::Standalone(WindowType::Normal, Placement { x: -660, y: 560, depth: 0 })
    );
    let window = Window::new(0x1001, "editor".to_string(), 0x2001, 0x3001, "node 1001");
    match world.registry.publish(ticket, window, MapState::Viewable, None) {
        Published::Live { attached, superseded } => {
            assert!(!attached);
            assert!(superseded.is_none());
        },
        _ => panic!("not published"),
    }
    assert!(render(world, 0x1001, &geometry));
    geometry
}

fn finish(mut world: World) {
    for removed in world.registry.drain() {
        for step in removed.teardown() {
            if let xr_mirror::window::TeardownStep::Release(ReleaseStep::ReleaseTexture(t)) = step {
                world.worker.release(t).unwrap();
            }
        }
    }
    assert_eq!(world.worker.texture_count(), 0);
}

#[test]
fn normal_window_goes_live() {
    let mut world = world();
    map_main_window(&mut world);
    assert_eq!(world.registry.phase(0x1001), Phase::Live);
    assert_eq!(world.registry.len(), 1);
    let window = world.registry.get(0x1001).unwrap();
    assert_eq!(window.texture_size(), Some((400, 300)));
    assert_eq!(window.textures().unwrap().width(), 400);
    assert_eq!(window.textures().unwrap().height(), 300);
    assert_eq!(
        world.registry.link(0x1001),
        Some(Link { parent: None, child: None, offset_x: 0, offset_y: 0 })
    );
    assert_eq!(world.allocations, 1);
    assert_eq!(world.worker.texture_count(), 2);
    assert_eq!(world.log, vec!["blit 1 -> 2", "set and submit destination"]);
    let z = 0 as f64 / 3.0 - 8.0;
    assert_eq!(z, -8.0);
    finish(world);
}

#[test]
fn damage_resubmits_without_allocating() {
    let mut world = world();
    let geometry = map_main_window(&mut world);
    world.log.clear();
    match route(&mut world.registry, Event::X11(X11Event::Damage { drawable: 0x1001 })) {
        Dispatch::Render { window, damage } => {
            assert_eq!(window, 0x1001);
            assert_eq!(damage, 0x2001);
        },
        other => panic!("unexpected {:?}", other),
    }
    assert!(should_render(true, true));
    let refreshed = render(&mut world, 0x1001, &geometry);
    assert!(!refreshed);
    assert_eq!(world.allocations, 1);
    assert_eq!(world.worker.texture_count(), 2);
    assert_eq!(world.log, vec!["blit 1 -> 2", "submit"]);
    finish(world);
}

#[test]
fn menu_is_attached_to_its_leader() {
    let mut world = world();
    let parent_geometry = map_main_window(&mut world);
    let geometry = Geometry::new(150, 120, 200, 100);
    let ticket = begin(&mut world, 0x1002);
    let facts = WindowFacts {
        mapped: true,
        kind: "menu".to_string(),
        geometry,
        root: root(),
        transient_for: Some(0x1001),
        hovered: None,
    };
    let parent = match plan_creation(&world.registry, &facts) {
        CreationPlan::Child(WindowType::Menu, parent) => parent,
        other => panic!("unexpected {:?}", other),
    };
    assert_eq!(parent, 0x1001);
    let (dx, dy) = child_offset(&geometry, &parent_geometry);
    assert_eq!((dx, dy), (-50, 80));
    let metres = (dx as f64 / PIXELS_PER_METER as f64, dy as f64 / PIXELS_PER_METER as f64);
    assert!((metres.0 + 50.0 / 600.0).abs() < 1e-12);
    assert!((metres.1 - 80.0 / 600.0).abs() < 1e-12);
    let window = Window::new(0x1002, "menu".to_string(), 0x2002, 0x3002, "node 1002");
    let attachment = Some(Attachment { parent, offset_x: dx, offset_y: dy });
    match world.registry.publish(ticket, window, MapState::Viewable, attachment) {
        Published::Live { attached, superseded } => {
            assert!(attached);
            assert!(superseded.is_none());
        },
        _ => panic!("not published"),
    }
    assert_eq!(
        world.registry.link(0x1002),
        Some(Link { parent: Some(0x1001), child: None, offset_x: -50, offset_y: 80 })
    );
    assert_eq!(world.registry.link(0x1001).unwrap().child, Some(0x1002));
    assert_eq!(world.registry.find_window_group(0x1001), Some(0x1002));
    assert!(render(&mut world, 0x1002, &geometry));
    assert_eq!(world.registry.get(0x1002).unwrap().texture_size(), Some((200, 100)));
    finish(world);
}

#[test]
fn resize_frees_the_old_set_before_building_the_new_one() {
    let mut world = world();
    map_main_window(&mut world);
    let resized = Geometry::new(100, 100, 640, 480);
    assert!(render(&mut world, 0x1001, &resized));
    assert_eq!(world.allocations, 2);
    assert_eq!(world.worker.texture_count(), 2);
    assert!(!world.worker.has_texture(1) && !world.worker.has_texture(2));
    assert!(world.worker.has_texture(3) && world.worker.has_texture(4));
    assert_eq!(world.registry.get(0x1001).unwrap().texture_size(), Some((640, 480)));
    finish(world);
}

#[test]
fn window_that_vanishes_during_a_refresh_gets_no_textures() {
    let mut world = world();
    let ticket = begin(&mut world, 5);
    let window = Window::new(5, "w".to_string(), 6, 7, "node");
    assert!(matches!(
        world.registry.publish(ticket, window, MapState::Viewable, None),
        Published::Live { .. }
    ));
    let build = match world.registry.begin_refresh(5, 10, 10).unwrap() {
        Refresh::Rebuild { build, .. } => build,
        Refresh::Reuse => panic!("nothing to reuse"),
    };
    world.registry.remove(5).unwrap().teardown();
    let source = world.worker.bound(1, 2, 10, 10, "bound");
    let importing = build
        .named(3, 4)
        .bound::<&'static str>(Ok(source))
        .unwrap()
        .exported(Some(("destination", 5, 6)))
        .unwrap();
    let imported = world.worker.imported(Some((2, "imported")), 10, 10).unwrap();
    let set = importing.imported(Ok(imported)).unwrap();
    let rejected = world.registry.install_textures(5, set).unwrap_err();
    for step in rejected.release() {
        if let ReleaseStep::ReleaseTexture(t) = step {
            world.worker.release(t).unwrap();
        }
    }
    finish(world);
}
