use xr_mirror::handoff::Build;
use xr_mirror::texture_set::ReleaseStep;
use xr_mirror::texture_set::TextureSet;
use xr_mirror::visual::Depth;
use xr_mirror::window::Refresh;
use xr_mirror::window::Relink;
use xr_mirror::window::Submit;
use xr_mirror::window::TeardownStep;
use xr_mirror::window::Window;
use xr_mirror::worker::Worker;

fn worker() -> Worker<()> {
    Worker::new(Vec::<Depth>::new(), false)
}

fn set(worker: &mut Worker<()>, base: usize, width: u16, height: u16) -> TextureSet<&'static str> {
    let source = worker.bound(base, 900 + base as u64, width, height, ());
    let importing = Build { window: 1, width, height }
        .named(500 + base as u32, 0x21)
        .bound::<&'static str>(Ok(source))
        .unwrap()
        .exported(Some(("remote", 3, 64)))
        .unwrap();
    let imported = worker.imported(Some((base + 1, ())), width as u32, height as u32).unwrap();
    importing.imported(Ok(imported)).unwrap()
}

fn release(worker: &mut Worker<()>, steps: Vec<ReleaseStep<&'static str>>) {
    for step in steps {
        if let ReleaseStep::ReleaseTexture(t) = step {
            assert!(worker.release(t).is_some());
        }
    }
}

#[test]
fn new_window_has_no_textures() {
    let w: Window<u8, &'static str> = Window::new(5, "term".to_string(), 6, 7, 8);
    assert_eq!(w.id(), 5);
    assert_eq!(w.name().as_str(), "term");
    assert_eq!(w.damage(), 6);
    assert_eq!(w.client_wid(), 7);
    assert_eq!(*w.node(), 8);
    assert!(w.textures().is_none());
    assert_eq!(w.texture_size(), None);
    assert!(w.present(true).is_none());
    w.teardown(None);
}

#[test]
fn teardown_without_textures() {
    let w: Window<&'static str, &'static str> = Window::new(5, "term".to_string(), 6, 7, "node");
    assert_eq!(
        w.teardown(None),
        vec![TeardownStep::Unlink(None), TeardownStep::CloseNode("node"), TeardownStep::DestroyDamage(6)]
    );
}

#[test]
fn teardown_order_with_textures() {
    let mut worker = worker();
    let mut w: Window<&'static str, &'static str> = Window::new(5, "term".to_string(), 6, 7, "node");
    assert!(w.install(set(&mut worker, 10, 4, 4)).is_ok());
    let relink = Some(Relink { parent: 1, child: 2, offset_x: 3, offset_y: 4 });
    let steps = w.teardown(relink);
    assert_eq!(steps.len(), 7);
    assert_eq!(steps[0], TeardownStep::Unlink(relink));
    assert_eq!(steps[1], TeardownStep::CloseNode("node"));
    assert_eq!(steps[2], TeardownStep::DestroyDamage(6));
    match &steps[3] {
        TeardownStep::Release(ReleaseStep::ReleaseTexture(t)) => assert_eq!(t.id(), 11),
        other => panic!("unexpected step {:?}", other),
    }
    match &steps[4] {
        TeardownStep::Release(ReleaseStep::ReleaseTexture(t)) => assert_eq!(t.id(), 10),
        other => panic!("unexpected step {:?}", other),
    }
    assert_eq!(steps[5], TeardownStep::Release(ReleaseStep::DropRemote("remote")));
    assert_eq!(steps[6], TeardownStep::Release(ReleaseStep::FreePixmap(510)));
}

#[test]
fn refresh_at_the_same_size_reuses_the_set() {
    let mut worker = worker();
    let mut w: Window<u8, &'static str> = Window::new(1, "w".to_string(), 2, 3, 4);
    assert!(w.install(set(&mut worker, 10, 400, 300)).is_ok());
    match w.begin_refresh(400, 300) {
        Refresh::Reuse => {},
        Refresh::Rebuild { .. } => panic!("the fitting set was given up"),
    }
    assert_eq!(w.texture_size(), Some((400, 300)));
    assert_eq!(worker.texture_count(), 2);
    match w.present(false).unwrap().submit {
        Submit::Again => {},
        Submit::Fresh(_) => panic!("a reused set was submitted as new"),
    }
    w.teardown(None);
}

#[test]
fn refresh_at_another_size_gives_the_set_up_first() {
    let mut worker = worker();
    let mut w: Window<u8, &'static str> = Window::new(1, "w".to_string(), 2, 3, 4);
    assert!(w.install(set(&mut worker, 10, 400, 300)).is_ok());
    match w.begin_refresh(401, 300) {
        Refresh::Rebuild { release, build } => {
            assert!(w.textures().is_none());
            assert_eq!(build, Build { window: 1, width: 401, height: 300 });
            assert_eq!(release.len(), 4);
            release_all(&mut worker, release);
            assert_eq!(worker.texture_count(), 0);
        },
        Refresh::Reuse => panic!("an outdated set was reused"),
    }
    assert!(w.install(set(&mut worker, 20, 401, 300)).is_ok());
    assert_eq!(w.texture_size(), Some((401, 300)));
    let pass = w.present(true).unwrap();
    assert_eq!(pass.source.id(), 20);
    assert_eq!(pass.target.id(), 21);
    assert_eq!(pass.submit, Submit::Fresh(&"remote"));
    w.teardown(None);
}

fn release_all(worker: &mut Worker<()>, steps: Vec<ReleaseStep<&'static str>>) {
    release(worker, steps)
}

#[test]
fn refresh_notices_a_change_of_height_alone() {
    let mut worker = worker();
    let mut w: Window<u8, &'static str> = Window::new(1, "w".to_string(), 2, 3, 4);
    assert!(w.install(set(&mut worker, 10, 400, 300)).is_ok());
    match w.begin_refresh(400, 299) {
        Refresh::Rebuild { release, .. } => assert_eq!(release.len(), 4),
        Refresh::Reuse => panic!("an outdated set was reused"),
    }
    w.teardown(None);
}

#[test]
fn second_set_is_handed_back() {
    let mut worker = worker();
    let mut w: Window<u8, &'static str> = Window::new(1, "w".to_string(), 2, 3, 4);
    assert!(w.install(set(&mut worker, 10, 4, 4)).is_ok());
    let rejected = w.install(set(&mut worker, 20, 8, 8)).unwrap_err();
    assert_eq!(rejected.source().id(), 20);
    assert_eq!(w.texture_size(), Some((4, 4)));
    w.teardown(None);
}
