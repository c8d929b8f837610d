use xr_mirror::handoff::Build;
use xr_mirror::handoff::HandoffError;
use xr_mirror::texture::GpuError;
use xr_mirror::texture::TextureSlot;
use xr_mirror::texture_set::ReleaseStep;
use xr_mirror::texture_set::TextureSet;
use xr_mirror::visual::Depth;
use xr_mirror::worker::Worker;

fn worker() -> Worker<&'static str> {
    Worker::new(Vec::<Depth>::new(), false)
}

fn perform(worker: &mut Worker<&'static str>, steps: Vec<ReleaseStep<u32>>) -> Vec<String> {
    let mut log = Vec::new();
    for step in steps {
        match step {
            ReleaseStep::ReleaseTexture(t) => {
                let id = t.id();
                match worker.release(t) {
                    Some(TextureSlot { glx_pixmap: Some(p), .. }) => {
                        log.push(format!("release {} with wrapper {}", id, p))
                    },
                    Some(_) => log.push(format!("release {}", id)),
                    None => log.push(format!("release of unknown {}", id)),
                }
            },
            ReleaseStep::DropRemote(r) => log.push(format!("drop remote {}", r)),
            ReleaseStep::FreePixmap(p) => log.push(format!("free pixmap {}", p)),
        }
    }
    log
}

#[test]
fn complete_handoff_builds_a_set() {
    let mut worker = worker();
    let build = Build { window: 0x1001, width: 400, height: 300 };
    let binding = build.named(0x500, 0x21);
    assert_eq!(binding.pixmap, 0x500);
    assert_eq!(binding.visual, 0x21);
    assert_eq!((binding.width, binding.height), (400, 300));
    let source = worker.bound(3, 0x900, 400, 300, "source");
    let exporting = binding.bound::<u32>(Ok(source)).unwrap();
    assert_eq!((exporting.width, exporting.height), (400, 300));
    let importing = exporting.exported(Some((77u32, 9, 480_000))).unwrap();
    assert_eq!((importing.fd, importing.size), (9, 480_000));
    let imported = worker.imported(Some((4, "imported")), 400, 300).unwrap();
    let set: TextureSet<u32> = importing.imported(Ok(imported)).unwrap();
    assert_eq!(set.pixmap(), 0x500);
    assert_eq!(set.source().id(), 3);
    assert_eq!(set.imported().id(), 4);
    assert_eq!(*set.remote(), 77);
    assert_eq!((set.width(), set.height()), (400, 300));
    assert_eq!(worker.texture_count(), 2);
    let log = perform(&mut worker, set.release());
    assert_eq!(
        log,
        vec!["release 4", "release 3 with wrapper 2304", "drop remote 77", "free pixmap 1280"]
    );
    assert_eq!(worker.texture_count(), 0);
}

#[test]
fn failed_bind_frees_the_pixmap() {
    let build = Build { window: 1, width: 10, height: 10 };
    let abort = build.named(0x500, 0x21).bound::<u32>(Err(GpuError::NoFbConfig(0x21))).unwrap_err();
    assert_eq!(abort.error, HandoffError::Bind(GpuError::NoFbConfig(0x21)));
    assert_eq!(abort.cleanup, vec![ReleaseStep::FreePixmap(0x500)]);
}

#[test]
fn failed_export_releases_the_bound_texture_and_the_pixmap() {
    let mut worker = worker();
    let build = Build { window: 1, width: 10, height: 10 };
    let source = worker.bound(3, 0x900, 10, 10, "source");
    let exporting = build.named(0x500, 0x21).bound::<u32>(Ok(source)).unwrap();
    let abort = exporting.exported::<u32>(None).unwrap_err();
    assert_eq!(abort.error, HandoffError::Export);
    let log = perform(&mut worker, abort.cleanup);
    assert_eq!(log, vec!["release 3 with wrapper 2304", "free pixmap 1280"]);
    assert_eq!(worker.texture_count(), 0);
}

#[test]
fn failed_import_leaves_the_worker_empty() {
    let mut worker = worker();
    let build = Build { window: 1, width: 10, height: 10 };
    let source = worker.bound(3, 0x900, 10, 10, "source");
    let exporting = build.named(0x500, 0x21).bound::<u32>(Ok(source)).unwrap();
    let importing = exporting.exported(Some((77u32, 9, 400))).unwrap();
    let refused = worker.imported(None, 10, 10);
    assert_eq!(refused, Err(GpuError::TextureImport));
    let abort = importing.imported(refused).unwrap_err();
    assert_eq!(abort.error, HandoffError::Import(GpuError::TextureImport));
    assert_eq!(worker.texture_count(), 1);
    let log = perform(&mut worker, abort.cleanup);
    assert_eq!(log, vec!["release 3 with wrapper 2304", "drop remote 77", "free pixmap 1280"]);
    assert_eq!(worker.texture_count(), 0);
    assert!(!worker.has_texture(3));
}

#[test]
fn freeing_no_set_is_no_step() {
    assert!(TextureSet::<u32>::free(None).is_empty());
}

#[test]
fn freeing_a_set_is_releasing_it() {
    let mut worker = worker();
    let build = Build { window: 1, width: 2, height: 2 };
    let source = worker.bound(1, 5, 2, 2, "s");
    let importing = build
        .named(6, 7)
        .bound::<u32>(Ok(source))
        .unwrap()
        .exported(Some((8u32, 9, 10)))
        .unwrap();
    let imported = worker.imported(Some((2, "i")), 2, 2).unwrap();
    let set = importing.imported(Ok(imported)).unwrap();
    let steps = TextureSet::free(Some(set));
    assert_eq!(steps.len(), 4);
    assert_eq!(steps[2], ReleaseStep::DropRemote(8));
    assert_eq!(steps[3], ReleaseStep::FreePixmap(6));
    let log = perform(&mut worker, steps);
    assert_eq!(log[0], "release 2");
    assert_eq!(log[1], "release 1 with wrapper 5");
}
