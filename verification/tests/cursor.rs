use xr_mirror::cursor::Cursor;
use xr_mirror::cursor::CursorCache;
use xr_mirror::guard::CompileDropBomb;

fn cursor(texture: &'static str, width: u16, height: u16) -> Cursor<&'static str> {
    Cursor { texture, width, height, hotspot_x: 1, hotspot_y: 2 }
}

#[test]
fn cache_starts_empty() {
    let cache: CursorCache<&'static str> = CursorCache::new();
    assert_eq!(cache.len(), 0);
    assert!(cache.get(0).is_none());
}

#[test]
fn shape_is_stored_under_the_reported_serial() {
    let mut cache = CursorCache::new();
    assert!(cache.store(7, cursor("arrow", 24, 24)).is_none());
    assert_eq!(cache.len(), 1);
    assert!(cache.get(0).is_none());
    let cached = cache.get(7).unwrap();
    assert_eq!(cached.texture, "arrow");
    assert_eq!((cached.hotspot_x, cached.hotspot_y), (1, 2));
}

#[test]
fn first_shape_of_a_serial_stays() {
    let mut cache = CursorCache::new();
    assert!(cache.store(7, cursor("arrow", 24, 24)).is_none());
    let rejected = cache.store(7, cursor("hand", 32, 32)).unwrap();
    assert_eq!(rejected.texture, "hand");
    assert_eq!(cache.get(7).unwrap().texture, "arrow");
    assert_eq!(cache.len(), 1);
}

#[test]
fn mirror_takes_only_shapes_larger_than_a_hundredth_of_a_metre() {
    assert!(cursor("c", 7, 7).fits_mirror());
    assert!(!cursor("c", 6, 7).fits_mirror());
    assert!(!cursor("c", 7, 6).fits_mirror());
    assert!(!cursor("c", 0, 0).fits_mirror());
    assert!(cursor("c", u16::MAX, u16::MAX).fits_mirror());
}

#[test]
fn compile_drop_bomb_is_a_plain_marker() {
    let a = CompileDropBomb::default();
    let b = a.clone();
    assert_eq!(a, b);
    assert!(a <= b);
    assert_eq!(format!("{:?}", a), "CompileDropBomb");
}
