use std::collections::HashMap;

use geos::error::AppError;
use geos::tiles::{
    sentinel2_key, tile_outcome, tile_request, TileAction, TileEvent, TileProxy, TileRequest,
    TILE_CACHE_CONTROL, TILE_CONTENT_TYPE,
};

#[test]
fn tile_key_layout_is_stable() {
    assert_eq!(sentinel2_key(12, 100, 200), "sentinel2/12/100/200.jpg");
}

/// An in-memory store and upstream that count what the protocol asks of them.
#[derive(Default)]
struct Backends {
    objects: HashMap<String, Vec<u8>>,
    upstream: Option<Vec<u8>>,
    get_calls: u32,
    put_calls: u32,
    fetches: u32,
}

impl Backends {
    fn serve(&mut self, z: u32, x: u32, y: u32, max_zoom: u32) -> Option<Vec<u8>> {
        let mut proxy = TileProxy::new(TileRequest { z, x, y, max_zoom });
        let mut event = TileEvent::Begin;
        loop {
            assert!(proxy.accepts(&event));
            match proxy.advance(event) {
                TileAction::Get { key } | TileAction::LockAndGet { key } => {
                    self.get_calls += 1;
                    event = TileEvent::Read(self.objects.get(&key).cloned());
                }
                TileAction::Fetch { .. } => {
                    self.fetches += 1;
                    event = TileEvent::Fetched(self.upstream.clone());
                }
                TileAction::Put { key, content_type, bytes } => {
                    assert_eq!(content_type, "image/jpeg");
                    self.put_calls += 1;
                    self.objects.insert(key, bytes);
                    event = TileEvent::Stored;
                }
                TileAction::Finish { tile } => {
                    assert!(proxy.is_finished());
                    return tile;
                }
            }
        }
    }
}

#[test]
fn miss_fetches_upstream_and_persists() {
    let mut b = Backends { upstream: Some(b"jpegbytes".to_vec()), ..Backends::default() };

    let first = b.serve(5, 1, 2, 12);
    assert_eq!(first.as_deref(), Some(&b"jpegbytes"[..]));
    assert_eq!(b.put_calls, 1);

    let second = b.serve(5, 1, 2, 12);
    assert_eq!(second.as_deref(), Some(&b"jpegbytes"[..]));
    assert_eq!(b.fetches, 1);
    assert_eq!(b.put_calls, 1);
}

#[test]
fn over_max_zoom_never_reads_fetches_or_persists() {
    let mut b = Backends { upstream: Some(b"jpegbytes".to_vec()), ..Backends::default() };

    let result = b.serve(8, 1, 2, 6);
    assert!(result.is_none());
    assert_eq!(b.get_calls, 0, "no cache read");
    assert_eq!(b.fetches, 0, "no upstream download");
    assert_eq!(b.put_calls, 0, "no tile persisted");

    let at_ceiling = b.serve(6, 1, 2, 6);
    assert_eq!(at_ceiling.as_deref(), Some(&b"jpegbytes"[..]));
    assert_eq!(b.put_calls, 1);
}

#[test]
fn missing_everywhere_is_none_after_one_fetch() {
    let mut b = Backends::default();
    assert!(b.serve(3, 0, 0, 12).is_none());
    assert_eq!(b.get_calls, 2);
    assert_eq!(b.fetches, 1);
    assert_eq!(b.put_calls, 0);
}

#[test]
fn protocol_steps_in_order() {
    let mut proxy = TileProxy::new(TileRequest { z: 4, x: 5, y: 6, max_zoom: 10 });
    assert!(!proxy.accepts(&TileEvent::Stored));
    match proxy.advance(TileEvent::Begin) {
        TileAction::Get { key } => assert_eq!(key, "sentinel2/4/5/6.jpg"),
        other => panic!("unexpected {other:?}"),
    }
    match proxy.advance(TileEvent::Read(None)) {
        TileAction::LockAndGet { key } => assert_eq!(key, "sentinel2/4/5/6.jpg"),
        other => panic!("unexpected {other:?}"),
    }
    match proxy.advance(TileEvent::Read(None)) {
        TileAction::Fetch { z, x, y } => assert_eq!((z, x, y), (4, 5, 6)),
        other => panic!("unexpected {other:?}"),
    }
    match proxy.advance(TileEvent::Fetched(Some(vec![1, 2, 3]))) {
        TileAction::Put { key, content_type, bytes } => {
            assert_eq!(key, "sentinel2/4/5/6.jpg");
            assert_eq!(content_type, TILE_CONTENT_TYPE);
            assert_eq!(bytes, vec![1, 2, 3]);
        }
        other => panic!("unexpected {other:?}"),
    }
    match proxy.advance(TileEvent::Stored) {
        TileAction::Finish { tile } => assert_eq!(tile, Some(vec![1, 2, 3])),
        other => panic!("unexpected {other:?}"),
    }
    assert!(proxy.is_finished());
    assert!(!proxy.accepts(&TileEvent::Begin));
}

#[test]
fn gated_reread_serves_a_concurrent_fill() {
    let mut proxy = TileProxy::new(TileRequest { z: 1, x: 1, y: 1, max_zoom: 1 });
    proxy.advance(TileEvent::Begin);
    proxy.advance(TileEvent::Read(None));
    match proxy.advance(TileEvent::Read(Some(vec![9]))) {
        TileAction::Finish { tile } => assert_eq!(tile, Some(vec![9])),
        other => panic!("unexpected {other:?}"),
    }
}

#[test]
fn tile_request_checks_zoom_then_row() {
    assert_eq!(tile_request(5, 1, "2.jpg", 6).unwrap(), TileRequest { z: 5, x: 1, y: 2, max_zoom: 6 });
    assert_eq!(tile_request(5, 1, "17", 6).unwrap().y, 17);
    match tile_request(7, 1, "2.jpg", 6) {
        Err(AppError::NotFound(m)) => assert_eq!(m, "tile zoom out of range"),
        other => panic!("unexpected {other:?}"),
    }
    match tile_request(7, 1, "bogus", 6) {
        Err(AppError::NotFound(m)) => assert_eq!(m, "tile zoom out of range"),
        other => panic!("unexpected {other:?}"),
    }
    match tile_request(5, 1, "x.jpg", 6) {
        Err(AppError::BadRequest(m)) => assert_eq!(m, "invalid tile coordinate"),
        other => panic!("unexpected {other:?}"),
    }
    assert!(tile_request(5, 1, "4294967296.jpg", 6).is_err());
    assert!(tile_request(5, 1, "-1.jpg", 6).is_err());
}

#[test]
fn tile_outcome_maps_absence_to_not_found() {
    assert_eq!(tile_outcome(Some(vec![1])).unwrap(), vec![1]);
    match tile_outcome(None) {
        Err(AppError::NotFound(m)) => assert_eq!(m, "tile not available"),
        other => panic!("unexpected {other:?}"),
    }
    assert_eq!(TILE_CACHE_CONTROL, "public, max-age=604800, immutable");
}

#[test]
fn distinct_tiles_have_distinct_keys() {
    let keys = [sentinel2_key(1, 23, 4), sentinel2_key(12, 3, 4), sentinel2_key(1, 2, 34), sentinel2_key(1, 2, 3)];
    for (i, a) in keys.iter().enumerate() {
        for b in keys.iter().skip(i + 1) {
            assert_ne!(a, b);
        }
    }
}
