use tracelog::hash::{hash_to_i64, i64_to_hash, ImageHash};
use tracelog::metrics::{route, MetricsServer, Route};
use tracelog::writer::{WriteAdaptor, WriteError};

#[test]
fn writer_rejects_invalid_utf8() {
    let mut dest = "start".to_string();
    {
        let mut w = WriteAdaptor::new(&mut dest);
        assert_eq!(w.write(&[0x66, 0xff, 0x67]), Err(WriteError::InvalidData));
        assert_eq!(w.flush(), Ok(()));
    }
    assert_eq!(dest, "start");
}

#[test]
fn writer_forwards_valid_text_and_reports_length() {
    let mut dest = String::new();
    {
        let mut w = WriteAdaptor::new(&mut dest);
        assert_eq!(w.write("héllo".as_bytes()), Ok(6));
        assert_eq!(w.write(b""), Ok(0));
        assert_eq!(w.write(b" world"), Ok(6));
    }
    assert_eq!(dest, "héllo world");
}

#[test]
fn routes_follow_path_and_ready_state() {
    assert_eq!(route("/health/live", false), Route::Live);
    assert_eq!(route("/health/ready", true), Route::Ready);
    assert_eq!(route("/health/ready", false), Route::NotReady);
    assert_eq!(route("/metrics", false), Route::Metrics);
    assert_eq!(route("/other", true), Route::NotFound);
    assert_eq!(Route::Live.status(), 200);
    assert_eq!(Route::NotReady.status(), 503);
    assert_eq!(Route::NotFound.status(), 404);
    assert_eq!(Route::Live.body(), "OK");
    assert_eq!(Route::Ready.body(), "READY");
    assert_eq!(Route::NotReady.body(), "NOT READY");
}

#[test]
fn metrics_server_ready_state() {
    let s = MetricsServer::new(false);
    assert_eq!(s.handle("/health/ready"), Route::NotReady);
    s.set_ready(true);
    assert!(s.is_ready());
    assert_eq!(s.handle("/health/ready"), Route::Ready);
    assert_eq!(s.handle("/health/live"), Route::Live);
}

#[test]
fn image_hash_is_big_endian() {
    let h = i64_to_hash(0x0102_0304_0506_0708);
    assert_eq!(h.0, [1, 2, 3, 4, 5, 6, 7, 8]);
    assert_eq!(*h, [1, 2, 3, 4, 5, 6, 7, 8]);
    assert_eq!(h.len(), 8);
    assert_eq!(hash_to_i64(ImageHash([0xff; 8])), -1);
    assert_eq!(i64::from(ImageHash::from(i64::MIN)), i64::MIN);
    assert_eq!(hash_to_i64(i64_to_hash(-123456789)), -123456789);
}
