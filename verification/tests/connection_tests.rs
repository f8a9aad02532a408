use capture_client::connection::{BindRequest, Connection, WriteRequest};

#[test]
fn connection_new_keeps_fields() {
    let c = Connection::new(3, "desktop".to_string(), 100, (10, 40));
    assert_eq!(c.index, 3);
    assert_eq!(c.title(), "desktop");
    assert_eq!(c.region_len(), 100);
    assert_eq!(c.buffer_range(), (10, 40));
}

#[test]
fn bind_request_names_context_and_range() {
    let c = Connection::new(7, "w".to_string(), 64, (0, 64));
    assert_eq!(c.bind_request(), BindRequest { context: 7, start: 0, end: 64 });
}

#[test]
fn write_request_posts_range_to_window() {
    let c = Connection::new(255, "w".to_string(), 10, (5, 10));
    assert_eq!(
        c.write(0x1234),
        WriteRequest { context: 255, start: 5, end: 10, remote_offset: 0, remote_token: 0x1234 }
    );
}

#[test]
fn write_matches_bind_on_values() {
    let c = Connection::new(42, "w".to_string(), 1000, (100, 900));
    let b = c.bind_request();
    let w = c.write(77);
    assert_eq!(w.context, b.context);
    assert_eq!((w.start, w.end), (b.start, b.end));
}

#[test]
fn empty_range_at_region_end() {
    let c = Connection::new(0, String::new(), 8, (8, 8));
    assert_eq!(c.bind_request(), BindRequest { context: 0, start: 8, end: 8 });
}

#[test]
fn request_contexts_differ_for_different_indices() {
    let a = Connection::new(1, "a".to_string(), 4, (0, 2));
    let b = Connection::new(2, "b".to_string(), 4, (2, 4));
    assert_ne!(a.bind_request().context, b.bind_request().context);
    assert_ne!(a.write(0).context, b.write(0).context);
}
