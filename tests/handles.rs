use std::io::{self, Stdin, Stdout, Write};

use cross_file_id::{FileId, Handle};

fn assert_send<T: Send>() {}

fn assert_sync<T: Sync>() {}

#[test]
fn test_send() {
    assert_send::<Handle<Stdin>>();
    assert_send::<Handle<Stdout>>();
}

#[test]
fn test_sync() {
    assert_sync::<Handle<Stdin>>();
    assert_sync::<Handle<Stdout>>();
}

#[test]
fn stdout_handle_drop_leaves_stream_usable() {
    let h = Handle::from_parts(io::stdout(), FileId::from_metadata(0, 1));
    let h2 = Handle::from_parts(io::stdout(), FileId::from_metadata(0, 1));
    assert!(h == h2);
    drop(h);
    drop(h2);
    let mut out = io::stdout();
    out.write_all(b"stdout still open\n").unwrap();
    out.flush().unwrap();
}

#[test]
fn handle_into_inner_gives_back_stream() {
    let h = Handle::from_parts(io::stderr(), FileId::from_metadata(0, 2));
    let mut err = Handle::into_inner(h);
    err.write_all(b"").unwrap();
    err.flush().unwrap();
}

#[test]
fn same_resource_identity_is_reflexive() {
    let h = Handle::from_parts(io::stdin(), FileId::from_metadata(8, 8));
    assert!(h == h);
    assert!(!(h < h));
    assert_eq!(Handle::id(h), FileId::from_metadata(8, 8));
}
