use handy_async::error::ErrorKind;
use handy_async::io::mem::{BoundedSink, BytesStream};
use handy_async::io::read_pattern::ReadFrom;
use handy_async::io::write_pattern::WriteInto;
use handy_async::matcher::async_match::wait;
use handy_async::pattern::Window;

#[test]
fn window_read_fills_only_the_active_region() {
    let w = Window::new(vec![0, 0, 0, 0, 0]).skip(1).take(1);
    let stream = BytesStream::with_chunk_size(vec![7, 8, 9, 10], 2);
    let (_m, w2) = wait(w.read_from(stream)).ok().unwrap();
    assert_eq!(w2.start(), 1);
    assert_eq!(w2.end(), 4);
    assert_eq!(w2.into_inner(), vec![0, 7, 8, 9, 0]);
}

#[test]
fn window_write_sends_only_the_active_region() {
    let w = Window::new(vec![1, 2, 3, 4, 5]).skip(2);
    let (m, w2) = wait(w.write_into(Vec::new())).ok().unwrap();
    assert_eq!(m.into_inner(), vec![3, 4, 5]);
    assert_eq!(w2.start(), 2);
    assert_eq!(w2.into_inner(), vec![1, 2, 3, 4, 5]);
}

#[test]
fn window_read_needs_enough_bytes() {
    let w = Window::new(vec![0; 4]);
    let stream = BytesStream::new(vec![1, 2]);
    let e = wait(w.read_from(stream)).err().unwrap();
    assert_eq!(e.into_error().kind, ErrorKind::UnexpectedEos);
}

#[test]
fn window_write_needs_enough_room() {
    let w = Window::new(vec![1, 2, 3, 4]);
    let sink = BoundedSink::new(2, 2);
    let e = wait(w.write_into(sink)).err().unwrap();
    assert_eq!(e.into_error().kind, ErrorKind::UnexpectedEos);
}
