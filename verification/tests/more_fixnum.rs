use handy_async::error::ErrorKind;
use handy_async::io::mem::{BoundedSink, BytesStream};
use handy_async::io::read_pattern::ReadFrom;
use handy_async::io::write_pattern::WriteInto;
use handy_async::matcher::async_match::wait;
use handy_async::pattern::combinators::{BE, LE};
use handy_async::pattern::read;
use handy_async::pattern::write::{I24, U24, U40, U48, U56};
use handy_async::pattern::Endian;

#[test]
fn signed_reads() {
    let stream = BytesStream::new(vec![0xff, 0xfe]);
    let (_m, v) = wait(read::I16.be().read_from(stream)).ok().unwrap();
    assert_eq!(v, -2i16);

    let stream = BytesStream::new(vec![0xfe, 0xff]);
    let (_m, v) = wait(read::I16.le().read_from(stream)).ok().unwrap();
    assert_eq!(v, -2i16);

    let stream = BytesStream::new(vec![0x80, 0, 0, 0]);
    let (_m, v) = wait(BE(read::I32).read_from(stream)).ok().unwrap();
    assert_eq!(v, i32::MIN);

    let stream = BytesStream::new(vec![0x7f]);
    let (_m, v) = wait(read::I8.read_from(stream)).ok().unwrap();
    assert_eq!(v, 127i8);

    let stream = BytesStream::new(vec![0x80]);
    let (_m, v) = wait(read::I8.read_from(stream)).ok().unwrap();
    assert_eq!(v, -128i8);
}

#[test]
fn wide_reads() {
    let stream = BytesStream::new(vec![1, 2, 3]);
    let (_m, v) = wait(read::U24.be().read_from(stream)).ok().unwrap();
    assert_eq!(v, 0x010203u32);

    let stream = BytesStream::new(vec![1, 2, 3, 4, 5]);
    let (_m, v) = wait(read::U40.le().read_from(stream)).ok().unwrap();
    assert_eq!(v, 0x0504030201u64);

    let stream = BytesStream::new(vec![0xff, 0xff, 0xff]);
    let (_m, v) = wait(read::I24.be().read_from(stream)).ok().unwrap();
    assert_eq!(v, -1i32);

    let stream = BytesStream::new(vec![1, 2, 3, 4, 5, 6, 7, 8]);
    let (_m, v) = wait(read::U64.be().read_from(stream)).ok().unwrap();
    assert_eq!(v, 0x0102030405060708u64);

    let stream = BytesStream::new(vec![8, 7, 6, 5, 4, 3, 2, 1]);
    let (_m, v) = wait(read::I64.le().read_from(stream)).ok().unwrap();
    assert_eq!(v, 0x0102030405060708i64);
}

#[test]
fn signed_and_wide_writes() {
    let (m, _v) = wait((-2i16).be().write_into(Vec::new())).ok().unwrap();
    assert_eq!(m.into_inner(), vec![0xff, 0xfe]);

    let (m, _v) = wait((-2i16).le().write_into(Vec::new())).ok().unwrap();
    assert_eq!(m.into_inner(), vec![0xfe, 0xff]);

    let (m, _v) = wait(BE(U24(0x010203)).write_into(Vec::new())).ok().unwrap();
    assert_eq!(m.into_inner(), vec![1, 2, 3]);

    let (m, _v) = wait(LE(U40(0x0504030201)).write_into(Vec::new())).ok().unwrap();
    assert_eq!(m.into_inner(), vec![1, 2, 3, 4, 5]);

    let (m, _v) = wait(BE(I24(-1)).write_into(Vec::new())).ok().unwrap();
    assert_eq!(m.into_inner(), vec![0xff, 0xff, 0xff]);

    let (m, _v) = wait(BE(U48(1)).write_into(Vec::new())).ok().unwrap();
    assert_eq!(m.into_inner(), vec![0, 0, 0, 0, 0, 1]);

    let (m, _v) = wait(LE(U56(1)).write_into(Vec::new())).ok().unwrap();
    assert_eq!(m.into_inner(), vec![1, 0, 0, 0, 0, 0, 0]);

    let (m, _v) = wait(i64::MIN.be().write_into(Vec::new())).ok().unwrap();
    assert_eq!(m.into_inner(), vec![0x80, 0, 0, 0, 0, 0, 0, 0]);

    let (m, _v) = wait(255u8.write_into(Vec::new())).ok().unwrap();
    assert_eq!(m.into_inner(), vec![255]);

    let (m, _v) = wait((-1i8).write_into(Vec::new())).ok().unwrap();
    assert_eq!(m.into_inner(), vec![255]);
}

#[test]
fn fixnum_round_trip_through_the_stream() {
    let (m, _v) = wait(0xbeefu16.be().write_into(Vec::new())).ok().unwrap();
    let bytes = m.into_inner();
    let stream = BytesStream::new(bytes);
    let (_m, v) = wait(read::U16.be().read_from(stream)).ok().unwrap();
    assert_eq!(v, 0xbeef);
}

#[test]
fn short_stream_fails_a_fixnum_read() {
    let stream = BytesStream::new(vec![1, 2]);
    let e = wait(read::U32.be().read_from(stream)).err().unwrap();
    assert_eq!(e.into_error().kind, ErrorKind::UnexpectedEos);
}

#[test]
fn full_sink_fails_a_fixnum_write() {
    let sink = BoundedSink::new(2, 1);
    let e = wait(3u32.be().write_into(sink)).err().unwrap();
    let (m, err) = e.unwrap();
    assert_eq!(err.kind, ErrorKind::UnexpectedEos);
    assert_eq!(m.into_inner().contents(), vec![0, 0]);
}

#[test]
fn chunked_and_plain_streams_agree() {
    let data = vec![1, 2, 3, 4, 5, 6, 7, 8];
    let plain = BytesStream::new(data.clone());
    let slow = BytesStream::with_chunk_size(data, 1);
    let (_m, a) = wait(read::U64.be().read_from(plain)).ok().unwrap();
    let (_m, b) = wait(read::U64.be().read_from(slow)).ok().unwrap();
    assert_eq!(a, b);
}

#[test]
fn errors_hand_the_stream_back() {
    let stream = BytesStream::new(vec![1, 2]);
    let e = wait(read::U32.be().read_from(stream)).err().unwrap();
    let (m, err) = e.unwrap();
    assert_eq!(err.kind, ErrorKind::UnexpectedEos);
    let (_m, v) = wait(handy_async::matcher::async_match::AsyncMatch::async_match(
        handy_async::pattern::read::Eos,
        m,
    ))
    .ok()
    .unwrap();
    assert_eq!(v, Ok(()));
}
