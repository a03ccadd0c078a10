use handy_async::error::ErrorKind;
use handy_async::io::mem::BytesStream;
use handy_async::io::read_pattern::ReadFrom;
use handy_async::matcher::async_match::{wait, AsyncMatch};
use handy_async::pattern::read::{Eos, LengthPrefixedBytes, Utf8, U8};

#[test]
fn length_prefixed_string() {
    let stream = BytesStream::new(vec![5, b'h', b'e', b'l', b'l', b'o']);
    let pattern = Utf8(LengthPrefixedBytes(U8));
    let (m, s) = wait(pattern.read_from(stream)).ok().unwrap();
    assert_eq!(s, "hello");

    let (_m, v) = wait(Eos.async_match(m)).ok().unwrap();
    assert_eq!(v, Ok(()));
}

#[test]
fn length_prefixed_bytes_leave_the_rest() {
    let stream = BytesStream::with_chunk_size(vec![3, 1, 2, 3, 99], 1);
    let (m, bytes) = wait(LengthPrefixedBytes(U8).read_from(stream)).ok().unwrap();
    assert_eq!(bytes, vec![1, 2, 3]);
    let (_m, v) = wait(Eos.async_match(m)).ok().unwrap();
    assert_eq!(v, Err(99));
}

#[test]
fn length_prefix_larger_than_stream() {
    let stream = BytesStream::new(vec![9, 1, 2]);
    let e = wait(LengthPrefixedBytes(U8).read_from(stream)).err().unwrap();
    assert_eq!(e.into_error().kind, ErrorKind::UnexpectedEos);
}

#[test]
fn invalid_utf8_is_invalid_data() {
    let stream = BytesStream::new(vec![2, 0xff, 0xfe]);
    let pattern = Utf8(LengthPrefixedBytes(U8));
    let e = wait(pattern.read_from(stream)).err().unwrap();
    assert_eq!(e.into_error().kind, ErrorKind::InvalidData);
}

#[test]
fn string_reads_its_own_length() {
    let stream = BytesStream::new(b"world!!".to_vec());
    let pattern = String::from("hello");
    let (m, s) = wait(pattern.read_from(stream)).ok().unwrap();
    assert_eq!(s, "world");
    let (_m, v) = wait(Eos.async_match(m)).ok().unwrap();
    assert_eq!(v, Err(b'!'));
}
