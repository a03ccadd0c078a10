use handy_async::error::{ErrorKind, IoError};
use handy_async::io::mem::BytesStream;
use handy_async::io::read_pattern::ReadFrom;
use handy_async::io::write_pattern::WriteInto;
use handy_async::matcher::async_match::wait;
use handy_async::pattern::combinators::{chain, or, or_else, then};
use handy_async::pattern::read::{All, U8};
use handy_async::pattern::{Branch, Buf, Iter};

#[test]
fn or_falls_back_on_failure() {
    let failing: Result<u8, IoError> = Err(IoError::new(ErrorKind::Other));
    let stream = BytesStream::new(vec![42]);
    let (_m, v) = wait(or(failing, U8).read_from(stream)).ok().unwrap();
    assert_eq!(v, 42);

    let fine: Result<u8, IoError> = Ok(7);
    let stream = BytesStream::new(vec![42]);
    let (_m, v) = wait(or(fine, U8).read_from(stream)).ok().unwrap();
    assert_eq!(v, 7);
}

#[test]
fn or_else_recovers_with_the_error() {
    let failing: Result<u8, IoError> = Err(IoError::new(ErrorKind::Other));
    let stream = BytesStream::new(vec![41]);
    let (_m, v) = wait(
        or_else(failing, |e: IoError| {
            assert_eq!(e.kind, ErrorKind::Other);
            U8
        }).read_from(stream),
    ).ok().unwrap();
    assert_eq!(v, 41);
}

#[test]
fn then_sees_both_outcomes() {
    let failing: Result<u8, IoError> = Err(IoError::new(ErrorKind::Other));
    let stream = BytesStream::new(vec![]);
    let (_m, v) = wait(
        then(failing, |r: Result<u8, IoError>| {
            let out: Result<u8, IoError> = Ok(if r.is_err() { 1 } else { 2 });
            out
        }).read_from(stream),
    ).ok().unwrap();
    assert_eq!(v, 1);
}

#[test]
fn chain_pairs_values() {
    let stream = BytesStream::new(vec![3, 4]);
    let (_m, v) = wait(chain(U8, U8).read_from(stream)).ok().unwrap();
    assert_eq!(v, (3, 4));
}

#[test]
fn option_patterns() {
    let stream = BytesStream::new(vec![9]);
    let (_m, v) = wait(Some(U8).read_from(stream)).ok().unwrap();
    assert_eq!(v, Some(9));

    let stream = BytesStream::new(vec![9]);
    let none: Option<U8> = None;
    let (_m, v) = wait(none.read_from(stream)).ok().unwrap();
    assert_eq!(v, None);
}

#[test]
fn branch_selects_one_alternative() {
    let stream = BytesStream::new(vec![5]);
    let b: Branch<U8> = Branch::A(U8);
    let (_m, v) = wait(b.read_from(stream)).ok().unwrap();
    assert_eq!(v, 5);

    let stream = BytesStream::new(vec![6]);
    let b: Branch<U8> = Branch::C(U8);
    let (_m, v) = wait(b.read_from(stream)).ok().unwrap();
    assert_eq!(v, 6);
}

#[test]
fn tuples_read_in_order() {
    let stream = BytesStream::new(vec![1, 2, 3, 4, 5]);
    let (_m, v) = wait((U8, U8, U8, U8, U8).read_from(stream)).ok().unwrap();
    assert_eq!(v, (1, 2, 3, 4, 5));

    let stream = BytesStream::new((0u8..10).collect());
    let (_m, v) = wait(
        (U8, U8, U8, U8, U8, U8, U8, U8, U8, U8).read_from(stream),
    ).ok().unwrap();
    assert_eq!(v, (0, 1, 2, 3, 4, 5, 6, 7, 8, 9));
}

#[test]
fn buffers_and_all() {
    let stream = BytesStream::new(vec![1, 2, 3, 4]);
    let (m, v) = wait(Buf(vec![0; 2]).read_from(stream)).ok().unwrap();
    assert_eq!(v, vec![1, 2]);
    let (_m2, rest) = wait(handy_async::matcher::async_match::AsyncMatch::async_match(All, m))
        .ok()
        .unwrap();
    assert_eq!(rest, vec![3, 4]);

    let (m, v) = wait(vec![7u8, 8u8].write_into(Vec::new())).ok().unwrap();
    assert_eq!(v, vec![7, 8]);
    assert_eq!(m.into_inner(), vec![7, 8]);
}

#[test]
fn and_then_reads_a_dependent_pattern() {
    let stream = BytesStream::new(vec![3, 10, 20, 30, 99]);
    let pattern = handy_async::pattern::combinators::and_then(U8, |n: u8| vec![0u8; n as usize]);
    let (m, body) = wait(pattern.read_from(stream)).ok().unwrap();
    assert_eq!(body, vec![10, 20, 30]);
    let (_m, rest) = wait(handy_async::matcher::async_match::AsyncMatch::async_match(All, m))
        .ok()
        .unwrap();
    assert_eq!(rest, vec![99]);
}

#[test]
fn iter_drives_patterns_in_order() {
    let stream = BytesStream::new(vec![1, 2, 3]);
    let (m, v) = wait(Iter(vec![U8, U8]).read_from(stream)).ok().unwrap();
    assert_eq!(v, ());
    let (_m, rest) = wait(handy_async::matcher::async_match::AsyncMatch::async_match(All, m))
        .ok()
        .unwrap();
    assert_eq!(rest, vec![3]);
}

#[test]
fn string_writes_its_bytes() {
    let s = String::from("hey");
    let (m, back) = wait(s.write_into(Vec::new())).ok().unwrap();
    assert_eq!(back, "hey");
    assert_eq!(m.into_inner(), b"hey".to_vec());
}
