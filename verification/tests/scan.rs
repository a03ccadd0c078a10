use handy_async::error::{ErrorKind, IoError};
use handy_async::io::mem::BytesStream;
use handy_async::io::read_pattern::ReadFrom;
use handy_async::matcher::async_match::{wait, AsyncMatch};
use handy_async::pattern::read::{until, Eos, Line, U8};

fn nl_pred(bytes: &Vec<u8>, eos: bool) -> Result<Option<()>, IoError> {
    if bytes.last() == Some(&10) {
        Ok(Some(()))
    } else if eos {
        Ok(Some(()))
    } else {
        Ok(None)
    }
}

#[test]
fn until_scans_line_by_line() {
    let stream = BytesStream::with_chunk_size(b"hello\nworld".to_vec(), 1);
    let pattern = until(nl_pred).min_buffer_size(1);
    let (m, (bytes, ())) = wait(pattern.read_from(stream)).ok().unwrap();
    assert_eq!(bytes, b"hello\n".to_vec());

    let pattern = until(nl_pred).min_buffer_size(1);
    let (_m, (bytes, ())) = wait(pattern.async_match(m)).ok().unwrap();
    assert_eq!(bytes, b"world".to_vec());
}

#[test]
fn until_reports_eos_without_a_match() {
    fn never(_bytes: &Vec<u8>, _eos: bool) -> Result<Option<()>, IoError> {
        Ok(None)
    }
    let stream = BytesStream::new(b"abc".to_vec());
    let e = wait(until(never).read_from(stream)).err().unwrap();
    assert_eq!(e.into_error().kind, ErrorKind::UnexpectedEos);
}

#[test]
fn until_respects_the_buffer_limit() {
    fn never(_bytes: &Vec<u8>, _eos: bool) -> Result<Option<()>, IoError> {
        Ok(None)
    }
    let stream = BytesStream::new(vec![0; 64]);
    let pattern = until(never).min_buffer_size(4).max_buffer_size(8);
    let e = wait(pattern.read_from(stream)).err().unwrap();
    assert_eq!(e.into_error().kind, ErrorKind::BufferLimitReached);
}

#[test]
fn line_reads_lines() {
    let stream = BytesStream::with_chunk_size(b"hello\nworld!".to_vec(), 3);
    let (m, line) = wait(Line.read_from(stream)).ok().unwrap();
    assert_eq!(line, b"hello\n".to_vec());

    let (m, line) = wait(Line.async_match(m)).ok().unwrap();
    assert_eq!(line, b"world!".to_vec());

    let e = wait(Line.async_match(m)).err().unwrap();
    assert_eq!(e.into_error().kind, ErrorKind::UnexpectedEos);
}

#[test]
fn eos_tells_the_two_cases_apart() {
    let stream = BytesStream::new(vec![]);
    let (_m, v) = wait(Eos.read_from(stream)).ok().unwrap();
    assert_eq!(v, Ok(()));

    let stream = BytesStream::new(vec![7, 8]);
    let (m, v) = wait(Eos.read_from(stream)).ok().unwrap();
    assert_eq!(v, Err(7));

    let (_m, next) = wait(U8.async_match(m)).ok().unwrap();
    assert_eq!(next, 8);
}
