use handy_async::codec::{decode_be, decode_le, encode_be, encode_le};
use handy_async::error::ErrorKind;
use handy_async::io::async_read::{read, read_exact, read_non_empty};
use handy_async::io::async_write::{flush, write_all};
use handy_async::io::mem::{BoundedSink, BytesStream};
use handy_async::io::misc::{Counter, Stateful};
use handy_async::io::Async;
use handy_async::io::read_pattern::ReadFrom;
use handy_async::io::write_pattern::WriteInto;
use handy_async::matcher::async_match::wait;
use handy_async::pattern::{AllowPartial, Window};

#[test]
fn codec_round_trips() {
    assert_eq!(encode_be(0x0102, 2), vec![1, 2]);
    assert_eq!(encode_le(0x0102, 2), vec![2, 1]);
    assert_eq!(decode_be(&vec![1, 2]), 0x0102);
    assert_eq!(decode_le(&vec![2, 1]), 0x0102);
    assert_eq!(decode_be(&encode_be(0xdead_beef_1234, 7)), 0xdead_beef_1234);
    assert_eq!(decode_le(&encode_le(u64::MAX, 8)), u64::MAX);
    assert_eq!(encode_be(0x01, 0), vec![]);
}

#[test]
fn single_read_moves_a_prefix() {
    let s = BytesStream::new(vec![1, 2, 3, 4, 5]);
    let f = read(s, Window::new(vec![0; 3]));
    let mut f = f;
    match f.poll() {
        Ok(Async::Ready((_s2, w, n))) => {
            assert_eq!(n, 3);
            assert_eq!(w.into_inner(), vec![1, 2, 3]);
        },
        _ => panic!(),
    }
}

#[test]
fn read_non_empty_reports_eos() {
    let s = BytesStream::new(vec![]);
    let mut f = read_non_empty(s, Window::new(vec![0; 4]));
    match f.poll() {
        Err(e) => assert_eq!(e.into_error().kind, ErrorKind::UnexpectedEos),
        _ => panic!(),
    }
}

#[test]
fn read_exact_fills_the_window() {
    let s = BytesStream::with_chunk_size(vec![9, 8, 7, 6, 5], 2);
    let mut f = read_exact(s, Window::new(vec![0; 4]));
    match f.poll() {
        Ok(Async::Ready((_s2, w))) => {
            assert_eq!(w.into_inner(), vec![9, 8, 7, 6]);
        },
        _ => panic!(),
    }
}

#[test]
fn read_exact_premature_end() {
    let s = BytesStream::new(vec![1, 2]);
    let mut f = read_exact(s, Window::new(vec![0; 4]));
    match f.poll() {
        Err(e) => assert_eq!(e.into_error().kind, ErrorKind::UnexpectedEos),
        _ => panic!(),
    }
}

#[test]
fn write_all_into_bounded_sink() {
    let sink = BoundedSink::new(8, 3);
    let mut f = write_all(sink, Window::new(vec![1, 2, 3, 4, 5]));
    match f.poll() {
        Ok(Async::Ready((sink, _w))) => {
            assert_eq!(sink.contents(), vec![1, 2, 3, 4, 5]);
        },
        _ => panic!(),
    }
}

#[test]
fn write_all_overflows_bounded_sink() {
    let sink = BoundedSink::new(3, 2);
    let mut f = write_all(sink, Window::new(vec![1, 2, 3, 4, 5]));
    match f.poll() {
        Err(e) => {
            let (st, err) = e.unwrap();
            assert_eq!(err.kind, ErrorKind::UnexpectedEos);
            assert_eq!(st.0.contents(), vec![1, 2, 3]);
        },
        _ => panic!(),
    }
}

#[test]
fn flush_returns_the_sink() {
    let mut f = flush(Vec::new());
    match f.poll() {
        Ok(Async::Ready(v)) => assert_eq!(v, Vec::<u8>::new()),
        _ => panic!(),
    }
}

#[test]
fn latency_reports_not_ready_then_data() {
    let s = BytesStream::with_latency(vec![42], 1, 2);
    let mut f = read(s, Window::new(vec![0; 1]));
    assert!(matches!(f.poll(), Ok(Async::NotReady)));
    assert!(matches!(f.poll(), Ok(Async::NotReady)));
    match f.poll() {
        Ok(Async::Ready((_s2, w, n))) => {
            assert_eq!(n, 1);
            assert_eq!(w.into_inner(), vec![42]);
        },
        _ => panic!(),
    }
}

#[test]
fn counter_counts_both_directions() {
    let mut c = Counter::new(BytesStream::new(vec![1, 2, 3]));
    assert_eq!(c.read_size(), 0);
    let mut f = read(c, Window::new(vec![0; 2]));
    match f.poll() {
        Ok(Async::Ready((c2, _w, n))) => {
            assert_eq!(n, 2);
            assert_eq!(c2.read_size(), 2);
            c = c2;
        },
        _ => panic!(),
    }
    assert_eq!(c.written_size(), 0);

    let w = Counter::new(Vec::new());
    let mut f = write_all(w, Window::new(vec![5, 6, 7]));
    match f.poll() {
        Ok(Async::Ready((w2, _b))) => {
            assert_eq!(w2.written_size(), 3);
            assert_eq!(w2.into_inner(), vec![5, 6, 7]);
        },
        _ => panic!(),
    }
}

#[test]
fn stateful_carries_state() {
    let s = Stateful { stream: BytesStream::new(vec![1]), state: "tag" };
    let s = s.map_state(|t: &str| t.len());
    assert_eq!(s.state, 3);
    let mut f = read(s, Window::new(vec![0; 1]));
    match f.poll() {
        Ok(Async::Ready((s2, _w, n))) => {
            assert_eq!(n, 1);
            assert_eq!(s2.state, 3);
        },
        _ => panic!(),
    }
}

#[test]
fn partial_read_takes_what_is_there() {
    let pattern = vec![0u8; 32].allow_partial();
    let stream = BytesStream::new(vec![1, 2, 3, 4]);
    let (_m, (buf, n)) = wait(pattern.read_from(stream)).ok().unwrap();
    assert_eq!(n, 4);
    assert_eq!(&buf[0..4], &[1, 2, 3, 4]);
    assert_eq!(buf.len(), 32);
}

#[test]
fn partial_write_takes_what_fits() {
    let pattern = vec![7u8; 32].allow_partial();
    let sink = BoundedSink::new(4, 4);
    let (m, (buf, n)) = wait(pattern.write_into(sink)).ok().unwrap();
    assert_eq!(n, 4);
    assert_eq!(buf.len(), 32);
    assert_eq!(m.into_inner().contents(), vec![7, 7, 7, 7]);
}
