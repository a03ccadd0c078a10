use handy_async::future::{select_either, SelectOutcome};
use handy_async::io::mem::BytesStream;
use handy_async::io::read_pattern::ReadFrom;
use handy_async::io::Async;
use handy_async::pattern::read::U8;

#[test]
fn select_yields_the_first_resolved() {
    let fast = U8.read_from(BytesStream::new(vec![1]));
    let slow = U8.read_from(BytesStream::with_latency(vec![2], 1, 5));
    let mut race = select_either(fast, slow);
    match race.poll() {
        Ok(Async::Ready(SelectOutcome::First(((_m, v), _loser)))) => assert_eq!(v, 1),
        _ => panic!(),
    }
}

#[test]
fn select_falls_through_to_the_second() {
    let blocked = U8.read_from(BytesStream::with_latency(vec![2], 1, 5));
    let open = U8.read_from(BytesStream::new(vec![3]));
    let mut race = select_either(blocked, open);
    match race.poll() {
        Ok(Async::Ready(SelectOutcome::Second((_loser, (_m, v))))) => assert_eq!(v, 3),
        _ => panic!(),
    }
}

#[test]
fn select_suspends_when_both_block() {
    let a = U8.read_from(BytesStream::with_latency(vec![1], 1, 2));
    let b = U8.read_from(BytesStream::with_latency(vec![2], 1, 2));
    let mut race = select_either(a, b);
    assert!(matches!(race.poll(), Ok(Async::NotReady)));
}
