use handy_async::io::mem::BytesStream;
use handy_async::io::read_pattern::ReadFrom;
use handy_async::matcher::async_match::wait;
use handy_async::pattern::combinators::and_then;
use handy_async::pattern::Iter;

#[test]
fn combinators_it_works() {
    wait(and_then((), |_v: ()| ()).read_from(BytesStream::new(vec![]))).ok().unwrap();

    assert_eq!(
        wait(
            handy_async::pattern::combinators::map(and_then((), |_v: ()| ()), |_v: ()| 10)
                .read_from(BytesStream::new(vec![]))
        )
        .ok()
        .unwrap()
        .1,
        10
    );

    let pattern = Iter(vec![(), (), ()]).fold(0, |n: i32, _v: ()| n + 1);
    assert_eq!(
        wait(pattern.read_from(BytesStream::new(vec![]))).ok().unwrap().1,
        3
    );
}

#[test]
fn read_pattern_it_works() {
    assert_eq!(
        wait(
            handy_async::pattern::combinators::map(and_then((), |_v: ()| ()), |_v: ()| 10)
                .read_from(BytesStream::new(vec![]))
        )
        .ok()
        .unwrap()
        .1,
        10
    );

    let pattern = Iter(vec![(), (), ()]).fold(0, |n: i32, _v: ()| n + 1);
    assert_eq!(
        wait(pattern.read_from(BytesStream::new(vec![]))).ok().unwrap().1,
        3
    );
}
