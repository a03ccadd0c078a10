use handy_async::io::mem::BytesStream;
use handy_async::io::read_pattern::ReadFrom;
use handy_async::io::write_pattern::WriteInto;
use handy_async::matcher::async_match::wait;
use handy_async::pattern::combinators::{BE, LE};
use handy_async::pattern::read::{U8, U16, U32};
use handy_async::pattern::Endian;

#[test]
fn it_works() {
    let input = BytesStream::new(vec![0, 0, 1, 2, 0, 0, 0]);
    let future = (U8, U16.be(), U32.le()).read_from(input);
    let value = wait(future).ok().unwrap().1;
    assert_eq!(value, (0, 1, 2));
}

#[test]
fn write_it_works() {
    let output = Vec::new();
    let future = handy_async::pattern::combinators::map((1u8, BE(2u16), LE(3u32)), |_v| ()).write_into(output);
    let output = wait(future).ok().unwrap().0.into_inner();
    assert_eq!(output, [1, 0, 2, 3, 0, 0, 0]);
}
