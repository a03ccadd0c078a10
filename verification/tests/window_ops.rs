use handy_async::pattern::Window;

#[test]
fn window_cursors() {
    let w = Window::new(vec![1, 2, 3, 4, 5]);
    assert_eq!(w.start(), 0);
    assert_eq!(w.end(), 5);
    assert_eq!(w.len(), 5);

    let w = w.skip(2);
    assert_eq!(w.start(), 2);
    assert_eq!(w.len(), 3);

    let w = w.take(1);
    assert_eq!(w.end(), 4);
    assert_eq!(w.len(), 2);

    let w = w.set_start(1).set_end(5);
    assert_eq!((w.start(), w.end()), (1, 5));
    assert_eq!(w.into_inner(), vec![1, 2, 3, 4, 5]);
}

#[test]
fn skipping_twice_is_one_skip() {
    let a = Window::new(vec![0; 10]).skip(3).skip(4);
    let b = Window::new(vec![0; 10]).skip(7);
    assert_eq!(a.start(), b.start());
    assert_eq!(a.end(), b.end());
    assert_eq!(a.into_inner(), b.into_inner());
}

#[test]
fn with_offset_starts_late() {
    let w = Window::with_offset(vec![9, 9, 9, 9], 3);
    assert_eq!(w.start(), 3);
    assert_eq!(w.len(), 1);

    let w = Window::new_ref(vec![1]);
    assert_eq!(w.len(), 1);
    let w = Window::new_mut(vec![1, 2]);
    assert_eq!(w.len(), 2);
}
