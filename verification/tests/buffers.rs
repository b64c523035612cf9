use path_tracer::AccumulationBufferSet;

#[test]
fn initial_roles_are_disjoint() {
    let b = AccumulationBufferSet::new();
    assert_eq!(b.current_write(), 0);
    assert_eq!(b.current_read(), 1);
    assert_ne!(b.current_write(), b.current_read());
}

#[test]
fn advance_swaps_roles() {
    let mut b = AccumulationBufferSet::new();
    b.advance();
    assert_eq!(b.current_write(), 1);
    assert_eq!(b.current_read(), 0);
    b.advance();
    assert_eq!(b.current_write(), 0);
    assert_eq!(b.current_read(), 1);
}

#[test]
fn advance_alternates_over_many_frames() {
    let mut b = AccumulationBufferSet::new();
    let initial_write = b.current_write();
    let initial_read = b.current_read();
    for frame in 0..64 {
        if frame % 2 == 0 {
            assert_eq!(b.current_write(), initial_write);
            assert_eq!(b.current_read(), initial_read);
        } else {
            assert_eq!(b.current_write(), initial_read);
            assert_eq!(b.current_read(), initial_write);
        }
        assert_ne!(b.current_write(), b.current_read());
        b.advance();
    }
}
