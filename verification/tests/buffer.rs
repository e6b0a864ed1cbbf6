use gamesync::buffer::{CircularBuffer, BUFFER_CAPACITY};

#[test]
fn cold_read_returns_seed_value() {
    let buf: CircularBuffer<u32> = CircularBuffer::new_from(7);
    // before any set, every sequence number reads the construction value
    for s in [0u16, 1, 5, 63, 64, 100, 255, 1000, u16::MAX] {
        assert_eq!(buf.get(s), 7);
    }
}

#[test]
fn set_then_get_same_sequence() {
    let mut buf: CircularBuffer<u32> = CircularBuffer::new_from(0);
    buf.set(10, 42);
    assert_eq!(buf.get(10), 42);
    // other slots still hold the seed value
    assert_eq!(buf.get(11), 0);
}

#[test]
fn slot_aliasing_last_write_wins() {
    let cap = BUFFER_CAPACITY as u16;
    let a: u16 = 3;
    let b: u16 = 3 + cap;
    assert_ne!(a, b);
    assert_eq!(a % cap, b % cap);
    let mut buf: CircularBuffer<u32> = CircularBuffer::new_from(0);
    buf.set(a, 111);
    buf.set(b, 222);
    // a and b share a slot, so the later write for b is read back for a
    assert_eq!(buf.get(a), 222);
    assert_eq!(buf.get(b), 222);
}

#[test]
fn overwrite_same_sequence_is_idempotent_last_wins() {
    let mut buf: CircularBuffer<u32> = CircularBuffer::new_from(0);
    buf.set(5, 1);
    buf.set(5, 2);
    assert_eq!(buf.get(5), 2);
}

#[test]
fn wrapping_sequence_maps_into_capacity() {
    let cap = BUFFER_CAPACITY as u16;
    let mut buf: CircularBuffer<u32> = CircularBuffer::new_from(0);
    buf.set(u16::MAX, 9);
    assert_eq!(buf.get(u16::MAX % cap), 9);
}
