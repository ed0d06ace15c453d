use kernel_core::ringbuffer::RingBufferData;

#[test]
fn starts_empty() {
    let buffer: RingBufferData<i32> = RingBufferData::new_with_capacity(10);
    assert_eq!(0, buffer.size());
    assert_eq!(10, buffer.capacity());
}

#[test]
fn fifo_order_within_capacity() {
    let mut buffer: RingBufferData<i32> = RingBufferData::new_with_capacity(10);
    buffer.push(55);
    buffer.push(42);
    assert_eq!(2, buffer.size());

    assert_eq!(Some(55), buffer.poll());
    assert_eq!(Some(42), buffer.poll());
    assert_eq!(None, buffer.poll());
}

#[test]
fn overwrites_oldest_when_full() {
    let mut buffer: RingBufferData<i32> = RingBufferData::new_with_capacity(5);
    for item in 1..=5 {
        buffer.push(item);
    }
    assert_eq!(5, buffer.size());

    buffer.push(6);
    assert_eq!(5, buffer.size());

    assert_eq!(Some(2), buffer.poll());
    assert_eq!(Some(3), buffer.poll());
    assert_eq!(Some(4), buffer.poll());
    assert_eq!(Some(5), buffer.poll());
    assert_eq!(Some(6), buffer.poll());
    assert_eq!(None, buffer.poll());
}

#[test]
fn sustained_overflow_keeps_most_recent() {
    let mut buffer: RingBufferData<u64> = RingBufferData::new_with_capacity(3);
    for item in 0..100u64 {
        buffer.push(item);
    }
    assert_eq!(3, buffer.size());
    assert_eq!(Some(97), buffer.poll());
    assert_eq!(Some(98), buffer.poll());
    assert_eq!(Some(99), buffer.poll());
}

#[test]
fn pop_returns_oldest() {
    let mut buffer: RingBufferData<i32> = RingBufferData::new_with_capacity(10);
    buffer.push(55);
    buffer.push(42);
    assert_eq!(55, buffer.pop());
    assert_eq!(42, buffer.pop());
}

#[test]
fn interleaved_push_poll_wraps_correctly() {
    let mut buffer: RingBufferData<i32> = RingBufferData::new_with_capacity(4);
    buffer.push(1);
    buffer.push(2);
    assert_eq!(Some(1), buffer.poll());
    buffer.push(3);
    buffer.push(4);
    buffer.push(5);
    assert_eq!(4, buffer.size());
    buffer.push(6);
    assert_eq!(Some(3), buffer.poll());
    assert_eq!(Some(4), buffer.poll());
    assert_eq!(Some(5), buffer.poll());
    assert_eq!(Some(6), buffer.poll());
    assert_eq!(None, buffer.poll());
}
