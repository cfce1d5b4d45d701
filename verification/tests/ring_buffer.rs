use stadium_eq::frame::RingBuffer;

#[test]
fn new_buffer_is_empty() {
    let rb: RingBuffer<f32> = RingBuffer::new(4);
    assert_eq!(rb.available(), 0);
}

#[test]
fn push_then_read_is_fifo() {
    let mut rb: RingBuffer<i32> = RingBuffer::new(4);
    rb.push(1);
    rb.push(2);
    rb.push(3);
    assert_eq!(rb.available(), 3);
    let mut out = [0; 3];
    let n = rb.read(&mut out, 3);
    assert_eq!(n, 3);
    assert_eq!(out, [1, 2, 3]);
    assert_eq!(rb.available(), 0);
}

#[test]
fn full_buffer_overwrites_oldest() {
    let mut rb: RingBuffer<u8> = RingBuffer::new(3);
    for s in 1..=5u8 {
        rb.push(s);
    }
    assert_eq!(rb.available(), 3);
    let mut out = [0u8; 3];
    assert_eq!(rb.read(&mut out, 10), 3);
    assert_eq!(out, [3, 4, 5]);
}

#[test]
fn push_slice_keeps_newest() {
    let mut rb: RingBuffer<f32> = RingBuffer::new(4);
    rb.push_slice(&[1.0, 2.0]);
    rb.push_slice(&[3.0, 4.0, 5.0, 6.0]);
    assert_eq!(rb.available(), 4);
    let mut out = [0.0f32; 4];
    assert_eq!(rb.read(&mut out, 4), 4);
    assert_eq!(out, [3.0, 4.0, 5.0, 6.0]);
}

#[test]
fn read_limited_by_count_and_output() {
    let mut rb: RingBuffer<i64> = RingBuffer::new(8);
    rb.push_slice(&[10, 20, 30, 40, 50]);
    let mut out = [0i64; 2];
    // The output slice bounds the read.
    assert_eq!(rb.read(&mut out, 5), 2);
    assert_eq!(out, [10, 20]);
    // The count bounds the read; the rest of the output is untouched.
    let mut out = [-1i64; 4];
    assert_eq!(rb.read(&mut out, 1), 1);
    assert_eq!(out, [30, -1, -1, -1]);
    // The available samples bound the read.
    let mut out = [-1i64; 4];
    assert_eq!(rb.read(&mut out, 4), 2);
    assert_eq!(out, [40, 50, -1, -1]);
    assert_eq!(rb.available(), 0);
}

#[test]
fn wraps_around_many_times() {
    let cap = 5usize;
    let mut rb: RingBuffer<u32> = RingBuffer::new(cap);
    let mut model: std::collections::VecDeque<u32> = std::collections::VecDeque::new();
    let mut next_in = 0u32;
    for round in 0..50u32 {
        let k = (round % 4) + 1;
        for _ in 0..k {
            rb.push(next_in);
            if model.len() == cap {
                model.pop_front();
            }
            model.push_back(next_in);
            next_in += 1;
        }
        assert_eq!(rb.available(), model.len());
        let mut out = [0u32; 3];
        let n = rb.read(&mut out, 3);
        assert_eq!(n, model.len().min(3));
        for &v in &out[..n] {
            assert_eq!(Some(v), model.pop_front());
        }
    }
}

#[test]
fn clear_empties_buffer() {
    let mut rb: RingBuffer<i32> = RingBuffer::new(3);
    rb.push_slice(&[1, 2, 3]);
    rb.clear();
    assert_eq!(rb.available(), 0);
    let mut out = [0; 3];
    assert_eq!(rb.read(&mut out, 3), 0);
    rb.push(9);
    assert_eq!(rb.read(&mut out, 3), 1);
    assert_eq!(out[0], 9);
}

#[test]
fn zero_capacity_reads_nothing() {
    let mut rb: RingBuffer<i32> = RingBuffer::new(0);
    rb.push_slice(&[]);
    let mut out = [0; 2];
    assert_eq!(rb.read(&mut out, 2), 0);
    assert_eq!(rb.available(), 0);
}
