use rising_sun_common::audio::{stereo_levels, AudioRingBuffer};

#[test]
fn ring_buffer_keeps_one_slot_free() {
    let mut rb = AudioRingBuffer::new(4);
    assert_eq!(rb.available(), 0);
    assert_eq!(rb.free_space(), 3);
    assert_eq!(rb.write(&[1, 2, 3, 4, 5]), 3);
    assert_eq!(rb.available(), 3);
    assert_eq!(rb.free_space(), 0);
    assert_eq!(rb.write(&[9]), 0);
}

#[test]
fn ring_buffer_wraps_in_order() {
    let mut rb = AudioRingBuffer::new(4);
    rb.write(&[1, 2, 3]);
    let mut out = [0i16; 2];
    assert_eq!(rb.read(&mut out), 2);
    assert_eq!(out, [1, 2]);
    assert_eq!(rb.write(&[4, 5]), 2);
    let mut out = [7i16; 5];
    assert_eq!(rb.read(&mut out), 3);
    assert_eq!(out, [3, 4, 5, 7, 7]);
    assert_eq!(rb.available(), 0);
    let mut none = [0i16; 3];
    assert_eq!(rb.read(&mut none), 0);
}

#[test]
fn stereo_volume_levels() {
    assert_eq!(stereo_levels(100, 200), (100, 200, 150));
    assert_eq!(stereo_levels(-5, 300), (0, 255, 127));
    assert_eq!(stereo_levels(255, 0), (255, 0, 127));
}
