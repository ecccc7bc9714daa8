use led_matrix::frame::{FrameBuffer, FB_LEN, HEIGHT, WIDTH};

#[test]
fn default_buffer_is_dark() {
    let fb = FrameBuffer::default();
    for i in 0..FB_LEN {
        assert_eq!(fb.pixel_at_index(i), 0);
    }
}

#[test]
fn set_pixel_writes_column_major_index_only() {
    let mut fb = FrameBuffer::default();
    fb.set_pixel(2, 5, 0x7F);
    let target = 2 * HEIGHT as usize + 5;
    assert_eq!(target, 73);
    for i in 0..FB_LEN {
        let expected = if i == target { 0x7F } else { 0 };
        assert_eq!(fb.pixel_at_index(i), expected);
    }
    assert_eq!(fb.get_pixel(2, 5), 0x7F);
}

#[test]
fn set_pixel_at_last_corner() {
    let mut fb = FrameBuffer::default();
    fb.set_pixel(WIDTH - 1, HEIGHT - 1, 9);
    assert_eq!(fb.pixel_at_index(FB_LEN - 1), 9);
    fb.set_pixel(0, 0, 4);
    assert_eq!(fb.pixel_at_index(0), 4);
}

#[test]
fn column_copies_one_column() {
    let mut fb = FrameBuffer::default();
    fb.set_pixel(1, 0, 10);
    fb.set_pixel(1, 33, 20);
    fb.set_pixel(2, 0, 30);
    let col = fb.column(1);
    assert_eq!(col.len(), 34);
    assert_eq!(col[0], 10);
    assert_eq!(col[33], 20);
    assert_eq!(col.iter().filter(|&&p| p != 0).count(), 2);
}

#[test]
fn light_pixel_at_wraps_drawn_numbers() {
    let mut fb = FrameBuffer::default();
    fb.light_pixel_at(9 * 3 + 4, 34 * 2 + 7);
    assert_eq!(fb.get_pixel(4, 7), 0xff);
    let lit = (0..FB_LEN).filter(|&i| fb.pixel_at_index(i) != 0).count();
    assert_eq!(lit, 1);
}

#[test]
fn random_pixel_lights_exactly_one_led() {
    let mut fb = FrameBuffer::default();
    fb.set_random_pixel();
    let lit: Vec<usize> = (0..FB_LEN).filter(|&i| fb.pixel_at_index(i) != 0).collect();
    assert_eq!(lit.len(), 1);
    assert_eq!(fb.pixel_at_index(lit[0]), 0xff);
}

#[test]
fn snapshot_is_independent_copy() {
    let mut fb = FrameBuffer::default();
    fb.set_pixel(3, 3, 1);
    let copy = fb.snapshot();
    fb.set_pixel(3, 3, 2);
    assert_eq!(copy.get_pixel(3, 3), 1);
    assert_eq!(fb.get_pixel(3, 3), 2);
}
