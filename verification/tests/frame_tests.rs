use raycaster::frame::{Frame, CHANNELS};
use raycaster::pixel::Rgba;

#[test]
fn new_frame_is_all_zero() {
    let frame = Frame::new(3, 2).unwrap();
    assert_eq!(frame.width(), 3);
    assert_eq!(frame.height(), 2);
    assert_eq!(frame.as_bytes().len(), 3 * 2 * CHANNELS);
    assert!(frame.as_bytes().iter().all(|&b| b == 0));
}

#[test]
fn new_frame_of_the_usual_size() {
    let frame = Frame::new(640, 480).unwrap();
    assert_eq!(frame.as_bytes().len(), 1_228_800);
}

#[test]
fn new_frame_may_be_empty() {
    let frame = Frame::new(0, 7).unwrap();
    assert_eq!(frame.width(), 0);
    assert_eq!(frame.height(), 7);
    assert!(frame.as_bytes().is_empty());
    let frame = Frame::new(7, 0).unwrap();
    assert!(frame.into_bytes().is_empty());
}

#[test]
fn new_frame_too_large_for_memory_addresses() {
    // 4 * (2^32 - 1)^2 bytes is more than 2^64.
    assert!(Frame::new(u32::MAX, u32::MAX).is_none());
}

#[test]
fn offset_is_row_major() {
    let frame = Frame::new(640, 480).unwrap();
    assert_eq!(frame.offset(0, 0), 0);
    assert_eq!(frame.offset(1, 0), 4);
    assert_eq!(frame.offset(639, 0), 2556);
    assert_eq!(frame.offset(0, 1), 2560);
    assert_eq!(frame.offset(320, 240), (320 + 240 * 640) * 4);
    assert_eq!(frame.offset(320, 240), 615_680);
    assert_eq!(frame.offset(639, 479), 1_228_796);
}

#[test]
fn put_writes_four_bytes_in_order() {
    let mut frame = Frame::new(2, 2).unwrap();
    frame.put(1, 0, Rgba { r: 10, g: 20, b: 30, a: 40 });
    assert_eq!(
        frame.as_bytes(),
        &vec![0, 0, 0, 0, 10, 20, 30, 40, 0, 0, 0, 0, 0, 0, 0, 0]
    );
}

#[test]
fn put_then_get_returns_the_pixel() {
    let mut frame = Frame::new(5, 4).unwrap();
    let p = Rgba { r: 1, g: 2, b: 3, a: 4 };
    frame.put(4, 3, p);
    assert_eq!(frame.get(4, 3), p);
    assert_eq!(frame.get(0, 0), Rgba { r: 0, g: 0, b: 0, a: 0 });
}

#[test]
fn put_leaves_every_other_pixel_alone() {
    let mut frame = Frame::new(4, 3).unwrap();
    for y in 0..3u32 {
        for x in 0..4u32 {
            let v = (x + 4 * y) as u8;
            frame.put(x, y, Rgba { r: v, g: v + 50, b: v + 100, a: v + 150 });
        }
    }
    frame.put(2, 1, Rgba { r: 9, g: 9, b: 9, a: 9 });
    for y in 0..3u32 {
        for x in 0..4u32 {
            let v = (x + 4 * y) as u8;
            let expected = if (x, y) == (2, 1) {
                Rgba { r: 9, g: 9, b: 9, a: 9 }
            } else {
                Rgba { r: v, g: v + 50, b: v + 100, a: v + 150 }
            };
            assert_eq!(frame.get(x, y), expected);
        }
    }
}

#[test]
fn pixels_never_overlap() {
    let frame = Frame::new(7, 5).unwrap();
    let mut owner = vec![None; 7 * 5 * 4];
    for y in 0..5u32 {
        for x in 0..7u32 {
            let o = frame.offset(x, y);
            for c in 0..4 {
                assert_eq!(owner[o + c], None);
                owner[o + c] = Some((x, y));
            }
        }
    }
    assert!(owner.iter().all(|o| o.is_some()));
}

#[test]
fn into_bytes_hands_over_the_buffer() {
    let mut frame = Frame::new(1, 1).unwrap();
    frame.put(0, 0, Rgba { r: 255, g: 128, b: 0, a: 255 });
    assert_eq!(frame.into_bytes(), vec![255, 128, 0, 255]);
}
