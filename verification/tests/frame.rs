use browser_shell::frame::{
    finish_capture, frame_from, plan_capture, CaptureError, FrameStore, Grabbed, RawImage, Region,
};

fn region(width: u32, height: u32) -> Region {
    Region {
        x: 10,
        y: -20,
        width,
        height,
    }
}

fn solid_image(width: u32, height: u32, rgba: [u8; 4]) -> RawImage {
    let mut pixels = Vec::new();
    for _ in 0..(width * height) {
        pixels.extend_from_slice(&rgba);
    }
    RawImage {
        width,
        height,
        pixels,
    }
}

fn solid(width: u32, height: u32, rgba: [u8; 4]) -> Grabbed {
    Grabbed::Pixels(solid_image(width, height, rgba))
}

#[test]
fn store_is_empty_before_the_first_put() {
    let store = FrameStore::new();
    assert_eq!(store.get(), None);
    assert!(store.is_dirty());
}

#[test]
fn store_returns_what_was_put() {
    let mut store = FrameStore::new();
    store.put(vec![1, 2, 3]);
    assert_eq!(store.get(), Some(vec![1, 2, 3]));
    assert_eq!(store.get(), Some(vec![1, 2, 3]));
    store.put(vec![9]);
    assert_eq!(store.get(), Some(vec![9]));
    store.put(Vec::new());
    assert_eq!(store.get(), Some(Vec::new()));
}

#[test]
fn store_dirty_flag() {
    let mut store = FrameStore::new();
    store.clear_dirty();
    assert!(!store.is_dirty());
    store.put(vec![1]);
    assert!(!store.is_dirty());
    assert_eq!(store.get(), Some(vec![1]));
    store.mark_dirty();
    assert!(store.is_dirty());
    assert_eq!(store.get(), Some(vec![1]));
}

#[test]
fn empty_regions_are_unavailable() {
    assert_eq!(plan_capture(region(0, 600)), Err(CaptureError::Unavailable));
    assert_eq!(plan_capture(region(800, 0)), Err(CaptureError::Unavailable));
    assert_eq!(plan_capture(region(0, 0)), Err(CaptureError::Unavailable));
}

#[test]
fn other_regions_are_grabbed_as_they_are() {
    assert_eq!(plan_capture(region(800, 600)), Ok(region(800, 600)));
    assert_eq!(plan_capture(region(1, 1)), Ok(region(1, 1)));
    assert_eq!(
        plan_capture(region(u32::MAX, u32::MAX)),
        Ok(region(u32::MAX, u32::MAX))
    );
}

#[test]
fn region_follows_the_window() {
    let start = Region {
        x: 0,
        y: 0,
        width: 1200,
        height: 800,
    };
    assert_eq!(
        start.moved_to(-5, 40),
        Region {
            x: -5,
            y: 40,
            width: 1200,
            height: 800
        }
    );
    assert_eq!(
        start.moved_to(3, 4).resized_to(640, 0),
        Region {
            x: 3,
            y: 4,
            width: 640,
            height: 0
        }
    );
}

#[test]
fn a_failed_grab_is_a_capture_failure() {
    assert_eq!(
        finish_capture(Grabbed::Nothing),
        Err(CaptureError::CaptureFailure)
    );
}

#[test]
fn a_short_buffer_is_a_capture_failure() {
    let mut image = solid_image(4, 4, [1, 2, 3, 255]);
    image.pixels.pop();
    assert_eq!(
        finish_capture(Grabbed::Pixels(image)),
        Err(CaptureError::CaptureFailure)
    );
    assert_eq!(
        finish_capture(Grabbed::Pixels(RawImage {
            width: u32::MAX,
            height: u32::MAX,
            pixels: vec![0; 16],
        })),
        Err(CaptureError::CaptureFailure)
    );
}

#[test]
fn a_wide_image_without_rows_is_a_capture_failure() {
    assert_eq!(
        finish_capture(Grabbed::Pixels(RawImage {
            width: 2_000_000_000,
            height: 0,
            pixels: Vec::new(),
        })),
        Err(CaptureError::CaptureFailure)
    );
    assert_eq!(
        finish_capture(Grabbed::Pixels(RawImage {
            width: u32::MAX,
            height: 0,
            pixels: vec![1, 2, 3, 4],
        })),
        Err(CaptureError::CaptureFailure)
    );
}

#[test]
fn an_image_too_large_for_the_format_is_a_capture_failure() {
    assert_eq!(
        finish_capture(solid(65536, 1, [0, 0, 0, 255])),
        Err(CaptureError::CaptureFailure)
    );
}

#[test]
fn a_capture_is_a_jpeg_of_the_right_size() {
    let frame = finish_capture(solid(16, 8, [200, 30, 30, 255])).unwrap();
    assert_eq!(&frame[..3], &[0xff, 0xd8, 0xff]);
    assert_eq!(&frame[frame.len() - 2..], &[0xff, 0xd9]);
    let decoded = image::load_from_memory(&frame).unwrap().to_rgb8();
    assert_eq!(decoded.width(), 16);
    assert_eq!(decoded.height(), 8);
    let pixel = decoded.get_pixel(8, 4).0;
    assert!(pixel[0] > 180 && pixel[1] < 60 && pixel[2] < 60);
}

#[test]
fn alpha_does_not_reach_the_frame() {
    let opaque = finish_capture(solid(8, 8, [10, 200, 90, 255])).unwrap();
    let clear = finish_capture(solid(8, 8, [10, 200, 90, 0])).unwrap();
    assert_eq!(opaque, clear);
    let other = finish_capture(solid(8, 8, [10, 200, 91, 255])).unwrap();
    let decoded = image::load_from_memory(&other).unwrap().to_rgb8();
    assert_eq!(decoded.width(), 8);
}

#[test]
fn bytes_beyond_the_image_are_ignored() {
    let exact = solid_image(4, 2, [0, 0, 255, 255]);
    let mut longer = exact.clone();
    longer.pixels.extend_from_slice(&[7, 7, 7, 7, 7]);
    assert_eq!(
        finish_capture(Grabbed::Pixels(longer)),
        finish_capture(Grabbed::Pixels(exact))
    );
}

#[test]
fn colour_channels_keep_their_order() {
    let mut image = solid_image(16, 16, [0, 0, 0, 255]);
    for pixel in image.pixels.chunks_mut(4) {
        pixel[2] = 255;
    }
    let frame = finish_capture(Grabbed::Pixels(image)).unwrap();
    let decoded = image::load_from_memory(&frame).unwrap().to_rgb8();
    let pixel = decoded.get_pixel(5, 5).0;
    assert!(pixel[2] > 200 && pixel[0] < 60 && pixel[1] < 60);
}

#[test]
fn an_encoded_picture_is_the_frame() {
    assert_eq!(
        finish_capture(Grabbed::Encoded(vec![0xff, 0xd8, 1, 2, 3])),
        Ok(vec![0xff, 0xd8, 1, 2, 3])
    );
    assert_eq!(finish_capture(Grabbed::Encoded(Vec::new())), Ok(Vec::new()));
}

#[test]
fn frame_from_the_encoder() {
    assert_eq!(frame_from(Some(vec![1, 2])), Ok(vec![1, 2]));
    assert_eq!(frame_from(None), Err(CaptureError::CaptureFailure));
}
