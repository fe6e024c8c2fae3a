use mcpvil::capture::{
    capture_reply, conclude, describe, develop, take_screenshot, CaptureError, Readback,
    Screenshot,
};
use mcpvil::geometry::{crop_target, FrameRegion, FrameSize, OutputMode, Rect};
use mcpvil::raster::{CapturedImage, Rgba};
use mcpvil::text::{bracket_list, debug_list_string, decimal_string};

/// A device buffer of `width` by `height` pixels, bottom row first, in which
/// every pixel tells its place on screen: `shade(x, y)` with `y` counted
/// from the top.
fn device_frame(width: u32, height: u32, shade: fn(u32, u32) -> [u8; 4]) -> Vec<u8> {
    let mut bytes = Vec::new();
    for device_row in 0..height {
        let y = height - 1 - device_row;
        for x in 0..width {
            bytes.extend_from_slice(&shade(x, y));
        }
    }
    bytes
}

fn by_place(x: u32, y: u32) -> [u8; 4] {
    [(x % 256) as u8, (y % 256) as u8, (x / 256 + 4 * (y / 256)) as u8, 255]
}

fn grey(_x: u32, _y: u32) -> [u8; 4] {
    [26, 26, 26, 255]
}

fn grey_with_marker(x: u32, y: u32) -> [u8; 4] {
    if x == 0 && y == 0 {
        [255, 0, 0, 255]
    } else {
        [26, 26, 26, 255]
    }
}

fn no_windows() -> Vec<Option<Rect>> {
    Vec::new()
}

fn decode(bytes: &[u8]) -> image::RgbaImage {
    image::load_from_memory(bytes).expect("a PNG file").to_rgba8()
}

#[test]
fn from_raw_takes_exactly_the_pixels() {
    let image = CapturedImage::from_raw(2, 3, vec![7u8; 24]).expect("24 bytes are 2 by 3 pixels");
    assert_eq!(image.width(), 2);
    assert_eq!(image.height(), 3);
    assert_eq!(image.as_raw(), &vec![7u8; 24]);
    assert_eq!(image.get_pixel(1, 2), Some(Rgba { r: 7, g: 7, b: 7, a: 7 }));
    assert_eq!(image.get_pixel(2, 0), None);
    assert_eq!(image.get_pixel(0, 3), None);
    assert_eq!(image.into_raw(), vec![7u8; 24]);
}

#[test]
fn from_raw_refuses_a_short_buffer() {
    assert!(CapturedImage::from_raw(2, 3, vec![0u8; 23]).is_none());
    assert!(CapturedImage::from_raw(2, 3, Vec::new()).is_none());
}

#[test]
fn from_raw_refuses_a_long_buffer() {
    assert!(CapturedImage::from_raw(2, 3, vec![0u8; 25]).is_none());
    assert!(CapturedImage::from_raw(0, 3, vec![0u8; 4]).is_none());
}

#[test]
fn from_raw_refuses_a_size_beyond_memory() {
    assert!(CapturedImage::from_raw(u32::MAX, u32::MAX, vec![0u8; 16]).is_none());
}

#[test]
fn from_raw_takes_an_image_without_pixels() {
    let image = CapturedImage::from_raw(0, 5, Vec::new()).expect("no pixel needs no byte");
    assert!(image.is_empty());
    assert_eq!((image.width(), image.height()), (0, 5));
}

#[test]
fn malformed_buffer_is_a_local_failure() {
    let readback = Readback::Mapped { width: 4, height: 4, pixels: vec![0u8; 63] };
    assert_eq!(develop(readback, &no_windows()).err(), Some(CaptureError::MalformedBuffer));
    let readback = Readback::Mapped { width: 4, height: 4, pixels: vec![0u8; 65] };
    let shot = take_screenshot(readback, &no_windows(), "shot.png");
    assert_eq!(shot, Err(CaptureError::MalformedBuffer));
    assert_eq!(
        CaptureError::MalformedBuffer.message(),
        "Failed to create image from pixel data"
    );
}

#[test]
fn failed_readback_is_passed_on() {
    let shot = take_screenshot(Readback::CopyFailed("no target".to_string()), &no_windows(), "a.png");
    assert_eq!(shot, Err(CaptureError::CopyFailed("no target".to_string())));
    let shot = take_screenshot(Readback::MapFailed("unmapped".to_string()), &no_windows(), "a.png");
    assert_eq!(shot, Err(CaptureError::MapFailed("unmapped".to_string())));
    assert_eq!(
        CaptureError::CopyFailed("no target".to_string()).message(),
        "Failed to copy framebuffer: no target"
    );
    assert_eq!(
        CaptureError::MapFailed("unmapped".to_string()).message(),
        "Failed to map texture: unmapped"
    );
    assert_eq!(
        CaptureError::SaveFailed("disk full".to_string()).message(),
        "Failed to save screenshot: disk full"
    );
}

#[test]
fn flip_puts_the_last_device_row_on_top() {
    // Device rows, bottom first: the marker sits in the last device row.
    let mut bytes = vec![26u8; 3 * 4 * 4];
    let last_row = 3 * 3 * 4;
    bytes[last_row..last_row + 4].copy_from_slice(&[255, 0, 0, 255]);
    let mut image = CapturedImage::from_raw(3, 4, bytes).unwrap();
    image.flip_vertical();
    assert_eq!(image.get_pixel(0, 0), Some(Rgba { r: 255, g: 0, b: 0, a: 255 }));
    assert_eq!(image.get_pixel(0, 3), Some(Rgba { r: 26, g: 26, b: 26, a: 26 }));
    assert_eq!(image.get_pixel(1, 0), Some(Rgba { r: 26, g: 26, b: 26, a: 26 }));
}

#[test]
fn flip_reverses_rows_and_keeps_columns() {
    let bytes = device_frame(5, 7, by_place);
    let mut image = CapturedImage::from_raw(5, 7, bytes.clone()).unwrap();
    image.flip_vertical();
    for y in 0..7 {
        for x in 0..5 {
            let [r, g, b, a] = by_place(x, y);
            assert_eq!(image.get_pixel(x, y), Some(Rgba { r, g, b, a }));
        }
    }
    image.flip_vertical();
    assert_eq!(image.as_raw(), &bytes);
}

#[test]
fn flip_of_an_image_without_pixels_is_itself() {
    let mut image = CapturedImage::from_raw(9, 0, Vec::new()).unwrap();
    image.flip_vertical();
    assert_eq!((image.width(), image.height()), (9, 0));
    assert!(image.as_raw().is_empty());
}

#[test]
fn crop_copies_the_region() {
    let mut image = CapturedImage::from_raw(16, 12, device_frame(16, 12, by_place)).unwrap();
    image.flip_vertical();
    let part = image.crop(FrameRegion { x: 3, y: 2, w: 5, h: 4 });
    assert_eq!((part.width(), part.height()), (5, 4));
    for j in 0..4 {
        for i in 0..5 {
            assert_eq!(part.get_pixel(i, j), image.get_pixel(3 + i, 2 + j));
        }
    }
}

#[test]
fn crop_cuts_a_region_that_reaches_past_the_image() {
    let image = CapturedImage::from_raw(16, 12, device_frame(16, 12, by_place)).unwrap();
    let part = image.crop(FrameRegion { x: 10, y: 8, w: 100, h: 100 });
    assert_eq!((part.width(), part.height()), (6, 4));
    assert_eq!(part.get_pixel(5, 3), image.get_pixel(15, 11));
    let missed = image.crop(FrameRegion { x: 40, y: 0, w: 3, h: 3 });
    assert_eq!((missed.width(), missed.height()), (0, 3));
    assert!(missed.is_empty());
}

#[test]
fn crop_of_the_whole_image_is_the_image() {
    let image = CapturedImage::from_raw(6, 5, device_frame(6, 5, by_place)).unwrap();
    let part = image.crop(FrameRegion { x: 0, y: 0, w: 6, h: 5 });
    assert_eq!(part.as_raw(), image.as_raw());
}

#[test]
fn clamp_keeps_a_window_inside_the_frame() {
    let region = Rect { x: 10, y: 20, w: 100, h: 50 }.clamp_to(800, 600);
    assert_eq!(region, FrameRegion { x: 10, y: 20, w: 100, h: 50 });
}

#[test]
fn clamp_cuts_a_window_past_the_right_edge() {
    let region = Rect { x: 750, y: 0, w: 100, h: 600 }.clamp_to(800, 600);
    assert_eq!(region, FrameRegion { x: 750, y: 0, w: 50, h: 600 });
}

#[test]
fn clamp_cuts_a_window_past_the_bottom_edge() {
    let region = Rect { x: 0, y: 590, w: 800, h: 100 }.clamp_to(800, 600);
    assert_eq!(region, FrameRegion { x: 0, y: 590, w: 800, h: 10 });
}

#[test]
fn clamp_moves_a_negative_origin_to_the_edge() {
    let region = Rect { x: -5, y: -7, w: 10, h: 10 }.clamp_to(800, 600);
    assert_eq!(region, FrameRegion { x: 0, y: 0, w: 10, h: 10 });
}

#[test]
fn clamp_of_a_window_beyond_the_frame_is_empty() {
    let region = Rect { x: 900, y: 700, w: 10, h: 10 }.clamp_to(800, 600);
    assert_eq!(region, FrameRegion { x: 800, y: 600, w: 0, h: 0 });
    assert!(region.is_empty());
}

#[test]
fn clamp_reads_a_negative_extent_as_unsigned() {
    let region = Rect { x: 10, y: 20, w: -1, h: i32::MIN }.clamp_to(800, 600);
    assert_eq!(region, FrameRegion { x: 10, y: 20, w: 790, h: 580 });
    let wide = Rect { x: 0, y: 0, w: i32::MIN, h: -1 }.clamp_to(u32::MAX, u32::MAX);
    assert_eq!(wide, FrameRegion { x: 0, y: 0, w: 1 << 31, h: u32::MAX });
}

#[test]
fn clamp_of_an_empty_window_is_empty() {
    let region = Rect { x: 10, y: 20, w: 0, h: 50 }.clamp_to(800, 600);
    assert_eq!(region, FrameRegion { x: 10, y: 20, w: 0, h: 50 });
    assert!(region.is_empty());
}

#[test]
fn first_window_is_the_crop_target() {
    let a = Rect { x: 1, y: 2, w: 3, h: 4 };
    let b = Rect { x: 5, y: 6, w: 7, h: 8 };
    assert_eq!(crop_target(&vec![Some(a), Some(b)]), Some(a));
    assert_eq!(crop_target(&vec![None, Some(b)]), None);
    assert_eq!(crop_target(&Vec::new()), None);
}

#[test]
fn full_region_and_mode_follow_the_size() {
    let size = FrameSize { w: 800, h: 600 };
    assert_eq!(size.full_region(), Rect { x: 0, y: 0, w: 800, h: 600 });
    assert_eq!(size.mode(), OutputMode { size, refresh: 60_000 });
}

#[test]
fn full_frame_round_trip_is_exact() {
    let pixels = device_frame(64, 48, grey);
    let readback = Readback::Mapped { width: 64, height: 48, pixels };
    let shot = take_screenshot(readback, &no_windows(), "out.png").expect("a capture");
    assert_eq!((shot.width, shot.height), (64, 48));
    assert_eq!(shot.descriptor, "Screenshot saved to out.png (64x48)");
    let decoded = decode(&shot.bytes);
    assert_eq!(decoded.dimensions(), (64, 48));
    for pixel in decoded.pixels() {
        assert_eq!(pixel.0, [26, 26, 26, 255]);
    }
}

#[test]
fn round_trip_shows_the_marker_at_the_top() {
    let pixels = device_frame(32, 20, grey_with_marker);
    // In device order the marker is in the last row.
    assert_eq!(&pixels[(19 * 32) * 4..(19 * 32) * 4 + 4], &[255, 0, 0, 255]);
    let readback = Readback::Mapped { width: 32, height: 20, pixels };
    let shot = take_screenshot(readback, &no_windows(), "out.png").expect("a capture");
    let decoded = decode(&shot.bytes);
    assert_eq!(decoded.get_pixel(0, 0).0, [255, 0, 0, 255]);
    assert_eq!(decoded.get_pixel(0, 19).0, [26, 26, 26, 255]);
    for (x, y, pixel) in decoded.enumerate_pixels() {
        assert_eq!(pixel.0, grey_with_marker(x, y));
    }
}

#[test]
fn encoded_bytes_are_a_png_file_not_the_pixels() {
    let pixels = device_frame(8, 8, by_place);
    let readback = Readback::Mapped { width: 8, height: 8, pixels: pixels.clone() };
    let shot = take_screenshot(readback, &no_windows(), "out.png").expect("a capture");
    assert_ne!(shot.bytes, pixels);
    assert_eq!(&shot.bytes[..8], &[0x89, b'P', b'N', b'G', 0x0d, 0x0a, 0x1a, 0x0a]);
    assert_eq!(image::guess_format(&shot.bytes).unwrap(), image::ImageFormat::Png);
}

#[test]
fn capture_is_cropped_to_the_window() {
    let pixels = device_frame(800, 600, by_place);
    let windows = vec![Some(Rect { x: 10, y: 20, w: 100, h: 50 })];
    let readback = Readback::Mapped { width: 800, height: 600, pixels };
    let shot = take_screenshot(readback, &windows, "window.png").expect("a capture");
    assert_eq!((shot.width, shot.height), (100, 50));
    assert_eq!(shot.descriptor, "Screenshot saved to window.png (100x50)");
    let decoded = decode(&shot.bytes);
    assert_eq!(decoded.dimensions(), (100, 50));
    for (i, j, pixel) in decoded.enumerate_pixels() {
        assert_eq!(pixel.0, by_place(10 + i, 20 + j));
    }
}

#[test]
fn capture_of_a_window_past_the_edge_is_clamped() {
    let pixels = device_frame(800, 600, by_place);
    let windows = vec![Some(Rect { x: 750, y: 0, w: 100, h: 600 })];
    let readback = Readback::Mapped { width: 800, height: 600, pixels };
    let shot = take_screenshot(readback, &windows, "edge.png").expect("a capture");
    assert_eq!((shot.width, shot.height), (50, 600));
    let decoded = decode(&shot.bytes);
    assert_eq!(decoded.dimensions(), (50, 600));
    assert_eq!(decoded.get_pixel(49, 599).0, by_place(799, 599));
    assert_eq!(decoded.get_pixel(0, 0).0, by_place(750, 0));
}

#[test]
fn capture_uses_only_the_first_window() {
    let pixels = device_frame(40, 30, by_place);
    let windows = vec![None, Some(Rect { x: 1, y: 1, w: 2, h: 2 })];
    let readback = Readback::Mapped { width: 40, height: 30, pixels };
    let image = develop(readback, &windows).expect("an image");
    assert_eq!((image.width(), image.height()), (40, 30));
}

#[test]
fn capture_without_pixels_encodes_a_single_pixel() {
    let pixels = device_frame(40, 30, by_place);
    let windows = vec![Some(Rect { x: 5, y: 5, w: 0, h: 10 })];
    let readback = Readback::Mapped { width: 40, height: 30, pixels };
    let shot = take_screenshot(readback, &windows, "empty.png").expect("a capture");
    assert_eq!((shot.width, shot.height), (1, 1));
    assert_eq!(shot.descriptor, "Screenshot saved to empty.png (1x1)");
    let decoded = decode(&shot.bytes);
    assert_eq!(decoded.dimensions(), (1, 1));
    assert_eq!(decoded.get_pixel(0, 0).0, [0, 0, 0, 0]);
}

#[test]
fn capture_of_an_empty_frame_encodes_a_single_pixel() {
    let readback = Readback::Mapped { width: 0, height: 0, pixels: Vec::new() };
    let shot = take_screenshot(readback, &no_windows(), "none.png").expect("a capture");
    assert_eq!((shot.width, shot.height), (1, 1));
    let missed = vec![Some(Rect { x: 100, y: 0, w: 10, h: 10 })];
    let readback = Readback::Mapped { width: 40, height: 30, pixels: device_frame(40, 30, grey) };
    let image = develop(readback, &missed).expect("an image");
    assert_eq!(image.as_raw(), &vec![0u8, 0, 0, 0]);
    assert_eq!(CapturedImage::transparent_pixel().as_raw(), &vec![0u8, 0, 0, 0]);
}

#[test]
fn descriptor_names_path_and_size() {
    assert_eq!(describe("/tmp/a b.png", 1920, 1080), "Screenshot saved to /tmp/a b.png (1920x1080)");
    assert_eq!(describe("", 0, 4294967295), "Screenshot saved to  (0x4294967295)");
    assert_eq!(
        describe("x.png", 800, 600),
        format!("Screenshot saved to {} ({}x{})", "x.png", 800u32, 600u32)
    );
}

#[test]
fn decimal_is_the_usual_notation() {
    for n in [0u32, 1, 9, 10, 11, 99, 100, 101, 1000, 65535, 65536, 4294967294, u32::MAX] {
        assert_eq!(decimal_string(n), n.to_string());
    }
    assert_eq!(decimal_string(60_000), "60000");
}

#[test]
fn list_is_shown_as_the_debug_format_shows_it() {
    let none: Vec<String> = Vec::new();
    assert_eq!(debug_list_string(&none), "[]");
    let one = vec!["--fullscreen".to_string()];
    assert_eq!(debug_list_string(&one), "[\"--fullscreen\"]");
    let more = vec!["a".to_string(), "b c".to_string(), "say \"hi\"\n".to_string(), "é\t\\".to_string()];
    assert_eq!(debug_list_string(&more), "[\"a\", \"b c\", \"say \\\"hi\\\"\\n\", \"é\\t\\\\\"]");
    assert_eq!(debug_list_string(&more), format!("{:?}", more));
}

#[test]
fn written_capture_tells_its_descriptor() {
    let shot = Screenshot {
        bytes: vec![1, 2, 3],
        width: 3,
        height: 1,
        descriptor: "Screenshot saved to a.png (3x1)".to_string(),
    };
    assert_eq!(shot.persisted(Ok(())), Ok("Screenshot saved to a.png (3x1)".to_string()));
    let shot = Screenshot { bytes: Vec::new(), width: 3, height: 1, descriptor: String::new() };
    assert_eq!(
        shot.persisted(Err("permission denied".to_string())),
        Err(CaptureError::SaveFailed("permission denied".to_string()))
    );
}

#[test]
fn capture_outcome_becomes_the_reply() {
    assert_eq!(capture_reply(Ok("done".to_string())), Ok("done".to_string()));
    assert_eq!(
        capture_reply(Err(CaptureError::SaveFailed("permission denied".to_string()))),
        Err("Failed to save screenshot: permission denied".to_string())
    );
    assert_eq!(
        capture_reply(Err(CaptureError::MalformedBuffer)),
        Err("Failed to create image from pixel data".to_string())
    );
    assert_eq!(
        capture_reply(Err(CaptureError::CopyFailed("lost".to_string()))),
        Err("Failed to copy framebuffer: lost".to_string())
    );
    assert_eq!(
        capture_reply(Err(CaptureError::MapFailed("lost".to_string()))),
        Err("Failed to map texture: lost".to_string())
    );
}

#[test]
fn encoder_outcome_concludes_the_capture() {
    let shot = conclude("a.png", 3, 2, Ok(vec![9, 8, 7])).expect("a capture");
    assert_eq!(
        shot,
        Screenshot {
            bytes: vec![9, 8, 7],
            width: 3,
            height: 2,
            descriptor: "Screenshot saved to a.png (3x2)".to_string(),
        }
    );
    assert_eq!(
        conclude("a.png", 3, 2, Err("Zero width not allowed".to_string())),
        Err(CaptureError::SaveFailed("Zero width not allowed".to_string()))
    );
}

#[test]
fn list_is_bracketed_and_separated() {
    let none: Vec<String> = Vec::new();
    assert_eq!(bracket_list(&none), "[]");
    assert_eq!(bracket_list(&vec!["a".to_string()]), "[a]");
    assert_eq!(
        bracket_list(&vec!["a".to_string(), "".to_string(), "b, c".to_string()]),
        "[a, , b, c]"
    );
}
