use pixen::{ColorRGBA, PixelWindow, BLACK, WHITE};

const RED: ColorRGBA = [255, 0, 0, 255];
const ODD: ColorRGBA = [1, 2, 3, 4];

/// A buffer for a grid of `width` by `height` pixels in which byte `i` is
/// `i` modulo 251, so that no two pixels of a small grid look alike.
fn numbered(width: usize, height: usize) -> Vec<u8> {
    (0..width * height * 4).map(|i| (i % 251) as u8).collect()
}

#[test]
fn color_constants_are_opaque_black_and_white() {
    assert_eq!(BLACK, [0, 0, 0, 255]);
    assert_eq!(WHITE, [255, 255, 255, 255]);
}

#[test]
fn new_takes_a_buffer_of_the_exact_length() {
    let mut buffer = vec![0u8; 64];
    let window = PixelWindow::new(4, 4, &mut buffer);
    assert_eq!(window.width(), 4);
    assert_eq!(window.height(), 4);
}

#[test]
fn try_new_refuses_a_buffer_one_byte_short() {
    let mut buffer = vec![0u8; 63];
    assert!(PixelWindow::try_new(4, 4, &mut buffer).is_none());
}

#[test]
fn try_new_refuses_a_buffer_one_byte_long() {
    let mut buffer = vec![0u8; 65];
    assert!(PixelWindow::try_new(4, 4, &mut buffer).is_none());
}

#[test]
fn try_new_accepts_the_exact_length() {
    let mut buffer = vec![7u8; 64];
    let window = PixelWindow::try_new(4, 4, &mut buffer).unwrap();
    assert_eq!(window.width(), 4);
    assert_eq!(window.height(), 4);
    assert_eq!(window.get_pixel_unchecked(3, 3), [7, 7, 7, 7]);
}

#[test]
fn try_new_goes_by_width_times_height_not_by_either_alone() {
    let mut buffer = vec![0u8; 24];
    assert!(PixelWindow::try_new(3, 2, &mut buffer).is_some());
    assert!(PixelWindow::try_new(2, 3, &mut buffer).is_some());
    assert!(PixelWindow::try_new(6, 1, &mut buffer).is_some());
    assert!(PixelWindow::try_new(3, 3, &mut buffer).is_none());
    assert!(PixelWindow::try_new(24, 1, &mut buffer).is_none());
}

#[test]
fn try_new_leaves_a_refused_buffer_untouched() {
    let mut buffer = numbered(4, 4);
    buffer.pop();
    let before = buffer.clone();
    assert!(PixelWindow::try_new(4, 4, &mut buffer).is_none());
    assert_eq!(buffer, before);
}

#[test]
fn try_new_does_not_wrap_around_on_huge_dimensions() {
    // 65536 * 65536 * 4 is 2^34: it is 0 in 32-bit arithmetic, but no empty
    // buffer is a grid of that size.
    let mut buffer: Vec<u8> = Vec::new();
    assert!(PixelWindow::try_new(65536, 65536, &mut buffer).is_none());
    assert!(PixelWindow::try_new(u32::MAX, u32::MAX, &mut buffer).is_none());
}

#[test]
fn an_empty_grid_is_a_view_too() {
    let mut buffer: Vec<u8> = Vec::new();
    let mut window = PixelWindow::try_new(0, 0, &mut buffer).unwrap();
    assert_eq!(window.width(), 0);
    assert_eq!(window.height(), 0);
    window.clear(WHITE);
    assert!(window.into_inner().is_empty());
    assert!(PixelWindow::try_new(0, 9, &mut buffer).is_some());
    assert!(PixelWindow::try_new(9, 0, &mut buffer).is_some());
}

#[test]
fn width_and_height_are_the_declared_ones() {
    let mut buffer = vec![0u8; 5 * 7 * 4];
    let window = PixelWindow::new(5, 7, &mut buffer);
    assert_eq!(window.width(), 5);
    assert_eq!(window.height(), 7);
}

#[test]
fn the_offset_of_a_pixel_is_row_major_with_four_bytes_each() {
    let mut buffer = vec![0u8; 4 * 3 * 4];
    let mut window = PixelWindow::new(4, 3, &mut buffer);
    window.set_pixel_unchecked(2, 1, ODD);
    // (1 * 4 + 2) * 4 = 24
    let mut expected = vec![0u8; 48];
    expected[24..28].copy_from_slice(&ODD);
    assert_eq!(buffer, expected);
}

#[test]
fn the_stride_is_the_width_of_the_view() {
    let mut buffer = numbered(2, 6);
    {
        let window = PixelWindow::new(2, 6, &mut buffer);
        // (5 * 2 + 1) * 4 = 44
        assert_eq!(window.get_pixel_unchecked(1, 5), [44, 45, 46, 47]);
    }
    let window = PixelWindow::new(6, 2, &mut buffer);
    // (1 * 6 + 5) * 4 = 44 as well, but (1, 1) is at (1 * 6 + 1) * 4 = 28
    assert_eq!(window.get_pixel_unchecked(5, 1), [44, 45, 46, 47]);
    assert_eq!(window.get_pixel_unchecked(1, 1), [28, 29, 30, 31]);
}

#[test]
fn get_pixel_unchecked_reads_every_pixel_of_the_buffer() {
    let mut buffer = numbered(5, 4);
    let copy = buffer.clone();
    let window = PixelWindow::new(5, 4, &mut buffer);
    for y in 0..4u32 {
        for x in 0..5u32 {
            let at = ((y * 5 + x) * 4) as usize;
            let expected = [copy[at], copy[at + 1], copy[at + 2], copy[at + 3]];
            assert_eq!(window.get_pixel_unchecked(x, y), expected);
        }
    }
}

#[test]
fn get_pixel_unchecked_reaches_the_last_row_and_column() {
    let mut buffer = numbered(4, 4);
    let window = PixelWindow::new(4, 4, &mut buffer);
    assert_eq!(window.get_pixel_unchecked(3, 3), [60, 61, 62, 63]);
    assert_eq!(window.get_pixel_unchecked(3, 0), [12, 13, 14, 15]);
    assert_eq!(window.get_pixel_unchecked(0, 3), [48, 49, 50, 51]);
}

#[test]
fn a_pixel_read_is_a_copy() {
    let mut buffer = vec![0u8; 16];
    let mut window = PixelWindow::new(2, 2, &mut buffer);
    window.set_pixel_unchecked(1, 1, RED);
    let before = window.get_pixel_unchecked(1, 1);
    window.set_pixel_unchecked(1, 1, ODD);
    assert_eq!(before, RED);
    assert_eq!(window.get_pixel_unchecked(1, 1), ODD);
}

#[test]
fn a_pixel_written_reads_back_at_every_place() {
    for y in 0..3u32 {
        for x in 0..4u32 {
            let mut buffer = numbered(4, 3);
            let mut window = PixelWindow::new(4, 3, &mut buffer);
            let color = [x as u8 + 100, y as u8 + 200, 17, 0];
            window.set_pixel_unchecked(x, y, color);
            assert_eq!(window.get_pixel_unchecked(x, y), color);
        }
    }
}

#[test]
fn a_write_changes_no_other_pixel() {
    for y in 0..3u32 {
        for x in 0..4u32 {
            let mut buffer = numbered(4, 3);
            let before = buffer.clone();
            let mut window = PixelWindow::new(4, 3, &mut buffer);
            window.set_pixel_unchecked(x, y, WHITE);
            for y2 in 0..3u32 {
                for x2 in 0..4u32 {
                    if (x2, y2) != (x, y) {
                        let at = ((y2 * 4 + x2) * 4) as usize;
                        let expected =
                            [before[at], before[at + 1], before[at + 2], before[at + 3]];
                        assert_eq!(window.get_pixel_unchecked(x2, y2), expected);
                    }
                }
            }
        }
    }
}

#[test]
fn set_pixel_is_set_pixel_unchecked_at_the_wrapped_place() {
    let places = [
        (0u32, 0u32),
        (2, 1),
        (3, 1),
        (4, 7),
        (5, 2),
        (299, 1000),
        (u32::MAX, 0),
        (0, u32::MAX),
        (u32::MAX, u32::MAX),
    ];
    for (x, y) in places {
        let mut wrapped = numbered(3, 2);
        let mut direct = numbered(3, 2);
        PixelWindow::new(3, 2, &mut wrapped).set_pixel(x, y, ODD);
        PixelWindow::new(3, 2, &mut direct).set_pixel_unchecked(x % 3, y % 2, ODD);
        assert_eq!(wrapped, direct);
    }
}

#[test]
fn set_pixel_in_range_does_not_wrap() {
    let mut buffer = vec![0u8; 24];
    PixelWindow::new(3, 2, &mut buffer).set_pixel(2, 1, ODD);
    let mut expected = vec![0u8; 24];
    expected[20..24].copy_from_slice(&ODD);
    assert_eq!(buffer, expected);
}

#[test]
fn set_pixel_at_the_width_lands_in_column_zero_of_the_same_row() {
    let mut buffer = vec![0u8; 4 * 2 * 4];
    PixelWindow::new(4, 2, &mut buffer).set_pixel(4, 0, ODD);
    let mut expected = vec![0u8; 32];
    expected[0..4].copy_from_slice(&ODD);
    assert_eq!(buffer, expected);
}

#[test]
fn get_pixel_is_get_pixel_unchecked_at_the_wrapped_place() {
    let mut buffer = numbered(3, 2);
    let window = PixelWindow::new(3, 2, &mut buffer);
    let places = [(0u32, 0u32), (2, 1), (3, 1), (4, 7), (299, 1000), (u32::MAX, u32::MAX)];
    for (x, y) in places {
        assert_eq!(window.get_pixel(x, y), window.get_pixel_unchecked(x % 3, y % 2));
    }
    // u32::MAX is 0 modulo 3 and 1 modulo 2: pixel (0, 1) is at 12.
    assert_eq!(window.get_pixel(u32::MAX, u32::MAX), [12, 13, 14, 15]);
}

#[test]
fn clear_sets_every_pixel() {
    let mut buffer = numbered(4, 3);
    let mut window = PixelWindow::new(4, 3, &mut buffer);
    window.clear(RED);
    for y in 0..3u32 {
        for x in 0..4u32 {
            assert_eq!(window.get_pixel_unchecked(x, y), RED);
        }
    }
    assert_eq!(window.get_pixel_unchecked(0, 0), RED);
    assert_eq!(window.get_pixel_unchecked(3, 0), RED);
    assert_eq!(window.get_pixel_unchecked(0, 2), RED);
    assert_eq!(window.get_pixel_unchecked(3, 2), RED);
}

#[test]
fn clear_writes_the_color_chunk_after_chunk() {
    let mut buffer = numbered(2, 2);
    PixelWindow::new(2, 2, &mut buffer).clear(ODD);
    assert_eq!(buffer, vec![1, 2, 3, 4, 1, 2, 3, 4, 1, 2, 3, 4, 1, 2, 3, 4]);
}

#[test]
fn clear_then_wrapped_write_on_a_three_by_two_grid() {
    let mut buffer = numbered(3, 2);
    let mut window = PixelWindow::new(3, 2, &mut buffer);
    window.clear(BLACK);
    window.set_pixel(3, 1, WHITE);
    assert_eq!(window.get_pixel_unchecked(0, 1), WHITE);
    assert_eq!(window.get_pixel_unchecked(0, 0), BLACK);
    assert_eq!(window.get_pixel_unchecked(1, 0), BLACK);
    assert_eq!(window.get_pixel_unchecked(2, 0), BLACK);
    assert_eq!(window.get_pixel_unchecked(1, 1), BLACK);
    assert_eq!(window.get_pixel_unchecked(2, 1), BLACK);
}

#[test]
fn into_inner_hands_back_the_buffer_with_what_was_drawn() {
    let mut buffer = vec![0u8; 8];
    let mut window = PixelWindow::new(2, 1, &mut buffer);
    window.set_pixel_unchecked(1, 0, ODD);
    let inner = window.into_inner();
    assert_eq!(inner.to_vec(), vec![0, 0, 0, 0, 1, 2, 3, 4]);
    inner[0] = 9;
    assert_eq!(buffer, vec![9, 0, 0, 0, 1, 2, 3, 4]);
}

#[test]
fn a_dropped_view_leaves_what_was_drawn_in_the_buffer() {
    let mut buffer = vec![0u8; 8];
    {
        let mut window = PixelWindow::new(1, 2, &mut buffer);
        window.set_pixel(0, 3, ODD);
    }
    assert_eq!(buffer, vec![0, 0, 0, 0, 1, 2, 3, 4]);
}

#[test]
fn a_view_over_the_same_buffer_sees_the_earlier_frame() {
    let mut buffer = vec![0u8; 16];
    PixelWindow::new(2, 2, &mut buffer).set_pixel_unchecked(1, 1, RED);
    let window = PixelWindow::new(2, 2, &mut buffer);
    assert_eq!(window.get_pixel_unchecked(1, 1), RED);
    assert_eq!(window.get_pixel_unchecked(0, 0), [0, 0, 0, 0]);
}

#[test]
fn the_last_column_is_the_end_of_its_row() {
    let mut buffer = vec![0u8; 4 * 2 * 4];
    PixelWindow::new(4, 2, &mut buffer).set_pixel_unchecked(3, 0, ODD);
    let mut expected = vec![0u8; 32];
    expected[12..16].copy_from_slice(&ODD);
    assert_eq!(buffer, expected);
    PixelWindow::new(4, 2, &mut buffer).set_pixel_unchecked(0, 1, RED);
    expected[16..20].copy_from_slice(&RED);
    assert_eq!(buffer, expected);
}
