use epd_waveshare::error::Error;
use epd_waveshare::window::{
    byte_aligned, compute_counter, compute_edge_window, compute_window, plane_size,
    window_fields, Counter, Rectangle, Window,
};

fn rect(x: u32, y: u32, width: u32, height: u32) -> Rectangle {
    Rectangle { x, y, width, height }
}

#[test]
fn window_of_the_full_small_panel() {
    let w = compute_window(rect(0, 0, 200, 200)).unwrap();
    assert_eq!(w.x_start_byte, 0);
    assert_eq!(w.x_end_byte, 24);
    assert_eq!((w.y_start_low, w.y_start_high), (0x00, 0x00));
    assert_eq!((w.y_end_low, w.y_end_high), (0xC8, 0x00));
}

#[test]
fn window_without_width_or_height_is_invalid() {
    assert_eq!(compute_window(rect(0, 0, 0, 200)), Err(Error::InvalidWindow));
    assert_eq!(compute_window(rect(0, 0, 200, 0)), Err(Error::InvalidWindow));
    assert_eq!(compute_window(rect(8, 16, 0, 0)), Err(Error::InvalidWindow));
    assert_eq!(compute_window(rect(199, 199, 0, 1)), Err(Error::InvalidWindow));
}

#[test]
fn window_whose_far_edge_overflows_is_invalid() {
    assert_eq!(compute_window(rect(u32::MAX, 0, 1, 1)), Err(Error::InvalidWindow));
    assert_eq!(compute_window(rect(0, u32::MAX - 3, 1, 4)), Err(Error::InvalidWindow));
    assert_eq!(compute_window(rect(1, 0, u32::MAX, 1)), Err(Error::InvalidWindow));
    assert!(compute_window(rect(0, 0, u32::MAX, u32::MAX)).is_ok());
    assert!(compute_window(rect(u32::MAX - 1, u32::MAX - 1, 1, 1)).is_ok());
}

#[test]
fn aligned_x_has_no_rounding() {
    for x in (0..640u32).step_by(8) {
        for width in 1..40u32 {
            let w = compute_window(rect(x, 0, width, 1)).unwrap();
            assert_eq!(w.x_start_byte as u32, x / 8);
            assert_eq!(w.x_end_byte as u32, (x + width - 1) / 8);
            assert_eq!(w.x_start_byte as u32 * 8, x);
        }
    }
}

#[test]
fn unaligned_x_is_covered_by_the_byte_window() {
    for x in 0..70u32 {
        for width in 1..40u32 {
            let w = compute_window(rect(x, 3, width, 5)).unwrap();
            let first = w.x_start_byte as u32 * 8;
            let beyond = (w.x_end_byte as u32 + 1) * 8;
            assert!(first <= x);
            assert!(x + width <= beyond);
            assert!(x - first < 8);
            assert!(beyond - (x + width) < 8);
        }
    }
}

#[test]
fn window_rows_are_split_in_low_and_high_bytes() {
    let w = compute_window(rect(13, 300, 20, 180)).unwrap();
    assert_eq!(
        w,
        Window {
            x_start_byte: 1,
            x_end_byte: 4,
            y_start_low: 0x2C,
            y_start_high: 0x01,
            y_end_low: 0xE0,
            y_end_high: 0x01,
        }
    );
}

#[test]
fn register_fields_keep_the_low_eight_bits() {
    let w = compute_window(rect(2048, 65536 + 5, 8, 1)).unwrap();
    assert_eq!(w.x_start_byte, 0);
    assert_eq!(w.x_end_byte, 0);
    assert_eq!((w.y_start_low, w.y_start_high), (5, 0));
    assert_eq!((w.y_end_low, w.y_end_high), (6, 0));
    let w = compute_window(rect(2047, 0, 2, 65535)).unwrap();
    assert_eq!(w.x_start_byte, 255);
    assert_eq!(w.x_end_byte, 0);
    assert_eq!((w.y_end_low, w.y_end_high), (0xFF, 0xFF));
}

#[test]
fn counter_rounds_x_down_and_splits_y() {
    assert_eq!(compute_counter(0, 0), Counter { x_byte: 0, y_low: 0, y_high: 0 });
    assert_eq!(compute_counter(7, 255), Counter { x_byte: 0, y_low: 255, y_high: 0 });
    assert_eq!(compute_counter(8, 256), Counter { x_byte: 1, y_low: 0, y_high: 1 });
    assert_eq!(compute_counter(199, 199), Counter { x_byte: 24, y_low: 0xC7, y_high: 0 });
    assert_eq!(compute_counter(647, 479), Counter { x_byte: 80, y_low: 0xDF, y_high: 1 });
    assert_eq!(
        compute_counter(u32::MAX, u32::MAX),
        Counter { x_byte: 0xFF, y_low: 0xFF, y_high: 0xFF }
    );
}

#[test]
fn counter_agrees_with_the_window_start() {
    for (x, y) in [(0u32, 0u32), (5, 9), (64, 300), (199, 199), (640, 479)] {
        let w = compute_window(rect(x, y, 1, 1)).unwrap();
        let c = compute_counter(x, y);
        assert_eq!(c.x_byte, w.x_start_byte);
        assert_eq!((c.y_low, c.y_high), (w.y_start_low, w.y_start_high));
    }
}

#[test]
fn plane_size_rounds_rows_up_to_bytes() {
    assert_eq!(plane_size(200, 200), Some(5000));
    assert_eq!(plane_size(648, 480), Some(38880));
    assert_eq!(plane_size(1, 1), Some(1));
    assert_eq!(plane_size(9, 3), Some(6));
    assert_eq!(plane_size(0, 10), Some(0));
    assert_eq!(plane_size(10, 0), Some(0));
}

#[test]
fn byte_aligned_widens_to_whole_bytes() {
    assert_eq!(byte_aligned(rect(13, 2, 20, 5)), Ok(rect(8, 2, 32, 5)));
    assert_eq!(byte_aligned(rect(0, 0, 200, 200)), Ok(rect(0, 0, 200, 200)));
    assert_eq!(byte_aligned(rect(7, 9, 1, 1)), Ok(rect(0, 9, 8, 1)));
    assert_eq!(byte_aligned(rect(7, 9, 2, 1)), Ok(rect(0, 9, 16, 1)));
    assert_eq!(byte_aligned(rect(8, 9, 8, 1)), Ok(rect(8, 9, 8, 1)));
}

#[test]
fn byte_aligned_keeps_the_window() {
    for x in 0..40u32 {
        for width in 1..40u32 {
            let asked = rect(x, 11, width, 3);
            let aligned = byte_aligned(asked).unwrap();
            assert_eq!(compute_window(aligned), compute_window(asked));
            assert_eq!(aligned.x % 8, 0);
            assert_eq!(aligned.width % 8, 0);
            assert!(aligned.x <= x && x + width <= aligned.x + aligned.width);
            assert_eq!(plane_size(aligned.width, 3), Some((aligned.width / 8 * 3) as usize));
        }
    }
}

#[test]
fn byte_aligned_refuses_what_has_no_window() {
    assert_eq!(byte_aligned(rect(0, 0, 0, 1)), Err(Error::InvalidWindow));
    assert_eq!(byte_aligned(rect(0, 0, 1, 0)), Err(Error::InvalidWindow));
    assert_eq!(byte_aligned(rect(u32::MAX, 0, 1, 1)), Err(Error::InvalidWindow));
    assert_eq!(byte_aligned(rect(u32::MAX - 1, 0, 1, 1)), Err(Error::InvalidWindow));
    assert_eq!(byte_aligned(rect(u32::MAX - 8, 0, 1, 1)), Ok(rect(u32::MAX - 15, 0, 8, 1)));
    assert_eq!(byte_aligned(rect(u32::MAX - 7, 0, 1, 1)), Err(Error::InvalidWindow));
}

#[test]
fn edge_window_takes_the_last_column_and_the_end_row() {
    let full = Window {
        x_start_byte: 0,
        x_end_byte: 24,
        y_start_low: 0,
        y_start_high: 0,
        y_end_low: 0xC7,
        y_end_high: 0,
    };
    assert_eq!(compute_edge_window(0, 0, 199, 199), Ok(full));
    assert_eq!(window_fields(0, 0, 199, 199), full);
    let w = compute_edge_window(8, 300, 16, 479).unwrap();
    assert_eq!((w.x_start_byte, w.x_end_byte), (1, 2));
    assert_eq!((w.y_start_low, w.y_start_high), (0x2C, 0x01));
    assert_eq!((w.y_end_low, w.y_end_high), (0xDF, 0x01));
}

#[test]
fn edge_window_refuses_corners_out_of_order() {
    assert_eq!(compute_edge_window(5, 0, 5, 9), Err(Error::InvalidWindow));
    assert_eq!(compute_edge_window(6, 0, 5, 9), Err(Error::InvalidWindow));
    assert_eq!(compute_edge_window(0, 9, 5, 9), Err(Error::InvalidWindow));
    assert_eq!(compute_edge_window(0, 10, 5, 9), Err(Error::InvalidWindow));
    assert!(compute_edge_window(0, 0, 1, 1).is_ok());
    assert!(compute_edge_window(u32::MAX - 1, u32::MAX - 1, u32::MAX, u32::MAX).is_ok());
}

#[test]
fn window_of_a_rectangle_is_the_edge_window_of_its_corners() {
    for (x, y, width, height) in [(0u32, 0u32, 200u32, 200u32), (13, 7, 20, 5), (8, 300, 2, 100)] {
        assert_eq!(
            compute_window(rect(x, y, width, height)),
            compute_edge_window(x, y, x + width - 1, y + height)
        );
    }
    assert_eq!(
        compute_window(rect(13, 7, 1, 5)),
        Ok(window_fields(13, 7, 13, 12))
    );
}
