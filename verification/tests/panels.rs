use epd_waveshare::color::Color;
use epd_waveshare::epd1in54_v2;
use epd_waveshare::epd1in54b;
use epd_waveshare::epd5in83b_v2;
use epd_waveshare::traits::RefreshLut;
use epd_waveshare::window::{compute_edge_window, plane_size, Rectangle};

#[test]
fn epd_size() {
    assert_eq!(epd1in54_v2::WIDTH, 200);
    assert_eq!(epd1in54_v2::HEIGHT, 200);
    assert_eq!(epd1in54_v2::DEFAULT_BACKGROUND_COLOR, Color::White);
}

#[test]
fn mod_epd_size() {
    assert_eq!(epd1in54b::WIDTH, 200);
    assert_eq!(epd1in54b::HEIGHT, 200);
    assert_eq!(epd1in54b::DEFAULT_BACKGROUND_COLOR, Color::White);
}

#[test]
fn epd5in83_size() {
    assert_eq!(epd5in83b_v2::WIDTH, 648);
    assert_eq!(epd5in83b_v2::HEIGHT, 480);
    assert_eq!(epd5in83b_v2::DEFAULT_BACKGROUND_COLOR, Color::White);
}

#[test]
fn frame_sizes_follow_from_the_geometry() {
    assert_eq!(plane_size(epd1in54_v2::WIDTH, epd1in54_v2::HEIGHT), Some(5000));
    assert_eq!(epd1in54_v2::FRAME_BYTES, epd1in54_v2::WIDTH / 8 * epd1in54_v2::HEIGHT);
    assert_eq!(epd1in54b::CHROMATIC_BYTES, epd1in54b::WIDTH * epd1in54b::HEIGHT / 8);
    assert_eq!(epd1in54b::CHROMATIC_BYTES, epd1in54b::WIDTH * (epd1in54b::HEIGHT / 8));
    assert_eq!(epd1in54b::ACHROMATIC_BYTES, 2 * (epd1in54b::WIDTH * epd1in54b::HEIGHT / 8));
    assert_eq!(epd5in83b_v2::NUM_DISPLAY_BITS, epd5in83b_v2::WIDTH * epd5in83b_v2::HEIGHT / 8);
}

#[test]
fn busy_polarity_of_each_panel() {
    assert!(!epd1in54_v2::IS_BUSY_LOW);
    assert!(epd1in54b::IS_BUSY_LOW);
    assert!(epd5in83b_v2::IS_BUSY_LOW);
}

#[test]
fn color_bytes() {
    assert_eq!(Color::White.get_byte_value(), 0xFF);
    assert_eq!(Color::Black.get_byte_value(), 0x00);
}

#[test]
fn epd1in54_state() {
    let mut epd = epd1in54_v2::Epd1in54::new();
    assert_eq!(epd.width(), 200);
    assert_eq!(epd.height(), 200);
    assert_eq!(*epd.background_color(), Color::White);
    assert_eq!(epd.refresh_lut(), RefreshLut::Full);
    assert_eq!(epd.display_update_control(), 0xC7);
    epd.set_background_color(Color::Black);
    assert_eq!(*epd.background_color(), Color::Black);
    assert_eq!(epd.select_lut(None), RefreshLut::Full);
    assert_eq!(epd.select_lut(Some(RefreshLut::Quick)), RefreshLut::Quick);
    assert_eq!(epd.refresh_lut(), RefreshLut::Quick);
    assert_eq!(epd.display_update_control(), 0xCF);
    assert_eq!(epd.select_lut(None), RefreshLut::Quick);
    assert_eq!(epd.select_lut(Some(RefreshLut::Full)), RefreshLut::Full);
    assert_eq!(epd.display_update_control(), 0xC7);
    assert_eq!(*epd.background_color(), Color::Black);
}

#[test]
fn epd1in54_full_frame_window() {
    assert_eq!(epd1in54_v2::LAST_COLUMN, epd1in54_v2::WIDTH - 1);
    assert_eq!(epd1in54_v2::LAST_ROW, epd1in54_v2::HEIGHT - 1);
    let w = compute_edge_window(0, 0, epd1in54_v2::LAST_COLUMN, epd1in54_v2::LAST_ROW).unwrap();
    assert_eq!((w.x_start_byte, w.x_end_byte), (0, 24));
    assert_eq!((w.y_start_low, w.y_start_high), (0x00, 0x00));
    assert_eq!((w.y_end_low, w.y_end_high), (0xC7, 0x00));
}

#[test]
fn lut_is_cut_into_its_registers() {
    let lut: Vec<u8> = (0..159u32).map(|i| (i + 1) as u8).collect();
    assert_eq!(lut.len(), epd1in54_v2::LUT_LEN);
    let parts = epd1in54_v2::split_lut(&lut);
    assert_eq!(parts.waveform, &lut[0..153]);
    assert_eq!(parts.waveform.len(), 153);
    assert_eq!(parts.waveform_end, 154);
    assert_eq!(parts.gate_voltage, 155);
    assert_eq!(parts.source_voltage, [156, 157, 158]);
    assert_eq!(parts.vcom, 159);
}

#[test]
fn epd1in54b_state_and_resolution() {
    let mut epd = epd1in54b::Epd1in54b::new();
    assert_eq!(epd.width(), 200);
    assert_eq!(epd.height(), 200);
    assert_eq!(*epd.background_color(), Color::White);
    epd.set_background_color(Color::Black);
    assert_eq!(*epd.background_color(), Color::Black);
    assert_eq!(epd.resolution(), [200, 0, 200]);
}

#[test]
fn epd5in83_state_and_resolution() {
    let mut epd = epd5in83b_v2::Epd5in83::new();
    assert_eq!(epd.width(), 648);
    assert_eq!(epd.height(), 480);
    assert_eq!(*epd.background_color(), Color::White);
    epd.set_background_color(Color::Black);
    assert_eq!(*epd.background_color(), Color::Black);
    assert_eq!(epd.resolution(), [0x02, 0x88, 0x01, 0xE0]);
}

#[test]
fn epd5in83_partial_window() {
    let epd = epd5in83b_v2::Epd5in83::new();
    let rect = Rectangle { x: 16, y: 300, width: 600, height: 100 };
    assert_eq!(epd.partial_window(rect), [0, 16, 1, 0, 1, 44, 1, 144, 1]);
    assert_eq!(epd.partial_fill(rect), 7500);
    let rect = Rectangle { x: 0, y: 0, width: 648, height: 480 };
    assert_eq!(epd.partial_window(rect), [0, 0, 1, 0, 0, 0, 1, 0xE0, 1]);
    assert_eq!(epd.partial_fill(rect), 38880);
    let rect = Rectangle { x: 519, y: 255, width: 9, height: 1 };
    assert_eq!(epd.partial_window(rect), [1, 0, 1, 0, 0, 255, 1, 0, 1]);
    assert_eq!(epd.partial_fill(rect), 1);
}

#[test]
fn panels_know_their_busy_polarity() {
    let a = epd1in54_v2::Epd1in54::new();
    assert!(a.is_busy(true));
    assert!(!a.is_busy(false));
    assert_eq!(a.wait_until_idle(9), epd_waveshare::wait::BusyWait::new(false, 9));
    let b = epd1in54b::Epd1in54b::new();
    assert!(b.is_busy(false));
    assert!(!b.is_busy(true));
    assert_eq!(b.wait_until_idle(0), epd_waveshare::wait::BusyWait::new(true, 0));
    let c = epd5in83b_v2::Epd5in83::new();
    assert!(c.is_busy(false));
    assert!(!c.is_busy(true));
    assert_eq!(c.wait_until_idle(7), epd_waveshare::wait::BusyWait::new(true, 7));
}
