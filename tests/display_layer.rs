use embedded_display_controller::layer::SingleLayerDisplay;
use embedded_display_controller::{
    DisplayConfiguration, DisplayController, DisplayControllerLayer, FrameBuffer, PixelFormat,
    PixelWord, WordWidth,
};

const ALL_FORMATS: [PixelFormat; 8] = [
    PixelFormat::ARGB8888,
    PixelFormat::RGB888,
    PixelFormat::RGB565,
    PixelFormat::ARGB1555,
    PixelFormat::ARGB4444,
    PixelFormat::L8,
    PixelFormat::AL44,
    PixelFormat::AL88,
];

fn config(width: u16, height: u16) -> DisplayConfiguration {
    DisplayConfiguration {
        active_width: width,
        active_height: height,
        h_back_porch: 13,
        h_front_porch: 32,
        v_back_porch: 2,
        v_front_porch: 2,
        h_sync: 41,
        v_sync: 10,
        h_sync_pol: false,
        v_sync_pol: false,
        not_data_enable_pol: false,
        pixel_clock_pol: false,
    }
}

#[test]
fn al88_code() {
    assert_eq!(PixelFormat::AL88.code(), 7);
}

#[test]
fn pixel_format_codes_in_order() {
    for (i, f) in ALL_FORMATS.iter().enumerate() {
        assert_eq!(f.code() as usize, i);
        assert_eq!(PixelFormat::from_code(i as u8), Some(*f));
    }
    assert_eq!(PixelFormat::from_code(8), None);
    assert_eq!(PixelFormat::from_code(255), None);
}

#[test]
fn bytes_per_pixel_of_each_format() {
    let expected = [4u8, 3, 2, 2, 2, 1, 1, 2];
    for (f, b) in ALL_FORMATS.iter().zip(expected.iter()) {
        assert_eq!(f.bytes_per_pixel(), *b);
    }
}

#[test]
fn pixel_word_widths() {
    assert_eq!(<u8 as PixelWord>::width(), WordWidth::Bits8);
    assert_eq!(<u16 as PixelWord>::width(), WordWidth::Bits16);
    assert_eq!(<u32 as PixelWord>::width(), WordWidth::Bits32);
    assert_eq!(WordWidth::Bits8.bytes(), 1);
    assert_eq!(WordWidth::Bits16.bytes(), 2);
    assert_eq!(WordWidth::Bits32.bytes(), 4);
}

#[test]
fn framebuffer_size_check() {
    let fb = FrameBuffer::new::<u16>(0x2000_0000, 480 * 272);
    assert_eq!(fb.start, 0x2000_0000);
    assert_eq!(fb.len, 480 * 272);
    assert_eq!(fb.word, WordWidth::Bits16);
    assert!(fb.holds(480, 272, PixelFormat::RGB565));
    assert!(!fb.holds(481, 272, PixelFormat::RGB565));
    assert!(!fb.holds(480, 272, PixelFormat::ARGB8888));
    assert!(fb.holds(480, 136, PixelFormat::ARGB8888));
    assert!(fb.holds(0, 272, PixelFormat::ARGB8888));
    let empty = FrameBuffer::new::<u8>(0, 0);
    assert!(!empty.holds(1, 1, PixelFormat::L8));
    let huge = FrameBuffer::new::<u32>(0, usize::MAX);
    assert!(huge.holds(u32::MAX, u16::MAX, PixelFormat::ARGB8888));
}

#[test]
fn new_display_is_disabled() {
    let d = SingleLayerDisplay::new(config(480, 272), 9_600_000);
    assert!(!d.is_swap_pending());
    assert_eq!(d.clock(), 9_600_000);
    assert_eq!(d.configuration(), config(480, 272));
}

#[test]
fn swap_pending_until_vertical_blank() {
    let mut d = SingleLayerDisplay::new(config(480, 272), 9_600_000);
    let first = FrameBuffer::new::<u16>(0x2000_0000, 480 * 272);
    let next = FrameBuffer::new::<u16>(0x2004_0000, 480 * 272);
    d.enable(first, PixelFormat::RGB565);
    assert!(!d.is_swap_pending());
    assert_eq!(d.reclaim(), None);
    d.swap_framebuffer(next);
    assert!(d.is_swap_pending());
    assert_eq!(d.reclaim(), None);
    d.vertical_blank();
    assert!(!d.is_swap_pending());
    assert_eq!(d.reclaim(), Some(first));
    assert_eq!(d.reclaim(), None);
}

#[test]
fn vertical_blank_without_swap_changes_nothing() {
    let mut d = SingleLayerDisplay::new(config(4, 4), 1);
    d.vertical_blank();
    assert!(!d.is_swap_pending());
    d.enable(FrameBuffer::new::<u32>(0x100, 16), PixelFormat::ARGB8888);
    d.vertical_blank();
    assert!(!d.is_swap_pending());
    assert_eq!(d.reclaim(), None);
}

#[test]
fn second_swap_releases_the_waiting_framebuffer() {
    let mut d = SingleLayerDisplay::new(config(4, 4), 1);
    let a = FrameBuffer::new::<u8>(0x100, 16);
    let b = FrameBuffer::new::<u8>(0x200, 16);
    let c = FrameBuffer::new::<u8>(0x300, 16);
    d.enable(a, PixelFormat::L8);
    d.swap_framebuffer(b);
    d.swap_framebuffer(c);
    assert!(d.is_swap_pending());
    assert_eq!(d.reclaim(), Some(b));
    d.vertical_blank();
    assert_eq!(d.reclaim(), Some(a));
    d.swap_framebuffer(b);
    d.vertical_blank();
    assert_eq!(d.reclaim(), Some(c));
    assert_eq!(d.reclaim(), None);
}

#[test]
fn resize_keeps_window() {
    let mut d = SingleLayerDisplay::new(config(480, 272), 9_600_000);
    let fb = FrameBuffer::new::<u32>(0x2000_0000, 512 * 272);
    d.enable(fb, PixelFormat::ARGB8888);
    d.resize_buffer_pitch(512);
    assert_eq!(d.configuration().active_width, 480);
    assert_eq!(d.configuration().active_height, 272);
    assert_eq!(d.configuration(), config(480, 272));
    assert!(!d.is_swap_pending());
}

#[test]
fn resize_does_not_disturb_pending_swap() {
    let mut d = SingleLayerDisplay::new(config(8, 2), 1);
    let a = FrameBuffer::new::<u16>(0x100, 32);
    let b = FrameBuffer::new::<u16>(0x200, 32);
    d.enable(a, PixelFormat::RGB565);
    d.swap_framebuffer(b);
    d.resize_buffer_pitch(16);
    assert!(d.is_swap_pending());
    d.vertical_blank();
    assert_eq!(d.reclaim(), Some(a));
}

#[test]
fn init_reconfigures() {
    let mut d = SingleLayerDisplay::new(config(480, 272), 25_000_000);
    d.init(config(800, 480));
    assert_eq!(d.configuration(), config(800, 480));
    assert_eq!(d.clock(), 25_000_000);
}
