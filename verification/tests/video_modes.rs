//! Mode decoding, geometry, validity, and the mode/override register.

use neotron_desktop_bios::framebuffer::FRAMEBUFFER_CAPACITY;
use neotron_desktop_bios::mode::{video_is_valid_mode, video_mode_needs_vram, Format, Mode, Timing};
use neotron_desktop_bios::video::VideoState;
use neotron_desktop_bios::Error;

#[test]
fn mode_zero_is_eighty_by_thirty_text() {
    let mode = Mode::try_from_u8(0).unwrap();
    assert_eq!(mode.as_u8(), 0);
    assert!(matches!(mode.format(), Format::Text8x16));
    assert!(matches!(mode.timing(), Timing::T640x480));
    assert_eq!(mode.horizontal_pixels(), 640);
    assert_eq!(mode.vertical_lines(), 480);
    assert_eq!(mode.text_width(), Some(80));
    assert_eq!(mode.text_height(), Some(30));
    assert_eq!(mode.line_size_bytes(), 160);
    assert_eq!(mode.frame_size_bytes(), 4800);
}

#[test]
fn mode_one_is_eighty_by_sixty_text() {
    let mode = Mode::try_from_u8(1).unwrap();
    assert!(matches!(mode.format(), Format::Text8x8));
    assert_eq!(mode.text_width(), Some(80));
    assert_eq!(mode.text_height(), Some(60));
    assert_eq!(mode.frame_size_bytes(), 9600);
}

#[test]
fn bitmap_mode_geometry() {
    let m4 = Mode::try_from_u8(4).unwrap();
    assert!(matches!(m4.format(), Format::Chunky8));
    assert_eq!(m4.line_size_bytes(), 640);
    assert_eq!(m4.frame_size_bytes(), 307200);
    assert_eq!(m4.text_width(), None);
    assert_eq!(m4.text_height(), None);

    let m5 = Mode::try_from_u8(5).unwrap();
    assert!(matches!(m5.format(), Format::Chunky4));
    assert_eq!(m5.frame_size_bytes(), 153600);

    let m6 = Mode::try_from_u8(6).unwrap();
    assert!(matches!(m6.format(), Format::Chunky2));
    assert_eq!(m6.frame_size_bytes(), 76800);

    let m7 = Mode::try_from_u8(7).unwrap();
    assert!(matches!(m7.format(), Format::Chunky1));
    assert_eq!(m7.line_size_bytes(), 80);
    assert_eq!(m7.frame_size_bytes(), 38400);
}

#[test]
fn every_valid_mode_fits_in_video_memory() {
    for code in [0u8, 1, 4, 5, 6, 7] {
        let mode = Mode::try_from_u8(code).unwrap();
        assert!(video_is_valid_mode(mode));
        assert!(mode.frame_size_bytes() <= FRAMEBUFFER_CAPACITY);
        assert!(!video_mode_needs_vram(mode));
    }
}

#[test]
fn codes_outside_the_enumeration_are_invalid() {
    for code in [2u8, 3, 8, 9, 16, 0x23, 0xff] {
        if let Some(mode) = Mode::try_from_u8(code) {
            assert!(!video_is_valid_mode(mode));
        }
    }
}

#[test]
fn undecodable_timing_bits_are_refused() {
    // Timing bits 3 through 7 name no timing.
    assert!(Mode::try_from_u8(0x30).is_none());
    assert!(Mode::try_from_u8(0x70).is_none());
    assert!(Mode::try_from_u8(0xf7).is_none());
}

#[test]
fn scaling_bits_halve_the_geometry() {
    // Bit 3 doubles pixel width; bit 7 doubles line height.
    let m = Mode::try_from_u8(0b0000_1000).unwrap();
    assert!(m.is_horiz_2x());
    assert_eq!(m.horizontal_pixels(), 320);
    let m = Mode::try_from_u8(0b1000_0000).unwrap();
    assert!(m.is_vert_2x());
    assert_eq!(m.vertical_lines(), 240);
}

#[test]
fn set_mode_round_trip() {
    let mut video = VideoState::new();
    assert_eq!(video.get_mode().as_u8(), 0);
    let m4 = Mode::try_from_u8(4).unwrap();
    assert_eq!(video.set_mode(m4, None), Ok(()));
    assert_eq!(video.get_mode().as_u8(), 4);
}

#[test]
fn set_mode_rejects_invalid_codes_and_keeps_state() {
    let mut video = VideoState::new();
    let m1 = Mode::try_from_u8(1).unwrap();
    assert_eq!(video.set_mode(m1, Some(0x1000)), Ok(()));
    let bad = Mode::try_from_u8(3).unwrap();
    assert_eq!(
        video.set_mode(bad, None),
        Err(Error::UnsupportedConfiguration)
    );
    // The rejected call changed neither the mode nor the override target.
    assert_eq!(video.get_mode().as_u8(), 1);
    assert_eq!(video.override_address(), Some(0x1000));
}

#[test]
fn override_pointer_follows_the_mode_switch() {
    let mut video = VideoState::new();
    assert!(video.targets_internal());
    let m0 = Mode::try_from_u8(0).unwrap();

    assert_eq!(video.set_mode(m0, Some(0xdead_b000)), Ok(()));
    assert!(!video.targets_internal());
    assert_eq!(video.override_address(), Some(0xdead_b000));

    assert_eq!(video.set_mode(m0, None), Ok(()));
    assert!(video.targets_internal());
    assert_eq!(video.override_address(), None);
}

#[test]
fn framebuffer_bytes_read_back_when_internal() {
    let mut video = VideoState::new();
    assert_eq!(video.get_at(0), 0);
    video.write_at(12345, 0xa5);
    assert_eq!(video.get_at(12345), 0xa5);
    assert_eq!(video.get_at(12344), 0);
}

#[test]
fn fill_text_cells_blanks_the_grid() {
    let mut video = VideoState::new();
    video.write_at(9999, 0x77);
    video.fill_text_cells(80 * 60, b' ', 0x0f);
    for cell in [0usize, 1, 40, 80 * 60 - 1] {
        assert_eq!(video.get_at(cell * 2), b' ');
        assert_eq!(video.get_at(cell * 2 + 1), 0x0f);
    }
    // A byte past the filled cells is untouched.
    assert_eq!(video.get_at(80 * 60 * 2), 0);
}
