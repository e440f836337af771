//! Glyph textures, text frames and bitmap frames.

use neotron_desktop_bios::colour::Attr;
use neotron_desktop_bios::font::{Font, GLYPH_COUNT};
use neotron_desktop_bios::glyphs::{
    font_texture_plan, texture_slot, GlyphCache, GLYPHS_PER_FONT, NUM_FG,
};
use neotron_desktop_bios::mode::Mode;
use neotron_desktop_bios::palette::Palette;
use neotron_desktop_bios::render::{plan_frame, render_chunky, render_text, DrawCmd};
use neotron_desktop_bios::video::VideoState;

#[test]
fn texture_slot_is_glyph_times_sixteen_plus_colour() {
    assert_eq!(texture_slot(0, 0), 0);
    assert_eq!(texture_slot(0, 15), 15);
    assert_eq!(texture_slot(1, 0), 16);
    assert_eq!(texture_slot(0x41, 15), 0x41 * 16 + 15);
    assert_eq!(texture_slot(255, 15), 4095);
}

#[test]
fn texture_plan_covers_every_pair_in_slot_order() {
    let palette = Palette::new_default();
    let plan = font_texture_plan(&palette);
    assert_eq!(plan.len(), GLYPHS_PER_FONT * NUM_FG);
    for (s, entry) in plan.iter().enumerate() {
        assert_eq!(entry.glyph as usize, s / NUM_FG);
        assert_eq!(entry.fg_index as usize, s % NUM_FG);
        assert_eq!(
            entry.fg_packed,
            palette.get(s % NUM_FG).unwrap().as_packed()
        );
    }
    // Slot 0x41 * 16 + 15 is glyph 'A' in white.
    let e = &plan[0x41 * 16 + 15];
    assert_eq!(e.glyph, 0x41);
    assert_eq!(e.fg_index, 15);
    assert_eq!(e.fg_packed, 0xffffff);
}

#[test]
fn cache_built_from_the_plan_is_complete() {
    let palette = Palette::new_default();
    let plan = font_texture_plan(&palette);
    let mut cache = GlyphCache::new();
    for (s, _entry) in plan.iter().enumerate() {
        cache.push_texture(1000 + s as u64);
    }
    assert_eq!(cache.len(), GLYPHS_PER_FONT * NUM_FG);
    // Every glyph/colour pair finds its handle.
    assert_eq!(cache.handle_for(0, 0), 1000);
    assert_eq!(cache.handle_for(0x41, 15), 1000 + 0x41 * 16 + 15);
    assert_eq!(cache.handle_for(255, 15), 1000 + 4095);
}

#[test]
fn font_rejects_wrong_sizes() {
    assert!(Font::new("bad", 12, vec![0u8; 12 * GLYPH_COUNT]).is_none());
    assert!(Font::new("bad", 8, vec![0u8; 100]).is_none());
    assert!(Font::new("ok", 8, vec![0u8; 8 * GLYPH_COUNT]).is_some());
    assert!(Font::new("ok", 16, vec![0u8; 16 * GLYPH_COUNT]).is_some());
}

#[test]
fn glyph_bitmap_reads_rows_top_bit_leftmost() {
    let mut data = vec![0u8; 8 * GLYPH_COUNT];
    // Glyph 2, line 0: 0b1000_0001 sets the leftmost and rightmost pixels.
    data[2 * 8] = 0x81;
    // Glyph 2, line 3: 0b0100_0000 sets only the second pixel.
    data[2 * 8 + 3] = 0x40;
    let font = Font::new("test", 8, data).unwrap();
    let grid = font.glyph_bitmap(2);
    assert_eq!(grid.len(), 64);
    assert!(grid[0]);
    assert!(!grid[1]);
    assert!(grid[7]);
    assert!(!grid[3 * 8]);
    assert!(grid[3 * 8 + 1]);
    // A different glyph stays blank.
    let blank = font.glyph_bitmap(3);
    assert!(blank.iter().all(|&p| !p));
}

#[test]
fn boot_frame_draws_the_written_cell() {
    // Boot with mode 0 (80 by 30 text, 16-line font) and the default
    // palette; write glyph 'A' with foreground white (15) on background
    // black (0) into cell (0, 0); the frame must pick the colours of
    // palette slots 0 and 15 and the texture slot (0x41 * 16) + 15.
    let mut video = VideoState::new();
    let palette = Palette::new_default();
    assert_eq!(video.get_mode().as_u8(), 0);
    let attr = Attr::new(15, 0, false);
    video.write_at(0, 0x41);
    video.write_at(1, attr.as_u8());

    let cmds = render_text(video.framebuffer(), &palette, video.get_mode());
    assert_eq!(cmds.len(), 2 * 80 * 30);
    match cmds[0] {
        DrawCmd::FillRect { x, y, width, height, colour } => {
            assert_eq!((x, y, width, height), (0, 0, 8, 16));
            assert_eq!(colour, palette.get(0).unwrap().as_packed());
            assert_eq!(colour, 0x000000);
        }
        _ => panic!("cell (0,0) must start with its background fill"),
    }
    match cmds[1] {
        DrawCmd::GlyphTexture { x, y, width, height, slot } => {
            assert_eq!((x, y, width, height), (0, 0, 8, 16));
            assert_eq!(slot, (0x41 * 16) + 15);
            assert_eq!(slot, texture_slot(0x41, 15));
        }
        _ => panic!("cell (0,0) must blit its glyph texture"),
    }
    // The white the blit will be drawn with comes from palette slot 15.
    assert_eq!(palette.get(15).unwrap().as_packed(), 0xffffff);
}

#[test]
fn text_frame_places_cells_by_row_and_column() {
    let mut video = VideoState::new();
    let palette = Palette::new_default();
    // Cell (row 2, col 5) of the 80-column grid, with green (2) on blue (1).
    let cell = 2 * 80 + 5;
    let attr = Attr::new(2, 1, false);
    video.write_at(cell * 2, b'Q');
    video.write_at(cell * 2 + 1, attr.as_u8());

    let cmds = render_text(video.framebuffer(), &palette, video.get_mode());
    match cmds[2 * cell] {
        DrawCmd::FillRect { x, y, colour, .. } => {
            assert_eq!((x, y), (5 * 8, 2 * 16));
            assert_eq!(colour, 0x0000aa);
        }
        _ => panic!("expected a fill"),
    }
    match cmds[2 * cell + 1] {
        DrawCmd::GlyphTexture { x, y, slot, .. } => {
            assert_eq!((x, y), (5 * 8, 2 * 16));
            assert_eq!(slot, (b'Q' as usize) * 16 + 2);
        }
        _ => panic!("expected a blit"),
    }
}

#[test]
fn chunky_eight_maps_bytes_straight_to_palette() {
    let mut video = VideoState::new();
    let palette = Palette::new_default();
    let m4 = Mode::try_from_u8(4).unwrap();
    assert_eq!(video.set_mode(m4, None), Ok(()));
    video.write_at(0, 4); // pixel (0,0): palette 4, red
    video.write_at(641, 15); // pixel (1,1): palette 15, white

    let cmds = render_chunky(video.framebuffer(), &palette, m4);
    assert_eq!(cmds.len(), 640 * 480);
    assert_eq!(
        cmds[0],
        DrawCmd::Point { x: 0, y: 0, colour: 0xaa0000 }
    );
    assert_eq!(
        cmds[640 + 1],
        DrawCmd::Point { x: 1, y: 1, colour: 0xffffff }
    );
    // An untouched byte is palette 0, black.
    assert_eq!(
        cmds[2],
        DrawCmd::Point { x: 2, y: 0, colour: 0x000000 }
    );
}

#[test]
fn chunky_one_unpacks_bits_and_forces_white() {
    let mut video = VideoState::new();
    let palette = Palette::new_default();
    let m7 = Mode::try_from_u8(7).unwrap();
    assert_eq!(video.set_mode(m7, None), Ok(()));
    // 0b1010_0000: pixels 0 and 2 of the first byte are set.
    video.write_at(0, 0xa0);

    let cmds = render_chunky(video.framebuffer(), &palette, m7);
    assert_eq!(cmds.len(), 80 * 480 * 8);
    // Set bits draw pure white even though palette slot 1 is blue.
    assert_eq!(cmds[0], DrawCmd::Point { x: 0, y: 0, colour: 0xffffff });
    assert_eq!(cmds[1], DrawCmd::Point { x: 1, y: 0, colour: 0x000000 });
    assert_eq!(cmds[2], DrawCmd::Point { x: 2, y: 0, colour: 0xffffff });
    assert_eq!(cmds[3], DrawCmd::Point { x: 3, y: 0, colour: 0x000000 });
}

#[test]
fn chunky_four_unpacks_two_pixels_per_byte() {
    let mut video = VideoState::new();
    let palette = Palette::new_default();
    let m5 = Mode::try_from_u8(5).unwrap();
    assert_eq!(video.set_mode(m5, None), Ok(()));
    // High nibble 0x2 (green), low nibble 0xf (white).
    video.write_at(0, 0x2f);

    let cmds = render_chunky(video.framebuffer(), &palette, m5);
    assert_eq!(cmds.len(), 320 * 480 * 2);
    assert_eq!(cmds[0], DrawCmd::Point { x: 0, y: 0, colour: 0x00aa00 });
    assert_eq!(cmds[1], DrawCmd::Point { x: 1, y: 0, colour: 0xffffff });
}

#[test]
fn frame_plan_resizes_on_mode_change_only() {
    let video = VideoState::new();
    let palette = Palette::new_default();
    let m0 = Mode::try_from_u8(0).unwrap();
    let m4 = Mode::try_from_u8(4).unwrap();

    // Same mode, no pending reset: no resize.
    let plan = plan_frame(video.framebuffer(), &palette, m0, m0, false);
    assert!(plan.resize.is_none());
    assert_eq!(plan.commands.len(), 2 * 80 * 30);

    // A pending reset forces the window geometry even with the same mode.
    let plan = plan_frame(video.framebuffer(), &palette, m0, m0, true);
    assert_eq!(plan.resize, Some((1280, 960)));

    // A mode change does too, and switches the command shape.
    let plan = plan_frame(video.framebuffer(), &palette, m4, m0, false);
    assert_eq!(plan.resize, Some((1280, 960)));
    assert_eq!(plan.commands.len(), 640 * 480);
}
