//! Palette slots, the default table, and the packed colour codecs.

use neotron_desktop_bios::colour::{Attr, RGBColour};
use neotron_desktop_bios::palette::{default_palette_entry_at, Palette, PALETTE_SIZE};
use neotron_desktop_bios::render::make_colours;

#[test]
fn set_then_get_returns_the_written_colour() {
    let mut palette = Palette::new_default();
    let c = RGBColour::from_rgb(0x12, 0x34, 0x56);
    palette.set(7, c);
    let got = palette.get(7).unwrap();
    assert_eq!(got.as_packed(), 0x123456);
}

#[test]
fn get_past_the_table_is_none() {
    let palette = Palette::new_default();
    assert!(palette.get(PALETTE_SIZE).is_none());
    assert!(palette.get(1000).is_none());
    assert!(palette.get(PALETTE_SIZE - 1).is_some());
}

#[test]
fn set_past_the_table_changes_no_slot() {
    let mut palette = Palette::new_default();
    let before: Vec<u32> = (0..PALETTE_SIZE)
        .map(|i| palette.get(i).unwrap().as_packed())
        .collect();
    palette.set(PALETTE_SIZE, RGBColour::from_rgb(1, 2, 3));
    palette.set(40000, RGBColour::from_rgb(4, 5, 6));
    for (i, want) in before.iter().enumerate() {
        assert_eq!(palette.get(i).unwrap().as_packed(), *want);
    }
}

#[test]
fn in_range_set_leaves_every_other_slot() {
    let mut palette = Palette::new_default();
    let before: Vec<u32> = (0..PALETTE_SIZE)
        .map(|i| palette.get(i).unwrap().as_packed())
        .collect();
    palette.set(100, RGBColour::from_rgb(9, 9, 9));
    for (i, want) in before.iter().enumerate() {
        if i != 100 {
            assert_eq!(palette.get(i).unwrap().as_packed(), *want);
        }
    }
    assert_eq!(palette.get(100).unwrap().as_packed(), 0x090909);
}

#[test]
fn default_table_holds_the_console_colours() {
    let palette = Palette::new_default();
    assert_eq!(palette.get(0).unwrap().as_packed(), 0x000000); // black
    assert_eq!(palette.get(1).unwrap().as_packed(), 0x0000aa); // blue
    assert_eq!(palette.get(2).unwrap().as_packed(), 0x00aa00); // green
    assert_eq!(palette.get(4).unwrap().as_packed(), 0xaa0000); // red
    assert_eq!(palette.get(15).unwrap().as_packed(), 0xffffff); // white
    assert_eq!(palette.get(253).unwrap().as_packed(), 0xbbbbbb);
    assert_eq!(palette.get(254).unwrap().as_packed(), 0x333333);
    assert_eq!(palette.get(255).unwrap().as_packed(), 0x777777);
}

#[test]
fn default_entry_lookup_matches_the_table() {
    let palette = Palette::new_default();
    for i in 0..PALETTE_SIZE {
        assert_eq!(palette.get(i).unwrap().as_packed(), default_palette_entry_at(i));
    }
}

#[test]
fn set_all_replaces_pairwise_and_ignores_extras() {
    let mut palette = Palette::new_default();
    let slot200 = palette.get(200).unwrap().as_packed();
    let values = vec![
        RGBColour::from_rgb(1, 1, 1),
        RGBColour::from_rgb(2, 2, 2),
        RGBColour::from_rgb(3, 3, 3),
    ];
    palette.set_all(&values);
    assert_eq!(palette.get(0).unwrap().as_packed(), 0x010101);
    assert_eq!(palette.get(1).unwrap().as_packed(), 0x020202);
    assert_eq!(palette.get(2).unwrap().as_packed(), 0x030303);
    // Slots past the input are left alone.
    assert_eq!(palette.get(200).unwrap().as_packed(), slot200);
}

#[test]
fn set_all_with_oversized_input_stops_at_the_table() {
    let mut palette = Palette::new_default();
    let values: Vec<RGBColour> = (0..300).map(|i| RGBColour::from_rgb(i as u8, 0, 0)).collect();
    palette.set_all(&values);
    assert_eq!(palette.get(255).unwrap().as_packed(), 0xff0000);
    assert!(palette.get(256).is_none());
}

#[test]
fn rgb_packs_and_unpacks() {
    let c = RGBColour::from_rgb(0xab, 0xcd, 0xef);
    assert_eq!(c.as_packed(), 0xabcdef);
    assert_eq!(c.red(), 0xab);
    assert_eq!(c.green(), 0xcd);
    assert_eq!(c.blue(), 0xef);
    let d = RGBColour::from_packed(0x010203);
    assert_eq!(d.red(), 1);
    assert_eq!(d.green(), 2);
    assert_eq!(d.blue(), 3);
}

#[test]
fn attr_packs_the_vga_split() {
    let attr = Attr::new(15, 0, false);
    assert_eq!(attr.as_u8(), 0x0f);
    assert_eq!(attr.fg(), 15);
    assert_eq!(attr.bg(), 0);
    assert!(!attr.blink());

    let attr = Attr::new(3, 5, true);
    assert_eq!(attr.as_u8(), 0x80 | (5 << 4) | 3);
    assert_eq!(attr.fg(), 3);
    assert_eq!(attr.bg(), 5);
    assert!(attr.blink());

    let raw = Attr::from_u8(0x9e);
    assert_eq!(raw.fg(), 14);
    assert_eq!(raw.bg(), 1);
    assert!(raw.blink());
}

#[test]
fn make_colours_takes_palette_prefix() {
    let palette = Palette::new_default();
    let colours = make_colours(&palette, 16);
    assert_eq!(colours.len(), 16);
    assert_eq!(colours[0], 0x000000);
    assert_eq!(colours[1], 0x0000aa);
    assert_eq!(colours[15], 0xffffff);
}

#[test]
fn make_colours_forces_white_in_two_colour_mode() {
    let palette = Palette::new_default();
    let colours = make_colours(&palette, 2);
    assert_eq!(colours.len(), 2);
    assert_eq!(colours[0], 0x000000);
    // Palette slot 1 is blue, but the two-colour mode must stay legible.
    assert_eq!(colours[1], 0xffffff);
}
