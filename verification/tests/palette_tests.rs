use term_tabs::palette::{Palette, Rgb, PALETTE_LEN};

#[test]
fn fresh_palette_has_fixed_size_and_resolves_to_default() {
    let p = Palette::new();
    assert_eq!(p.len(), PALETTE_LEN);
    assert_eq!(p.resolve(0), Rgb { r: 0, g: 0, b: 0 });
    assert_eq!(p.resolve(268), Rgb { r: 0, g: 0, b: 0 });
}

#[test]
fn set_slot_resolves_to_stored_color() {
    let mut p = Palette::new();
    let teal = Rgb { r: 0, g: 128, b: 128 };
    p.set(4, teal);
    assert_eq!(p.resolve(4), teal);
    // neighbouring slots stay unset
    assert_eq!(p.resolve(3), Rgb { r: 0, g: 0, b: 0 });
    assert_eq!(p.resolve(5), Rgb { r: 0, g: 0, b: 0 });
}

#[test]
fn out_of_range_index_resolves_to_default() {
    let mut p = Palette::new();
    p.set(0, Rgb { r: 255, g: 255, b: 255 });
    assert_eq!(p.resolve(PALETTE_LEN), Rgb { r: 0, g: 0, b: 0 });
    assert_eq!(p.resolve(usize::MAX), Rgb { r: 0, g: 0, b: 0 });
}

#[test]
fn set_out_of_range_is_noop() {
    let mut p = Palette::new();
    p.set(PALETTE_LEN, Rgb { r: 1, g: 2, b: 3 });
    assert_eq!(p.len(), PALETTE_LEN);
    for i in 0..PALETTE_LEN {
        assert_eq!(p.resolve(i), Rgb { r: 0, g: 0, b: 0 });
    }
}

#[test]
fn clone_copies_every_slot() {
    let mut p = Palette::new();
    p.set(7, Rgb { r: 9, g: 8, b: 7 });
    let q = p.clone();
    assert_eq!(q.resolve(7), Rgb { r: 9, g: 8, b: 7 });
    assert_eq!(q.len(), PALETTE_LEN);
}
