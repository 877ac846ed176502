use mbrot::{palette_index, pixel_color, Color, Colormap, PaletteSet, COLORMAP_COUNT, OPAQUE};

fn ramp(len: usize) -> Vec<u8> {
    (0..len).map(|i| i as u8).collect()
}

#[test]
fn palette_index_scales_by_three() {
    assert_eq!(palette_index(0, 30), 0);
    assert_eq!(palette_index(4, 30), 12);
    assert_eq!(palette_index(9, 30), 27);
}

#[test]
fn palette_index_clamps_past_the_end() {
    assert_eq!(palette_index(10, 30), 27);
    assert_eq!(palette_index(1000, 30), 27);
    assert_eq!(palette_index(u32::MAX, 30), 27);
    assert_eq!(palette_index(7, 3), 0);
}

#[test]
fn palette_index_stays_in_bounds_for_every_step() {
    for len in [3usize, 6, 9, 768] {
        for step in 0..(len as u32 + 5) {
            assert!(palette_index(step, len) + 3 <= len);
        }
    }
}

#[test]
fn pixel_color_reads_triple_and_is_opaque() {
    let p = ramp(12);
    assert_eq!(pixel_color(&p, 1), Color { r: 3, g: 4, b: 5, a: OPAQUE });
    assert_eq!(pixel_color(&p, 0), Color { r: 0, g: 1, b: 2, a: 255 });
    assert_eq!(pixel_color(&p, 50), Color { r: 9, g: 10, b: 11, a: 255 });
}

#[test]
fn colormap_index_round_trip() {
    for i in 0..COLORMAP_COUNT {
        let c = Colormap::from_index(i).unwrap();
        assert_eq!(c.index(), i);
    }
    assert_eq!(Colormap::from_index(0), Some(Colormap::Acton));
    assert_eq!(Colormap::from_index(27), Some(Colormap::Viko));
    assert_eq!(Colormap::Roma.index(), 21);
    assert_eq!(Colormap::from_index(COLORMAP_COUNT), None);
}

fn tables() -> Vec<Vec<u8>> {
    (0..COLORMAP_COUNT).map(|i| vec![i as u8; 3 * (i + 1)]).collect()
}

#[test]
fn palette_set_accepts_valid_tables() {
    let set = PaletteSet::new(tables()).unwrap();
    assert_eq!(Colormap::Acton.to_colormap(&set), &[0u8, 0, 0][..]);
    let batlow = Colormap::Batlow.to_colormap(&set);
    assert_eq!(batlow.len(), 9);
    assert!(batlow.iter().all(|&b| b == 2));
    assert_eq!(Colormap::Viko.to_colormap(&set).len(), 84);
}

#[test]
fn palette_set_rejects_wrong_count() {
    let mut t = tables();
    t.pop();
    assert!(PaletteSet::new(t).is_none());
    assert!(PaletteSet::new(Vec::new()).is_none());
}

#[test]
fn palette_set_rejects_short_or_ragged_tables() {
    let mut t = tables();
    t[5] = vec![1, 2];
    assert!(PaletteSet::new(t).is_none());
    let mut t = tables();
    t[27] = vec![1, 2, 3, 4];
    assert!(PaletteSet::new(t).is_none());
    let mut t = tables();
    t[0] = Vec::new();
    assert!(PaletteSet::new(t).is_none());
}
