use harfbuzz::glyph::{Glyph, GlyphInfo, GlyphPosition, Glyphs};

fn info(codepoint: u32, cluster: u32) -> GlyphInfo {
    GlyphInfo { codepoint, mask: 0, cluster }
}

fn position(x_advance: i32, y_advance: i32, x_offset: i32, y_offset: i32) -> GlyphPosition {
    GlyphPosition { x_advance, y_advance, x_offset, y_offset }
}

fn sample() -> (Vec<GlyphInfo>, Vec<GlyphPosition>) {
    let infos = vec![info(65, 0), info(66, 1), info(67, 2)];
    let positions = vec![
        position(65536, 0, 10, -10),
        position(98304, 1, 20, -20),
        position(-65536, 2, 30, -30),
    ];
    (infos, positions)
}

#[test]
fn bounds_inside_succeed_outside_fail() {
    let (infos, positions) = sample();
    let view = Glyphs::from_raw(&infos, &positions, 3);
    assert_eq!(view.len(), 3);
    for i in 0..3 {
        assert!(view.get(i).is_some());
    }
    assert!(view.get(3).is_none());
    assert!(view.get(4).is_none());
    assert!(view.get(usize::MAX).is_none());
}

#[test]
fn view_can_be_shorter_than_its_arrays() {
    let (infos, positions) = sample();
    let view = Glyphs::from_raw(&infos, &positions, 2);
    assert_eq!(view.len(), 2);
    assert!(view.get(1).is_some());
    assert!(view.get(2).is_none());
}

#[test]
fn empty_view_has_no_entries() {
    let infos: Vec<GlyphInfo> = Vec::new();
    let positions: Vec<GlyphPosition> = Vec::new();
    let view = Glyphs::from_raw(&infos, &positions, 0);
    assert_eq!(view.len(), 0);
    assert!(view.get(0).is_none());
    let mut iter = view.into_iter();
    assert!(iter.next().is_none());
    assert!(view.to_records().is_empty());
}

#[test]
fn get_unchecked_matches_get() {
    let (infos, positions) = sample();
    let view = Glyphs::from_raw(&infos, &positions, 3);
    for i in 0..3 {
        let checked = view.get(i).unwrap();
        let unchecked = view.get_unchecked(i);
        assert_eq!(checked.raw_info(), unchecked.raw_info());
        assert_eq!(checked.raw_position(), unchecked.raw_position());
    }
}

fn collect(view: Glyphs<'_>) -> Vec<(GlyphInfo, GlyphPosition)> {
    let mut iter = view.into_iter();
    let mut out = Vec::new();
    while let Some(glyph) = iter.next() {
        out.push((*glyph.raw_info(), *glyph.raw_position()));
    }
    out
}

#[test]
fn iteration_is_complete_and_in_order() {
    let (infos, positions) = sample();
    let view = Glyphs::from_raw(&infos, &positions, 3);
    let yielded = collect(view);
    assert_eq!(yielded.len(), 3);
    for (i, (gi, gp)) in yielded.iter().enumerate() {
        let from_get = view.get(i).unwrap();
        assert_eq!(gi, from_get.raw_info());
        assert_eq!(gp, from_get.raw_position());
        assert_eq!(gi.codepoint, 65 + i as u32);
    }
}

#[test]
fn independent_iterators_yield_identical_sequences() {
    let (infos, positions) = sample();
    let view = Glyphs::from_raw(&infos, &positions, 3);
    let first = collect(view);
    let second = collect(view);
    assert_eq!(first, second);
    assert_eq!(first, view.to_records());
}

#[test]
fn iterator_stays_exhausted_at_the_end() {
    let (infos, positions) = sample();
    let view = Glyphs::from_raw(&infos, &positions, 3);
    let mut iter = view.into_iter();
    for _ in 0..3 {
        assert!(iter.next().is_some());
    }
    assert!(iter.next().is_none());
    assert!(iter.next().is_none());
}

#[test]
fn field_mapping_of_a_synthetic_record() {
    let infos = vec![info(65, 0)];
    let positions = vec![position(65536, 2, 3, 4)];
    let view = Glyphs::from_raw(&infos, &positions, 1);
    let glyph = view.get(0).unwrap();
    assert_eq!(glyph.id(), 65);
    assert_eq!(glyph.to_char(), Some('A'));
    assert_eq!(glyph.x_advance(), 65536);
    assert_eq!(glyph.y_advance(), 2);
    assert_eq!(glyph.x_offset(), 3);
    assert_eq!(glyph.y_offset(), 4);
    assert_eq!(glyph.raw_info().codepoint, 65);
    assert_eq!(glyph.raw_position().x_advance, 65536);
}

#[test]
fn code_point_above_the_unicode_maximum_fails() {
    let infos = vec![info(0x110000, 0)];
    let positions = vec![position(0, 0, 0, 0)];
    let view = Glyphs::from_raw(&infos, &positions, 1);
    let glyph = view.get(0).unwrap();
    assert_eq!(glyph.id(), 0x110000);
    assert!(glyph.to_char().is_none());
}

#[test]
fn surrogate_code_point_fails_and_boundaries_succeed() {
    let infos = vec![info(0xD800, 0), info(0xDFFF, 1), info(0xD7FF, 2), info(0xE000, 3), info(0x10FFFF, 4)];
    let positions = vec![position(0, 0, 0, 0); 5];
    let view = Glyphs::from_raw(&infos, &positions, 5);
    assert!(view.get(0).unwrap().to_char().is_none());
    assert!(view.get(1).unwrap().to_char().is_none());
    assert_eq!(view.get(2).unwrap().to_char(), Some('\u{D7FF}'));
    assert_eq!(view.get(3).unwrap().to_char(), Some('\u{E000}'));
    assert_eq!(view.get(4).unwrap().to_char(), Some('\u{10FFFF}'));
}

#[test]
fn views_are_copyable_without_copying_records() {
    let (infos, positions) = sample();
    let view = Glyphs::from_raw(&infos, &positions, 3);
    let copy: Glyphs<'_> = view;
    assert_eq!(copy.len(), view.len());
    assert_eq!(copy.to_records(), view.to_records());
}

#[test]
fn glyph_elements_are_copyable() {
    let (infos, positions) = sample();
    let view = Glyphs::from_raw(&infos, &positions, 3);
    let glyph: Glyph<'_> = view.get(1).unwrap();
    let copy = glyph;
    assert_eq!(copy.id(), glyph.id());
    assert_eq!(copy.x_advance(), glyph.x_advance());
}
