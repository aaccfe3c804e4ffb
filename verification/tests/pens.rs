use rnote_logic::pens::{PenOverlay, PenStyle, Pens};

#[test]
fn default_pen_is_marker() {
    assert_eq!(PenStyle::default(), PenStyle::Marker);
}

#[test]
fn only_eraser_and_selector_draw_overlays() {
    let pens: Pens<u8, u8, u8, u8, u8> = Pens::default();
    assert_eq!(pens.overlay_for(PenStyle::Eraser), Some(PenOverlay::Eraser));
    assert_eq!(pens.overlay_for(PenStyle::Selector), Some(PenOverlay::Selector));
    for style in [PenStyle::Marker, PenStyle::Brush, PenStyle::Shaper, PenStyle::Unkown] {
        assert_eq!(pens.overlay_for(style), None);
    }
}

#[test]
fn pens_hold_one_of_each() {
    let pens = Pens { marker: 1u8, brush: 2u16, shaper: 3u32, eraser: 4u64, selector: 5i8 };
    let copy = pens.clone();
    assert_eq!((copy.marker, copy.brush, copy.shaper, copy.eraser, copy.selector), (1, 2, 3, 4, 5));
}
