use vstd::prelude::*;

verus! {

/// The pens the canvas offers.
#[derive(PartialEq, Eq, Structural, Clone, Copy, Debug)]
pub enum PenStyle {
    Marker,
    Brush,
    Shaper,
    Eraser,
    Selector,
    Unkown,
}

impl Default for PenStyle {
    /// The marker is the pen a fresh canvas starts with.
    fn default() -> (style: Self)
        ensures
            style == PenStyle::Marker,
    {
        PenStyle::Marker
    }
}

/// One instance of every pen, each keeping its own configuration.
///
/// The pen types are parameters: every pen module defines its own.
#[derive(Default, Clone, Debug)]
pub struct Pens<Marker, Brush, Shaper, Eraser, Selector> {
    pub marker: Marker,
    pub brush: Brush,
    pub shaper: Shaper,
    pub eraser: Eraser,
    pub selector: Selector,
}

/// A pen that paints an overlay of its own on top of the canvas.
#[derive(PartialEq, Eq, Structural, Clone, Copy, Debug)]
pub enum PenOverlay {
    /// The eraser draws its footprint, scaled with the canvas.
    Eraser,
    /// The selector draws its selection path.
    Selector,
}

/// Which overlay, if any, the canvas draws while `current_pen` is active.
pub open spec fn spec_pen_overlay(current_pen: PenStyle) -> Option<PenOverlay> {
    match current_pen {
        PenStyle::Eraser => Some(PenOverlay::Eraser),
        PenStyle::Selector => Some(PenOverlay::Selector),
        PenStyle::Marker | PenStyle::Brush | PenStyle::Shaper | PenStyle::Unkown => None,
    }
}

impl<Marker, Brush, Shaper, Eraser, Selector> Pens<Marker, Brush, Shaper, Eraser, Selector> {
    /// Picks the pen whose overlay is drawn for `current_pen`: only the eraser
    /// and the selector draw one, and only while they are the current pen.
    pub fn overlay_for(&self, current_pen: PenStyle) -> (overlay: Option<PenOverlay>)
        ensures
            overlay == spec_pen_overlay(current_pen),
    {
        match current_pen {
            PenStyle::Eraser => Some(PenOverlay::Eraser),
            PenStyle::Selector => Some(PenOverlay::Selector),
            PenStyle::Marker | PenStyle::Brush | PenStyle::Shaper | PenStyle::Unkown => None,
        }
    }
}


/// The eraser draws its overlay exactly while it is the current pen, and so
/// does the selector; every other pen draws none.
pub proof fn lemma_overlay_only_for_its_pen(current_pen: PenStyle)
    ensures
        spec_pen_overlay(current_pen) == Some(PenOverlay::Eraser) <==> current_pen
            == PenStyle::Eraser,
        spec_pen_overlay(current_pen) == Some(PenOverlay::Selector) <==> current_pen
            == PenStyle::Selector,
        spec_pen_overlay(current_pen) is None <==> (current_pen != PenStyle::Eraser
            && current_pen != PenStyle::Selector),
{
}

} // verus!
