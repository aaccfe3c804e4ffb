use vstd::prelude::*;
use crate::text::same_chars;

verus! {

/// The scroll directions in which the canvas view is moved to centre a point.
#[derive(PartialEq, Eq, Structural, Clone, Copy, Debug)]
pub struct CenteringAxes {
    pub horizontal: bool,
    pub vertical: bool,
}

/// Along which axes centring a point of the sheet moves the view: only along
/// those where the canvas is larger than the scrolled window showing it.
pub fn centering_axes(
    scroller_width: i32,
    scroller_height: i32,
    canvas_width: i32,
    canvas_height: i32,
) -> (axes: CenteringAxes)
    ensures
        axes.horizontal == (canvas_width > scroller_width),
        axes.vertical == (canvas_height > scroller_height),
{
    CenteringAxes {
        horizontal: canvas_width > scroller_width,
        vertical: canvas_height > scroller_height,
    }
}

/// The pixel sizes of the selection modifier's handles.
#[derive(PartialEq, Eq, Structural, Clone, Copy, Debug)]
pub struct SelectionModifierMetrics {
    /// Kept free around the translate node inside the selection.
    pub translate_node_margin: i32,
    /// The smallest size of the translate node.
    pub translate_node_size_min: i32,
    /// The largest size of the translate node.
    pub translate_node_size_max: i32,
    /// The size of a resize node; the modifier reaches this far beyond the
    /// selection on every side.
    pub resize_node_size: i32,
}

/// The selection's bounds on the canvas, scaled to widget pixels and rounded.
#[derive(PartialEq, Eq, Structural, Clone, Copy, Debug)]
pub struct ScaledBounds {
    pub x: i32,
    pub y: i32,
    pub width: i32,
    pub height: i32,
    /// The shorter side of the bounds, scaled and rounded on its own.
    pub shorter_side: i32,
}

/// Where the selection modifier is placed over the canvas.
#[derive(PartialEq, Eq, Structural, Clone, Copy, Debug)]
pub struct SelectionModifierLayout {
    /// The pixel size of the translate node's icon.
    pub translate_node_size: i32,
    pub x: i32,
    pub y: i32,
    pub width: i32,
    pub height: i32,
}

/// `v` clamped into `lo..=hi`.
pub open spec fn clamp(v: int, lo: int, hi: int) -> int {
    if v < lo {
        lo
    } else if v > hi {
        hi
    } else {
        v
    }
}

/// The arithmetic of the layout stays within `i32`, and the translate node's
/// size range is not empty.
pub open spec fn layout_fits(bounds: ScaledBounds, m: SelectionModifierMetrics) -> bool {
    &&& m.translate_node_size_min <= m.translate_node_size_max
    &&& i32::MIN <= 2 * m.translate_node_margin <= i32::MAX
    &&& i32::MIN <= bounds.shorter_side - 2 * m.translate_node_margin <= i32::MAX
    &&& i32::MIN <= 2 * m.resize_node_size <= i32::MAX
    &&& i32::MIN <= bounds.x - m.resize_node_size <= i32::MAX
    &&& i32::MIN <= bounds.y - m.resize_node_size <= i32::MAX
    &&& i32::MIN <= bounds.width + 2 * m.resize_node_size <= i32::MAX
    &&& i32::MIN <= bounds.height + 2 * m.resize_node_size <= i32::MAX
}

/// The selection modifier's placement for the selection `bounds`.
pub open spec fn spec_layout(bounds: ScaledBounds, m: SelectionModifierMetrics) -> SelectionModifierLayout {
    SelectionModifierLayout {
        translate_node_size: clamp(
            bounds.shorter_side - 2 * m.translate_node_margin,
            m.translate_node_size_min as int,
            m.translate_node_size_max as int,
        ) as i32,
        x: (bounds.x - m.resize_node_size) as i32,
        y: (bounds.y - m.resize_node_size) as i32,
        width: (bounds.width + 2 * m.resize_node_size) as i32,
        height: (bounds.height + 2 * m.resize_node_size) as i32,
    }
}

/// Places the selection modifier around the selection: it reaches a resize
/// node beyond the selection on every side, and its translate node fills the
/// shorter side less the margins, within the node's size range.
pub fn selection_modifier_layout(bounds: ScaledBounds, m: SelectionModifierMetrics) -> (layout:
    SelectionModifierLayout)
    requires
        layout_fits(bounds, m),
    ensures
        layout == spec_layout(bounds, m),
{
    let wanted = bounds.shorter_side - 2 * m.translate_node_margin;
    let translate_node_size = if wanted < m.translate_node_size_min {
        m.translate_node_size_min
    } else if wanted > m.translate_node_size_max {
        m.translate_node_size_max
    } else {
        wanted
    };
    SelectionModifierLayout {
        translate_node_size,
        x: bounds.x - m.resize_node_size,
        y: bounds.y - m.resize_node_size,
        width: bounds.width + 2 * m.resize_node_size,
        height: bounds.height + 2 * m.resize_node_size,
    }
}

/// Whether `selection_modifier_layout` can place the modifier around `bounds`
/// without leaving the range of `i32` and with a non-empty size range.
pub fn layout_in_range(bounds: ScaledBounds, m: SelectionModifierMetrics) -> (fits: bool)
    ensures
        fits == layout_fits(bounds, m),
{
    let lo = i32::MIN as i64;
    let hi = i32::MAX as i64;
    let margin2 = 2 * (m.translate_node_margin as i64);
    let resize2 = 2 * (m.resize_node_size as i64);
    let wanted = bounds.shorter_side as i64 - margin2;
    let x = bounds.x as i64 - m.resize_node_size as i64;
    let y = bounds.y as i64 - m.resize_node_size as i64;
    let w = bounds.width as i64 + resize2;
    let h = bounds.height as i64 + resize2;
    m.translate_node_size_min <= m.translate_node_size_max && lo <= margin2 && margin2 <= hi && lo
        <= wanted && wanted <= hi && lo <= resize2 && resize2 <= hi && lo <= x && x <= hi && lo
        <= y && y <= hi && lo <= w && w <= hi && lo <= h && h <= hi
}

/// The translate node is as large as the selection's shorter side less a
/// margin on both ends, held within the node's size range; the modifier
/// starts a resize node before the selection on both axes and is two resize
/// nodes longer than it on both axes.
pub proof fn lemma_layout_values(bounds: ScaledBounds, m: SelectionModifierMetrics)
    requires
        layout_fits(bounds, m),
    ensures
        ({
            let l = spec_layout(bounds, m);
            let wanted = bounds.shorter_side - 2 * m.translate_node_margin;
            &&& (wanted < m.translate_node_size_min ==> l.translate_node_size
                == m.translate_node_size_min)
            &&& (wanted > m.translate_node_size_max ==> l.translate_node_size
                == m.translate_node_size_max)
            &&& (m.translate_node_size_min <= wanted <= m.translate_node_size_max
                ==> l.translate_node_size == wanted)
            &&& l.x == bounds.x - m.resize_node_size
            &&& l.y == bounds.y - m.resize_node_size
            &&& l.width == bounds.width + 2 * m.resize_node_size
            &&& l.height == bounds.height + 2 * m.resize_node_size
        }),
{
}

/// The name under which the canvas overlay knows the selection modifier.
pub open spec fn selection_modifier_name() -> Seq<char> {
    "selection_modifier"@
}

/// Where the canvas overlay places its child named `widget_name`: the
/// selection modifier is placed around the current selection, if there is
/// one; every other child, and the modifier without a selection, is left to
/// the overlay's default placement.
pub fn overlay_child_layout(
    widget_name: &str,
    selection: Option<ScaledBounds>,
    m: SelectionModifierMetrics,
) -> (layout: Option<SelectionModifierLayout>)
    requires
        widget_name@ == selection_modifier_name() ==> (selection matches Some(b) ==> layout_fits(
            b,
            m,
        )),
    ensures
        layout is Some <==> widget_name@ == selection_modifier_name() && selection is Some,
        layout matches Some(l) ==> l == spec_layout(selection->0, m),
{
    if same_chars(widget_name, "selection_modifier") {
        match selection {
            Some(bounds) => Some(selection_modifier_layout(bounds, m)),
            None => None,
        }
    } else {
        None
    }
}

/// The layout keeps the selection inside the modifier: with non-negative
/// node sizes the modifier starts no later and ends no earlier than the
/// selection on both axes, and the translate node's size stays in its range.
pub proof fn lemma_modifier_encloses_selection(bounds: ScaledBounds, m: SelectionModifierMetrics)
    requires
        layout_fits(bounds, m),
        m.resize_node_size >= 0,
    ensures
        ({
            let l = spec_layout(bounds, m);
            &&& l.x <= bounds.x
            &&& l.y <= bounds.y
            &&& l.x + l.width >= bounds.x + bounds.width
            &&& l.y + l.height >= bounds.y + bounds.height
            &&& m.translate_node_size_min <= l.translate_node_size <= m.translate_node_size_max
        }),
{
}

/// What a scroll over the canvas does.
#[derive(PartialEq, Eq, Structural, Clone, Copy, Debug)]
pub enum ScrollOutcome {
    /// Zoom the canvas around the view's centre and stop the scroll from
    /// reaching the scrolled window.
    Zoom,
    /// Leave the scroll to the scrolled window.
    PassOn,
}

/// A scroll zooms the canvas exactly when the control key is the only
/// modifier held: `modifiers` is the event's modifier state and
/// `control_mask` the toolkit's mask of the control key, both as bits.
pub fn scroll_outcome(modifiers: u32, control_mask: u32) -> (outcome: ScrollOutcome)
    ensures
        outcome == (if modifiers == control_mask {
            ScrollOutcome::Zoom
        } else {
            ScrollOutcome::PassOn
        }),
{
    if modifiers == control_mask {
        ScrollOutcome::Zoom
    } else {
        ScrollOutcome::PassOn
    }
}

/// What the canvas shows once a zoom gesture ends or is cancelled.
#[derive(PartialEq, Eq, Structural, Clone, Copy, Debug)]
pub struct ZoomFinish {
    /// The scaled preview shown during the gesture is hidden again.
    pub preview_visible: bool,
    /// The canvas itself is shown again.
    pub canvas_visible: bool,
    /// The selection is shown again exactly when it holds strokes.
    pub selection_shown: bool,
}

/// Ends a zoom gesture, whether it finished or was cancelled, over a
/// selection of `selection_strokes` strokes: the preview gives way to the
/// canvas, and the selection reappears only if it holds any stroke.
pub fn zoom_finish(selection_strokes: usize) -> (finish: ZoomFinish)
    ensures
        !finish.preview_visible,
        finish.canvas_visible,
        finish.selection_shown == (selection_strokes > 0),
{
    ZoomFinish {
        preview_visible: false,
        canvas_visible: true,
        selection_shown: selection_strokes > 0,
    }
}

} // verus!
