use vstd::prelude::*;

verus! {

/// The window edge a packed widget sits at.
#[derive(PartialEq, Eq, Structural, Clone, Copy, Debug)]
pub enum PackType {
    Start,
    End,
    /// A raw value the toolkit reported without naming it.
    Unknown(i32),
}

/// What the sidebar flap reports about itself when a handler runs.
#[derive(PartialEq, Eq, Structural, Clone, Copy, Debug)]
pub struct FlapView {
    /// The flap overlays the content instead of sitting beside it.
    pub folded: bool,
    /// The flap is currently shown.
    pub reveals_flap: bool,
    /// The window edge the flap is attached to.
    pub position: PackType,
}

/// A change the window chrome is told about.
#[derive(PartialEq, Eq, Structural, Clone, Copy, Debug)]
pub enum ChromeEvent {
    /// The flap reveal toggle was switched to `active`.
    RevealToggled { active: bool },
    /// The flap folded or unfolded.
    FoldedChanged,
    /// The flap was shown or hidden.
    RevealChanged,
    /// The flap moved to another window edge.
    PositionChanged,
    /// A drag on the flap resizer began.
    ResizeBegin,
    /// The drag on the flap resizer moved. `box_width` is the flap box's
    /// current width, `dx_ceil` and `dx_floor` the horizontal drag offset
    /// rounded up and down, `header_width` the main header's width.
    ResizeUpdate { box_width: i32, dx_ceil: i32, dx_floor: i32, header_width: i32 },
    /// The workspace header bar started or stopped showing the window's end
    /// title buttons.
    EndTitleButtonsChanged { shown: bool },
}

/// The order of the flap box and its resizer handle inside their container.
#[derive(PartialEq, Eq, Structural, Clone, Copy, Debug)]
pub enum ResizerOrder {
    FlapBoxFirst,
    ResizerFirst,
}

/// The header that holds the application menu.
#[derive(PartialEq, Eq, Structural, Clone, Copy, Debug)]
pub enum MenuHost {
    /// The menu box of the main header bar.
    MainHeader,
    /// The menu box of the workspace header bar inside the flap.
    FlapHeader,
}

/// What the window chrome has to change in response to an event; `None`
/// leaves the widget as it is.
#[derive(PartialEq, Eq, Structural, Clone, Copy, Debug)]
pub struct ChromeActions {
    /// Show or hide the flap.
    pub reveal_flap: Option<bool>,
    /// Switch the flap reveal toggle.
    pub toggle_active: Option<bool>,
    /// Show or hide the end title buttons of the workspace header bar.
    pub show_end_title_buttons: Option<bool>,
    /// Request this width for the flap box.
    pub flap_box_width_request: Option<i32>,
    /// Rearrange the flap box and its resizer.
    pub resizer_order: Option<ResizerOrder>,
    /// Move the application menu into this header.
    pub appmenu_host: Option<MenuHost>,
}

/// What the window chrome remembers between events.
#[derive(PartialEq, Eq, Structural, Clone, Copy, Debug)]
pub struct WindowChrome {
    /// Whether the flap was revealed the last time the user chose while it
    /// was unfolded; it is restored when the flap unfolds again.
    pub expanded_revealed: bool,
    /// Whether the flap was folded when the current resize drag began.
    pub prev_folded: bool,
}

/// The space the main header keeps free beside a resized flap box.
pub const HEADER_RESERVED_WIDTH: i32 = 64;

/// No change at all.
pub open spec fn spec_no_actions() -> ChromeActions {
    ChromeActions {
        reveal_flap: None,
        toggle_active: None,
        show_end_title_buttons: None,
        flap_box_width_request: None,
        resizer_order: None,
        appmenu_host: None,
    }
}

/// The flap sits beside the content at the window's end edge, the only place
/// where the workspace header bar carries the window's title buttons.
pub open spec fn unfolded_at_end(flap: FlapView) -> bool {
    !flap.folded && flap.position == PackType::End
}

/// The flap box width a resize drag asks for: the drag grows the box when
/// the flap is at the start edge and shrinks it otherwise.
pub open spec fn resize_width(flap: FlapView, box_width: i32, dx_ceil: i32, dx_floor: i32) -> int {
    if flap.position == PackType::Start {
        box_width + dx_ceil
    } else {
        box_width - dx_floor
    }
}

/// The arithmetic of a resize drag stays within `i32`.
pub open spec fn event_fits(chrome: WindowChrome, flap: FlapView, event: ChromeEvent) -> bool {
    match event {
        ChromeEvent::ResizeUpdate { box_width, dx_ceil, dx_floor, header_width } => {
            chrome.prev_folded == flap.folded ==> {
                let w = resize_width(flap, box_width, dx_ceil, dx_floor);
                &&& i32::MIN <= w <= i32::MAX
                &&& w > 0 ==> header_width - HEADER_RESERVED_WIDTH >= i32::MIN
            }
        },
        _ => true,
    }
}

/// What the chrome remembers after `event`.
pub open spec fn spec_next(chrome: WindowChrome, flap: FlapView, event: ChromeEvent) -> WindowChrome {
    match event {
        ChromeEvent::RevealToggled { active } => if !flap.folded {
            WindowChrome { expanded_revealed: active, ..chrome }
        } else {
            chrome
        },
        ChromeEvent::FoldedChanged => if !flap.folded && (chrome.expanded_revealed
            || flap.reveals_flap) {
            WindowChrome { expanded_revealed: true, ..chrome }
        } else {
            chrome
        },
        ChromeEvent::ResizeBegin => WindowChrome { prev_folded: flap.folded, ..chrome },
        _ => chrome,
    }
}

/// What the chrome changes in response to `event`.
pub open spec fn spec_actions(chrome: WindowChrome, flap: FlapView, event: ChromeEvent) -> ChromeActions {
    match event {
        ChromeEvent::RevealToggled { active } => ChromeActions {
            reveal_flap: Some(active),
            ..spec_no_actions()
        },
        ChromeEvent::FoldedChanged => if flap.folded {
            ChromeActions { toggle_active: Some(false), ..spec_no_actions() }
        } else {
            ChromeActions {
                show_end_title_buttons: if flap.position == PackType::End {
                    Some(flap.reveals_flap)
                } else {
                    None
                },
                toggle_active: if chrome.expanded_revealed || flap.reveals_flap {
                    Some(true)
                } else {
                    None
                },
                ..spec_no_actions()
            }
        },
        ChromeEvent::RevealChanged => ChromeActions {
            show_end_title_buttons: Some(unfolded_at_end(flap) && flap.reveals_flap),
            ..spec_no_actions()
        },
        ChromeEvent::PositionChanged => ChromeActions {
            show_end_title_buttons: Some(unfolded_at_end(flap) && chrome.expanded_revealed),
            resizer_order: Some(
                if flap.position == PackType::Start {
                    ResizerOrder::FlapBoxFirst
                } else {
                    ResizerOrder::ResizerFirst
                },
            ),
            ..spec_no_actions()
        },
        ChromeEvent::ResizeBegin => spec_no_actions(),
        ChromeEvent::ResizeUpdate { box_width, dx_ceil, dx_floor, header_width } => {
            if chrome.prev_folded == flap.folded {
                let w = resize_width(flap, box_width, dx_ceil, dx_floor);
                ChromeActions {
                    flap_box_width_request: if 0 < w && w < header_width - HEADER_RESERVED_WIDTH {
                        Some(w as i32)
                    } else {
                        None
                    },
                    ..spec_no_actions()
                }
            } else {
                ChromeActions {
                    toggle_active: if flap.folded {
                        Some(true)
                    } else {
                        None
                    },
                    ..spec_no_actions()
                }
            }
        },
        ChromeEvent::EndTitleButtonsChanged { shown } => ChromeActions {
            appmenu_host: Some(
                if shown {
                    MenuHost::FlapHeader
                } else {
                    MenuHost::MainHeader
                },
            ),
            ..spec_no_actions()
        },
    }
}

impl ChromeActions {
    /// No change at all.
    pub fn none() -> (actions: Self)
        ensures
            actions == spec_no_actions(),
    {
        ChromeActions {
            reveal_flap: None,
            toggle_active: None,
            show_end_title_buttons: None,
            flap_box_width_request: None,
            resizer_order: None,
            appmenu_host: None,
        }
    }
}

impl WindowChrome {
    /// The chrome of a freshly built window whose flap is `flap`: it
    /// remembers whether the flap is shown and whether it is folded.
    pub fn new(flap: FlapView) -> (chrome: Self)
        ensures
            chrome.expanded_revealed == flap.reveals_flap,
            chrome.prev_folded == flap.folded,
    {
        WindowChrome { expanded_revealed: flap.reveals_flap, prev_folded: flap.folded }
    }

    /// Whether `handle` can take `event` without leaving the range of `i32`.
    pub fn can_handle(&self, flap: FlapView, event: ChromeEvent) -> (fits: bool)
        ensures
            fits == event_fits(*self, flap, event),
    {
        match event {
            ChromeEvent::ResizeUpdate { box_width, dx_ceil, dx_floor, header_width } => {
                if self.prev_folded != flap.folded {
                    return true;
                }
                let w: i64 = if flap.position == PackType::Start {
                    box_width as i64 + dx_ceil as i64
                } else {
                    box_width as i64 - dx_floor as i64
                };
                if w < i32::MIN as i64 || w > i32::MAX as i64 {
                    false
                } else {
                    w <= 0 || header_width as i64 - HEADER_RESERVED_WIDTH as i64 >= i32::MIN as i64
                }
            },
            _ => true,
        }
    }

    /// Reacts to `event`, given what the flap reports at that moment.
    pub fn handle(&mut self, flap: FlapView, event: ChromeEvent) -> (actions: ChromeActions)
        requires
            event_fits(*old(self), flap, event),
        ensures
            *final(self) == spec_next(*old(self), flap, event),
            actions == spec_actions(*old(self), flap, event),
    {
        let mut actions = ChromeActions::none();
        match event {
            ChromeEvent::RevealToggled { active } => {
                actions.reveal_flap = Some(active);
                if !flap.folded {
                    self.expanded_revealed = active;
                }
            },
            ChromeEvent::FoldedChanged => {
                if flap.folded {
                    actions.toggle_active = Some(false);
                } else {
                    if flap.position == PackType::End {
                        actions.show_end_title_buttons = Some(flap.reveals_flap);
                    }
                    if self.expanded_revealed || flap.reveals_flap {
                        self.expanded_revealed = true;
                        actions.toggle_active = Some(true);
                    }
                }
            },
            ChromeEvent::RevealChanged => {
                let at_end = !flap.folded && flap.position == PackType::End;
                actions.show_end_title_buttons = Some(at_end && flap.reveals_flap);
            },
            ChromeEvent::PositionChanged => {
                let at_end = !flap.folded && flap.position == PackType::End;
                actions.show_end_title_buttons = Some(at_end && self.expanded_revealed);
                if flap.position == PackType::Start {
                    actions.resizer_order = Some(ResizerOrder::FlapBoxFirst);
                } else {
                    actions.resizer_order = Some(ResizerOrder::ResizerFirst);
                }
            },
            ChromeEvent::ResizeBegin => {
                self.prev_folded = flap.folded;
            },
            ChromeEvent::ResizeUpdate { box_width, dx_ceil, dx_floor, header_width } => {
                if flap.folded == self.prev_folded {
                    let new_width = if flap.position == PackType::Start {
                        box_width + dx_ceil
                    } else {
                        box_width - dx_floor
                    };
                    if new_width > 0 && new_width < header_width - HEADER_RESERVED_WIDTH {
                        actions.flap_box_width_request = Some(new_width);
                    }
                } else if flap.folded {
                    actions.toggle_active = Some(true);
                }
            },
            ChromeEvent::EndTitleButtonsChanged { shown } => {
                if shown {
                    actions.appmenu_host = Some(MenuHost::FlapHeader);
                } else {
                    actions.appmenu_host = Some(MenuHost::MainHeader);
                }
            },
        }
        actions
    }
}


/// The workspace header bar is only ever asked to show the window's end title
/// buttons while the flap sits unfolded at the window's end edge.
pub proof fn lemma_end_title_buttons_only_beside_end_flap(
    chrome: WindowChrome,
    flap: FlapView,
    event: ChromeEvent,
)
    ensures
        spec_actions(chrome, flap, event).show_end_title_buttons == Some(true) ==> unfolded_at_end(
            flap,
        ),
{
}

/// Folding the flap switches the reveal toggle off and forgets nothing: the
/// reveal chosen while unfolded is kept for later.
pub proof fn lemma_folding_hides_flap(chrome: WindowChrome, flap: FlapView)
    requires
        flap.folded,
    ensures
        spec_actions(chrome, flap, ChromeEvent::FoldedChanged).toggle_active == Some(false),
        spec_next(chrome, flap, ChromeEvent::FoldedChanged) == chrome,
{
}

/// Toggling the reveal while the flap is folded does not change the reveal
/// remembered for the unfolded flap.
pub proof fn lemma_folded_toggle_keeps_memory(chrome: WindowChrome, flap: FlapView, active: bool)
    requires
        flap.folded,
    ensures
        spec_next(chrome, flap, ChromeEvent::RevealToggled { active }) == chrome,
        spec_actions(chrome, flap, ChromeEvent::RevealToggled { active }).reveal_flap == Some(
            active,
        ),
{
}

/// A flap that was revealed before it folded is revealed again when it
/// unfolds, and stays remembered as revealed.
pub proof fn lemma_unfolding_restores_reveal(chrome: WindowChrome, flap: FlapView)
    requires
        !flap.folded,
        chrome.expanded_revealed,
    ensures
        spec_actions(chrome, flap, ChromeEvent::FoldedChanged).toggle_active == Some(true),
        spec_next(chrome, flap, ChromeEvent::FoldedChanged).expanded_revealed,
{
}

/// Revealing the unfolded flap, folding it, toggling while folded and
/// unfolding again: the reveal chosen on the unfolded flap comes back.
pub proof fn lemma_reveal_survives_fold_cycle(
    chrome: WindowChrome,
    unfolded: FlapView,
    folded: FlapView,
    while_folded: bool,
)
    requires
        !unfolded.folded,
        folded.folded,
    ensures
        ({
            let c1 = spec_next(chrome, unfolded, ChromeEvent::RevealToggled { active: true });
            let c2 = spec_next(c1, folded, ChromeEvent::FoldedChanged);
            let c3 = spec_next(c2, folded, ChromeEvent::RevealToggled { active: while_folded });
            &&& spec_actions(c3, unfolded, ChromeEvent::FoldedChanged).toggle_active == Some(true)
            &&& spec_next(c3, unfolded, ChromeEvent::FoldedChanged).expanded_revealed
        }),
{
}

/// A resize drag never asks for a width outside the room the main header
/// leaves: the request is positive and below the header's width less its
/// reserve.
pub proof fn lemma_resize_width_within_header(
    chrome: WindowChrome,
    flap: FlapView,
    box_width: i32,
    dx_ceil: i32,
    dx_floor: i32,
    header_width: i32,
)
    ensures
        ({
            let event = ChromeEvent::ResizeUpdate { box_width, dx_ceil, dx_floor, header_width };
            spec_actions(chrome, flap, event).flap_box_width_request matches Some(w) ==> 0 < w
                < header_width - HEADER_RESERVED_WIDTH
                && w == resize_width(flap, box_width, dx_ceil, dx_floor)
        }),
{
}

/// Once the flap folds or unfolds during a resize drag, the drag stops
/// resizing: the update changes nothing that is remembered and asks for no
/// width, so every later update of the same drag does the same until a new
/// drag begins.
pub proof fn lemma_fold_change_stops_resize(
    chrome: WindowChrome,
    flap: FlapView,
    box_width: i32,
    dx_ceil: i32,
    dx_floor: i32,
    header_width: i32,
)
    requires
        chrome.prev_folded != flap.folded,
    ensures
        ({
            let event = ChromeEvent::ResizeUpdate { box_width, dx_ceil, dx_floor, header_width };
            &&& spec_next(chrome, flap, event) == chrome
            &&& spec_actions(chrome, flap, event).flap_box_width_request is None
        }),
{
}

/// The flap box sits on the side of the window edge the flap is attached to:
/// first when the flap is at the start edge, after the resizer otherwise.
pub proof fn lemma_flap_box_on_flap_side(chrome: WindowChrome, flap: FlapView)
    ensures
        spec_actions(chrome, flap, ChromeEvent::PositionChanged).resizer_order == Some(
            if flap.position == PackType::Start {
                ResizerOrder::FlapBoxFirst
            } else {
                ResizerOrder::ResizerFirst
            },
        ),
{
}

/// The application menu lives in the flap's header exactly while that header
/// shows the window's end title buttons.
pub proof fn lemma_appmenu_follows_title_buttons(chrome: WindowChrome, flap: FlapView, shown: bool)
    ensures
        spec_actions(chrome, flap, ChromeEvent::EndTitleButtonsChanged { shown }).appmenu_host
            == Some(
            if shown {
                MenuHost::FlapHeader
            } else {
                MenuHost::MainHeader
            },
        ),
{
}

/// Only a change of the reveal toggle on the unfolded flap, or an unfolding,
/// changes the remembered reveal; only the start of a resize drag changes the
/// remembered fold state.
pub proof fn lemma_memory_changes_only_on_its_events(
    chrome: WindowChrome,
    flap: FlapView,
    event: ChromeEvent,
)
    ensures
        spec_next(chrome, flap, event).expanded_revealed != chrome.expanded_revealed ==> (
        event is RevealToggled && !flap.folded) || (event is FoldedChanged && !flap.folded),
        spec_next(chrome, flap, event).prev_folded != chrome.prev_folded ==> event is ResizeBegin,
{
}

/// Switching the reveal toggle shows or hides the flap as chosen, whether
/// the flap is folded or not, and changes nothing else; on an unfolded flap
/// the choice, on or off, becomes the remembered reveal, while a folded flap
/// keeps the reveal remembered from before.
pub proof fn lemma_reveal_toggle_applies_choice(chrome: WindowChrome, flap: FlapView, active: bool)
    ensures
        ({
            let event = ChromeEvent::RevealToggled { active };
            let a = spec_actions(chrome, flap, event);
            let next = spec_next(chrome, flap, event);
            &&& a.reveal_flap == Some(active)
            &&& a.toggle_active is None
            &&& a.show_end_title_buttons is None
            &&& a.flap_box_width_request is None
            &&& a.resizer_order is None
            &&& a.appmenu_host is None
            &&& next.expanded_revealed == (if flap.folded {
                chrome.expanded_revealed
            } else {
                active
            })
            &&& next.prev_folded == chrome.prev_folded
        }),
{
}

/// When the flap folds, the toggle is switched off and nothing else changes.
/// When it unfolds, the end title buttons follow the flap's reveal if the
/// flap is at the end edge and are left alone otherwise, and the toggle is
/// switched on, and the reveal remembered, exactly when the flap was
/// remembered as revealed or is revealed now.
pub proof fn lemma_fold_change_outcome(chrome: WindowChrome, flap: FlapView)
    ensures
        ({
            let a = spec_actions(chrome, flap, ChromeEvent::FoldedChanged);
            let next = spec_next(chrome, flap, ChromeEvent::FoldedChanged);
            let revealed = chrome.expanded_revealed || flap.reveals_flap;
            &&& a.reveal_flap is None
            &&& a.flap_box_width_request is None
            &&& a.resizer_order is None
            &&& a.appmenu_host is None
            &&& next.prev_folded == chrome.prev_folded
            &&& flap.folded ==> {
                &&& a.toggle_active == Some(false)
                &&& a.show_end_title_buttons is None
                &&& next.expanded_revealed == chrome.expanded_revealed
            }
            &&& !flap.folded ==> {
                &&& (flap.position == PackType::End ==> a.show_end_title_buttons == Some(
                    flap.reveals_flap,
                ))
                &&& (flap.position != PackType::End ==> a.show_end_title_buttons is None)
                &&& (revealed ==> a.toggle_active == Some(true))
                &&& (!revealed ==> a.toggle_active is None)
                &&& next.expanded_revealed == revealed
            }
        }),
{
}

/// Showing or hiding the flap shows the end title buttons exactly when the
/// flap is unfolded at the end edge and shown, and changes nothing else.
pub proof fn lemma_reveal_change_outcome(chrome: WindowChrome, flap: FlapView)
    ensures
        ({
            let a = spec_actions(chrome, flap, ChromeEvent::RevealChanged);
            &&& a.show_end_title_buttons == Some(
                !flap.folded && flap.position == PackType::End && flap.reveals_flap,
            )
            &&& a.reveal_flap is None
            &&& a.toggle_active is None
            &&& a.flap_box_width_request is None
            &&& a.resizer_order is None
            &&& a.appmenu_host is None
            &&& spec_next(chrome, flap, ChromeEvent::RevealChanged) == chrome
        }),
{
}

/// Moving the flap shows the end title buttons exactly when the flap is now
/// unfolded at the end edge and remembered as revealed, puts the flap box
/// first exactly at the start edge, and changes nothing else.
pub proof fn lemma_position_change_outcome(chrome: WindowChrome, flap: FlapView)
    ensures
        ({
            let a = spec_actions(chrome, flap, ChromeEvent::PositionChanged);
            &&& a.show_end_title_buttons == Some(
                !flap.folded && flap.position == PackType::End && chrome.expanded_revealed,
            )
            &&& (a.resizer_order == Some(ResizerOrder::FlapBoxFirst) <==> flap.position
                == PackType::Start)
            &&& a.resizer_order is Some
            &&& a.reveal_flap is None
            &&& a.toggle_active is None
            &&& a.flap_box_width_request is None
            &&& a.appmenu_host is None
            &&& spec_next(chrome, flap, ChromeEvent::PositionChanged) == chrome
        }),
{
}

/// Beginning a resize drag records whether the flap is folded, and does
/// nothing else.
pub proof fn lemma_resize_begin_outcome(chrome: WindowChrome, flap: FlapView)
    ensures
        ({
            let a = spec_actions(chrome, flap, ChromeEvent::ResizeBegin);
            let next = spec_next(chrome, flap, ChromeEvent::ResizeBegin);
            &&& next.prev_folded == flap.folded
            &&& next.expanded_revealed == chrome.expanded_revealed
            &&& a.reveal_flap is None
            &&& a.toggle_active is None
            &&& a.show_end_title_buttons is None
            &&& a.flap_box_width_request is None
            &&& a.resizer_order is None
            &&& a.appmenu_host is None
        }),
{
}

/// While the flap keeps the fold state the drag began with, a resize drag at
/// the start edge asks for the box's width plus the offset rounded up, and
/// anywhere else for the width minus the offset rounded down, whichever way
/// that moves the width; the width is requested exactly when it is positive
/// and below the header's width less its reserve. When the fold state has
/// changed, no width is requested and only a folded flap switches the toggle
/// on. Either way nothing is remembered anew and nothing else changes.
pub proof fn lemma_resize_update_outcome(
    chrome: WindowChrome,
    flap: FlapView,
    box_width: i32,
    dx_ceil: i32,
    dx_floor: i32,
    header_width: i32,
)
    ensures
        ({
            let event = ChromeEvent::ResizeUpdate { box_width, dx_ceil, dx_floor, header_width };
            let a = spec_actions(chrome, flap, event);
            let w: int = if flap.position == PackType::Start {
                box_width + dx_ceil
            } else {
                box_width - dx_floor
            };
            &&& spec_next(chrome, flap, event) == chrome
            &&& a.reveal_flap is None
            &&& a.show_end_title_buttons is None
            &&& a.resizer_order is None
            &&& a.appmenu_host is None
            &&& chrome.prev_folded == flap.folded ==> {
                &&& (0 < w && w < header_width - HEADER_RESERVED_WIDTH ==> a.flap_box_width_request
                    == Some(w as i32))
                &&& (!(0 < w && w < header_width - HEADER_RESERVED_WIDTH)
                    ==> a.flap_box_width_request is None)
                &&& a.toggle_active is None
            }
            &&& chrome.prev_folded != flap.folded ==> {
                &&& a.flap_box_width_request is None
                &&& (flap.folded ==> a.toggle_active == Some(true))
                &&& (!flap.folded ==> a.toggle_active is None)
            }
        }),
{
}

/// A change of the end title buttons moves the application menu into the
/// flap's header when they are shown and back into the main header when
/// they are hidden, and changes nothing else.
pub proof fn lemma_title_buttons_change_outcome(chrome: WindowChrome, flap: FlapView, shown: bool)
    ensures
        ({
            let event = ChromeEvent::EndTitleButtonsChanged { shown };
            let a = spec_actions(chrome, flap, event);
            &&& (shown ==> a.appmenu_host == Some(MenuHost::FlapHeader))
            &&& (!shown ==> a.appmenu_host == Some(MenuHost::MainHeader))
            &&& a.reveal_flap is None
            &&& a.toggle_active is None
            &&& a.show_end_title_buttons is None
            &&& a.flap_box_width_request is None
            &&& a.resizer_order is None
            &&& spec_next(chrome, flap, event) == chrome
        }),
{
}

/// Hiding the unfolded flap is remembered: after folding and unfolding again
/// without a new choice, the toggle is not switched back on unless the flap
/// itself comes back revealed.
pub proof fn lemma_hidden_flap_stays_hidden(
    chrome: WindowChrome,
    unfolded: FlapView,
    folded: FlapView,
    reopened: FlapView,
)
    requires
        !unfolded.folded,
        folded.folded,
        !reopened.folded,
        !reopened.reveals_flap,
    ensures
        ({
            let c1 = spec_next(chrome, unfolded, ChromeEvent::RevealToggled { active: false });
            let c2 = spec_next(c1, folded, ChromeEvent::FoldedChanged);
            &&& !c1.expanded_revealed
            &&& spec_actions(c2, reopened, ChromeEvent::FoldedChanged).toggle_active is None
            &&& !spec_next(c2, reopened, ChromeEvent::FoldedChanged).expanded_revealed
        }),
{
}


/// Only a resize update on a flap whose fold state matches the drag's start
/// can leave `i32`; every other event fits, and such an update fits exactly
/// when the requested width, and the header's width less its reserve where
/// that is compared, are `i32` values.
pub proof fn lemma_event_fits_exactly(chrome: WindowChrome, flap: FlapView, event: ChromeEvent)
    ensures
        !(event is ResizeUpdate) ==> event_fits(chrome, flap, event),
        event matches ChromeEvent::ResizeUpdate { box_width, dx_ceil, dx_floor, header_width }
            ==> (event_fits(chrome, flap, event) <==> (chrome.prev_folded != flap.folded || {
            let w: int = if flap.position == PackType::Start {
                box_width + dx_ceil
            } else {
                box_width - dx_floor
            };
            &&& i32::MIN <= w <= i32::MAX
            &&& (w > 0 ==> header_width - HEADER_RESERVED_WIDTH >= i32::MIN)
        })),
{
}

} // verus!
