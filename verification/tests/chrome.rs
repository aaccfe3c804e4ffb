use rnote_logic::appwindow::chrome::{
    ChromeActions, ChromeEvent, FlapView, MenuHost, PackType, ResizerOrder, WindowChrome,
    HEADER_RESERVED_WIDTH,
};

fn flap(folded: bool, reveals_flap: bool, position: PackType) -> FlapView {
    FlapView { folded, reveals_flap, position }
}

#[test]
fn new_chrome_remembers_flap() {
    let c = WindowChrome::new(flap(true, false, PackType::Start));
    assert_eq!(c, WindowChrome { expanded_revealed: false, prev_folded: true });
}

#[test]
fn toggle_reveals_and_remembers_when_unfolded() {
    let mut c = WindowChrome { expanded_revealed: false, prev_folded: false };
    let a = c.handle(flap(false, false, PackType::Start), ChromeEvent::RevealToggled { active: true });
    assert_eq!(a, ChromeActions { reveal_flap: Some(true), ..ChromeActions::none() });
    assert!(c.expanded_revealed);
}

#[test]
fn toggle_while_folded_keeps_memory() {
    let mut c = WindowChrome { expanded_revealed: true, prev_folded: false };
    let a = c.handle(flap(true, true, PackType::Start), ChromeEvent::RevealToggled { active: false });
    assert_eq!(a.reveal_flap, Some(false));
    assert!(c.expanded_revealed);
}

#[test]
fn folding_switches_toggle_off() {
    let mut c = WindowChrome { expanded_revealed: true, prev_folded: false };
    let a = c.handle(flap(true, true, PackType::End), ChromeEvent::FoldedChanged);
    assert_eq!(a, ChromeActions { toggle_active: Some(false), ..ChromeActions::none() });
    assert_eq!(c, WindowChrome { expanded_revealed: true, prev_folded: false });
}

#[test]
fn unfolding_at_end_restores_reveal_and_buttons() {
    let mut c = WindowChrome { expanded_revealed: true, prev_folded: false };
    let a = c.handle(flap(false, false, PackType::End), ChromeEvent::FoldedChanged);
    assert_eq!(a.show_end_title_buttons, Some(false));
    assert_eq!(a.toggle_active, Some(true));
    assert!(c.expanded_revealed);
}

#[test]
fn unfolding_at_start_without_reveal_does_nothing() {
    let mut c = WindowChrome { expanded_revealed: false, prev_folded: false };
    let a = c.handle(flap(false, false, PackType::Start), ChromeEvent::FoldedChanged);
    assert_eq!(a, ChromeActions::none());
    assert!(!c.expanded_revealed);
}

#[test]
fn unfolding_revealed_flap_is_remembered() {
    let mut c = WindowChrome { expanded_revealed: false, prev_folded: false };
    let a = c.handle(flap(false, true, PackType::Start), ChromeEvent::FoldedChanged);
    assert_eq!(a.toggle_active, Some(true));
    assert_eq!(a.show_end_title_buttons, None);
    assert!(c.expanded_revealed);
}

#[test]
fn reveal_change_sets_end_buttons() {
    let mut c = WindowChrome { expanded_revealed: false, prev_folded: false };
    let cases = [
        (flap(false, true, PackType::End), true),
        (flap(false, false, PackType::End), false),
        (flap(true, true, PackType::End), false),
        (flap(false, true, PackType::Start), false),
        (flap(false, true, PackType::Unknown(7)), false),
    ];
    for (f, shown) in cases {
        let a = c.handle(f, ChromeEvent::RevealChanged);
        assert_eq!(a, ChromeActions { show_end_title_buttons: Some(shown), ..ChromeActions::none() });
    }
}

#[test]
fn position_change_reorders_and_sets_buttons() {
    let mut c = WindowChrome { expanded_revealed: true, prev_folded: false };
    let a = c.handle(flap(false, false, PackType::End), ChromeEvent::PositionChanged);
    assert_eq!(a.show_end_title_buttons, Some(true));
    assert_eq!(a.resizer_order, Some(ResizerOrder::ResizerFirst));
    let a = c.handle(flap(false, false, PackType::Start), ChromeEvent::PositionChanged);
    assert_eq!(a.show_end_title_buttons, Some(false));
    assert_eq!(a.resizer_order, Some(ResizerOrder::FlapBoxFirst));
    let mut c = WindowChrome { expanded_revealed: false, prev_folded: false };
    let a = c.handle(flap(false, true, PackType::End), ChromeEvent::PositionChanged);
    assert_eq!(a.show_end_title_buttons, Some(false));
}

#[test]
fn resize_grows_at_start_and_shrinks_at_end() {
    let mut c = WindowChrome::new(flap(false, true, PackType::Start));
    assert_eq!(c.handle(flap(false, true, PackType::Start), ChromeEvent::ResizeBegin), ChromeActions::none());
    let update = ChromeEvent::ResizeUpdate { box_width: 300, dx_ceil: 13, dx_floor: 12, header_width: 1000 };
    let a = c.handle(flap(false, true, PackType::Start), update);
    assert_eq!(a, ChromeActions { flap_box_width_request: Some(313), ..ChromeActions::none() });
    let a = c.handle(flap(false, true, PackType::End), update);
    assert_eq!(a.flap_box_width_request, Some(288));
}

#[test]
fn resize_refuses_widths_outside_header() {
    let mut c = WindowChrome { expanded_revealed: true, prev_folded: false };
    let f = flap(false, true, PackType::Start);
    let too_wide = ChromeEvent::ResizeUpdate { box_width: 900, dx_ceil: 36, dx_floor: 35, header_width: 1000 };
    assert_eq!(c.handle(f, too_wide).flap_box_width_request, None);
    let just_fits = ChromeEvent::ResizeUpdate { box_width: 900, dx_ceil: 35, dx_floor: 34, header_width: 1000 };
    assert_eq!(c.handle(f, just_fits).flap_box_width_request, Some(1000 - HEADER_RESERVED_WIDTH - 1));
    let zero = ChromeEvent::ResizeUpdate { box_width: 10, dx_ceil: -10, dx_floor: -11, header_width: 1000 };
    assert_eq!(c.handle(f, zero).flap_box_width_request, None);
    let one = ChromeEvent::ResizeUpdate { box_width: 10, dx_ceil: -9, dx_floor: -10, header_width: 1000 };
    assert_eq!(c.handle(f, one).flap_box_width_request, Some(1));
}

#[test]
fn fold_change_during_drag_stops_resizing() {
    let mut c = WindowChrome { expanded_revealed: false, prev_folded: false };
    c.handle(flap(false, false, PackType::Start), ChromeEvent::ResizeBegin);
    let update = ChromeEvent::ResizeUpdate { box_width: 300, dx_ceil: 5, dx_floor: 4, header_width: 1000 };
    let a = c.handle(flap(true, false, PackType::Start), update);
    assert_eq!(a, ChromeActions { toggle_active: Some(true), ..ChromeActions::none() });
    let a = c.handle(flap(true, false, PackType::Start), update);
    assert_eq!(a.flap_box_width_request, None);
    assert!(!c.prev_folded);
    c.handle(flap(true, false, PackType::Start), ChromeEvent::ResizeBegin);
    assert!(c.prev_folded);
    let a = c.handle(flap(true, false, PackType::Start), update);
    assert_eq!(a.flap_box_width_request, Some(305));
}

#[test]
fn fold_change_to_unfolded_during_drag_does_nothing() {
    let mut c = WindowChrome { expanded_revealed: false, prev_folded: true };
    let update = ChromeEvent::ResizeUpdate { box_width: 300, dx_ceil: 5, dx_floor: 4, header_width: 1000 };
    assert_eq!(c.handle(flap(false, false, PackType::Start), update), ChromeActions::none());
}

#[test]
fn appmenu_follows_end_title_buttons() {
    let mut c = WindowChrome { expanded_revealed: false, prev_folded: false };
    let f = flap(false, false, PackType::End);
    assert_eq!(
        c.handle(f, ChromeEvent::EndTitleButtonsChanged { shown: true }),
        ChromeActions { appmenu_host: Some(MenuHost::FlapHeader), ..ChromeActions::none() }
    );
    assert_eq!(
        c.handle(f, ChromeEvent::EndTitleButtonsChanged { shown: false }).appmenu_host,
        Some(MenuHost::MainHeader)
    );
}

#[test]
fn reveal_survives_fold_cycle() {
    let mut c = WindowChrome::new(flap(false, false, PackType::Start));
    c.handle(flap(false, false, PackType::Start), ChromeEvent::RevealToggled { active: true });
    c.handle(flap(true, true, PackType::Start), ChromeEvent::FoldedChanged);
    c.handle(flap(true, true, PackType::Start), ChromeEvent::RevealToggled { active: false });
    let a = c.handle(flap(false, false, PackType::Start), ChromeEvent::FoldedChanged);
    assert_eq!(a.toggle_active, Some(true));
}

#[test]
fn can_handle_refuses_overflowing_drags() {
    let c = WindowChrome { expanded_revealed: false, prev_folded: false };
    let start = flap(false, false, PackType::Start);
    let end = flap(false, false, PackType::End);
    let over = ChromeEvent::ResizeUpdate { box_width: i32::MAX, dx_ceil: 1, dx_floor: 0, header_width: 100 };
    assert!(!c.can_handle(start, over));
    assert!(c.can_handle(end, over));
    let under = ChromeEvent::ResizeUpdate { box_width: i32::MIN, dx_ceil: 0, dx_floor: 1, header_width: 100 };
    assert!(!c.can_handle(end, under));
    let header = ChromeEvent::ResizeUpdate { box_width: 10, dx_ceil: 0, dx_floor: 0, header_width: i32::MIN };
    assert!(!c.can_handle(start, header));
    let header_unused = ChromeEvent::ResizeUpdate { box_width: 0, dx_ceil: 0, dx_floor: 0, header_width: i32::MIN };
    assert!(c.can_handle(start, header_unused));
    assert!(c.can_handle(flap(true, false, PackType::Start), over));
    assert!(c.can_handle(start, ChromeEvent::FoldedChanged));
}
