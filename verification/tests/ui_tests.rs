use fpui::ui::{
    advanced_layout, check_option_layout, next_font_family, prefers_dark, color_ref, event_action, fingerprint_row_layout,
    frame_edges, raw_message_action, section_frames, Control, RawAction, Rect, Theme, UiAction,
    UiEvent, ViewState, COLLAPSED_HEIGHT, EXPANDED_HEIGHT, INPUT_WIDTH, INPUT_X,
};

#[test]
fn dark_and_light_themes() {
    let d = Theme::current(true);
    assert!(d.dark);
    assert_eq!(d.background, [32, 32, 32]);
    assert_eq!(d.edit_background, [45, 45, 45]);
    assert_eq!(d.text, [230, 230, 230]);
    assert_eq!(d.border, [58, 58, 58]);
    let l = Theme::current(false);
    assert!(!l.dark);
    assert_eq!(l.background, [240, 240, 240]);
    assert_eq!(l.edit_background, [255, 255, 255]);
    assert_eq!(l.text, [0, 0, 0]);
    assert_eq!(l.border, [160, 160, 160]);
}

#[test]
fn color_ref_packs_red_green_blue() {
    assert_eq!(color_ref([0x01, 0x02, 0x03]), 0x030201);
    assert_eq!(color_ref([255, 255, 255]), 0x00FF_FFFF);
    assert_eq!(color_ref([0, 0, 0]), 0);
}

#[test]
fn layouts_for_hidden_and_shown_options() {
    let h = advanced_layout(false);
    assert_eq!((h.bottom_y, h.status_y, h.window_height), (252, 282, COLLAPSED_HEIGHT));
    assert_eq!(h.toggle_text, "显示非常用参数");
    let s = advanced_layout(true);
    assert_eq!((s.bottom_y, s.status_y, s.window_height), (492, 522, EXPANDED_HEIGHT));
    assert_eq!(s.toggle_text, "隐藏非常用参数");
}

#[test]
fn toggling_twice_restores_the_window() {
    let mut v = ViewState::new();
    assert!(!v.show_advanced);
    let first = v.toggle_advanced();
    assert!(v.show_advanced && first.shown);
    let second = v.toggle_advanced();
    assert!(!v.show_advanced);
    assert_eq!(second.bottom_y, advanced_layout(false).bottom_y);
    assert_eq!(second.toggle_text, advanced_layout(false).toggle_text);
}

#[test]
fn section_frames_follow_the_shown_sections() {
    assert_eq!(section_frames(false), vec![Rect { left: 12, top: 14, right: 602, bottom: 214 }]);
    let both = section_frames(true);
    assert_eq!(both.len(), 2);
    assert_eq!(both[1], Rect { left: 12, top: 252, right: 602, bottom: 480 });
}

#[test]
fn frame_edges_leave_a_title_gap() {
    let e = frame_edges(Rect { left: 12, top: 14, right: 602, bottom: 214 }, 20, 140);
    assert_eq!(
        e,
        vec![
            Rect { left: 12, top: 14, right: 20, bottom: 15 },
            Rect { left: 140, top: 14, right: 602, bottom: 15 },
            Rect { left: 12, top: 14, right: 13, bottom: 214 },
            Rect { left: 601, top: 14, right: 602, bottom: 214 },
            Rect { left: 12, top: 213, right: 602, bottom: 214 },
        ]
    );
}

#[test]
fn raw_messages_are_answered() {
    assert_eq!(raw_message_action(0x0014, true), RawAction::EraseBackground);
    assert_eq!(raw_message_action(0x0138, true), RawAction::ColorStatic);
    assert_eq!(raw_message_action(0x0135, true), RawAction::ColorStatic);
    assert_eq!(raw_message_action(0x0133, true), RawAction::ColorEdit);
    assert_eq!(raw_message_action(0x0134, true), RawAction::ColorEdit);
    assert_eq!(raw_message_action(0x0014, false), RawAction::Pass);
    assert_eq!(raw_message_action(0x001A, true), RawAction::RefreshTheme);
    assert_eq!(raw_message_action(0x031A, false), RawAction::RefreshTheme);
    assert_eq!(raw_message_action(0x0200, true), RawAction::Pass);
}

#[test]
fn events_map_to_actions() {
    assert_eq!(event_action(UiEvent::Close(Control::Window), false), UiAction::Quit);
    assert_eq!(event_action(UiEvent::Close(Control::Other), false), UiAction::Ignore);
    assert_eq!(event_action(UiEvent::Click(Control::AdvancedButton), false), UiAction::ToggleAdvanced);
    assert_eq!(event_action(UiEvent::Click(Control::RandomButton), true), UiAction::RandomizeFingerprint);
    assert_eq!(
        event_action(UiEvent::Click(Control::AutoSeedBox), true),
        UiAction::SetFingerprintEnabled(false)
    );
    assert_eq!(
        event_action(UiEvent::Click(Control::AutoSeedBox), false),
        UiAction::SetFingerprintEnabled(true)
    );
    assert_eq!(event_action(UiEvent::Click(Control::LaunchButton), false), UiAction::Launch);
    assert_eq!(event_action(UiEvent::KeyEnter, false), UiAction::Launch);
    assert_eq!(event_action(UiEvent::Click(Control::Window), false), UiAction::Ignore);
    assert_eq!(event_action(UiEvent::Other, true), UiAction::Ignore);
}

#[test]
fn check_option_places_label_beside_box() {
    let l = check_option_layout(192, 252, 91, 24);
    assert_eq!((l.box_x, l.box_y, l.box_width, l.box_height), (192, 252, 20, 24));
    assert_eq!((l.label_x, l.label_y, l.label_width, l.label_height), (215, 252, 68, 24));
}

#[test]
fn fingerprint_row_shares_the_input_column() {
    let r = fingerprint_row_layout(70, true);
    assert_eq!(r.input_x, INPUT_X);
    assert_eq!(r.input_width, 254);
    assert_eq!(r.button_x, 527);
    assert_eq!(r.button_x + r.button_width, INPUT_X + INPUT_WIDTH);
    assert!(!r.enabled);
    assert!(fingerprint_row_layout(70, false).enabled);
}

#[test]
fn dark_only_when_light_theme_reads_zero() {
    assert!(prefers_dark(true, 0));
    assert!(!prefers_dark(true, 1));
    assert!(!prefers_dark(false, 0));
    assert!(!prefers_dark(false, 1));
}

#[test]
fn font_families_in_order_of_preference() {
    assert_eq!(next_font_family(0), Some("Microsoft YaHei UI"));
    assert_eq!(next_font_family(1), Some("Microsoft YaHei"));
    assert_eq!(next_font_family(2), Some("Segoe UI"));
    assert_eq!(next_font_family(3), None);
}
