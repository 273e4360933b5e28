use ui_toolkit_demo::store::Rgba;
use ui_toolkit_demo::store::SelectableOptions;
use ui_toolkit_demo::store::UIToolkitDemo;
use ui_toolkit_demo::sync::apply_theme;
use ui_toolkit_demo::sync::frame_pass;
use ui_toolkit_demo::sync::FrameInput;
use ui_toolkit_demo::sync::Theme;

fn idle_input() -> FrameInput {
    FrameInput {
        dark_clicked: false,
        light_clicked: false,
        text_edit: None,
        slider_drag: None,
        drag_edit: None,
        progress_hovered: false,
        color_pick: None,
        checkbox_clicked: false,
        radio_pick: None,
        label_pick: None,
        combo_pick: None,
    }
}

#[test]
fn idle_pass_changes_nothing_but_animation_flag() {
    let mut s = UIToolkitDemo::new();
    let out = frame_pass(&mut s, idle_input());
    assert_eq!(s.read_boolean(), false);
    assert_eq!(s.read_radio(), SelectableOptions::First);
    assert_eq!(s.read_scalar(), 42000);
    assert_eq!(s.read_text().as_str(), "");
    assert_eq!(s.read_animate(), false);
    assert_eq!(out.theme_request, None);
    assert_eq!(out.slider_shown, 42000);
    assert_eq!(out.drag_shown, 42000);
}

#[test]
fn slider_drag_updates_editor_and_progress_same_frame() {
    let mut s = UIToolkitDemo::new();
    assert_eq!(s.read_scalar(), 42000);
    let mut input = idle_input();
    input.slider_drag = Some(180000);
    let out = frame_pass(&mut s, input);
    assert_eq!(s.read_scalar(), 180000);
    assert_eq!(out.slider_shown, 180000);
    assert_eq!(out.drag_shown, 180000);
    assert_eq!(out.fraction_shown.num, 180000);
    assert_eq!(out.fraction_shown.num * 2, out.fraction_shown.den);
}

#[test]
fn both_scalar_editors_last_writer_wins() {
    let mut s = UIToolkitDemo::new();
    let mut input = idle_input();
    input.slider_drag = Some(100000);
    input.drag_edit = Some(200000);
    let out = frame_pass(&mut s, input);
    assert_eq!(out.slider_shown, 100000);
    assert_eq!(out.drag_shown, 200000);
    assert_eq!(s.read_scalar(), 200000);
    assert_eq!(out.fraction_shown.num, 200000);
}

#[test]
fn out_of_domain_edits_are_clamped_in_the_pass() {
    let mut s = UIToolkitDemo::new();
    let mut input = idle_input();
    input.slider_drag = Some(-10000);
    frame_pass(&mut s, input);
    assert_eq!(s.read_scalar(), 0);
    let mut input = idle_input();
    input.drag_edit = Some(400000);
    frame_pass(&mut s, input);
    assert_eq!(s.read_scalar(), 360000);
}

#[test]
fn dropdown_pick_settles_all_choice_groups() {
    let mut s = UIToolkitDemo::new();
    assert_eq!(s.read_radio(), SelectableOptions::First);
    let mut input = idle_input();
    input.combo_pick = Some(SelectableOptions::Second);
    let out = frame_pass(&mut s, input);
    // The dropdown stands last, so within this frame the two earlier groups
    // still showed the pre-frame choice.
    assert_eq!(out.radio_shown, SelectableOptions::First);
    assert_eq!(out.label_shown, SelectableOptions::First);
    assert_eq!(out.combo_shown, SelectableOptions::Second);
    // After the pass every group reports the committed choice.
    assert_eq!(s.read_radio(), SelectableOptions::Second);
    assert!(s.is_selected(SelectableOptions::Second));
    let out = frame_pass(&mut s, idle_input());
    assert_eq!(out.radio_shown, SelectableOptions::Second);
    assert_eq!(out.label_shown, SelectableOptions::Second);
    assert_eq!(out.combo_shown, SelectableOptions::Second);
}

#[test]
fn earlier_group_write_is_seen_by_later_groups_only() {
    let mut s = UIToolkitDemo::new();
    let mut input = idle_input();
    input.radio_pick = Some(SelectableOptions::Third);
    input.combo_pick = Some(SelectableOptions::Second);
    let out = frame_pass(&mut s, input);
    assert_eq!(out.radio_shown, SelectableOptions::Third);
    assert_eq!(out.label_shown, SelectableOptions::Third);
    assert_eq!(out.combo_shown, SelectableOptions::Second);
    assert_eq!(s.read_radio(), SelectableOptions::Second);
}

#[test]
fn checkbox_click_toggles_and_twice_restores() {
    let mut s = UIToolkitDemo::new();
    let before = s.read_boolean();
    let mut input = idle_input();
    input.checkbox_clicked = true;
    frame_pass(&mut s, input);
    assert_eq!(s.read_boolean(), !before);
    let mut input = idle_input();
    input.checkbox_clicked = true;
    frame_pass(&mut s, input);
    assert_eq!(s.read_boolean(), before);
}

#[test]
fn hover_animates_starting_next_frame() {
    let mut s = UIToolkitDemo::new();
    s.write_animate(false);
    // Frame N: the user hovers the progress display. The display still
    // rendered by the pre-frame flag, but the flag is true at the end of N.
    let mut input = idle_input();
    input.progress_hovered = true;
    let out_n = frame_pass(&mut s, input);
    assert_eq!(out_n.progress_animated, false);
    assert_eq!(s.read_animate(), true);
    // Frame N+1 begins with the flag set, so the motion variant renders.
    let out_next = frame_pass(&mut s, idle_input());
    assert_eq!(out_next.progress_animated, true);
    assert_eq!(s.read_animate(), false);
}

#[test]
fn text_edit_commits_verbatim() {
    let mut s = UIToolkitDemo::new();
    let mut input = idle_input();
    input.text_edit = Some(String::from("write something here"));
    frame_pass(&mut s, input);
    assert_eq!(s.read_text().as_str(), "write something here");
}

#[test]
fn color_pick_commits_verbatim() {
    let mut s = UIToolkitDemo::new();
    let mut input = idle_input();
    input.color_pick = Some(Rgba { r: 10, g: 20, b: 30, a: 40 });
    frame_pass(&mut s, input);
    assert_eq!(s.read_color(), Rgba { r: 10, g: 20, b: 30, a: 40 });
}

#[test]
fn theme_request_follows_buttons() {
    let mut s = UIToolkitDemo::new();
    let mut input = idle_input();
    input.dark_clicked = true;
    let out = frame_pass(&mut s, input);
    assert_eq!(out.theme_request, Some(Theme::Dark));
    let mut input = idle_input();
    input.light_clicked = true;
    let out = frame_pass(&mut s, input);
    assert_eq!(out.theme_request, Some(Theme::Light));
    // Both buttons in one frame: the later one in presentation order wins.
    let mut input = idle_input();
    input.dark_clicked = true;
    input.light_clicked = true;
    let out = frame_pass(&mut s, input);
    assert_eq!(out.theme_request, Some(Theme::Light));
}

#[test]
fn theme_switch_is_idempotent() {
    let once = apply_theme(Theme::Light, Some(Theme::Dark));
    let twice = apply_theme(once, Some(Theme::Dark));
    assert_eq!(once, Theme::Dark);
    assert_eq!(twice, once);
    assert_eq!(apply_theme(Theme::Dark, None), Theme::Dark);
}
