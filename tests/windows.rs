use sweesh::{
    DisplaySize, LogicalPoint, Request, ShowPlan, WindowError, WindowKind, WindowRegistry,
    WindowState, floating_position, request_microphone_permission, voice_popup_position,
};

fn full_hd() -> DisplaySize {
    DisplaySize { width: 1920, height: 1080 }
}

fn show_window(reg: &mut WindowRegistry, kind: WindowKind, d: Option<DisplaySize>) -> Result<ShowPlan, WindowError> {
    let plan = reg.plan_show(kind, d)?;
    if plan.create {
        reg.record_created(kind);
    }
    reg.record_shown(kind);
    Ok(plan)
}

fn hide_window(reg: &mut WindowRegistry, kind: WindowKind) -> bool {
    let due = reg.plan_hide(kind);
    reg.record_hidden(kind);
    due
}

#[test]
fn microphone_permission_is_granted() {
    assert_eq!(request_microphone_permission(), Ok(true));
}

#[test]
fn floating_position_centres_vertically() {
    let p = floating_position(full_hd());
    assert_eq!(p, LogicalPoint { twice_x: 3440, twice_y: 1016 });
    assert_eq!(p.twice_x as f64 / 2.0, 1720.0);
    assert_eq!(p.twice_y as f64 / 2.0, 508.0);
}

#[test]
fn floating_position_keeps_half_units() {
    let p = floating_position(DisplaySize { width: 1366, height: 767 });
    assert_eq!(p.twice_x as f64 / 2.0, 1166.0);
    assert_eq!(p.twice_y as f64 / 2.0, 351.5);
}

#[test]
fn voice_popup_position_near_bottom_right() {
    let p = voice_popup_position(full_hd());
    assert_eq!(p, LogicalPoint { twice_x: 3440, twice_y: 1960 });
    assert_eq!(p.twice_x as f64 / 2.0, 1720.0);
    assert_eq!(p.twice_y as f64 / 2.0, 980.0);
}

#[test]
fn positions_on_a_display_smaller_than_the_offsets() {
    let tiny = DisplaySize { width: 0, height: 0 };
    assert_eq!(floating_position(tiny), LogicalPoint { twice_x: -400, twice_y: -64 });
    assert_eq!(voice_popup_position(tiny), LogicalPoint { twice_x: -400, twice_y: -200 });
}

#[test]
fn positions_on_the_largest_display() {
    let huge = DisplaySize { width: u32::MAX, height: u32::MAX };
    let w = u32::MAX as i64;
    assert_eq!(floating_position(huge), LogicalPoint { twice_x: 2 * (w - 200), twice_y: w - 64 });
    assert_eq!(voice_popup_position(huge), LogicalPoint { twice_x: 2 * (w - 200), twice_y: 2 * (w - 100) });
}

#[test]
fn labels_round_trip() {
    assert_eq!(WindowKind::Floating.label(), "floating");
    assert_eq!(WindowKind::VoicePopup.label(), "voice-popup");
    assert_eq!(WindowKind::from_label("floating"), Some(WindowKind::Floating));
    assert_eq!(WindowKind::from_label("voice-popup"), Some(WindowKind::VoicePopup));
    assert_eq!(WindowKind::from_label("settings"), None);
    assert_eq!(WindowKind::from_label(""), None);
}

#[test]
fn voice_popup_descriptor_is_fixed() {
    let d = WindowKind::VoicePopup.descriptor().unwrap();
    assert_eq!(d.label, "voice-popup");
    assert_eq!(d.route, "/voice-popup");
    assert_eq!(d.title, "Sweesh Voice Widget");
    assert_eq!((d.width, d.height), (190, 64));
    assert!(!d.decorations && d.transparent && d.always_on_top && !d.resizable && d.skip_taskbar);
    assert!(WindowKind::Floating.descriptor().is_none());
    assert!(WindowKind::VoicePopup.created_on_demand());
    assert!(!WindowKind::Floating.created_on_demand());
}

#[test]
fn show_hide_show_leaves_window_visible_and_focused() {
    for (declared, kind) in [(true, WindowKind::Floating), (false, WindowKind::VoicePopup)] {
        let mut reg = WindowRegistry::new(declared);
        show_window(&mut reg, kind, Some(full_hd())).unwrap();
        assert!(hide_window(&mut reg, kind));
        assert_eq!(reg.state(kind), WindowState::Hidden);
        assert_eq!(reg.focused, None);
        let again = show_window(&mut reg, kind, Some(full_hd())).unwrap();
        assert!(!again.create);
        assert_eq!(reg.state(kind), WindowState::Visible);
        assert_eq!(reg.focused, Some(kind));
    }
}

#[test]
fn hiding_a_never_shown_popup_is_a_no_op() {
    let mut reg = WindowRegistry::new(false);
    assert!(!hide_window(&mut reg, WindowKind::VoicePopup));
    assert_eq!(reg.state(WindowKind::VoicePopup), WindowState::Absent);
    assert_eq!(reg.focused, None);
}

#[test]
fn showing_an_undeclared_floating_widget_is_not_found() {
    let reg = WindowRegistry::new(false);
    match reg.plan_show(WindowKind::Floating, Some(full_hd())) {
        Err(e) => {
            assert!(matches!(e, WindowError::NotFound(WindowKind::Floating)));
            assert_eq!(e.message(), "floating window not found");
        }
        Ok(_) => panic!("an undeclared floating widget was shown"),
    }
}

#[test]
fn showing_a_declared_floating_widget_places_it() {
    let reg = WindowRegistry::new(true);
    let plan = reg.plan_show(WindowKind::Floating, Some(full_hd())).unwrap();
    assert!(!plan.create);
    assert_eq!(plan.position, Some(LogicalPoint { twice_x: 3440, twice_y: 1016 }));
}

#[test]
fn first_popup_show_creates_and_places_it() {
    let reg = WindowRegistry::new(false);
    let plan = reg.plan_show(WindowKind::VoicePopup, Some(full_hd())).unwrap();
    assert!(plan.create);
    assert_eq!(plan.position, Some(LogicalPoint { twice_x: 3440, twice_y: 1960 }));
}

#[test]
fn unknown_display_skips_positioning() {
    let reg = WindowRegistry::new(false);
    let plan = reg.plan_show(WindowKind::VoicePopup, None).unwrap();
    assert!(plan.create);
    assert_eq!(plan.position, None);
}

#[test]
fn repeated_popup_shows_create_one_window() {
    let mut reg = WindowRegistry::new(false);
    let mut created = 0;
    for _ in 0..5 {
        if show_window(&mut reg, WindowKind::VoicePopup, Some(full_hd())).unwrap().create {
            created += 1;
        }
    }
    assert_eq!(created, 1);
    assert_eq!(reg.state(WindowKind::VoicePopup), WindowState::Visible);
}

#[test]
fn hiding_the_unfocused_window_keeps_focus() {
    let mut reg = WindowRegistry::new(true);
    show_window(&mut reg, WindowKind::Floating, None).unwrap();
    show_window(&mut reg, WindowKind::VoicePopup, None).unwrap();
    assert!(hide_window(&mut reg, WindowKind::Floating));
    assert_eq!(reg.focused, Some(WindowKind::VoicePopup));
    assert_eq!(reg.state(WindowKind::Floating), WindowState::Hidden);
    assert_eq!(reg.state(WindowKind::VoicePopup), WindowState::Visible);
}

#[test]
fn host_error_message_is_kept() {
    let e = WindowError::Host("display lost".to_string());
    assert_eq!(e.message(), "display lost");
    assert_eq!(WindowError::NotFound(WindowKind::VoicePopup).message(), "voice-popup window not found");
}

#[test]
fn created_window_is_never_absent_again() {
    let mut reg = WindowRegistry::new(false);
    reg.record_created(WindowKind::VoicePopup);
    assert_eq!(reg.state(WindowKind::VoicePopup), WindowState::Hidden);
    reg.record_created(WindowKind::VoicePopup);
    assert_eq!(reg.state(WindowKind::VoicePopup), WindowState::Hidden);
    hide_window(&mut reg, WindowKind::VoicePopup);
    assert_ne!(reg.state(WindowKind::VoicePopup), WindowState::Absent);
    assert_eq!(Request::Show(WindowKind::Floating), Request::Show(WindowKind::Floating));
}
