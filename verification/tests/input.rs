use hotreload::input::Input;

#[test]
fn activate_marks_held_and_freshly_pressed() {
    let mut input: Input<u32> = Input::new();
    input.activate(7);
    assert!(input.pressed(7));
    assert!(input.just_pressed(7));
    assert!(!input.just_released(7));
    assert!(!input.pressed(8));
}

#[test]
fn deactivate_marks_freshly_released_only() {
    let mut input: Input<u32> = Input::default();
    input.activate(7);
    input.update();
    input.deactivate(7);
    assert!(!input.pressed(7));
    assert!(!input.just_pressed(7));
    assert!(input.just_released(7));
}

#[test]
fn update_forgets_changes_and_keeps_held() {
    let mut input: Input<u32> = Input::new();
    input.activate(1);
    input.activate(2);
    input.deactivate(2);
    input.update();
    assert!(input.pressed(1));
    assert!(!input.pressed(2));
    assert!(!input.just_pressed(1));
    assert!(!input.just_released(2));
}
