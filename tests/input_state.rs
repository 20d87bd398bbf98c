use canvas_input::{Backend, InputWarning, Key, KeyCode, MouseButton, Pointer, Touch, Vec2};

fn p(x: i32, y: i32) -> Vec2 {
    Vec2::new(x, y)
}

fn t(id: i32, x: i32, y: i32) -> Touch {
    Touch { identifier: id, position: p(x, y) }
}

fn all_up(ptr: &Pointer) -> bool {
    !ptr.primary_down && !ptr.auxiliary_down && !ptr.secondary_down && !ptr.fourth_down
        && !ptr.fifth_down
}

#[test]
fn vec2_new_keeps_coordinates() {
    let v = Vec2::new(-3, 7);
    assert_eq!(v.x, -3);
    assert_eq!(v.y, 7);
    assert_eq!(Vec2::zero(), Vec2::new(0, 0));
}

#[test]
fn new_backend_is_empty() {
    let b = Backend::new();
    assert!(all_up(&b.pointer));
    assert_eq!(b.pointer.pos, p(0, 0));
    assert!(!b.keyboard.w && !b.keyboard.a && !b.keyboard.s && !b.keyboard.d);
    assert!(b.touches.active_touches.is_empty());
}

#[test]
fn button_codes_map_to_buttons() {
    assert_eq!(MouseButton::from_code(0), MouseButton::Primary);
    assert_eq!(MouseButton::from_code(1), MouseButton::Auxiliary);
    assert_eq!(MouseButton::from_code(2), MouseButton::Secondary);
    assert_eq!(MouseButton::from_code(3), MouseButton::Fourth);
    assert_eq!(MouseButton::from_code(4), MouseButton::Fifth);
    assert_eq!(MouseButton::from_code(5), MouseButton::Unknown(5));
    assert_eq!(MouseButton::from_code(-1), MouseButton::Unknown(-1));
}

#[test]
fn press_then_release_each_button() {
    for b in 0..5i16 {
        let mut st = Backend::new();
        assert_eq!(st.mouse_down(b, p(12, 34)), None);
        assert!(!all_up(&st.pointer));
        assert_eq!(st.mouse_up(b, p(12, 34)), None);
        assert!(all_up(&st.pointer));
        assert_eq!(st.pointer.pos, p(12, 34));
    }
}

#[test]
fn each_button_sets_its_own_flag() {
    let mut st = Backend::new();
    st.mouse_down(2, p(1, 1));
    assert!(st.pointer.secondary_down);
    assert!(!st.pointer.primary_down && !st.pointer.auxiliary_down);
    assert!(!st.pointer.fourth_down && !st.pointer.fifth_down);
    st.mouse_down(4, p(2, 2));
    assert!(st.pointer.secondary_down && st.pointer.fifth_down);
    st.mouse_up(2, p(3, 3));
    assert!(!st.pointer.secondary_down && st.pointer.fifth_down);
    assert_eq!(st.pointer.pos, p(3, 3));
}

#[test]
fn unknown_button_only_moves_pointer() {
    let mut st = Backend::new();
    st.mouse_down(0, p(1, 2));
    let before = st.pointer;
    assert_eq!(st.mouse_down(7, p(40, 50)), Some(InputWarning::UnknownButton(7)));
    assert_eq!(st.pointer.primary_down, before.primary_down);
    assert_eq!(st.pointer.auxiliary_down, before.auxiliary_down);
    assert_eq!(st.pointer.secondary_down, before.secondary_down);
    assert_eq!(st.pointer.fourth_down, before.fourth_down);
    assert_eq!(st.pointer.fifth_down, before.fifth_down);
    assert_eq!(st.pointer.pos, p(40, 50));
    assert_eq!(st.mouse_up(-2, p(41, 51)), Some(InputWarning::UnknownButton(-2)));
    assert!(st.pointer.primary_down);
    assert_eq!(st.pointer.pos, p(41, 51));
}

#[test]
fn pointer_move_keeps_flags() {
    let mut st = Backend::new();
    st.mouse_down(1, p(0, 0));
    st.mouse_move(p(-5, 9));
    assert!(st.pointer.auxiliary_down);
    assert_eq!(st.pointer.pos, p(-5, 9));
}

#[test]
fn key_codes_parse() {
    assert!(matches!(KeyCode::parse("KeyW"), KeyCode::Known(Key::W)));
    assert!(matches!(KeyCode::parse("KeyA"), KeyCode::Known(Key::A)));
    assert!(matches!(KeyCode::parse("KeyS"), KeyCode::Known(Key::S)));
    assert!(matches!(KeyCode::parse("KeyD"), KeyCode::Known(Key::D)));
    match KeyCode::parse("KeyQ") {
        KeyCode::Unknown(s) => assert_eq!(s, "KeyQ"),
        other => panic!("unexpected {:?}", other),
    }
    assert!(matches!(KeyCode::parse("keyw"), KeyCode::Unknown(_)));
    assert!(matches!(KeyCode::parse(""), KeyCode::Unknown(_)));
    assert!(matches!(KeyCode::parse("KeyWW"), KeyCode::Unknown(_)));
}

#[test]
fn key_down_then_up_clears_flag() {
    for code in ["KeyW", "KeyA", "KeyS", "KeyD"] {
        let mut st = Backend::new();
        assert_eq!(st.key_down(code), None);
        let kb = st.keyboard;
        assert!(kb.w || kb.a || kb.s || kb.d);
        assert_eq!(st.key_up(code), None);
        assert!(!st.keyboard.w && !st.keyboard.a && !st.keyboard.s && !st.keyboard.d);
    }
}

#[test]
fn second_key_down_is_idempotent() {
    let mut st = Backend::new();
    st.key_down("KeyA");
    let once = st.keyboard;
    st.key_down("KeyA");
    assert_eq!(st.keyboard, once);
    assert!(st.keyboard.a);
    st.key_up("KeyA");
    assert!(!st.keyboard.a);
}

#[test]
fn unknown_key_changes_nothing() {
    let mut st = Backend::new();
    st.key_down("KeyS");
    let before = st.keyboard;
    assert_eq!(st.key_down("Space"), Some(InputWarning::UnknownKey));
    assert_eq!(st.key_up("ArrowUp"), Some(InputWarning::UnknownKey));
    assert_eq!(st.keyboard, before);
}

#[test]
fn touch_lifecycle() {
    let mut st = Backend::new();
    st.touch_start(&[t(1, 5, 5)]);
    assert_eq!(st.touches.active_touches, vec![t(1, 5, 5)]);
    assert!(st.touch_move(&[t(1, 9, 9)]).is_empty());
    assert_eq!(st.touches.active_touches, vec![t(1, 9, 9)]);
    st.touch_end_or_cancel(&[t(1, 0, 0)]);
    assert!(st.touches.active_touches.is_empty());
}

#[test]
fn touch_move_unknown_identifier_is_reported() {
    let mut st = Backend::new();
    st.touch_start(&[t(1, 5, 5)]);
    let w = st.touch_move(&[t(2, 7, 7)]);
    assert_eq!(w, vec![InputWarning::UnknownTouch(2)]);
    assert_eq!(st.touches.active_touches, vec![t(1, 5, 5)]);
}

#[test]
fn touch_move_batch_goes_on_past_unknown() {
    let mut st = Backend::new();
    st.touch_start(&[t(1, 0, 0), t(2, 0, 0)]);
    let w = st.touch_move(&[t(9, 1, 1), t(2, 3, 4), t(8, 1, 1), t(1, 6, 6)]);
    assert_eq!(w, vec![InputWarning::UnknownTouch(9), InputWarning::UnknownTouch(8)]);
    assert_eq!(st.touches.active_touches, vec![t(1, 6, 6), t(2, 3, 4)]);
}

#[test]
fn touch_start_keeps_duplicates_and_move_updates_first() {
    let mut st = Backend::new();
    st.touch_start(&[t(3, 1, 1)]);
    st.touch_start(&[t(3, 2, 2), t(4, 0, 0)]);
    assert_eq!(st.touches.active_touches, vec![t(3, 1, 1), t(3, 2, 2), t(4, 0, 0)]);
    st.touch_move(&[t(3, 8, 8)]);
    assert_eq!(st.touches.active_touches, vec![t(3, 8, 8), t(3, 2, 2), t(4, 0, 0)]);
    st.touch_end_or_cancel(&[t(3, 0, 0)]);
    assert_eq!(st.touches.active_touches, vec![t(4, 0, 0)]);
}

#[test]
fn touch_end_ignores_inactive_identifiers() {
    let mut st = Backend::new();
    st.touch_start(&[t(1, 1, 1), t(2, 2, 2), t(3, 3, 3)]);
    st.touch_end_or_cancel(&[t(7, 0, 0), t(1, 0, 0), t(3, 0, 0)]);
    assert_eq!(st.touches.active_touches, vec![t(2, 2, 2)]);
    st.touch_end_or_cancel(&[t(1, 0, 0)]);
    assert_eq!(st.touches.active_touches, vec![t(2, 2, 2)]);
    st.touch_end_or_cancel(&[]);
    assert_eq!(st.touches.active_touches, vec![t(2, 2, 2)]);
}
