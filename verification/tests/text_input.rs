use bevy_doodles::text_input::{
    display_text, handle_keyboard_input, handle_text_input_focus, is_valid_char,
    update_cursor_blink, update_text_input_display, EditKey, InputField, InputFocusState,
    Interaction, KeyEvent, TextInput, CURSOR_BLINK_PERIOD,
};

fn three_fields() -> Vec<TextInput> {
    vec![
        TextInput::new(InputField::MainRotationX, ""),
        TextInput::new(InputField::MainRotationY, ""),
        TextInput::new(InputField::MainRotationZ, ""),
    ]
}

fn press(key: EditKey) -> KeyEvent {
    KeyEvent { key, pressed: true, repeat: false }
}

fn typed(c: &str) -> KeyEvent {
    press(EditKey::Character(c.to_string()))
}

fn focus_on(entity: usize, focus: &mut InputFocusState, inputs: &mut Vec<TextInput>) {
    handle_text_input_focus(&vec![(Interaction::Pressed, entity)], focus, inputs);
}

fn focused_count(inputs: &Vec<TextInput>) -> usize {
    inputs.iter().filter(|input| input.is_focused).count()
}

#[test]
fn new_field_is_unfocused_with_hidden_cursor() {
    let input = TextInput::new(InputField::LeafTranslationZ, "-0.9");
    assert_eq!(input.field, InputField::LeafTranslationZ);
    assert_eq!(input.value, "-0.9");
    assert!(!input.is_focused);
    assert!(!input.cursor_visible);
    assert_eq!(input.cursor_timer, 0);
}

#[test]
fn focus_state_starts_empty() {
    assert_eq!(InputFocusState::default().focused_entity, None);
}

#[test]
fn filter_accepts_digits() {
    assert!(is_valid_char("0", ""));
    assert!(is_valid_char("9", "12.5"));
    assert!(is_valid_char("5", "-"));
    assert!(is_valid_char("42", "1"));
}

#[test]
fn filter_accepts_text_without_characters() {
    assert!(is_valid_char("", "12"));
}

#[test]
fn filter_accepts_minus_only_on_empty_text() {
    assert!(is_valid_char("-", ""));
    assert!(!is_valid_char("-", "-"));
    assert!(!is_valid_char("-", "1"));
    assert!(!is_valid_char("-", "."));
}

#[test]
fn filter_accepts_one_decimal_point() {
    assert!(is_valid_char(".", ""));
    assert!(is_valid_char(".", "15"));
    assert!(is_valid_char(".", "-"));
    assert!(!is_valid_char(".", "1.5"));
    assert!(!is_valid_char(".", "."));
}

#[test]
fn filter_rejects_everything_else() {
    assert!(!is_valid_char("a", ""));
    assert!(!is_valid_char("a", "12"));
    assert!(!is_valid_char("e", "1"));
    assert!(!is_valid_char("+", ""));
    assert!(!is_valid_char(" ", "1"));
    assert!(!is_valid_char("1a", ""));
    assert!(!is_valid_char("--", ""));
    assert!(!is_valid_char("-1", ""));
    assert!(!is_valid_char("..", ""));
    assert!(!is_valid_char("\u{0663}", ""));
}

#[test]
fn minus_is_appended_once() {
    let mut inputs = three_fields();
    let mut focus = InputFocusState::default();
    focus_on(0, &mut focus, &mut inputs);
    handle_keyboard_input(&vec![typed("-")], &mut focus, &mut inputs);
    assert_eq!(inputs[0].value, "-");
    handle_keyboard_input(&vec![typed("-")], &mut focus, &mut inputs);
    assert_eq!(inputs[0].value, "-");
}

#[test]
fn second_decimal_point_is_dropped() {
    let mut inputs = vec![TextInput::new(InputField::LeafTranslationX, "1.5")];
    let mut focus = InputFocusState::default();
    focus_on(0, &mut focus, &mut inputs);
    handle_keyboard_input(&vec![typed(".")], &mut focus, &mut inputs);
    assert_eq!(inputs[0].value, "1.5");
    handle_keyboard_input(&vec![typed("2")], &mut focus, &mut inputs);
    assert_eq!(inputs[0].value, "1.52");
}

#[test]
fn letter_is_dropped() {
    let mut inputs = vec![TextInput::new(InputField::LeafTranslationX, "7")];
    let mut focus = InputFocusState::default();
    focus_on(0, &mut focus, &mut inputs);
    handle_keyboard_input(&vec![typed("a")], &mut focus, &mut inputs);
    assert_eq!(inputs[0].value, "7");
}

#[test]
fn backspace_on_empty_text_changes_nothing() {
    let mut inputs = three_fields();
    let mut focus = InputFocusState::default();
    focus_on(1, &mut focus, &mut inputs);
    handle_keyboard_input(
        &vec![press(EditKey::Backspace), press(EditKey::Backspace)],
        &mut focus,
        &mut inputs,
    );
    assert_eq!(inputs[1].value, "");
    assert!(inputs[1].is_focused);
    assert_eq!(focus.focused_entity, Some(1));
}

#[test]
fn backspace_removes_one_whole_character() {
    let mut inputs = vec![TextInput::new(InputField::MainRotationX, "1\u{00e9}")];
    let mut focus = InputFocusState::default();
    focus_on(0, &mut focus, &mut inputs);
    handle_keyboard_input(&vec![press(EditKey::Backspace)], &mut focus, &mut inputs);
    assert_eq!(inputs[0].value, "1");
    handle_keyboard_input(&vec![press(EditKey::Backspace)], &mut focus, &mut inputs);
    assert_eq!(inputs[0].value, "");
}

#[test]
fn typing_then_backspace_then_moving_focus_keeps_text() {
    let mut inputs = three_fields();
    let mut focus = InputFocusState::default();
    handle_keyboard_input(&vec![typed("9")], &mut focus, &mut inputs);
    assert_eq!(inputs[0].value, "");
    focus_on(0, &mut focus, &mut inputs);
    handle_keyboard_input(&vec![typed("1"), typed("2"), typed("3")], &mut focus, &mut inputs);
    assert_eq!(inputs[0].value, "123");
    handle_keyboard_input(&vec![press(EditKey::Backspace)], &mut focus, &mut inputs);
    assert_eq!(inputs[0].value, "12");
    handle_keyboard_input(&vec![press(EditKey::Escape)], &mut focus, &mut inputs);
    assert!(!inputs[0].is_focused);
    focus_on(1, &mut focus, &mut inputs);
    assert_eq!(inputs[0].value, "12");
    assert!(!inputs[0].is_focused);
    assert!(inputs[1].is_focused);
    handle_keyboard_input(&vec![typed("7")], &mut focus, &mut inputs);
    assert_eq!(inputs[0].value, "12");
    assert_eq!(inputs[1].value, "7");
}

#[test]
fn keys_without_focus_go_nowhere() {
    let mut inputs = three_fields();
    let mut focus = InputFocusState::default();
    handle_keyboard_input(
        &vec![typed("1"), press(EditKey::Backspace), press(EditKey::Escape)],
        &mut focus,
        &mut inputs,
    );
    assert!(inputs.iter().all(|input| input.value.is_empty() && !input.is_focused));
    assert_eq!(focus.focused_entity, None);
}

#[test]
fn releases_repeats_and_other_keys_are_ignored() {
    let mut inputs = three_fields();
    let mut focus = InputFocusState::default();
    focus_on(2, &mut focus, &mut inputs);
    let events = vec![
        KeyEvent { key: EditKey::Character("1".to_string()), pressed: false, repeat: false },
        KeyEvent { key: EditKey::Character("2".to_string()), pressed: true, repeat: true },
        KeyEvent { key: EditKey::Escape, pressed: false, repeat: false },
        press(EditKey::Other),
        typed("3"),
    ];
    handle_keyboard_input(&events, &mut focus, &mut inputs);
    assert_eq!(inputs[2].value, "3");
    assert!(inputs[2].is_focused);
    assert_eq!(focus.focused_entity, Some(2));
}

#[test]
fn escape_releases_the_keyboard_for_the_rest_of_the_batch() {
    let mut inputs = three_fields();
    let mut focus = InputFocusState::default();
    focus_on(0, &mut focus, &mut inputs);
    handle_keyboard_input(
        &vec![typed("4"), press(EditKey::Escape), typed("5")],
        &mut focus,
        &mut inputs,
    );
    assert_eq!(inputs[0].value, "4");
    assert!(!inputs[0].is_focused);
    assert_eq!(focus.focused_entity, None);
    assert_eq!(focused_count(&inputs), 0);
}

#[test]
fn press_focuses_field_and_shows_cursor() {
    let mut inputs = three_fields();
    inputs[1].cursor_timer = 123;
    let mut focus = InputFocusState::default();
    focus_on(1, &mut focus, &mut inputs);
    assert_eq!(focus.focused_entity, Some(1));
    assert!(inputs[1].is_focused);
    assert!(inputs[1].cursor_visible);
    assert_eq!(inputs[1].cursor_timer, 0);
    assert!(!inputs[0].is_focused);
    assert!(!inputs[2].is_focused);
}

#[test]
fn at_most_one_field_is_focused_after_any_presses() {
    let mut inputs = three_fields();
    let mut focus = InputFocusState::default();
    let presses = vec![
        (Interaction::Pressed, 0),
        (Interaction::Hovered, 2),
        (Interaction::Pressed, 2),
        (Interaction::Pressed, 2),
        (Interaction::Idle, 1),
        (Interaction::Pressed, 7),
        (Interaction::Pressed, 1),
    ];
    for upto in 0..=presses.len() {
        let mut fields = three_fields();
        let mut slot = InputFocusState::default();
        handle_text_input_focus(&presses[..upto].to_vec(), &mut slot, &mut fields);
        assert!(focused_count(&fields) <= 1);
        for (index, field) in fields.iter().enumerate() {
            assert_eq!(field.is_focused, slot.focused_entity == Some(index));
        }
    }
    handle_text_input_focus(&presses, &mut focus, &mut inputs);
    assert_eq!(focus.focused_entity, Some(1));
    assert!(inputs[1].is_focused);
    assert_eq!(focused_count(&inputs), 1);
}

#[test]
fn press_on_something_that_is_no_field_is_ignored() {
    let mut inputs = three_fields();
    let mut focus = InputFocusState::default();
    focus_on(0, &mut focus, &mut inputs);
    inputs[0].cursor_visible = false;
    inputs[0].cursor_timer = 77;
    focus_on(3, &mut focus, &mut inputs);
    assert_eq!(focus.focused_entity, Some(0));
    assert!(inputs[0].is_focused);
    assert!(!inputs[0].cursor_visible);
    assert_eq!(inputs[0].cursor_timer, 77);
}

#[test]
fn hover_does_not_move_focus() {
    let mut inputs = three_fields();
    let mut focus = InputFocusState::default();
    handle_text_input_focus(
        &vec![(Interaction::Hovered, 0), (Interaction::Idle, 1)],
        &mut focus,
        &mut inputs,
    );
    assert_eq!(focus.focused_entity, None);
    assert_eq!(focused_count(&inputs), 0);
}

#[test]
fn pressing_the_focused_field_again_restarts_its_cursor() {
    let mut inputs = three_fields();
    let mut focus = InputFocusState::default();
    focus_on(0, &mut focus, &mut inputs);
    update_cursor_blink(CURSOR_BLINK_PERIOD, &mut inputs);
    assert!(!inputs[0].cursor_visible);
    update_cursor_blink(10, &mut inputs);
    focus_on(0, &mut focus, &mut inputs);
    assert!(inputs[0].is_focused);
    assert!(inputs[0].cursor_visible);
    assert_eq!(inputs[0].cursor_timer, 0);
}

#[test]
fn cursor_toggles_every_half_second() {
    let mut inputs = three_fields();
    let mut focus = InputFocusState::default();
    focus_on(0, &mut focus, &mut inputs);
    update_cursor_blink(200_000, &mut inputs);
    assert!(inputs[0].cursor_visible);
    assert_eq!(inputs[0].cursor_timer, 200_000);
    update_cursor_blink(299_999, &mut inputs);
    assert!(inputs[0].cursor_visible);
    assert_eq!(inputs[0].cursor_timer, 499_999);
    update_cursor_blink(1, &mut inputs);
    assert!(!inputs[0].cursor_visible);
    assert_eq!(inputs[0].cursor_timer, 0);
    update_cursor_blink(700_000, &mut inputs);
    assert!(inputs[0].cursor_visible);
    assert_eq!(inputs[0].cursor_timer, 0);
}

#[test]
fn unfocused_fields_do_not_count_time() {
    let mut inputs = three_fields();
    let mut focus = InputFocusState::default();
    focus_on(0, &mut focus, &mut inputs);
    update_cursor_blink(600_000, &mut inputs);
    assert_eq!(inputs[1].cursor_timer, 0);
    assert!(!inputs[1].cursor_visible);
    assert_eq!(inputs[2].cursor_timer, 0);
    assert!(!inputs[2].cursor_visible);
}

#[test]
fn cursor_timer_does_not_overflow() {
    let mut inputs = three_fields();
    let mut focus = InputFocusState::default();
    focus_on(0, &mut focus, &mut inputs);
    inputs[0].cursor_timer = u64::MAX - 1;
    update_cursor_blink(u64::MAX, &mut inputs);
    assert!(!inputs[0].cursor_visible);
    assert_eq!(inputs[0].cursor_timer, 0);
}

#[test]
fn display_appends_cursor_only_while_focused_and_visible() {
    let mut input = TextInput::new(InputField::MainRotationX, "115");
    assert_eq!(display_text(&input), "115");
    input.cursor_visible = true;
    assert_eq!(display_text(&input), "115");
    input.is_focused = true;
    assert_eq!(display_text(&input), "115|");
    input.cursor_visible = false;
    assert_eq!(display_text(&input), "115");
}

#[test]
fn display_covers_every_field() {
    let mut inputs = vec![
        TextInput::new(InputField::MainRotationX, "115"),
        TextInput::new(InputField::MainRotationY, ""),
        TextInput::new(InputField::MainRotationZ, "-45"),
    ];
    let mut focus = InputFocusState::default();
    focus_on(1, &mut focus, &mut inputs);
    assert_eq!(update_text_input_display(&inputs), vec!["115", "|", "-45"]);
    update_cursor_blink(CURSOR_BLINK_PERIOD, &mut inputs);
    assert_eq!(update_text_input_display(&inputs), vec!["115", "", "-45"]);
    assert_eq!(update_text_input_display(&Vec::new()), Vec::<String>::new());
}

#[test]
fn key_batch_reports_the_slot_whose_text_changed() {
    let mut inputs = three_fields();
    let mut focus = InputFocusState::default();
    assert_eq!(handle_keyboard_input(&vec![typed("1")], &mut focus, &mut inputs), None);
    focus_on(2, &mut focus, &mut inputs);
    assert_eq!(
        handle_keyboard_input(&vec![typed("1")], &mut focus, &mut inputs),
        Some(InputField::MainRotationZ)
    );
    assert_eq!(handle_keyboard_input(&vec![typed("x")], &mut focus, &mut inputs), None);
    assert_eq!(handle_keyboard_input(&Vec::new(), &mut focus, &mut inputs), None);
    assert_eq!(
        handle_keyboard_input(&vec![typed("2"), press(EditKey::Backspace)], &mut focus, &mut inputs),
        None
    );
    assert_eq!(
        handle_keyboard_input(&vec![press(EditKey::Backspace)], &mut focus, &mut inputs),
        Some(InputField::MainRotationZ)
    );
    assert_eq!(
        handle_keyboard_input(&vec![press(EditKey::Backspace)], &mut focus, &mut inputs),
        None
    );
    assert_eq!(
        handle_keyboard_input(&vec![typed("5"), press(EditKey::Escape)], &mut focus, &mut inputs),
        Some(InputField::MainRotationZ)
    );
    assert_eq!(handle_keyboard_input(&vec![typed("6")], &mut focus, &mut inputs), None);
    assert_eq!(inputs[2].value, "5");
}
