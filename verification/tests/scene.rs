use bevy::math::{EulerRot, Quat};
use bevy_doodles::scene::{
    apply_leaf_rotation_from_inputs, apply_light_position_from_inputs,
    apply_main_rotation_from_inputs, binding, format_degrees, sync_main_rotation_to_inputs,
    AutoRotation, Axis, AxisTexts, Binding, Channel, EulerDegrees, SceneNode,
};
use bevy_doodles::text_input::{
    handle_text_input_focus, InputField, InputFocusState, Interaction, TextInput,
};

fn panel() -> Vec<TextInput> {
    vec![
        TextInput::new(InputField::MainRotationX, "115"),
        TextInput::new(InputField::MainRotationY, "0"),
        TextInput::new(InputField::MainRotationZ, "-45"),
        TextInput::new(InputField::LeafRotationX, "0"),
        TextInput::new(InputField::LeafRotationY, "45"),
        TextInput::new(InputField::LeafRotationZ, "45"),
        TextInput::new(InputField::LeafTranslationX, "0.9"),
        TextInput::new(InputField::LeafTranslationY, "0"),
        TextInput::new(InputField::LeafTranslationZ, "-0.9"),
    ]
}

fn values(inputs: &Vec<TextInput>) -> Vec<String> {
    inputs.iter().map(|input| input.value.clone()).collect()
}

fn triple(texts: &AxisTexts) -> (&str, &str, &str) {
    (texts.x.as_str(), texts.y.as_str(), texts.z.as_str())
}

fn number(text: &str) -> f32 {
    text.parse::<f32>().unwrap_or(0.0)
}

fn rotation_of(texts: &AxisTexts) -> Quat {
    Quat::from_euler(
        EulerRot::XYZ,
        number(&texts.x).to_radians(),
        number(&texts.y).to_radians(),
        number(&texts.z).to_radians(),
    )
}

fn whole_degrees(rotation: Quat) -> EulerDegrees {
    let (x, y, z) = rotation.to_euler(EulerRot::XYZ);
    EulerDegrees {
        x: x.to_degrees().round() as i32,
        y: y.to_degrees().round() as i32,
        z: z.to_degrees().round() as i32,
    }
}

#[test]
fn auto_rotation_starts_disabled_and_toggles() {
    let mut auto_rotation = AutoRotation::default();
    assert!(!auto_rotation.enabled);
    auto_rotation.toggle();
    assert!(auto_rotation.enabled);
    auto_rotation.toggle();
    assert!(!auto_rotation.enabled);
}

#[test]
fn degrees_are_rendered_without_decimal_places() {
    assert_eq!(format_degrees(0), "0");
    assert_eq!(format_degrees(7), "7");
    assert_eq!(format_degrees(10), "10");
    assert_eq!(format_degrees(115), "115");
    assert_eq!(format_degrees(-45), "-45");
    assert_eq!(format_degrees(-1), "-1");
    assert_eq!(format_degrees(1000), "1000");
    assert_eq!(format_degrees(i32::MAX), "2147483647");
    assert_eq!(format_degrees(i32::MIN), "-2147483648");
}

#[test]
fn sync_writes_rotation_into_main_fields_only() {
    let mut inputs = panel();
    sync_main_rotation_to_inputs(
        &AutoRotation { enabled: false },
        Some(EulerDegrees { x: 30, y: 45, z: -10 }),
        &mut inputs,
    );
    assert_eq!(values(&inputs), vec!["30", "45", "-10", "0", "45", "45", "0.9", "0", "-0.9"]);
}

#[test]
fn sync_skips_the_focused_field() {
    let mut inputs = panel();
    let mut focus = InputFocusState::default();
    handle_text_input_focus(&vec![(Interaction::Pressed, 1)], &mut focus, &mut inputs);
    sync_main_rotation_to_inputs(
        &AutoRotation { enabled: false },
        Some(EulerDegrees { x: 1, y: 2, z: 3 }),
        &mut inputs,
    );
    assert_eq!(inputs[0].value, "1");
    assert_eq!(inputs[1].value, "0");
    assert_eq!(inputs[2].value, "3");
    assert!(inputs[1].is_focused);
}

#[test]
fn sync_leaves_all_text_alone_while_auto_rotation_is_on() {
    let mut inputs = panel();
    let before = values(&inputs);
    let auto_rotation = AutoRotation { enabled: true };
    for frame in 0..5 {
        sync_main_rotation_to_inputs(
            &auto_rotation,
            Some(EulerDegrees { x: frame, y: 2 * frame, z: -frame }),
            &mut inputs,
        );
        assert_eq!(values(&inputs), before);
    }
}

#[test]
fn sync_without_a_driver_node_changes_nothing() {
    let mut inputs = panel();
    let before = values(&inputs);
    sync_main_rotation_to_inputs(&AutoRotation { enabled: false }, None, &mut inputs);
    assert_eq!(values(&inputs), before);
}

#[test]
fn sync_keeps_focus_and_cursor_state() {
    let mut inputs = panel();
    inputs[0].cursor_visible = true;
    inputs[0].cursor_timer = 5;
    sync_main_rotation_to_inputs(
        &AutoRotation { enabled: false },
        Some(EulerDegrees { x: 9, y: 8, z: 7 }),
        &mut inputs,
    );
    assert_eq!(inputs[0].value, "9");
    assert_eq!(inputs[0].field, InputField::MainRotationX);
    assert!(!inputs[0].is_focused);
    assert!(inputs[0].cursor_visible);
    assert_eq!(inputs[0].cursor_timer, 5);
}

#[test]
fn leaf_pose_reads_rotation_and_translation_fields() {
    let pose = apply_leaf_rotation_from_inputs(&panel());
    assert_eq!(triple(&pose.rotation), ("0", "45", "45"));
    assert_eq!(triple(&pose.translation), ("0.9", "0", "-0.9"));
}

#[test]
fn leaf_pose_reads_zero_for_axes_without_a_field() {
    let inputs = vec![
        TextInput::new(InputField::LeafRotationY, "12"),
        TextInput::new(InputField::MainRotationX, "99"),
    ];
    let pose = apply_leaf_rotation_from_inputs(&inputs);
    assert_eq!(triple(&pose.rotation), ("0", "12", "0"));
    assert_eq!(triple(&pose.translation), ("0", "0", "0"));
}

#[test]
fn later_field_wins_where_two_share_a_slot() {
    let inputs = vec![
        TextInput::new(InputField::LeafRotationX, "1"),
        TextInput::new(InputField::LeafRotationX, "2"),
        TextInput::new(InputField::LeafRotationZ, "3"),
    ];
    let pose = apply_leaf_rotation_from_inputs(&inputs);
    assert_eq!(triple(&pose.rotation), ("2", "0", "3"));
}

#[test]
fn malformed_text_is_handed_on_as_typed() {
    let inputs = vec![
        TextInput::new(InputField::LeafRotationX, "-"),
        TextInput::new(InputField::LeafRotationY, ""),
        TextInput::new(InputField::LeafRotationZ, "1.2.3"),
    ];
    let pose = apply_leaf_rotation_from_inputs(&inputs);
    assert_eq!(triple(&pose.rotation), ("-", "", "1.2.3"));
    assert_eq!(rotation_of(&pose.rotation), Quat::IDENTITY);
}

#[test]
fn main_rotation_is_applied_only_after_a_change_to_its_fields() {
    let inputs = panel();
    assert!(apply_main_rotation_from_inputs(&Vec::new(), &inputs).is_none());
    assert!(apply_main_rotation_from_inputs(
        &vec![InputField::LeafRotationX, InputField::LightPositionY],
        &inputs
    )
    .is_none());
    for tag in [InputField::MainRotationX, InputField::MainRotationY, InputField::MainRotationZ] {
        let texts = apply_main_rotation_from_inputs(&vec![InputField::LeafRotationX, tag], &inputs)
            .expect("a main rotation field changed");
        assert_eq!(triple(&texts), ("115", "0", "-45"));
    }
}

#[test]
fn light_position_falls_back_to_its_initial_place() {
    let position = apply_light_position_from_inputs(&panel());
    assert_eq!(triple(&position), ("-4", "6", "4"));
    let inputs = vec![
        TextInput::new(InputField::LightPositionY, "2.5"),
        TextInput::new(InputField::LightPositionZ, ""),
    ];
    let position = apply_light_position_from_inputs(&inputs);
    assert_eq!(triple(&position), ("-4", "2.5", ""));
}

#[test]
fn ninety_degrees_about_x() {
    let inputs = vec![
        TextInput::new(InputField::MainRotationX, "90"),
        TextInput::new(InputField::MainRotationY, "0"),
        TextInput::new(InputField::MainRotationZ, "0"),
    ];
    let texts = apply_main_rotation_from_inputs(&vec![InputField::MainRotationX], &inputs)
        .expect("a main rotation field changed");
    let (axis, angle) = rotation_of(&texts).to_axis_angle();
    assert!((axis.x - 1.0).abs() < 1e-4);
    assert!(axis.y.abs() < 1e-4);
    assert!(axis.z.abs() < 1e-4);
    assert!((angle.to_degrees() - 90.0).abs() < 1e-3);
}

#[test]
fn apply_then_sync_reproduces_the_angles() {
    let mut inputs = vec![
        TextInput::new(InputField::MainRotationX, "30"),
        TextInput::new(InputField::MainRotationY, "45"),
        TextInput::new(InputField::MainRotationZ, "-10"),
    ];
    let texts = apply_main_rotation_from_inputs(&vec![InputField::MainRotationZ], &inputs)
        .expect("a main rotation field changed");
    let rotation = rotation_of(&texts);
    for input in inputs.iter_mut() {
        input.value.clear();
    }
    sync_main_rotation_to_inputs(
        &AutoRotation { enabled: false },
        Some(whole_degrees(rotation)),
        &mut inputs,
    );
    assert_eq!(values(&inputs), vec!["30", "45", "-10"]);
}

#[test]
fn every_tag_is_bound_to_a_slot_of_its_own() {
    let tags = [
        InputField::MainRotationX,
        InputField::MainRotationY,
        InputField::MainRotationZ,
        InputField::LeafRotationX,
        InputField::LeafRotationY,
        InputField::LeafRotationZ,
        InputField::LeafTranslationX,
        InputField::LeafTranslationY,
        InputField::LeafTranslationZ,
        InputField::LightPositionX,
        InputField::LightPositionY,
        InputField::LightPositionZ,
    ];
    assert_eq!(
        binding(InputField::MainRotationY),
        Binding { node: SceneNode::MainCube, channel: Channel::Rotation, axis: Axis::Y }
    );
    assert_eq!(
        binding(InputField::LeafRotationX),
        Binding { node: SceneNode::LeafCube, channel: Channel::Rotation, axis: Axis::X }
    );
    assert_eq!(
        binding(InputField::LeafTranslationZ),
        Binding { node: SceneNode::LeafCube, channel: Channel::Translation, axis: Axis::Z }
    );
    assert_eq!(
        binding(InputField::LightPositionX),
        Binding { node: SceneNode::Light, channel: Channel::Translation, axis: Axis::X }
    );
    for (i, a) in tags.iter().enumerate() {
        for (j, b) in tags.iter().enumerate() {
            assert_eq!(binding(*a) == binding(*b), i == j);
        }
    }
}
