//! Binding of text fields to the scene: which field feeds which slot of
//! which node, when a node's rotation is mirrored back into its fields, and
//! how whole degrees are rendered as text.

pub use crate::color::{
    animate_cube_colors, hsl_to_rgb, lerp_hue, palette_for, ColorAnimation, Palette, Rgb,
};
use crate::text_input::{field_views, InputField, TextInput, TextInputView};
use vstd::prelude::*;
use vstd::string::*;

verus! {

/// Whether the driver node turns by itself.
pub struct AutoRotation {
    pub enabled: bool,
}

impl Default for AutoRotation {
    fn default() -> (auto_rotation: AutoRotation)
        ensures
            !auto_rotation.enabled,
    {
        AutoRotation { enabled: false }
    }
}

impl AutoRotation {
    /// Switches automatic rotation on if it is off, and off if it is on.
    pub fn toggle(&mut self)
        ensures
            final(self).enabled == !old(self).enabled,
    {
        self.enabled = !self.enabled;
    }
}

/// Euler angles about X, Y and Z, rounded to whole degrees.
#[derive(Clone, Copy, Debug, PartialEq, Eq, Structural)]
pub struct EulerDegrees {
    pub x: i32,
    pub y: i32,
    pub z: i32,
}

/// The raw text bound to the X, Y and Z slot of one vector of a node.
pub struct AxisTexts {
    pub x: String,
    pub y: String,
    pub z: String,
}

/// The raw texts bound to the dependent node: its rotation in degrees and its
/// translation.
pub struct LeafPose {
    pub rotation: AxisTexts,
    pub translation: AxisTexts,
}

// ---------------------------------------------------------------------------
// Turning the driver node by keyboard and by itself
// ---------------------------------------------------------------------------

/// Automatic rotation about the world's Y axis, in billionths of a radian per
/// microsecond (one radian per second).
pub const AUTO_ROTATION_SPEED_Y: i128 = 1_000;

/// Automatic rotation about the world's X axis, in billionths of a radian per
/// microsecond (half a radian per second).
pub const AUTO_ROTATION_SPEED_X: i128 = 500;

/// Rotation while an axis key is held, in billionths of a radian per
/// microsecond (two radians per second).
pub const KEYBOARD_ROTATION_SPEED: i128 = 2_000;

/// A coordinate axis.
#[derive(Clone, Copy, Debug, PartialEq, Eq, Structural)]
pub enum Axis {
    X,
    Y,
    Z,
}

/// Whose axes a turn is taken about: the world's or the node's own.
#[derive(Clone, Copy, Debug, PartialEq, Eq, Structural)]
pub enum Space {
    World,
    Local,
}

/// One change to the driver node's rotation: back to no rotation at all, or a
/// turn about an axis by an angle in billionths of a radian.
#[derive(Clone, Copy, Debug, PartialEq, Eq, Structural)]
pub enum RotationCommand {
    Reset,
    Turn { space: Space, axis: Axis, angle: i128 },
}

/// The keys that act on the driver node, as of one frame: whether Space and R
/// went down in this frame, and which of the axis keys are held.
#[derive(Clone, Copy, Debug, PartialEq, Eq, Structural)]
pub struct RotationKeys {
    pub space_just_pressed: bool,
    pub r_just_pressed: bool,
    pub j: bool,
    pub u: bool,
    pub k: bool,
    pub i: bool,
    pub l: bool,
    pub o: bool,
}

/// The turn about the node's own `axis` for a key held during `delta`
/// microseconds.
pub open spec fn key_turn(axis: Axis, positive: bool, delta: u64) -> RotationCommand {
    RotationCommand::Turn {
        space: Space::Local,
        axis,
        angle: if positive {
            (delta * KEYBOARD_ROTATION_SPEED) as i128
        } else {
            (-(delta * KEYBOARD_ROTATION_SPEED)) as i128
        },
    }
}

/// `commands` followed by `command` where `held`, else `commands` alone.
pub open spec fn push_if(commands: Seq<RotationCommand>, held: bool, command: RotationCommand) -> Seq<
    RotationCommand,
> {
    if held {
        commands.push(command)
    } else {
        commands
    }
}

/// The commands of one frame of `delta` microseconds with automatic rotation
/// as given (after the toggle). R resets and ends the frame. Otherwise the
/// automatic turns about the world's Y and then X axis come first, where
/// enabled, and then one turn for each held axis key, in the order J, U, K,
/// I, L, O.
pub open spec fn frame_commands(keys: RotationKeys, delta: u64, auto_enabled: bool) -> Seq<
    RotationCommand,
> {
    if keys.r_just_pressed {
        seq![RotationCommand::Reset]
    } else {
        let auto_y = RotationCommand::Turn {
            space: Space::World,
            axis: Axis::Y,
            angle: (delta * AUTO_ROTATION_SPEED_Y) as i128,
        };
        let auto_x = RotationCommand::Turn {
            space: Space::World,
            axis: Axis::X,
            angle: (delta * AUTO_ROTATION_SPEED_X) as i128,
        };
        let c0 = push_if(push_if(Seq::empty(), auto_enabled, auto_y), auto_enabled, auto_x);
        let c1 = push_if(c0, keys.j, key_turn(Axis::X, true, delta));
        let c2 = push_if(c1, keys.u, key_turn(Axis::X, false, delta));
        let c3 = push_if(c2, keys.k, key_turn(Axis::Y, true, delta));
        let c4 = push_if(c3, keys.i, key_turn(Axis::Y, false, delta));
        let c5 = push_if(c4, keys.l, key_turn(Axis::Z, true, delta));
        push_if(c5, keys.o, key_turn(Axis::Z, false, delta))
    }
}

/// Decides how the driver node turns in a frame of `delta` microseconds.
/// Space flips automatic rotation first; the commands are then those of
/// [`frame_commands`], to be carried out in order.
pub fn rotate_cube(keys: &RotationKeys, delta: u64, auto_rotation: &mut AutoRotation) -> (commands:
    Vec<RotationCommand>)
    ensures
        final(auto_rotation).enabled == (old(auto_rotation).enabled != keys.space_just_pressed),
        commands@ == frame_commands(*keys, delta, final(auto_rotation).enabled),
{
    if keys.space_just_pressed {
        auto_rotation.toggle();
    }
    let mut commands: Vec<RotationCommand> = Vec::new();
    if keys.r_just_pressed {
        commands.push(RotationCommand::Reset);
        assert(commands@ =~= seq![RotationCommand::Reset]);
        return commands;
    }
    let elapsed: i128 = delta as i128;
    if auto_rotation.enabled {
        commands.push(
            RotationCommand::Turn {
                space: Space::World,
                axis: Axis::Y,
                angle: elapsed * AUTO_ROTATION_SPEED_Y,
            },
        );
        commands.push(
            RotationCommand::Turn {
                space: Space::World,
                axis: Axis::X,
                angle: elapsed * AUTO_ROTATION_SPEED_X,
            },
        );
    }
    let keyboard_delta: i128 = elapsed * KEYBOARD_ROTATION_SPEED;
    let space = Space::Local;
    if keys.j {
        commands.push(RotationCommand::Turn { space, axis: Axis::X, angle: keyboard_delta });
    }
    if keys.u {
        commands.push(RotationCommand::Turn { space, axis: Axis::X, angle: -keyboard_delta });
    }
    if keys.k {
        commands.push(RotationCommand::Turn { space, axis: Axis::Y, angle: keyboard_delta });
    }
    if keys.i {
        commands.push(RotationCommand::Turn { space, axis: Axis::Y, angle: -keyboard_delta });
    }
    if keys.l {
        commands.push(RotationCommand::Turn { space, axis: Axis::Z, angle: keyboard_delta });
    }
    if keys.o {
        commands.push(RotationCommand::Turn { space, axis: Axis::Z, angle: -keyboard_delta });
    }
    assert(commands@ =~= frame_commands(*keys, delta, auto_rotation.enabled));
    commands
}

// ---------------------------------------------------------------------------
// Rendering whole degrees
// ---------------------------------------------------------------------------

/// The character for one decimal digit.
pub open spec fn digit_char(d: int) -> char
    recommends
        0 <= d < 10,
{
    ('0' as int + d) as char
}

/// The decimal digits of `n`, most significant first, without leading zeros.
pub open spec fn decimal_digits(n: nat) -> Seq<char>
    decreases n,
{
    if n < 10 {
        seq![digit_char(n as int)]
    } else {
        decimal_digits(n / 10).push(digit_char((n % 10) as int))
    }
}

/// `n` in decimal with no decimal places: a minus sign where it is negative,
/// then its digits.
pub open spec fn decimal_text(n: int) -> Seq<char> {
    if n < 0 {
        seq!['-'] + decimal_digits((-n) as nat)
    } else {
        decimal_digits(n as nat)
    }
}

/// The number that a decimal digit stands for.
pub open spec fn digit_value(c: char) -> int {
    c as int - '0' as int
}

/// The number that a sequence of decimal digits stands for.
pub open spec fn digits_value(digits: Seq<char>) -> int
    decreases digits.len(),
{
    if digits.len() == 0 {
        0
    } else {
        digits_value(digits.drop_last()) * 10 + digit_value(digits.last())
    }
}

/// The number that a decimal text stands for: its digits, negated where a
/// minus sign leads.
pub open spec fn decimal_value(text: Seq<char>) -> int {
    if text.len() > 0 && text[0] == '-' {
        -digits_value(text.subrange(1, text.len() as int))
    } else {
        digits_value(text)
    }
}

proof fn lemma_digits_read_back(n: nat)
    ensures
        digits_value(decimal_digits(n)) == n,
        decimal_digits(n).len() > 0,
        decimal_digits(n)[0] != '-',
    decreases n,
{
    if n < 10 {
        assert(decimal_digits(n).drop_last() =~= Seq::<char>::empty());
        assert(digits_value(decimal_digits(n).drop_last()) == 0);
    } else {
        lemma_digits_read_back(n / 10);
        assert(decimal_digits(n).drop_last() =~= decimal_digits(n / 10));
    }
}

/// Rendering loses nothing: the text of a number stands for that number, so
/// two numbers with the same text are the same.
pub proof fn lemma_decimal_text_reads_back(n: int)
    ensures
        decimal_value(decimal_text(n)) == n,
{
    if n < 0 {
        lemma_digits_read_back((-n) as nat);
        let text = decimal_text(n);
        assert(text.subrange(1, text.len() as int) =~= decimal_digits((-n) as nat));
    } else {
        lemma_digits_read_back(n as nat);
    }
}

/// `String::push` appends one character to the end of the string.
pub assume_specification[ String::push ](s: &mut String, c: char)
    ensures
        final(s)@ == old(s)@.push(c),
;

fn push_decimal_digits(text: &mut String, n: u64)
    ensures
        final(text)@ == old(text)@ + decimal_digits(n as nat),
    decreases n,
{
    if n >= 10 {
        push_decimal_digits(text, n / 10);
    }
    let d: u8 = (n % 10) as u8;
    text.push((48u8 + d) as char);
    assert(final(text)@ =~= old(text)@ + decimal_digits(n as nat));
}

/// Renders whole degrees as text with no decimal places.
pub fn format_degrees(degrees: i32) -> (text: String)
    ensures
        text@ == decimal_text(degrees as int),
{
    let mut text = String::new();
    if degrees < 0 {
        text.push('-');
        let magnitude: u64 = (-(degrees as i64)) as u64;
        push_decimal_digits(&mut text, magnitude);
        assert(text@ =~= decimal_text(degrees as int));
    } else {
        push_decimal_digits(&mut text, degrees as u64);
        assert(text@ =~= decimal_text(degrees as int));
    }
    text
}

// ---------------------------------------------------------------------------
// Sync: driver rotation -> fields
// ---------------------------------------------------------------------------

/// A field after mirroring the driver node's rotation into it. Nothing is
/// written while the node turns by itself, while there is no driver node, or
/// into a focused field; otherwise each driver rotation field takes the
/// rendered angle of its axis, and every other field stays as it is.
pub open spec fn synced(
    f: TextInputView,
    auto_enabled: bool,
    rotation: Option<EulerDegrees>,
) -> TextInputView {
    if auto_enabled || rotation is None || f.is_focused {
        f
    } else {
        match f.field {
            InputField::MainRotationX => TextInputView {
                value: decimal_text(rotation->0.x as int),
                ..f
            },
            InputField::MainRotationY => TextInputView {
                value: decimal_text(rotation->0.y as int),
                ..f
            },
            InputField::MainRotationZ => TextInputView {
                value: decimal_text(rotation->0.z as int),
                ..f
            },
            _ => f,
        }
    }
}

/// Every field after mirroring the driver node's rotation.
pub open spec fn synced_fields(
    fields: Seq<TextInputView>,
    auto_enabled: bool,
    rotation: Option<EulerDegrees>,
) -> Seq<TextInputView> {
    Seq::new(fields.len(), |i: int| synced(fields[i], auto_enabled, rotation))
}

/// Mirrors the driver node's current rotation into its unfocused fields.
/// `main_rotation` is `None` where the scene has no driver node.
pub fn sync_main_rotation_to_inputs(
    auto_rotation: &AutoRotation,
    main_rotation: Option<EulerDegrees>,
    inputs: &mut Vec<TextInput>,
)
    ensures
        final(inputs).len() == old(inputs).len(),
        field_views(final(inputs)@) == synced_fields(
            field_views(old(inputs)@),
            auto_rotation.enabled,
            main_rotation,
        ),
        auto_rotation.enabled ==> field_views(final(inputs)@) == field_views(old(inputs)@),
{
    if auto_rotation.enabled {
        assert(field_views(inputs@) =~= synced_fields(field_views(inputs@), true, main_rotation));
        return ;
    }
    let Some(rotation) = main_rotation else {
        assert(field_views(inputs@) =~= synced_fields(field_views(inputs@), false, None));
        return ;
    };
    let mut k: usize = 0;
    while k < inputs.len()
        invariant
            k <= inputs.len(),
            inputs.len() == old(inputs).len(),
            !auto_rotation.enabled,
            main_rotation == Some(rotation),
            forall|i: int|
                0 <= i < k ==> (#[trigger] inputs[i])@ == synced(
                    old(inputs)[i]@,
                    auto_rotation.enabled,
                    main_rotation,
                ),
            forall|i: int| k <= i < inputs.len() ==> (#[trigger] inputs[i])@ == old(inputs)[i]@,
        decreases inputs.len() - k,
    {
        let input = &mut inputs[k];
        if !input.is_focused {
            match input.field {
                InputField::MainRotationX => {
                    input.value = format_degrees(rotation.x);
                },
                InputField::MainRotationY => {
                    input.value = format_degrees(rotation.y);
                },
                InputField::MainRotationZ => {
                    input.value = format_degrees(rotation.z);
                },
                _ => {},
            }
        }
        k += 1;
    }
    assert(field_views(inputs@) =~= synced_fields(
        field_views(old(inputs)@),
        auto_rotation.enabled,
        main_rotation,
    ));
}

/// While the driver node turns by itself, mirroring its rotation writes to no
/// field, however often it is asked to.
pub proof fn lemma_sync_skipped_while_auto(f: TextInputView, rotation: Option<EulerDegrees>)
    ensures
        synced(f, true, rotation) == f,
{
}

/// Mirroring the rotation never writes into a focused field.
pub proof fn lemma_sync_skips_focused(
    f: TextInputView,
    auto_enabled: bool,
    rotation: Option<EulerDegrees>,
)
    requires
        f.is_focused,
    ensures
        synced(f, auto_enabled, rotation) == f,
{
}

/// Mirroring the same rotation a second time changes nothing more.
pub proof fn lemma_sync_idempotent(
    f: TextInputView,
    auto_enabled: bool,
    rotation: Option<EulerDegrees>,
)
    ensures
        synced(synced(f, auto_enabled, rotation), auto_enabled, rotation) == synced(
            f,
            auto_enabled,
            rotation,
        ),
{
}

// ---------------------------------------------------------------------------
// The binding of fields to nodes
// ---------------------------------------------------------------------------

/// The nodes of the scene that fields drive: the driver cube, the dependent
/// cube attached to it, and the light.
#[derive(Clone, Copy, Debug, PartialEq, Eq, Structural)]
pub enum SceneNode {
    MainCube,
    LeafCube,
    Light,
}

/// The part of a node's pose that a field feeds.
#[derive(Clone, Copy, Debug, PartialEq, Eq, Structural)]
pub enum Channel {
    Rotation,
    Translation,
}

/// The one slot that a field is bound to: an axis of the rotation or of the
/// translation of a node.
#[derive(Clone, Copy, Debug, PartialEq, Eq, Structural)]
pub struct Binding {
    pub node: SceneNode,
    pub channel: Channel,
    pub axis: Axis,
}

/// The fixed table that binds each field tag to its slot.
pub open spec fn binding_of(tag: InputField) -> Binding {
    match tag {
        InputField::MainRotationX => Binding {
            node: SceneNode::MainCube,
            channel: Channel::Rotation,
            axis: Axis::X,
        },
        InputField::MainRotationY => Binding {
            node: SceneNode::MainCube,
            channel: Channel::Rotation,
            axis: Axis::Y,
        },
        InputField::MainRotationZ => Binding {
            node: SceneNode::MainCube,
            channel: Channel::Rotation,
            axis: Axis::Z,
        },
        InputField::LeafRotationX => Binding {
            node: SceneNode::LeafCube,
            channel: Channel::Rotation,
            axis: Axis::X,
        },
        InputField::LeafRotationY => Binding {
            node: SceneNode::LeafCube,
            channel: Channel::Rotation,
            axis: Axis::Y,
        },
        InputField::LeafRotationZ => Binding {
            node: SceneNode::LeafCube,
            channel: Channel::Rotation,
            axis: Axis::Z,
        },
        InputField::LeafTranslationX => Binding {
            node: SceneNode::LeafCube,
            channel: Channel::Translation,
            axis: Axis::X,
        },
        InputField::LeafTranslationY => Binding {
            node: SceneNode::LeafCube,
            channel: Channel::Translation,
            axis: Axis::Y,
        },
        InputField::LeafTranslationZ => Binding {
            node: SceneNode::LeafCube,
            channel: Channel::Translation,
            axis: Axis::Z,
        },
        InputField::LightPositionX => Binding {
            node: SceneNode::Light,
            channel: Channel::Translation,
            axis: Axis::X,
        },
        InputField::LightPositionY => Binding {
            node: SceneNode::Light,
            channel: Channel::Translation,
            axis: Axis::Y,
        },
        InputField::LightPositionZ => Binding {
            node: SceneNode::Light,
            channel: Channel::Translation,
            axis: Axis::Z,
        },
    }
}

/// The slot that `tag` is bound to.
pub fn binding(tag: InputField) -> (slot: Binding)
    ensures
        slot == binding_of(tag),
{
    let (node, channel) = match tag {
        InputField::MainRotationX | InputField::MainRotationY | InputField::MainRotationZ => (
            SceneNode::MainCube,
            Channel::Rotation,
        ),
        InputField::LeafRotationX | InputField::LeafRotationY | InputField::LeafRotationZ => (
            SceneNode::LeafCube,
            Channel::Rotation,
        ),
        InputField::LeafTranslationX
        | InputField::LeafTranslationY
        | InputField::LeafTranslationZ => (SceneNode::LeafCube, Channel::Translation),
        InputField::LightPositionX | InputField::LightPositionY | InputField::LightPositionZ => (
            SceneNode::Light,
            Channel::Translation,
        ),
    };
    let axis = match tag {
        InputField::MainRotationX
        | InputField::LeafRotationX
        | InputField::LeafTranslationX
        | InputField::LightPositionX => Axis::X,
        InputField::MainRotationY
        | InputField::LeafRotationY
        | InputField::LeafTranslationY
        | InputField::LightPositionY => Axis::Y,
        InputField::MainRotationZ
        | InputField::LeafRotationZ
        | InputField::LeafTranslationZ
        | InputField::LightPositionZ => Axis::Z,
    };
    Binding { node, channel, axis }
}

/// No slot is fed by two tags: tags bound to the same slot are the same tag.
pub proof fn lemma_binding_is_one_to_one(a: InputField, b: InputField)
    requires
        binding_of(a) == binding_of(b),
    ensures
        a == b,
{
}

// ---------------------------------------------------------------------------
// Apply: fields -> node
// ---------------------------------------------------------------------------

/// The text bound to slot `tag`: that of the last field tagged with it, or
/// `fallback` where no field is.
pub open spec fn bound_text(fields: Seq<TextInputView>, tag: InputField, fallback: Seq<char>) -> Seq<
    char,
>
    decreases fields.len(),
{
    if fields.len() == 0 {
        fallback
    } else if fields.last().field == tag {
        fields.last().value
    } else {
        bound_text(fields.drop_last(), tag, fallback)
    }
}

/// Whether `tag` is one of the driver node's rotation slots.
pub open spec fn is_main_rotation(tag: InputField) -> bool {
    binding_of(tag).node is MainCube && binding_of(tag).channel is Rotation
}

/// The texts bound to the driver node's rotation; an axis without a field
/// reads `"0"`.
pub open spec fn main_rotation_texts(fields: Seq<TextInputView>) -> (Seq<char>, Seq<char>, Seq<char>) {
    (
        bound_text(fields, InputField::MainRotationX, "0"@),
        bound_text(fields, InputField::MainRotationY, "0"@),
        bound_text(fields, InputField::MainRotationZ, "0"@),
    )
}

/// The texts bound to the dependent node's rotation; an axis without a field
/// reads `"0"`.
pub open spec fn leaf_rotation_texts(fields: Seq<TextInputView>) -> (Seq<char>, Seq<char>, Seq<char>) {
    (
        bound_text(fields, InputField::LeafRotationX, "0"@),
        bound_text(fields, InputField::LeafRotationY, "0"@),
        bound_text(fields, InputField::LeafRotationZ, "0"@),
    )
}

/// The texts bound to the dependent node's translation; an axis without a
/// field reads `"0"`.
pub open spec fn leaf_translation_texts(fields: Seq<TextInputView>) -> (
    Seq<char>,
    Seq<char>,
    Seq<char>,
) {
    (
        bound_text(fields, InputField::LeafTranslationX, "0"@),
        bound_text(fields, InputField::LeafTranslationY, "0"@),
        bound_text(fields, InputField::LeafTranslationZ, "0"@),
    )
}

/// The texts bound to the light's position; an axis without a field reads the
/// light's initial position, `(-4, 6, 4)`.
pub open spec fn light_position_texts(fields: Seq<TextInputView>) -> (Seq<char>, Seq<char>, Seq<char>) {
    (
        bound_text(fields, InputField::LightPositionX, "-4"@),
        bound_text(fields, InputField::LightPositionY, "6"@),
        bound_text(fields, InputField::LightPositionZ, "4"@),
    )
}

/// The rendered angle that mirroring `rotation` writes for slot `tag`.
pub open spec fn mirrored_text(rotation: EulerDegrees, tag: InputField) -> Seq<char> {
    match tag {
        InputField::MainRotationX => decimal_text(rotation.x as int),
        InputField::MainRotationY => decimal_text(rotation.y as int),
        _ => decimal_text(rotation.z as int),
    }
}

/// Whether some field is tagged with `tag`.
pub open spec fn has_field(fields: Seq<TextInputView>, tag: InputField) -> bool {
    exists|i: int| 0 <= i < fields.len() && (#[trigger] fields[i]).field == tag
}

/// What was mirrored is what gets applied: once a rotation has been mirrored
/// into the fields while none of the driver's rotation fields is focused, the
/// text bound to each of the driver's rotation slots that has a field is the
/// rendered angle of that axis.
pub proof fn lemma_apply_reads_what_sync_wrote(
    fields: Seq<TextInputView>,
    rotation: EulerDegrees,
    tag: InputField,
    fallback: Seq<char>,
)
    requires
        is_main_rotation(tag),
        forall|i: int|
            0 <= i < fields.len() && is_main_rotation((#[trigger] fields[i]).field)
                ==> !fields[i].is_focused,
    ensures
        bound_text(synced_fields(fields, false, Some(rotation)), tag, fallback) == if has_field(
            fields,
            tag,
        ) {
            mirrored_text(rotation, tag)
        } else {
            fallback
        },
    decreases fields.len(),
{
    let after = synced_fields(fields, false, Some(rotation));
    if fields.len() > 0 {
        let rest = fields.drop_last();
        assert(after.drop_last() =~= synced_fields(rest, false, Some(rotation)));
        assert(after.last() == synced(fields.last(), false, Some(rotation)));
        if fields.last().field == tag {
            assert(fields[fields.len() - 1].field == tag);
        } else {
            lemma_apply_reads_what_sync_wrote(rest, rotation, tag, fallback);
            if has_field(rest, tag) {
                let i = choose|i: int| 0 <= i < rest.len() && (#[trigger] rest[i]).field == tag;
                assert(fields[i].field == tag);
            }
            if has_field(fields, tag) {
                let i = choose|i: int| 0 <= i < fields.len() && (#[trigger] fields[i]).field == tag;
                assert(rest[i].field == tag);
            }
        }
    }
}

impl AxisTexts {
    /// The three texts as sequences of characters.
    pub open spec fn texts(&self) -> (Seq<char>, Seq<char>, Seq<char>) {
        (self.x@, self.y@, self.z@)
    }
}

fn text_bound_to(inputs: &Vec<TextInput>, tag: InputField, fallback: &str) -> (text: String)
    ensures
        text@ == bound_text(field_views(inputs@), tag, fallback@),
{
    let mut found: Option<usize> = None;
    let mut k: usize = 0;
    let ghost fields = field_views(inputs@);
    assert(fields.take(0).len() == 0);
    while k < inputs.len()
        invariant
            k <= inputs.len(),
            fields == field_views(inputs@),
            found matches Some(j) ==> j < k && fields[j as int].value == bound_text(
                fields.take(k as int),
                tag,
                fallback@,
            ),
            found is None ==> bound_text(fields.take(k as int), tag, fallback@) == fallback@,
        decreases inputs.len() - k,
    {
        proof {
            let next = fields.take(k as int + 1);
            assert(next.drop_last() =~= fields.take(k as int));
            assert(next.last() == fields[k as int]);
        }
        if inputs[k].field == tag {
            found = Some(k);
        }
        k += 1;
    }
    assert(fields.take(k as int) =~= fields);
    match found {
        Some(j) => inputs[j].value.clone(),
        None => String::from_str(fallback),
    }
}

/// Reads the texts that drive the dependent node: rotation in degrees about
/// X, Y and Z, and translation.
pub fn apply_leaf_rotation_from_inputs(inputs: &Vec<TextInput>) -> (pose: LeafPose)
    ensures
        pose.rotation.texts() == leaf_rotation_texts(field_views(inputs@)),
        pose.translation.texts() == leaf_translation_texts(field_views(inputs@)),
{
    LeafPose {
        rotation: AxisTexts {
            x: text_bound_to(inputs, InputField::LeafRotationX, "0"),
            y: text_bound_to(inputs, InputField::LeafRotationY, "0"),
            z: text_bound_to(inputs, InputField::LeafRotationZ, "0"),
        },
        translation: AxisTexts {
            x: text_bound_to(inputs, InputField::LeafTranslationX, "0"),
            y: text_bound_to(inputs, InputField::LeafTranslationY, "0"),
            z: text_bound_to(inputs, InputField::LeafTranslationZ, "0"),
        },
    }
}

/// Reads the texts that drive the driver node's rotation, provided one of its
/// rotation fields is among the fields whose text `changed` since the last
/// frame; otherwise returns `None`, and the node keeps the rotation that
/// keyboard or automatic motion gave it.
pub fn apply_main_rotation_from_inputs(changed: &Vec<InputField>, inputs: &Vec<TextInput>) -> (rotation:
    Option<AxisTexts>)
    ensures
        rotation is Some <==> exists|i: int|
            0 <= i < changed.len() && is_main_rotation(#[trigger] changed[i]),
        rotation matches Some(texts) ==> texts.texts() == main_rotation_texts(field_views(inputs@)),
{
    let mut has_main_rotation_change = false;
    let mut k: usize = 0;
    while k < changed.len()
        invariant
            k <= changed.len(),
            has_main_rotation_change <==> exists|i: int|
                0 <= i < k && is_main_rotation(#[trigger] changed[i]),
        decreases changed.len() - k,
    {
        let slot = binding(changed[k]);
        if let (SceneNode::MainCube, Channel::Rotation) = (slot.node, slot.channel) {
            has_main_rotation_change = true;
        }
        k += 1;
    }
    if !has_main_rotation_change {
        return None;
    }
    Some(
        AxisTexts {
            x: text_bound_to(inputs, InputField::MainRotationX, "0"),
            y: text_bound_to(inputs, InputField::MainRotationY, "0"),
            z: text_bound_to(inputs, InputField::MainRotationZ, "0"),
        },
    )
}

/// Reads the texts that drive the light's position.
pub fn apply_light_position_from_inputs(inputs: &Vec<TextInput>) -> (position: AxisTexts)
    ensures
        position.texts() == light_position_texts(field_views(inputs@)),
{
    AxisTexts {
        x: text_bound_to(inputs, InputField::LightPositionX, "-4"),
        y: text_bound_to(inputs, InputField::LightPositionY, "6"),
        z: text_bound_to(inputs, InputField::LightPositionZ, "4"),
    }
}

} // verus!
