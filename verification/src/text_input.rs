//! Text fields: the character filter, focus hand-over, key editing, cursor
//! blink and the text shown for each field.
//!
//! Fields live in a `Vec<TextInput>`; a field is named by its index in that
//! vector. Durations are whole microseconds.

use vstd::prelude::*;
use vstd::string::*;

verus! {

/// Blink period of the cursor, in microseconds (half a second).
pub const CURSOR_BLINK_PERIOD: u64 = 500_000;

/// The slot of the scene that a field edits.
#[derive(Clone, Copy, Debug, PartialEq, Eq, Structural)]
pub enum InputField {
    MainRotationX,
    MainRotationY,
    MainRotationZ,
    LeafRotationX,
    LeafRotationY,
    LeafRotationZ,
    LeafTranslationX,
    LeafTranslationY,
    LeafTranslationZ,
    LightPositionX,
    LightPositionY,
    LightPositionZ,
}

/// One editable field: the slot it edits, its raw text, whether it owns the
/// keyboard, and the state of its blinking cursor. `cursor_timer` counts the
/// microseconds since the cursor last toggled.
pub struct TextInput {
    pub field: InputField,
    pub value: String,
    pub is_focused: bool,
    pub cursor_visible: bool,
    pub cursor_timer: u64,
}

/// Mathematical value of a [`TextInput`]: the same record with the text as a
/// sequence of characters.
pub struct TextInputView {
    pub field: InputField,
    pub value: Seq<char>,
    pub is_focused: bool,
    pub cursor_visible: bool,
    pub cursor_timer: u64,
}

impl View for TextInput {
    type V = TextInputView;

    open spec fn view(&self) -> TextInputView {
        TextInputView {
            field: self.field,
            value: self.value@,
            is_focused: self.is_focused,
            cursor_visible: self.cursor_visible,
            cursor_timer: self.cursor_timer,
        }
    }
}

impl TextInput {
    /// An unfocused field for `field` holding `initial`, cursor hidden.
    pub fn new(field: InputField, initial: &str) -> (input: TextInput)
        ensures
            input@ == (TextInputView {
                field,
                value: initial@,
                is_focused: false,
                cursor_visible: false,
                cursor_timer: 0,
            }),
    {
        TextInput {
            field,
            value: String::from_str(initial),
            is_focused: false,
            cursor_visible: false,
            cursor_timer: 0,
        }
    }
}

/// The field that currently owns the keyboard, if any, by index.
pub struct InputFocusState {
    pub focused_entity: Option<usize>,
}

impl Default for InputFocusState {
    fn default() -> (state: InputFocusState)
        ensures
            state.focused_entity is None,
    {
        InputFocusState { focused_entity: None }
    }
}

/// What the pointer is doing over an entity.
#[derive(Clone, Copy, Debug, PartialEq, Eq, Structural)]
pub enum Interaction {
    Pressed,
    Hovered,
    Idle,
}

/// The logical key of a keyboard event, as far as editing cares.
pub enum EditKey {
    Character(String),
    Backspace,
    Escape,
    Other,
}

/// One keyboard event: the key, whether it went down (rather than up), and
/// whether it is an automatic repeat of a held key.
pub struct KeyEvent {
    pub key: EditKey,
    pub pressed: bool,
    pub repeat: bool,
}

/// The focus slot together with the value of every field.
pub struct FocusModel {
    pub focused: Option<usize>,
    pub fields: Seq<TextInputView>,
}

/// The values of a vector of fields, index by index.
pub open spec fn field_views(inputs: Seq<TextInput>) -> Seq<TextInputView> {
    Seq::new(inputs.len(), |i: int| inputs[i]@)
}

/// The model of a focus slot and a vector of fields.
pub open spec fn focus_model(focus: InputFocusState, inputs: Seq<TextInput>) -> FocusModel {
    FocusModel { focused: focus.focused_entity, fields: field_views(inputs) }
}

/// Focus is consistent when the fields flagged as focused are exactly the one
/// that the focus slot records: at most one field is focused, and the slot
/// names it.
pub open spec fn focus_consistent(s: FocusModel) -> bool {
    &&& s.focused matches Some(e) ==> e < s.fields.len()
    &&& forall|i: int|
        0 <= i < s.fields.len() ==> (#[trigger] s.fields[i].is_focused <==> (s.focused is Some
            && s.focused->0 == i))
}

// ---------------------------------------------------------------------------
// Character filter
// ---------------------------------------------------------------------------

/// Whether `c` is one of the ten ASCII digits.
pub open spec fn is_ascii_digit(c: char) -> bool {
    '0' <= c && c <= '9'
}

/// Whether `s` holds nothing but ASCII digits.
pub open spec fn all_ascii_digits(s: Seq<char>) -> bool {
    forall|i: int| 0 <= i < s.len() ==> is_ascii_digit(#[trigger] s[i])
}

/// The acceptance policy: typed text `c` may be appended to `current` when it
/// is made of ASCII digits only, or is a minus sign and `current` is empty, or
/// is a decimal point and `current` holds none yet.
pub open spec fn accepts(c: Seq<char>, current: Seq<char>) -> bool {
    ||| all_ascii_digits(c)
    ||| (c == seq!['-'] && current.len() == 0)
    ||| (c == seq!['.'] && !current.contains('.'))
}

fn is_all_ascii_digits(s: &str) -> (ok: bool)
    ensures
        ok == all_ascii_digits(s@),
{
    let mut ok = true;
    for c in it: s.chars()
        invariant
            it.seq() == s@,
            ok == (forall|i: int| 0 <= i < it.index() ==> is_ascii_digit(#[trigger] s@[i])),
    {
        if !('0' <= c && c <= '9') {
            ok = false;
        }
    }
    ok
}

fn contains_char(s: &str, needle: char) -> (found: bool)
    ensures
        found == s@.contains(needle),
{
    let mut found = false;
    for c in it: s.chars()
        invariant
            it.seq() == s@,
            found == (exists|i: int| 0 <= i < it.index() && s@[i] == needle),
    {
        if c == needle {
            found = true;
        }
    }
    found
}

/// Whether the typed text `c` may be appended to `current_value`.
pub fn is_valid_char(c: &str, current_value: &str) -> (ok: bool)
    ensures
        ok == accepts(c@, current_value@),
{
    if is_all_ascii_digits(c) {
        return true;
    }
    if c.unicode_len() == 1 {
        let ch = c.get_char(0);
        assert(c@ =~= seq![ch]);
        if ch == '-' && current_value.is_empty() {
            return true;
        }
        if ch == '.' && !contains_char(current_value, '.') {
            return true;
        }
        assert(seq![ch] == seq!['-'] ==> seq![ch][0] == '-');
        assert(seq![ch] == seq!['.'] ==> seq![ch][0] == '.');
    } else {
        assert(seq!['-'].len() == 1 && seq!['.'].len() == 1);
    }
    false
}

/// A minus sign is accepted by an empty field, and by no other.
pub proof fn lemma_minus_only_leads(current: Seq<char>)
    ensures
        accepts(seq!['-'], current) <==> current.len() == 0,
{
    assert(seq!['-'][0] == '-');
    assert(seq!['.'][0] == '.');
}

/// A decimal point is accepted exactly when the field holds none yet.
pub proof fn lemma_single_decimal_point(current: Seq<char>)
    ensures
        accepts(seq!['.'], current) <==> !current.contains('.'),
{
    assert(seq!['-'][0] == '-');
    assert(seq!['.'][0] == '.');
}

/// A single character that is neither a digit, a minus sign nor a decimal
/// point is rejected by every field.
pub proof fn lemma_other_characters_rejected(c: char, current: Seq<char>)
    requires
        !is_ascii_digit(c),
        c != '-',
        c != '.',
    ensures
        !accepts(seq![c], current),
{
    assert(seq![c][0] == c);
    assert(seq!['-'][0] == '-');
    assert(seq!['.'][0] == '.');
}

// ---------------------------------------------------------------------------
// Focus
// ---------------------------------------------------------------------------

/// `f` without the keyboard.
pub open spec fn defocused(f: TextInputView) -> TextInputView {
    TextInputView { is_focused: false, ..f }
}

/// `f` as it is right after gaining the keyboard: cursor shown, timer at 0.
pub open spec fn freshly_focused(f: TextInputView) -> TextInputView {
    TextInputView { is_focused: true, cursor_visible: true, cursor_timer: 0, ..f }
}

/// The pointer was pressed on `entity`. An entity that is no field changes
/// nothing. Otherwise the previous holder, if it is another field, loses the
/// keyboard, and `entity` gains it.
pub open spec fn activate(s: FocusModel, entity: usize) -> FocusModel {
    if entity < s.fields.len() {
        let cleared = if s.focused is Some && s.focused->0 != entity && s.focused->0
            < s.fields.len() {
            s.fields.update(s.focused->0 as int, defocused(s.fields[s.focused->0 as int]))
        } else {
            s.fields
        };
        FocusModel {
            focused: Some(entity),
            fields: cleared.update(entity as int, freshly_focused(cleared[entity as int])),
        }
    } else {
        s
    }
}

/// The effect of one pointer event: only a press activates.
pub open spec fn pointer_step(s: FocusModel, event: (Interaction, usize)) -> FocusModel {
    if event.0 is Pressed {
        activate(s, event.1)
    } else {
        s
    }
}

/// The effect of a batch of pointer events, in arrival order.
pub open spec fn pointer_fold(s: FocusModel, events: Seq<(Interaction, usize)>) -> FocusModel
    decreases events.len(),
{
    if events.len() == 0 {
        s
    } else {
        pointer_step(pointer_fold(s, events.drop_last()), events.last())
    }
}

/// One pointer event keeps focus consistent.
pub proof fn lemma_pointer_step_consistent(s: FocusModel, event: (Interaction, usize))
    requires
        focus_consistent(s),
    ensures
        focus_consistent(pointer_step(s, event)),
{
    let t = pointer_step(s, event);
    assert forall|i: int| 0 <= i < t.fields.len() implies (#[trigger] t.fields[i].is_focused <==> (
    t.focused is Some && t.focused->0 == i)) by {
        assert(s.fields[i].is_focused <==> (s.focused is Some && s.focused->0 == i));
    }
}

/// A batch of pointer events keeps focus consistent: afterwards at most one
/// field is focused, and it is the one the focus slot records.
pub proof fn lemma_pointer_fold_consistent(s: FocusModel, events: Seq<(Interaction, usize)>)
    requires
        focus_consistent(s),
    ensures
        focus_consistent(pointer_fold(s, events)),
    decreases events.len(),
{
    if events.len() > 0 {
        lemma_pointer_fold_consistent(s, events.drop_last());
        lemma_pointer_step_consistent(pointer_fold(s, events.drop_last()), events.last());
    }
}

/// Under consistent focus no two fields are focused at once, and a focused
/// field is the one that the focus slot records.
pub proof fn lemma_consistent_focus_is_unique(s: FocusModel, i: int, j: int)
    requires
        focus_consistent(s),
        0 <= i < s.fields.len(),
        0 <= j < s.fields.len(),
        s.fields[i].is_focused,
        s.fields[j].is_focused,
    ensures
        i == j,
        s.focused == Some(i as usize),
{
}

/// Focus is consistent where nothing is focused and the slot is empty.
pub proof fn lemma_unfocused_consistent(s: FocusModel)
    requires
        s.focused is None,
        forall|i: int| 0 <= i < s.fields.len() ==> !(#[trigger] s.fields[i]).is_focused,
    ensures
        focus_consistent(s),
{
}

/// Starting with no field focused and an empty focus slot, any batch of
/// pointer events leaves at most one field focused, and the focus slot
/// records exactly that field.
pub proof fn lemma_focus_unique_after_presses(
    fields: Seq<TextInputView>,
    events: Seq<(Interaction, usize)>,
)
    requires
        forall|i: int| 0 <= i < fields.len() ==> !(#[trigger] fields[i]).is_focused,
    ensures
        focus_consistent(pointer_fold(FocusModel { focused: None, fields }, events)),
{
    let start = FocusModel { focused: None, fields };
    lemma_unfocused_consistent(start);
    lemma_pointer_fold_consistent(start, events);
}

/// After a press on a field, that field holds the keyboard, whatever the
/// state before.
pub proof fn lemma_activate_focuses(s: FocusModel, entity: usize)
    requires
        entity < s.fields.len(),
    ensures
        activate(s, entity).focused == Some(entity),
        activate(s, entity).fields[entity as int].is_focused,
        activate(s, entity).fields[entity as int].value == s.fields[entity as int].value,
{
}

/// A press on one field leaves the text of every field as it was.
pub proof fn lemma_activate_keeps_text(s: FocusModel, entity: usize, i: int)
    requires
        0 <= i < s.fields.len(),
    ensures
        activate(s, entity).fields.len() == s.fields.len(),
        activate(s, entity).fields[i].value == s.fields[i].value,
        activate(s, entity).fields[i].field == s.fields[i].field,
{
}

/// Moves keyboard focus in response to a batch of pointer events, given as
/// pairs of what the pointer did and the entity it did it over.
pub fn handle_text_input_focus(
    interactions: &Vec<(Interaction, usize)>,
    focus_state: &mut InputFocusState,
    all_inputs: &mut Vec<TextInput>,
)
    ensures
        final(all_inputs).len() == old(all_inputs).len(),
        focus_model(*final(focus_state), final(all_inputs)@) == pointer_fold(
            focus_model(*old(focus_state), old(all_inputs)@),
            interactions@,
        ),
        focus_consistent(focus_model(*old(focus_state), old(all_inputs)@)) ==> focus_consistent(
            focus_model(*final(focus_state), final(all_inputs)@),
        ),
{
    let ghost start = focus_model(*focus_state, all_inputs@);
    let mut k: usize = 0;
    assert(interactions@.take(0).len() == 0);
    while k < interactions.len()
        invariant
            k <= interactions.len(),
            all_inputs.len() == old(all_inputs).len(),
            focus_model(*focus_state, all_inputs@) == pointer_fold(
                start,
                interactions@.take(k as int),
            ),
        decreases interactions.len() - k,
    {
        let ghost before = focus_model(*focus_state, all_inputs@);
        let (interaction, entity) = interactions[k];
        match interaction {
            Interaction::Pressed => {
                if entity < all_inputs.len() {
                    if let Some(prev) = focus_state.focused_entity {
                        if prev != entity && prev < all_inputs.len() {
                            all_inputs[prev].is_focused = false;
                        }
                    }
                    let input = &mut all_inputs[entity];
                    input.is_focused = true;
                    input.cursor_visible = true;
                    input.cursor_timer = 0;
                    focus_state.focused_entity = Some(entity);
                }
            },
            _ => {},
        }
        proof {
            let events = interactions@.take(k as int + 1);
            assert(events.drop_last() =~= interactions@.take(k as int));
            assert(events.last() == interactions@[k as int]);
            assert(focus_model(*focus_state, all_inputs@).fields =~= pointer_step(
                before,
                interactions@[k as int],
            ).fields);
        }
        k += 1;
    }
    proof {
        assert(interactions@.take(k as int) =~= interactions@);
        if focus_consistent(start) {
            lemma_pointer_fold_consistent(start, interactions@);
        }
    }
}

// ---------------------------------------------------------------------------
// Key editing
// ---------------------------------------------------------------------------

/// The text after typing `c`: appended where the filter accepts it, dropped
/// silently where it does not.
pub open spec fn typed(value: Seq<char>, c: Seq<char>) -> Seq<char> {
    if accepts(c, value) {
        value + c
    } else {
        value
    }
}

/// The text after Backspace: without its last character, or still empty.
pub open spec fn erased(value: Seq<char>) -> Seq<char> {
    if value.len() > 0 {
        value.drop_last()
    } else {
        value
    }
}

/// The effect of one keyboard event. Only a fresh press reaches the focused
/// field; releases and repeats are ignored, and so is every event while no
/// field is focused. Escape takes the keyboard from the field and empties the
/// focus slot, so that later events of the batch go nowhere.
pub open spec fn key_step(s: FocusModel, event: KeyEvent) -> FocusModel {
    if s.focused is Some && s.focused->0 < s.fields.len() && event.pressed && !event.repeat {
        let e = s.focused->0 as int;
        let f = s.fields[e];
        match event.key {
            EditKey::Character(c) => FocusModel {
                fields: s.fields.update(e, TextInputView { value: typed(f.value, c@), ..f }),
                ..s
            },
            EditKey::Backspace => FocusModel {
                fields: s.fields.update(e, TextInputView { value: erased(f.value), ..f }),
                ..s
            },
            EditKey::Escape => FocusModel {
                focused: None,
                fields: s.fields.update(e, defocused(f)),
            },
            EditKey::Other => s,
        }
    } else {
        s
    }
}

/// The effect of a batch of keyboard events, in arrival order.
pub open spec fn key_fold(s: FocusModel, events: Seq<KeyEvent>) -> FocusModel
    decreases events.len(),
{
    if events.len() == 0 {
        s
    } else {
        key_step(key_fold(s, events.drop_last()), events.last())
    }
}

/// One keyboard event keeps focus consistent.
pub proof fn lemma_key_step_consistent(s: FocusModel, event: KeyEvent)
    requires
        focus_consistent(s),
    ensures
        focus_consistent(key_step(s, event)),
{
    let t = key_step(s, event);
    assert forall|i: int| 0 <= i < t.fields.len() implies (#[trigger] t.fields[i].is_focused <==> (
    t.focused is Some && t.focused->0 == i)) by {
        assert(s.fields[i].is_focused <==> (s.focused is Some && s.focused->0 == i));
    }
}

/// A batch of keyboard events keeps focus consistent.
pub proof fn lemma_key_fold_consistent(s: FocusModel, events: Seq<KeyEvent>)
    requires
        focus_consistent(s),
    ensures
        focus_consistent(key_fold(s, events)),
    decreases events.len(),
{
    if events.len() > 0 {
        lemma_key_fold_consistent(s, events.drop_last());
        lemma_key_step_consistent(key_fold(s, events.drop_last()), events.last());
    }
}

/// Backspace on a focused field whose text is empty changes nothing at all.
pub proof fn lemma_backspace_on_empty(s: FocusModel, event: KeyEvent)
    requires
        event.key is Backspace,
        s.focused is Some && s.focused->0 < s.fields.len() ==> s.fields[s.focused->0 as int].value.len()
            == 0,
    ensures
        key_step(s, event) == s,
{
    if s.focused is Some && s.focused->0 < s.fields.len() && event.pressed && !event.repeat {
        assert(key_step(s, event).fields =~= s.fields);
    }
}

/// Keyboard events touch no field but the focused one.
pub proof fn lemma_key_step_elsewhere(s: FocusModel, event: KeyEvent, i: int)
    requires
        0 <= i < s.fields.len(),
        !(s.focused is Some && s.focused->0 == i),
    ensures
        key_step(s, event).fields.len() == s.fields.len(),
        key_step(s, event).fields[i] == s.fields[i],
{
}

/// `String::pop` removes the last character of the string and returns it, or
/// returns `None` and leaves the string alone where it is empty.
pub assume_specification[ String::pop ](s: &mut String) -> (c: Option<char>)
    ensures
        old(s)@.len() == 0 ==> c is None && final(s)@ == old(s)@,
        old(s)@.len() > 0 ==> c == Some(old(s)@.last()) && final(s)@ == old(s)@.drop_last(),
;

/// The slot whose text differs between `before` and `after`, where the only
/// field that may differ is the one focused in `before`.
pub open spec fn edited_field(before: FocusModel, after: FocusModel) -> Option<InputField> {
    if before.focused is Some && before.focused->0 < before.fields.len()
        && after.fields[before.focused->0 as int].value
        != before.fields[before.focused->0 as int].value {
        Some(before.fields[before.focused->0 as int].field)
    } else {
        None
    }
}

/// Applies a batch of keyboard events to the focused field, and returns the
/// slot of that field where the batch left its text other than it was.
pub fn handle_keyboard_input(
    keyboard_events: &Vec<KeyEvent>,
    focus_state: &mut InputFocusState,
    inputs: &mut Vec<TextInput>,
) -> (edited: Option<InputField>)
    ensures
        final(inputs).len() == old(inputs).len(),
        focus_model(*final(focus_state), final(inputs)@) == key_fold(
            focus_model(*old(focus_state), old(inputs)@),
            keyboard_events@,
        ),
        focus_consistent(focus_model(*old(focus_state), old(inputs)@)) ==> focus_consistent(
            focus_model(*final(focus_state), final(inputs)@),
        ),
        edited == edited_field(
            focus_model(*old(focus_state), old(inputs)@),
            focus_model(*final(focus_state), final(inputs)@),
        ),
{
    let ghost start = focus_model(*focus_state, inputs@);
    let watched: Option<(usize, InputField, String)> = match focus_state.focused_entity {
        Some(focused) if focused < inputs.len() => Some(
            (focused, inputs[focused].field, inputs[focused].value.clone()),
        ),
        _ => None,
    };
    let mut k: usize = 0;
    assert(keyboard_events@.take(0).len() == 0);
    while k < keyboard_events.len()
        invariant
            k <= keyboard_events.len(),
            inputs.len() == old(inputs).len(),
            focus_model(*focus_state, inputs@) == key_fold(start, keyboard_events@.take(k as int)),
        decreases keyboard_events.len() - k,
    {
        let ghost before = focus_model(*focus_state, inputs@);
        let event = &keyboard_events[k];
        if let Some(focused) = focus_state.focused_entity {
            if focused < inputs.len() && event.pressed && !event.repeat {
                let input = &mut inputs[focused];
                match &event.key {
                    EditKey::Character(c) => {
                        if is_valid_char(c.as_str(), input.value.as_str()) {
                            input.value.append(c.as_str());
                        }
                    },
                    EditKey::Backspace => {
                        input.value.pop();
                    },
                    EditKey::Escape => {
                        input.is_focused = false;
                        focus_state.focused_entity = None;
                    },
                    EditKey::Other => {},
                }
            }
        }
        proof {
            let events = keyboard_events@.take(k as int + 1);
            assert(events.drop_last() =~= keyboard_events@.take(k as int));
            assert(events.last() == keyboard_events@[k as int]);
            assert(focus_model(*focus_state, inputs@).fields =~= key_step(
                before,
                keyboard_events@[k as int],
            ).fields);
        }
        k += 1;
    }
    proof {
        assert(keyboard_events@.take(k as int) =~= keyboard_events@);
        if focus_consistent(start) {
            lemma_key_fold_consistent(start, keyboard_events@);
        }
    }
    match watched {
        Some((focused, field, text)) => {
            if inputs[focused].value != text {
                Some(field)
            } else {
                None
            }
        },
        None => None,
    }
}

// ---------------------------------------------------------------------------
// Cursor blink
// ---------------------------------------------------------------------------

/// A field after `delta` microseconds. A focused field adds them to its
/// timer; once the timer reaches the blink period the cursor toggles and the
/// timer restarts. An unfocused field does not count.
pub open spec fn blinked(f: TextInputView, delta: u64) -> TextInputView {
    if !f.is_focused {
        f
    } else if f.cursor_timer + delta >= CURSOR_BLINK_PERIOD {
        TextInputView { cursor_visible: !f.cursor_visible, cursor_timer: 0, ..f }
    } else {
        TextInputView { cursor_timer: (f.cursor_timer + delta) as u64, ..f }
    }
}

/// Advances the cursor timer of every field by `delta` microseconds.
pub fn update_cursor_blink(delta: u64, inputs: &mut Vec<TextInput>)
    ensures
        final(inputs).len() == old(inputs).len(),
        forall|i: int|
            0 <= i < old(inputs).len() ==> (#[trigger] final(inputs)[i])@ == blinked(
                old(inputs)[i]@,
                delta,
            ),
{
    let mut k: usize = 0;
    while k < inputs.len()
        invariant
            k <= inputs.len(),
            inputs.len() == old(inputs).len(),
            forall|i: int| 0 <= i < k ==> (#[trigger] inputs[i])@ == blinked(old(inputs)[i]@, delta),
            forall|i: int| k <= i < inputs.len() ==> (#[trigger] inputs[i])@ == old(inputs)[i]@,
        decreases inputs.len() - k,
    {
        let input = &mut inputs[k];
        if input.is_focused {
            match input.cursor_timer.checked_add(delta) {
                Some(elapsed) if elapsed < CURSOR_BLINK_PERIOD => {
                    input.cursor_timer = elapsed;
                },
                _ => {
                    input.cursor_visible = !input.cursor_visible;
                    input.cursor_timer = 0;
                },
            }
        }
        k += 1;
    }
}

// ---------------------------------------------------------------------------
// Display
// ---------------------------------------------------------------------------

/// The text shown for a field: its value, followed by the cursor glyph `|`
/// while the field is focused and its cursor is in the visible phase.
pub open spec fn shown(f: TextInputView) -> Seq<char> {
    if f.is_focused && f.cursor_visible {
        f.value.push('|')
    } else {
        f.value
    }
}

/// The text to show for one field.
pub fn display_text(input: &TextInput) -> (text: String)
    ensures
        text@ == shown(input@),
{
    let mut text = input.value.clone();
    if input.is_focused && input.cursor_visible {
        proof {
            reveal_strlit("|");
        }
        text.append("|");
        assert(text@ =~= input.value@.push('|'));
    }
    text
}

/// The text to show for every field, index by index.
pub fn update_text_input_display(inputs: &Vec<TextInput>) -> (texts: Vec<String>)
    ensures
        texts.len() == inputs.len(),
        forall|i: int| 0 <= i < inputs.len() ==> (#[trigger] texts[i])@ == shown(inputs[i]@),
{
    let mut texts: Vec<String> = Vec::new();
    let mut k: usize = 0;
    while k < inputs.len()
        invariant
            k <= inputs.len(),
            texts.len() == k,
            forall|i: int| 0 <= i < k ==> (#[trigger] texts[i])@ == shown(inputs[i]@),
        decreases inputs.len() - k,
    {
        texts.push(display_text(&inputs[k]));
        k += 1;
    }
    texts
}

} // verus!
