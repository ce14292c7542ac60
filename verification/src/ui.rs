//! The on-screen rotation buttons and what a press on each of them asks for.

use crate::scene::{Axis, AutoRotation, RotationCommand, Space};
use crate::text_input::Interaction;
use vstd::prelude::*;

verus! {

/// The angle of one press on an axis button, in billionths of a radian.
pub const BUTTON_ROTATION_AMOUNT: i128 = 100_000_000;

/// The buttons that act on the driver node.
#[derive(Clone, Copy, Debug, PartialEq, Eq, Structural)]
pub enum RotationButton {
    ToggleAuto,
    Reset,
    PlusX,
    MinusX,
    PlusY,
    MinusY,
    PlusZ,
    MinusZ,
}

/// Automatic rotation and the commands issued so far.
pub struct ButtonModel {
    pub auto_enabled: bool,
    pub commands: Seq<RotationCommand>,
}

/// The turn about the node's own `axis` that an axis button asks for.
pub open spec fn button_turn(axis: Axis, positive: bool) -> RotationCommand {
    RotationCommand::Turn {
        space: Space::Local,
        axis,
        angle: if positive {
            BUTTON_ROTATION_AMOUNT
        } else {
            (-BUTTON_ROTATION_AMOUNT) as i128
        },
    }
}

/// The effect of one pointer event on a button: only a press counts. The
/// toggle button flips automatic rotation; every other button issues one
/// command.
pub open spec fn button_step(s: ButtonModel, event: (Interaction, RotationButton)) -> ButtonModel {
    if event.0 is Pressed {
        match event.1 {
            RotationButton::ToggleAuto => ButtonModel { auto_enabled: !s.auto_enabled, ..s },
            RotationButton::Reset => ButtonModel {
                commands: s.commands.push(RotationCommand::Reset),
                ..s
            },
            RotationButton::PlusX => ButtonModel {
                commands: s.commands.push(button_turn(Axis::X, true)),
                ..s
            },
            RotationButton::MinusX => ButtonModel {
                commands: s.commands.push(button_turn(Axis::X, false)),
                ..s
            },
            RotationButton::PlusY => ButtonModel {
                commands: s.commands.push(button_turn(Axis::Y, true)),
                ..s
            },
            RotationButton::MinusY => ButtonModel {
                commands: s.commands.push(button_turn(Axis::Y, false)),
                ..s
            },
            RotationButton::PlusZ => ButtonModel {
                commands: s.commands.push(button_turn(Axis::Z, true)),
                ..s
            },
            RotationButton::MinusZ => ButtonModel {
                commands: s.commands.push(button_turn(Axis::Z, false)),
                ..s
            },
        }
    } else {
        s
    }
}

/// The effect of a batch of pointer events on buttons, in arrival order.
pub open spec fn button_fold(s: ButtonModel, events: Seq<(Interaction, RotationButton)>) -> ButtonModel
    decreases events.len(),
{
    if events.len() == 0 {
        s
    } else {
        button_step(button_fold(s, events.drop_last()), events.last())
    }
}

/// Handles a batch of pointer events on rotation buttons: flips automatic
/// rotation for each press on the toggle, and returns, in order, the commands
/// that the other presses ask for.
pub fn handle_button_interaction(
    interactions: &Vec<(Interaction, RotationButton)>,
    auto_rotation: &mut AutoRotation,
) -> (commands: Vec<RotationCommand>)
    ensures
        (ButtonModel { auto_enabled: final(auto_rotation).enabled, commands: commands@ })
            == button_fold(
            ButtonModel { auto_enabled: old(auto_rotation).enabled, commands: Seq::empty() },
            interactions@,
        ),
{
    let ghost start = ButtonModel { auto_enabled: auto_rotation.enabled, commands: Seq::empty() };
    let mut commands: Vec<RotationCommand> = Vec::new();
    let mut k: usize = 0;
    assert(interactions@.take(0).len() == 0);
    while k < interactions.len()
        invariant
            k <= interactions.len(),
            (ButtonModel { auto_enabled: auto_rotation.enabled, commands: commands@ })
                == button_fold(start, interactions@.take(k as int)),
        decreases interactions.len() - k,
    {
        proof {
            let events = interactions@.take(k as int + 1);
            assert(events.drop_last() =~= interactions@.take(k as int));
            assert(events.last() == interactions@[k as int]);
        }
        let (interaction, button) = interactions[k];
        match interaction {
            Interaction::Pressed => {
                let space = Space::Local;
                match button {
                    RotationButton::ToggleAuto => {
                        auto_rotation.toggle();
                    },
                    RotationButton::Reset => {
                        commands.push(RotationCommand::Reset);
                    },
                    RotationButton::PlusX => {
                        commands.push(
                            RotationCommand::Turn { space, axis: Axis::X, angle: BUTTON_ROTATION_AMOUNT },
                        );
                    },
                    RotationButton::MinusX => {
                        commands.push(
                            RotationCommand::Turn { space, axis: Axis::X, angle: -BUTTON_ROTATION_AMOUNT },
                        );
                    },
                    RotationButton::PlusY => {
                        commands.push(
                            RotationCommand::Turn { space, axis: Axis::Y, angle: BUTTON_ROTATION_AMOUNT },
                        );
                    },
                    RotationButton::MinusY => {
                        commands.push(
                            RotationCommand::Turn { space, axis: Axis::Y, angle: -BUTTON_ROTATION_AMOUNT },
                        );
                    },
                    RotationButton::PlusZ => {
                        commands.push(
                            RotationCommand::Turn { space, axis: Axis::Z, angle: BUTTON_ROTATION_AMOUNT },
                        );
                    },
                    RotationButton::MinusZ => {
                        commands.push(
                            RotationCommand::Turn { space, axis: Axis::Z, angle: -BUTTON_ROTATION_AMOUNT },
                        );
                    },
                }
            },
            _ => {},
        }
        k += 1;
    }
    assert(interactions@.take(k as int) =~= interactions@);
    commands
}

} // verus!
