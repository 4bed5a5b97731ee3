//! The settings panel: its visibility, and what a button on it does.
use vstd::prelude::*;

use crate::text::same_text;

verus! {

/// Label of the button that moves the sprite one pixel to the right.
pub const INCREASE_X: &'static str = "+x";
/// Label of the button that moves the sprite one pixel to the left.
pub const DECREASE_X: &'static str = "-x";
/// Label of the button that moves the sprite one pixel up.
pub const INCREASE_Y: &'static str = "+y";
/// Label of the button that moves the sprite one pixel down.
pub const DECREASE_Y: &'static str = "-y";
/// Label of the button that writes the configuration back to disk.
pub const SAVE_TO_FILE: &'static str = "Save to file";

/// Whether the panel is laid out on screen or hidden.
#[derive(Clone, Copy, Debug, PartialEq, Eq, Structural)]
pub enum PanelDisplay {
    Flex,
    Hidden,
}

/// The other of the two display states.
pub open spec fn flipped(d: PanelDisplay) -> PanelDisplay {
    match d {
        PanelDisplay::Flex => PanelDisplay::Hidden,
        PanelDisplay::Hidden => PanelDisplay::Flex,
    }
}

/// The panel's display after a frame: a fresh press of Escape flips it,
/// otherwise it stays.
pub fn toggle_panel(display: PanelDisplay, escape_just_pressed: bool) -> (r: PanelDisplay)
    ensures
        r == (if escape_just_pressed { flipped(display) } else { display }),
{
    if escape_just_pressed {
        match display {
            PanelDisplay::Flex => PanelDisplay::Hidden,
            PanelDisplay::Hidden => PanelDisplay::Flex,
        }
    } else {
        display
    }
}

/// Two fresh presses of Escape bring the panel back to where it was.
pub proof fn lemma_toggle_twice(display: PanelDisplay)
    ensures
        flipped(flipped(display)) == display,
{
}

/// The state of the pointer over a button.
#[derive(Clone, Copy, Debug, PartialEq, Eq, Structural)]
pub enum Interaction {
    Clicked,
    Hovered,
    Idle,
}

/// The colour a button is painted in.
#[derive(Clone, Copy, Debug, PartialEq, Eq, Structural)]
pub enum ButtonShade {
    Normal,
    Hovered,
    Pressed,
}

/// What a click on a button asks of the configuration.
#[derive(Clone, Copy, Debug, PartialEq, Eq, Structural)]
pub enum PanelCommand {
    /// Add `dx` to the horizontal offset and `dy` to the vertical one.
    Nudge { dx: i8, dy: i8 },
    /// Write the configuration to its file.
    Save,
    /// Leave the configuration alone.
    Nothing,
}

/// The command of a button, by its label.
pub open spec fn label_command(label: Seq<char>) -> PanelCommand {
    if label == seq!['+', 'x'] {
        PanelCommand::Nudge { dx: 1, dy: 0 }
    } else if label == seq!['-', 'x'] {
        PanelCommand::Nudge { dx: -1i8, dy: 0 }
    } else if label == seq!['+', 'y'] {
        PanelCommand::Nudge { dx: 0, dy: 1 }
    } else if label == seq!['-', 'y'] {
        PanelCommand::Nudge { dx: 0, dy: -1i8 }
    } else if label == seq!['S', 'a', 'v', 'e', ' ', 't', 'o', ' ', 'f', 'i', 'l', 'e'] {
        PanelCommand::Save
    } else {
        PanelCommand::Nothing
    }
}

/// A button's shade and command for an interaction: a click presses it and
/// carries out its label's command; hovering or leaving it only repaints it.
pub open spec fn response(interaction: Interaction, label: Seq<char>) -> (ButtonShade, PanelCommand) {
    match interaction {
        Interaction::Clicked => (ButtonShade::Pressed, label_command(label)),
        Interaction::Hovered => (ButtonShade::Hovered, PanelCommand::Nothing),
        Interaction::Idle => (ButtonShade::Normal, PanelCommand::Nothing),
    }
}

/// The command of the button labelled `label`.
pub fn command_for_label(label: &str) -> (r: PanelCommand)
    ensures
        r == label_command(label@),
{
    proof {
        reveal_strlit("+x");
        reveal_strlit("-x");
        reveal_strlit("+y");
        reveal_strlit("-y");
        reveal_strlit("Save to file");
        assert(INCREASE_X@ =~= seq!['+', 'x']);
        assert(DECREASE_X@ =~= seq!['-', 'x']);
        assert(INCREASE_Y@ =~= seq!['+', 'y']);
        assert(DECREASE_Y@ =~= seq!['-', 'y']);
        assert(SAVE_TO_FILE@ =~= seq!['S', 'a', 'v', 'e', ' ', 't', 'o', ' ', 'f', 'i', 'l', 'e']);
    }
    if same_text(label, INCREASE_X) {
        PanelCommand::Nudge { dx: 1, dy: 0 }
    } else if same_text(label, DECREASE_X) {
        PanelCommand::Nudge { dx: -1, dy: 0 }
    } else if same_text(label, INCREASE_Y) {
        PanelCommand::Nudge { dx: 0, dy: 1 }
    } else if same_text(label, DECREASE_Y) {
        PanelCommand::Nudge { dx: 0, dy: -1 }
    } else if same_text(label, SAVE_TO_FILE) {
        PanelCommand::Save
    } else {
        PanelCommand::Nothing
    }
}

/// How the button labelled `label` answers an interaction.
pub fn button_response(interaction: Interaction, label: &str) -> (r: (ButtonShade, PanelCommand))
    ensures
        r == response(interaction, label@),
{
    match interaction {
        Interaction::Clicked => (ButtonShade::Pressed, command_for_label(label)),
        Interaction::Hovered => (ButtonShade::Hovered, PanelCommand::Nothing),
        Interaction::Idle => (ButtonShade::Normal, PanelCommand::Nothing),
    }
}

} // verus!
