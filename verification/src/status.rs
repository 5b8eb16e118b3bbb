//! The status line: six sections of text, of which the second shows
//! whether physics runs and the fifth whether gravity pulls.

use vstd::prelude::*;
use crate::toggle::ToggleState;

verus! {

/// Index of the section that shows the physics switch.
pub const PHYSICS_SECTION: usize = 1;

/// Index of the section that shows the gravity switch.
pub const GRAVITY_SECTION: usize = 4;

/// The two sections of the status line that follow the switches.
#[derive(Clone, Copy, Debug, PartialEq, Eq)]
pub struct StatusUpdate {
    pub physics: &'static str,
    pub gravity: &'static str,
}

/// The text for a switch.
pub open spec fn state_label(state: bool) -> Seq<char> {
    if state {
        "ON"@
    } else {
        "OFF"@
    }
}

/// The six sections of the status line for the given switches.
pub open spec fn status_line(state: ToggleState) -> Seq<Seq<char>> {
    seq![
        "Physics: "@,
        state_label(state.physics_active),
        " (p)\n"@,
        "Gravity: "@,
        state_label(state.gravity_enabled),
        " (g)"@,
    ]
}

pub fn state_txt(state: bool) -> (s: &'static str)
    ensures
        s@ == state_label(state),
{
    if state {
        "ON"
    } else {
        "OFF"
    }
}

/// The sections of the status line as it first stands: both switches off.
pub fn setup_ui() -> (sections: Vec<&'static str>)
    ensures
        sections@.map_values(|s: &'static str| s@) == status_line(ToggleState::spec_initial()),
{
    status_sections(&ToggleState::initial())
}

/// The sections of the status line for the given switches.
pub fn status_sections(state: &ToggleState) -> (sections: Vec<&'static str>)
    ensures
        sections@.map_values(|s: &'static str| s@) == status_line(*state),
{
    let mut sections: Vec<&'static str> = Vec::new();
    sections.push("Physics: ");
    sections.push(state_txt(state.physics_active));
    sections.push(" (p)\n");
    sections.push("Gravity: ");
    sections.push(state_txt(state.gravity_enabled));
    sections.push(" (g)");
    proof {
        assert(sections@.map_values(|s: &'static str| s@) =~= status_line(*state));
    }
    sections
}

/// What to write into the status line in this frame: nothing where there
/// is no status line yet or the switches have not changed, else the text of
/// both switches.
pub fn update_ui(text_present: bool, changed: bool, state: &ToggleState) -> (u: Option<StatusUpdate>)
    ensures
        u is Some <==> text_present && changed,
        u matches Some(update) ==> update.physics@ == state_label(state.physics_active)
            && update.gravity@ == state_label(state.gravity_enabled),
{
    if !text_present || !changed {
        return None;
    }
    Some(
        StatusUpdate {
            physics: state_txt(state.physics_active),
            gravity: state_txt(state.gravity_enabled),
        },
    )
}

/// The two texts of a switch differ, so the status line tells its state.
pub proof fn lemma_labels_differ()
    ensures
        state_label(true) != state_label(false),
{
    reveal_strlit("ON");
    reveal_strlit("OFF");
    assert("ON"@.len() == 2);
    assert("OFF"@.len() == 3);
}

} // verus!
