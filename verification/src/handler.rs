//! What each key does to the dashboard.

use vstd::prelude::*;
use crate::app::{App, AppView};
use crate::gateway::{CommandOutput, LaunchFailure};
use crate::status::{get_nginx_status, status_of};
use crate::systemctl::SystemctlCommand;

verus! {

/// A key of the keyboard, as far as the dashboard tells keys apart.
#[derive(Clone, Copy, Debug, PartialEq, Eq, Structural)]
pub enum Key {
    Esc,
    Enter,
    Left,
    Right,
    Up,
    Down,
    Char(char),
    Other,
}

/// One press of a key, and whether the control key was held with it.
#[derive(Clone, Copy, Debug, PartialEq, Eq, Structural)]
pub struct KeyPress {
    pub key: Key,
    pub control: bool,
}

/// What is left to do outside the state after a key was handled.
#[derive(Clone, Copy, Debug, PartialEq, Eq, Structural)]
pub enum KeyAction {
    /// Nothing.
    Nothing,
    /// Run the command, then fetch the status afresh and hand it to
    /// [`complete_command`].
    Execute(SystemctlCommand),
}

/// Whether a press asks the dashboard to stop: escape, `q`, or `c` in either
/// case with the control key held.
pub open spec fn asks_to_quit(press: KeyPress) -> bool {
    match press.key {
        Key::Esc => true,
        Key::Char(c) => c == 'q' || ((c == 'c' || c == 'C') && press.control),
        _ => false,
    }
}

/// The state after a press.
pub open spec fn state_after(state: AppView, press: KeyPress) -> AppView {
    match press.key {
        Key::Esc => state.quit(),
        Key::Char(_) => if asks_to_quit(press) {
            state.quit()
        } else {
            state
        },
        Key::Right => state.next_tab(),
        Key::Left => state.prev_tab(),
        Key::Up => state.prev_item(),
        Key::Down => state.next_item(),
        Key::Enter => state,
        Key::Other => state,
    }
}

/// What a press leaves to do: on enter the selected command is to be run, on
/// any other key nothing.
pub open spec fn action_after(state: AppView, press: KeyPress) -> KeyAction {
    match press.key {
        Key::Enter => KeyAction::Execute(state.selected_command()),
        _ => KeyAction::Nothing,
    }
}

/// Handles one press of a key: changes the state as the key asks, and says
/// what is left to do outside it.
pub fn handle_key_events(key_event: KeyPress, app: &mut App) -> (action: KeyAction)
    ensures
        final(app)@ == state_after(old(app)@, key_event),
        action == action_after(old(app)@, key_event),
{
    match key_event.key {
        Key::Esc => {
            app.quit();
            KeyAction::Nothing
        },
        Key::Char(c) => {
            if c == 'q' || ((c == 'c' || c == 'C') && key_event.control) {
                app.quit();
            }
            KeyAction::Nothing
        },
        Key::Right => {
            app.increment_horizontal();
            KeyAction::Nothing
        },
        Key::Left => {
            app.decrement_horizontal();
            KeyAction::Nothing
        },
        Key::Up => {
            app.decrement_selection();
            KeyAction::Nothing
        },
        Key::Down => {
            app.increment_selection();
            KeyAction::Nothing
        },
        Key::Enter => KeyAction::Execute(app.selected_command()),
        Key::Other => KeyAction::Nothing,
    }
}

/// Ends the handling of enter: once the command has run, takes in the status
/// that asking `systemctl` afresh gave.
pub fn complete_command(app: &mut App, fresh: &Result<CommandOutput, LaunchFailure>)
    ensures
        final(app)@ == old(app)@.with_status(status_of(*fresh)),
{
    app.set_status(get_nginx_status(fresh));
}

/// Only a request to quit stops the dashboard, and nothing starts it again.
pub proof fn lemma_running_after(state: AppView, press: KeyPress)
    ensures
        state_after(state, press).running == (state.running && !asks_to_quit(press)),
{
}

/// No key leads out of the lists.
pub proof fn lemma_keys_keep_indices_in_range(state: AppView, press: KeyPress)
    requires
        state.wf(),
    ensures
        state_after(state, press).wf(),
{
    crate::app::lemma_moves_keep_indices_in_range(state);
}

} // verus!
