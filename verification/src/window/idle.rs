//! The idle/running switch that the toolkit's button and the command loop share.
//!
//! The button only ever flips what is asked for; the command loop alone
//! confirms it, when it next polls. Whoever shares the cell between threads
//! guards it with a lock and hands it out by `&mut`.

use vstd::prelude::*;

verus! {

/// What the cell holds: the state asked for, and the one last confirmed.
pub struct IdleState {
    pub requested_state: bool,
    pub confirmed_state: bool,
}

impl IdleState {
    /// The state after the button was pressed once.
    pub open spec fn toggle(self) -> IdleState {
        IdleState { requested_state: !self.requested_state, ..self }
    }

    /// The state after the engine announced `state`.
    pub open spec fn set(state: bool) -> IdleState {
        IdleState { requested_state: state, confirmed_state: state }
    }

    /// Whether a change is waiting to be confirmed.
    pub open spec fn pending(self) -> bool {
        self.requested_state != self.confirmed_state
    }

    /// What a poll reports: the new state where one is waiting, else nothing.
    pub open spec fn news(self) -> Option<bool> {
        if self.pending() {
            Some(self.requested_state)
        } else {
            None
        }
    }

    /// The state after a poll: what was asked for is confirmed.
    pub open spec fn poll(self) -> IdleState {
        IdleState { confirmed_state: self.requested_state, ..self }
    }
}

/// The cell itself.
#[derive(Clone, Copy, Debug, PartialEq, Eq)]
pub struct IdleToggle {
    requested_state: bool,
    confirmed_state: bool,
}

impl View for IdleToggle {
    type V = IdleState;

    closed spec fn view(&self) -> IdleState {
        IdleState {
            requested_state: self.requested_state,
            confirmed_state: self.confirmed_state,
        }
    }
}

impl Default for IdleToggle {
    fn default() -> (cell: IdleToggle)
        ensures
            cell@ == IdleState::set(false),
    {
        IdleToggle::new()
    }
}

impl IdleToggle {
    /// A cell in the running state, with nothing waiting.
    pub fn new() -> (cell: IdleToggle)
        ensures
            cell@ == IdleState::set(false),
    {
        IdleToggle { requested_state: false, confirmed_state: false }
    }

    /// The state asked for.
    pub fn requested_state(&self) -> (state: bool)
        ensures
            state == self@.requested_state,
    {
        self.requested_state
    }

    /// The state last confirmed.
    pub fn confirmed_state(&self) -> (state: bool)
        ensures
            state == self@.confirmed_state,
    {
        self.confirmed_state
    }

    /// The button was pressed: asks for the other state. Nothing is confirmed.
    pub fn toggle(&mut self)
        ensures
            final(self)@ == old(self)@.toggle(),
    {
        self.requested_state = !self.requested_state;
    }

    /// The engine announced `state`: it is now both asked for and confirmed.
    pub fn set_idle_state(&mut self, state: bool)
        ensures
            final(self)@ == IdleState::set(state),
    {
        self.requested_state = state;
        self.confirmed_state = state;
    }

    /// Polls the cell. Where the state asked for differs from the confirmed
    /// one, confirms it and returns it; else returns nothing and changes
    /// nothing.
    pub fn new_idle_state(&mut self) -> (news: Option<bool>)
        ensures
            news == old(self)@.news(),
            final(self)@ == old(self)@.poll(),
    {
        if self.requested_state != self.confirmed_state {
            self.confirmed_state = self.requested_state;
            Some(self.requested_state)
        } else {
            None
        }
    }
}

/// Two presses of the button with no poll between them cancel out: the cell
/// is as it was, and so is what the next poll reports.
pub proof fn lemma_double_toggle(state: IdleState)
    ensures
        state.toggle().toggle() == state,
        state.toggle().toggle().news() == state.news(),
        state.toggle().toggle().poll() == state.poll(),
{
}

/// A poll reports only the state asked for last, however many presses came
/// before it: after an odd number the other state, after an even number the same.
pub proof fn lemma_toggle_parity(state: IdleState, presses: nat)
    ensures
        toggle_times(state, presses).requested_state == (if presses % 2 == 0 {
            state.requested_state
        } else {
            !state.requested_state
        }),
        toggle_times(state, presses).confirmed_state == state.confirmed_state,
    decreases presses,
{
    if presses > 0 {
        lemma_toggle_parity(state, (presses - 1) as nat);
    }
}

/// The state after `presses` presses of the button.
pub open spec fn toggle_times(state: IdleState, presses: nat) -> IdleState
    decreases presses,
{
    if presses == 0 {
        state
    } else {
        toggle_times(state, (presses - 1) as nat).toggle()
    }
}

/// After a poll nothing is waiting, and a second poll reports nothing.
pub proof fn lemma_poll_settles(state: IdleState)
    ensures
        !state.poll().pending(),
        state.poll().news() is None,
        state.poll().poll() == state.poll(),
{
}

} // verus!
