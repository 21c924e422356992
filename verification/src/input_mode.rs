//! The input-focus state machine: exactly one of four modes owns keystrokes
//! at any time. `next` saturates at the password field (Enter there is a
//! submit, not a move); `prev` saturates at the idle mode.

use vstd::prelude::*;

verus! {

/// All the different modes for input.
#[derive(Clone, Copy, PartialEq, Eq, Structural, Debug)]
pub enum InputMode {
    /// Using the environment switcher widget.
    Switcher,
    /// Typing within the username input field.
    Username,
    /// Typing within the password input field.
    Password,
    /// Nothing selected.
    Normal,
}

impl InputMode {
    /// The successor in the focus cycle: Normal, Switcher, Username, Password,
    /// saturating at Password.
    pub open spec fn spec_next(self) -> InputMode {
        match self {
            InputMode::Normal => InputMode::Switcher,
            InputMode::Switcher => InputMode::Username,
            InputMode::Username => InputMode::Password,
            InputMode::Password => InputMode::Password,
        }
    }

    /// The predecessor in the focus cycle, saturating at Normal.
    pub open spec fn spec_prev(self) -> InputMode {
        match self {
            InputMode::Normal => InputMode::Normal,
            InputMode::Switcher => InputMode::Normal,
            InputMode::Username => InputMode::Switcher,
            InputMode::Password => InputMode::Username,
        }
    }

    /// Move to the next mode.
    pub fn next(&mut self)
        ensures
            *final(self) == old(self).spec_next(),
    {
        *self = match self {
            InputMode::Normal => InputMode::Switcher,
            InputMode::Switcher => InputMode::Username,
            InputMode::Username => InputMode::Password,
            InputMode::Password => InputMode::Password,
        }
    }

    /// Move to the previous mode.
    pub fn prev(&mut self)
        ensures
            *final(self) == old(self).spec_prev(),
    {
        *self = match self {
            InputMode::Normal => InputMode::Normal,
            InputMode::Switcher => InputMode::Normal,
            InputMode::Username => InputMode::Switcher,
            InputMode::Password => InputMode::Username,
        }
    }
}

/// Every `next` or `prev` move lands in one of the four modes — so no
/// sequence of moves ever leaves them — and the ends saturate: `next` from
/// Password stays at Password, `prev` from Normal stays at Normal.
pub proof fn lemma_input_mode_closed(mode: InputMode)
    ensures
        mode.spec_next() == InputMode::Switcher || mode.spec_next() == InputMode::Username
            || mode.spec_next() == InputMode::Password || mode.spec_next() == InputMode::Normal,
        mode.spec_prev() == InputMode::Switcher || mode.spec_prev() == InputMode::Username
            || mode.spec_prev() == InputMode::Password || mode.spec_prev() == InputMode::Normal,
        InputMode::Password.spec_next() == InputMode::Password,
        InputMode::Normal.spec_prev() == InputMode::Normal,
{
}

} // verus!
