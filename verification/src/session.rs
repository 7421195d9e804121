//! One turn of the control loop: from a line of input to the state whose
//! report is sent next.

use vstd::prelude::*;
use crate::command::lowercased;
use crate::command::spec_parse;
use crate::command::trimmed;
use crate::command::Command;
use crate::error::ErrorView;
use crate::error::GadgetError;
use crate::state::ControllerState;
use crate::state::ControllerView;

verus! {

/// What the control loop does with a line of input.
#[derive(Debug, Clone, Copy, PartialEq, Eq)]
pub enum Turn {
    /// The session ends; nothing is sent.
    Quit,
    /// The report of `state` is sent. `recognized` is false where the line
    /// named no command: the loop says so and sends the neutral state.
    Send { state: ControllerState, recognized: bool },
}

/// What a `Turn` stands for.
pub enum TurnView {
    Quit,
    Send { state: ControllerView, recognized: bool },
}

impl View for Turn {
    type V = TurnView;

    open spec fn view(&self) -> TurnView {
        match *self {
            Turn::Quit => TurnView::Quit,
            Turn::Send { state, recognized } => TurnView::Send { state: state@, recognized },
        }
    }
}

/// The turn that a token asks for. Every turn starts from the neutral
/// state, so a command holds for one report only.
pub open spec fn spec_turn(token: Seq<char>) -> TurnView {
    match spec_parse(token) {
        Some(Command::Quit) => TurnView::Quit,
        Some(command) => TurnView::Send {
            state: ControllerView::neutral().apply(command),
            recognized: true,
        },
        None => TurnView::Send { state: ControllerView::neutral(), recognized: false },
    }
}

/// The turn that a parsed line asks for.
pub fn turn_for(command: Option<Command>) -> (r: Turn)
    ensures
        r@ == (match command {
            Some(Command::Quit) => TurnView::Quit,
            Some(c) => TurnView::Send { state: ControllerView::neutral().apply(c), recognized: true },
            None => TurnView::Send { state: ControllerView::neutral(), recognized: false },
        }),
{
    let mut state = ControllerState::default();
    match command {
        Some(Command::Quit) => Turn::Quit,
        Some(c) => {
            state.apply(c);
            Turn::Send { state, recognized: true }
        },
        None => Turn::Send { state, recognized: false },
    }
}

/// The turn that a line of input asks for: the line is trimmed and put in
/// lower case, and what is left is read as a token.
pub fn turn_for_line(line: &str) -> (r: Turn)
    ensures
        r@ == spec_turn(lowercased(trimmed(line@))),
{
    turn_for(Command::parse_line(line))
}

/// What the control loop does with the verdict of a send or of a move.
#[derive(Debug, PartialEq, Eq)]
pub enum Reaction {
    /// All went well: the loop goes on.
    Continue,
    /// The error can be recovered from: the loop logs it and goes on.
    Log { error: GadgetError },
    /// The error ends the session. Teardown still runs.
    Stop { error: GadgetError },
}

/// What a `Reaction` stands for.
pub enum ReactionView {
    Continue,
    Log { error: ErrorView },
    Stop { error: ErrorView },
}

impl View for Reaction {
    type V = ReactionView;

    open spec fn view(&self) -> ReactionView {
        match *self {
            Reaction::Continue => ReactionView::Continue,
            Reaction::Log { error } => ReactionView::Log { error: error@ },
            Reaction::Stop { error } => ReactionView::Stop { error: error@ },
        }
    }
}

/// After success the loop goes on, after a timeout it logs the error and
/// goes on, and every other error ends the session.
pub open spec fn spec_react(verdict: Result<(), ErrorView>) -> ReactionView {
    match verdict {
        Ok(_) => ReactionView::Continue,
        Err(e) => if e.recoverable() {
            ReactionView::Log { error: e }
        } else {
            ReactionView::Stop { error: e }
        },
    }
}

/// What the control loop does with the verdict of a send or of a move.
pub fn react(verdict: Result<(), GadgetError>) -> (r: Reaction)
    ensures
        r@ == spec_react(
            match verdict {
                Ok(_) => Ok(()),
                Err(e) => Err(e@),
            },
        ),
{
    match verdict {
        Ok(_) => Reaction::Continue,
        Err(error) => {
            if error.is_recoverable() {
                Reaction::Log { error }
            } else {
                Reaction::Stop { error }
            }
        },
    }
}

} // verus!
