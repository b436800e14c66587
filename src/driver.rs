use vstd::prelude::*;

use crate::character::Character;
use crate::frame::Frame;
use crate::screen::{
    frame_result_view, homed, render_of, state_step, InputEvent, OutcomeView, ScreenError,
    ScreenState, SelectionScreen, SelectionView, StateView,
};

verus! {

/// What the caller of the driver does next with the terminal.
#[derive(Clone, Copy, Debug, PartialEq, Eq, Structural)]
pub enum Action {
    /// Nothing to change on screen: wait for the next event.
    Wait,
    /// Put the cursor at the start of the given row.
    MoveCursor(usize),
    /// A new screen is active: draw it before reading another event.
    Render,
    /// Leave the loop and shut down normally.
    Exit,
}

/// How the driver takes one event: other events are ignored; a key goes to
/// the active screen, whose outcome decides. A transition installs the new
/// screen and asks for it to be drawn at once; a move of the selection asks for
/// the cursor to follow it.
pub open spec fn driver_step(s: StateView, e: InputEvent) -> (StateView, Action) {
    match e {
        InputEvent::Other => (s, Action::Wait),
        InputEvent::Key(k) => {
            let (s2, o) = state_step(s, k);
            match o {
                OutcomeView::Exit => (s2, Action::Exit),
                OutcomeView::TransitionTo(next) => (next, Action::Render),
                OutcomeView::Continue => {
                    if s2 != s {
                        (s2, Action::MoveCursor(s2->Selection_0.row as usize))
                    } else {
                        (s2, Action::Wait)
                    }
                },
            }
        },
    }
}

/// The screen driver: owns the one active screen and applies what it asks for.
pub struct Screen {
    state: ScreenState,
}

impl View for Screen {
    type V = StateView;

    closed spec fn view(&self) -> StateView {
        self.state@
    }
}

impl Screen {
    /// A driver that starts on the selection screen over `saved_characters`,
    /// with the first row selected.
    pub fn new(saved_characters: Vec<Character>) -> (r: Screen)
        ensures
            r@ == StateView::Selection(
                SelectionView {
                    characters: saved_characters@.map_values(|c: Character| c@),
                    row: 0,
                },
            ),
    {
        Screen { state: ScreenState::Selection(SelectionScreen::new(saved_characters)) }
    }

    /// The active screen.
    pub fn state(&self) -> (r: &ScreenState)
        ensures
            r@ == self@,
    {
        &self.state
    }

    /// Draws the active screen and leaves it at its home position. The frame
    /// depends on the active screen alone.
    pub fn display_screen(&mut self) -> (r: Result<Frame, ScreenError>)
        ensures
            final(self)@ == homed(old(self)@),
            frame_result_view(r) == render_of(final(self)@),
    {
        self.state.display_screen()
    }

    /// Takes one input event, as `driver_step` says.
    pub fn handle_input(&mut self, event: InputEvent) -> (r: Action)
        ensures
            (final(self)@, r) == driver_step(old(self)@, event),
    {
        match event {
            InputEvent::Other => Action::Wait,
            InputEvent::Key(k) => {
                let ghost before = self@;
                let mut row_before: usize = 0;
                if let ScreenState::Selection(s) = &self.state {
                    row_before = s.selected_row();
                }
                let outcome = self.state.handle_keyboard_event(k);
                match outcome {
                    crate::screen::Outcome::Exit => Action::Exit,
                    crate::screen::Outcome::TransitionTo(next) => {
                        self.state = next;
                        Action::Render
                    },
                    crate::screen::Outcome::Continue => {
                        match &self.state {
                            ScreenState::Selection(s) => {
                                let row = s.selected_row();
                                if row == row_before {
                                    assert(self@ == before);
                                    Action::Wait
                                } else {
                                    Action::MoveCursor(row)
                                }
                            },
                            ScreenState::Sheet(_) => Action::Wait,
                        }
                    },
                }
            },
        }
    }
}

} // verus!
