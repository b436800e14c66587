//! Properties of the screens, stated over their abstract views and proved.
use vstd::prelude::*;

use crate::character::blank_character;
use crate::driver::{driver_step, Action};
use crate::frame::FrameView;
use crate::screen::{
    homed, new_entry_label, render_of, selection_frame, selection_line, selection_step, InputEvent, Key,
    OutcomeView, ScreenError, SelectionView, StateView,
};

verus! {

/// The selection after pressing `key` on the selection screen `n` times in a row.
pub open spec fn press_repeatedly(v: SelectionView, key: Key, n: nat) -> SelectionView
    decreases n,
{
    if n == 0 {
        v
    } else {
        press_repeatedly(selection_step(v, key).0, key, (n - 1) as nat)
    }
}

/// The selection list has one line per saved character, in order, and then
/// exactly one more line, the literal "new character" line: N + 1 lines in all.
pub proof fn lemma_selection_lists_every_character(v: SelectionView)
    ensures
        selection_frame(v)->List_lines.len() == v.characters.len() + 1,
        selection_frame(v)->List_lines.last() == new_entry_label(),
        forall|i: int|
            0 <= i < v.characters.len() ==> #[trigger] selection_frame(v)->List_lines[i]
                == selection_line(v.characters[i]),
{
}

/// No key moves the selection off the rows that exist.
pub proof fn lemma_step_keeps_selection_in_range(v: SelectionView, key: Key)
    requires
        v.wf(),
    ensures
        selection_step(v, key).0.wf(),
        selection_step(v, key).0.characters == v.characters,
{
}

/// Pressing `k` any number of times on the top row stays on the top row.
pub proof fn lemma_up_is_clamped(v: SelectionView, n: nat)
    requires
        v.wf(),
        v.row == 0,
    ensures
        press_repeatedly(v, Key::Char('k'), n) == v,
    decreases n,
{
    if n > 0 {
        lemma_up_is_clamped(v, (n - 1) as nat);
    }
}

/// Pressing `j` any number of times on the "new character" row stays there.
pub proof fn lemma_down_is_clamped(v: SelectionView, n: nat)
    requires
        v.wf(),
        v.row == v.characters.len(),
    ensures
        press_repeatedly(v, Key::Char('j'), n) == v,
    decreases n,
{
    if n > 0 {
        lemma_down_is_clamped(v, (n - 1) as nat);
    }
}

/// `Enter` on the row of a saved character opens a sheet holding exactly that
/// character.
pub proof fn lemma_enter_opens_selected_character(v: SelectionView)
    requires
        v.wf(),
        v.row < v.characters.len(),
    ensures
        selection_step(v, Key::Enter).1 == OutcomeView::TransitionTo(
            StateView::Sheet(Some(v.characters[v.row as int])),
        ),
{
}

/// `Enter` on the "new character" row opens a sheet holding a freshly made
/// blank character, distinct from every saved character when none of those is
/// blank itself.
pub proof fn lemma_enter_on_last_row_opens_fresh_character(v: SelectionView)
    requires
        v.wf(),
        v.row == v.characters.len(),
        forall|i: int| 0 <= i < v.characters.len() ==> #[trigger] v.characters[i] != blank_character(),
    ensures
        selection_step(v, Key::Enter).1 == OutcomeView::TransitionTo(
            StateView::Sheet(Some(blank_character())),
        ),
        forall|i: int|
            0 <= i < v.characters.len() ==> StateView::Sheet(Some(#[trigger] v.characters[i]))
                != selection_step(v, Key::Enter).1->TransitionTo_0,
{
}

/// `Esc` on the selection screen exits, whatever row is selected, and the
/// driver then leaves its loop.
pub proof fn lemma_escape_exits(v: SelectionView)
    ensures
        selection_step(v, Key::Esc) == (v, OutcomeView::Exit),
        driver_step(StateView::Selection(v), InputEvent::Key(Key::Esc)) == (
            StateView::Selection(v),
            Action::Exit,
        ),
{
}

/// A sheet screen without a character cannot be drawn: it reports the missing
/// character instead of drawing a partial frame.
pub proof fn lemma_sheet_without_character_fails()
    ensures
        render_of(StateView::Sheet(None)) == Err::<FrameView, ScreenError>(
            ScreenError::MissingCharacter,
        ),
{
}

/// Drawing twice in a row shows the same content both times: the first
/// drawing leaves the screen at its home position, from which a second drawing
/// changes nothing and gives the same frame as the first.
pub proof fn lemma_render_is_idempotent(s: StateView)
    ensures
        homed(homed(s)) == homed(s),
        render_of(homed(homed(s))) == render_of(homed(s)),
        render_of(homed(s)) == render_of(s),
{
}

/// An event that asks for nothing to be done leaves the screen, and so what it
/// draws, as it was.
pub proof fn lemma_wait_keeps_frame(s: StateView, e: InputEvent)
    requires
        driver_step(s, e).1 == Action::Wait,
    ensures
        driver_step(s, e).0 == s,
        render_of(driver_step(s, e).0) == render_of(s),
{
}

} // verus!
