use vstd::prelude::*;
use vstd::string::*;

use crate::character::{blank_character, Character, CharacterView};
use crate::frame::{string_views, styled_line_view, Frame, FrameView, StyledText, StyledView};

verus! {

/// A key as the screens read it.
#[derive(Clone, Copy, Debug, PartialEq, Eq, Structural)]
pub enum Key {
    Esc,
    Enter,
    Char(char),
    Other,
}

/// One input event: a key press, or anything else (resize, mouse, focus).
#[derive(Clone, Copy, Debug, PartialEq, Eq, Structural)]
pub enum InputEvent {
    Key(Key),
    Other,
}

/// Why a screen could not be drawn.
#[derive(Clone, Copy, Debug, PartialEq, Eq, Structural)]
pub enum ScreenError {
    /// A sheet screen was asked to draw without a character to show.
    MissingCharacter,
}

/// The literal last line of the selection list.
pub open spec fn new_entry_label() -> Seq<char> {
    "New Character Sheet.."@
}

/// The line that lists one saved character: its name, a space, its class.
pub open spec fn selection_line(c: CharacterView) -> Seq<char> {
    c.name + " "@ + c.class
}

pub open spec fn name_label() -> Seq<char> {
    "Name: "@
}

pub open spec fn class_label() -> Seq<char> {
    "Class: "@
}

/// The selection screen in the abstract: the saved characters in display order
/// and the selected row. Row `characters.len()` is the "new character" line.
pub struct SelectionView {
    pub characters: Seq<CharacterView>,
    pub row: nat,
}

impl SelectionView {
    pub open spec fn wf(self) -> bool {
        self.row <= self.characters.len()
    }
}

pub enum StateView {
    Selection(SelectionView),
    Sheet(Option<CharacterView>),
}

pub enum OutcomeView {
    Continue,
    Exit,
    TransitionTo(StateView),
}

/// The frame of the selection screen: one line per saved character, in order,
/// then the "new character" line; the cursor at the home row 0.
pub open spec fn selection_frame(v: SelectionView) -> FrameView {
    FrameView::List {
        lines: v.characters.map_values(|c: CharacterView| selection_line(c)).push(
            new_entry_label(),
        ),
        cursor_row: 0,
    }
}

/// The frame of a sheet: a panel titled with the name, holding an emphasized
/// "Name: " label with the plain name, then an emphasized "Class: " label with
/// the plain class.
pub open spec fn sheet_frame(c: CharacterView) -> FrameView {
    FrameView::Panel {
        title: c.name,
        lines: seq![
            seq![
                StyledView { text: name_label(), emphasized: true },
                StyledView { text: c.name, emphasized: false },
            ],
            seq![
                StyledView { text: class_label(), emphasized: true },
                StyledView { text: c.class, emphasized: false },
            ],
        ],
    }
}

/// The screen state after it is drawn: drawing the selection list brings the
/// selection back to the home row 0, where the cursor is left, so that the
/// highlighted line and the selection stay the same; a sheet is left as it is.
pub open spec fn homed(s: StateView) -> StateView {
    match s {
        StateView::Selection(v) => StateView::Selection(SelectionView { row: 0, ..v }),
        StateView::Sheet(_) => s,
    }
}

/// What drawing a screen state gives.
pub open spec fn render_of(s: StateView) -> Result<FrameView, ScreenError> {
    match s {
        StateView::Selection(v) => Ok(selection_frame(v)),
        StateView::Sheet(Some(c)) => Ok(sheet_frame(c)),
        StateView::Sheet(None) => Err(ScreenError::MissingCharacter),
    }
}

/// The abstract view of a drawing result.
pub open spec fn frame_result_view(r: Result<Frame, ScreenError>) -> Result<FrameView, ScreenError> {
    match r {
        Ok(f) => Ok(f@),
        Err(e) => Err(e),
    }
}

/// How the selection screen reads one key: `Esc` exits; `k` and `j` move the
/// selection up and down, clamped to the rows that exist; `Enter` opens a sheet
/// for the selected character, or for a blank one on the "new character" row;
/// any other key does nothing.
pub open spec fn selection_step(v: SelectionView, key: Key) -> (SelectionView, OutcomeView) {
    if key == Key::Esc {
        (v, OutcomeView::Exit)
    } else if key == Key::Char('k') {
        if v.row > 0 {
            (SelectionView { row: (v.row - 1) as nat, ..v }, OutcomeView::Continue)
        } else {
            (v, OutcomeView::Continue)
        }
    } else if key == Key::Char('j') {
        if v.row < v.characters.len() {
            (SelectionView { row: v.row + 1, ..v }, OutcomeView::Continue)
        } else {
            (v, OutcomeView::Continue)
        }
    } else if key == Key::Enter {
        let chosen = if v.row < v.characters.len() {
            v.characters[v.row as int]
        } else {
            blank_character()
        };
        (v, OutcomeView::TransitionTo(StateView::Sheet(Some(chosen))))
    } else {
        (v, OutcomeView::Continue)
    }
}

/// How a screen state reads one key. The sheet screen takes every key and
/// does nothing with it.
pub open spec fn state_step(s: StateView, key: Key) -> (StateView, OutcomeView) {
    match s {
        StateView::Selection(v) => {
            let (v2, o) = selection_step(v, key);
            (StateView::Selection(v2), o)
        },
        StateView::Sheet(_) => (s, OutcomeView::Continue),
    }
}

/// The selection screen: saved characters, and the selected row.
pub struct SelectionScreen {
    saved_characters: Vec<Character>,
    selected: usize,
}

impl View for SelectionScreen {
    type V = SelectionView;

    closed spec fn view(&self) -> SelectionView {
        SelectionView {
            characters: self.saved_characters@.map_values(|c: Character| c@),
            row: self.selected as nat,
        }
    }
}

impl SelectionScreen {
    #[verifier::type_invariant]
    spec fn inv(&self) -> bool {
        self.selected <= self.saved_characters.len()
    }

    /// A selection screen over `saved_characters`, with the first row selected.
    pub fn new(saved_characters: Vec<Character>) -> (r: SelectionScreen)
        ensures
            r@ == (SelectionView {
                characters: saved_characters@.map_values(|c: Character| c@),
                row: 0,
            }),
    {
        SelectionScreen { saved_characters, selected: 0 }
    }

    /// The selected row.
    pub fn selected_row(&self) -> (r: usize)
        ensures
            r == self@.row,
            self@.wf(),
    {
        proof {
            use_type_invariant(self);
        }
        self.selected
    }

    /// Draws the selection list: each saved character as "name class", in
    /// order, then the "new character" line. The cursor is left at the home
    /// row 0, and the selection goes back there with it.
    pub fn display_screen(&mut self) -> (r: Frame)
        ensures
            final(self)@ == (SelectionView { row: 0, ..old(self)@ }),
            r@ == selection_frame(final(self)@),
    {
        self.selected = 0;
        let mut lines: Vec<String> = Vec::new();
        let n = self.saved_characters.len();
        let mut i: usize = 0;
        while i < n
            invariant
                n == self.saved_characters@.len(),
                i <= n,
                lines@.len() == i,
                forall|j: int| 0 <= j < i ==> #[trigger] lines@[j]@ == selection_line(
                    self.saved_characters@[j]@,
                ),
            decreases n - i,
        {
            let c = &self.saved_characters[i];
            let mut line = c.name.clone();
            line.append(" ");
            line.append(c.class.as_str());
            lines.push(line);
            i = i + 1;
        }
        lines.push("New Character Sheet..".to_owned());
        let r = Frame::List { lines, cursor_row: 0 };
        proof {
            let expected = self@.characters.map_values(|c: CharacterView| selection_line(c)).push(
                new_entry_label(),
            );
            assert(string_views(lines@) =~= expected);
        }
        r
    }

    /// Reads one key as `selection_step` says: moves the selection, exits, or
    /// hands back the sheet screen to show next. The saved characters are
    /// left as they are.
    pub fn handle_keyboard_event(&mut self, key: Key) -> (r: Outcome)
        ensures
            (final(self)@, r@) == selection_step(old(self)@, key),
            final(self)@.wf(),
    {
        proof {
            use_type_invariant(&*self);
        }
        let n = self.saved_characters.len();
        match key {
            Key::Esc => Outcome::Exit,
            Key::Char(c) => {
                if c == 'k' {
                    if self.selected > 0 {
                        self.selected = self.selected - 1;
                    }
                } else if c == 'j' {
                    if self.selected < n {
                        self.selected = self.selected + 1;
                    }
                }
                proof {
                    use_type_invariant(&*self);
                }
                Outcome::Continue
            },
            Key::Enter => {
                let chosen = if self.selected < n {
                    self.saved_characters[self.selected].snapshot()
                } else {
                    Character::new()
                };
                Outcome::TransitionTo(ScreenState::Sheet(SheetScreen { character: Some(chosen) }))
            },
            Key::Other => Outcome::Continue,
        }
    }
}

/// The sheet screen: the character on view, if there is one.
pub struct SheetScreen {
    pub character: Option<Character>,
}

impl View for SheetScreen {
    type V = Option<CharacterView>;

    open spec fn view(&self) -> Option<CharacterView> {
        match self.character {
            Some(c) => Some(c@),
            None => None,
        }
    }
}

impl SheetScreen {
    /// A sheet screen holding `character`.
    pub fn new(character: Option<Character>) -> (r: SheetScreen)
        ensures
            r.character == character,
    {
        SheetScreen { character }
    }

    /// Draws the character's panel, or fails when there is no character.
    pub fn display_screen(&self) -> (r: Result<Frame, ScreenError>)
        ensures
            frame_result_view(r) == render_of(StateView::Sheet(self@)),
    {
        match &self.character {
            None => Err(ScreenError::MissingCharacter),
            Some(c) => {
                let name_line = vec![
                    StyledText::new("Name: ", true),
                    StyledText { text: c.name.clone(), emphasized: false },
                ];
                let class_line = vec![
                    StyledText::new("Class: ", true),
                    StyledText { text: c.class.clone(), emphasized: false },
                ];
                let lines = vec![name_line, class_line];
                let r = Frame::Panel { title: c.name.clone(), lines };
                proof {
                    assert(styled_line_view(lines@[0]@) =~= sheet_frame(c@)->Panel_lines[0]);
                    assert(styled_line_view(lines@[1]@) =~= sheet_frame(c@)->Panel_lines[1]);
                    assert(lines@.map_values(|l: Vec<StyledText>| styled_line_view(l@))
                        =~= sheet_frame(c@)->Panel_lines);
                }
                Ok(r)
            },
        }
    }

    /// Takes any key and does nothing with it: the sheet is for viewing only.
    pub fn handle_keyboard_event(&self, key: Key) -> (r: Outcome)
        ensures
            r@ == OutcomeView::Continue,
    {
        Outcome::Continue
    }
}

/// The screen on show.
pub enum ScreenState {
    Selection(SelectionScreen),
    Sheet(SheetScreen),
}

impl View for ScreenState {
    type V = StateView;

    open spec fn view(&self) -> StateView {
        match self {
            ScreenState::Selection(s) => StateView::Selection(s@),
            ScreenState::Sheet(s) => StateView::Sheet(s@),
        }
    }
}

/// What a screen asks for after reading a key.
pub enum Outcome {
    /// Stay on this screen.
    Continue,
    /// Leave the application.
    Exit,
    /// Replace this screen with the one given.
    TransitionTo(ScreenState),
}

impl View for Outcome {
    type V = OutcomeView;

    open spec fn view(&self) -> OutcomeView {
        match self {
            Outcome::Continue => OutcomeView::Continue,
            Outcome::Exit => OutcomeView::Exit,
            Outcome::TransitionTo(s) => OutcomeView::TransitionTo(s@),
        }
    }
}

impl ScreenState {
    /// Draws whichever screen this is, leaving it at its home position.
    pub fn display_screen(&mut self) -> (r: Result<Frame, ScreenError>)
        ensures
            final(self)@ == homed(old(self)@),
            frame_result_view(r) == render_of(final(self)@),
    {
        match self {
            ScreenState::Selection(s) => Ok(s.display_screen()),
            ScreenState::Sheet(s) => s.display_screen(),
        }
    }

    /// Hands one key to whichever screen this is.
    pub fn handle_keyboard_event(&mut self, key: Key) -> (r: Outcome)
        ensures
            (final(self)@, r@) == state_step(old(self)@, key),
    {
        match self {
            ScreenState::Selection(s) => s.handle_keyboard_event(key),
            ScreenState::Sheet(s) => s.handle_keyboard_event(key),
        }
    }
}

} // verus!
