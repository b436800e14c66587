use vstd::prelude::*;

verus! {

/// A run of text drawn either emphasized or plain.
#[derive(Clone, Debug)]
pub struct StyledText {
    pub text: String,
    pub emphasized: bool,
}

/// What a styled run is: its characters and whether they are emphasized.
pub struct StyledView {
    pub text: Seq<char>,
    pub emphasized: bool,
}

impl View for StyledText {
    type V = StyledView;

    open spec fn view(&self) -> StyledView {
        StyledView { text: self.text@, emphasized: self.emphasized }
    }
}

/// The whole visible content of one screen. Drawing a frame first clears the
/// terminal, so what is shown afterwards depends on the frame alone.
#[derive(Clone, Debug)]
pub enum Frame {
    /// Plain lines from the top of the terminal, the cursor left at the start
    /// of line `cursor_row`.
    List { lines: Vec<String>, cursor_row: usize },
    /// A bordered panel with a title; each line is a sequence of styled runs.
    /// The cursor is left at the panel's origin.
    Panel { title: String, lines: Vec<Vec<StyledText>> },
}

pub enum FrameView {
    List { lines: Seq<Seq<char>>, cursor_row: nat },
    Panel { title: Seq<char>, lines: Seq<Seq<StyledView>> },
}

pub open spec fn string_views(v: Seq<String>) -> Seq<Seq<char>> {
    v.map_values(|s: String| s@)
}

pub open spec fn styled_line_view(v: Seq<StyledText>) -> Seq<StyledView> {
    v.map_values(|t: StyledText| t@)
}

impl View for Frame {
    type V = FrameView;

    open spec fn view(&self) -> FrameView {
        match self {
            Frame::List { lines, cursor_row } => FrameView::List {
                lines: string_views(lines@),
                cursor_row: *cursor_row as nat,
            },
            Frame::Panel { title, lines } => FrameView::Panel {
                title: title@,
                lines: lines@.map_values(|l: Vec<StyledText>| styled_line_view(l@)),
            },
        }
    }
}

impl StyledText {
    /// A run of `text`, emphasized or not.
    pub fn new(text: &str, emphasized: bool) -> (r: StyledText)
        ensures
            r@ == (StyledView { text: text@, emphasized }),
    {
        StyledText { text: text.to_owned(), emphasized }
    }
}

} // verus!
