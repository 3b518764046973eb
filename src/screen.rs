use vstd::prelude::*;
use crate::editor::Position;

verus! {

/// The product name shown in the welcome banner.
pub const PRODUCT_NAME: &'static str = "TyPP";

/// The version shown in the welcome banner.
pub const VERSION: &'static str = "1.0.0";

/// The line printed when the viewer quits.
pub const FAREWELL: &'static str = "Goodbye.";

/// The glyph that marks a row with no document content.
pub const EMPTY_ROW: &'static str = "~";

/// One step of a screen refresh, carried out in order by the host program.
#[derive(Debug, PartialEq, Eq)]
pub enum ScreenOp {
    HideCursor,
    ShowCursor,
    /// Place the terminal's cursor at a viewport position.
    MoveCursor(Position),
    ClearScreen,
    ClearLine,
    /// Print the text, then start a new line.
    Line(String),
    /// Print the document's line `index`, rendered over the columns
    /// `start..end`, then start a new line.
    DocumentLine { index: usize, start: usize, end: usize },
    /// Write out everything buffered so far.
    Flush,
}

/// What a screen operation means, with its text as a sequence of characters.
pub enum ScreenOpView {
    HideCursor,
    ShowCursor,
    MoveCursor(Position),
    ClearScreen,
    ClearLine,
    Line(Seq<char>),
    DocumentLine { index: nat, start: nat, end: nat },
    Flush,
}

impl View for ScreenOp {
    type V = ScreenOpView;

    open spec fn view(&self) -> ScreenOpView {
        match self {
            ScreenOp::HideCursor => ScreenOpView::HideCursor,
            ScreenOp::ShowCursor => ScreenOpView::ShowCursor,
            ScreenOp::MoveCursor(p) => ScreenOpView::MoveCursor(*p),
            ScreenOp::ClearScreen => ScreenOpView::ClearScreen,
            ScreenOp::ClearLine => ScreenOpView::ClearLine,
            ScreenOp::Line(s) => ScreenOpView::Line(s@),
            ScreenOp::DocumentLine { index, start, end } => ScreenOpView::DocumentLine {
                index: *index as nat,
                start: *start as nat,
                end: *end as nat,
            },
            ScreenOp::Flush => ScreenOpView::Flush,
        }
    }
}

/// The meaning of a list of screen operations.
pub open spec fn ops_view(ops: Seq<ScreenOp>) -> Seq<ScreenOpView> {
    ops.map_values(|op: ScreenOp| op@)
}

/// Appending an operation appends its meaning.
pub proof fn lemma_ops_view_push(ops: Seq<ScreenOp>, op: ScreenOp)
    ensures
        ops_view(ops.push(op)) == ops_view(ops) + seq![op@],
{
    assert(ops_view(ops.push(op)) =~= ops_view(ops) + seq![op@]);
}

/// The banner's message: the product name and its version.
pub open spec fn welcome_message() -> Seq<char> {
    PRODUCT_NAME@ + " -- version "@ + VERSION@
}

/// `n` spaces.
pub open spec fn spaces(n: nat) -> Seq<char> {
    Seq::new(n, |i: int| ' ')
}

/// The banner's left padding on a terminal `width` cells wide: half of the room
/// left beside a message of `len` characters, less one, never below zero.
pub open spec fn welcome_padding(width: nat, len: nat) -> nat {
    let half = if width >= len { ((width - len) as nat) / 2 } else { 0 };
    if half >= 1 { (half - 1) as nat } else { 0 }
}

/// The welcome banner: a row marker, the padding and the message, cut to
/// `width` characters.
pub open spec fn welcome_line(width: nat) -> Seq<char> {
    let full = EMPTY_ROW@ + spaces(welcome_padding(width, welcome_message().len()))
        + welcome_message();
    if full.len() <= width { full } else { full.subrange(0, width as int) }
}

/// Builds the welcome banner for a terminal `width` cells wide.
pub fn welcome_banner(width: u16) -> (r: String)
    ensures
        r@ == welcome_line(width as nat),
{
    let message = String::from_str(PRODUCT_NAME).concat(" -- version ").concat(VERSION);
    let w = width as usize;
    let half = w.saturating_sub(message.as_str().unicode_len()) / 2;
    let padding = half.saturating_sub(1);
    let mut line = String::from_str(EMPTY_ROW);
    let mut i: usize = 0;
    while i < padding
        invariant
            i <= padding,
            line@ == EMPTY_ROW@ + spaces(i as nat),
        decreases padding - i,
    {
        line.append(" ");
        proof {
            reveal_strlit(" ");
            assert(EMPTY_ROW@ + spaces((i + 1) as nat) =~= EMPTY_ROW@ + spaces(i as nat) + " "@);
        }
        i = i + 1;
    }
    line.append(message.as_str());
    assert(padding == welcome_padding(width as nat, welcome_message().len()));
    if line.as_str().unicode_len() > w {
        String::from_str(line.as_str().substring_char(0, w))
    } else {
        line
    }
}

} // verus!
