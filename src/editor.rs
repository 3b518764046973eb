use vstd::prelude::*;
use crate::key::{Key, TermSize, last_column, last_row, is_movement};
use crate::screen::{ScreenOp, ScreenOpView, ops_view, lemma_ops_view_push, welcome_banner, welcome_line, EMPTY_ROW, FAREWELL};

verus! {

/// A cursor position, relative to the top-left cell of the viewport.
#[derive(Clone, Copy, Debug, PartialEq, Eq, Structural)]
pub struct Position {
    pub x: usize,
    pub y: usize,
}

impl Default for Position {
    fn default() -> (r: Position)
        ensures
            r.x == 0,
            r.y == 0,
    {
        Position { x: 0, y: 0 }
    }
}

/// Where a key moves the cursor, on a terminal of the given size. `j` and `l`
/// never leave the cursor past the last row or column, even where the
/// terminal has shrunk below it since the last move.
pub open spec fn moved(p: Position, key: Key, size: TermSize) -> Position {
    match key {
        Key::Char('k') => Position { y: if p.y == 0 { 0 } else { (p.y - 1) as usize }, ..p },
        Key::Char('j') => Position { y: if p.y < last_row(size) { (p.y + 1) as usize } else { last_row(size) as usize }, ..p },
        Key::Char('h') => Position { x: if p.x == 0 { 0 } else { (p.x - 1) as usize }, ..p },
        Key::Char('l') => Position { x: if p.x < last_column(size) { (p.x + 1) as usize } else { last_column(size) as usize }, ..p },
        Key::Char('H') => Position { y: 0, ..p },
        Key::Char('L') => Position { y: last_row(size) as usize, ..p },
        Key::Char('M') => Position { y: (last_row(size) / 2) as usize, ..p },
        Key::Char('0') => Position { x: 0, ..p },
        Key::Char('$') => Position { x: last_column(size) as usize, ..p },
        _ => p,
    }
}

/// What the editor's state means: whether a quit was asked for, where the
/// cursor stands, and how many lines the document has.
pub struct EditorView {
    pub should_quit: bool,
    pub cursor: Position,
    pub document_rows: nat,
}

/// The navigator: owns the quit flag and the cursor, and knows how many lines
/// the document it shows has. The terminal's size is handed in afresh to every
/// operation that needs it.
pub struct Editor {
    should_quit: bool,
    cursor_position: Position,
    document_rows: usize,
}

impl View for Editor {
    type V = EditorView;

    closed spec fn view(&self) -> EditorView {
        EditorView {
            should_quit: self.should_quit,
            cursor: self.cursor_position,
            document_rows: self.document_rows as nat,
        }
    }
}

/// The state after one key: control-`q` raises the quit flag, a movement key
/// moves the cursor, any other key changes nothing.
pub open spec fn step(s: EditorView, key: Key, size: TermSize) -> EditorView {
    if key == Key::Ctrl('q') {
        EditorView { should_quit: true, ..s }
    } else if is_movement(key) {
        EditorView { cursor: moved(s.cursor, key, size), ..s }
    } else {
        s
    }
}

/// What row `i` of the viewport shows: the document's line `i` where there is
/// one, the welcome banner on the row a third of the way down an empty
/// document, and the empty-row marker elsewhere.
pub open spec fn row_op(s: EditorView, size: TermSize, i: nat) -> ScreenOpView {
    if i < s.document_rows {
        ScreenOpView::DocumentLine { index: i, start: 0, end: size.width as nat }
    } else if s.document_rows == 0 && i == size.height as nat / 3 {
        ScreenOpView::Line(welcome_line(size.width as nat))
    } else {
        ScreenOpView::Line(EMPTY_ROW@)
    }
}

/// The first `n` rows of the viewport, each cleared before it is drawn.
pub open spec fn rows_ops(s: EditorView, size: TermSize, n: nat) -> Seq<ScreenOpView>
    decreases n,
{
    if n == 0 {
        Seq::empty()
    } else {
        rows_ops(s, size, (n - 1) as nat) + seq![ScreenOpView::ClearLine, row_op(s, size, (n - 1) as nat)]
    }
}

/// The top-left cell.
pub open spec fn origin() -> Position {
    Position { x: 0, y: 0 }
}

/// One full refresh. The cursor is hidden and sent to the top-left cell; after
/// a quit the screen is cleared and the farewell line printed, otherwise every
/// row but the last is drawn and the cursor put back where navigation left it;
/// then the cursor is shown and the output flushed.
pub open spec fn frame(s: EditorView, size: TermSize) -> Seq<ScreenOpView> {
    if s.should_quit {
        seq![
            ScreenOpView::HideCursor,
            ScreenOpView::MoveCursor(origin()),
            ScreenOpView::ClearScreen,
            ScreenOpView::Line(FAREWELL@),
            ScreenOpView::ShowCursor,
            ScreenOpView::Flush,
        ]
    } else {
        seq![ScreenOpView::HideCursor, ScreenOpView::MoveCursor(origin())]
            + rows_ops(s, size, last_row(size))
            + seq![ScreenOpView::MoveCursor(s.cursor), ScreenOpView::ShowCursor, ScreenOpView::Flush]
    }
}

/// The refreshes of a session, one after another.
pub open spec fn frames_view(frames: Seq<Vec<ScreenOp>>) -> Seq<Seq<ScreenOpView>> {
    frames.map_values(|f: Vec<ScreenOp>| ops_view(f@))
}

/// The screens a session paints when its keys come in the order given: a
/// refresh, then, unless a quit was asked for or the keys have run out, one
/// key read and interpreted, and again.
pub open spec fn session_frames(s: EditorView, keys: Seq<Key>, size: TermSize) -> Seq<Seq<ScreenOpView>>
    decreases keys.len(),
{
    if s.should_quit || keys.len() == 0 {
        seq![frame(s, size)]
    } else {
        seq![frame(s, size)] + session_frames(step(s, keys[0], size), keys.drop_first(), size)
    }
}

/// How many keys a session reads before it ends.
pub open spec fn keys_read(s: EditorView, keys: Seq<Key>, size: TermSize) -> nat
    decreases keys.len(),
{
    if s.should_quit || keys.len() == 0 {
        0
    } else {
        1 + keys_read(step(s, keys[0], size), keys.drop_first(), size)
    }
}

/// The state in which a session ends.
pub open spec fn session_end(s: EditorView, keys: Seq<Key>, size: TermSize) -> EditorView
    decreases keys.len(),
{
    if s.should_quit || keys.len() == 0 {
        s
    } else {
        session_end(step(s, keys[0], size), keys.drop_first(), size)
    }
}

/// A session paints one screen more than the keys it reads.
pub proof fn lemma_frames_outnumber_keys(s: EditorView, keys: Seq<Key>, size: TermSize)
    ensures
        session_frames(s, keys, size).len() == keys_read(s, keys, size) + 1,
    decreases keys.len(),
{
    if !(s.should_quit || keys.len() == 0) {
        lemma_frames_outnumber_keys(step(s, keys[0], size), keys.drop_first(), size);
    }
}

impl Editor {
    /// A navigator over a document of `document_rows` lines, with the cursor
    /// at the top-left cell.
    pub fn new(document_rows: usize) -> (r: Editor)
        ensures
            r@ == (EditorView { should_quit: false, cursor: origin(), document_rows: document_rows as nat }),
    {
        Editor { should_quit: false, cursor_position: Position::default(), document_rows }
    }

    pub fn should_quit(&self) -> (r: bool)
        ensures
            r == self@.should_quit,
    {
        self.should_quit
    }

    pub fn cursor_position(&self) -> (r: Position)
        ensures
            r == self@.cursor,
    {
        self.cursor_position
    }

    pub fn document_rows(&self) -> (r: usize)
        ensures
            r == self@.document_rows,
    {
        self.document_rows
    }

    /// Interprets one key: control-`q` asks to quit, the movement keys move
    /// the cursor within the terminal's current size, other keys are ignored.
    pub fn process_keypress(&mut self, key: Key, size: TermSize)
        ensures
            final(self)@ == step(old(self)@, key, size),
    {
        match key {
            Key::Ctrl('q') => self.should_quit = true,
            Key::Char('k') | Key::Char('j') | Key::Char('h') | Key::Char('l') | Key::Char('H')
            | Key::Char('L') | Key::Char('M') | Key::Char('0') | Key::Char('$') => self.move_cursor(key, size),
            _ => {},
        }
    }

    /// Moves the cursor as `key` asks, clamped to the terminal's current size.
    pub fn move_cursor(&mut self, key: Key, size: TermSize)
        ensures
            final(self)@ == (EditorView { cursor: moved(old(self)@.cursor, key, size), ..old(self)@ }),
    {
        let Position { mut x, mut y } = self.cursor_position;
        let height = size.viewport_height();
        let width = size.viewport_width();
        match key {
            Key::Char('k') => y = y.saturating_sub(1),
            Key::Char('j') => {
                if y < height {
                    y = y + 1;
                } else {
                    y = height;
                }
            },
            Key::Char('h') => x = x.saturating_sub(1),
            Key::Char('l') => {
                if x < width {
                    x = x + 1;
                } else {
                    x = width;
                }
            },
            Key::Char('H') => y = 0,
            Key::Char('L') => y = height,
            Key::Char('M') => y = height / 2,
            Key::Char('0') => x = 0,
            Key::Char('$') => x = width,
            _ => {},
        }
        self.cursor_position = Position { x, y };
    }

    /// The operations of one full refresh of the screen.
    pub fn refresh_screen(&self, size: TermSize) -> (r: Vec<ScreenOp>)
        ensures
            ops_view(r@) == frame(self@, size),
    {
        let mut ops: Vec<ScreenOp> = Vec::new();
        ops.push(ScreenOp::HideCursor);
        ops.push(ScreenOp::MoveCursor(Position::default()));
        assert(ops_view(ops@) =~= seq![ScreenOpView::HideCursor, ScreenOpView::MoveCursor(origin())]);
        if self.should_quit {
            ops.push(ScreenOp::ClearScreen);
            ops.push(ScreenOp::Line(String::from_str(FAREWELL)));
            ops.push(ScreenOp::ShowCursor);
            ops.push(ScreenOp::Flush);
            assert(ops_view(ops@) =~= frame(self@, size));
        } else {
            let ghost head = ops_view(ops@);
            self.draw_rows(size, &mut ops);
            let ghost drawn = ops@;
            ops.push(ScreenOp::MoveCursor(self.cursor_position));
            ops.push(ScreenOp::ShowCursor);
            ops.push(ScreenOp::Flush);
            proof {
                let tail = seq![ScreenOp::MoveCursor(self.cursor_position), ScreenOp::ShowCursor, ScreenOp::Flush];
                assert(ops@ =~= drawn + tail);
                assert(ops_view(drawn + tail) =~= ops_view(drawn) + ops_view(tail));
                assert(ops_view(ops@) =~= frame(self@, size));
            }
        }
        ops
    }

    /// Appends the drawing of every row but the last, top to bottom.
    pub fn draw_rows(&self, size: TermSize, ops: &mut Vec<ScreenOp>)
        ensures
            ops_view(final(ops)@) == ops_view(old(ops)@) + rows_ops(self@, size, last_row(size)),
    {
        let height = size.viewport_height();
        let mut row: usize = 0;
        while row < height
            invariant
                row <= height,
                height == last_row(size),
                ops_view(ops@) == ops_view(old(ops)@) + rows_ops(self@, size, row as nat),
            decreases height - row,
        {
            let ghost before = ops@;
            let drawn = if row < self.document_rows {
                self.draw_row(row, size)
            } else if self.document_rows == 0 && row == (size.height / 3) as usize {
                ScreenOp::Line(self.draw_welcome_message(size))
            } else {
                ScreenOp::Line(String::from_str(EMPTY_ROW))
            };
            assert(drawn@ == row_op(self@, size, row as nat));
            ops.push(ScreenOp::ClearLine);
            ops.push(drawn);
            proof {
                lemma_ops_view_push(before, ScreenOp::ClearLine);
                lemma_ops_view_push(before.push(ScreenOp::ClearLine), drawn);
                assert(ops@ == before.push(ScreenOp::ClearLine).push(drawn));
            }
            row = row + 1;
            assert(ops_view(ops@) =~= ops_view(old(ops)@) + rows_ops(self@, size, row as nat));
        }
    }

    /// Draws the document's line `index` across the full width.
    pub fn draw_row(&self, index: usize, size: TermSize) -> (r: ScreenOp)
        ensures
            r@ == (ScreenOpView::DocumentLine { index: index as nat, start: 0, end: size.width as nat }),
    {
        ScreenOp::DocumentLine { index, start: 0, end: size.width as usize }
    }

    /// The welcome banner for the terminal's current width.
    pub fn draw_welcome_message(&self, size: TermSize) -> (r: String)
        ensures
            r@ == welcome_line(size.width as nat),
    {
        welcome_banner(size.width)
    }

    /// Runs the main loop over keys that arrive in the order given, on a
    /// terminal of the given size: refresh, stop if a quit was asked for,
    /// read the next key and interpret it, and again. The loop also stops
    /// when the keys run out. Returns every refresh, in order.
    pub fn run(&mut self, keys: &Vec<Key>, size: TermSize) -> (r: Vec<Vec<ScreenOp>>)
        ensures
            frames_view(r@) == session_frames(old(self)@, keys@, size),
            r@.len() == keys_read(old(self)@, keys@, size) + 1,
            final(self)@ == session_end(old(self)@, keys@, size),
    {
        let ghost start = self@;
        proof {
            lemma_frames_outnumber_keys(start, keys@, size);
            assert(keys@.subrange(0, keys@.len() as int) =~= keys@);
        }
        let mut frames: Vec<Vec<ScreenOp>> = Vec::new();
        let mut i: usize = 0;
        loop
            invariant_except_break
                i <= keys.len(),
                frames@.len() == i,
                session_frames(start, keys@, size)
                    == frames_view(frames@) + session_frames(self@, keys@.subrange(i as int, keys@.len() as int), size),
                session_end(start, keys@, size) == session_end(self@, keys@.subrange(i as int, keys@.len() as int), size),
            ensures
                frames_view(frames@) == session_frames(start, keys@, size),
                self@ == session_end(start, keys@, size),
            decreases keys.len() - i,
        {
            let ghost rest = keys@.subrange(i as int, keys@.len() as int);
            let ghost before = frames@;
            let screen = self.refresh_screen(size);
            frames.push(screen);
            assert(frames_view(frames@) =~= frames_view(before) + seq![frame(self@, size)]);
            if self.should_quit || i >= keys.len() {
                assert(frames_view(frames@) =~= session_frames(start, keys@, size));
                break;
            }
            let ghost current = self@;
            self.process_keypress(keys[i], size);
            i = i + 1;
            proof {
                assert(rest.drop_first() =~= keys@.subrange(i as int, keys@.len() as int));
                assert(session_frames(current, rest, size)
                    =~= seq![frame(current, size)] + session_frames(self@, rest.drop_first(), size));
            }
        }
        frames
    }
}

} // verus!
