use vstd::prelude::*;
use crate::editor::{EditorView, Position, moved, step, frame, rows_ops, row_op, session_frames, keys_read};
use crate::key::{Key, TermSize, last_column, last_row, is_bound};
use crate::screen::{ScreenOpView, EMPTY_ROW, FAREWELL};

verus! {

/// The state after every key of `keys` has been interpreted, first to last.
pub open spec fn replay(s: EditorView, keys: Seq<Key>, size: TermSize) -> EditorView
    decreases keys.len(),
{
    if keys.len() == 0 {
        s
    } else {
        replay(step(s, keys[0], size), keys.drop_first(), size)
    }
}

/// On a terminal whose size stays put, no key sequence, however long, takes
/// the cursor's column past the last column.
pub proof fn lemma_column_stays_in_view(s: EditorView, keys: Seq<Key>, size: TermSize)
    requires
        s.cursor.x <= last_column(size),
    ensures
        replay(s, keys, size).cursor.x <= last_column(size),
    decreases keys.len(),
{
    if keys.len() > 0 {
        lemma_column_stays_in_view(step(s, keys[0], size), keys.drop_first(), size);
    }
}

/// On a terminal whose size stays put, no key sequence, however long, takes
/// the cursor's row past the last row.
pub proof fn lemma_row_stays_in_view(s: EditorView, keys: Seq<Key>, size: TermSize)
    requires
        s.cursor.y <= last_row(size),
    ensures
        replay(s, keys, size).cursor.y <= last_row(size),
    decreases keys.len(),
{
    if keys.len() > 0 {
        lemma_row_stays_in_view(step(s, keys[0], size), keys.drop_first(), size);
    }
}

/// `k` pressed any number of times on the top row stays on the top row.
proof fn lemma_up_at_top(s: EditorView, n: nat, size: TermSize)
    requires
        s.cursor.y == 0,
    ensures
        replay(s, Seq::new(n, |i: int| Key::Char('k')), size).cursor.y == 0,
    decreases n,
{
    if n > 0 {
        let keys = Seq::new(n, |i: int| Key::Char('k'));
        assert(keys.drop_first() =~= Seq::new((n - 1) as nat, |i: int| Key::Char('k')));
        lemma_up_at_top(step(s, Key::Char('k'), size), (n - 1) as nat, size);
    }
}

/// `H` followed by any number of `k` leaves the cursor on the top row.
pub proof fn lemma_top_then_up(s: EditorView, n: nat, size: TermSize)
    ensures
        replay(s, seq![Key::Char('H')] + Seq::new(n, |i: int| Key::Char('k')), size).cursor.y == 0,
{
    let keys = seq![Key::Char('H')] + Seq::new(n, |i: int| Key::Char('k'));
    assert(keys.drop_first() =~= Seq::new(n, |i: int| Key::Char('k')));
    lemma_up_at_top(step(s, Key::Char('H'), size), n, size);
}

/// Where the cursor stands after each key of `keys` has moved it, first to last.
pub open spec fn moved_by(p: Position, keys: Seq<Key>, size: TermSize) -> Position
    decreases keys.len(),
{
    if keys.len() == 0 {
        p
    } else {
        moved_by(moved(p, keys[0], size), keys.drop_first(), size)
    }
}

/// Moving by `k` any number of times from the top row stays on the top row,
/// in the same column.
proof fn lemma_up_moves_at_top(p: Position, n: nat, size: TermSize)
    requires
        p.y == 0,
    ensures
        moved_by(p, Seq::new(n, |i: int| Key::Char('k')), size) == p,
    decreases n,
{
    if n > 0 {
        let keys = Seq::new(n, |i: int| Key::Char('k'));
        assert(keys.drop_first() =~= Seq::new((n - 1) as nat, |i: int| Key::Char('k')));
        lemma_up_moves_at_top(moved(p, Key::Char('k'), size), (n - 1) as nat, size);
    }
}

/// Moving the cursor by `H` and then by any number of `k` leaves it on the top
/// row, in the column where it started.
pub proof fn lemma_top_then_up_moves(p: Position, n: nat, size: TermSize)
    ensures
        moved_by(p, seq![Key::Char('H')] + Seq::new(n, |i: int| Key::Char('k')), size)
            == (Position { x: p.x, y: 0 }),
{
    let keys = seq![Key::Char('H')] + Seq::new(n, |i: int| Key::Char('k'));
    assert(keys.drop_first() =~= Seq::new(n, |i: int| Key::Char('k')));
    lemma_up_moves_at_top(moved(p, Key::Char('H'), size), n, size);
}

/// `L` puts the cursor on the last row, wherever it stood.
pub proof fn lemma_bottom_jump(s: EditorView, size: TermSize)
    ensures
        step(s, Key::Char('L'), size).cursor.y == last_row(size),
        step(s, Key::Char('L'), size).cursor.x == s.cursor.x,
{
}

/// A key without a binding changes neither the cursor nor the quit flag.
pub proof fn lemma_unbound_key_is_ignored(s: EditorView, key: Key, size: TermSize)
    requires
        !is_bound(key),
    ensures
        step(s, key, size) == s,
{
}

/// After control-`q` the next refresh clears the screen and prints exactly one
/// line, the farewell, and the session then ends without reading another key.
pub proof fn lemma_quit_paints_farewell_and_stops(s: EditorView, keys: Seq<Key>, size: TermSize)
    requires
        !s.should_quit,
        keys.len() > 0,
        keys[0] == Key::Ctrl('q'),
    ensures
        keys_read(s, keys, size) == 1,
        session_frames(s, keys, size).len() == 2,
        session_frames(s, keys, size)[1].contains(ScreenOpView::ClearScreen),
        session_frames(s, keys, size)[1].contains(ScreenOpView::Line(FAREWELL@)),
        forall|i: int, j: int|
            0 <= i < session_frames(s, keys, size)[1].len() && 0 <= j < session_frames(s, keys, size)[1].len()
                && session_frames(s, keys, size)[1][i] is Line && session_frames(s, keys, size)[1][j] is Line
                ==> i == j,
{
    let quitting = step(s, keys[0], size);
    assert(session_frames(quitting, keys.drop_first(), size) == seq![frame(quitting, size)]);
    assert(keys_read(quitting, keys.drop_first(), size) == 0);
    let f = session_frames(s, keys, size)[1];
    assert(f == frame(quitting, size));
    assert(f[2] == ScreenOpView::ClearScreen);
    assert(f[3] == ScreenOpView::Line(FAREWELL@));
}

/// In a document with at least one line, every row drawn is a document line or
/// the empty-row marker.
proof fn lemma_rows_without_banner(s: EditorView, size: TermSize, n: nat)
    requires
        s.document_rows > 0,
    ensures
        forall|k: int|
            0 <= k < rows_ops(s, size, n).len() && #[trigger] rows_ops(s, size, n)[k] is Line
                ==> rows_ops(s, size, n)[k]->Line_0 == EMPTY_ROW@,
    decreases n,
{
    if n > 0 {
        lemma_rows_without_banner(s, size, (n - 1) as nat);
        let r = row_op(s, size, (n - 1) as nat);
        assert(r is Line ==> r->Line_0 == EMPTY_ROW@);
    }
}

/// A document with at least one line never shows the welcome banner: the only
/// text lines a refresh prints are the empty-row marker and the farewell.
pub proof fn lemma_no_banner_in_nonempty_document(s: EditorView, size: TermSize)
    requires
        s.document_rows > 0,
    ensures
        forall|k: int|
            0 <= k < frame(s, size).len() && #[trigger] frame(s, size)[k] is Line
                ==> frame(s, size)[k]->Line_0 == EMPTY_ROW@ || frame(s, size)[k]->Line_0 == FAREWELL@,
{
    lemma_rows_without_banner(s, size, last_row(size));
}

} // verus!
