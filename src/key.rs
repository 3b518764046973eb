use vstd::prelude::*;

verus! {

/// One decoded key event.
#[derive(Clone, Copy, Debug, PartialEq, Eq, Structural)]
pub enum Key {
    /// A plain character key.
    Char(char),
    /// A character pressed together with the control modifier.
    Ctrl(char),
    /// Any other key (arrows, function keys, alt-modified characters, ...).
    Other,
}

/// The terminal's reported size, in character cells.
#[derive(Clone, Copy, Debug, PartialEq, Eq, Structural)]
pub struct TermSize {
    pub width: u16,
    pub height: u16,
}

/// The last addressable column: the reported width minus one, never below zero.
pub open spec fn last_column(size: TermSize) -> nat {
    if size.width == 0 { 0 } else { (size.width - 1) as nat }
}

/// The last addressable row: the reported height minus one, never below zero.
pub open spec fn last_row(size: TermSize) -> nat {
    if size.height == 0 { 0 } else { (size.height - 1) as nat }
}

impl TermSize {
    pub fn new(width: u16, height: u16) -> (r: TermSize)
        ensures
            r.width == width,
            r.height == height,
    {
        TermSize { width, height }
    }

    /// The last addressable column.
    pub fn viewport_width(&self) -> (r: usize)
        ensures
            r == last_column(*self),
    {
        self.width.saturating_sub(1) as usize
    }

    /// The last addressable row.
    pub fn viewport_height(&self) -> (r: usize)
        ensures
            r == last_row(*self),
    {
        self.height.saturating_sub(1) as usize
    }
}

/// Whether a key has a binding: control-`q` or one of the movement keys.
pub open spec fn is_bound(key: Key) -> bool {
    key == Key::Ctrl('q') || is_movement(key)
}

/// Whether a key moves the cursor.
pub open spec fn is_movement(key: Key) -> bool {
    match key {
        Key::Char(c) => c == 'k' || c == 'j' || c == 'h' || c == 'l' || c == 'H' || c == 'L'
            || c == 'M' || c == '0' || c == '$',
        _ => false,
    }
}

} // verus!
