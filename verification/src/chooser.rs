//! The station picker's bookkeeping: where the cursor stands in the list,
//! which rows fit on the screen, and what a key asks for. Drawing and reading
//! keys is the caller's part.

use vstd::prelude::*;

verus! {

/// A key, as far as the picker tells keys apart.
#[derive(Debug, Clone, Copy, PartialEq, Eq)]
pub enum Key {
    Quit,
    Play,
    Stop,
    Save,
    Delete,
    Up,
    Down,
    Other,
}

/// What the caller is to do after a key.
#[derive(Debug, Clone, Copy, PartialEq, Eq)]
pub enum Outcome {
    /// Leave the picker.
    Quit,
    /// Ask the server to play the station at this index, then draw the list.
    Play(usize),
    /// Ask the server to stop, then draw the list.
    Stop,
    /// Save the station at this index as a favorite, then draw the list with
    /// a note.
    Save(usize),
    /// Delete the favorite at this index, then draw the list with a note.
    Delete(usize),
    /// Draw the list: the cursor may have moved.
    Moved,
    /// Nothing.
    Ignored,
}

/// The rows of the list that are drawn, from `first` up to but not including
/// `end`, and whether the cursor is shown on its own row.
#[derive(Debug, Clone, Copy, PartialEq, Eq)]
pub struct Window {
    pub first: usize,
    pub end: usize,
    pub cursor: bool,
}

/// The picker's state: the length of the list, the row of the cursor counted
/// from one, the height of the terminal, whether the list is the list of
/// favorites, and the index of the station that was last asked to play.
#[derive(Debug, Clone, Copy, PartialEq, Eq)]
pub struct Chooser {
    pub len: usize,
    pub row: usize,
    pub height: usize,
    pub favorites: bool,
    pub playing: Option<usize>,
}

/// The rows left for the list on a terminal of the height given, below the
/// header and above the footer.
pub open spec fn body_rows(height: usize) -> usize {
    if height >= 3 {
        (height - 3) as usize
    } else {
        0
    }
}

/// The rows drawn for a list of `len` stations with the cursor on `row`. A
/// list shorter than the terminal is drawn whole. A longer one is drawn from
/// its start while the cursor is within the rows that fit, and otherwise so
/// that the cursor's row is the last one drawn.
pub open spec fn window_of(len: usize, row: usize, height: usize) -> Window {
    let body = body_rows(height);
    if len < height {
        Window { first: 0, end: len, cursor: true }
    } else if row < height && row <= body {
        Window { first: 0, end: body, cursor: true }
    } else {
        Window { first: (row - body) as usize, end: row, cursor: false }
    }
}

impl Chooser {
    /// The cursor is on a row of the list, or on the first row of an empty
    /// one, and a station that plays is one of the list.
    pub open spec fn wf(&self) -> bool {
        &&& 1 <= self.row
        &&& (self.row <= self.len || self.row == 1)
        &&& (self.playing matches Some(i) ==> i < self.len)
    }

    /// The index of the station under the cursor, if there is one.
    pub open spec fn selection(&self) -> Option<usize> {
        if 1 <= self.row <= self.len {
            Some((self.row - 1) as usize)
        } else {
            None
        }
    }

    /// The state that follows a key.
    pub open spec fn after(&self, key: Key) -> Chooser {
        match key {
            Key::Play => match self.selection() {
                Some(i) => Chooser { playing: Some(i), ..*self },
                None => *self,
            },
            Key::Stop => Chooser { playing: None, ..*self },
            Key::Up => if self.row > 1 {
                Chooser { row: (self.row - 1) as usize, ..*self }
            } else {
                *self
            },
            Key::Down => if self.row < self.len {
                Chooser { row: (self.row + 1) as usize, ..*self }
            } else {
                *self
            },
            _ => *self,
        }
    }

    /// What a key asks of the caller. Saving is offered on a search result
    /// only, deleting on the favorites only, and a key that needs a station
    /// is ignored where the cursor is on none.
    pub open spec fn outcome(&self, key: Key) -> Outcome {
        match key {
            Key::Quit => Outcome::Quit,
            Key::Play => match self.selection() {
                Some(i) => Outcome::Play(i),
                None => Outcome::Ignored,
            },
            Key::Stop => Outcome::Stop,
            Key::Save => match self.selection() {
                Some(i) if !self.favorites => Outcome::Save(i),
                _ => Outcome::Ignored,
            },
            Key::Delete => match self.selection() {
                Some(i) if self.favorites => Outcome::Delete(i),
                _ => Outcome::Ignored,
            },
            Key::Up => Outcome::Moved,
            Key::Down => Outcome::Moved,
            Key::Other => Outcome::Ignored,
        }
    }

    /// A picker over `len` stations on a terminal of the height given, with
    /// the cursor on the first row and nothing playing.
    pub fn new(len: usize, height: usize, favorites: bool) -> (c: Chooser)
        ensures
            c.wf(),
            c == (Chooser { len, row: 1, height, favorites, playing: None }),
    {
        Chooser { len, row: 1, height, favorites, playing: None }
    }

    /// The index of the station under the cursor, if there is one.
    pub fn selected(&self) -> (r: Option<usize>)
        ensures
            r == self.selection(),
            r matches Some(i) ==> i < self.len,
    {
        if 1 <= self.row && self.row <= self.len {
            Some(self.row - 1)
        } else {
            None
        }
    }

    /// The rows to draw. Every row drawn is a row of the list.
    pub fn window(&self) -> (w: Window)
        requires
            self.wf(),
        ensures
            w == window_of(self.len, self.row, self.height),
            w.first <= w.end,
            w.first == w.end || w.end <= self.len,
    {
        let body: usize = if self.height >= 3 {
            self.height - 3
        } else {
            0
        };
        if self.len < self.height {
            Window { first: 0, end: self.len, cursor: true }
        } else if self.row < self.height && self.row <= body {
            Window { first: 0, end: body, cursor: true }
        } else {
            Window { first: self.row - body, end: self.row, cursor: false }
        }
    }

    /// Takes a key: moves the cursor or notes what plays, and says what the
    /// caller is to do.
    pub fn press(&mut self, key: Key) -> (o: Outcome)
        requires
            old(self).wf(),
        ensures
            final(self).wf(),
            *final(self) == old(self).after(key),
            o == old(self).outcome(key),
    {
        let at: Option<usize> = self.selected();
        match key {
            Key::Quit => Outcome::Quit,
            Key::Play => match at {
                Some(i) => {
                    self.playing = Some(i);
                    Outcome::Play(i)
                },
                None => Outcome::Ignored,
            },
            Key::Stop => {
                self.playing = None;
                Outcome::Stop
            },
            Key::Save => match at {
                Some(i) => if !self.favorites {
                    Outcome::Save(i)
                } else {
                    Outcome::Ignored
                },
                None => Outcome::Ignored,
            },
            Key::Delete => match at {
                Some(i) => if self.favorites {
                    Outcome::Delete(i)
                } else {
                    Outcome::Ignored
                },
                None => Outcome::Ignored,
            },
            Key::Up => {
                if self.row > 1 {
                    self.row = self.row - 1;
                }
                Outcome::Moved
            },
            Key::Down => {
                if self.row < self.len {
                    self.row = self.row + 1;
                }
                Outcome::Moved
            },
            Key::Other => Outcome::Ignored,
        }
    }
}

} // verus!
