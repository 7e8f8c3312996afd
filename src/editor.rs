//! A one-line text editor addressed by characters: the cursor is a character
//! index into the text, never a byte offset, so editing is correct for any
//! multi-byte text.
use vstd::prelude::*;

verus! {

/// Relies on `String::push`: appends one character.
#[verifier::external_body]
fn push_char(s: &mut String, c: char)
    ensures
        final(s)@ == old(s)@.push(c),
{
    s.push(c);
}

/// `s` with `c` inserted before the character at index `at`.
pub fn insert_char_at(s: &str, at: usize, c: char) -> (r: String)
    requires
        at <= s@.len(),
    ensures
        r@ == s@.insert(at as int, c),
{
    let n = s.unicode_len();
    let mut r = String::from_str(s.substring_char(0, at));
    push_char(&mut r, c);
    r.append(s.substring_char(at, n));
    assert(r@ =~= s@.insert(at as int, c));
    r
}

/// `s` without the character at index `at`.
pub fn remove_char_at(s: &str, at: usize) -> (r: String)
    requires
        at < s@.len(),
    ensures
        r@ == s@.remove(at as int),
{
    let n = s.unicode_len();
    let mut r = String::from_str(s.substring_char(0, at));
    r.append(s.substring_char(at + 1, n));
    assert(r@ =~= s@.remove(at as int));
    r
}

/// What an editor holds: its text and the character index of its cursor.
pub struct EditorView {
    pub text: Seq<char>,
    pub cursor: int,
}

impl EditorView {
    pub open spec fn wf(self) -> bool {
        0 <= self.cursor <= self.text.len()
    }

    pub open spec fn empty() -> EditorView {
        EditorView { text: Seq::empty(), cursor: 0 }
    }

    pub open spec fn inserted(self, c: char) -> EditorView {
        EditorView { text: self.text.insert(self.cursor, c), cursor: self.cursor + 1 }
    }

    pub open spec fn deleted(self) -> EditorView {
        if self.cursor == 0 {
            self
        } else {
            EditorView { text: self.text.remove(self.cursor - 1), cursor: self.cursor - 1 }
        }
    }

    pub open spec fn moved_left(self) -> EditorView {
        EditorView { cursor: if self.cursor == 0 { 0 } else { self.cursor - 1 }, ..self }
    }

    pub open spec fn moved_right(self) -> EditorView {
        EditorView {
            cursor: if self.cursor >= self.text.len() {
                self.text.len() as int
            } else {
                self.cursor + 1
            },
            ..self
        }
    }
}

/// A text buffer with a character cursor that stays within `[0, length]`.
pub struct LineEditor {
    text: String,
    cursor: usize,
}

impl View for LineEditor {
    type V = EditorView;

    closed spec fn view(&self) -> EditorView {
        EditorView { text: self.text@, cursor: self.cursor as int }
    }
}

impl LineEditor {
    pub open spec fn wf(&self) -> bool {
        self@.wf()
    }

    /// An empty editor.
    pub fn new() -> (r: LineEditor)
        ensures
            r@ == EditorView::empty(),
            r.wf(),
    {
        LineEditor { text: String::new(), cursor: 0 }
    }

    /// An editor holding `text`, with the cursor at its start.
    pub fn with_text(text: String) -> (r: LineEditor)
        ensures
            r@ == (EditorView { text: text@, cursor: 0 }),
            r.wf(),
    {
        LineEditor { text, cursor: 0 }
    }

    pub fn text(&self) -> (r: &String)
        ensures
            r@ == self@.text,
    {
        &self.text
    }

    pub fn cursor(&self) -> (r: usize)
        ensures
            r == self@.cursor,
    {
        self.cursor
    }

    /// `pos` limited to the length of the text.
    pub fn clamp_cursor(&self, pos: usize) -> (r: usize)
        ensures
            r == if pos <= self@.text.len() { pos as int } else { self@.text.len() as int },
    {
        let n = self.text.as_str().unicode_len();
        if pos <= n {
            pos
        } else {
            n
        }
    }

    /// Puts the cursor at the start of the text.
    pub fn reset_cursor(&mut self)
        ensures
            final(self)@ == (EditorView { cursor: 0, ..old(self)@ }),
    {
        self.cursor = 0;
    }

    /// Empties the text and resets the cursor.
    pub fn clear(&mut self)
        ensures
            final(self)@ == EditorView::empty(),
    {
        self.text = String::new();
        self.cursor = 0;
    }

    /// Inserts `c` at the cursor and moves the cursor past it.
    pub fn enter_char(&mut self, c: char)
        requires
            old(self).wf(),
        ensures
            final(self)@ == old(self)@.inserted(c),
            final(self).wf(),
    {
        let text = insert_char_at(self.text.as_str(), self.cursor, c);
        let n = text.as_str().unicode_len();
        self.text = text;
        self.cursor = self.cursor + 1;
        assert(n == old(self)@.text.len() + 1);
    }

    /// Deletes the character left of the cursor and moves the cursor onto its
    /// place; nothing happens at the start of the text.
    pub fn delete_char(&mut self)
        requires
            old(self).wf(),
        ensures
            final(self)@ == old(self)@.deleted(),
            final(self).wf(),
    {
        if self.cursor != 0 {
            self.text = remove_char_at(self.text.as_str(), self.cursor - 1);
            self.move_cursor_left();
        }
    }

    /// Moves the cursor one character left, stopping at the start.
    pub fn move_cursor_left(&mut self)
        ensures
            final(self)@ == old(self)@.moved_left(),
    {
        let moved = self.cursor.saturating_sub(1);
        self.cursor = moved;
    }

    /// Moves the cursor one character right, stopping at the end.
    pub fn move_cursor_right(&mut self)
        requires
            old(self).wf(),
        ensures
            final(self)@ == old(self)@.moved_right(),
            final(self).wf(),
    {
        let n = self.text.as_str().unicode_len();
        if self.cursor < n {
            self.cursor = self.cursor + 1;
        } else {
            self.cursor = n;
        }
    }
}

} // verus!
