//! The input field: the text being typed and a cursor that counts code
//! points, not bytes.

use vstd::prelude::*;
use vstd::string::StrSliceExecFns;
use crate::utf8::{
    byte_offset, char_offsets, lemma_insert_bytes, lemma_offset_end, lemma_offset_increases,
    lemma_offset_is_boundary, lemma_remove_bytes,
};

verus! {

/// The mathematical value of an input field.
pub struct EditorView {
    /// The code points typed so far.
    pub content: Seq<char>,
    /// How many code points lie before the cursor.
    pub cursor: nat,
}

impl EditorView {
    /// The cursor lies inside the text or at its end.
    pub open spec fn wf(self) -> bool {
        self.cursor <= self.content.len()
    }

    /// No text, cursor at the start.
    pub open spec fn empty() -> EditorView {
        EditorView { content: Seq::empty(), cursor: 0 }
    }

    /// `c` put in at the cursor, the cursor after it.
    pub open spec fn insert(self, c: char) -> EditorView {
        EditorView { content: self.content.insert(self.cursor as int, c), cursor: self.cursor + 1 }
    }

    /// The code point before the cursor, if there is one.
    pub open spec fn before_cursor(self) -> Option<char> {
        if self.cursor == 0 {
            None
        } else {
            Some(self.content[self.cursor - 1])
        }
    }

    /// The code point before the cursor taken out, the cursor one to the left;
    /// at the start, nothing changes.
    pub open spec fn remove(self) -> EditorView {
        if self.cursor == 0 {
            self
        } else {
            EditorView {
                content: self.content.remove(self.cursor - 1),
                cursor: (self.cursor - 1) as nat,
            }
        }
    }

    /// The cursor one to the left, or where it was at the start.
    pub open spec fn left(self) -> EditorView {
        EditorView {
            content: self.content,
            cursor: if self.cursor == 0 {
                0
            } else {
                (self.cursor - 1) as nat
            },
        }
    }

    /// The cursor one to the right, or where it was at the end.
    pub open spec fn right(self) -> EditorView {
        EditorView {
            content: self.content,
            cursor: if self.cursor == self.content.len() {
                self.cursor
            } else {
                self.cursor + 1
            },
        }
    }
}

/// One edit of the input field.
pub enum EditorOp {
    /// Put a code point in at the cursor.
    Insert(char),
    /// Take out the code point before the cursor.
    Remove,
    /// Move the cursor one to the left.
    Left,
    /// Move the cursor one to the right.
    Right,
}

impl EditorView {
    /// The field after one edit.
    pub open spec fn apply(self, op: EditorOp) -> EditorView {
        match op {
            EditorOp::Insert(c) => self.insert(c),
            EditorOp::Remove => self.remove(),
            EditorOp::Left => self.left(),
            EditorOp::Right => self.right(),
        }
    }

    /// The field after a run of edits, the first of them first.
    pub open spec fn apply_all(self, ops: Seq<EditorOp>) -> EditorView
        decreases ops.len(),
    {
        if ops.len() == 0 {
            self
        } else {
            self.apply_all(ops.drop_last()).apply(ops.last())
        }
    }
}

/// Whatever edits are made, in whatever order, the cursor stays inside the
/// text or at its end.
pub proof fn lemma_cursor_stays_in_text(field: EditorView, ops: Seq<EditorOp>)
    requires
        field.wf(),
    ensures
        field.apply_all(ops).wf(),
    decreases ops.len(),
{
    if ops.len() > 0 {
        lemma_cursor_stays_in_text(field, ops.drop_last());
    }
}

/// Putting a code point in, of whatever width and wherever the cursor is,
/// makes the text one code point longer and moves the cursor on by one; the
/// new code point stands where the cursor was, and the others keep their
/// order around it.
pub proof fn lemma_insert_adds_one(field: EditorView, c: char)
    requires
        field.wf(),
    ensures
        field.insert(c).content.len() == field.content.len() + 1,
        field.insert(c).cursor == field.cursor + 1,
        field.insert(c).content[field.cursor as int] == c,
        field.insert(c).content.take(field.cursor as int) == field.content.take(
            field.cursor as int,
        ),
        field.insert(c).content.skip(field.cursor as int + 1) == field.content.skip(field.cursor as int),
        field.insert(c).remove() == field,
{
    let after = field.insert(c);
    assert(after.content.take(field.cursor as int) =~= field.content.take(field.cursor as int));
    assert(after.content.skip(field.cursor as int + 1) =~= field.content.skip(field.cursor as int));
    assert(after.content.remove(field.cursor as int) =~= field.content);
}

/// With the cursor at the start, and so in an empty field, there is nothing
/// to take out: nothing is returned and the field stays as it is.
pub proof fn lemma_remove_at_start(field: EditorView)
    requires
        field.wf(),
        field.cursor == 0 || field.content.len() == 0,
    ensures
        field.before_cursor().is_none(),
        field.remove() == field,
{
}

/// The text typed so far, with the place where the next code point goes.
pub struct InputField {
    content: String,
    cursor_pos: usize,
}

impl View for InputField {
    type V = EditorView;

    closed spec fn view(&self) -> EditorView {
        EditorView { content: self.content@, cursor: self.cursor_pos as nat }
    }
}

impl InputField {
    #[verifier::type_invariant]
    spec fn cursor_in_text(self) -> bool {
        self.cursor_pos <= self.content@.len()
    }

    /// An empty field.
    pub fn new() -> (field: InputField)
        ensures
            field@ == EditorView::empty(),
    {
        InputField { content: String::new(), cursor_pos: 0 }
    }

    /// The text.
    pub fn content(&self) -> (text: &str)
        ensures
            text@ == self@.content,
    {
        self.content.as_str()
    }

    /// The number of code points before the cursor.
    pub fn cursor(&self) -> (at: usize)
        ensures
            at == self@.cursor,
            self@.wf(),
    {
        proof {
            use_type_invariant(self);
        }
        self.cursor_pos
    }

    /// The number of code points in the text.
    pub fn get_content_length(&self) -> (n: usize)
        ensures
            n == self@.content.len(),
    {
        self.content.as_str().unicode_len()
    }

    /// The byte offset of each code point of the text, in order.
    pub fn get_char_indices(&self) -> (offsets: Vec<usize>)
        ensures
            offsets@.len() == self@.content.len(),
            forall|k: int|
                0 <= k < self@.content.len() ==> offsets@[k] == byte_offset(self@.content, k),
    {
        char_offsets(self.content.as_str())
    }

    /// Moves the cursor one code point to the left; at the start it stays.
    pub fn shift_cursor_left(&mut self)
        ensures
            final(self)@ == old(self)@.left(),
            final(self)@.wf(),
    {
        proof {
            use_type_invariant(&*self);
        }
        self.cursor_pos = self.cursor_pos.saturating_sub(1);
    }

    /// Moves the cursor one code point to the right; at the end it stays.
    pub fn shift_cursor_right(&mut self)
        ensures
            final(self)@ == old(self)@.right(),
            final(self)@.wf(),
    {
        proof {
            use_type_invariant(&*self);
        }
        if self.get_content_length() != self.cursor_pos {
            self.cursor_pos += 1;
        }
    }

    /// Exchanges the text for `text`, with the cursor at `cursor`, and hands
    /// the former text out.
    fn exchange(&mut self, text: String, cursor: usize) -> (former: String)
        requires
            cursor <= text@.len(),
        ensures
            former@ == old(self)@.content,
            final(self)@ == (EditorView { content: text@, cursor: cursor as nat }),
    {
        let mut text = text;
        self.cursor_pos = 0;
        core::mem::swap(&mut self.content, &mut text);
        self.cursor_pos = cursor;
        text
    }

    /// Puts `character` in at the cursor and moves the cursor past it. At the
    /// end of the text this appends; elsewhere the cursor's code point index
    /// is first turned into the byte offset at which the text is opened.
    pub fn insert_character_at_cursor(&mut self, character: char)
        ensures
            final(self)@ == old(self)@.insert(character),
            final(self)@.wf(),
    {
        proof {
            use_type_invariant(&*self);
        }
        let at = self.cursor_pos;
        if at == self.get_content_length() {
            let mut text = self.exchange(String::new(), 0);
            text.push(character);
            assert(text@ =~= old(self)@.content.insert(at as int, character));
            self.exchange(text, at);
        } else {
            let idx = self.get_char_indices()[at];
            let mut text = self.exchange(String::new(), 0);
            proof {
                lemma_offset_is_boundary(old(self)@.content, at as int);
            }
            text.insert(idx, character);
            proof {
                lemma_insert_bytes(old(self)@.content, at as int, character, text@);
            }
            self.exchange(text, at);
        }
        self.shift_cursor_right();
    }

    /// Takes out the code point before the cursor and returns it, the cursor
    /// moving one to the left. With the cursor at the start there is nothing
    /// before it: the field stays as it is and nothing is returned.
    pub fn remove_character_at_cursor(&mut self) -> (removed: Option<char>)
        ensures
            removed == old(self)@.before_cursor(),
            final(self)@ == old(self)@.remove(),
            final(self)@.wf(),
    {
        proof {
            use_type_invariant(&*self);
        }
        if self.cursor_pos == 0 {
            return None;
        }
        self.shift_cursor_left();
        let at = self.cursor_pos;
        let idx = self.get_char_indices()[at];
        let mut text = self.exchange(String::new(), 0);
        proof {
            let before = old(self)@.content;
            lemma_offset_is_boundary(before, at as int);
            lemma_offset_increases(before, at as int, before.len() as int);
            lemma_offset_end(before);
        }
        let character = text.remove(idx);
        proof {
            lemma_remove_bytes(old(self)@.content, at as int, character, text@);
        }
        self.exchange(text, at);
        Some(character)
    }

    /// Hands the text out and leaves the field empty, the cursor at the start.
    pub fn take_and_clear(&mut self) -> (text: String)
        ensures
            text@ == old(self)@.content,
            final(self)@ == EditorView::empty(),
    {
        self.exchange(String::new(), 0)
    }
}

} // verus!
