//! An editable line of text with a cursor, counted in characters.

use vstd::prelude::*;

verus! {

/// Mathematical model of a text buffer: the characters it holds and the
/// cursor offset, in character units.
#[verifier::ext_equal]
pub struct BufView {
    pub text: Seq<char>,
    pub cursor: nat,
}

/// A buffer is well formed when the cursor lies between the start of the
/// text and the position just past its last character.
pub open spec fn buf_wf(b: BufView) -> bool {
    b.cursor <= b.text.len()
}

/// The empty buffer with the cursor at the start.
pub open spec fn buf_empty() -> BufView {
    BufView { text: Seq::empty(), cursor: 0 }
}

/// Inserting a character at the cursor advances the cursor past it.
pub open spec fn buf_insert(b: BufView, c: char) -> BufView {
    BufView { text: b.text.insert(b.cursor as int, c), cursor: b.cursor + 1 }
}

/// Deleting before the cursor removes the character just before it and moves
/// the cursor back; at the start of the text it does nothing.
pub open spec fn buf_delete(b: BufView) -> BufView {
    if b.cursor == 0 {
        b
    } else {
        BufView { text: b.text.remove(b.cursor - 1), cursor: (b.cursor - 1) as nat }
    }
}

/// Moving the cursor adds the delta and clamps the result to the text.
pub open spec fn buf_move(b: BufView, delta: int) -> BufView {
    let target = b.cursor + delta;
    BufView {
        text: b.text,
        cursor: if target < 0 {
            0
        } else if target > b.text.len() {
            b.text.len()
        } else {
            target as nat
        },
    }
}

/// The buffer after inserting each character of `cs` in order.
pub open spec fn buf_insert_all(b: BufView, cs: Seq<char>) -> BufView
    decreases cs.len(),
{
    if cs.len() == 0 {
        b
    } else {
        buf_insert_all(buf_insert(b, cs[0]), cs.drop_first())
    }
}

/// The buffer after `n` deletions before the cursor.
pub open spec fn buf_delete_n(b: BufView, n: nat) -> BufView
    decreases n,
{
    if n == 0 {
        b
    } else {
        buf_delete(buf_delete_n(b, (n - 1) as nat))
    }
}

/// An editable line of text. The cursor is an offset in characters, never in
/// bytes, so editing stays correct under multi-byte text.
pub struct TextBuffer {
    chars: Vec<char>,
    cursor: usize,
}

impl View for TextBuffer {
    type V = BufView;

    closed spec fn view(&self) -> BufView {
        BufView { text: self.chars@, cursor: self.cursor as nat }
    }
}

impl TextBuffer {
    pub open spec fn wf(&self) -> bool {
        buf_wf(self@)
    }

    /// A new, empty buffer.
    pub fn new() -> (r: TextBuffer)
        ensures
            r.wf(),
            r@ == buf_empty(),
    {
        let r = TextBuffer { chars: Vec::new(), cursor: 0 };
        proof {
            assert(r@ =~= buf_empty());
        }
        r
    }

    /// Inserts `c` at the cursor and advances the cursor by one character.
    pub fn insert_char(&mut self, c: char)
        requires
            old(self).wf(),
            old(self)@.text.len() < usize::MAX,
        ensures
            final(self).wf(),
            final(self)@ == buf_insert(old(self)@, c),
    {
        self.chars.insert(self.cursor, c);
        self.cursor = self.cursor + 1;
    }

    /// Removes the character immediately before the cursor and moves the
    /// cursor back by one; at position 0 it is a no-op, not an error.
    pub fn delete_before_cursor(&mut self)
        requires
            old(self).wf(),
        ensures
            final(self).wf(),
            final(self)@ == buf_delete(old(self)@),
    {
        if self.cursor > 0 {
            self.chars.remove(self.cursor - 1);
            self.cursor = self.cursor - 1;
        }
    }

    /// Moves the cursor by `delta` characters, clamping the result to the
    /// text; never errors.
    pub fn move_cursor(&mut self, delta: isize)
        requires
            old(self).wf(),
        ensures
            final(self).wf(),
            final(self)@ == buf_move(old(self)@, delta as int),
    {
        if delta >= 0 {
            let d = delta as usize;
            let room = self.chars.len() - self.cursor;
            if d >= room {
                self.cursor = self.chars.len();
            } else {
                self.cursor = self.cursor + d;
            }
        } else {
            let d = (-(delta + 1)) as usize;
            if d >= self.cursor {
                self.cursor = 0;
            } else {
                self.cursor = self.cursor - d - 1;
            }
        }
    }

    /// The buffer's text as an owned string.
    pub fn text(&self) -> (r: String)
        ensures
            r@ == self@.text,
    {
        chars_to_string(&self.chars)
    }

    /// The buffer's characters, in order.
    pub fn chars(&self) -> (r: &Vec<char>)
        ensures
            r@ == self@.text,
    {
        &self.chars
    }

    /// The cursor offset, in characters from the start of the text.
    pub fn cursor(&self) -> (r: usize)
        ensures
            r == self@.cursor,
    {
        self.cursor
    }
}

/// Relies on String's FromIterator<char> impl: collecting characters yields
/// the string made of exactly those characters, in order.
#[verifier::external_body]
pub(crate) fn chars_to_string(v: &Vec<char>) -> (r: String)
    ensures
        r@ == v@,
{
    v.iter().collect()
}

/// Inserting a character and then deleting before the cursor restores the
/// buffer exactly.
pub proof fn lemma_insert_then_delete(b: BufView, c: char)
    requires
        buf_wf(b),
    ensures
        buf_delete(buf_insert(b, c)) == b,
{
    let inserted = buf_insert(b, c);
    assert(inserted.cursor == b.cursor + 1);
    assert(inserted.text.remove(b.cursor as int) =~= b.text);
    assert(buf_delete(inserted) =~= b);
}

/// Inserting a character preserves well-formedness.
pub proof fn lemma_insert_wf(b: BufView, c: char)
    requires
        buf_wf(b),
    ensures
        buf_wf(buf_insert(b, c)),
{
}

/// Round trip: any sequence of character insertions followed by the same
/// number of deletions before the cursor returns the text and the cursor to
/// their original values.
pub proof fn lemma_insert_delete_round_trip(b: BufView, cs: Seq<char>)
    requires
        buf_wf(b),
    ensures
        buf_delete_n(buf_insert_all(b, cs), cs.len()) == b,
    decreases cs.len(),
{
    if cs.len() == 0 {
    } else {
        let b1 = buf_insert(b, cs[0]);
        lemma_insert_wf(b, cs[0]);
        lemma_insert_delete_round_trip(b1, cs.drop_first());
        assert(buf_delete_n(buf_insert_all(b, cs), (cs.len() - 1) as nat) == b1);
        lemma_insert_then_delete(b, cs[0]);
    }
}

} // verus!
