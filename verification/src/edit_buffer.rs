//! The text buffer of a field edit session.
//!
//! A plain line editor: a sequence of characters with a cursor. Printable
//! characters insert at the cursor; backspace and delete remove around it;
//! the arrow, home and end keys move it. Keys with no line-editing meaning
//! leave the buffer untouched.

use vstd::prelude::*;
use crate::keys::Key;
use crate::text::{chars_to_string, str_to_chars};

verus! {

/// The mathematical value of an edit buffer.
#[verifier::ext_equal]
pub ghost struct EditBufferV {
    pub text: Seq<char>,
    pub cursor: int,
}

impl EditBufferV {
    /// The cursor sits between characters of the text.
    pub open spec fn wf(self) -> bool {
        0 <= self.cursor <= self.text.len()
    }
}

/// What one key does to a buffer.
pub open spec fn buffer_step(b: EditBufferV, k: Key) -> EditBufferV {
    match k {
        Key::Char(c) => EditBufferV { text: b.text.insert(b.cursor, c), cursor: b.cursor + 1 },
        Key::Backspace => if b.cursor > 0 {
            EditBufferV { text: b.text.remove(b.cursor - 1), cursor: b.cursor - 1 }
        } else {
            b
        },
        Key::Delete => if b.cursor < b.text.len() {
            EditBufferV { text: b.text.remove(b.cursor), cursor: b.cursor }
        } else {
            b
        },
        Key::Left => if b.cursor > 0 {
            EditBufferV { text: b.text, cursor: b.cursor - 1 }
        } else {
            b
        },
        Key::Right => if b.cursor < b.text.len() {
            EditBufferV { text: b.text, cursor: b.cursor + 1 }
        } else {
            b
        },
        Key::Home => EditBufferV { text: b.text, cursor: 0 },
        Key::End => EditBufferV { text: b.text, cursor: b.text.len() as int },
        _ => b,
    }
}

/// A line-edit buffer: text plus cursor position.
#[derive(Debug)]
pub struct EditBuffer {
    pub chars: Vec<char>,
    pub cursor: usize,
}

impl View for EditBuffer {
    type V = EditBufferV;

    open spec fn view(&self) -> EditBufferV {
        EditBufferV { text: self.chars@, cursor: self.cursor as int }
    }
}

impl EditBuffer {
    /// An empty buffer.
    pub fn new() -> (b: EditBuffer)
        ensures
            b@ == (EditBufferV { text: Seq::<char>::empty(), cursor: 0 }),
            b@.wf(),
    {
        let b = EditBuffer { chars: Vec::new(), cursor: 0 };
        assert(b@ =~= EditBufferV { text: Seq::<char>::empty(), cursor: 0 });
        b
    }

    /// A buffer seeded with `s`, cursor at the end.
    pub fn from_str(s: &str) -> (b: EditBuffer)
        ensures
            b@.text == s@,
            b@.cursor == s@.len(),
            b@.wf(),
    {
        let chars = str_to_chars(s);
        let cursor = chars.len();
        EditBuffer { chars, cursor }
    }

    /// The buffer text as a string.
    pub fn text(&self) -> (r: String)
        ensures
            r@ == self@.text,
    {
        chars_to_string(&self.chars)
    }

    /// The buffer text as characters.
    pub fn value_chars(&self) -> (r: &Vec<char>)
        ensures
            r@ == self@.text,
    {
        &self.chars
    }

    /// True when the buffer holds no characters.
    pub fn is_empty(&self) -> (r: bool)
        ensures
            r == (self@.text.len() == 0),
    {
        self.chars.len() == 0
    }

    /// Applies one key with standard line-edit meaning.
    pub fn apply_key(&mut self, k: Key)
        requires
            old(self)@.wf(),
        ensures
            final(self)@ == buffer_step(old(self)@, k),
            final(self)@.wf(),
    {
        match k {
            Key::Char(c) => {
                self.chars.insert(self.cursor, c);
                let n = self.chars.len();
                assert(self.cursor < n);
                self.cursor = self.cursor + 1;
            },
            Key::Backspace => {
                if self.cursor > 0 {
                    self.chars.remove(self.cursor - 1);
                    self.cursor = self.cursor - 1;
                }
            },
            Key::Delete => {
                if self.cursor < self.chars.len() {
                    self.chars.remove(self.cursor);
                }
            },
            Key::Left => {
                if self.cursor > 0 {
                    self.cursor = self.cursor - 1;
                }
            },
            Key::Right => {
                if self.cursor < self.chars.len() {
                    self.cursor = self.cursor + 1;
                }
            },
            Key::Home => {
                self.cursor = 0;
            },
            Key::End => {
                self.cursor = self.chars.len();
            },
            _ => {},
        }
        assert(self@ =~= buffer_step(old(self)@, k));
    }
}

} // verus!
