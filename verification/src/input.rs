//! The player's input line: its text, where the cursor stands, and what it
//! shows when empty.

use vstd::prelude::*;
use crate::text::push_char;

verus! {

/// The text before the cursor, under it (a space past the end) and after
/// it; a cursor past the end stands just after the last character.
pub open spec fn split_at_cursor(s: Seq<char>, cursor: usize) -> (Seq<char>, Seq<char>, Seq<char>) {
    let c = if cursor < s.len() { cursor as int } else { s.len() as int };
    if c < s.len() {
        (s.subrange(0, c), seq![s[c]], s.subrange(c + 1, s.len() as int))
    } else {
        (s, seq![' '], Seq::<char>::empty())
    }
}

/// An input line drawn with a theme of type `T`.
pub struct InputWidget<'a, T> {
    content: &'a str,
    cursor_position: usize,
    theme: &'a T,
    placeholder: &'a str,
}

impl<'a, T> InputWidget<'a, T> {
    pub closed spec fn spec_content(&self) -> Seq<char> {
        self.content@
    }

    pub closed spec fn spec_cursor(&self) -> usize {
        self.cursor_position
    }

    pub closed spec fn spec_theme(&self) -> &'a T {
        self.theme
    }

    pub closed spec fn spec_placeholder(&self) -> Seq<char> {
        self.placeholder@
    }

    /// An input line with the cursor after the last character and the
    /// placeholder "Enter your action...".
    pub fn new(content: &'a str, theme: &'a T) -> (r: Self)
        ensures
            r.spec_content() == content@,
            r.spec_cursor() == content@.len(),
            r.spec_theme() == theme,
            r.spec_placeholder() == "Enter your action..."@,
    {
        InputWidget {
            content,
            cursor_position: content.unicode_len(),
            theme,
            placeholder: "Enter your action...",
        }
    }

    /// Moves the cursor to a character position.
    pub fn cursor_position(self, pos: usize) -> (r: Self)
        ensures
            r.spec_content() == self.spec_content(),
            r.spec_cursor() == pos,
            r.spec_theme() == self.spec_theme(),
            r.spec_placeholder() == self.spec_placeholder(),
    {
        let mut w = self;
        w.cursor_position = pos;
        w
    }

    /// Sets the text shown when the line is empty.
    pub fn placeholder(self, placeholder: &'a str) -> (r: Self)
        ensures
            r.spec_content() == self.spec_content(),
            r.spec_cursor() == self.spec_cursor(),
            r.spec_theme() == self.spec_theme(),
            r.spec_placeholder() == placeholder@,
    {
        let mut w = self;
        w.placeholder = placeholder;
        w
    }

    pub fn theme(&self) -> (r: &'a T)
        ensures
            r == self.spec_theme(),
    {
        self.theme
    }

    pub fn placeholder_text(&self) -> (r: &'a str)
        ensures
            r@ == self.spec_placeholder(),
    {
        self.placeholder
    }

    /// How the line is drawn around the cursor: `None` when empty (the
    /// placeholder is shown instead); else the text before the cursor, the
    /// character under it (a space past the end), and the text after it. A
    /// cursor past the end stands just after the last character.
    pub fn cursor_split(&self) -> (r: Option<(&'a str, String, &'a str)>)
        ensures
            self.spec_content().len() == 0 ==> r is None,
            self.spec_content().len() > 0 ==> (r matches Some((before, at, after))
                && (before@, at@, after@) == split_at_cursor(self.spec_content(), self.spec_cursor())),
    {
        let n = self.content.unicode_len();
        if n == 0 {
            return None;
        }
        let c = if self.cursor_position < n { self.cursor_position } else { n };
        let before = self.content.substring_char(0, c);
        let mut at = String::new();
        if c < n {
            push_char(&mut at, self.content.get_char(c));
            let after = self.content.substring_char(c + 1, n);
            Some((before, at, after))
        } else {
            push_char(&mut at, ' ');
            let after = self.content.substring_char(n, n);
            Some((before, at, after))
        }
    }
}

} // verus!
