//! A one-line text input with a cursor.

use vstd::prelude::*;

use crate::key::Key;
use crate::text::string_of;

verus! {

/// What opens the underlining of the character under the cursor.
pub open spec fn underline_on() -> Seq<char> {
    seq!['\x1b', '[', '4', 'm']
}

/// What closes it.
pub open spec fn underline_off() -> Seq<char> {
    seq!['\x1b', '[', '0', 'm']
}

/// An input as the contracts see it.
pub struct InputView {
    pub content: Seq<char>,
    /// The cursor: before the character of this index, or behind the last.
    pub index: nat,
    pub focus: bool,
}

/// A one-line text input.
#[derive(Debug)]
pub struct Input {
    content: Vec<char>,
    index: usize,
    focus: bool,
}

impl View for Input {
    type V = InputView;

    closed spec fn view(&self) -> InputView {
        InputView { content: self.content@, index: self.index as nat, focus: self.focus }
    }
}

/// The first `n` characters as they are shown: the one under the cursor
/// underlined.
pub open spec fn shown_prefix(content: Seq<char>, index: nat, n: nat) -> Seq<char>
    decreases n,
{
    if n == 0 || n > content.len() {
        Seq::empty()
    } else {
        let before = shown_prefix(content, index, (n - 1) as nat);
        let c = content[n - 1];
        if n - 1 == index {
            before + underline_on() + seq![c] + underline_off()
        } else {
            before.push(c)
        }
    }
}

/// The input as it is shown: its characters, the one under the cursor
/// underlined, then `_` for a cursor behind the last character and a
/// no-break space otherwise.
pub open spec fn shown(v: InputView) -> Seq<char> {
    shown_prefix(v.content, v.index, v.content.len()).push(
        if v.index == v.content.len() {
            '_'
        } else {
            '\u{a0}'
        },
    )
}

/// The input after a key.
pub open spec fn after_key(v: InputView, key: Key) -> InputView {
    match key {
        Key::Char(c) => InputView {
            content: v.content.insert(v.index as int, c),
            index: v.index + 1,
            ..v
        },
        Key::Backspace => if v.index == 0 {
            v
        } else {
            InputView {
                content: v.content.remove(v.index - 1),
                index: (v.index - 1) as nat,
                ..v
            }
        },
        Key::Left => if v.index == 0 {
            v
        } else {
            InputView { index: (v.index - 1) as nat, ..v }
        },
        Key::Right => if v.index == v.content.len() {
            v
        } else {
            InputView { index: v.index + 1, ..v }
        },
        _ => v,
    }
}

impl Default for Input {
    /// The empty input, in focus.
    fn default() -> (r: Input)
        ensures
            r@ == (InputView { content: Seq::empty(), index: 0, focus: true }),
    {
        Input { content: Vec::new(), index: 0, focus: true }
    }
}

impl Input {
    /// The cursor never leaves the text.
    #[verifier::type_invariant]
    spec fn holds_cursor(self) -> bool {
        self.index <= self.content.len()
    }

    /// The cursor is at an index of the text, or behind its last character.
    pub fn cursor(&self) -> (i: usize)
        ensures
            i == self@.index,
            i <= self@.content.len(),
    {
        proof {
            use_type_invariant(self);
        }
        self.index
    }

    pub fn is_focused(&self) -> (r: bool)
        ensures
            r == self@.focus,
    {
        self.focus
    }

    /// The text typed so far.
    pub fn content(&self) -> (r: String)
        ensures
            r@ == self@.content,
    {
        string_of(self.content.as_slice())
    }

    /// The text as it is shown, cursor included.
    pub fn render_content(&self) -> (r: String)
        ensures
            r@ == shown(self@),
    {
        let mut out: Vec<char> = Vec::new();
        let mut i: usize = 0;
        while i < self.content.len()
            invariant
                i <= self.content.len(),
                out@ == shown_prefix(self.content@, self.index as nat, i as nat),
            decreases self.content.len() - i,
        {
            let c = self.content[i];
            if i == self.index {
                let ghost before = out@;
                out.push('\x1b');
                out.push('[');
                out.push('4');
                out.push('m');
                out.push(c);
                out.push('\x1b');
                out.push('[');
                out.push('0');
                out.push('m');
                assert(out@ =~= before + underline_on() + seq![c] + underline_off());
            } else {
                out.push(c);
            }
            i += 1;
        }
        if self.content.len() == self.index {
            out.push('_');
        } else {
            out.push('\u{a0}');
        }
        string_of(out.as_slice())
    }

    fn handle_char(&mut self, c: char)
        ensures
            final(self)@ == after_key(old(self)@, Key::Char(c)),
    {
        proof {
            use_type_invariant(&*self);
        }
        let at = self.index;
        let mut content: Vec<char> = Vec::new();
        self.index = 0;
        core::mem::swap(&mut self.content, &mut content);
        content.insert(at, c);
        assert(at < content.len());
        self.content = content;
        self.index = at + 1;
    }

    fn handle_left(&mut self)
        ensures
            final(self)@ == after_key(old(self)@, Key::Left),
    {
        proof {
            use_type_invariant(&*self);
        }
        if self.index == 0 {
            return ;
        }
        self.index -= 1;
    }

    fn handle_right(&mut self)
        ensures
            final(self)@ == after_key(old(self)@, Key::Right),
    {
        proof {
            use_type_invariant(&*self);
        }
        if self.index == self.content.len() {
            return ;
        }
        self.index += 1;
    }

    fn handle_backspace(&mut self)
        ensures
            final(self)@ == after_key(old(self)@, Key::Backspace),
    {
        proof {
            use_type_invariant(&*self);
        }
        if self.index < 1 {
            return ;
        }
        let at = self.index - 1;
        let mut content: Vec<char> = Vec::new();
        self.index = 0;
        core::mem::swap(&mut self.content, &mut content);
        content.remove(at);
        self.content = content;
        self.index = at;
    }

    /// Takes a key in: a character is put in at the cursor, backspace takes
    /// out the one before it, the arrows move it. Any other key is ignored.
    pub fn handle_key_event(&mut self, key: Key)
        ensures
            final(self)@ == after_key(old(self)@, key),
    {
        match key {
            Key::Char(c) => self.handle_char(c),
            Key::Backspace => self.handle_backspace(),
            Key::Left => self.handle_left(),
            Key::Right => self.handle_right(),
            _ => (),
        }
    }

    pub fn focus(&mut self)
        ensures
            final(self)@ == (InputView { focus: true, ..old(self)@ }),
    {
        proof {
            use_type_invariant(&*self);
        }
        self.focus = true;
    }

    pub fn defocus(&mut self)
        ensures
            final(self)@ == (InputView { focus: false, ..old(self)@ }),
    {
        proof {
            use_type_invariant(&*self);
        }
        self.focus = false;
    }

    /// Empties the input.
    pub fn clear(&mut self)
        ensures
            final(self)@ == (InputView { content: Seq::empty(), index: 0, ..old(self)@ }),
    {
        proof {
            use_type_invariant(&*self);
        }
        self.index = 0;
        self.content = Vec::new();
    }
}

/// The cursor never leaves the text.
pub open spec fn cursor_in_text(v: InputView) -> bool {
    v.index <= v.content.len()
}

/// No key takes the cursor out of the text, and backspace undoes the
/// typing of a character.
pub proof fn lemma_keys_keep_the_cursor(v: InputView, key: Key, c: char)
    requires
        cursor_in_text(v),
    ensures
        cursor_in_text(after_key(v, key)),
        after_key(after_key(v, Key::Char(c)), Key::Backspace) == v,
        after_key(v, Key::Char(c)).content.len() == v.content.len() + 1,
{
    let typed = after_key(v, Key::Char(c));
    assert(typed.content.remove(typed.index - 1) =~= v.content);
}

} // verus!
