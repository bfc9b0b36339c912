//! A list of options with a selection and type-ahead search.
//!
//! Typing selects the first option that contains what was typed, without
//! regard to the case of ASCII letters. What was typed is forgotten after a
//! pause, and by moving the selection.

use vstd::prelude::*;
use vstd::string::StringSliceAdditionalSpecFns;
use vstd::utf8::encode_utf8;

use crate::key::Key;
use crate::text::{string_of, strings_view};

verus! {

/// A pause after which what was typed is forgotten, in milliseconds.
pub const SEARCH_BUFFER_RESET_MS: u64 = 700;

/// The lower-case form of an ASCII letter; any other byte as it is.
pub open spec fn ascii_lower(b: u8) -> u8 {
    if 0x41 <= b <= 0x5a {
        (b + 0x20) as u8
    } else {
        b
    }
}

/// `needle` stands in `hay` at index `at`, the case of ASCII letters
/// disregarded.
pub open spec fn matches_ignoring_case(hay: Seq<u8>, needle: Seq<u8>, at: int) -> bool {
    &&& 0 <= at
    &&& at + needle.len() <= hay.len()
    &&& forall|k: int|
        0 <= k < needle.len() ==> ascii_lower(hay[at + k]) == ascii_lower(#[trigger] needle[k])
}

/// `needle` stands somewhere in `hay`, the case of ASCII letters disregarded.
pub open spec fn contains_ignoring_case(hay: Seq<u8>, needle: Seq<u8>) -> bool {
    exists|i: int| matches_ignoring_case(hay, needle, i)
}

/// `at` is the first index at which `needle` stands in `hay`, the case of
/// ASCII letters disregarded.
pub open spec fn is_first_match(hay: Seq<u8>, needle: Seq<u8>, at: int) -> bool {
    &&& matches_ignoring_case(hay, needle, at)
    &&& forall|j: int| 0 <= j < at ==> !matches_ignoring_case(hay, needle, j)
}

fn lower(b: u8) -> (r: u8)
    ensures
        r == ascii_lower(b),
{
    if 0x41 <= b && b <= 0x5a {
        b + 0x20
    } else {
        b
    }
}

fn window_matches(hay: &[u8], needle: &[u8], at: usize) -> (r: bool)
    requires
        at + needle.len() <= hay.len(),
    ensures
        r == matches_ignoring_case(hay@, needle@, at as int),
{
    let mut k: usize = 0;
    while k < needle.len()
        invariant
            k <= needle.len(),
            at + needle.len() <= hay.len(),
            forall|j: int|
                0 <= j < k ==> ascii_lower(hay@[at + j]) == ascii_lower(#[trigger] needle@[j]),
        decreases needle.len() - k,
    {
        if lower(hay[at + k]) != lower(needle[k]) {
            return false;
        }
        k += 1;
    }
    true
}

fn find_bytes(hay: &[u8], needle: &[u8]) -> (r: Option<usize>)
    ensures
        match r {
            Some(i) => is_first_match(hay@, needle@, i as int),
            None => !contains_ignoring_case(hay@, needle@),
        },
{
    if needle.len() > hay.len() {
        return None;
    }
    let last: usize = hay.len() - needle.len();
    let mut i: usize = 0;
    loop
        invariant
            i <= last,
            last == hay.len() - needle.len(),
            forall|j: int| 0 <= j < i ==> !matches_ignoring_case(hay@, needle@, j),
        decreases last - i,
    {
        if window_matches(hay, needle, i) {
            return Some(i);
        }
        if i == last {
            return None;
        }
        i += 1;
    }
}

/// Whether `needle` stands somewhere in `haystack`, the case of ASCII
/// letters disregarded. The empty needle stands in every haystack.
pub fn contains_ignore_ascii_case(haystack: &str, needle: &str) -> (r: bool)
    ensures
        r == contains_ignoring_case(haystack.spec_bytes(), needle.spec_bytes()),
{
    find_bytes(haystack.as_bytes(), needle.as_bytes()).is_some()
}

/// The index of the first byte of `haystack` at which `needle` stands, the
/// case of ASCII letters disregarded. The empty needle stands at 0.
pub fn find_ignore_ascii_case(haystack: &str, needle: &str) -> (r: Option<usize>)
    ensures
        match r {
            Some(i) => is_first_match(haystack.spec_bytes(), needle.spec_bytes(), i as int),
            None => !contains_ignoring_case(haystack.spec_bytes(), needle.spec_bytes()),
        },
{
    find_bytes(haystack.as_bytes(), needle.as_bytes())
}

/// The part of a line to set off for what was typed: from the first match
/// to its end. `None` where the line does not contain it.
pub fn match_range(line: &str, typed: &str) -> (r: Option<(usize, usize)>)
    ensures
        match r {
            Some((from, to)) => is_first_match(line.spec_bytes(), typed.spec_bytes(), from as int)
                && to == from + typed.spec_bytes().len(),
            None => !contains_ignoring_case(line.spec_bytes(), typed.spec_bytes()),
        },
{
    let total = line.as_bytes().len();
    let width = typed.as_bytes().len();
    match find_ignore_ascii_case(line, typed) {
        Some(from) => {
            assert(from + width <= total);
            Some((from, from + width))
        },
        None => None,
    }
}

/// `typed` stands somewhere in `line`, the case of ASCII letters disregarded.
pub open spec fn line_contains(line: Seq<char>, typed: Seq<char>) -> bool {
    contains_ignoring_case(encode_utf8(line), encode_utf8(typed))
}

/// `at` is the index of the first line that contains `typed`.
pub open spec fn is_first_line(lines: Seq<Seq<char>>, typed: Seq<char>, at: int) -> bool {
    &&& 0 <= at < lines.len()
    &&& line_contains(lines[at], typed)
    &&& forall|j: int| 0 <= j < at ==> !line_contains(#[trigger] lines[j], typed)
}

/// No line contains `typed`.
pub open spec fn no_line(lines: Seq<Seq<char>>, typed: Seq<char>) -> bool {
    forall|j: int| 0 <= j < lines.len() ==> !line_contains(#[trigger] lines[j], typed)
}

/// The selection as it is shown for a wanted one: none in an empty list,
/// and never beyond the last option.
pub open spec fn settled(wanted: Option<usize>, len: nat) -> Option<usize> {
    match wanted {
        Some(i) => if len == 0 {
            None
        } else if i >= len {
            Some((len - 1) as usize)
        } else {
            Some(i)
        },
        None => None,
    }
}

/// The option above: the last one where none is selected.
pub open spec fn above(selected: Option<usize>) -> usize {
    match selected {
        Some(i) => if i == 0 {
            0
        } else {
            (i - 1) as usize
        },
        None => usize::MAX,
    }
}

/// The option below: the first one where none is selected.
pub open spec fn below(selected: Option<usize>) -> usize {
    match selected {
        Some(i) => if i == usize::MAX {
            i
        } else {
            (i + 1) as usize
        },
        None => 0,
    }
}

/// What is typed after one more character: what was typed before is
/// forgotten after a pause of [`SEARCH_BUFFER_RESET_MS`].
pub open spec fn typed_after(typed: Seq<char>, c: char, since_last_ms: u64) -> Seq<char> {
    if since_last_ms >= SEARCH_BUFFER_RESET_MS {
        seq![c]
    } else {
        typed.push(c)
    }
}

/// A list as the contracts see it.
pub struct OptionsListView {
    pub contents: Seq<Seq<char>>,
    pub selected: Option<usize>,
    pub focus: bool,
    /// What was typed to search.
    pub search_buffer: Seq<char>,
}

/// A list of options, one of which can be selected.
#[derive(Debug)]
pub struct OptionsList {
    contents: Vec<String>,
    selected: Option<usize>,
    focus: bool,
    search_buffer: Vec<char>,
}

impl View for OptionsList {
    type V = OptionsListView;

    closed spec fn view(&self) -> OptionsListView {
        OptionsListView {
            contents: strings_view(self.contents@),
            selected: self.selected,
            focus: self.focus,
            search_buffer: self.search_buffer@,
        }
    }
}

/// The index of the first line that contains `typed`, if one does.
pub open spec fn first_line(lines: Seq<Seq<char>>, typed: Seq<char>) -> Option<usize> {
    if exists|i: int| is_first_line(lines, typed, i) {
        Some((choose|i: int| is_first_line(lines, typed, i)) as usize)
    } else {
        None
    }
}

/// There is at most one first line.
pub proof fn lemma_first_line(lines: Seq<Seq<char>>, typed: Seq<char>, at: int)
    ensures
        is_first_line(lines, typed, at) ==> first_line(lines, typed) == Some(at as usize),
        no_line(lines, typed) ==> first_line(lines, typed) is None,
{
    if is_first_line(lines, typed, at) {
        let other = choose|i: int| is_first_line(lines, typed, i);
        assert(is_first_line(lines, typed, other));
        if other < at {
            assert(!line_contains(lines[other], typed));
        }
        if at < other {
            assert(!line_contains(lines[at], typed));
        }
    }
    if no_line(lines, typed) {
        if exists|i: int| is_first_line(lines, typed, i) {
            let i = choose|i: int| is_first_line(lines, typed, i);
            assert(!line_contains(lines[i], typed));
        }
    }
}

/// The list after a key: the arrows move the selection and forget what was
/// typed; a character is typed, and the first option that contains what is
/// typed by then, if there is one, becomes the selection.
pub open spec fn list_after_key(
    v: OptionsListView,
    key: Key,
    since_last_ms: u64,
) -> OptionsListView {
    match key {
        Key::Up => OptionsListView {
            selected: settled(Some(above(v.selected)), v.contents.len()),
            search_buffer: Seq::empty(),
            ..v
        },
        Key::Down => OptionsListView {
            selected: settled(Some(below(v.selected)), v.contents.len()),
            search_buffer: Seq::empty(),
            ..v
        },
        Key::Char(c) => {
            let typed = typed_after(v.search_buffer, c, since_last_ms);
            OptionsListView {
                selected: match first_line(v.contents, typed) {
                    Some(i) => Some(i),
                    None => v.selected,
                },
                search_buffer: typed,
                ..v
            }
        },
        _ => v,
    }
}

impl Default for OptionsList {
    /// The empty list, out of focus.
    fn default() -> (r: OptionsList)
        ensures
            r@ == (OptionsListView {
                contents: Seq::empty(),
                selected: None,
                focus: false,
                search_buffer: Seq::empty(),
            }),
    {
        let r = OptionsList {
            contents: Vec::new(),
            selected: None,
            focus: false,
            search_buffer: Vec::new(),
        };
        assert(strings_view(r.contents@) =~= Seq::<Seq<char>>::empty());
        r
    }
}

impl OptionsList {
    /// The selection is one of the options.
    #[verifier::type_invariant]
    spec fn selection_in_list(self) -> bool {
        self.selected matches Some(i) ==> i < self.contents.len()
    }

    pub fn focus(&mut self)
        ensures
            final(self)@ == (OptionsListView { focus: true, ..old(self)@ }),
    {
        proof {
            use_type_invariant(&*self);
        }
        self.focus = true;
    }

    pub fn defocus(&mut self)
        ensures
            final(self)@ == (OptionsListView { focus: false, ..old(self)@ }),
    {
        proof {
            use_type_invariant(&*self);
        }
        self.focus = false;
    }

    pub fn is_focused(&self) -> (r: bool)
        ensures
            r == self@.focus,
    {
        self.focus
    }

    /// What was typed to search.
    pub fn search_buffer(&self) -> (r: String)
        ensures
            r@ == self@.search_buffer,
    {
        string_of(self.search_buffer.as_slice())
    }

    /// How many options there are.
    pub fn len(&self) -> (n: usize)
        ensures
            n == self@.contents.len(),
    {
        self.contents.len()
    }

    /// The `i`-th option.
    pub fn line(&self, i: usize) -> (r: Option<&str>)
        ensures
            match r {
                Some(line) => i < self@.contents.len() && line@ == self@.contents[i as int],
                None => i >= self@.contents.len(),
            },
    {
        if i < self.contents.len() {
            Some(self.contents[i].as_str())
        } else {
            None
        }
    }

    /// Puts other options in the list and selects the first of them.
    pub fn set_contents(&mut self, contents: Vec<String>)
        ensures
            final(self)@ == (OptionsListView {
                contents: strings_view(contents@),
                selected: settled(Some(0), contents@.len()),
                ..old(self)@
            }),
    {
        self.selected = None;
        let first = if contents.len() == 0 {
            None
        } else {
            Some(0)
        };
        self.contents = contents;
        self.selected = first;
    }

    fn select(&mut self, wanted: usize)
        ensures
            final(self)@ == (OptionsListView {
                selected: settled(Some(wanted), old(self)@.contents.len()),
                ..old(self)@
            }),
    {
        let len = self.contents.len();
        self.selected = if len == 0 {
            None
        } else if wanted >= len {
            Some(len - 1)
        } else {
            Some(wanted)
        };
    }

    fn up(&mut self)
        ensures
            final(self)@ == (OptionsListView {
                selected: settled(Some(above(old(self)@.selected)), old(self)@.contents.len()),
                ..old(self)@
            }),
    {
        let wanted = match self.selected {
            Some(i) => if i == 0 {
                0
            } else {
                i - 1
            },
            None => usize::MAX,
        };
        self.select(wanted)
    }

    fn down(&mut self)
        ensures
            final(self)@ == (OptionsListView {
                selected: settled(Some(below(old(self)@.selected)), old(self)@.contents.len()),
                ..old(self)@
            }),
    {
        let wanted = match self.selected {
            Some(i) => if i == usize::MAX {
                i
            } else {
                i + 1
            },
            None => 0,
        };
        self.select(wanted)
    }

    /// The index of the option selected.
    pub fn current(&self) -> (r: Option<usize>)
        ensures
            r == self@.selected,
            r matches Some(i) ==> i < self@.contents.len(),
    {
        proof {
            use_type_invariant(self);
        }
        self.selected
    }

    /// The option selected.
    pub fn current_value(&self) -> (r: Option<&str>)
        ensures
            match r {
                Some(line) => self@.selected is Some && line@
                    == self@.contents[self@.selected->0 as int],
                None => self@.selected is None,
            },
    {
        proof {
            use_type_invariant(self);
        }
        if let Some(idx) = self.selected {
            return Some(self.contents[idx].as_str());
        }
        None
    }

    fn clear_search_buffer(&mut self)
        ensures
            final(self)@ == (OptionsListView { search_buffer: Seq::empty(), ..old(self)@ }),
    {
        proof {
            use_type_invariant(&*self);
        }
        self.search_buffer = Vec::new();
    }

    fn first_line_with(&self, typed: &str) -> (r: Option<usize>)
        ensures
            r == first_line(self@.contents, typed@),
            r matches Some(i) ==> i < self@.contents.len(),
    {
        proof {
            lemma_first_line(self@.contents, typed@, 0);
        }
        let mut i: usize = 0;
        while i < self.contents.len()
            invariant
                i <= self.contents.len(),
                forall|j: int|
                    0 <= j < i ==> !line_contains(
                        #[trigger] strings_view(self.contents@)[j],
                        typed@,
                    ),
            decreases self.contents.len() - i,
        {
            if contains_ignore_ascii_case(self.contents[i].as_str(), typed) {
                proof {
                    lemma_first_line(self@.contents, typed@, i as int);
                }
                return Some(i);
            }
            i += 1;
        }
        None
    }

    fn search_buffer_register_char(&mut self, c: char, since_last_ms: u64)
        ensures
            final(self)@ == list_after_key(old(self)@, Key::Char(c), since_last_ms),
    {
        proof {
            use_type_invariant(&*self);
        }
        if since_last_ms >= SEARCH_BUFFER_RESET_MS {
            self.clear_search_buffer();
        }
        let mut typed: Vec<char> = Vec::new();
        core::mem::swap(&mut self.search_buffer, &mut typed);
        typed.push(c);
        assert(typed@ =~= typed_after(old(self)@.search_buffer, c, since_last_ms));
        let text = string_of(typed.as_slice());
        self.search_buffer = typed;
        if let Some(found) = self.first_line_with(text.as_str()) {
            self.selected = Some(found);
        }
    }

    /// Takes a key in, `since_last_ms` after the last character typed.
    pub fn handle_key_event(&mut self, key: Key, since_last_ms: u64)
        ensures
            final(self)@ == list_after_key(old(self)@, key, since_last_ms),
    {
        match key {
            Key::Up => {
                self.clear_search_buffer();
                self.up();
            },
            Key::Down => {
                self.clear_search_buffer();
                self.down();
            },
            Key::Char(c) => self.search_buffer_register_char(c, since_last_ms),
            _ => (),
        }
    }
}

} // verus!
