//! The text console of the dashboard: scrollback, a line editor with a
//! cursor, and a command history.
//!
//! The cursor is a byte offset into the UTF-8 text being typed, as in a
//! `String`; the editing operations are defined only where it falls on a
//! character boundary.

use vstd::prelude::*;
use std::collections::VecDeque;
use crate::text::{chars_of, string_from_chars};

verus! {

/// The most lines the scrollback keeps when printing.
pub const MAX_LINES: usize = 1000;

/// The most commands the history keeps.
pub const HISTORY_LIMIT: usize = 100;

/// The keys the console handles besides characters.
#[derive(Debug, Clone, Copy, PartialEq, Eq, Structural)]
pub enum ConsoleKey {
    ArrowLeft,
    ArrowRight,
    ArrowUp,
    ArrowDown,
    Home,
    End,
    /// Any other key: ignored.
    Other,
}

/// The length in bytes of the UTF-8 encoding of `c`.
pub open spec fn utf8_len(c: char) -> nat {
    if (c as u32) < 0x80 {
        1
    } else if (c as u32) < 0x800 {
        2
    } else if (c as u32) < 0x10000 {
        3
    } else {
        4
    }
}

/// The length in bytes of the UTF-8 encoding of `s`.
pub open spec fn byte_len(s: Seq<char>) -> nat
    decreases s.len(),
{
    if s.len() == 0 {
        0
    } else {
        byte_len(s.drop_last()) + utf8_len(s.last())
    }
}

/// Byte offset `b` of `s` is where character `k` starts (or the end, for
/// `k == s.len()`).
pub open spec fn starts_char(s: Seq<char>, b: int, k: int) -> bool {
    0 <= k <= s.len() && byte_len(s.take(k)) == b
}

/// The character that starts at byte offset `b`, if one does.
pub open spec fn char_at_byte(s: Seq<char>, b: int) -> Option<int> {
    if exists|k: int| starts_char(s, b, k) {
        Some(choose|k: int| starts_char(s, b, k))
    } else {
        None
    }
}

proof fn lemma_byte_len_step(s: Seq<char>, k: int)
    requires
        0 <= k < s.len(),
    ensures
        byte_len(s.take(k + 1)) == byte_len(s.take(k)) + utf8_len(s[k]),
{
    assert(s.take(k + 1).drop_last() =~= s.take(k));
}

proof fn lemma_byte_len_grows(s: Seq<char>, j: int, k: int)
    requires
        0 <= j < k <= s.len(),
    ensures
        byte_len(s.take(j)) < byte_len(s.take(k)),
    decreases k - j,
{
    lemma_byte_len_step(s, k - 1);
    if j < k - 1 {
        lemma_byte_len_grows(s, j, k - 1);
    }
}

proof fn lemma_byte_len_full(s: Seq<char>)
    ensures
        byte_len(s.take(s.len() as int)) == byte_len(s),
{
    assert(s.take(s.len() as int) =~= s);
}

proof fn lemma_char_at_byte_is(s: Seq<char>, b: int, k: int)
    requires
        starts_char(s, b, k),
    ensures
        char_at_byte(s, b) == Some(k),
{
    let c = choose|c: int| starts_char(s, b, c);
    assert(starts_char(s, b, c));
    if c < k {
        lemma_byte_len_grows(s, c, k);
    } else if k < c {
        lemma_byte_len_grows(s, k, c);
    }
}

proof fn lemma_byte_len_concat(a: Seq<char>, b: Seq<char>)
    ensures
        byte_len(a + b) == byte_len(a) + byte_len(b),
    decreases b.len(),
{
    if b.len() == 0 {
        assert(a + b =~= a);
    } else {
        assert((a + b).drop_last() =~= a + b.drop_last());
        lemma_byte_len_concat(a, b.drop_last());
    }
}

/// What a console shows and holds.
pub struct ConsoleView {
    pub lines: Seq<Seq<char>>,
    pub input: Seq<char>,
    pub prompt: Seq<char>,
    pub cursor: int,
    pub history: Seq<Seq<char>>,
    pub history_index: Option<usize>,
}

/// The console
pub struct Console {
    lines: VecDeque<String>,
    current_input: Vec<char>,
    prompt: String,
    cursor_pos: usize,
    history: VecDeque<String>,
    history_index: Option<usize>,
}

impl View for Console {
    type V = ConsoleView;

    closed spec fn view(&self) -> ConsoleView {
        ConsoleView {
            lines: self.lines@.map_values(|l: String| l@),
            input: self.current_input@,
            prompt: self.prompt@,
            cursor: self.cursor_pos as int,
            history: self.history@.map_values(|l: String| l@),
            history_index: self.history_index,
        }
    }
}

/// `lines` with `text` appended, the oldest line dropped beyond the limit.
pub open spec fn printed(lines: Seq<Seq<char>>, text: Seq<char>) -> Seq<Seq<char>> {
    let l = lines.push(text);
    if l.len() > MAX_LINES { l.drop_first() } else { l }
}

/// Submitting the input line: the scrollback gets the prompt and the line,
/// the input empties, a non-empty line joins the history (the oldest
/// command dropped beyond the limit) and browsing the history stops.
pub open spec fn submitted(v: ConsoleView) -> ConsoleView {
    let h = if v.input.len() > 0 {
        let h1 = v.history.push(v.input);
        if h1.len() > HISTORY_LIMIT { h1.drop_first() } else { h1 }
    } else {
        v.history
    };
    ConsoleView {
        lines: v.lines.push(v.prompt + v.input),
        input: Seq::empty(),
        cursor: 0,
        history: h,
        history_index: None,
        ..v
    }
}

/// The effect of typing `c`: Enter submits; Backspace deletes the character
/// before the cursor, moving it back one byte; Escape does nothing; any
/// other character goes in at the cursor, which moves on one byte.
pub open spec fn typed(v: ConsoleView, c: char) -> ConsoleView {
    if c == '\n' {
        submitted(v)
    } else if c == '\u{8}' {
        if v.cursor > 0 {
            let k = char_at_byte(v.input, v.cursor - 1)->0;
            ConsoleView { input: v.input.remove(k), cursor: v.cursor - 1, ..v }
        } else {
            v
        }
    } else if c == '\u{1B}' {
        v
    } else {
        let k = char_at_byte(v.input, v.cursor)->0;
        ConsoleView { input: v.input.insert(k, c), cursor: v.cursor + 1, ..v }
    }
}

/// Typing `c` keeps to character boundaries and to the size of a string:
/// Enter needs the prompt and the line to fit one string, Backspace needs a character starting just before the cursor, and any
/// other character (but Enter and Escape) needs the cursor on a boundary.
pub open spec fn can_type(v: ConsoleView, c: char) -> bool {
    if c == '\n' {
        byte_len(v.prompt) + byte_len(v.input) <= isize::MAX
    } else if c == '\u{1B}' {
        true
    } else if c == '\u{8}' {
        v.cursor > 0 ==> (char_at_byte(v.input, v.cursor - 1) matches Some(k) && k < v.input.len())
    } else {
        &&& char_at_byte(v.input, v.cursor) is Some
        &&& byte_len(v.input) + utf8_len(c) <= isize::MAX
    }
}

/// The effect of a special key: the arrows move the cursor one byte within
/// the line or browse the history (Up from the newest command back, Down
/// forward and round to the oldest), Home and End jump to the ends.
pub open spec fn special_key(v: ConsoleView, key: ConsoleKey) -> ConsoleView {
    match key {
        ConsoleKey::ArrowLeft => if v.cursor > 0 {
            ConsoleView { cursor: v.cursor - 1, ..v }
        } else {
            v
        },
        ConsoleKey::ArrowRight => if v.cursor < byte_len(v.input) {
            ConsoleView { cursor: v.cursor + 1, ..v }
        } else {
            v
        },
        ConsoleKey::ArrowUp => if v.history.len() == 0 {
            v
        } else {
            let idx: int = match v.history_index {
                Some(i) if i > 0 => i - 1,
                _ => v.history.len() - 1,
            };
            ConsoleView {
                history_index: Some(idx as usize),
                input: v.history[idx],
                cursor: byte_len(v.history[idx]) as int,
                ..v
            }
        },
        ConsoleKey::ArrowDown => if v.history.len() == 0 || v.history_index is None {
            v
        } else {
            let idx: int = match v.history_index {
                Some(i) if i < v.history.len() - 1 => i + 1,
                _ => 0,
            };
            ConsoleView {
                history_index: Some(idx as usize),
                input: v.history[idx],
                cursor: byte_len(v.history[idx]) as int,
                ..v
            }
        },
        ConsoleKey::Home => ConsoleView { cursor: 0, ..v },
        ConsoleKey::End => ConsoleView { cursor: byte_len(v.input) as int, ..v },
        ConsoleKey::Other => v,
    }
}

/// The length in bytes of the UTF-8 encoding of `c`.
fn utf8_width(c: char) -> (n: usize)
    ensures
        n == utf8_len(c),
{
    let v = c as u32;
    if v < 0x80 {
        1
    } else if v < 0x800 {
        2
    } else if v < 0x10000 {
        3
    } else {
        4
    }
}

/// The length in bytes of `s` as UTF-8, where it fits a string.
fn utf8_length(s: &Vec<char>) -> (n: usize)
    requires
        byte_len(s@) <= isize::MAX,
    ensures
        n == byte_len(s@),
{
    let mut n: usize = 0;
    let mut k: usize = 0;
    while k < s.len()
        invariant
            0 <= k <= s@.len(),
            n == byte_len(s@.take(k as int)),
            byte_len(s@) <= isize::MAX,
        decreases s@.len() - k,
    {
        proof {
            lemma_byte_len_step(s@, k as int);
            if k + 1 < s@.len() {
                lemma_byte_len_grows(s@, k + 1, s@.len() as int);
            }
            lemma_byte_len_full(s@);
        }
        n = n + utf8_width(s[k]);
        k += 1;
    }
    proof {
        lemma_byte_len_full(s@);
    }
    n
}

/// The index of the character that starts at byte offset `b`, if one does.
fn char_index_at(s: &Vec<char>, b: usize) -> (r: Option<usize>)
    ensures
        match r {
            Some(k) => char_at_byte(s@, b as int) == Some(k as int),
            None => char_at_byte(s@, b as int) is None,
        },
{
    let mut acc: usize = 0;
    let mut k: usize = 0;
    while k < s.len() && acc < b
        invariant
            0 <= k <= s@.len(),
            acc == byte_len(s@.take(k as int)),
            acc <= b,
            forall|j: int| 0 <= j < k ==> byte_len(s@.take(j)) < b,
        decreases s@.len() - k,
    {
        proof {
            lemma_byte_len_step(s@, k as int);
        }
        let w = utf8_width(s[k]);
        if w > b - acc {
            proof {
                // Offsets up to character k fall short of b; from k + 1 on
                // they overshoot it.
                assert forall|j: int| 0 <= j <= s@.len() implies byte_len(s@.take(j)) != b by {
                    if j > k + 1 {
                        lemma_byte_len_grows(s@, k + 1, j);
                    }
                }
                if exists|j: int| starts_char(s@, b as int, j) {
                    let j = choose|j: int| starts_char(s@, b as int, j);
                    assert(byte_len(s@.take(j)) != b);
                }
            }
            return None;
        }
        acc = acc + w;
        k += 1;
    }
    if acc == b {
        proof {
            lemma_char_at_byte_is(s@, b as int, k as int);
        }
        Some(k)
    } else {
        proof {
            assert(k == s@.len());
            assert forall|j: int| 0 <= j <= s@.len() implies byte_len(s@.take(j)) != b by {
                if j == k {
                    assert(acc < b);
                }
            }
            if exists|j: int| starts_char(s@, b as int, j) {
                let j = choose|j: int| starts_char(s@, b as int, j);
                assert(byte_len(s@.take(j)) != b);
            }
        }
        None
    }
}

impl Console {
    /// Every line of the scrollback and the history, the prompt and the
    /// input fit a string, and the history position points into the
    /// history.
    pub closed spec fn wf(&self) -> bool {
        &&& byte_len(self.current_input@) <= isize::MAX
        &&& self.history_index matches Some(i) ==> i < self.history@.len()
        &&& forall|i: int| 0 <= i < self.history@.len() ==> byte_len(#[trigger] self.history@[i]@) <= isize::MAX
    }

    /// Create a console whose scrollback greets the user.
    pub fn new() -> (c: Self)
        ensures
            c.wf(),
            c@ == (ConsoleView {
                lines: seq!["OS Gaming Console v0.1.0"@, "Type 'help' for commands"@],
                input: Seq::empty(),
                prompt: "> "@,
                cursor: 0,
                history: Seq::empty(),
                history_index: None,
            }),
    {
        let mut console = Self {
            lines: VecDeque::with_capacity(MAX_LINES),
            current_input: Vec::new(),
            prompt: crate::text::string_from_str("> "),
            cursor_pos: 0,
            history: VecDeque::with_capacity(HISTORY_LIMIT),
            history_index: None,
        };
        proof {
            reveal_strlit("> ");
            assert(console.prompt@ =~= seq!['>', ' ']);
            assert(byte_len(console.prompt@) == 2) by {
                reveal_with_fuel(byte_len, 3);
            }
            assert(console.history@.map_values(|l: String| l@) =~= Seq::<Seq<char>>::empty());
        }
        console.println("OS Gaming Console v0.1.0");
        console.println("Type 'help' for commands");
        assert(console@.lines =~= seq!["OS Gaming Console v0.1.0"@, "Type 'help' for commands"@]);
        console
    }

    /// Add a line to the scrollback (see `printed`).
    pub fn println(&mut self, text: &str)
        requires
            old(self).wf(),
        ensures
            final(self).wf(),
            final(self)@ == (ConsoleView { lines: printed(old(self)@.lines, text@), ..old(self)@ }),
    {
        let ghost before = self.lines@;
        self.lines.push_back(crate::text::string_from_str(text));
        if self.lines.len() > MAX_LINES {
            self.lines.pop_front();
        }
        proof {
            let l = before.map_values(|l: String| l@).push(text@);
            if before.len() + 1 > MAX_LINES {
                assert(self.lines@.map_values(|l: String| l@) =~= l.drop_first());
            } else {
                assert(self.lines@.map_values(|l: String| l@) =~= l);
            }
        }
    }

    /// Handle a typed character (see `typed`); true where a command was
    /// submitted.
    pub fn handle_key(&mut self, c: char) -> (submitted: bool)
        requires
            old(self).wf(),
            can_type(old(self)@, c),
        ensures
            final(self).wf(),
            final(self)@ == typed(old(self)@, c),
            submitted == (c == '\n'),
    {
        if c == '\n' {
            self.submit();
            return true;
        } else if c == '\u{8}' {
            if self.cursor_pos > 0 {
                let k = char_index_at(&self.current_input, self.cursor_pos - 1);
                if let Some(k) = k {
                    proof {
                        lemma_byte_len_concat(self.current_input@.take(k as int), self.current_input@.skip(k as int + 1));
                        lemma_byte_len_concat(self.current_input@.take(k as int), self.current_input@.skip(k as int));
                        assert(self.current_input@.take(k as int) + self.current_input@.skip(k as int) =~= self.current_input@);
                        assert(self.current_input@.skip(k as int) =~= seq![self.current_input@[k as int]] + self.current_input@.skip(k as int + 1));
                        lemma_byte_len_concat(seq![self.current_input@[k as int]], self.current_input@.skip(k as int + 1));
                        assert(self.current_input@.remove(k as int) =~= self.current_input@.take(k as int) + self.current_input@.skip(k as int + 1));
                        assert(byte_len(seq![self.current_input@[k as int]]) == utf8_len(self.current_input@[k as int])) by {
                            reveal_with_fuel(byte_len, 2);
                        }
                    }
                    self.current_input.remove(k);
                    self.cursor_pos = self.cursor_pos - 1;
                }
            }
        } else if c == '\u{1B}' {
        } else {
            let k = char_index_at(&self.current_input, self.cursor_pos);
            if let Some(k) = k {
                proof {
                    let s = self.current_input@;
                    assert(s.insert(k as int, c) =~= s.take(k as int) + seq![c] + s.skip(k as int));
                    assert(s =~= s.take(k as int) + s.skip(k as int));
                    lemma_byte_len_concat(s.take(k as int) + seq![c], s.skip(k as int));
                    lemma_byte_len_concat(s.take(k as int), seq![c]);
                    lemma_byte_len_concat(s.take(k as int), s.skip(k as int));
                    assert(byte_len(seq![c]) == utf8_len(c)) by {
                        reveal_with_fuel(byte_len, 2);
                    }
                    if k < s.len() {
                        lemma_byte_len_grows(s, k as int, s.len() as int);
                    }
                    lemma_byte_len_full(s);
                }
                self.current_input.insert(k, c);
                self.cursor_pos = self.cursor_pos + 1;
            }
        }
        false
    }

    /// Submit the input line (see `submitted`).
    fn submit(&mut self)
        requires
            old(self).wf(),
            byte_len(old(self)@.prompt) + byte_len(old(self)@.input) <= isize::MAX,
        ensures
            final(self).wf(),
            final(self)@ == submitted(old(self)@),
    {
        let ghost v = self@;
        let mut line: Vec<char> = chars_of(self.prompt.as_str());
        let mut i: usize = 0;
        while i < self.current_input.len()
            invariant
                0 <= i <= self.current_input@.len(),
                line@ == self.prompt@ + self.current_input@.take(i as int),
            decreases self.current_input@.len() - i,
        {
            line.push(self.current_input[i]);
            i += 1;
            assert(line@ =~= self.prompt@ + self.current_input@.take(i as int));
        }
        assert(self.current_input@.take(i as int) =~= self.current_input@);
        let ghost lines_before = self.lines@;
        self.lines.push_back(string_from_chars(&line));
        assert(self.lines@.map_values(|l: String| l@) =~= v.lines.push(v.prompt + v.input));
        let command = string_from_chars(&self.current_input);
        let had_text = self.current_input.len() > 0;
        self.current_input.clear();
        self.cursor_pos = 0;
        if had_text {
            let ghost h0 = self.history@;
            self.history.push_back(command);
            if self.history.len() > HISTORY_LIMIT {
                self.history.pop_front();
                assert(self.history@.map_values(|l: String| l@) =~= v.history.push(v.input).drop_first());
            } else {
                assert(self.history@.map_values(|l: String| l@) =~= v.history.push(v.input));
            }
        }
        self.history_index = None;
        proof {
            assert(self.current_input@ =~= Seq::<char>::empty());
            assert(byte_len(Seq::<char>::empty()) == 0);
            assert forall|i: int| 0 <= i < self.history@.len() implies byte_len(#[trigger] self.history@[i]@) <= isize::MAX by {
                if had_text {
                    if exists|j: int| 0 <= j < v.history.len() && self.history@[i]@ == v.history[j] {
                        let j = choose|j: int| 0 <= j < v.history.len() && self.history@[i]@ == v.history[j];
                        assert(v.history[j] == old(self).history@[j]@);
                    }
                }
            }
        }
    }

    /// Load history entry `idx` into the input line, with the cursor at its
    /// end.
    fn recall(&mut self, idx: usize)
        requires
            old(self).wf(),
            idx < old(self)@.history.len(),
        ensures
            final(self).wf(),
            final(self)@ == (ConsoleView {
                history_index: Some(idx),
                input: old(self)@.history[idx as int],
                cursor: byte_len(old(self)@.history[idx as int]) as int,
                ..old(self)@
            }),
    {
        self.history_index = Some(idx);
        let entry = chars_of(self.history[idx].as_str());
        assert(byte_len(self.history@[idx as int]@) <= isize::MAX);
        let n = utf8_length(&entry);
        self.current_input = entry;
        self.cursor_pos = n;
    }

    /// Handle a special key (see `special_key`).
    pub fn handle_special_key(&mut self, key: ConsoleKey)
        requires
            old(self).wf(),
        ensures
            final(self).wf(),
            final(self)@ == special_key(old(self)@, key),
    {
        match key {
            ConsoleKey::ArrowLeft => {
                if self.cursor_pos > 0 {
                    self.cursor_pos -= 1;
                }
            },
            ConsoleKey::ArrowRight => {
                if self.cursor_pos < utf8_length(&self.current_input) {
                    self.cursor_pos += 1;
                }
            },
            ConsoleKey::ArrowUp => {
                if self.history.len() == 0 {
                    return;
                }
                let history_len = self.history.len();
                let idx = match self.history_index {
                    Some(idx) if idx > 0 => idx - 1,
                    _ => history_len - 1,
                };
                self.recall(idx);
            },
            ConsoleKey::ArrowDown => {
                if self.history.len() == 0 || self.history_index.is_none() {
                    return;
                }
                let history_len = self.history.len();
                let idx = match self.history_index {
                    Some(idx) if idx < history_len - 1 => idx + 1,
                    _ => 0,
                };
                self.recall(idx);
            },
            ConsoleKey::Home => {
                self.cursor_pos = 0;
            },
            ConsoleKey::End => {
                self.cursor_pos = utf8_length(&self.current_input);
            },
            ConsoleKey::Other => {},
        }
    }

    /// The scrollback, oldest line first.
    pub fn lines(&self) -> (r: Vec<String>)
        ensures
            r@.map_values(|l: String| l@) == self@.lines,
    {
        let mut out: Vec<String> = Vec::new();
        let mut i: usize = 0;
        while i < self.lines.len()
            invariant
                0 <= i <= self.lines@.len(),
                out@.map_values(|l: String| l@) == self@.lines.take(i as int),
            decreases self.lines@.len() - i,
        {
            let ghost before = out@;
            out.push(crate::text::copy_string(&self.lines[i]));
            assert(out@.map_values(|l: String| l@) =~= before.map_values(|l: String| l@).push(self.lines@[i as int]@));
            assert(self@.lines.take(i as int + 1) =~= self@.lines.take(i as int).push(self@.lines[i as int]));
            i += 1;
            assert(out@.map_values(|l: String| l@) =~= self@.lines.take(i as int));
        }
        assert(self@.lines.take(i as int) =~= self@.lines);
        out
    }

    /// The text being typed.
    pub fn input(&self) -> (r: String)
        ensures
            r@ == self@.input,
    {
        string_from_chars(&self.current_input)
    }

    /// The cursor's byte offset in the text being typed.
    pub fn cursor(&self) -> (r: usize)
        ensures
            r == self@.cursor,
    {
        self.cursor_pos
    }
}

} // verus!
