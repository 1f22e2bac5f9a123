//! TextArea: a read-only text viewer with line numbers, per-line colors
//! and a line search.

use vstd::prelude::*;

use crate::keys::{HandleResult, KeyCode, KeyEvent};
use crate::scroll::ScrollState;
use crate::style::Color;
use crate::text::{chars_of, decimal, push_char, push_decimal, push_str, string_from_range};

verus! {

/// `t` without one trailing `\r`.
pub open spec fn strip_cr(t: Seq<char>) -> Seq<char> {
    if t.len() > 0 && t.last() == '\r' { t.drop_last() } else { t }
}

/// The lines of `t` (`str::lines`): split after each `\n`, each line
/// without its `\n` or `\r\n`; a last line without a line ending counts,
/// an empty remainder does not.
pub open spec fn lines_of(t: Seq<char>) -> Seq<Seq<char>>
    decreases t.len(),
{
    match crate::text::spec_find(t, '\n') {
        Some(k) => {
            proof {
                crate::text::lemma_find_props(t, '\n');
            }
            seq![strip_cr(t.take(k as int))] + lines_of(t.skip((k + 1) as int))
        },
        None => if t.len() == 0 { Seq::empty() } else { seq![t] },
    }
}

/// Lines joined with `\n` between them.
pub open spec fn joined(ls: Seq<Seq<char>>) -> Seq<char>
    decreases ls.len(),
{
    if ls.len() == 0 {
        Seq::empty()
    } else if ls.len() == 1 {
        ls[0]
    } else {
        joined(ls.drop_last()).push('\n') + ls.last()
    }
}

/// Whether `q` occurs in `t` (`str::contains`).
pub open spec fn occurs(t: Seq<char>, q: Seq<char>) -> bool {
    exists|k: int| 0 <= k && k + q.len() <= t.len() && #[trigger] t.subrange(k, k + q.len()) == q
}

/// Indices `< k` of the lines holding `q`.
pub open spec fn lines_holding(ls: Seq<Seq<char>>, q: Seq<char>, k: nat) -> Seq<usize>
    decreases k,
{
    if k == 0 {
        Seq::empty()
    } else {
        let r = lines_holding(ls, q, (k - 1) as nat);
        if occurs(ls[k - 1], q) { r.push((k - 1) as usize) } else { r }
    }
}

/// Whether `q` occurs in `t`.
pub fn contains_chars(t: &Vec<char>, q: &Vec<char>) -> (b: bool)
    ensures
        b == occurs(t@, q@),
{
    if q.len() == 0 {
        assert(t@.subrange(0int, 0int + q@.len()) =~= q@);
        return true;
    }
    if q.len() > t.len() {
        return false;
    }
    let last = t.len() - q.len();
    let mut k: usize = 0;
    while k <= last
        invariant
            1 <= q.len() <= t.len(),
            last == t.len() - q.len(),
            k <= last + 1,
            forall|j: int| 0 <= j < k ==> #[trigger] t@.subrange(j, j + q.len()) != q@,
        decreases last + 1 - k,
    {
        let mut i: usize = 0;
        let mut same = true;
        while i < q.len() && same
            invariant
                k + q.len() <= t.len(),
                i <= q.len(),
                same ==> forall|j: int| 0 <= j < i ==> t@[k + j] == q@[j],
                !same ==> t@.subrange(k as int, k + q.len()) != q@,
            decreases q.len() - i, (if same { 1int } else { 0int }),
        {
            if t[k + i] != q[i] {
                same = false;
                assert(t@.subrange(k as int, k + q.len())[i as int] != q@[i as int]);
            } else {
                i += 1;
            }
        }
        if same {
            assert(t@.subrange(k as int, k + q.len()) =~= q@);
            return true;
        }
        k += 1;
    }
    proof {
        assert forall|j: int| 0 <= j && j + q@.len() <= t@.len() implies #[trigger] t@.subrange(j, j + q@.len()) != q@ by {
            assert(j < k);
        }
    }
    false
}

/// How a text line is drawn.
#[derive(Clone, Copy, Debug, PartialEq, Eq, Structural)]
pub enum LineLook {
    /// Past the last line: cleared.
    Blank,
    /// A line matching the search.
    Match,
    /// A line with its own color.
    Colored(Color),
    /// Any other line.
    Plain,
}

/// A drawn line: its row, look, line number text (empty without line
/// numbers) and the text shown after the gutter.
pub struct TextLine {
    pub y: u16,
    pub look: LineLook,
    pub number: String,
    pub text: String,
}

/// A read-only text viewer.
pub struct TextArea {
    lines: Vec<String>,
    scroll: ScrollState,
    line_numbers: bool,
    search_query: Vec<char>,
    search_matches: Vec<usize>,
    current_match: usize,
    line_colors: Vec<Color>,
    searching: bool,
    search_input: Vec<char>,
    needs_redraw: bool,
}

/// A text viewer as values.
pub struct TextAreaState {
    pub lines: Seq<Seq<char>>,
    pub scroll: ScrollState,
    pub line_numbers: bool,
    pub search_query: Seq<char>,
    /// Indices of the lines holding the query, in order.
    pub search_matches: Seq<usize>,
    pub current_match: usize,
    pub line_colors: Seq<Color>,
    /// Whether the search prompt takes the keys.
    pub searching: bool,
    pub search_input: Seq<char>,
    pub needs_redraw: bool,
}

pub open spec fn strings_view(v: Seq<String>) -> Seq<Seq<char>> {
    v.map_values(|s: String| s@)
}

impl View for TextArea {
    type V = TextAreaState;

    closed spec fn view(&self) -> TextAreaState {
        TextAreaState {
            lines: strings_view(self.lines@),
            scroll: self.scroll,
            line_numbers: self.line_numbers,
            search_query: self.search_query@,
            search_matches: self.search_matches@,
            current_match: self.current_match,
            line_colors: self.line_colors@,
            searching: self.searching,
            search_input: self.search_input@,
            needs_redraw: self.needs_redraw,
        }
    }
}

/// Rows one page key scrolls in a view `h` rows high.
pub open spec fn text_page(h: u16) -> nat {
    if h >= 2 { (h - 1) as nat } else { 1 }
}

impl TextAreaState {
    /// The state after searching for `q`: the lines holding it (none for
    /// an empty query), the first one current and shown.
    pub open spec fn after_search(self, q: Seq<char>) -> TextAreaState {
        let m = if q.len() == 0 { Seq::empty() } else { lines_holding(self.lines, q, self.lines.len()) };
        TextAreaState {
            search_query: q,
            search_matches: m,
            current_match: 0,
            scroll: if m.len() > 0 { self.scroll.showing(m[0]) } else { self.scroll },
            needs_redraw: true,
            ..self
        }
    }

    /// The state after moving to the next match (wrapping).
    pub open spec fn after_next_match(self) -> TextAreaState {
        let n = self.search_matches.len();
        if n == 0 {
            self
        } else {
            let c = ((self.current_match + 1) % (n as int)) as usize;
            TextAreaState { current_match: c, scroll: self.scroll.showing(self.search_matches[c as int]), needs_redraw: true, ..self }
        }
    }

    /// The state after moving to the previous match (wrapping).
    pub open spec fn after_prev_match(self) -> TextAreaState {
        let n = self.search_matches.len();
        if n == 0 {
            self
        } else {
            let c = if self.current_match == 0 { (n - 1) as usize } else { (self.current_match - 1) as usize };
            TextAreaState { current_match: c, scroll: self.scroll.showing(self.search_matches[c as int]), needs_redraw: true, ..self }
        }
    }

    /// The state after a key, in a view `h` rows high, and whether it
    /// was used.
    pub open spec fn after_key(self, key: KeyEvent, h: u16) -> (TextAreaState, HandleResult) {
        let redraw = |s: TextAreaState| TextAreaState { needs_redraw: true, ..s };
        if self.searching {
            (match key.code {
                KeyCode::Enter => TextAreaState { searching: false, ..self }.after_search(self.search_input),
                KeyCode::Esc => TextAreaState { searching: false, search_input: Seq::empty(), needs_redraw: true, ..self },
                KeyCode::Backspace => TextAreaState {
                    search_input: if self.search_input.len() > 0 { self.search_input.drop_last() } else { self.search_input },
                    needs_redraw: true,
                    ..self
                },
                KeyCode::Char(c) => TextAreaState { search_input: self.search_input.push(c), needs_redraw: true, ..self },
                _ => self,
            }, HandleResult::Consumed)
        } else {
            let sc = self.scroll;
            let page = text_page(h);
            let max = sc.max_offset_spec();
            let down = |k: nat| ScrollState {
                offset: (if sc.offset + k <= max { sc.offset + k } else if sc.offset <= max { max as int } else { sc.offset as int }) as usize,
                ..sc
            };
            let up = |k: nat| ScrollState { offset: (if sc.offset >= k { sc.offset - k } else { 0 }) as usize, ..sc };
            let plain = !key.modifiers.ctrl;
            match key.code {
                KeyCode::Up => (redraw(TextAreaState { scroll: up(1), ..self }), HandleResult::Consumed),
                KeyCode::Down => (redraw(TextAreaState { scroll: down(1), ..self }), HandleResult::Consumed),
                KeyCode::PageUp => (redraw(TextAreaState { scroll: up(page), ..self }), HandleResult::Consumed),
                KeyCode::PageDown => (redraw(TextAreaState { scroll: down(page), ..self }), HandleResult::Consumed),
                KeyCode::Home => (redraw(TextAreaState { scroll: ScrollState { offset: 0, ..sc }, ..self }), HandleResult::Consumed),
                KeyCode::End => (redraw(TextAreaState { scroll: ScrollState { offset: max as usize, ..sc }, ..self }), HandleResult::Consumed),
                KeyCode::Char(c) => if c == '/' && plain {
                    (TextAreaState { searching: true, search_input: Seq::empty(), needs_redraw: true, ..self }, HandleResult::Consumed)
                } else if c == 'n' && plain {
                    (self.after_next_match(), HandleResult::Consumed)
                } else if c == 'N' && plain {
                    (self.after_prev_match(), HandleResult::Consumed)
                } else {
                    (self, HandleResult::Ignored)
                },
                _ => (self, HandleResult::Ignored),
            }
        }
    }
}

/// The lines of `text`.
pub fn split_lines(text: &str) -> (v: Vec<String>)
    ensures
        strings_view(v@) == lines_of(text@),
{
    let cs = chars_of(text);
    let mut v: Vec<String> = Vec::new();
    let mut start: usize = 0;
    let mut i: usize = 0;
    assert(cs@.skip(0) =~= cs@);
    assert(cs@.subrange(0, 0) =~= Seq::<char>::empty());
    while i < cs.len()
        invariant
            start <= i <= cs.len(),
            cs@ == text@,
            crate::text::spec_find(cs@.subrange(start as int, i as int), '\n') is None,
            strings_view(v@) + lines_of(cs@.skip(start as int)) == lines_of(text@),
        decreases cs.len() - i,
    {
        if cs[i] == '\n' {
            let ghost rest = cs@.skip(start as int);
            proof {
                lemma_find_extend(cs@.subrange(start as int, i as int), '\n');
                assert(cs@.subrange(start as int, i as int).push('\n') =~= rest.take((i - start + 1) as int));
                lemma_find_prefix(rest, '\n', (i - start) as nat);
                assert(rest.take((i - start) as int) =~= cs@.subrange(start as int, i as int));
                assert(rest.skip((i - start) + 1) =~= cs@.skip(i + 1));
            }
            let end = if i > start && cs[i - 1] == '\r' { i - 1 } else { i };
            let line = string_from_range(&cs, start, end);
            proof {
                assert(line@ =~= strip_cr(cs@.subrange(start as int, i as int)));
            }
            let ghost before = strings_view(v@);
            v.push(line);
            assert(strings_view(v@) =~= before.push(line@));
            start = i + 1;
            i = i + 1;
            assert(cs@.subrange(start as int, i as int) =~= Seq::<char>::empty());
        } else {
            proof {
                lemma_find_extend(cs@.subrange(start as int, i as int), '\n');
                assert(cs@.subrange(start as int, i + 1) =~= cs@.subrange(start as int, i as int).push(cs@[i as int]));
            }
            i += 1;
        }
    }
    let ghost rest = cs@.skip(start as int);
    assert(rest =~= cs@.subrange(start as int, i as int));
    if start < cs.len() {
        let last = string_from_range(&cs, start, cs.len());
        let ghost before = strings_view(v@);
        v.push(last);
        assert(strings_view(v@) =~= before + seq![rest]);
    } else {
        assert(strings_view(v@) + lines_of(rest) =~= strings_view(v@));
    }
    v
}

proof fn lemma_find_extend(s: Seq<char>, c: char)
    requires
        crate::text::spec_find(s, c) is None,
    ensures
        crate::text::spec_find(s.push(c), c) == Some(s.len()),
        forall|d: char| d != c ==> crate::text::spec_find(#[trigger] s.push(d), c) is None,
    decreases s.len(),
{
    if s.len() > 0 {
        assert(s[0] != c);
        lemma_find_extend(s.drop_first(), c);
        assert(s.push(c).drop_first() =~= s.drop_first().push(c));
        assert(s.push(c)[0] == s[0]);
        assert forall|d: char| d != c implies crate::text::spec_find(#[trigger] s.push(d), c) is None by {
            assert(s.push(d).drop_first() =~= s.drop_first().push(d));
            assert(crate::text::spec_find(s.drop_first().push(d), c) is None);
            assert(s.push(d)[0] == s[0]);
        }
    } else {
        assert forall|d: char| d != c implies crate::text::spec_find(#[trigger] s.push(d), c) is None by {
            assert(s.push(d).drop_first() =~= Seq::<char>::empty());
            assert(crate::text::spec_find(Seq::<char>::empty(), c) is None);
            assert(crate::text::spec_find(s.push(d).drop_first(), c) is None);
            assert(s.push(d)[0] == d);
        }
        assert(s.push(c).drop_first() =~= Seq::<char>::empty());
        assert(s.push(c)[0] == c);
    }
}

/// A first match within a prefix is the first match overall.
proof fn lemma_find_prefix(s: Seq<char>, c: char, k: nat)
    requires
        k < s.len(),
        crate::text::spec_find(s.take((k + 1) as int), c) == Some(k),
    ensures
        crate::text::spec_find(s, c) == Some(k),
    decreases k,
{
    if k > 0 {
        assert(s.take((k + 1) as int).drop_first() =~= s.drop_first().take(k as int));
        lemma_find_prefix(s.drop_first(), c, (k - 1) as nat);
    } else {
        assert(s.take(1)[0] == s[0]);
    }
}

impl TextAreaState {
    /// The current match is one of the matches (or 0 without matches).
    pub open spec fn inv(self) -> bool {
        &&& self.search_matches.len() <= usize::MAX
        &&& (self.current_match < self.search_matches.len() || self.current_match == 0)
    }
}

impl TextArea {
    pub open spec fn wf(&self) -> bool {
        self@.inv()
    }

    /// An empty viewer with line numbers on.
    pub fn new() -> (t: TextArea)
        ensures
            t@ == (TextAreaState {
                lines: Seq::empty(),
                scroll: ScrollState { offset: 0, viewport: 0, total: 0 },
                line_numbers: true,
                search_query: Seq::empty(),
                search_matches: Seq::empty(),
                current_match: 0,
                line_colors: Seq::empty(),
                searching: false,
                search_input: Seq::empty(),
                needs_redraw: false,
            }),
    {
        let t = TextArea {
            lines: Vec::new(),
            scroll: ScrollState::new(),
            line_numbers: true,
            search_query: Vec::new(),
            search_matches: Vec::new(),
            current_match: 0,
            line_colors: Vec::new(),
            searching: false,
            search_input: Vec::new(),
            needs_redraw: false,
        };
        assert(strings_view(t.lines@) =~= Seq::empty());
        t
    }

    /// Replace the text with the lines of `text`.
    pub fn set_content(&mut self, text: &str)
        ensures
            final(self)@ == (TextAreaState {
                lines: lines_of(text@),
                scroll: ScrollState { total: lines_of(text@).len() as usize, ..old(self)@.scroll },
                needs_redraw: true,
                ..old(self)@
            }),
    {
        self.lines = split_lines(text);
        self.scroll.total = self.lines.len();
        self.needs_redraw = true;
    }

    /// Append the lines of `text`.
    pub fn append_lines(&mut self, text: &str)
        requires
            old(self)@.lines.len() + lines_of(text@).len() <= usize::MAX,
        ensures
            final(self)@ == (TextAreaState {
                lines: old(self)@.lines + lines_of(text@),
                scroll: ScrollState { total: (old(self)@.lines.len() + lines_of(text@).len()) as usize, ..old(self)@.scroll },
                needs_redraw: true,
                ..old(self)@
            }),
    {
        let mut more = split_lines(text);
        self.lines.append(&mut more);
        self.scroll.total = self.lines.len();
        self.needs_redraw = true;
        proof {
            assert(strings_view(self.lines@) =~= old(self)@.lines + lines_of(text@));
        }
    }

    /// The text: the lines joined with `\n`.
    pub fn content(&self) -> (s: String)
        ensures
            s@ == joined(self@.lines),
    {
        let ghost ls = self@.lines;
        let mut s = String::new();
        let mut i: usize = 0;
        while i < self.lines.len()
            invariant
                i <= self.lines.len(),
                ls == strings_view(self.lines@),
                s@ == joined(ls.take(i as int)),
            decreases self.lines.len() - i,
        {
            if i > 0 {
                push_char(&mut s, '\n');
            }
            push_str(&mut s, self.lines[i].as_str());
            proof {
                assert(ls.take(i + 1).drop_last() =~= ls.take(i as int));
                if i == 0 {
                    assert(s@ =~= ls.take(1)[0]);
                }
            }
            i += 1;
        }
        assert(ls.take(i as int) =~= ls);
        s
    }

    pub fn line_count(&self) -> (n: usize)
        ensures
            n == self@.lines.len(),
    {
        self.lines.len()
    }

    pub fn show_line_numbers(&mut self, show: bool)
        ensures
            final(self)@ == (TextAreaState { line_numbers: show, needs_redraw: true, ..old(self)@ }),
    {
        self.line_numbers = show;
        self.needs_redraw = true;
    }

    pub fn line_numbers_enabled(&self) -> (b: bool)
        ensures
            b == self@.line_numbers,
    {
        self.line_numbers
    }

    /// Give lines their own colors, by line index.
    pub fn set_line_colors(&mut self, colors: Vec<Color>)
        ensures
            final(self)@ == (TextAreaState { line_colors: colors@, needs_redraw: true, ..old(self)@ }),
    {
        self.line_colors = colors;
        self.needs_redraw = true;
    }

    pub fn scroll(&self) -> (s: ScrollState)
        ensures
            s == self@.scroll,
    {
        self.scroll
    }

    pub fn search_query(&self) -> (q: String)
        ensures
            q@ == self@.search_query,
    {
        string_from_range(&self.search_query, 0, self.search_query.len())
    }

    pub fn search_matches(&self) -> (m: &Vec<usize>)
        ensures
            m@ == self@.search_matches,
    {
        &self.search_matches
    }

    pub fn current_match(&self) -> (c: usize)
        ensures
            c == self@.current_match,
    {
        self.current_match
    }

    pub fn is_searching(&self) -> (b: bool)
        ensures
            b == self@.searching,
    {
        self.searching
    }

    pub fn needs_redraw(&self) -> (b: bool)
        ensures
            b == self@.needs_redraw,
    {
        self.needs_redraw
    }

    pub fn mark_redrawn(&mut self)
        ensures
            final(self)@ == (TextAreaState { needs_redraw: false, ..old(self)@ }),
    {
        self.needs_redraw = false;
    }

    fn search_chars(&mut self, q: Vec<char>)
        ensures
            final(self).wf(),
            final(self)@ == old(self)@.after_search(q@),
    {
        let ghost ls = self@.lines;
        let mut m: Vec<usize> = Vec::new();
        if q.len() > 0 {
            let mut i: usize = 0;
            while i < self.lines.len()
                invariant
                    i <= self.lines.len(),
                    ls == strings_view(self.lines@),
                    m@ == lines_holding(ls, q@, i as nat),
                decreases self.lines.len() - i,
            {
                let cs = chars_of(self.lines[i].as_str());
                if contains_chars(&cs, &q) {
                    m.push(i);
                }
                i += 1;
            }
        } else {
            assert(m@ =~= Seq::<usize>::empty());
        }
        self.search_query = q;
        self.search_matches = m;
        self.current_match = 0;
        if self.search_matches.len() > 0 {
            let first = self.search_matches[0];
            self.scroll.ensure_visible(first);
        }
        self.needs_redraw = true;
    }

    /// Search for the lines holding `query`; the first becomes current and
    /// is scrolled into view. An empty query matches nothing.
    pub fn search(&mut self, query: &str)
        ensures
            final(self).wf(),
            final(self)@ == old(self)@.after_search(query@),
    {
        let q = chars_of(query);
        self.search_chars(q);
    }

    /// Go to the next match, wrapping.
    pub fn next_match(&mut self)
        requires
            old(self).wf(),
        ensures
            final(self).wf(),
            final(self)@ == old(self)@.after_next_match(),
    {
        let n = self.search_matches.len();
        if n == 0 {
            return;
        }
        let c0 = self.current_match;
        let c1 = if c0 + 1 < n { c0 + 1 } else { 0 };
        assert(c1 == (c0 + 1) % (n as int)) by (nonlinear_arith)
            requires
                n > 0,
                c0 < n,
                c1 == (if c0 + 1 < n { c0 + 1 } else { 0 });
        self.current_match = c1;
        let line = self.search_matches[self.current_match];
        self.scroll.ensure_visible(line);
        self.needs_redraw = true;
    }

    /// Go to the previous match, wrapping.
    pub fn prev_match(&mut self)
        requires
            old(self).wf(),
        ensures
            final(self).wf(),
            final(self)@ == old(self)@.after_prev_match(),
    {
        let n = self.search_matches.len();
        if n == 0 {
            return;
        }
        self.current_match = if self.current_match == 0 { n - 1 } else { self.current_match - 1 };
        let line = self.search_matches[self.current_match];
        self.scroll.ensure_visible(line);
        self.needs_redraw = true;
    }
}

impl TextArea {
    fn handle_search_input(&mut self, key: &KeyEvent)
        requires
            old(self)@.searching,
            old(self).wf(),
        ensures
            final(self).wf(),
            final(self)@ == old(self)@.after_key(*key, 0).0,
    {
        match key.code {
            KeyCode::Enter => {
                self.searching = false;
                let q = self.search_input.clone();
                proof {
                    assert(q@ == old(self)@.search_input);
                }
                self.search_chars(q);
            },
            KeyCode::Esc => {
                self.searching = false;
                self.search_input.clear();
                self.needs_redraw = true;
            },
            KeyCode::Backspace => {
                self.search_input.pop();
                self.needs_redraw = true;
            },
            KeyCode::Char(c) => {
                self.search_input.push(c);
                self.needs_redraw = true;
            },
            _ => {},
        }
    }

    /// A key reaching the viewer `h` rows high. While the search prompt is
    /// open it takes every key: Enter searches, Esc cancels, Backspace and
    /// characters edit the query. Otherwise Up, Down and the page keys
    /// scroll, Home and End go to the ends, and `/` (without Ctrl) opens
    /// the prompt, `n` and `N` go to the next and previous match.
    pub fn handle_key(&mut self, key: &KeyEvent, h: u16) -> (r: HandleResult)
        requires
            old(self).wf(),
        ensures
            final(self).wf(),
            (final(self)@, r) == old(self)@.after_key(*key, h),
    {
        if self.searching {
            self.handle_search_input(key);
            proof {
                assert(old(self)@.after_key(*key, h).0 == old(self)@.after_key(*key, 0).0);
            }
            return HandleResult::Consumed;
        }
        let page: usize = if h >= 2 { (h - 1) as usize } else { 1 };
        let plain = !key.modifiers.ctrl;
        match key.code {
            KeyCode::Up => {
                self.scroll.scroll_up(1);
                self.needs_redraw = true;
                HandleResult::Consumed
            },
            KeyCode::Down => {
                self.scroll.scroll_down(1);
                self.needs_redraw = true;
                HandleResult::Consumed
            },
            KeyCode::PageUp => {
                self.scroll.scroll_up(page);
                self.needs_redraw = true;
                HandleResult::Consumed
            },
            KeyCode::PageDown => {
                self.scroll.scroll_down(page);
                self.needs_redraw = true;
                HandleResult::Consumed
            },
            KeyCode::Home => {
                self.scroll.offset = 0;
                self.needs_redraw = true;
                HandleResult::Consumed
            },
            KeyCode::End => {
                let m = self.scroll.max_offset();
                self.scroll.offset = m;
                self.needs_redraw = true;
                HandleResult::Consumed
            },
            KeyCode::Char(c) => {
                if c == '/' && plain {
                    self.searching = true;
                    self.search_input.clear();
                    self.needs_redraw = true;
                    HandleResult::Consumed
                } else if c == 'n' && plain {
                    self.next_match();
                    HandleResult::Consumed
                } else if c == 'N' && plain {
                    self.prev_match();
                    HandleResult::Consumed
                } else {
                    HandleResult::Ignored
                }
            },
            _ => HandleResult::Ignored,
        }
    }
}

/// `n` right-aligned in `width` characters.
pub open spec fn right_aligned(n: nat, width: nat) -> Seq<char> {
    let d = decimal(n);
    if d.len() >= width { d } else { Seq::new((width - d.len()) as nat, |k: int| ' ') + d }
}

impl TextAreaState {
    /// Row `row` of a viewer `w` wide with a gutter `gutter` wide: the
    /// line `scroll.offset + row` with its number, look and what fits of
    /// its text.
    pub open spec fn text_line(self, row: nat, w: u16, gutter: u16) -> (nat, LineLook, Seq<char>, Seq<char>) {
        let idx = self.scroll.offset + row;
        if idx >= self.lines.len() {
            (row, LineLook::Blank, Seq::empty(), Seq::empty())
        } else {
            let look = if self.search_matches.contains(idx as usize) {
                LineLook::Match
            } else if idx < self.line_colors.len() {
                LineLook::Colored(self.line_colors[idx])
            } else {
                LineLook::Plain
            };
            let number = if self.line_numbers { right_aligned((idx + 1) as nat, (gutter - 1) as nat).push(' ') } else { Seq::empty() };
            let avail: nat = if w >= gutter { (w - gutter) as nat } else { 0 };
            let t = self.lines[idx];
            (row, look, number, if t.len() <= avail { t } else { t.take(avail as int) })
        }
    }

    /// Rows given to text: all but the prompt row while searching.
    pub open spec fn content_rows(self, h: u16) -> nat {
        if self.searching { (if h >= 1 { h - 1 } else { 0 }) as nat } else { h as nat }
    }
}

pub open spec fn text_line_view(l: TextLine) -> (nat, LineLook, Seq<char>, Seq<char>) {
    (l.y as nat, l.look, l.number@, l.text@)
}

/// `n` right-aligned in `width` characters.
fn right_align(n: usize, width: usize) -> (s: String)
    ensures
        s@ == right_aligned(n as nat, width as nat),
{
    let mut d = String::new();
    push_decimal(&mut d, n);
    let dl = d.as_str().unicode_len();
    if dl >= width {
        return d;
    }
    let mut s = String::new();
    let mut k: usize = 0;
    while k < width - dl
        invariant
            k <= width - dl,
            s@ == Seq::new(k as nat, |j: int| ' '),
        decreases width - dl - k,
    {
        push_char(&mut s, ' ');
        k += 1;
        assert(s@ =~= Seq::new(k as nat, |j: int| ' '));
    }
    push_str(&mut s, d.as_str());
    s
}

impl TextArea {
    /// What the viewer draws on a `w` by `h` grid with a gutter `gutter`
    /// wide: one line per text row, and the search prompt text (`/` and
    /// the query) for the last row while searching. Nothing on an empty
    /// grid.
    pub fn draw_layout(&self, w: u16, h: u16, gutter: u16) -> (r: Option<(Vec<TextLine>, Option<String>)>)
        requires
            self@.line_numbers ==> gutter >= 1,
            self@.scroll.offset + h <= usize::MAX,
        ensures
            (w == 0 || h == 0) ==> r is None,
            (w > 0 && h > 0) ==> (r matches Some((lines, prompt)) && {
                &&& lines@.map_values(|l: TextLine| text_line_view(l))
                    == Seq::new(self@.content_rows(h), |row: int| self@.text_line(row as nat, w, gutter))
                &&& (self@.searching ==> (prompt matches Some(p) && p@ == seq!['/'] + self@.search_input))
                &&& (!self@.searching ==> prompt is None)
            }),
    {
        if w == 0 || h == 0 {
            return None;
        }
        let ghost st = self@;
        let rows: u16 = if self.searching { h - 1 } else { h };
        let mut lines: Vec<TextLine> = Vec::new();
        let mut row: u16 = 0;
        while row < rows
            invariant
                st == self@,
                rows as nat == st.content_rows(h),
                row <= rows,
                rows <= h,
                st.line_numbers ==> gutter >= 1,
                st.scroll.offset + h <= usize::MAX,
                lines@.map_values(|l: TextLine| text_line_view(l)) == Seq::new(row as nat, |k: int| st.text_line(k as nat, w, gutter)),
            decreases rows - row,
        {
            let idx = self.scroll.offset + (row as usize);
            let ghost before = lines@.map_values(|l: TextLine| text_line_view(l));
            if idx >= self.lines.len() {
                lines.push(TextLine { y: row, look: LineLook::Blank, number: String::new(), text: String::new() });
            } else {
                let mut is_match = false;
                let mut j: usize = 0;
                while j < self.search_matches.len()
                    invariant
                        j <= self.search_matches.len(),
                        is_match == exists|k: int| 0 <= k < j && self.search_matches@[k] == idx,
                    decreases self.search_matches.len() - j,
                {
                    if self.search_matches[j] == idx {
                        is_match = true;
                    }
                    j += 1;
                }
                let look = if is_match {
                    LineLook::Match
                } else if idx < self.line_colors.len() {
                    LineLook::Colored(self.line_colors[idx])
                } else {
                    LineLook::Plain
                };
                let number = if self.line_numbers {
                    let mut n = right_align(idx + 1, (gutter - 1) as usize);
                    push_char(&mut n, ' ');
                    n
                } else {
                    String::new()
                };
                let avail: usize = if w >= gutter { (w - gutter) as usize } else { 0 };
                let cs = chars_of(self.lines[idx].as_str());
                let take = if cs.len() <= avail { cs.len() } else { avail };
                let text = string_from_range(&cs, 0, take);
                proof {
                    assert(text@ =~= (if cs@.len() <= avail { cs@ } else { cs@.take(avail as int) }));
                }
                lines.push(TextLine { y: row, look, number, text });
            }
            assert(lines@.map_values(|l: TextLine| text_line_view(l)) =~= before.push(st.text_line(row as nat, w, gutter)));
            row += 1;
            assert(lines@.map_values(|l: TextLine| text_line_view(l)) =~= Seq::new(row as nat, |k: int| st.text_line(k as nat, w, gutter)));
        }
        let prompt = if self.searching {
            let mut p = String::new();
            push_char(&mut p, '/');
            let q = string_from_range(&self.search_input, 0, self.search_input.len());
            push_str(&mut p, q.as_str());
            assert(p@ =~= seq!['/'] + st.search_input);
            Some(p)
        } else {
            None
        };
        Some((lines, prompt))
    }
}

/// Going to the next match and back to the previous one returns to the
/// match that was current.
pub proof fn law_next_then_prev(s: TextAreaState)
    requires
        s.inv(),
    ensures
        s.after_next_match().after_prev_match().current_match == s.current_match,
{
    let n = s.search_matches.len();
    if n > 0 {
        let c = s.current_match;
        assert(((c + 1) % (n as int)) == (if c + 1 < n { c + 1 } else { 0 })) by (nonlinear_arith)
            requires
                c < n;
        let t = s.after_next_match();
        assert(t.search_matches.len() == n);
        assert(t.current_match == (if c + 1 < n { c + 1 } else { 0 }));
    }
}

/// The lines of a text without carriage returns, joined with newlines,
/// give the text back when it does not end with a newline.
pub proof fn law_lines_round_trip(t: Seq<char>)
    requires
        forall|i: int| 0 <= i < t.len() ==> t[i] != '\r',
        t.len() == 0 || t.last() != '\n',
    ensures
        joined(lines_of(t)) == t,
    decreases t.len(),
{
    crate::text::lemma_find_props(t, '\n');
    match crate::text::spec_find(t, '\n') {
        Some(k) => {
            let rest = t.skip((k + 1) as int);
            assert(rest.len() > 0);
            assert(rest.last() == t.last());
            assert forall|i: int| 0 <= i < rest.len() implies rest[i] != '\r' by {
                assert(rest[i] == t[k + 1 + i]);
            }
            law_lines_round_trip(rest);
            let head = t.take(k as int);
            if k > 0 {
                assert(head.last() == t[k - 1]);
            }
            assert(strip_cr(head) == head);
            lemma_joined_prepend(head, lines_of(rest));
            assert(head.push('\n') + rest =~= t);
        },
        None => {
            if t.len() > 0 {
                assert(joined(seq![t]) == t);
            } else {
                assert(lines_of(t) =~= Seq::<Seq<char>>::empty());
            }
        },
    }
}

proof fn lemma_joined_prepend(h: Seq<char>, ls: Seq<Seq<char>>)
    requires
        ls.len() > 0,
    ensures
        joined(seq![h] + ls) == h.push('\n') + joined(ls),
    decreases ls.len(),
{
    let all = seq![h] + ls;
    if ls.len() == 1 {
        assert(all.drop_last() =~= seq![h]);
        assert(all.last() == ls[0]);
        assert(joined(seq![h]) == h);
        assert(joined(ls) == ls[0]);
    } else {
        lemma_joined_prepend(h, ls.drop_last());
        assert(all.drop_last() =~= seq![h] + ls.drop_last());
        assert(all.last() == ls.last());
        assert(h.push('\n') + joined(ls.drop_last()).push('\n') + ls.last()
            =~= h.push('\n') + (joined(ls.drop_last()).push('\n') + ls.last()));
    }
}

} // verus!
