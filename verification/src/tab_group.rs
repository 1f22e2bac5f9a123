//! TabGroup: a stack of tabbed views shown one at a time, with a title
//! row on top and a searchable dropdown of the tabs.
//!
//! This module holds the group's state and decisions. The tab views are
//! kept alongside, index for index with the titles: only the active one is
//! drawn and receives events, and a view can refuse to be closed.

use vstd::prelude::*;

use crate::geometry::Rect;
use crate::keys::{char_digit, spec_digit, HandleResult, KeyCode, KeyEvent};
use crate::tab_panel::{count_prefixed, renamed_user_part, title_index, find_title};
use crate::tab_bar::titles_view;
use crate::text::{decimal, find_char, push_char, push_decimal, spec_find, spec_starts_with, starts_with, string_from_range, chars_of};

verus! {

/// A tabbed container's state.
pub struct TabGroup {
    titles: Vec<String>,
    dirty: Vec<bool>,
    lru: Vec<u64>,
    lru_counter: u64,
    active: usize,
    focused: bool,
    bounds: Rect,
    dropdown_cursor: Option<usize>,
    dropdown_filter: Vec<char>,
    needs_redraw: bool,
}

/// A tabbed container's state as mathematical values.
pub struct TabGroupState {
    pub titles: Seq<Seq<char>>,
    /// Per tab: unsaved changes, shown as a mark after the title.
    pub dirty: Seq<bool>,
    /// Per tab: when it was last activated (a larger stamp is more recent).
    pub lru: Seq<u64>,
    /// The last stamp handed out.
    pub lru_counter: u64,
    /// The active tab (0 when there is none).
    pub active: usize,
    /// Whether the group has the input focus.
    pub focused: bool,
    pub bounds: Rect,
    /// The dropdown's selected row while it is open.
    pub dropdown_cursor: Option<usize>,
    /// The dropdown's search text.
    pub dropdown_filter: Seq<char>,
    pub needs_redraw: bool,
}

impl View for TabGroup {
    type V = TabGroupState;

    closed spec fn view(&self) -> TabGroupState {
        TabGroupState {
            titles: titles_view(self.titles@),
            dirty: self.dirty@,
            lru: self.lru@,
            lru_counter: self.lru_counter,
            active: self.active,
            focused: self.focused,
            bounds: self.bounds,
            dropdown_cursor: self.dropdown_cursor,
            dropdown_filter: self.dropdown_filter@,
            needs_redraw: self.needs_redraw,
        }
    }
}

/// Index of the most recent stamp; the last one among equal stamps.
pub open spec fn mru_index(lru: Seq<u64>) -> nat
    decreases lru.len(),
{
    if lru.len() <= 1 {
        0
    } else {
        let m = mru_index(lru.drop_last());
        if lru.last() >= lru[m as int] { (lru.len() - 1) as nat } else { m }
    }
}

impl TabGroupState {
    /// A new group: no tabs, unfocused, no dropdown.
    pub open spec fn empty() -> TabGroupState {
        TabGroupState {
            titles: Seq::empty(),
            dirty: Seq::empty(),
            lru: Seq::empty(),
            lru_counter: 0,
            active: 0,
            focused: false,
            bounds: Rect { x: 0, y: 0, w: 0, h: 0 },
            dropdown_cursor: None,
            dropdown_filter: Seq::empty(),
            needs_redraw: false,
        }
    }

    pub open spec fn len(self) -> nat {
        self.titles.len()
    }

    /// Per-tab lists line up, the active index names a tab (or is 0),
    /// stamps are distinct, nonzero and no newer than the counter, and an
    /// open dropdown's row can still move down.
    pub open spec fn inv_base(self) -> bool {
        &&& self.dirty.len() == self.len()
        &&& self.lru.len() == self.len()
        &&& (self.len() == 0 ==> self.active == 0)
        &&& (self.len() > 0 ==> self.active < self.len())
        &&& forall|i: int| 0 <= i < self.lru.len() ==> 1 <= #[trigger] self.lru[i] <= self.lru_counter
        &&& forall|i: int, j: int| 0 <= i < self.lru.len() && 0 <= j < self.lru.len() && i != j
            ==> #[trigger] self.lru[i] != #[trigger] self.lru[j]
        &&& (self.dropdown_cursor matches Some(c) ==> c < usize::MAX)
    }

    /// The base invariant, and the active tab is the most recently used.
    pub open spec fn inv(self) -> bool {
        &&& self.inv_base()
        &&& (self.len() > 0 ==> self.active == mru_index(self.lru))
    }

    /// The content area: everything below the title row.
    pub open spec fn content_rect(self) -> Rect {
        Rect { x: self.bounds.x, y: (self.bounds.y + 1) as u16, w: self.bounds.w, h: if self.bounds.h >= 1 { (self.bounds.h - 1) as u16 } else { 0 } }
    }

    /// Stamp the active tab as the most recent.
    pub open spec fn touched(self) -> TabGroupState {
        let c = (self.lru_counter + 1) as u64;
        TabGroupState {
            lru_counter: c,
            lru: if self.active < self.lru.len() { self.lru.update(self.active as int, c) } else { self.lru },
            ..self
        }
    }

    /// The state after `set_active(idx)`.
    pub open spec fn after_set_active(self, idx: usize) -> TabGroupState {
        if idx >= self.len() || idx == self.active {
            self
        } else {
            TabGroupState { active: idx, needs_redraw: true, ..self }.touched()
        }
    }

    /// The state after tab `idx` is removed: the most recently used tab
    /// left becomes active.
    pub open spec fn after_remove(self, idx: int) -> TabGroupState {
        let lru = self.lru.remove(idx);
        TabGroupState {
            titles: self.titles.remove(idx),
            dirty: self.dirty.remove(idx),
            lru: lru,
            active: if lru.len() > 0 { mru_index(lru) as usize } else { 0 },
            needs_redraw: true,
            ..self
        }
    }

    pub open spec fn after_tab_next(self) -> TabGroupState {
        if self.len() <= 1 {
            self
        } else {
            self.after_set_active(((self.active + 1) % (self.len() as int)) as usize)
        }
    }

    pub open spec fn after_tab_prev(self) -> TabGroupState {
        if self.len() <= 1 {
            self
        } else {
            self.after_set_active(if self.active == 0 { (self.len() - 1) as usize } else { (self.active - 1) as usize })
        }
    }

    /// The state after appending a tab titled `title`: it becomes active
    /// and the most recently used.
    pub open spec fn after_insert(self, title: Seq<char>) -> TabGroupState {
        TabGroupState {
            titles: self.titles.push(title),
            dirty: self.dirty.push(false),
            lru: self.lru.push(0),
            active: self.len() as usize,
            needs_redraw: true,
            ..self
        }.touched()
    }

    /// Whether some title starts with `prefix`.
    pub open spec fn has_prefixed(self, prefix: Seq<char>) -> bool {
        count_prefixed(self.titles, prefix) > 0
    }
}

/// `prefix:n`.
pub open spec fn numbered(prefix: Seq<char>, n: nat) -> Seq<char> {
    prefix.push(':') + decimal(n)
}

/// The first `n` in `from..10` for which no title starts with
/// `prefix:n`; `prefix:0` when every one is taken.
pub open spec fn free_number(s: TabGroupState, prefix: Seq<char>, from: nat) -> nat
    decreases 10 - from,
{
    if from >= 10 {
        0
    } else if !s.has_prefixed(numbered(prefix, from)) {
        from
    } else {
        free_number(s, prefix, from + 1)
    }
}

/// The most recent stamp is at least every other stamp.
pub proof fn lemma_mru_max(lru: Seq<u64>)
    requires
        lru.len() > 0,
    ensures
        mru_index(lru) < lru.len(),
        forall|j: int| 0 <= j < lru.len() ==> #[trigger] lru[j] <= lru[mru_index(lru) as int],
    decreases lru.len(),
{
    if lru.len() > 1 {
        let init = lru.drop_last();
        lemma_mru_max(init);
        let m = mru_index(init) as int;
        assert forall|j: int| 0 <= j < lru.len() implies #[trigger] lru[j] <= lru[mru_index(lru) as int] by {
            if j < lru.len() - 1 {
                assert(init[j] <= init[m]);
            }
        }
    }
}

/// A stamp newer than every other one is the most recent.
pub proof fn lemma_mru_unique(lru: Seq<u64>, i: int)
    requires
        0 <= i < lru.len(),
        forall|j: int| 0 <= j < lru.len() && j != i ==> #[trigger] lru[j] < lru[i],
    ensures
        mru_index(lru) == i,
{
    lemma_mru_max(lru);
    let m = mru_index(lru) as int;
    if m != i {
        assert(lru[m] < lru[i]);
        assert(lru[i] <= lru[m]);
    }
}

proof fn lemma_mru_bound(lru: Seq<u64>)
    ensures
        lru.len() > 0 ==> mru_index(lru) < lru.len(),
    decreases lru.len(),
{
    if lru.len() > 1 {
        lemma_mru_bound(lru.drop_last());
    }
}

/// Index of the most recent stamp in `lru`.
fn most_recent(lru: &Vec<u64>) -> (m: usize)
    requires
        lru.len() > 0,
    ensures
        m == mru_index(lru@),
        m < lru.len(),
{
    let mut m: usize = 0;
    let mut i: usize = 1;
    proof {
        assert(lru@.take(1).len() == 1);
    }
    while i < lru.len()
        invariant
            1 <= i <= lru.len(),
            m < i,
            m == mru_index(lru@.take(i as int)),
        decreases lru.len() - i,
    {
        proof {
            assert(lru@.take(i + 1).drop_last() =~= lru@.take(i as int));
            assert(lru@.take(i as int)[m as int] == lru@[m as int]);
        }
        if lru[i] >= lru[m] {
            m = i;
        }
        i += 1;
    }
    assert(lru@.take(lru.len() as int) =~= lru@);
    m
}

impl TabGroup {
    pub open spec fn wf(&self) -> bool {
        self@.inv()
    }

    /// An empty group.
    pub fn new() -> (g: TabGroup)
        ensures
            g.wf(),
            g@ == TabGroupState::empty(),
    {
        let g = TabGroup {
            titles: Vec::new(),
            dirty: Vec::new(),
            lru: Vec::new(),
            lru_counter: 0,
            active: 0,
            focused: false,
            bounds: Rect::zero(),
            dropdown_cursor: None,
            dropdown_filter: Vec::new(),
            needs_redraw: false,
        };
        assert(g@.titles =~= Seq::<Seq<char>>::empty());
        assert(g@.dirty =~= Seq::<bool>::empty());
        assert(g@.lru =~= Seq::<u64>::empty());
        assert(g@.dropdown_filter =~= Seq::<char>::empty());
        g
    }

    fn touch_lru(&mut self)
        requires
            old(self)@.inv_base(),
            old(self)@.len() > 0,
            old(self)@.lru_counter < u64::MAX,
        ensures
            final(self).wf(),
            final(self)@ == old(self)@.touched(),
    {
        self.lru_counter = self.lru_counter + 1;
        self.lru.set(self.active, self.lru_counter);
        proof {
            lemma_mru_unique(self.lru@, self.active as int);
        }
    }

    /// Append a tab and make it active.
    pub fn insert_tab(&mut self, title: &str)
        requires
            old(self).wf(),
            old(self)@.lru_counter < u64::MAX,
            old(self)@.len() < usize::MAX,
        ensures
            final(self).wf(),
            final(self)@ == old(self)@.after_insert(title@),
    {
        self.titles.push(String::from_str(title));
        self.dirty.push(false);
        self.lru_counter = self.lru_counter + 1;
        self.lru.push(self.lru_counter);
        self.active = self.titles.len() - 1;
        self.needs_redraw = true;
        proof {
            assert(titles_view(self.titles@) =~= old(self)@.titles.push(title@));
            assert(self.lru@ =~= old(self)@.lru.push(0).update(self.active as int, self.lru_counter));
            lemma_mru_unique(self.lru@, self.active as int);
        }
    }

    pub(crate) fn title_ref(&self, i: usize) -> (t: &str)
        requires
            i < self@.len(),
        ensures
            t@ == self@.titles[i as int],
    {
        self.titles[i].as_str()
    }

    pub(crate) fn dirty_at(&self, i: usize) -> (d: bool)
        requires
            self.wf(),
            i < self@.len(),
        ensures
            d == self@.dirty[i as int],
    {
        self.dirty[i]
    }

    /// Whether `key` may switch tabs (and so advance the recency counter):
    /// then [`TabGroup::handle_key`] needs [`TabGroup::touch_ok`].
    pub fn key_may_activate(&self, key: &KeyEvent) -> (b: bool)
        ensures
            b == key_may_activate(self@, *key),
    {
        if self.dropdown_cursor.is_some() {
            key.code == KeyCode::Enter
        } else if key.modifiers.alt && !key.modifiers.ctrl {
            match key.code {
                KeyCode::Char(c) => char_digit(c).is_some(),
                _ => false,
            }
        } else {
            false
        }
    }

    /// Whether the recency counter can advance once more (what switching
    /// tabs needs).
    pub fn touch_ok(&self) -> (b: bool)
        ensures
            b == (self@.lru_counter < u64::MAX),
    {
        self.lru_counter < u64::MAX
    }

    pub fn tab_count(&self) -> (n: usize)
        ensures
            n == self@.len(),
    {
        self.titles.len()
    }

    /// Make tab `index` active; nothing happens for an unknown or the
    /// active index.
    pub fn set_active(&mut self, index: usize)
        requires
            old(self).wf(),
            old(self)@.lru_counter < u64::MAX,
        ensures
            final(self).wf(),
            final(self)@ == old(self)@.after_set_active(index),
    {
        if index >= self.titles.len() || index == self.active {
            return;
        }
        self.active = index;
        self.needs_redraw = true;
        self.touch_lru();
    }

    pub fn active_index(&self) -> (i: usize)
        ensures
            i == self@.active,
    {
        self.active
    }

    pub fn active_title(&self) -> (t: Option<&str>)
        requires
            self.wf(),
        ensures
            self@.len() == 0 ==> t is None,
            self@.len() > 0 ==> (t matches Some(s) && s@ == self@.titles[self@.active as int]),
    {
        if self.active < self.titles.len() {
            Some(self.titles[self.active].as_str())
        } else {
            None
        }
    }

    pub fn tab_title(&self, index: usize) -> (t: Option<&str>)
        requires
            self.wf(),
        ensures
            index >= self@.len() ==> t is None,
            index < self@.len() ==> (t matches Some(s) && s@ == self@.titles[index as int]),
    {
        if index < self.titles.len() {
            Some(self.titles[index].as_str())
        } else {
            None
        }
    }

    /// Mark a tab as having (or not having) unsaved changes.
    pub fn set_dirty(&mut self, index: usize, dirty: bool)
        requires
            old(self).wf(),
        ensures
            final(self).wf(),
            index >= old(self)@.len() ==> final(self)@ == old(self)@,
            index < old(self)@.len() ==> final(self)@ == (TabGroupState {
                dirty: old(self)@.dirty.update(index as int, dirty),
                needs_redraw: true,
                ..old(self)@
            }),
    {
        if index < self.dirty.len() {
            self.dirty.set(index, dirty);
            self.needs_redraw = true;
        }
    }

    pub fn tab_next(&mut self)
        requires
            old(self).wf(),
            old(self)@.lru_counter < u64::MAX,
        ensures
            final(self).wf(),
            final(self)@ == old(self)@.after_tab_next(),
    {
        let n = self.titles.len();
        if n > 1 {
            self.set_active((self.active + 1) % n);
        }
    }

    pub fn tab_prev(&mut self)
        requires
            old(self).wf(),
            old(self)@.lru_counter < u64::MAX,
        ensures
            final(self).wf(),
            final(self)@ == old(self)@.after_tab_prev(),
    {
        let n = self.titles.len();
        if n > 1 {
            let prev = if self.active == 0 { n - 1 } else { self.active - 1 };
            self.set_active(prev);
        }
    }

    fn remove_at(&mut self, idx: usize)
        requires
            old(self).wf(),
            idx < old(self)@.len(),
        ensures
            final(self).wf(),
            final(self)@ == old(self)@.after_remove(idx as int),
    {
        self.titles.remove(idx);
        self.dirty.remove(idx);
        self.lru.remove(idx);
        proof {
            assert(titles_view(self.titles@) =~= old(self)@.titles.remove(idx as int));
            assert(self.lru@ =~= old(self)@.lru.remove(idx as int));
        }
        if self.lru.len() > 0 {
            self.active = most_recent(&self.lru);
        } else {
            self.active = 0;
        }
        self.needs_redraw = true;
    }

    /// Take tab `idx` out of the group, whatever its view says; returns its
    /// title. The most recently used tab left becomes active.
    pub fn take_tab(&mut self, idx: usize) -> (t: Option<String>)
        requires
            old(self).wf(),
        ensures
            final(self).wf(),
            idx >= old(self)@.len() ==> t is None && final(self)@ == old(self)@,
            idx < old(self)@.len() ==> (t matches Some(s) && s@ == old(self)@.titles[idx as int])
                && final(self)@ == old(self)@.after_remove(idx as int),
    {
        if idx >= self.titles.len() {
            return None;
        }
        let title = String::from_str(self.titles[idx].as_str());
        self.remove_at(idx);
        Some(title)
    }

    /// Close the active tab, unless there is none or its view refuses
    /// (`can_close` is the view's answer). Returns whether it closed.
    pub fn close_active(&mut self, can_close: bool) -> (closed: bool)
        requires
            old(self).wf(),
        ensures
            final(self).wf(),
            closed == (old(self)@.len() > 0 && can_close),
            !closed ==> final(self)@ == old(self)@,
            closed ==> final(self)@ == old(self)@.after_remove(old(self)@.active as int),
    {
        if self.titles.len() == 0 || !can_close {
            return false;
        }
        let a = self.active;
        self.remove_at(a);
        true
    }

    /// Position of the first tab titled `title`.
    pub fn find_tab(&self, title: &str) -> (r: Option<usize>)
        ensures
            r matches Some(i) ==> title_index(self@.titles, title@) == Some(i as nat),
            r is None ==> title_index(self@.titles, title@) is None,
    {
        find_title(self.titles.as_slice(), title)
    }

    /// Close the first tab titled `title`, unless there is none or its
    /// view refuses (`can_close` is that view's answer). Returns whether
    /// it closed.
    pub fn close_tab_by_title(&mut self, title: &str, can_close: bool) -> (closed: bool)
        requires
            old(self).wf(),
        ensures
            final(self).wf(),
            closed == (title_index(old(self)@.titles, title@) is Some && can_close),
            !closed ==> final(self)@ == old(self)@,
            closed ==> final(self)@ == old(self)@.after_remove(title_index(old(self)@.titles, title@).unwrap() as int),
    {
        match self.find_tab(title) {
            Some(idx) => {
                if !can_close {
                    return false;
                }
                proof {
                    crate::tab_panel::lemma_title_index_props(self@.titles, title@);
                }
                self.remove_at(idx);
                true
            },
            None => false,
        }
    }

    /// Activate the first tab titled `title`; false when there is none.
    pub fn focus_tab_by_title(&mut self, title: &str) -> (found: bool)
        requires
            old(self).wf(),
            old(self)@.lru_counter < u64::MAX,
        ensures
            final(self).wf(),
            found == title_index(old(self)@.titles, title@) is Some,
            !found ==> final(self)@ == old(self)@,
            found ==> final(self)@ == old(self)@.after_set_active(title_index(old(self)@.titles, title@).unwrap() as usize),
    {
        match self.find_tab(title) {
            Some(idx) => {
                self.set_active(idx);
                true
            },
            None => false,
        }
    }

    pub fn bounds(&self) -> (r: Rect)
        ensures
            r == self@.bounds,
    {
        self.bounds
    }

    /// The content area below the title row.
    pub fn content_rect(&self) -> (r: Rect)
        requires
            self@.bounds.y < u16::MAX,
        ensures
            r == self@.content_rect(),
    {
        let b = self.bounds;
        Rect::new(b.x, b.y + 1, b.w, if b.h >= 1 { b.h - 1 } else { 0 })
    }

    /// Move and resize the group; the active view gets the content area.
    pub fn set_bounds(&mut self, r: Rect)
        ensures
            final(self)@ == (TabGroupState { bounds: r, needs_redraw: true, ..old(self)@ }),
    {
        self.bounds = r;
        self.needs_redraw = true;
    }

    /// Give or take the input focus; the active view follows.
    pub fn set_focused(&mut self, focused: bool)
        ensures
            final(self)@ == (TabGroupState { focused: focused, ..old(self)@ }),
    {
        self.focused = focused;
    }

    pub fn is_focused(&self) -> (b: bool)
        ensures
            b == self@.focused,
    {
        self.focused
    }

    pub fn needs_redraw(&self) -> (b: bool)
        ensures
            b == self@.needs_redraw,
    {
        self.needs_redraw
    }

    /// The group was drawn.
    pub fn mark_redrawn(&mut self)
        ensures
            final(self)@ == (TabGroupState { needs_redraw: false, ..old(self)@ }),
    {
        self.needs_redraw = false;
    }

    /// Whether some title starts with `prefix`.
    pub fn has_tab_starting_with(&self, prefix: &str) -> (b: bool)
        ensures
            b == self@.has_prefixed(prefix@),
    {
        let ghost tv = self@.titles;
        let mut i: usize = 0;
        while i < self.titles.len()
            invariant
                i <= self.titles.len(),
                tv == titles_view(self.titles@),
                count_prefixed(tv.take(i as int), prefix@) == 0,
            decreases self.titles.len() - i,
        {
            proof {
                assert(tv.take(i + 1).drop_last() =~= tv.take(i as int));
            }
            if starts_with(self.titles[i].as_str(), prefix) {
                proof {
                    lemma_count_prefixed_grows(tv, prefix@, (i + 1) as nat);
                }
                return true;
            }
            i += 1;
        }
        assert(tv.take(i as int) =~= tv);
        false
    }

    /// Retitle the active tab.
    pub fn rename_active(&mut self, new_title: &str)
        requires
            old(self).wf(),
        ensures
            final(self).wf(),
            old(self)@.len() == 0 ==> final(self)@ == old(self)@,
            old(self)@.len() > 0 ==> final(self)@ == (TabGroupState {
                titles: old(self)@.titles.update(old(self)@.active as int, new_title@),
                needs_redraw: true,
                ..old(self)@
            }),
    {
        if self.active < self.titles.len() {
            self.titles.set(self.active, String::from_str(new_title));
            self.needs_redraw = true;
            proof {
                assert(titles_view(self.titles@) =~= old(self)@.titles.update(old(self)@.active as int, new_title@));
            }
        }
    }

    /// The first free name `prefix:n` for n in 0..10 (no title starts
    /// with it), else `prefix:0`.
    pub fn next_tab_name(&self, prefix: &str) -> (name: String)
        ensures
            name@ == numbered(prefix@, free_number(self@, prefix@, 0)),
    {
        let mut n: usize = 0;
        while n < 10
            invariant
                n <= 10,
                free_number(self@, prefix@, 0) == free_number(self@, prefix@, n as nat),
            decreases 10 - n,
        {
            let mut candidate = String::from_str(prefix);
            push_char(&mut candidate, ':');
            push_decimal(&mut candidate, n);
            if !self.has_tab_starting_with(candidate.as_str()) {
                return candidate;
            }
            n += 1;
        }
        let mut name = String::from_str(prefix);
        push_char(&mut name, ':');
        push_decimal(&mut name, 0);
        name
    }

    /// Rename the active tab's user part, the text after its first `:`;
    /// a title without a colon stays.
    pub fn rename_user_part(&mut self, new_user_part: &str)
        requires
            old(self).wf(),
        ensures
            final(self).wf(),
            ({
                let s = old(self)@;
                if s.len() > 0 && spec_find(s.titles[s.active as int], ':') is Some {
                    final(self)@ == (TabGroupState {
                        titles: s.titles.update(s.active as int, renamed_user_part(s.titles[s.active as int], new_user_part@)),
                        needs_redraw: true,
                        ..s
                    })
                } else {
                    final(self)@ == s
                }
            }),
    {
        if self.active >= self.titles.len() {
            return;
        }
        let chars = chars_of(self.titles[self.active].as_str());
        match find_char(&chars, ':') {
            Some(colon) => {
                proof {
                    crate::text::lemma_find_props(chars@, ':');
                    assert(colon < chars.len());
                }
                let mut t = string_from_range(&chars, 0, colon + 1);
                crate::text::push_str(&mut t, new_user_part);
                proof {
                    assert(chars@.subrange(0, colon + 1) =~= chars@.take(colon as int).push(':'));
                }
                self.rename_active(t.as_str());
            },
            None => {},
        }
    }
}

proof fn lemma_count_prefixed_grows(tv: Seq<Seq<char>>, prefix: Seq<char>, k: nat)
    requires
        1 <= k <= tv.len(),
        spec_starts_with(tv[k - 1], prefix),
    ensures
        count_prefixed(tv, prefix) > 0,
    decreases tv.len() - k,
{
    assert(tv.take(k as int).drop_last() =~= tv.take(k - 1));
    if k < tv.len() {
        lemma_count_prefixed_mono(tv, prefix, k);
    } else {
        assert(tv.take(k as int) =~= tv);
    }
}

proof fn lemma_count_prefixed_mono(tv: Seq<Seq<char>>, prefix: Seq<char>, k: nat)
    requires
        k <= tv.len(),
    ensures
        count_prefixed(tv, prefix) >= count_prefixed(tv.take(k as int), prefix),
    decreases tv.len() - k,
{
    if k < tv.len() {
        assert(tv.take(k + 1int).drop_last() =~= tv.take(k as int));
        lemma_count_prefixed_mono(tv, prefix, k + 1);
    } else {
        assert(tv.take(k as int) =~= tv);
    }
}

/// The characters `c` lowercases to (`char::to_lowercase`).
pub uninterp spec fn lower_char(c: char) -> Seq<char>;

/// The lowercase form of a string (`str::to_lowercase`).
pub uninterp spec fn lower_str(s: Seq<char>) -> Seq<char>;

/// `char::to_lowercase`: the characters `c` lowercases to, as named by
/// `lower_char`; nothing else is claimed of them.
#[verifier::external_body]
fn char_lowercase(c: char) -> (v: Vec<char>)
    ensures
        v@ == lower_char(c),
{
    c.to_lowercase().collect()
}

/// `str::to_lowercase`: the lowercase form of `s`, as named by
/// `lower_str`; nothing else is claimed of it.
#[verifier::external_body]
fn str_lowercase(s: &str) -> (r: String)
    ensures
        r@ == lower_str(s@),
{
    s.to_lowercase()
}

/// Each character of `t` lowercased, in order.
pub open spec fn lower_all(t: Seq<char>) -> Seq<char>
    decreases t.len(),
{
    if t.len() == 0 {
        Seq::empty()
    } else {
        lower_all(t.drop_last()) + lower_char(t.last())
    }
}

/// Whether the characters of `q` appear in `t` in order, matched greedily
/// from the left.
pub open spec fn in_order(t: Seq<char>, q: Seq<char>) -> bool
    decreases t.len(),
{
    if q.len() == 0 {
        true
    } else if t.len() == 0 {
        false
    } else if t[0] == q[0] {
        in_order(t.drop_first(), q.drop_first())
    } else {
        in_order(t.drop_first(), q)
    }
}

/// Indices `< k` of titles whose lowercase form holds `q` in order.
pub open spec fn matching(titles: Seq<Seq<char>>, q: Seq<char>, k: nat) -> Seq<usize>
    decreases k,
{
    if k == 0 {
        Seq::empty()
    } else {
        let r = matching(titles, q, (k - 1) as nat);
        if in_order(lower_all(titles[k - 1]), q) { r.push((k - 1) as usize) } else { r }
    }
}

/// Whether the characters of `query` appear in `target` in order.
pub fn in_order_match(target: &Vec<char>, query: &Vec<char>) -> (b: bool)
    ensures
        b == in_order(target@, query@),
{
    let mut j: usize = 0;
    let mut i: usize = 0;
    assert(target@.skip(0) =~= target@);
    assert(query@.skip(0) =~= query@);
    while i < target.len()
        invariant
            i <= target.len(),
            j <= query.len(),
            in_order(target@, query@) == in_order(target@.skip(i as int), query@.skip(j as int)),
        decreases target.len() - i,
    {
        if j == query.len() {
            return true;
        }
        proof {
            assert(target@.skip(i as int).drop_first() =~= target@.skip(i + 1));
            assert(query@.skip(j as int).drop_first() =~= query@.skip(j + 1));
        }
        if target[i] == query[j] {
            j += 1;
        }
        i += 1;
    }
    j == query.len()
}

/// `s` with each character lowercased.
pub fn lowercase_chars(s: &str) -> (v: Vec<char>)
    ensures
        v@ == lower_all(s@),
{
    let cs = chars_of(s);
    let mut v: Vec<char> = Vec::new();
    let mut i: usize = 0;
    while i < cs.len()
        invariant
            i <= cs.len(),
            cs@ == s@,
            v@ == lower_all(cs@.take(i as int)),
        decreases cs.len() - i,
    {
        let mut l = char_lowercase(cs[i]);
        proof {
            assert(cs@.take(i + 1).drop_last() =~= cs@.take(i as int));
        }
        v.append(&mut l);
        i += 1;
    }
    assert(cs@.take(cs.len() as int) =~= cs@);
    v
}

/// Fuzzy match: the characters of `query` appear, in order, in the
/// lowercase form of `target`.
fn fuzzy_match(target: &str, query: &Vec<char>) -> (b: bool)
    ensures
        b == in_order(lower_all(target@), query@),
{
    let t = lowercase_chars(target);
    in_order_match(&t, query)
}

impl TabGroupState {
    /// The tabs the dropdown lists: all of them without a search text,
    /// else those matching its lowercase form.
    pub open spec fn filtered(self) -> Seq<usize> {
        if self.dropdown_filter.len() == 0 {
            Seq::new(self.len(), |i: int| i as usize)
        } else {
            matching(self.titles, lower_str(self.dropdown_filter), self.len())
        }
    }

    /// The dropdown closed, its search text cleared.
    pub open spec fn dropdown_closed(self) -> TabGroupState {
        TabGroupState { dropdown_cursor: None, dropdown_filter: Seq::empty(), needs_redraw: true, ..self }
    }

    /// The state after a key reaches the open dropdown (`cursor` is its
    /// selected row).
    pub open spec fn after_dropdown_key(self, cursor: usize, key: KeyEvent) -> TabGroupState {
        let f = self.filtered();
        let n = f.len();
        match key.code {
            KeyCode::Esc => self.dropdown_closed(),
            KeyCode::Enter => {
                let s1 = if cursor < n { self.after_set_active(f[cursor as int]) } else { self };
                s1.dropdown_closed()
            },
            KeyCode::Down => if n > 0 {
                TabGroupState { dropdown_cursor: Some(((cursor + 1) % (n as int)) as usize), needs_redraw: true, ..self }
            } else {
                self
            },
            KeyCode::Up => if n > 0 {
                TabGroupState {
                    dropdown_cursor: Some(if cursor == 0 { (n - 1) as usize } else { (cursor - 1) as usize }),
                    needs_redraw: true,
                    ..self
                }
            } else {
                self
            },
            KeyCode::Backspace => {
                let s1 = TabGroupState {
                    dropdown_filter: if self.dropdown_filter.len() > 0 { self.dropdown_filter.drop_last() } else { self.dropdown_filter },
                    needs_redraw: true,
                    ..self
                };
                let n1 = s1.filtered().len();
                if cursor >= n1 && n1 > 0 { TabGroupState { dropdown_cursor: Some((n1 - 1) as usize), ..s1 } } else { s1 }
            },
            KeyCode::Char(c) => if !key.modifiers.ctrl && !key.modifiers.alt {
                TabGroupState { dropdown_filter: self.dropdown_filter.push(c), dropdown_cursor: Some(0), needs_redraw: true, ..self }
            } else {
                self
            },
            _ => self,
        }
    }

    /// The state after a key reaches the group, and whether it was used
    /// (`None`: the key goes to the active tab's view).
    pub open spec fn after_key(self, key: KeyEvent) -> (TabGroupState, Option<HandleResult>) {
        match self.dropdown_cursor {
            Some(c) => (self.after_dropdown_key(c, key), Some(HandleResult::Consumed)),
            None => {
                let d = match key.code {
                    KeyCode::Char(ch) => spec_digit(ch),
                    _ => None,
                };
                if key.modifiers.alt && !key.modifiers.ctrl && d is Some {
                    (self.after_set_active(d.unwrap()), Some(HandleResult::Consumed))
                } else {
                    (self, None)
                }
            },
        }
    }
}

pub proof fn lemma_matching_bound(titles: Seq<Seq<char>>, q: Seq<char>, k: nat)
    ensures
        matching(titles, q, k).len() <= k,
        forall|i: int| 0 <= i < matching(titles, q, k).len() ==> (#[trigger] matching(titles, q, k)[i] as int) < k,
    decreases k,
{
    if k > 0 {
        lemma_matching_bound(titles, q, (k - 1) as nat);
    }
}

/// A copy of the characters `v[from..]`.
fn tail_of(v: &Vec<char>, from: usize) -> (t: Vec<char>)
    requires
        from <= v.len(),
    ensures
        t@ == v@.skip(from as int),
{
    let mut t: Vec<char> = Vec::new();
    let mut i: usize = from;
    while i < v.len()
        invariant
            from <= i <= v.len(),
            t@ == v@.subrange(from as int, i as int),
        decreases v.len() - i,
    {
        t.push(v[i]);
        i += 1;
        assert(t@ =~= v@.subrange(from as int, i as int));
    }
    assert(v@.subrange(from as int, v.len() as int) =~= v@.skip(from as int));
    t
}

/// A title without the subtitle a view appended: everything from the
/// first space after the first `:` on is dropped.
pub open spec fn title_base(t: Seq<char>) -> Seq<char> {
    match spec_find(t, ':') {
        Some(c) => match spec_find(t.skip(c as int), ' ') {
            Some(sp) => t.take((c + sp) as int),
            None => t,
        },
        None => t,
    }
}

/// A title's base with the view's subtitle `sub` appended after a space.
pub open spec fn with_subtitle(t: Seq<char>, sub: Seq<char>) -> Seq<char> {
    if sub.len() == 0 { title_base(t) } else { title_base(t).push(' ') + sub }
}

impl TabGroup {
    /// Open the dropdown with the first row selected and no search text.
    pub fn open_dropdown(&mut self)
        requires
            old(self).wf(),
        ensures
            final(self).wf(),
            final(self)@ == (TabGroupState {
                dropdown_cursor: Some(0),
                dropdown_filter: Seq::empty(),
                needs_redraw: true,
                ..old(self)@
            }),
    {
        self.dropdown_cursor = Some(0);
        self.dropdown_filter.clear();
        self.needs_redraw = true;
    }

    pub fn dropdown_open(&self) -> (b: bool)
        ensures
            b == self@.dropdown_cursor is Some,
    {
        self.dropdown_cursor.is_some()
    }

    /// The dropdown's selected row while it is open.
    pub fn dropdown_cursor(&self) -> (c: Option<usize>)
        ensures
            c == self@.dropdown_cursor,
    {
        self.dropdown_cursor
    }

    /// The dropdown's search text.
    pub fn dropdown_filter(&self) -> (f: String)
        ensures
            f@ == self@.dropdown_filter,
    {
        string_from_range(&self.dropdown_filter, 0, self.dropdown_filter.len())
    }

    /// Indices of the tabs the dropdown lists.
    pub fn filtered_indices(&self) -> (v: Vec<usize>)
        requires
            self.wf(),
        ensures
            v@ == self@.filtered(),
    {
        let n = self.titles.len();
        let mut v: Vec<usize> = Vec::new();
        if self.dropdown_filter.len() == 0 {
            let mut i: usize = 0;
            while i < n
                invariant
                    i <= n,
                    n == self@.len(),
                    v@ == Seq::new(i as nat, |k: int| k as usize),
                decreases n - i,
            {
                v.push(i);
                i += 1;
                assert(v@ =~= Seq::new(i as nat, |k: int| k as usize));
            }
            return v;
        }
        let f = string_from_range(&self.dropdown_filter, 0, self.dropdown_filter.len());
        assert(self.dropdown_filter@.subrange(0, self.dropdown_filter@.len() as int) =~= self.dropdown_filter@);
        let lq = str_lowercase(f.as_str());
        let q = chars_of(lq.as_str());
        let mut i: usize = 0;
        while i < n
            invariant
                i <= n,
                n == self@.len(),
                q@ == lower_str(self@.dropdown_filter),
                v@ == matching(self@.titles, q@, i as nat),
            decreases n - i,
        {
            if fuzzy_match(self.titles[i].as_str(), &q) {
                v.push(i);
            }
            i += 1;
        }
        v
    }

    /// Move the dropdown's selection down, wrapping.
    pub fn dropdown_move_down(&mut self)
        requires
            old(self).wf(),
        ensures
            final(self).wf(),
            final(self)@ == (match old(self)@.dropdown_cursor {
                Some(c) => if old(self)@.filtered().len() > 0 {
                    old(self)@.after_dropdown_key(c, KeyEvent { code: KeyCode::Down, modifiers: crate::keys::KeyMod { alt: false, ctrl: false, shift: false } })
                } else {
                    old(self)@
                },
                None => old(self)@,
            }),
    {
        match self.dropdown_cursor {
            Some(c) => {
                let count = self.filtered_indices().len();
                if count > 0 {
                    self.dropdown_cursor = Some((c + 1) % count);
                    self.needs_redraw = true;
                }
            },
            None => {},
        }
    }

    /// Move the dropdown's selection up, wrapping.
    pub fn dropdown_move_up(&mut self)
        requires
            old(self).wf(),
        ensures
            final(self).wf(),
            final(self)@ == (match old(self)@.dropdown_cursor {
                Some(c) => if old(self)@.filtered().len() > 0 {
                    old(self)@.after_dropdown_key(c, KeyEvent { code: KeyCode::Up, modifiers: crate::keys::KeyMod { alt: false, ctrl: false, shift: false } })
                } else {
                    old(self)@
                },
                None => old(self)@,
            }),
    {
        match self.dropdown_cursor {
            Some(c) => {
                let count = self.filtered_indices().len();
                if count > 0 {
                    let prev = if c == 0 { count - 1 } else { c - 1 };
                    self.dropdown_cursor = Some(prev);
                    self.needs_redraw = true;
                }
            },
            None => {},
        }
    }

    /// A key reaching the open dropdown: Esc closes it; Enter activates
    /// the selected tab and closes it; Up and Down move the selection
    /// (wrapping); Backspace shortens the search text; a character typed
    /// without Ctrl or Alt extends it and selects the first row. Every key
    /// is consumed while it is open; with it closed, none is.
    pub fn handle_dropdown_key(&mut self, key: &KeyEvent) -> (r: HandleResult)
        requires
            old(self).wf(),
            old(self)@.dropdown_cursor is Some && key.code == KeyCode::Enter ==> old(self)@.lru_counter < u64::MAX,
        ensures
            final(self).wf(),
            old(self)@.dropdown_cursor is None ==> r == HandleResult::Ignored && final(self)@ == old(self)@,
            old(self)@.dropdown_cursor matches Some(c) ==> r == HandleResult::Consumed
                && final(self)@ == old(self)@.after_dropdown_key(c, *key),
    {
        let cursor = match self.dropdown_cursor {
            Some(c) => c,
            None => { return HandleResult::Ignored; },
        };
        match key.code {
            KeyCode::Esc => {
                self.dropdown_cursor = None;
                self.dropdown_filter.clear();
                self.needs_redraw = true;
            },
            KeyCode::Enter => {
                let filtered = self.filtered_indices();
                proof {
                    if self@.dropdown_filter.len() > 0 {
                        lemma_matching_bound(self@.titles, lower_str(self@.dropdown_filter), self@.len());
                    }
                }
                if cursor < filtered.len() {
                    self.set_active(filtered[cursor]);
                }
                self.dropdown_cursor = None;
                self.dropdown_filter.clear();
                self.needs_redraw = true;
            },
            KeyCode::Down => {
                let count = self.filtered_indices().len();
                if count > 0 {
                    self.dropdown_cursor = Some((cursor + 1) % count);
                    self.needs_redraw = true;
                }
            },
            KeyCode::Up => {
                let count = self.filtered_indices().len();
                if count > 0 {
                    let prev = if cursor == 0 { count - 1 } else { cursor - 1 };
                    self.dropdown_cursor = Some(prev);
                    self.needs_redraw = true;
                }
            },
            KeyCode::Backspace => {
                self.dropdown_filter.pop();
                self.needs_redraw = true;
                let count = self.filtered_indices().len();
                if cursor >= count && count > 0 {
                    self.dropdown_cursor = Some(count - 1);
                }
            },
            KeyCode::Char(c) => {
                if !key.modifiers.ctrl && !key.modifiers.alt {
                    self.dropdown_filter.push(c);
                    self.dropdown_cursor = Some(0);
                    self.needs_redraw = true;
                }
            },
            _ => {},
        }
        HandleResult::Consumed
    }

    /// A key reaching the group. The open dropdown takes every key;
    /// otherwise Alt with a digit n (without Ctrl) activates tab n when it
    /// exists and is consumed either way. Anything else (`None`) goes to
    /// the active tab's view.
    pub fn handle_key(&mut self, key: &KeyEvent) -> (r: Option<HandleResult>)
        requires
            old(self).wf(),
            key_may_activate(old(self)@, *key) ==> old(self)@.lru_counter < u64::MAX,
        ensures
            final(self).wf(),
            (final(self)@, r) == old(self)@.after_key(*key),
    {
        if self.dropdown_cursor.is_some() {
            return Some(self.handle_dropdown_key(key));
        }
        if key.modifiers.alt && !key.modifiers.ctrl {
            match key.code {
                KeyCode::Char(ch) => match char_digit(ch) {
                    Some(n) => {
                        if n < self.titles.len() {
                            self.set_active(n);
                        }
                        return Some(HandleResult::Consumed);
                    },
                    None => {},
                },
                _ => {},
            }
        }
        None
    }

    /// On a tick: the active tab's title takes the view's current subtitle
    /// `sub` (replacing a previous one).
    pub fn sync_subtitle(&mut self, sub: &str)
        requires
            old(self).wf(),
        ensures
            final(self).wf(),
            ({
                let s = old(self)@;
                if s.len() > 0 && with_subtitle(s.titles[s.active as int], sub@) != s.titles[s.active as int] {
                    final(self)@ == (TabGroupState {
                        titles: s.titles.update(s.active as int, with_subtitle(s.titles[s.active as int], sub@)),
                        needs_redraw: true,
                        ..s
                    })
                } else {
                    final(self)@ == s
                }
            }),
    {
        if self.active >= self.titles.len() {
            return;
        }
        let chars = chars_of(self.titles[self.active].as_str());
        proof {
            crate::text::lemma_find_props(chars@, ':');
        }
        let base_len: usize = match find_char(&chars, ':') {
            Some(c) => {
                let tail = tail_of(&chars, c);
                proof {
                    crate::text::lemma_find_props(tail@, ' ');
                    assert(tail@.len() == chars@.len() - c);
                }
                match find_char(&tail, ' ') {
                    Some(sp) => {
                        assert(spec_find(tail@, ' ') == Some(sp as nat));
                        assert(sp < tail@.len());
                        assert(c + sp < chars.len());
                        c + sp
                    },
                    None => chars.len(),
                }
            },
            None => chars.len(),
        };
        let mut new_title = string_from_range(&chars, 0, base_len);
        proof {
            assert(chars@.subrange(0, chars@.len() as int) =~= chars@);
            assert(new_title@ == title_base(chars@));
        }
        if sub.unicode_len() > 0 {
            push_char(&mut new_title, ' ');
            crate::text::push_str(&mut new_title, sub);
        }
        if !crate::text::str_eq(new_title.as_str(), self.titles[self.active].as_str()) {
            self.titles.set(self.active, new_title);
            self.needs_redraw = true;
            proof {
                assert(titles_view(self.titles@) =~= old(self)@.titles.update(old(self)@.active as int, with_subtitle(old(self)@.titles[old(self)@.active as int], sub@)));
            }
        }
    }
}

/// Whether `key` may activate a tab of a group in state `s` (and so
/// advance its recency counter): Enter in the open dropdown, or Alt with a
/// digit (without Ctrl) while it is closed.
pub open spec fn key_may_activate(s: TabGroupState, key: KeyEvent) -> bool {
    if s.dropdown_cursor is Some {
        key.code == KeyCode::Enter
    } else {
        key.modifiers.alt && !key.modifiers.ctrl && (key.code matches KeyCode::Char(c) && spec_digit(c) is Some)
    }
}

/// Switching to another tab and closing it returns to the tab that was
/// active before the switch.
pub proof fn law_close_returns_to_previous(s: TabGroupState, b: usize)
    requires
        s.inv(),
        b < s.len(),
        b != s.active,
        s.lru_counter < u64::MAX,
    ensures
        ({
            let t = s.after_set_active(b).after_remove(b as int);
            t.titles[t.active as int] == s.titles[s.active as int]
        }),
{
    let a = s.active as int;
    lemma_mru_max(s.lru);
    let s1 = s.after_set_active(b);
    let lru2 = s1.lru.remove(b as int);
    assert(lru2 =~= s.lru.remove(b as int));
    let a2 = if a < b { a } else { a - 1 };
    assert forall|j: int| 0 <= j < lru2.len() && j != a2 implies #[trigger] lru2[j] < lru2[a2] by {
        let jj = if j < b { j } else { j + 1 };
        assert(lru2[j] == s.lru[jj]);
        assert(lru2[a2] == s.lru[a]);
        assert(s.lru[jj] <= s.lru[a]);
        assert(s.lru[jj] != s.lru[a]);
    }
    lemma_mru_unique(lru2, a2);
}


/// In the open dropdown, Down then Up gives back the selected row; both
/// keys are consumed and leave the titles, the search text and the active
/// tab as they were.
pub proof fn law_dropdown_down_up_returns(s: TabGroupState, c: usize, down: KeyEvent, up: KeyEvent)
    requires
        s.inv(),
        s.dropdown_cursor == Some(c),
        c < s.filtered().len(),
        down.code == KeyCode::Down,
        up.code == KeyCode::Up,
    ensures
        ({
            let n = s.filtered().len() as int;
            let (s1, r1) = s.after_key(down);
            let (s2, r2) = s1.after_key(up);
            &&& r1 == Some(HandleResult::Consumed)
            &&& r2 == Some(HandleResult::Consumed)
            &&& s1.dropdown_cursor == Some(((c + 1) % n) as usize)
            &&& s2.dropdown_cursor == Some(c)
            &&& s2.titles == s.titles
            &&& s2.dropdown_filter == s.dropdown_filter
            &&& s2.active == s.active
        }),
{
    let n = s.filtered().len() as int;
    let s1 = s.after_key(down).0;
    assert(s1.filtered() == s.filtered());
    let ci = c as int;
    assert((ci + 1) % n == (if ci + 1 == n { 0 } else { ci + 1 })) by (nonlinear_arith)
        requires
            0 <= ci < n;
}

/// Going to the previous tab undoes going to the next one (the wrap from
/// the last tab to the first included); the titles stay as they are.
pub proof fn law_tab_prev_undoes_next(s: TabGroupState)
    requires
        s.inv(),
        1 < s.len() <= usize::MAX,
    ensures
        s.after_tab_next().after_tab_prev().active == s.active,
        s.after_tab_next().after_tab_prev().titles == s.titles,
{
    let n = s.len() as int;
    let a = s.active as int;
    assert((a + 1) % n == (if a + 1 == n { 0 } else { a + 1 })) by (nonlinear_arith)
        requires
            0 <= a < n;
    let nx = ((a + 1) % n) as usize;
    assert(nx as int == (a + 1) % n);
    let t = s.after_set_active(nx);
    assert(nx != s.active);
    assert(t == TabGroupState { active: nx, needs_redraw: true, ..s }.touched());
    assert(t.active == nx);
    assert(t.len() == s.len());
    assert(s.after_tab_next() == t);
    let pv: usize = if nx == 0 { (n - 1) as usize } else { (nx - 1) as usize };
    assert(pv == s.active);
    assert(t.after_tab_prev() == t.after_set_active(pv));
}

} // verus!
