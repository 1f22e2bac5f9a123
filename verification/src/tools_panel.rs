//! ToolsPanel: one or more tab groups (subpanels) side by side or
//! stacked. Moving a tab splits the panel when it has one subpanel, and a
//! subpanel left without tabs goes away (one always stays).
//!
//! The subpanels' shares of the panel are kept alongside; the operations
//! here report which subpanels appeared or went away.

use vstd::prelude::*;

use crate::geometry::Rect;
use crate::keys::{HandleResult, KeyEvent};
use crate::tab_group::{key_may_activate, with_subtitle, TabGroup, TabGroupState};
use crate::tiled_workspace::types::SplitDir;

verus! {

/// A panel of tab-group subpanels.
pub struct ToolsPanel {
    subpanels: Vec<TabGroup>,
    focused: usize,
    split_dir: SplitDir,
    bounds: Rect,
    needs_redraw: bool,
}

/// A tools panel as mathematical values.
pub struct ToolsPanelState {
    pub subpanels: Seq<TabGroupState>,
    /// The focused subpanel.
    pub focused: usize,
    pub split_dir: SplitDir,
    pub bounds: Rect,
    pub needs_redraw: bool,
}

pub open spec fn groups_view(gs: Seq<TabGroup>) -> Seq<TabGroupState> {
    gs.map_values(|g: TabGroup| g@)
}

impl View for ToolsPanel {
    type V = ToolsPanelState;

    closed spec fn view(&self) -> ToolsPanelState {
        ToolsPanelState {
            subpanels: groups_view(self.subpanels@),
            focused: self.focused,
            split_dir: self.split_dir,
            bounds: self.bounds,
            needs_redraw: self.needs_redraw,
        }
    }
}

/// A new, empty tab group.
pub open spec fn empty_group() -> TabGroupState {
    TabGroupState::empty()
}

/// Total tabs in the groups.
pub open spec fn total_tabs(gs: Seq<TabGroupState>) -> nat
    decreases gs.len(),
{
    if gs.len() == 0 { 0 } else { total_tabs(gs.drop_last()) + gs.last().len() }
}

/// Remove empty groups from position `i` on, left to right, while more
/// than one is left; the focus moves to the last group when its group is
/// gone past the end. Returns the groups, the focus, and each removal's
/// position at the time it happened.
pub open spec fn cleanup(gs: Seq<TabGroupState>, focused: nat, i: nat) -> (Seq<TabGroupState>, nat, Seq<usize>)
    decreases gs.len() - i,
{
    if gs.len() <= 1 || i >= gs.len() {
        (gs, focused, Seq::empty())
    } else if gs[i as int].len() == 0 {
        let gs2 = gs.remove(i as int);
        let f2: nat = if focused >= gs2.len() { (gs2.len() - 1) as nat } else { focused };
        let rest = cleanup(gs2, f2, i);
        (rest.0, rest.1, seq![i as usize] + rest.2)
    } else {
        cleanup(gs, focused, i + 1)
    }
}

/// What moving a tab did: whether the panel split, which tab of the
/// focused subpanel moved, where to, and which subpanels went away (each
/// position as it was when removed).
pub struct MoveReport {
    pub split: bool,
    pub tab: usize,
    pub to: usize,
    pub removed: Vec<usize>,
}

impl ToolsPanelState {
    pub open spec fn len(self) -> nat {
        self.subpanels.len()
    }

    /// At least one subpanel, the focus names one, each is in order.
    pub open spec fn inv(self) -> bool {
        &&& self.len() >= 1
        &&& self.focused < self.len()
        &&& forall|i: int| 0 <= i < self.len() ==> (#[trigger] self.subpanels[i]).inv()
    }

    /// Every subpanel can take another tab.
    pub open spec fn can_insert(self) -> bool {
        forall|i: int| 0 <= i < self.len() ==> (#[trigger] self.subpanels[i]).lru_counter < u64::MAX
            && self.subpanels[i].len() < usize::MAX
    }

    /// The state after focus moves to the next subpanel (wrapping).
    pub open spec fn after_cycle_focus(self) -> ToolsPanelState {
        if self.len() > 1 {
            let n = ((self.focused + 1) % (self.len() as int)) as usize;
            let gs = self.subpanels.update(self.focused as int,
                TabGroupState { focused: false, ..self.subpanels[self.focused as int] });
            ToolsPanelState {
                subpanels: gs.update(n as int, TabGroupState { focused: true, ..gs[n as int] }),
                focused: n,
                needs_redraw: true,
                ..self
            }
        } else {
            self
        }
    }

    /// The state after the active tab of the focused subpanel moves to
    /// the next subpanel, and what happened (`None`: the focused subpanel
    /// has no tab).
    pub open spec fn after_move(self) -> (ToolsPanelState, Option<(bool, usize, usize, Seq<usize>)>) {
        let src = self.focused as int;
        if self.subpanels[src].len() == 0 {
            (self, None)
        } else {
            let split = self.len() == 1;
            let gs1 = if split { self.subpanels.push(empty_group()) } else { self.subpanels };
            let dst = (src + 1) % (gs1.len() as int);
            let tab = gs1[src].active;
            let title = gs1[src].titles[tab as int];
            let gs2 = gs1.update(src, gs1[src].after_remove(tab as int));
            let gs3 = gs2.update(dst, gs2[dst].after_insert(title));
            let c = cleanup(gs3, src as nat, 0);
            (ToolsPanelState { subpanels: c.0, focused: c.1 as usize, needs_redraw: true, ..self },
                Some((split, tab, dst as usize, c.2)))
        }
    }
}

impl ToolsPanel {
    pub open spec fn wf(&self) -> bool {
        self@.inv()
    }

    /// A panel with one empty subpanel, split along `split_dir`.
    pub fn new(split_dir: SplitDir) -> (p: ToolsPanel)
        ensures
            p.wf(),
            p@.subpanels == seq![empty_group()],
            p@.focused == 0,
            p@.split_dir == split_dir,
            p@.bounds == (Rect { x: 0, y: 0, w: 0, h: 0 }),
            !p@.needs_redraw,
    {
        let mut subpanels: Vec<TabGroup> = Vec::new();
        subpanels.push(TabGroup::new());
        let p = ToolsPanel { subpanels, focused: 0, split_dir, bounds: Rect::zero(), needs_redraw: false };
        assert(groups_view(p.subpanels@) =~= seq![empty_group()]);
        p
    }

    /// Change the split direction; the subpanels are laid out again when
    /// it changes.
    pub fn set_split_dir(&mut self, dir: SplitDir) -> (changed: bool)
        ensures
            changed == (old(self)@.split_dir != dir),
            final(self)@ == (ToolsPanelState {
                split_dir: dir,
                needs_redraw: old(self)@.needs_redraw || changed,
                ..old(self)@
            }),
    {
        if self.split_dir != dir {
            self.split_dir = dir;
            self.needs_redraw = true;
            true
        } else {
            false
        }
    }

    pub fn split_dir(&self) -> (d: SplitDir)
        ensures
            d == self@.split_dir,
    {
        self.split_dir
    }

    pub fn bounds(&self) -> (r: Rect)
        ensures
            r == self@.bounds,
    {
        self.bounds
    }

    pub fn set_bounds(&mut self, r: Rect)
        ensures
            final(self)@ == (ToolsPanelState { bounds: r, needs_redraw: true, ..old(self)@ }),
    {
        self.bounds = r;
        self.needs_redraw = true;
    }

    pub fn subpanel_count(&self) -> (n: usize)
        ensures
            n == self@.len(),
    {
        self.subpanels.len()
    }

    pub fn focused_index(&self) -> (i: usize)
        ensures
            i == self@.focused,
    {
        self.focused
    }

    /// Subpanel `i`.
    pub fn subpanel(&self, i: usize) -> (g: &TabGroup)
        requires
            i < self@.len(),
        ensures
            g@ == self@.subpanels[i as int],
    {
        &self.subpanels[i]
    }

    pub fn focused_subpanel(&self) -> (g: &TabGroup)
        requires
            self.wf(),
        ensures
            g@ == self@.subpanels[self@.focused as int],
    {
        &self.subpanels[self.focused]
    }

    /// Focus subpanel `i` when it exists.
    pub fn focus_subpanel(&mut self, i: usize)
        requires
            old(self).wf(),
        ensures
            final(self).wf(),
            i < old(self)@.len() ==> final(self)@ == (ToolsPanelState { focused: i, ..old(self)@ }),
            i >= old(self)@.len() ==> final(self)@ == old(self)@,
    {
        if i < self.subpanels.len() {
            self.focused = i;
        }
    }

    /// Total tabs across the subpanels.
    pub fn tab_count(&self) -> (n: usize)
        requires
            total_tabs(self@.subpanels) <= usize::MAX,
        ensures
            n == total_tabs(self@.subpanels),
    {
        let ghost gs = self@.subpanels;
        let mut n: usize = 0;
        let mut i: usize = 0;
        while i < self.subpanels.len()
            invariant
                i <= self.subpanels.len(),
                gs == groups_view(self.subpanels@),
                total_tabs(gs) <= usize::MAX,
                n == total_tabs(gs.take(i as int)),
            decreases self.subpanels.len() - i,
        {
            proof {
                assert(gs.take(i + 1).drop_last() =~= gs.take(i as int));
                lemma_total_prefix(gs, (i + 1) as nat);
            }
            n = n + self.subpanels[i].tab_count();
            i += 1;
        }
        assert(gs.take(i as int) =~= gs);
        n
    }

    /// Take subpanel `i` out, leaving an empty group in its place.
    fn take_group(&mut self, i: usize) -> (g: TabGroup)
        requires
            i < old(self)@.len(),
        ensures
            g == old(self).subpanels@[i as int],
            final(self).subpanels@.len() == old(self).subpanels@.len(),
            final(self).subpanels@[i as int]@ == empty_group(),
            final(self).subpanels@[i as int].wf(),
            forall|j: int| 0 <= j < old(self).subpanels@.len() && j != i
                ==> #[trigger] final(self).subpanels@[j] == old(self).subpanels@[j],
            final(self).focused == old(self).focused,
            final(self).split_dir == old(self).split_dir,
            final(self).bounds == old(self).bounds,
            final(self).needs_redraw == old(self).needs_redraw,
    {
        let mut g = TabGroup::new();
        self.subpanels.set_and_swap(i, &mut g);
        g
    }

    /// Insert a tab into the focused subpanel.
    pub fn insert_tab(&mut self, title: &str)
        requires
            old(self).wf(),
            old(self)@.can_insert(),
        ensures
            final(self).wf(),
            final(self)@ == (ToolsPanelState {
                subpanels: old(self)@.subpanels.update(old(self)@.focused as int,
                    old(self)@.subpanels[old(self)@.focused as int].after_insert(title@)),
                ..old(self)@
            }),
    {
        let f = self.focused;
        let mut g = self.take_group(f);
        g.insert_tab(title);
        self.subpanels.set(f, g);
        proof {
            assert(groups_view(self.subpanels@) =~= old(self)@.subpanels.update(f as int, old(self)@.subpanels[f as int].after_insert(title@)));
            assert forall|i: int| 0 <= i < self@.len() implies (#[trigger] self@.subpanels[i]).inv() by {
                if i != f {
                    assert(self.subpanels@[i] == old(self).subpanels@[i]);
                    assert(old(self)@.subpanels[i].inv());
                }
            }
        }
    }
}

proof fn lemma_total_prefix(gs: Seq<TabGroupState>, k: nat)
    requires
        k <= gs.len(),
    ensures
        total_tabs(gs.take(k as int)) <= total_tabs(gs),
    decreases gs.len() - k,
{
    if k < gs.len() {
        assert(gs.take(k + 1int).drop_last() =~= gs.take(k as int));
        lemma_total_prefix(gs, k + 1);
    } else {
        assert(gs.take(k as int) =~= gs);
    }
}

impl ToolsPanel {
    /// Move the focus to the next subpanel, wrapping; the old subpanel
    /// loses the input focus and the new one gains it.
    pub fn cycle_focus(&mut self)
        requires
            old(self).wf(),
        ensures
            final(self).wf(),
            final(self)@ == old(self)@.after_cycle_focus(),
    {
        let n = self.subpanels.len();
        if n > 1 {
            let f = self.focused;
            let mut g = self.take_group(f);
            g.set_focused(false);
            self.subpanels.set(f, g);
            let nf = (f + 1) % n;
            let ghost mid = groups_view(self.subpanels@);
            proof {
                assert(mid =~= old(self)@.subpanels.update(f as int,
                    TabGroupState { focused: false, ..old(self)@.subpanels[f as int] }));
            }
            let mut h = self.take_group(nf);
            h.set_focused(true);
            self.subpanels.set(nf, h);
            self.focused = nf;
            self.needs_redraw = true;
            proof {
                assert(groups_view(self.subpanels@) =~= mid.update(nf as int, TabGroupState { focused: true, ..mid[nf as int] }));
            }
        }
    }

    /// Remove empty subpanels, left to right, keeping at least one; a
    /// focus past the end moves to the last subpanel. Returns each
    /// removal's position at the time it happened.
    fn cleanup_empty(&mut self) -> (removed: Vec<usize>)
        requires
            old(self).wf(),
        ensures
            final(self).wf(),
            ({
                let c = cleanup(old(self)@.subpanels, old(self)@.focused as nat, 0);
                &&& final(self)@ == (ToolsPanelState { subpanels: c.0, focused: c.1 as usize, ..old(self)@ })
                &&& removed@ == c.2
            }),
    {
        let ghost whole = cleanup(old(self)@.subpanels, old(self)@.focused as nat, 0);
        let mut removed: Vec<usize> = Vec::new();
        let mut i: usize = 0;
        while self.subpanels.len() > 1 && i < self.subpanels.len()
            invariant
                self.wf(),
                i <= self.subpanels.len(),
                self@.split_dir == old(self)@.split_dir,
                self@.bounds == old(self)@.bounds,
                self@.needs_redraw == old(self)@.needs_redraw,
                ({
                    let c = cleanup(self@.subpanels, self@.focused as nat, i as nat);
                    whole == (c.0, c.1, removed@ + c.2)
                }),
            decreases self.subpanels.len() - i,
        {
            if self.subpanels[i].tab_count() == 0 {
                let ghost before = self@;
                self.subpanels.remove(i);
                removed.push(i);
                if self.focused >= self.subpanels.len() {
                    self.focused = self.subpanels.len() - 1;
                }
                proof {
                    assert(groups_view(self.subpanels@) =~= before.subpanels.remove(i as int));
                    assert forall|k: int| 0 <= k < self@.len() implies (#[trigger] self@.subpanels[k]).inv() by {
                        if k < i {
                            assert(self@.subpanels[k] == before.subpanels[k]);
                        } else {
                            assert(self@.subpanels[k] == before.subpanels[k + 1]);
                        }
                    }
                    let c = cleanup(self@.subpanels, self@.focused as nat, i as nat);
                    assert(removed@ + c.2 =~= removed@.drop_last() + (seq![i] + c.2));
                }
            } else {
                i += 1;
            }
        }
        proof {
            let c = cleanup(self@.subpanels, self@.focused as nat, i as nat);
            assert(c.2 =~= Seq::<usize>::empty());
            assert(removed@ + c.2 =~= removed@);
        }
        removed
    }

    /// Move the active tab of the focused subpanel to the next subpanel
    /// (wrapping). With one subpanel, a second one is made first. Empty
    /// subpanels then go away. Nothing happens when the focused subpanel
    /// has no tab.
    pub fn move_tab_to_next(&mut self) -> (r: Option<MoveReport>)
        requires
            old(self).wf(),
            old(self)@.can_insert(),
        ensures
            final(self).wf(),
            ({
                let (st, rep) = old(self)@.after_move();
                &&& final(self)@ == st
                &&& match (r, rep) {
                    (Some(m), Some((split, tab, to, removed))) => m.split == split && m.tab == tab && m.to == to
                        && m.removed@ == removed,
                    (None, None) => true,
                    _ => false,
                }
            }),
    {
        let src = self.focused;
        if self.subpanels[src].tab_count() == 0 {
            return None;
        }
        let ghost s0 = old(self)@;
        let split = self.subpanels.len() == 1;
        if split {
            self.subpanels.push(TabGroup::new());
            proof {
                assert(groups_view(self.subpanels@) =~= s0.subpanels.push(empty_group()));
                assert forall|k: int| 0 <= k < self@.len() implies (#[trigger] self@.subpanels[k]).inv() by {
                    if k < s0.len() {
                        assert(self@.subpanels[k] == s0.subpanels[k]);
                    }
                }
            }
        }
        let ghost gs1 = self@.subpanels;
        let n = self.subpanels.len();
        let dst = (src + 1) % n;
        assert(n >= 2);
        assert(dst != src) by (nonlinear_arith)
            requires
                n >= 2,
                src < n,
                dst == (src + 1) % (n as int);
        let mut g = self.take_group(src);
        let tab = g.active_index();
        let title = match g.take_tab(tab) {
            Some(t) => t,
            None => String::new(),
        };
        self.subpanels.set(src, g);
        let ghost gs2 = groups_view(self.subpanels@);
        proof {
            assert(gs2 =~= gs1.update(src as int, gs1[src as int].after_remove(tab as int)));
            assert forall|k: int| 0 <= k < self@.len() implies (#[trigger] self@.subpanels[k]).inv() by {
                if k != src {
                    assert(self@.subpanels[k] == gs1[k]);
                }
            }
            assert(gs2[dst as int] == gs1[dst as int]);
        }
        let mut h = self.take_group(dst);
        h.insert_tab(title.as_str());
        self.subpanels.set(dst, h);
        proof {
            assert(groups_view(self.subpanels@) =~= gs2.update(dst as int, gs2[dst as int].after_insert(title@)));
            assert forall|k: int| 0 <= k < self@.len() implies (#[trigger] self@.subpanels[k]).inv() by {
                if k != dst {
                    assert(self@.subpanels[k] == gs2[k]);
                }
            }
        }
        self.needs_redraw = true;
        let removed = self.cleanup_empty();
        Some(MoveReport { split, tab, to: dst, removed })
    }
}

proof fn lemma_total_update(gs: Seq<TabGroupState>, i: int, g: TabGroupState)
    requires
        0 <= i < gs.len(),
    ensures
        total_tabs(gs.update(i, g)) == total_tabs(gs) - gs[i].len() + g.len(),
    decreases gs.len(),
{
    let u = gs.update(i, g);
    if i < gs.len() - 1 {
        assert(u.drop_last() =~= gs.drop_last().update(i, g));
        lemma_total_update(gs.drop_last(), i, g);
    } else {
        assert(u.drop_last() =~= gs.drop_last());
    }
}

proof fn lemma_total_remove(gs: Seq<TabGroupState>, i: int)
    requires
        0 <= i < gs.len(),
    ensures
        total_tabs(gs.remove(i)) == total_tabs(gs) - gs[i].len(),
    decreases gs.len(),
{
    let r = gs.remove(i);
    if i < gs.len() - 1 {
        assert(r.drop_last() =~= gs.drop_last().remove(i));
        assert(r.last() == gs.last());
        lemma_total_remove(gs.drop_last(), i);
    } else {
        assert(r =~= gs.drop_last());
    }
}

proof fn lemma_cleanup_total(gs: Seq<TabGroupState>, focused: nat, i: nat)
    ensures
        total_tabs(cleanup(gs, focused, i).0) == total_tabs(gs),
    decreases gs.len() - i,
{
    if gs.len() <= 1 || i >= gs.len() {
    } else if gs[i as int].len() == 0 {
        let gs2 = gs.remove(i as int);
        let f2: nat = if focused >= gs2.len() { (gs2.len() - 1) as nat } else { focused };
        lemma_total_remove(gs, i as int);
        lemma_cleanup_total(gs2, f2, i);
    } else {
        lemma_cleanup_total(gs, focused, i + 1);
    }
}

/// Moving a tab between subpanels keeps every tab: the panel holds as
/// many tabs afterwards as before.
pub proof fn law_move_keeps_tabs(s: ToolsPanelState)
    requires
        s.inv(),
    ensures
        total_tabs(s.after_move().0.subpanels) == total_tabs(s.subpanels),
{
    let src = s.focused as int;
    if s.subpanels[src].len() > 0 {
        let split = s.len() == 1;
        let gs1 = if split { s.subpanels.push(empty_group()) } else { s.subpanels };
        if split {
            assert(gs1.drop_last() =~= s.subpanels);
        }
        assert(total_tabs(gs1) == total_tabs(s.subpanels));
        let dst = (src + 1) % (gs1.len() as int);
        let tab = gs1[src].active;
        let title = gs1[src].titles[tab as int];
        let gs2 = gs1.update(src, gs1[src].after_remove(tab as int));
        lemma_total_update(gs1, src, gs1[src].after_remove(tab as int));
        assert(dst != src) by (nonlinear_arith)
            requires
                gs1.len() >= 2,
                0 <= src < gs1.len(),
                dst == (src + 1) % (gs1.len() as int);
        assert(0 <= dst < gs1.len()) by (nonlinear_arith)
            requires
                gs1.len() >= 2,
                dst == (src + 1) % (gs1.len() as int);
        let gs3 = gs2.update(dst, gs2[dst].after_insert(title));
        lemma_total_update(gs2, dst, gs2[dst].after_insert(title));
        lemma_cleanup_total(gs3, src as nat, 0);
    }
}

impl ToolsPanel {
    /// Whether every subpanel can take another tab (what
    /// [`ToolsPanel::insert_tab`] and [`ToolsPanel::move_tab_to_next`] need).
    pub fn can_insert(&self) -> (b: bool)
        ensures
            b == self@.can_insert(),
    {
        let mut i: usize = 0;
        while i < self.subpanels.len()
            invariant
                i <= self.subpanels.len(),
                forall|k: int| 0 <= k < i ==> (#[trigger] self@.subpanels[k]).lru_counter < u64::MAX
                    && self@.subpanels[k].len() < usize::MAX,
            decreases self.subpanels.len() - i,
        {
            assert(self@.subpanels[i as int] == self.subpanels@[i as int]@);
            if !self.subpanels[i].touch_ok() || self.subpanels[i].tab_count() == usize::MAX {
                assert(!(self@.subpanels[i as int].lru_counter < u64::MAX && self@.subpanels[i as int].len() < usize::MAX));
                return false;
            }
            i += 1;
        }
        true
    }

    /// A key reaching the panel goes to the focused subpanel's group.
    pub fn handle_key(&mut self, key: &KeyEvent) -> (r: Option<HandleResult>)
        requires
            old(self).wf(),
            key_may_activate(old(self)@.subpanels[old(self)@.focused as int], *key)
                ==> old(self)@.subpanels[old(self)@.focused as int].lru_counter < u64::MAX,
        ensures
            final(self).wf(),
            ({
                let f = old(self)@.focused as int;
                let (g, res) = old(self)@.subpanels[f].after_key(*key);
                &&& r == res
                &&& final(self)@ == (ToolsPanelState { subpanels: old(self)@.subpanels.update(f, g), ..old(self)@ })
            }),
    {
        let f = self.focused;
        let mut g = self.take_group(f);
        let r = g.handle_key(key);
        self.subpanels.set(f, g);
        proof {
            let (gs, res) = old(self)@.subpanels[f as int].after_key(*key);
            assert(groups_view(self.subpanels@) =~= old(self)@.subpanels.update(f as int, gs));
            assert forall|i: int| 0 <= i < self@.len() implies (#[trigger] self@.subpanels[i]).inv() by {
                if i != f {
                    assert(self.subpanels@[i] == old(self).subpanels@[i]);
                    assert(old(self)@.subpanels[i].inv());
                }
            }
        }
        r
    }

    /// On a tick: subpanel `i`'s active title takes its view's subtitle.
    pub fn sync_subtitle(&mut self, i: usize, sub: &str)
        requires
            old(self).wf(),
        ensures
            final(self).wf(),
            i >= old(self)@.len() ==> final(self)@ == old(self)@,
            i < old(self)@.len() ==> ({
                let s = old(self)@.subpanels[i as int];
                let t = if s.len() > 0 && with_subtitle(s.titles[s.active as int], sub@) != s.titles[s.active as int] {
                    TabGroupState {
                        titles: s.titles.update(s.active as int, with_subtitle(s.titles[s.active as int], sub@)),
                        needs_redraw: true,
                        ..s
                    }
                } else {
                    s
                };
                final(self)@ == (ToolsPanelState { subpanels: old(self)@.subpanels.update(i as int, t), ..old(self)@ })
            }),
    {
        if i >= self.subpanels.len() {
            return;
        }
        let mut g = self.take_group(i);
        g.sync_subtitle(sub);
        self.subpanels.set(i, g);
        proof {
            assert(groups_view(self.subpanels@) =~= old(self)@.subpanels.update(i as int, self@.subpanels[i as int]));
            assert forall|k: int| 0 <= k < self@.len() implies (#[trigger] self@.subpanels[k]).inv() by {
                if k != i {
                    assert(self.subpanels@[k] == old(self).subpanels@[k]);
                    assert(old(self)@.subpanels[k].inv());
                }
            }
        }
    }
}

impl ToolsPanel {
    /// Give subpanel `i` its area (worked out from the panel's split
    /// proportions).
    pub fn set_subpanel_bounds(&mut self, i: usize, r: Rect)
        requires
            old(self).wf(),
        ensures
            final(self).wf(),
            i >= old(self)@.len() ==> final(self)@ == old(self)@,
            i < old(self)@.len() ==> final(self)@ == (ToolsPanelState {
                subpanels: old(self)@.subpanels.update(i as int,
                    TabGroupState { bounds: r, needs_redraw: true, ..old(self)@.subpanels[i as int] }),
                ..old(self)@
            }),
    {
        if i >= self.subpanels.len() {
            return;
        }
        let mut g = self.take_group(i);
        g.set_bounds(r);
        self.subpanels.set(i, g);
        proof {
            assert(groups_view(self.subpanels@) =~= old(self)@.subpanels.update(i as int, self@.subpanels[i as int]));
            assert forall|k: int| 0 <= k < self@.len() implies (#[trigger] self@.subpanels[k]).inv() by {
                if k != i {
                    assert(self.subpanels@[k] == old(self).subpanels@[k]);
                    assert(old(self)@.subpanels[k].inv());
                }
            }
        }
    }
}


/// Removing empty groups from position `i` on, with none empty before
/// `i`: at least one group is left, none is added, the focus names a group,
/// and when more than one is left none of them is empty.
proof fn lemma_cleanup_shape(gs: Seq<TabGroupState>, f: nat, i: nat)
    requires
        gs.len() >= 1,
        i <= gs.len(),
        f < gs.len(),
        forall|k: int| 0 <= k < i ==> (#[trigger] gs[k]).len() > 0,
    ensures
        ({
            let c = cleanup(gs, f, i);
            &&& 1 <= c.0.len() <= gs.len()
            &&& c.1 < c.0.len()
            &&& c.0.len() > 1 ==> forall|k: int| 0 <= k < c.0.len() ==> (#[trigger] c.0[k]).len() > 0
        }),
    decreases gs.len() - i,
{
    if gs.len() <= 1 || i >= gs.len() {
    } else if gs[i as int].len() == 0 {
        let gs2 = gs.remove(i as int);
        let f2: nat = if f >= gs2.len() { (gs2.len() - 1) as nat } else { f };
        assert forall|k: int| 0 <= k < i implies (#[trigger] gs2[k]).len() > 0 by {
            assert(gs2[k] == gs[k]);
        }
        lemma_cleanup_shape(gs2, f2, i);
    } else {
        lemma_cleanup_shape(gs, f, i + 1);
    }
}

/// Moving a tab on keeps the panel in shape: with no tab in the focused
/// subpanel nothing changes; otherwise at least one subpanel is left, at
/// most two or as many as before, the focus names one, and when more than
/// one is left, none is empty.
pub proof fn law_move_keeps_shape(s: ToolsPanelState)
    requires
        s.inv(),
        s.len() <= usize::MAX,
    ensures
        s.subpanels[s.focused as int].len() == 0 ==> s.after_move().0 == s,
        1 <= s.after_move().0.len(),
        s.after_move().0.len() <= (if s.len() >= 2 { s.len() } else { 2 }),
        s.after_move().0.focused < s.after_move().0.len(),
        s.subpanels[s.focused as int].len() > 0 && s.after_move().0.len() > 1
            ==> forall|k: int| 0 <= k < s.after_move().0.len() ==> (#[trigger] s.after_move().0.subpanels[k]).len() > 0,
{
    let src = s.focused as int;
    if s.subpanels[src].len() > 0 {
        let split = s.len() == 1;
        let gs1 = if split { s.subpanels.push(empty_group()) } else { s.subpanels };
        let dst = (src + 1) % (gs1.len() as int);
        assert(0 <= dst < gs1.len()) by (nonlinear_arith)
            requires
                gs1.len() >= 2,
                dst == (src + 1) % (gs1.len() as int);
        let tab = gs1[src].active;
        let title = gs1[src].titles[tab as int];
        let gs2 = gs1.update(src, gs1[src].after_remove(tab as int));
        let gs3 = gs2.update(dst, gs2[dst].after_insert(title));
        lemma_cleanup_shape(gs3, src as nat, 0);
        let c = cleanup(gs3, src as nat, 0);
        assert(s.after_move().0.subpanels == c.0);
        assert(s.after_move().0.focused == c.1 as usize);
        if c.0.len() > 1 {
            assert forall|k: int| 0 <= k < c.0.len() implies (#[trigger] s.after_move().0.subpanels[k]).len() > 0 by {
                assert(c.0[k].len() > 0);
            }
        }
    }
}

} // verus!
