//! Properties of the workspace's panel state across operations.

use vstd::prelude::*;

use super::types::LayoutMode;
use super::workspace::{flags_from_indices, scan_visible, set_indices, TiledWorkspaceState};

verus! {

proof fn lemma_set_indices_members(flags: Seq<bool>)
    requires
        flags.len() <= usize::MAX,
    ensures
        forall|i: int| 0 <= i < flags.len() ==> (set_indices(flags).contains(i as usize) <==> #[trigger] flags[i]),
        forall|k: int| 0 <= k < set_indices(flags).len() ==> (#[trigger] set_indices(flags)[k] as int) < flags.len(),
    decreases flags.len(),
{
    if flags.len() > 0 {
        let init = flags.drop_last();
        lemma_set_indices_members(init);
        let rest = set_indices(init);
        let last = (flags.len() - 1) as usize;
        assert forall|i: int| 0 <= i < flags.len() implies (set_indices(flags).contains(i as usize) <==> #[trigger] flags[i]) by {
            if flags.last() {
                vstd::seq_lib::lemma_seq_contains_after_push(rest, last, i as usize);
            }
            if i < flags.len() - 1 {
                assert(init[i] == flags[i]);
            } else if !flags.last() {
                if rest.contains(i as usize) {
                    let k = choose|k: int| 0 <= k < rest.len() && rest[k] == i as usize;
                    assert((rest[k] as int) < init.len());
                }
            }
        }
    }
}

/// Saving the hidden panels as a list of indices and restoring from that
/// list gives back exactly the hidden flags that were saved.
pub proof fn law_hidden_round_trip(s: TiledWorkspaceState)
    requires
        s.inv(),
    ensures
        flags_from_indices(set_indices(s.hidden), s.len()) == s.hidden,
{
    lemma_set_indices_members(s.hidden);
    assert(flags_from_indices(set_indices(s.hidden), s.len()) =~= s.hidden);
}

/// Cycling the layout mode three times comes back to the mode it started in.
pub proof fn law_cycle_layout_thrice(s: TiledWorkspaceState)
    ensures
        s.after_cycle_layout().after_cycle_layout().after_cycle_layout() == s,
{
}

/// From an unzoomed workspace, toggling zoom twice leaves it as it was;
/// the first toggle zooms the focused panel.
pub proof fn law_zoom_twice(s: TiledWorkspaceState)
    requires
        s.zoomed is None,
    ensures
        s.after_toggle_zoom().zoomed == Some(s.focused),
        s.after_toggle_zoom().after_toggle_zoom() == s,
{
}

/// Toggling a panel twice restores every panel's hidden flag.
pub proof fn law_toggle_twice_restores_hidden(s: TiledWorkspaceState, id: usize)
    requires
        s.inv(),
    ensures
        s.after_toggle(id).after_toggle(id).hidden == s.hidden,
{
    if id < s.len() && s.hideable[id as int] {
        assert(s.after_toggle(id).after_toggle(id).hidden =~= s.hidden);
    }
}

/// Only hideable panels can be hidden by toggling or hiding.
pub proof fn law_fixed_panels_stay_shown(s: TiledWorkspaceState, id: usize, j: int)
    requires
        s.inv(),
        0 <= j < s.len(),
        !s.hideable[j],
        !s.hidden[j],
    ensures
        !s.after_toggle(id).hidden[j],
        !s.after_hide(id).hidden[j],
{
}


/// The forward scan from `start` finds a shown panel whenever one sits at
/// step `j` (`k <= j < n`).
proof fn lemma_scan_finds(hidden: Seq<bool>, start: nat, k: nat, j: nat)
    requires
        start < hidden.len(),
        k <= j < hidden.len(),
        !hidden[((start + j) as int) % (hidden.len() as int)],
    ensures
        scan_visible(hidden, start, k, true) is Some,
    decreases j - k,
{
    let n = hidden.len() as int;
    let idx = ((start + k) as int) % n;
    if hidden[idx] {
        if k == j {
            assert(false);
        } else {
            lemma_scan_finds(hidden, start, k + 1, j);
        }
    }
}

/// What the forward scan from `start` finds, starting one step on, is a
/// shown panel other than `start`.
proof fn lemma_scan_sound(hidden: Seq<bool>, start: nat, k: nat)
    requires
        start < hidden.len() <= usize::MAX,
        k >= 1,
    ensures
        scan_visible(hidden, start, k, true) matches Some(i) ==> i < hidden.len() && !hidden[i as int]
            && i != start,
    decreases hidden.len() - k,
{
    let n = hidden.len() as int;
    if k < n {
        let idx = ((start + k) as int) % n;
        let st = start as int;
        let ki = k as int;
        assert(0 <= idx < n && idx != st) by (nonlinear_arith)
            requires
                0 <= st < n,
                1 <= ki < n,
                idx == (st + ki) % n;
        if hidden[idx] {
            lemma_scan_sound(hidden, start, k + 1);
        }
    }
}

/// Hiding the focused panel by a toggle moves focus to another shown
/// panel, when there is one.
pub proof fn law_hiding_focused_moves_focus(s: TiledWorkspaceState, id: usize, other: int)
    requires
        s.inv(),
        id < s.len(),
        s.hideable[id as int],
        !s.hidden[id as int],
        s.focused == id,
        0 <= other < s.len(),
        other != id,
        !s.hidden[other],
    ensures
        s.after_toggle(id).focused != id,
        s.after_toggle(id).focused < s.len(),
        !s.after_toggle(id).hidden[s.after_toggle(id).focused as int],
{
    let h = s.hidden.update(id as int, true);
    let n = s.len() as int;
    let st = id as int;
    let j: int = if other > st { other - st } else { other + n - st };
    assert((st + j) % n == other) by (nonlinear_arith)
        requires
            0 <= st < n,
            0 <= other < n,
            other != st,
            j == (if other > st { other - st } else { other + n - st });
    assert(!h[other]);
    lemma_scan_finds(h, id as nat, 1, j as nat);
    lemma_scan_sound(h, id as nat, 1);
}


/// When the panel just before the focused one (wrapping) is shown,
/// focusing the previous shown panel focuses exactly that panel; likewise
/// the panel just after it for the next shown panel. With every panel
/// shown, focusing the next then the previous panel comes back to the
/// start.
pub proof fn law_focus_prev_is_previous(s: TiledWorkspaceState)
    requires
        s.inv(),
        s.len() >= 2,
    ensures
        !s.hidden[((s.focused + s.len() - 1) as int) % (s.len() as int)]
            ==> s.after_focus_prev().focused as int == ((s.focused + s.len() - 1) as int) % (s.len() as int),
        !s.hidden[((s.focused + 1) as int) % (s.len() as int)]
            ==> s.after_focus_next().focused as int == ((s.focused + 1) as int) % (s.len() as int),
        (forall|i: int| 0 <= i < s.len() ==> !#[trigger] s.hidden[i])
            ==> s.after_focus_next().after_focus_prev().focused == s.focused,
{
    let n = s.len() as int;
    let f = s.focused as int;
    let g = (f + 1) % n;
    assert(0 <= g < n && (g + n - 1) % n == f) by (nonlinear_arith)
        requires
            0 <= f < n,
            g == (f + 1) % n;
    assert(0 <= (f + n - 1) % n < n) by (nonlinear_arith)
        requires
            0 <= f < n;
    if forall|i: int| 0 <= i < s.len() ==> !#[trigger] s.hidden[i] {
        assert(!s.hidden[g]);
        let t = s.after_focus_next();
        assert(t.focused as int == g);
        assert(t.hidden == s.hidden);
        assert(!t.hidden[(g + n - 1) % n]);
    }
}

} // verus!
