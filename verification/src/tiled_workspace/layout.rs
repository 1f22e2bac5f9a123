//! Where the tiled workspace puts its panels and divider lines.
//!
//! A split shares its length among its shown children by their
//! proportions; the shares of all children but the last are worked out
//! alongside and handed in here, the last child takes what is left.

use vstd::prelude::*;

use super::types::SplitDir;
use crate::geometry::Rect;

verus! {

/// The length a split of `count` shown children shares out: its width
/// (horizontal) or height (vertical), less one column or row per divider
/// gap when gaps are on.
pub open spec fn shared_length(bounds: Rect, dir: SplitDir, count: nat, gaps: bool) -> nat {
    let dividers: nat = if gaps && count >= 1 { (count - 1) as nat } else { 0 };
    let len: nat = match dir {
        SplitDir::Horizontal => bounds.w as nat,
        SplitDir::Vertical => bounds.h as nat,
    };
    if len >= dividers { (len - dividers) as nat } else { 0 }
}

/// The length a split of `count` shown children shares out.
pub fn split_length(bounds: Rect, dir: SplitDir, count: usize, gaps: bool) -> (n: u16)
    requires
        count <= 65536,
    ensures
        n as nat == shared_length(bounds, dir, count as nat, gaps),
{
    let dividers: u16 = if gaps && count >= 1 { (count - 1) as u16 } else { 0 };
    let len = match dir {
        SplitDir::Horizontal => bounds.w,
        SplitDir::Vertical => bounds.h,
    };
    if len >= dividers { len - dividers } else { 0 }
}

/// Children placed from child `i` on, `offset` into the split: child `i`
/// gets `sizes[i]`, the last child what is left of `total`, each moved
/// one further cell per earlier child when gaps are on.
pub open spec fn placed(bounds: Rect, dir: SplitDir, total: nat, sizes: Seq<u16>, gaps: bool, i: nat, offset: nat) -> Seq<Rect>
    decreases sizes.len() + 1 - i,
{
    if i > sizes.len() {
        Seq::empty()
    } else {
        let size: nat = if i == sizes.len() { if total >= offset { (total - offset) as nat } else { 0 } } else { sizes[i as int] as nat };
        let at: nat = offset + if gaps { i } else { 0 };
        let r = match dir {
            SplitDir::Horizontal => Rect { x: (bounds.x + at) as u16, y: bounds.y, w: size as u16, h: bounds.h },
            SplitDir::Vertical => Rect { x: bounds.x, y: (bounds.y + at) as u16, w: bounds.w, h: size as u16 },
        };
        seq![r] + placed(bounds, dir, total, sizes, gaps, i + 1, offset + size)
    }
}

/// Every coordinate placing the children computes stays in range.
pub open spec fn placement_fits(bounds: Rect, dir: SplitDir, total: nat, sizes: Seq<u16>, gaps: bool, i: nat, offset: nat) -> bool
    decreases sizes.len() + 1 - i,
{
    if i > sizes.len() {
        true
    } else {
        let size: nat = if i == sizes.len() { if total >= offset { (total - offset) as nat } else { 0 } } else { sizes[i as int] as nat };
        let at: nat = offset + if gaps { i } else { 0 };
        let start: nat = match dir {
            SplitDir::Horizontal => bounds.x as nat,
            SplitDir::Vertical => bounds.y as nat,
        };
        &&& start + at <= u16::MAX
        &&& (i < sizes.len() ==> offset + size <= u16::MAX)
        &&& placement_fits(bounds, dir, total, sizes, gaps, i + 1, offset + size)
    }
}

/// Whether placing a split's children keeps every coordinate in range
/// (what [`place_children`] needs).
pub fn children_fit(bounds: Rect, dir: SplitDir, total: u16, sizes: &Vec<u16>, gaps: bool) -> (b: bool)
    requires
        sizes.len() < 65535,
    ensures
        b == placement_fits(bounds, dir, total as nat, sizes@, gaps, 0, 0),
{
    let n = sizes.len();
    let start: u32 = match dir {
        SplitDir::Horizontal => bounds.x as u32,
        SplitDir::Vertical => bounds.y as u32,
    };
    let mut offset: u32 = 0;
    let mut i: usize = 0;
    while i <= n
        invariant
            n == sizes.len() < 65535,
            i <= n + 1,
            offset <= u16::MAX,
            start as nat == (match dir {
                SplitDir::Horizontal => bounds.x as nat,
                SplitDir::Vertical => bounds.y as nat,
            }),
            placement_fits(bounds, dir, total as nat, sizes@, gaps, 0, 0)
                == placement_fits(bounds, dir, total as nat, sizes@, gaps, i as nat, offset as nat),
        decreases n + 1 - i,
    {
        let size: u32 = if i == n { if total as u32 >= offset { total as u32 - offset } else { 0 } } else { sizes[i] as u32 };
        let gap: u32 = if gaps { i as u32 } else { 0 };
        if start + offset + gap > 65535 {
            return false;
        }
        if i < n {
            if offset + size > 65535 {
                return false;
            }
        }
        let ghost off = offset as nat;
        proof {
            if i == n {
                assert(placement_fits(bounds, dir, total as nat, sizes@, gaps, (i + 1) as nat, off + size as nat));
                assert(placement_fits(bounds, dir, total as nat, sizes@, gaps, (i + 1) as nat, 0));
            }
            assert(placement_fits(bounds, dir, total as nat, sizes@, gaps, i as nat, off)
                == placement_fits(bounds, dir, total as nat, sizes@, gaps, (i + 1) as nat, off + size as nat));
        }
        offset = offset + size;
        if i == n {
            offset = 0;
        }
        i += 1;
    }
    true
}

/// Place a split's shown children in `bounds`: `sizes` are the lengths of
/// all but the last child, which gets what is left of `total`.
pub fn place_children(bounds: Rect, dir: SplitDir, total: u16, sizes: &Vec<u16>, gaps: bool) -> (v: Vec<Rect>)
    requires
        sizes.len() < 65535,
        placement_fits(bounds, dir, total as nat, sizes@, gaps, 0, 0),
    ensures
        v@ == placed(bounds, dir, total as nat, sizes@, gaps, 0, 0),
{
    let n = sizes.len();
    let mut v: Vec<Rect> = Vec::new();
    let mut offset: u16 = 0;
    let mut i: usize = 0;
    while i <= n
        invariant
            n == sizes.len() < 65535,
            i <= n + 1,
            placement_fits(bounds, dir, total as nat, sizes@, gaps, i as nat, offset as nat),
            v@ + placed(bounds, dir, total as nat, sizes@, gaps, i as nat, offset as nat)
                == placed(bounds, dir, total as nat, sizes@, gaps, 0, 0),
        decreases n + 1 - i,
    {
        let ghost off0 = offset as nat;
        let size: u16 = if i == n { if total >= offset { total - offset } else { 0 } } else { sizes[i] };
        let gap: u16 = if gaps { i as u16 } else { 0 };
        let at = offset + gap;
        let r = match dir {
            SplitDir::Horizontal => Rect::new(bounds.x + at, bounds.y, size, bounds.h),
            SplitDir::Vertical => Rect::new(bounds.x, bounds.y + at, bounds.w, size),
        };
        let ghost before = v@;
        proof {
            assert(placed(bounds, dir, total as nat, sizes@, gaps, i as nat, off0)
                == seq![r] + placed(bounds, dir, total as nat, sizes@, gaps, (i + 1) as nat, off0 + (size as nat)));
        }
        v.push(r);
        if i < n {
            offset = offset + size;
        }
        proof {
            if i == n {
                assert(placed(bounds, dir, total as nat, sizes@, gaps, (i + 1) as nat, offset as nat) =~= Seq::empty());
                assert(placed(bounds, dir, total as nat, sizes@, gaps, (i + 1) as nat, off0 + (size as nat)) =~= Seq::empty());
            }
            assert(v@ + placed(bounds, dir, total as nat, sizes@, gaps, (i + 1) as nat, offset as nat)
                =~= before + placed(bounds, dir, total as nat, sizes@, gaps, i as nat, off0));
        }
        i += 1;
    }
    assert(placed(bounds, dir, total as nat, sizes@, gaps, i as nat, offset as nat) =~= Seq::empty());
    assert(v@ + Seq::<Rect>::empty() =~= v@);
    v
}

/// The zoomed layout: panel `z` takes the whole area, every other panel
/// nothing.
pub fn zoomed_rects(count: usize, z: usize, bounds: Rect) -> (v: Vec<Rect>)
    ensures
        v@ == Seq::new(count as nat, |i: int| if i == z { bounds } else { Rect { x: 0, y: 0, w: 0, h: 0 } }),
{
    let mut v: Vec<Rect> = Vec::new();
    let mut i: usize = 0;
    while i < count
        invariant
            i <= count,
            v@ == Seq::new(i as nat, |k: int| if k == z { bounds } else { Rect { x: 0, y: 0, w: 0, h: 0 } }),
        decreases count - i,
    {
        v.push(if i == z { bounds } else { Rect::zero() });
        i += 1;
        assert(v@ =~= Seq::new(i as nat, |k: int| if k == z { bounds } else { Rect { x: 0, y: 0, w: 0, h: 0 } }));
    }
    v
}

/// `rects` after each placement `(panel, rect)` in turn gave that panel
/// its rect (placements naming no panel are passed over).
pub open spec fn assign_rects(rects: Seq<Rect>, placed: Seq<(usize, Rect)>) -> Seq<Rect>
    decreases placed.len(),
{
    if placed.len() == 0 {
        rects
    } else {
        let r = assign_rects(rects, placed.drop_last());
        let (id, x) = placed.last();
        if id < r.len() { r.update(id as int, x) } else { r }
    }
}

/// The bounds of `count` panels when the layout placed only the shown
/// ones: each placed panel gets its rect, every other (hidden) panel
/// nothing.
pub fn panel_bounds(count: usize, placed: &Vec<(usize, Rect)>) -> (v: Vec<Rect>)
    ensures
        v@ == assign_rects(Seq::new(count as nat, |i: int| Rect { x: 0, y: 0, w: 0, h: 0 }), placed@),
{
    let ghost zeros = Seq::new(count as nat, |i: int| Rect { x: 0, y: 0, w: 0, h: 0 });
    let mut v: Vec<Rect> = Vec::new();
    let mut i: usize = 0;
    while i < count
        invariant
            i <= count,
            v@ == Seq::new(i as nat, |k: int| Rect { x: 0, y: 0, w: 0, h: 0 }),
        decreases count - i,
    {
        v.push(Rect::zero());
        i += 1;
        assert(v@ =~= Seq::new(i as nat, |k: int| Rect { x: 0, y: 0, w: 0, h: 0 }));
    }
    assert(placed@.take(0) =~= Seq::<(usize, Rect)>::empty());
    let mut j: usize = 0;
    while j < placed.len()
        invariant
            j <= placed.len(),
            v@ == assign_rects(zeros, placed@.take(j as int)),
        decreases placed.len() - j,
    {
        let (id, r) = placed[j];
        assert(placed@.take(j as int + 1).drop_last() =~= placed@.take(j as int));
        if id < v.len() {
            v.set(id, r);
        }
        j += 1;
    }
    assert(placed@.take(placed.len() as int) =~= placed@);
    v
}

/// A vertical divider: its column and the rows it spans (end exclusive).
#[derive(Clone, Copy, Debug, PartialEq, Eq, Structural)]
pub struct VGap {
    pub x: u16,
    pub y_start: u16,
    pub y_end: u16,
}

/// Whether some panel starts right after column `gx` on row `y`.
pub open spec fn has_right_neighbor(rects: Seq<Rect>, gx: nat, y: u16) -> bool {
    exists|j: int| 0 <= j < rects.len() && #[trigger] rects[j].x == gx + 1 && rects[j].y == y
}

/// Vertical dividers from panel `i` on: after each panel that another
/// panel on its top row follows one column later, unless a divider at
/// that column and row is already there.
pub open spec fn gaps_from(rects: Seq<Rect>, i: nat, found: Seq<VGap>) -> Seq<VGap>
    decreases rects.len() - i,
{
    if i >= rects.len() {
        found
    } else {
        let a = rects[i as int];
        let gx = (a.x + a.w) as nat;
        let dup = exists|k: int| 0 <= k < found.len() && #[trigger] found[k].x == gx && found[k].y_start == a.y;
        if !has_right_neighbor(rects, gx, a.y) || dup {
            gaps_from(rects, i + 1, found)
        } else {
            gaps_from(rects, i + 1, found.push(VGap { x: gx as u16, y_start: a.y, y_end: (a.y + a.h) as u16 }))
        }
    }
}

/// Whether `s` is strictly increasing.
pub open spec fn increasing(s: Seq<u16>) -> bool {
    forall|a: int, b: int| 0 <= a < b < s.len() ==> #[trigger] s[a] < #[trigger] s[b]
}

/// The rows where panels start, sorted, each once.
pub open spec fn tier_rows(rects: Seq<Rect>, tiers: Seq<u16>) -> bool {
    &&& increasing(tiers)
    &&& forall|i: int| 0 <= i < rects.len() ==> tiers.contains(#[trigger] rects[i].y)
    &&& forall|k: int| #![trigger tiers[k]] 0 <= k < tiers.len() ==> exists|i: int| 0 <= i < rects.len() && #[trigger] rects[i].y == tiers[k]
}

/// Insert `y` into the sorted, duplicate-free `v`, keeping it so.
fn insert_sorted(v: &mut Vec<u16>, y: u16)
    requires
        increasing(old(v)@),
    ensures
        increasing(final(v)@),
        forall|z: u16| final(v)@.contains(z) <==> (old(v)@.contains(z) || z == y),
{
    let mut i: usize = 0;
    while i < v.len() && v[i] < y
        invariant
            i <= v.len(),
            v@ == old(v)@,
            forall|k: int| 0 <= k < i ==> v@[k] < y,
        decreases v.len() - i,
    {
        i += 1;
    }
    if i < v.len() && v[i] == y {
        return;
    }
    v.insert(i, y);
    proof {
        assert forall|z: u16| v@.contains(z) <==> (old(v)@.contains(z) || z == y) by {
            if v@.contains(z) {
                let k = choose|k: int| 0 <= k < v@.len() && v@[k] == z;
                if k < i {
                    assert(old(v)@[k] == z);
                } else if k > i {
                    assert(old(v)@[k - 1] == z);
                }
            }
            if old(v)@.contains(z) {
                let k = choose|k: int| 0 <= k < old(v)@.len() && old(v)@[k] == z;
                if k < i {
                    assert(v@[k] == z);
                } else {
                    assert(v@[k + 1] == z);
                }
            }
            if z == y {
                assert(v@[i as int] == y);
            }
        }
    }
}

/// Divider coordinates for the shown panels `rects`: the sorted rows
/// where panels start (a horizontal line each) and the vertical gaps.
pub fn compute_chrome_coords(rects: &Vec<Rect>) -> (r: (Vec<u16>, Vec<VGap>))
    requires
        forall|i: int| 0 <= i < rects.len() ==> (#[trigger] rects@[i]).x + rects@[i].w < u16::MAX
            && rects@[i].y + rects@[i].h <= u16::MAX,
    ensures
        tier_rows(rects@, r.0@),
        r.1@ == gaps_from(rects@, 0, Seq::empty()),
{
    let mut tiers: Vec<u16> = Vec::new();
    let mut i: usize = 0;
    while i < rects.len()
        invariant
            i <= rects.len(),
            increasing(tiers@),
            forall|k: int| 0 <= k < i ==> tiers@.contains(#[trigger] rects@[k].y),
            forall|t: u16| tiers@.contains(t) ==> exists|k: int| 0 <= k < i && #[trigger] rects@[k].y == t,
        decreases rects.len() - i,
    {
        let ghost before = tiers@;
        insert_sorted(&mut tiers, rects[i].y);
        proof {
            assert forall|t: u16| tiers@.contains(t) implies exists|k: int| 0 <= k < i + 1 && #[trigger] rects@[k].y == t by {
                if before.contains(t) {
                    let k = choose|k: int| 0 <= k < i && #[trigger] rects@[k].y == t;
                } else {
                    assert(rects@[i as int].y == t);
                }
            }
            assert forall|k: int| 0 <= k < i + 1 implies tiers@.contains(#[trigger] rects@[k].y) by {
                if k < i {
                    assert(before.contains(rects@[k].y));
                }
            }
        }
        i += 1;
    }
    proof {
        assert forall|k: int| #![trigger tiers@[k]] 0 <= k < tiers@.len() implies exists|i: int| 0 <= i < rects@.len() && #[trigger] rects@[i].y == tiers@[k] by {
            assert(tiers@.contains(tiers@[k]));
        }
    }
    let mut gaps: Vec<VGap> = Vec::new();
    let mut a: usize = 0;
    while a < rects.len()
        invariant
            a <= rects.len(),
            forall|i: int| 0 <= i < rects.len() ==> (#[trigger] rects@[i]).x + rects@[i].w < u16::MAX
                && rects@[i].y + rects@[i].h <= u16::MAX,
            gaps_from(rects@, a as nat, gaps@) == gaps_from(rects@, 0, Seq::empty()),
        decreases rects.len() - a,
    {
        let ra = rects[a];
        let gx: u16 = ra.x + ra.w;
        let mut neighbor = false;
        let mut j: usize = 0;
        while j < rects.len()
            invariant
                j <= rects.len(),
                gx == ra.x + ra.w,
                gx < u16::MAX,
                neighbor == exists|k: int| 0 <= k < j && #[trigger] rects@[k].x == gx + 1 && rects@[k].y == ra.y,
            decreases rects.len() - j,
        {
            if rects[j].x == gx + 1 && rects[j].y == ra.y {
                neighbor = true;
            }
            j += 1;
        }
        let mut dup = false;
        let mut k: usize = 0;
        while k < gaps.len()
            invariant
                k <= gaps.len(),
                dup == exists|m: int| 0 <= m < k && #[trigger] gaps@[m].x == gx && gaps@[m].y_start == ra.y,
            decreases gaps.len() - k,
        {
            if gaps[k].x == gx && gaps[k].y_start == ra.y {
                dup = true;
            }
            k += 1;
        }
        if neighbor && !dup {
            gaps.push(VGap { x: gx, y_start: ra.y, y_end: ra.y + ra.h });
        }
        a += 1;
    }
    (tiers, gaps)
}

} // verus!
