//! The git branch indicator: what a repository's HEAD file says, as a
//! status bar label, and when to read it again.

use vstd::prelude::*;
use vstd::utf8::{encode_scalar, encode_utf8};

use crate::tab_panel::wrap16;
use crate::text::{chars_of, push_char, push_str, spec_starts_with, string_from_range};

verus! {

/// Whether `c` is whitespace (`char::is_whitespace`: the Unicode
/// White_Space property).
pub open spec fn is_ws(c: char) -> bool {
    let u = c as u32;
    (0x09 <= u && u <= 0x0d) || u == 0x20 || u == 0x85 || u == 0xa0 || u == 0x1680
        || (0x2000 <= u && u <= 0x200a) || u == 0x2028 || u == 0x2029 || u == 0x202f || u == 0x205f
        || u == 0x3000
}

/// Whether `c` is whitespace.
pub fn char_is_ws(c: char) -> (b: bool)
    ensures
        b == is_ws(c),
{
    let u = c as u32;
    (0x09 <= u && u <= 0x0d) || u == 0x20 || u == 0x85 || u == 0xa0 || u == 0x1680
        || (0x2000 <= u && u <= 0x200a) || u == 0x2028 || u == 0x2029 || u == 0x202f || u == 0x205f
        || u == 0x3000
}

/// Leading whitespace characters of `s`.
pub open spec fn lead_ws(s: Seq<char>) -> nat
    decreases s.len(),
{
    if s.len() > 0 && is_ws(s[0]) { 1 + lead_ws(s.drop_first()) } else { 0 }
}

/// Trailing whitespace characters of `s`.
pub open spec fn trail_ws(s: Seq<char>) -> nat
    decreases s.len(),
{
    if s.len() > 0 && is_ws(s.last()) { 1 + trail_ws(s.drop_last()) } else { 0 }
}

/// `s` without leading and trailing whitespace (`str::trim`).
pub open spec fn trimmed(s: Seq<char>) -> Seq<char> {
    let t = s.skip(lead_ws(s) as int);
    t.take(t.len() - trail_ws(t))
}

/// The prefix of a symbolic reference to a branch.
pub open spec fn ref_prefix() -> Seq<char> {
    seq!['r', 'e', 'f', ':', ' ', 'r', 'e', 'f', 's', '/', 'h', 'e', 'a', 'd', 's', '/']
}

/// The branch glyph and a space.
pub open spec fn branch_mark() -> Seq<char> {
    seq!['\u{e0a0}', ' ']
}

/// The label for a HEAD file's contents: the branch name of a symbolic
/// reference, else the first seven bytes of a detached commit id, else
/// nothing.
pub open spec fn branch_label(head: Seq<char>) -> Option<Seq<char>> {
    let t = trimmed(head);
    if spec_starts_with(t, ref_prefix()) {
        Some(branch_mark() + t.skip(ref_prefix().len() as int))
    } else if encode_utf8(t).len() >= 7 {
        Some(branch_mark() + t.take(choose|k: int| 0 <= k <= t.len() && encode_utf8(t.take(k)).len() == 7))
    } else {
        None
    }
}

/// Reading the label can cut a detached id after seven bytes: a
/// character ends there.
pub open spec fn label_cuttable(head: Seq<char>) -> bool {
    let t = trimmed(head);
    !spec_starts_with(t, ref_prefix()) && encode_utf8(t).len() >= 7
        ==> exists|k: int| 0 <= k <= t.len() && encode_utf8(t.take(k)).len() == 7
}

proof fn lemma_encode_push(a: Seq<char>, c: char)
    ensures
        encode_utf8(a.push(c)) == encode_utf8(a) + encode_scalar(c as u32),
    decreases a.len(),
{
    if a.len() == 0 {
        assert(a.push(c).drop_first() =~= Seq::<char>::empty());
        assert(encode_utf8(Seq::<char>::empty()) =~= Seq::<u8>::empty());
        assert(encode_scalar(c as u32) + Seq::<u8>::empty() =~= encode_scalar(c as u32));
    } else {
        lemma_encode_push(a.drop_first(), c);
        assert(a.push(c).drop_first() =~= a.drop_first().push(c));
        assert(encode_scalar(a[0] as u32) + (encode_utf8(a.drop_first()) + encode_scalar(c as u32))
            =~= (encode_scalar(a[0] as u32) + encode_utf8(a.drop_first())) + encode_scalar(c as u32));
    }
}

proof fn lemma_scalar_len(c: char)
    ensures
        1 <= encode_scalar(c as u32).len() <= 4,
{
}

/// UTF-8 lengths of prefixes grow strictly with the prefix.
proof fn lemma_prefix_bytes(t: Seq<char>, j: int, k: int)
    requires
        0 <= j < k <= t.len(),
    ensures
        encode_utf8(t.take(j)).len() < encode_utf8(t.take(k)).len(),
    decreases k - j,
{
    assert(t.take(k - 1).push(t[k - 1]) =~= t.take(k));
    lemma_encode_push(t.take(k - 1), t[k - 1]);
    lemma_scalar_len(t[k - 1]);
    if j < k - 1 {
        lemma_prefix_bytes(t, j, k - 1);
    }
}

fn trim_chars(cs: &Vec<char>) -> (t: Vec<char>)
    ensures
        t@ == trimmed(cs@),
{
    let n = cs.len();
    let mut a: usize = 0;
    assert(cs@.skip(0) =~= cs@);
    while a < n && char_is_ws(cs[a])
        invariant
            a <= n == cs@.len(),
            lead_ws(cs@) == a + lead_ws(cs@.skip(a as int)),
        decreases n - a,
    {
        assert(cs@.skip(a as int).drop_first() =~= cs@.skip(a + 1));
        a += 1;
    }
    assert(lead_ws(cs@.skip(a as int)) == 0);
    let ghost s = cs@.skip(a as int);
    let mut b: usize = n;
    assert(s.take(n - a) =~= s);
    while b > a && char_is_ws(cs[b - 1])
        invariant
            a <= b <= n == cs@.len(),
            s == cs@.skip(a as int),
            trail_ws(s) == (n - b) + trail_ws(s.take(b - a)),
        decreases b,
    {
        assert(s.take(b - a).drop_last() =~= s.take(b - a - 1));
        assert(s.take(b - a).last() == cs@[b - 1]);
        b -= 1;
    }
    assert(trail_ws(s.take(b - a)) == 0);
    let t = string_from_range(cs, a, b);
    let tc = chars_of(t.as_str());
    assert(tc@ =~= s.take(s.len() - trail_ws(s)));
    tc
}

/// The label for the contents of a HEAD file.
pub fn read_branch_label(head: &str) -> (r: Option<String>)
    requires
        label_cuttable(head@),
        encode_utf8(trimmed(head@)).len() <= usize::MAX,
    ensures
        match (r, branch_label(head@)) {
            (Some(s), Some(l)) => s@ == l,
            (None, None) => true,
            _ => false,
        },
{
    let cs = chars_of(head);
    let t = trim_chars(&cs);
    let ghost tv = t@;
    let tstr = string_from_range(&t, 0, t.len());
    assert(tstr@ =~= tv);
    let prefix = "ref: refs/heads/";
    proof {
        reveal_strlit("ref: refs/heads/");
        assert(prefix@ =~= ref_prefix());
    }
    if crate::text::starts_with(tstr.as_str(), prefix) {
        let mut out = String::new();
        push_char(&mut out, '\u{e0a0}');
        push_char(&mut out, ' ');
        let rest = string_from_range(&t, 16, t.len());
        push_str(&mut out, rest.as_str());
        assert(out@ =~= branch_mark() + tv.skip(ref_prefix().len() as int));
        return Some(out);
    }
    let total = tstr.as_str().len();
    if total < 7 {
        return None;
    }
    let mut bytes: usize = 0;
    let mut k: usize = 0;
    assert(tv.take(0) =~= Seq::<char>::empty());
    while k < t.len() && bytes < 7
        invariant
            k <= t.len(),
            tv == t@,
            bytes == encode_utf8(tv.take(k as int)).len(),
            bytes < 7 + 4,
            k == 0 || encode_utf8(tv.take(k - 1)).len() < 7,
        decreases t.len() - k,
    {
        let mut one = String::new();
        push_char(&mut one, t[k]);
        let b = one.as_str().len();
        proof {
            assert(one@ =~= seq![t[k as int]]);
            assert(seq![t[k as int]] =~= Seq::<char>::empty().push(t[k as int]));
            lemma_encode_push(Seq::<char>::empty(), t[k as int]);
            assert(encode_utf8(Seq::<char>::empty()) =~= Seq::<u8>::empty());
            lemma_scalar_len(t[k as int]);
            assert(tv.take(k as int).push(tv[k as int]) =~= tv.take(k + 1));
            lemma_encode_push(tv.take(k as int), tv[k as int]);
        }
        bytes = bytes + b;
        k += 1;
    }
    proof {
        if k == t.len() {
            assert(tv.take(k as int) =~= tv);
        }
        let w = choose|w: int| 0 <= w <= tv.len() && encode_utf8(tv.take(w)).len() == 7;
        if w < k {
            if w < k - 1 {
                lemma_prefix_bytes(tv, w, k - 1);
            }
            assert(false);
        } else if w > k {
            lemma_prefix_bytes(tv, k as int, w);
        }
        assert(bytes == 7);
    }
    let mut out = String::new();
    push_char(&mut out, '\u{e0a0}');
    push_char(&mut out, ' ');
    let cut = string_from_range(&t, 0, k);
    push_str(&mut out, cut.as_str());
    proof {
        let w = choose|w: int| 0 <= w <= tv.len() && encode_utf8(tv.take(w)).len() == 7;
        if w < k {
            lemma_prefix_bytes(tv, w, k as int);
        } else if w > k {
            lemma_prefix_bytes(tv, k as int, w);
        }
        assert(w == k);
        assert(cut@ =~= tv.take(k as int));
        assert(out@ =~= branch_mark() + tv.take(k as int));
    }
    Some(out)
}

/// Ticks between two reads of the HEAD file.
pub open spec fn refresh_ticks() -> u16 {
    60
}

/// Counts ticks until the branch is read again.
pub struct BranchTicker {
    ticks: u16,
}

impl BranchTicker {
    pub fn new() -> (t: BranchTicker)
        ensures
            t.ticks_spec() == 0,
    {
        BranchTicker { ticks: 0 }
    }

    pub closed spec fn ticks_spec(&self) -> u16 {
        self.ticks
    }

    /// A tick: every sixtieth one says to read the branch again.
    pub fn tick(&mut self) -> (due: bool)
        requires
            old(self).ticks_spec() < refresh_ticks(),
        ensures
            final(self).ticks_spec() < refresh_ticks(),
            due == (old(self).ticks_spec() + 1 >= refresh_ticks()),
            final(self).ticks_spec() == (if due { 0 } else { old(self).ticks_spec() + 1 }),
    {
        self.ticks = self.ticks + 1;
        if self.ticks >= 60 {
            self.ticks = 0;
            true
        } else {
            false
        }
    }
}

/// The indicator's width for `label`: nothing without a label, else its
/// UTF-8 length (cut to 16 bits) and a column each side.
pub open spec fn label_width(label: Seq<char>) -> nat {
    if label.len() == 0 { 0 } else { wrap16(encode_utf8(label).len()) + 2 }
}

/// The indicator's width for `label`.
pub fn indicator_width(label: &str) -> (w: u16)
    requires
        label@.len() > 0 ==> wrap16(encode_utf8(label@).len()) + 2 <= u16::MAX,
        encode_utf8(label@).len() <= usize::MAX,
    ensures
        w as nat == label_width(label@),
{
    if label.unicode_len() == 0 {
        return 0;
    }
    let n = label.len();
    let n16: u16 = n as u16;
    assert(n16 == n % 65536) by (bit_vector)
        requires n16 == n as u16;
    n16 + 2
}

} // verus!
