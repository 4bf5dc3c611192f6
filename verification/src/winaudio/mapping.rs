//! Map fader slots (1..=8) to concrete audio sessions.
//!
//! Two-pass resolution:
//!   1. **Pinned** apps claim their requested fader slot regardless of
//!      session activity.
//!   2. **Discovered** sessions fill the remaining slots in FIFO discovery
//!      order. The order is stable across re-enumerations: a session is
//!      appended the first time it is seen and its position never moves.
//!
//! Each observed process is also assigned a stable LCD color from a
//! 1..=7 cycle the first time it is seen. The `active` set tracks which
//! sessions are currently producing audio.

use vstd::prelude::*;

use crate::text::{chars_of, decimal, lemma_decimal_injective, lowercase, push_char, push_decimal, string_from_chars, to_lowercase};
use vstd::string::StringExecFns;

verus! {

/// A process pinned to a fader slot by configuration.
#[derive(Debug, Clone)]
pub struct PinnedApp {
    /// Requested fader slot, 1..=8.
    pub fader: u8,
    /// Executable name as configured (any case), e.g. `"Spotify.exe"`.
    pub process_name: String,
    /// Optional LCD label overriding the derived one.
    pub display_name: Option<String>,
    /// Optional LCD color (0..=7) overriding the cycle color.
    pub color: Option<u8>,
}

/// Output of a single mapping pass: a concrete fader slot binding.
#[derive(Debug, Clone)]
pub struct SlotBinding {
    /// 1..=8.
    pub fader: u8,
    /// Lowercase exe name (e.g. "discord.exe").
    pub process_name: Option<String>,
    /// Friendly LCD label.
    pub display_name: String,
}

impl SlotBinding {
    /// A field-by-field copy.
    pub fn duplicate(&self) -> (r: SlotBinding)
        ensures
            r.fader == self.fader,
            r.process_name.is_some() == self.process_name.is_some(),
            r.process_name matches Some(n) ==> n@ == self.process_name.unwrap()@,
            r.display_name@ == self.display_name@,
    {
        let process_name = match &self.process_name {
            Some(n) => Some(n.clone()),
            None => None,
        };
        SlotBinding { fader: self.fader, process_name, display_name: self.display_name.clone() }
    }
}

/// Hard cap on the FIFO discovery list; the oldest entries are evicted
/// beyond it.
pub const DISCOVERY_CAP: usize = 32;

/// Number of distinct cycle colors (1..=7, skipping 0 = black).
pub const COLOR_CYCLE_LEN: u8 = 7;

/// Discovery bookkeeping: stable FIFO order, stable colors, active set.
#[derive(Debug, Clone)]
pub struct DiscoveryState {
    /// Lowercase process names in first-seen order.
    pub discovered_order: Vec<String>,
    /// Process name (lowercase) -> LCD color (1..=7), assigned on first
    /// observation.
    pub assigned_color: Vec<(String, u8)>,
    /// Process names (lowercase) currently producing audio.
    pub active: Vec<String>,
}

// ---------------------------------------------------------------------------
// Model
// ---------------------------------------------------------------------------

/// Views of a list of strings.
pub open spec fn names_of(v: Seq<String>) -> Seq<Seq<char>> {
    v.map_values(|s: String| s@)
}

/// Views of a list of (name, color) pairs.
pub open spec fn pairs_of(v: Seq<(String, u8)>) -> Seq<(Seq<char>, u8)> {
    v.map_values(|p: (String, u8)| (p.0@, p.1))
}

/// The color recorded for `k`: that of its latest entry.
pub open spec fn color_lookup(c: Seq<(Seq<char>, u8)>, k: Seq<char>) -> Option<u8>
    decreases c.len(),
{
    if c.len() == 0 {
        None
    } else if c.last().0 == k {
        Some(c.last().1)
    } else {
        color_lookup(c.drop_last(), k)
    }
}

/// The color the cycle hands out when `count` names already have one.
pub open spec fn next_cycle_color(count: nat) -> u8 {
    (((count % 256) % 7) + 1) as u8
}

/// Give `k` the next cycle color unless it already has one.
pub open spec fn ensure_color_spec(c: Seq<(Seq<char>, u8)>, k: Seq<char>) -> Seq<(Seq<char>, u8)> {
    if color_lookup(c, k).is_some() {
        c
    } else {
        c.push((k, next_cycle_color(c.len())))
    }
}

/// Apply `ensure_color_spec` to each name in turn.
pub open spec fn ensure_colors_spec(c: Seq<(Seq<char>, u8)>, names: Seq<Seq<char>>) -> Seq<(Seq<char>, u8)>
    decreases names.len(),
{
    if names.len() == 0 {
        c
    } else {
        ensure_color_spec(ensure_colors_spec(c, names.drop_last()), names.last())
    }
}

/// Append each name that is neither excluded nor already listed, giving it
/// a color, in the order given.
pub open spec fn append_new_spec(
    order: Seq<Seq<char>>,
    colors: Seq<(Seq<char>, u8)>,
    names: Seq<Seq<char>>,
    excluded: Seq<Seq<char>>,
) -> (Seq<Seq<char>>, Seq<(Seq<char>, u8)>)
    decreases names.len(),
{
    if names.len() == 0 {
        (order, colors)
    } else {
        let (o, c) = append_new_spec(order, colors, names.drop_last(), excluded);
        let n = names.last();
        if excluded.contains(n) || o.contains(n) {
            (o, c)
        } else {
            (o.push(n), ensure_color_spec(c, n))
        }
    }
}

/// The entries of `c` whose name is not in `gone`.
pub open spec fn drop_keys(c: Seq<(Seq<char>, u8)>, gone: Seq<Seq<char>>) -> Seq<(Seq<char>, u8)>
    decreases c.len(),
{
    if c.len() == 0 {
        c
    } else if gone.contains(c.last().0) {
        drop_keys(c.drop_last(), gone)
    } else {
        drop_keys(c.drop_last(), gone).push(c.last())
    }
}

/// The names of `order` that are not in `excluded`, in order.
pub open spec fn without(order: Seq<Seq<char>>, excluded: Seq<Seq<char>>) -> Seq<Seq<char>>
    decreases order.len(),
{
    if order.len() == 0 {
        order
    } else if excluded.contains(order.last()) {
        without(order.drop_last(), excluded)
    } else {
        without(order.drop_last(), excluded).push(order.last())
    }
}

/// Evict the oldest names beyond `DISCOVERY_CAP`, with their colors.
pub open spec fn evict_spec(order: Seq<Seq<char>>, colors: Seq<(Seq<char>, u8)>) -> (
    Seq<Seq<char>>,
    Seq<(Seq<char>, u8)>,
) {
    if order.len() > DISCOVERY_CAP {
        let k = order.len() - DISCOVERY_CAP;
        (order.skip(k), drop_keys(colors, order.take(k)))
    } else {
        (order, colors)
    }
}

/// The (order, colors) that `observe` leaves.
pub open spec fn observe_spec(
    order: Seq<Seq<char>>,
    colors: Seq<(Seq<char>, u8)>,
    names: Seq<Seq<char>>,
    pinned: Seq<Seq<char>>,
) -> (Seq<Seq<char>>, Seq<(Seq<char>, u8)>) {
    let (o, c) = append_new_spec(order, colors, names, pinned);
    evict_spec(o, c)
}

/// No name is listed twice, no name has two colors, every color is a
/// cycle color, and every listed name has a color.
pub open spec fn wf_model(order: Seq<Seq<char>>, colors: Seq<(Seq<char>, u8)>) -> bool {
    &&& order.no_duplicates()
    &&& keys_of(colors).no_duplicates()
    &&& forall|i: int| 0 <= i < colors.len() ==> 1 <= #[trigger] colors[i].1 <= 7
    &&& forall|i: int| 0 <= i < order.len() ==> color_lookup(colors, #[trigger] order[i]).is_some()
}

/// The names that `observe` appends, in order: those of `names` that are
/// neither excluded nor already listed (first occurrence only).
pub open spec fn fresh_spec(order: Seq<Seq<char>>, names: Seq<Seq<char>>, excluded: Seq<Seq<char>>) -> Seq<Seq<char>>
    decreases names.len(),
{
    if names.len() == 0 {
        Seq::empty()
    } else {
        let f = fresh_spec(order, names.drop_last(), excluded);
        let n = names.last();
        if excluded.contains(n) || (order + f).contains(n) {
            f
        } else {
            f.push(n)
        }
    }
}

/// How many of the oldest names `observe` evicts from a list of `len`.
pub open spec fn evict_count(len: nat) -> nat {
    if len > DISCOVERY_CAP { (len - DISCOVERY_CAP) as nat } else { 0 }
}

/// The keys of a list of (name, color) pairs.
pub open spec fn keys_of(c: Seq<(Seq<char>, u8)>) -> Seq<Seq<char>> {
    c.map_values(|p: (Seq<char>, u8)| p.0)
}

impl DiscoveryState {
    /// The discovery order as character sequences.
    pub open spec fn order(&self) -> Seq<Seq<char>> {
        names_of(self.discovered_order@)
    }

    /// The color table as (name, color) pairs.
    pub open spec fn colors(&self) -> Seq<(Seq<char>, u8)> {
        pairs_of(self.assigned_color@)
    }

    /// The set of currently active process names.
    pub open spec fn active_set(&self) -> Set<Seq<char>> {
        names_of(self.active@).to_set()
    }

    /// Consistency: no name is listed twice, no name has two colors,
    /// every color is a cycle color, and every listed name has a color.
    pub open spec fn wf(&self) -> bool {
        wf_model(self.order(), self.colors())
    }
}

// ---------------------------------------------------------------------------
// Executable helpers
// ---------------------------------------------------------------------------

/// Whether `name` is in `list` (character equality).
pub fn list_contains(list: &[String], name: &String) -> (r: bool)
    ensures
        r == names_of(list@).contains(name@),
{
    let mut i: usize = 0;
    while i < list.len()
        invariant
            i <= list.len(),
            forall|j: int| 0 <= j < i ==> list@[j]@ != name@,
        decreases list.len() - i,
    {
        if list[i] == *name {
            assert(names_of(list@)[i as int] == name@);
            return true;
        }
        i = i + 1;
    }
    assert(!names_of(list@).contains(name@)) by {
        if names_of(list@).contains(name@) {
            let j = choose|j: int| 0 <= j < names_of(list@).len() && names_of(list@)[j] == name@;
            assert(list@[j]@ == name@);
        }
    }
    false
}

fn lookup_color(colors: &[(String, u8)], name: &String) -> (r: Option<u8>)
    ensures
        r == color_lookup(pairs_of(colors@), name@),
{
    let mut i: usize = colors.len();
    assert(pairs_of(colors@).take(i as int) =~= pairs_of(colors@));
    while i > 0
        invariant
            i <= colors.len(),
            color_lookup(pairs_of(colors@), name@) == color_lookup(pairs_of(colors@).take(i as int), name@),
        decreases i,
    {
        proof {
            let pre = pairs_of(colors@).take(i as int);
            assert(pre.drop_last() =~= pairs_of(colors@).take(i - 1));
            assert(pre.last() == pairs_of(colors@)[i - 1]);
        }
        if colors[i - 1].0 == *name {
            return Some(colors[i - 1].1);
        }
        i = i - 1;
    }
    None
}

proof fn lemma_names_push(v: Seq<String>, s: String)
    ensures
        names_of(v.push(s)) == names_of(v).push(s@),
{
    assert(names_of(v.push(s)) =~= names_of(v).push(s@));
}

proof fn lemma_pairs_push(v: Seq<(String, u8)>, p: (String, u8))
    ensures
        pairs_of(v.push(p)) == pairs_of(v).push((p.0@, p.1)),
{
    assert(pairs_of(v.push(p)) =~= pairs_of(v).push((p.0@, p.1)));
}

impl Default for DiscoveryState {
    fn default() -> (r: Self)
        ensures
            r.discovered_order@.len() == 0,
            r.assigned_color@.len() == 0,
            r.active@.len() == 0,
    {
        DiscoveryState { discovered_order: Vec::new(), assigned_color: Vec::new(), active: Vec::new() }
    }
}

impl DiscoveryState {
    /// Assign the next color in the cycle if the name is unknown.
    fn ensure_color(&mut self, name_lc: &String)
        ensures
            final(self).colors() == ensure_color_spec(old(self).colors(), name_lc@),
            final(self).discovered_order == old(self).discovered_order,
            final(self).active == old(self).active,
    {
        if lookup_color(&self.assigned_color, name_lc).is_some() {
            return;
        }
        let count = self.assigned_color.len();
        proof {
            assert(count % 256 == (count as u8) as nat) by (bit_vector);
        }
        let next = ((count as u8) % COLOR_CYCLE_LEN) + 1;
        let ghost before = self.assigned_color@;
        let entry = (name_lc.clone(), next);
        self.assigned_color.push(entry);
        proof {
            lemma_pairs_push(before, entry);
        }
    }

    /// Push any newly seen process names (lowercase) to the end of the
    /// stable discovery order, skipping duplicates and pinned names, and
    /// assign a cycle color to any name that doesn't already have one.
    /// Evicts the oldest entries when the list exceeds `DISCOVERY_CAP`,
    /// removing their color assignment in lockstep.
    pub fn observe(&mut self, names_lc: &[String], pinned_lc: &[String])
        ensures
            (final(self).order(), final(self).colors()) == observe_spec(
                old(self).order(),
                old(self).colors(),
                names_of(names_lc@),
                names_of(pinned_lc@),
            ),
            final(self).active == old(self).active,
    {
        let ghost names = names_of(names_lc@);
        let ghost pinned = names_of(pinned_lc@);
        let ghost order0 = self.order();
        let ghost colors0 = self.colors();
        let mut i: usize = 0;
        while i < names_lc.len()
            invariant
                i <= names_lc.len(),
                names == names_of(names_lc@),
                pinned == names_of(pinned_lc@),
                (self.order(), self.colors()) == append_new_spec(order0, colors0, names.take(i as int), pinned),
                self.active == old(self).active,
            decreases names_lc.len() - i,
        {
            let name = &names_lc[i];
            proof {
                assert(names.take(i + 1).drop_last() =~= names.take(i as int));
                assert(names.take(i + 1).last() == name@);
            }
            if list_contains(pinned_lc, name) {
            } else if list_contains(&self.discovered_order, name) {
            } else {
                let ghost before = self.discovered_order@;
                let owned = name.clone();
                self.discovered_order.push(owned);
                proof {
                    lemma_names_push(before, owned);
                }
                self.ensure_color(name);
            }
            i = i + 1;
        }
        proof {
            assert(names.take(names_lc.len() as int) =~= names);
        }
        if self.discovered_order.len() > DISCOVERY_CAP {
            let drop_count = self.discovered_order.len() - DISCOVERY_CAP;
            let ghost o = self.order();
            let ghost c = self.colors();
            let mut evicted: Vec<String> = Vec::new();
            let mut kept: Vec<String> = Vec::new();
            let mut j: usize = 0;
            while j < self.discovered_order.len()
                invariant
                    o == self.order(),
                    drop_count < o.len(),
                    j <= o.len(),
                    j <= drop_count ==> names_of(evicted@) == o.take(j as int) && kept@.len() == 0,
                    j > drop_count ==> names_of(evicted@) == o.take(drop_count as int)
                        && names_of(kept@) == o.subrange(drop_count as int, j as int),
                decreases o.len() - j,
            {
                let ghost ev0 = evicted@;
                let ghost kp0 = kept@;
                let n = self.discovered_order[j].clone();
                if j < drop_count {
                    evicted.push(n);
                    proof {
                        lemma_names_push(ev0, self.discovered_order@[j as int]);
                        assert(o.take(j + 1) =~= o.take(j as int).push(o[j as int]));
                    }
                } else {
                    kept.push(n);
                    proof {
                        lemma_names_push(kp0, self.discovered_order@[j as int]);
                        assert(o.subrange(drop_count as int, j + 1) =~= o.subrange(drop_count as int, j as int).push(o[j as int]));
                        if j == drop_count {
                            assert(o.subrange(drop_count as int, j as int).len() == 0);
                        }
                    }
                }
                j = j + 1;
            }
            proof {
                assert(o.subrange(drop_count as int, o.len() as int) =~= o.skip(drop_count as int));
            }
            let mut new_colors: Vec<(String, u8)> = Vec::new();
            let mut k: usize = 0;
            while k < self.assigned_color.len()
                invariant
                    c == self.colors(),
                    k <= c.len(),
                    pairs_of(new_colors@) == drop_keys(c.take(k as int), names_of(evicted@)),
                decreases c.len() - k,
            {
                let ghost nc0 = new_colors@;
                proof {
                    assert(c.take(k + 1).drop_last() =~= c.take(k as int));
                    assert(c.take(k + 1).last() == c[k as int]);
                }
                if !list_contains(&evicted, &self.assigned_color[k].0) {
                    let entry = (self.assigned_color[k].0.clone(), self.assigned_color[k].1);
                    new_colors.push(entry);
                    proof {
                        lemma_pairs_push(nc0, entry);
                    }
                }
                k = k + 1;
            }
            proof {
                assert(c.take(c.len() as int) =~= c);
            }
            self.discovered_order = kept;
            self.assigned_color = new_colors;
        }
    }

    /// Assign cycle colors to pinned process names so they share the same
    /// cycle as discovered apps. Skips names that already have a color.
    pub fn observe_pinned(&mut self, names_lc: &[String])
        ensures
            final(self).colors() == ensure_colors_spec(old(self).colors(), names_of(names_lc@)),
            final(self).discovered_order == old(self).discovered_order,
            final(self).active == old(self).active,
    {
        let ghost names = names_of(names_lc@);
        let ghost c0 = self.colors();
        let mut i: usize = 0;
        while i < names_lc.len()
            invariant
                i <= names_lc.len(),
                names == names_of(names_lc@),
                self.colors() == ensure_colors_spec(c0, names.take(i as int)),
                self.discovered_order == old(self).discovered_order,
                self.active == old(self).active,
            decreases names_lc.len() - i,
        {
            proof {
                assert(names.take(i + 1).drop_last() =~= names.take(i as int));
            }
            self.ensure_color(&names_lc[i]);
            i = i + 1;
        }
        proof {
            assert(names.take(names_lc.len() as int) =~= names);
        }
    }

    /// Replace the active session set wholesale.
    pub fn set_active(&mut self, names_lc: &[String])
        ensures
            final(self).active_set() == names_of(names_lc@).to_set(),
            final(self).discovered_order == old(self).discovered_order,
            final(self).assigned_color == old(self).assigned_color,
    {
        let mut v: Vec<String> = Vec::new();
        let mut i: usize = 0;
        while i < names_lc.len()
            invariant
                i <= names_lc.len(),
                names_of(v@) == names_of(names_lc@).take(i as int),
            decreases names_lc.len() - i,
        {
            let ghost v0 = v@;
            v.push(names_lc[i].clone());
            proof {
                lemma_names_push(v0, names_lc@[i as int]);
                assert(names_of(names_lc@).take(i + 1) =~= names_of(names_lc@).take(i as int).push(names_lc@[i as int]@));
            }
            i = i + 1;
        }
        proof {
            assert(names_of(names_lc@).take(names_lc.len() as int) =~= names_of(names_lc@));
        }
        self.active = v;
    }

    /// Look up the cycle color for a process name, or `None` if it has not
    /// been observed yet.
    pub fn color_for(&self, name_lc: &str) -> (r: Option<u8>)
        ensures
            r == color_lookup(self.colors(), name_lc@),
    {
        let key = String::from_str(name_lc);
        lookup_color(&self.assigned_color, &key)
    }

    /// True if the named process currently has an active audio session.
    pub fn is_active(&self, name_lc: &str) -> (r: bool)
        ensures
            r == self.active_set().contains(name_lc@),
    {
        let key = String::from_str(name_lc);
        list_contains(&self.active, &key)
    }
}

// ---------------------------------------------------------------------------
// Labels and slot resolution
// ---------------------------------------------------------------------------

/// The position of the last `'.'` in `s`, if any.
pub open spec fn last_dot(s: Seq<char>) -> Option<int>
    decreases s.len(),
{
    if s.len() == 0 {
        None
    } else if s.last() == '.' {
        Some(s.len() - 1)
    } else {
        last_dot(s.drop_last())
    }
}

/// ASCII upper-casing of one character (other characters unchanged).
pub open spec fn ascii_upper(c: char) -> char {
    if 'a' <= c <= 'z' {
        ((c as u32) - 32) as char
    } else {
        c
    }
}

/// LCD label derived from a process name: the part before the last `'.'`
/// (the whole name when there is none), with its first character
/// upper-cased (ASCII).
pub open spec fn derive_label_spec(name: Seq<char>) -> Seq<char> {
    let stem = match last_dot(name) {
        Some(i) => name.take(i),
        None => name,
    };
    if stem.len() == 0 {
        Seq::empty()
    } else {
        seq![ascii_upper(stem[0])] + stem.skip(1)
    }
}

/// The lowercase process names of all pinned apps.
pub open spec fn pinned_names(pinned: Seq<PinnedApp>) -> Seq<Seq<char>> {
    pinned.map_values(|p: PinnedApp| lowercase(p.process_name@))
}

/// The first pinned app, from position `i` on, whose fader is `fader`.
pub open spec fn find_fader(pinned: Seq<PinnedApp>, fader: u8, i: int) -> Option<int>
    decreases pinned.len() - i,
{
    if i < 0 || i >= pinned.len() {
        None
    } else if pinned[i].fader == fader {
        Some(i)
    } else {
        find_fader(pinned, fader, i + 1)
    }
}

/// The first pinned app, from position `i` on, whose lowercase name is
/// `name`.
pub open spec fn find_pinned_name(pinned: Seq<PinnedApp>, name: Seq<char>, i: int) -> Option<int>
    decreases pinned.len() - i,
{
    if i < 0 || i >= pinned.len() {
        None
    } else if lowercase(pinned[i].process_name@) == name {
        Some(i)
    } else {
        find_pinned_name(pinned, name, i + 1)
    }
}

/// The first position of `name` in `s`, from position `i` on.
pub open spec fn index_from(s: Seq<Seq<char>>, name: Seq<char>, i: int) -> Option<int>
    decreases s.len() - i,
{
    if i < 0 || i >= s.len() {
        None
    } else if s[i] == name {
        Some(i)
    } else {
        index_from(s, name, i + 1)
    }
}

/// The discovery order with every pinned name left out.
pub open spec fn unpinned_order(pinned: Seq<PinnedApp>, order: Seq<Seq<char>>) -> Seq<Seq<char>> {
    without(order, pinned_names(pinned))
}

/// The process a `discovered:N` slot resolves to.
pub open spec fn discovered_target_spec(pinned: Seq<PinnedApp>, order: Seq<Seq<char>>, slot: u8) -> Option<Seq<char>> {
    let f = unpinned_order(pinned, order);
    if (slot as int) < f.len() {
        Some(f[slot as int])
    } else {
        None
    }
}

/// The YAML target string that binds a process: `pinned:F` for a pinned
/// app (F its fader), else `discovered:N` for its position among the
/// unpinned discovered names.
pub open spec fn target_for_process_spec(pinned: Seq<PinnedApp>, order: Seq<Seq<char>>, name: Seq<char>) -> Option<Seq<char>> {
    match find_pinned_name(pinned, name, 0) {
        Some(i) => Some("pinned:"@ + crate::text::decimal(pinned[i].fader as nat)),
        None => match index_from(unpinned_order(pinned, order), name, 0) {
            Some(j) => Some("discovered:"@ + crate::text::decimal(j as nat)),
            None => None,
        },
    }
}

fn upper_ascii(c: char) -> (r: char)
    ensures
        r == ascii_upper(c),
{
    if 'a' <= c && c <= 'z' {
        let b = c as u8;
        ((b - 32) as char)
    } else {
        c
    }
}

/// Friendly LCD label for a process name: drop the extension and
/// capitalize the first letter, e.g. `"discord.exe"` -> `"Discord"`.
pub fn derive_label(process_name: &str) -> (r: String)
    ensures
        r@ == derive_label_spec(process_name@),
{
    let cs = chars_of(process_name);
    let mut i: usize = cs.len();
    assert(cs@.take(i as int) =~= cs@);
    while i > 0 && cs[i - 1] != '.'
        invariant
            i <= cs.len(),
            last_dot(cs@) == last_dot(cs@.take(i as int)),
        decreases i,
    {
        proof {
            assert(cs@.take(i as int).drop_last() =~= cs@.take(i - 1));
        }
        i = i - 1;
    }
    let end: usize = if i > 0 { i - 1 } else { cs.len() };
    proof {
        if i == 0 {
            assert(cs@.take(0) =~= Seq::<char>::empty());
        }
    }
    let mut out: Vec<char> = Vec::new();
    if end > 0 {
        out.push(upper_ascii(cs[0]));
        let mut j: usize = 1;
        while j < end
            invariant
                1 <= j <= end,
                end <= cs.len(),
                out@ == seq![ascii_upper(cs@[0])] + cs@.subrange(1, j as int),
            decreases end - j,
        {
            out.push(cs[j]);
            j = j + 1;
            assert(out@ =~= seq![ascii_upper(cs@[0])] + cs@.subrange(1, j as int));
        }
    }
    proof {
        let stem = match last_dot(cs@) {
            Some(k) => cs@.take(k),
            None => cs@,
        };
        assert(stem =~= cs@.take(end as int));
        if end > 0 {
            assert(stem.skip(1) =~= cs@.subrange(1, end as int));
        }
        assert(out@ =~= derive_label_spec(process_name@));
    }
    string_from_chars(&out)
}

/// The lowercase names of all pinned apps.
fn pinned_lc_names(pinned: &[PinnedApp]) -> (r: Vec<String>)
    ensures
        names_of(r@) == pinned_names(pinned@),
{
    let mut v: Vec<String> = Vec::new();
    let mut i: usize = 0;
    while i < pinned.len()
        invariant
            i <= pinned.len(),
            names_of(v@) == pinned_names(pinned@).take(i as int),
        decreases pinned.len() - i,
    {
        let ghost v0 = v@;
        let n = to_lowercase(pinned[i].process_name.as_str());
        v.push(n);
        proof {
            lemma_names_push(v0, n);
            assert(pinned_names(pinned@).take(i + 1) =~= pinned_names(pinned@).take(i as int).push(n@));
        }
        i = i + 1;
    }
    proof {
        assert(pinned_names(pinned@).take(pinned.len() as int) =~= pinned_names(pinned@));
    }
    v
}

/// The names of `order` that are not in `excluded`, in order.
fn without_names(order: &[String], excluded: &[String]) -> (r: Vec<String>)
    ensures
        names_of(r@) == without(names_of(order@), names_of(excluded@)),
{
    let mut v: Vec<String> = Vec::new();
    let mut i: usize = 0;
    while i < order.len()
        invariant
            i <= order.len(),
            names_of(v@) == without(names_of(order@).take(i as int), names_of(excluded@)),
        decreases order.len() - i,
    {
        let ghost v0 = v@;
        proof {
            assert(names_of(order@).take(i + 1).drop_last() =~= names_of(order@).take(i as int));
            assert(names_of(order@).take(i + 1).last() == order@[i as int]@);
        }
        if !list_contains(excluded, &order[i]) {
            let n = order[i].clone();
            v.push(n);
            proof {
                lemma_names_push(v0, n);
            }
        }
        i = i + 1;
    }
    proof {
        assert(names_of(order@).take(order.len() as int) =~= names_of(order@));
    }
    v
}

/// Resolve a `pinned:N` slot to its configured process name (lowercase):
/// the first pinned app on fader `fader`.
pub fn pinned_target(pinned: &[PinnedApp], fader: u8) -> (r: Option<String>)
    ensures
        r.is_some() == find_fader(pinned@, fader, 0).is_some(),
        r matches Some(n) ==> n@ == lowercase(pinned@[find_fader(pinned@, fader, 0).unwrap()].process_name@),
{
    let mut i: usize = 0;
    while i < pinned.len()
        invariant
            i <= pinned.len(),
            find_fader(pinned@, fader, 0) == find_fader(pinned@, fader, i as int),
        decreases pinned.len() - i,
    {
        if pinned[i].fader == fader {
            return Some(to_lowercase(pinned[i].process_name.as_str()));
        }
        i = i + 1;
    }
    None
}

/// Resolve a `discovered:N` slot to its current process name, skipping
/// pinned names.
pub fn discovered_target(pinned: &[PinnedApp], discovery: &DiscoveryState, slot: u8) -> (r: Option<String>)
    ensures
        r.is_some() == discovered_target_spec(pinned@, discovery.order(), slot).is_some(),
        r matches Some(n) ==> Some(n@) == discovered_target_spec(pinned@, discovery.order(), slot),
{
    let excluded = pinned_lc_names(pinned);
    let f = without_names(&discovery.discovered_order, &excluded);
    if (slot as usize) < f.len() {
        let n = f[slot as usize].clone();
        assert(names_of(f@)[slot as int] == n@);
        Some(n)
    } else {
        None
    }
}

/// Resolve an `auto` target: the Nth `auto`-bound control on the active
/// page maps to the Nth entry of the discovery FIFO (filtered of pinned
/// names).
pub fn auto_target(pinned: &[PinnedApp], discovery: &DiscoveryState, auto_strip_index: u8) -> (r: Option<String>)
    ensures
        r.is_some() == discovered_target_spec(pinned@, discovery.order(), auto_strip_index).is_some(),
        r matches Some(n) ==> Some(n@) == discovered_target_spec(pinned@, discovery.order(), auto_strip_index),
{
    discovered_target(pinned, discovery, auto_strip_index)
}

/// Given a session's process name (lowercase), the target string that
/// pages bind to (`"pinned:N"` or `"discovered:N"`), or `None` if the
/// session is neither pinned nor discovered.
pub fn target_for_process(pinned: &[PinnedApp], discovery: &DiscoveryState, process_name_lc: &str) -> (r: Option<String>)
    ensures
        r.is_some() == target_for_process_spec(pinned@, discovery.order(), process_name_lc@).is_some(),
        r matches Some(t) ==> Some(t@) == target_for_process_spec(pinned@, discovery.order(), process_name_lc@),
{
    let key = String::from_str(process_name_lc);
    let mut i: usize = 0;
    while i < pinned.len()
        invariant
            i <= pinned.len(),
            key@ == process_name_lc@,
            find_pinned_name(pinned@, key@, 0) == find_pinned_name(pinned@, key@, i as int),
        decreases pinned.len() - i,
    {
        let n = to_lowercase(pinned[i].process_name.as_str());
        if n == key {
            let mut t = String::from_str("pinned:");
            push_decimal(&mut t, pinned[i].fader as u64);
            return Some(t);
        }
        i = i + 1;
    }
    let excluded = pinned_lc_names(pinned);
    let f = without_names(&discovery.discovered_order, &excluded);
    assert(names_of(f@) == unpinned_order(pinned@, discovery.order()));
    let mut j: usize = 0;
    while j < f.len()
        invariant
            j <= f.len(),
            key@ == process_name_lc@,
            find_pinned_name(pinned@, key@, 0).is_none(),
            names_of(f@) == unpinned_order(pinned@, discovery.order()),
            index_from(names_of(f@), key@, 0) == index_from(names_of(f@), key@, j as int),
        decreases f.len() - j,
    {
        proof {
            assert(names_of(f@)[j as int] == f@[j as int]@);
        }
        if f[j] == key {
            let mut t = String::from_str("discovered:");
            push_decimal(&mut t, j as u64);
            return Some(t);
        }
        j = j + 1;
    }
    None
}

// ---------------------------------------------------------------------------
// Fader slot computation
// ---------------------------------------------------------------------------

/// A binding in the model: (fader, lowercase process name, label).
pub type BindingModel = (u8, Seq<char>, Seq<char>);

/// The LCD label of a pinned app: its display name, else the derived one.
pub open spec fn pin_label(p: PinnedApp) -> Seq<char> {
    match p.display_name {
        Some(d) => d@,
        None => derive_label_spec(p.process_name@),
    }
}

/// `p` asks for one of the eight faders.
pub open spec fn valid_pin(p: PinnedApp) -> bool {
    1 <= p.fader <= 8
}

/// The eight fader slots after the pinned pass: each valid pin claims its
/// fader (a later pin for the same fader replaces an earlier one).
pub open spec fn pin_table(pinned: Seq<PinnedApp>) -> Seq<Option<BindingModel>>
    decreases pinned.len(),
{
    if pinned.len() == 0 {
        Seq::new(8, |_i: int| None)
    } else {
        let t = pin_table(pinned.drop_last());
        let p = pinned.last();
        if valid_pin(p) {
            t.update(p.fader - 1, Some((p.fader, lowercase(p.process_name@), pin_label(p))))
        } else {
            t
        }
    }
}

/// The lowercase names of the pinned apps that ask for a valid fader.
pub open spec fn valid_pin_names(pinned: Seq<PinnedApp>) -> Seq<Seq<char>>
    decreases pinned.len(),
{
    if pinned.len() == 0 {
        Seq::empty()
    } else {
        let v = valid_pin_names(pinned.drop_last());
        if valid_pin(pinned.last()) {
            v.push(lowercase(pinned.last().process_name@))
        } else {
            v
        }
    }
}

/// Fill the empty slots from `slot` on with the names of `avail`, in order.
pub open spec fn fill_slots(t: Seq<Option<BindingModel>>, avail: Seq<Seq<char>>, slot: int) -> Seq<Option<BindingModel>>
    decreases 8 - slot,
{
    if slot < 0 || slot >= 8 || slot >= t.len() {
        t
    } else if t[slot] is Some || avail.len() == 0 {
        fill_slots(t, avail, slot + 1)
    } else {
        fill_slots(
            t.update(slot, Some(((slot + 1) as u8, avail[0], derive_label_spec(avail[0])))),
            avail.drop_first(),
            slot + 1,
        )
    }
}

/// The bindings present in a slot table, in slot order.
pub open spec fn present(t: Seq<Option<BindingModel>>) -> Seq<BindingModel>
    decreases t.len(),
{
    if t.len() == 0 {
        Seq::empty()
    } else {
        present(t.drop_last()) + match t.last() {
            Some(b) => seq![b],
            None => Seq::empty(),
        }
    }
}

/// The bindings `compute_slots` returns.
pub open spec fn compute_slots_spec(pinned: Seq<PinnedApp>, order: Seq<Seq<char>>) -> Seq<BindingModel> {
    present(fill_slots(pin_table(pinned), without(order, valid_pin_names(pinned)), 0))
}

/// The model of a binding.
pub open spec fn binding_model(b: SlotBinding) -> BindingModel {
    (
        b.fader,
        match b.process_name {
            Some(n) => n@,
            None => Seq::empty(),
        },
        b.display_name@,
    )
}

/// The model of a slot table.
pub open spec fn table_model(v: Seq<Option<SlotBinding>>) -> Seq<Option<BindingModel>> {
    v.map_values(|o: Option<SlotBinding>| match o {
        Some(b) => Some(binding_model(b)),
        None => None,
    })
}

/// Compute the mapping fader slot -> app from the pinned apps and the
/// current discovery order: pinned apps claim their fader, then unpinned
/// discovered names fill the free faders in order. At most 8 entries, in
/// fader order.
pub fn compute_slots(pinned: &[PinnedApp], discovery: &DiscoveryState) -> (r: Vec<SlotBinding>)
    ensures
        r@.map_values(|b: SlotBinding| binding_model(b)) == compute_slots_spec(pinned@, discovery.order()),
        forall|i: int| 0 <= i < r@.len() ==> (#[trigger] r@[i]).process_name is Some,
{
    let mut bindings: Vec<Option<SlotBinding>> = Vec::new();
    let mut k: usize = 0;
    while k < 8
        invariant
            k <= 8,
            bindings@.len() == k,
            forall|j: int| 0 <= j < k ==> bindings@[j] is None,
        decreases 8 - k,
    {
        bindings.push(None);
        k = k + 1;
    }
    assert(table_model(bindings@) =~= pin_table(pinned@.take(0)));
    let mut pinned_lc: Vec<String> = Vec::new();
    let mut i: usize = 0;
    while i < pinned.len()
        invariant
            i <= pinned.len(),
            bindings@.len() == 8,
            table_model(bindings@) == pin_table(pinned@.take(i as int)),
            names_of(pinned_lc@) == valid_pin_names(pinned@.take(i as int)),
            forall|j: int| 0 <= j < 8 ==> (#[trigger] bindings@[j] matches Some(b) ==> b.process_name is Some),
        decreases pinned.len() - i,
    {
        proof {
            assert(pinned@.take(i + 1).drop_last() =~= pinned@.take(i as int));
            assert(pinned@.take(i + 1).last() == pinned@[i as int]);
        }
        let pin = &pinned[i];
        if 1 <= pin.fader && pin.fader <= 8 {
            let name_lc = to_lowercase(pin.process_name.as_str());
            let display = match &pin.display_name {
                Some(d) => d.clone(),
                None => derive_label(pin.process_name.as_str()),
            };
            let ghost pl0 = pinned_lc@;
            let ghost b0 = bindings@;
            let b = SlotBinding { fader: pin.fader, process_name: Some(name_lc.clone()), display_name: display };
            bindings.set((pin.fader - 1) as usize, Some(b));
            pinned_lc.push(name_lc);
            proof {
                lemma_names_push(pl0, name_lc);
                assert(table_model(bindings@) =~= table_model(b0).update(pin.fader - 1, Some(binding_model(b))));
            }
        }
        i = i + 1;
    }
    proof {
        assert(pinned@.take(pinned.len() as int) =~= pinned@);
    }
    let avail = without_names(&discovery.discovered_order, &pinned_lc);
    let ghost t0 = table_model(bindings@);
    let ghost a0 = names_of(avail@);
    let mut next: usize = 0;
    let mut slot: usize = 0;
    assert(a0.skip(0) =~= a0);
    while slot < 8
        invariant
            slot <= 8,
            next <= avail@.len(),
            bindings@.len() == 8,
            a0 == names_of(avail@),
            fill_slots(t0, a0, 0) == fill_slots(table_model(bindings@), a0.skip(next as int), slot as int),
            forall|j: int| 0 <= j < 8 ==> (#[trigger] bindings@[j] matches Some(b) ==> b.process_name is Some),
        decreases 8 - slot,
    {
        let ghost b0 = bindings@;
        if bindings[slot].is_none() && next < avail.len() {
            let name = avail[next].clone();
            let label = derive_label(name.as_str());
            let b = SlotBinding { fader: (slot + 1) as u8, process_name: Some(name), display_name: label };
            bindings.set(slot, Some(b));
            proof {
                assert(a0.skip(next as int)[0] == avail@[next as int]@);
                assert(a0.skip(next as int).drop_first() =~= a0.skip(next + 1));
                assert(table_model(bindings@) =~= table_model(b0).update(slot as int, Some(binding_model(b))));
            }
            next = next + 1;
        } else {
            proof {
                assert(table_model(b0)[slot as int] == match b0[slot as int] {
                    Some(b) => Some(binding_model(b)),
                    None => None,
                });
            }
        }
        slot = slot + 1;
    }
    let mut out: Vec<SlotBinding> = Vec::new();
    let mut j: usize = 0;
    let ghost tf = table_model(bindings@);
    while j < 8
        invariant
            j <= 8,
            bindings@.len() == 8,
            tf == table_model(bindings@),
            out@.map_values(|b: SlotBinding| binding_model(b)) == present(tf.take(j as int)),
            forall|i: int| 0 <= i < out@.len() ==> (#[trigger] out@[i]).process_name is Some,
            forall|i: int| 0 <= i < 8 ==> (#[trigger] bindings@[i] matches Some(b) ==> b.process_name is Some),
        decreases 8 - j,
    {
        let ghost o0 = out@;
        proof {
            assert(tf.take(j + 1).drop_last() =~= tf.take(j as int));
            assert(tf.take(j + 1).last() == tf[j as int]);
        }
        match &bindings[j] {
            Some(b) => {
                let copy = b.duplicate();
                out.push(copy);
                proof {
                    assert(out@.map_values(|b: SlotBinding| binding_model(b)) =~= o0.map_values(|b: SlotBinding| binding_model(b)) + seq![binding_model(copy)]);
                }
            },
            None => {
                assert(out@.map_values(|b: SlotBinding| binding_model(b)) =~= o0.map_values(|b: SlotBinding| binding_model(b)) + Seq::<BindingModel>::empty());
            },
        }
        j = j + 1;
    }
    proof {
        assert(tf.take(8) =~= tf);
        assert(names_of(pinned_lc@) == valid_pin_names(pinned@));
        assert(a0 == without(discovery.order(), valid_pin_names(pinned@)));
        assert(a0.skip(0) =~= a0);
    }
    out
}

// ---------------------------------------------------------------------------
// Laws
// ---------------------------------------------------------------------------

proof fn lemma_lookup_iff_key(c: Seq<(Seq<char>, u8)>, k: Seq<char>)
    ensures
        color_lookup(c, k).is_some() == keys_of(c).contains(k),
    decreases c.len(),
{
    if c.len() > 0 {
        lemma_lookup_iff_key(c.drop_last(), k);
        assert(keys_of(c.drop_last()) =~= keys_of(c).drop_last());
        assert(keys_of(c)[c.len() - 1] == c.last().0);
        if keys_of(c.drop_last()).contains(k) {
            let j = choose|j: int| 0 <= j < keys_of(c.drop_last()).len() && keys_of(c.drop_last())[j] == k;
            assert(keys_of(c)[j] == k);
        }
        if keys_of(c).contains(k) {
            let j = choose|j: int| 0 <= j < keys_of(c).len() && keys_of(c)[j] == k;
            if j < c.len() - 1 {
                assert(keys_of(c.drop_last())[j] == k);
            }
        }
    }
}

proof fn lemma_lookup_in_cycle(c: Seq<(Seq<char>, u8)>, k: Seq<char>)
    requires
        forall|i: int| 0 <= i < c.len() ==> 1 <= #[trigger] c[i].1 <= 7,
    ensures
        color_lookup(c, k) matches Some(v) ==> 1 <= v <= 7,
    decreases c.len(),
{
    if c.len() > 0 {
        assert(c.last() == c[c.len() - 1]);
        assert forall|i: int| 0 <= i < c.drop_last().len() implies 1 <= #[trigger] c.drop_last()[i].1 <= 7 by {
            assert(c.drop_last()[i] == c[i]);
        }
        lemma_lookup_in_cycle(c.drop_last(), k);
    }
}

/// Giving a color preserves consistency of the color table, and a name
/// that had a color keeps it.
proof fn lemma_ensure_color(o: Seq<Seq<char>>, c: Seq<(Seq<char>, u8)>, n: Seq<char>)
    requires
        keys_of(c).no_duplicates(),
        forall|i: int| 0 <= i < c.len() ==> 1 <= #[trigger] c[i].1 <= 7,
    ensures
        keys_of(ensure_color_spec(c, n)).no_duplicates(),
        forall|i: int| 0 <= i < ensure_color_spec(c, n).len() ==> 1 <= #[trigger] ensure_color_spec(c, n)[i].1 <= 7,
        color_lookup(ensure_color_spec(c, n), n).is_some(),
        forall|k: Seq<char>| #[trigger] color_lookup(c, k).is_some() ==> color_lookup(ensure_color_spec(c, n), k) == color_lookup(c, k),
{
    if color_lookup(c, n).is_none() {
        let c2 = c.push((n, next_cycle_color(c.len())));
        assert(c2.drop_last() =~= c);
        lemma_lookup_iff_key(c, n);
        assert(keys_of(c2) =~= keys_of(c).push(n));
        assert forall|k: Seq<char>| #[trigger] color_lookup(c, k).is_some() implies color_lookup(c2, k) == color_lookup(c, k) by {
            if k == n {
            }
        }
    }
}

/// Appending new names keeps the state consistent, keeps the old order as
/// a prefix followed by exactly the fresh names, and keeps every color.
proof fn lemma_append_new(o: Seq<Seq<char>>, c: Seq<(Seq<char>, u8)>, names: Seq<Seq<char>>, pinned: Seq<Seq<char>>)
    requires
        wf_model(o, c),
    ensures
        wf_model(append_new_spec(o, c, names, pinned).0, append_new_spec(o, c, names, pinned).1),
        append_new_spec(o, c, names, pinned).0 == o + fresh_spec(o, names, pinned),
        forall|k: Seq<char>| #[trigger] color_lookup(c, k).is_some() ==> color_lookup(append_new_spec(o, c, names, pinned).1, k) == color_lookup(c, k),
    decreases names.len(),
{
    if names.len() > 0 {
        let (o1, c1) = append_new_spec(o, c, names.drop_last(), pinned);
        lemma_append_new(o, c, names.drop_last(), pinned);
        let n = names.last();
        if !(pinned.contains(n) || o1.contains(n)) {
            lemma_ensure_color(o1, c1, n);
            let o2 = o1.push(n);
            let c2 = ensure_color_spec(c1, n);
            assert forall|i: int| 0 <= i < o2.len() implies color_lookup(c2, #[trigger] o2[i]).is_some() by {
                if i < o1.len() {
                    assert(o2[i] == o1[i]);
                }
            }
            assert(o2 =~= o + fresh_spec(o, names, pinned));
        }
    }
}

proof fn lemma_drop_keys_lookup(c: Seq<(Seq<char>, u8)>, g: Seq<Seq<char>>, k: Seq<char>)
    ensures
        color_lookup(drop_keys(c, g), k) == (if g.contains(k) { None } else { color_lookup(c, k) }),
    decreases c.len(),
{
    if c.len() > 0 {
        lemma_drop_keys_lookup(c.drop_last(), g, k);
        if !g.contains(c.last().0) {
            assert(drop_keys(c, g).drop_last() =~= drop_keys(c.drop_last(), g));
        }
    }
}

proof fn lemma_drop_keys_wf(c: Seq<(Seq<char>, u8)>, g: Seq<Seq<char>>)
    requires
        keys_of(c).no_duplicates(),
        forall|i: int| 0 <= i < c.len() ==> 1 <= #[trigger] c[i].1 <= 7,
    ensures
        keys_of(drop_keys(c, g)).no_duplicates(),
        forall|i: int| 0 <= i < drop_keys(c, g).len() ==> 1 <= #[trigger] drop_keys(c, g)[i].1 <= 7,
    decreases c.len(),
{
    if c.len() > 0 {
        let c0 = c.drop_last();
        assert(keys_of(c0) =~= keys_of(c).drop_last());
        assert forall|i: int| 0 <= i < c0.len() implies 1 <= #[trigger] c0[i].1 <= 7 by {
            assert(c0[i] == c[i]);
        }
        lemma_drop_keys_wf(c0, g);
        if !g.contains(c.last().0) {
            let d0 = drop_keys(c0, g);
            let d = d0.push(c.last());
            let k = c.last().0;
            lemma_drop_keys_lookup(c0, g, k);
            lemma_lookup_iff_key(c0, k);
            lemma_lookup_iff_key(d0, k);
            assert(keys_of(c)[c.len() - 1] == k);
            assert(!keys_of(c0).contains(k));
            assert(keys_of(d) =~= keys_of(d0).push(k));
            assert(c.last() == c[c.len() - 1]);
        }
    }
}

/// After `observe` the discovery state is consistent again (given it was
/// before): no name is listed twice, each name has exactly one color in
/// 1..=7, every listed name has a color, and at most `DISCOVERY_CAP`
/// names are listed.
pub proof fn law_observe_keeps_consistency(
    order: Seq<Seq<char>>,
    colors: Seq<(Seq<char>, u8)>,
    names: Seq<Seq<char>>,
    pinned: Seq<Seq<char>>,
)
    requires
        wf_model(order, colors),
    ensures
        wf_model(observe_spec(order, colors, names, pinned).0, observe_spec(order, colors, names, pinned).1),
        observe_spec(order, colors, names, pinned).0.len() <= DISCOVERY_CAP,
{
    lemma_append_new(order, colors, names, pinned);
    let (o1, c1) = append_new_spec(order, colors, names, pinned);
    if o1.len() > DISCOVERY_CAP {
        let k = (o1.len() - DISCOVERY_CAP) as int;
        let o2 = o1.skip(k);
        let g = o1.take(k);
        lemma_drop_keys_wf(c1, g);
        let c2 = drop_keys(c1, g);
        assert forall|i: int, j: int| 0 <= i < o2.len() && 0 <= j < o2.len() && i != j implies o2[i] != o2[j] by {
            assert(o2[i] == o1[i + k]);
            assert(o2[j] == o1[j + k]);
        }
        assert forall|i: int| 0 <= i < o2.len() implies color_lookup(c2, #[trigger] o2[i]).is_some() by {
            assert(o2[i] == o1[i + k]);
            lemma_drop_keys_lookup(c1, g, o2[i]);
            if g.contains(o2[i]) {
                let j = choose|j: int| 0 <= j < g.len() && g[j] == o2[i];
                assert(o1[j] == o1[i + k]);
            }
        }
    }
}

/// `observe` never moves a name already listed: the new order is the old
/// order followed by the fresh names (those of `names` neither pinned nor
/// already listed, first occurrence only), minus the oldest names beyond
/// `DISCOVERY_CAP`. No pinned name is ever appended.
pub proof fn law_observe_appends_in_order(
    order: Seq<Seq<char>>,
    colors: Seq<(Seq<char>, u8)>,
    names: Seq<Seq<char>>,
    pinned: Seq<Seq<char>>,
)
    requires
        wf_model(order, colors),
    ensures
        observe_spec(order, colors, names, pinned).0 == (order + fresh_spec(order, names, pinned)).skip(
            evict_count((order + fresh_spec(order, names, pinned)).len()) as int,
        ),
        forall|n: Seq<char>| #[trigger] fresh_spec(order, names, pinned).contains(n) ==> names.contains(n) && !pinned.contains(n) && !order.contains(n),
{
    lemma_append_new(order, colors, names, pinned);
    lemma_fresh_members(order, names, pinned);
}

proof fn lemma_fresh_members(order: Seq<Seq<char>>, names: Seq<Seq<char>>, pinned: Seq<Seq<char>>)
    ensures
        forall|n: Seq<char>| #[trigger] fresh_spec(order, names, pinned).contains(n) ==> names.contains(n) && !pinned.contains(n) && !order.contains(n),
    decreases names.len(),
{
    if names.len() > 0 {
        lemma_fresh_members(order, names.drop_last(), pinned);
        let f = fresh_spec(order, names.drop_last(), pinned);
        assert forall|n: Seq<char>| #[trigger] fresh_spec(order, names, pinned).contains(n) implies names.contains(n) && !pinned.contains(n) && !order.contains(n) by {
            if f.contains(n) {
                let j = choose|j: int| 0 <= j < names.drop_last().len() && names.drop_last()[j] == n;
                assert(names[j] == n);
            } else {
                assert(fresh_spec(order, names, pinned) == f.push(names.last()));
                let j = choose|j: int| 0 <= j < f.push(names.last()).len() && f.push(names.last())[j] == n;
                assert(n == names.last());
                assert(names[names.len() - 1] == n);
                if order.contains(n) {
                    let i = choose|i: int| 0 <= i < order.len() && order[i] == n;
                    assert((order + f)[i] == n);
                }
            }
        }
    }
}

/// A name that `observe` does not evict keeps the color it had; a name it
/// evicts loses its color.
pub proof fn law_observe_colors_stable(
    order: Seq<Seq<char>>,
    colors: Seq<(Seq<char>, u8)>,
    names: Seq<Seq<char>>,
    pinned: Seq<Seq<char>>,
    k: Seq<char>,
)
    requires
        wf_model(order, colors),
    ensures
        ({
            let appended = order + fresh_spec(order, names, pinned);
            let evicted = appended.take(evict_count(appended.len()) as int);
            &&& (color_lookup(colors, k).is_some() && !evicted.contains(k)) ==> color_lookup(
                observe_spec(order, colors, names, pinned).1,
                k,
            ) == color_lookup(colors, k)
            &&& evicted.contains(k) ==> color_lookup(observe_spec(order, colors, names, pinned).1, k).is_none()
        }),
{
    lemma_append_new(order, colors, names, pinned);
    let (o1, c1) = append_new_spec(order, colors, names, pinned);
    if o1.len() > DISCOVERY_CAP {
        let g = o1.take((o1.len() - DISCOVERY_CAP) as int);
        lemma_drop_keys_lookup(c1, g, k);
    } else {
        assert(o1.take(0) =~= Seq::<Seq<char>>::empty());
    }
}

/// The last pinned app that asks for fader `f`.
pub open spec fn last_pin_for(pinned: Seq<PinnedApp>, f: u8) -> Option<PinnedApp>
    decreases pinned.len(),
{
    if pinned.len() == 0 {
        None
    } else if valid_pin(pinned.last()) && pinned.last().fader == f {
        Some(pinned.last())
    } else {
        last_pin_for(pinned.drop_last(), f)
    }
}

/// Eight slots, each binding sitting at the slot of its own fader.
pub open spec fn table_wf(t: Seq<Option<BindingModel>>) -> bool {
    t.len() == 8 && forall|i: int| 0 <= i < 8 ==> (#[trigger] t[i] matches Some(b) ==> b.0 == i + 1)
}

proof fn lemma_pin_table(pinned: Seq<PinnedApp>)
    ensures
        table_wf(pin_table(pinned)),
        forall|f: u8| 1 <= f <= 8 ==> pin_table(pinned)[f - 1] == match #[trigger] last_pin_for(pinned, f) {
            Some(p) => Some((f, lowercase(p.process_name@), pin_label(p))),
            None => None,
        },
    decreases pinned.len(),
{
    if pinned.len() > 0 {
        lemma_pin_table(pinned.drop_last());
        let t0 = pin_table(pinned.drop_last());
        assert forall|f: u8| 1 <= f <= 8 implies pin_table(pinned)[f - 1] == match #[trigger] last_pin_for(pinned, f) {
            Some(p) => Some((f, lowercase(p.process_name@), pin_label(p))),
            None => None,
        } by {
            assert(t0[f - 1] == match last_pin_for(pinned.drop_last(), f) {
                Some(p) => Some((f, lowercase(p.process_name@), pin_label(p))),
                None => None,
            });
        }
    } else {
        assert forall|f: u8| 1 <= f <= 8 implies pin_table(pinned)[f - 1] == match #[trigger] last_pin_for(pinned, f) {
            Some(p) => Some((f, lowercase(p.process_name@), pin_label(p))),
            None => None,
        } by {
            assert(pin_table(pinned)[f - 1] is None);
        }
    }
}

proof fn lemma_fill_slots(t: Seq<Option<BindingModel>>, avail: Seq<Seq<char>>, slot: int)
    requires
        table_wf(t),
        0 <= slot,
    ensures
        table_wf(fill_slots(t, avail, slot)),
        forall|i: int| 0 <= i < 8 && t[i] is Some ==> #[trigger] fill_slots(t, avail, slot)[i] == t[i],
    decreases 8 - slot,
{
    if slot < 8 && !(t[slot] is Some || avail.len() == 0) {
        let t2 = t.update(slot, Some(((slot + 1) as u8, avail[0], derive_label_spec(avail[0]))));
        lemma_fill_slots(t2, avail.drop_first(), slot + 1);
    } else if slot < 8 {
        lemma_fill_slots(t, avail, slot + 1);
    }
}

proof fn lemma_present(t: Seq<Option<BindingModel>>)
    requires
        t.len() <= 8,
        forall|i: int| 0 <= i < t.len() ==> (#[trigger] t[i] matches Some(b) ==> b.0 == i + 1),
    ensures
        present(t).len() <= t.len(),
        forall|i: int| 0 <= i < present(t).len() ==> 1 <= (#[trigger] present(t)[i]).0 <= t.len(),
        forall|i: int, j: int| 0 <= i < j < present(t).len() ==> present(t)[i].0 < present(t)[j].0,
        forall|i: int| 0 <= i < t.len() && (#[trigger] t[i]) is Some ==> present(t).contains(t[i].unwrap()),
    decreases t.len(),
{
    if t.len() > 0 {
        let t0 = t.drop_last();
        assert forall|i: int| 0 <= i < t0.len() implies (#[trigger] t0[i] matches Some(b) ==> b.0 == i + 1) by {
            assert(t0[i] == t[i]);
        }
        lemma_present(t0);
        let p0 = present(t0);
        assert forall|i: int| 0 <= i < t.len() && (#[trigger] t[i]) is Some implies present(t).contains(t[i].unwrap()) by {
            if i < t.len() - 1 {
                assert(t0[i] == t[i]);
                let k = choose|k: int| 0 <= k < p0.len() && p0[k] == t0[i].unwrap();
                assert(present(t)[k] == p0[k]);
            } else {
                assert(present(t)[p0.len() as int] == t.last().unwrap());
            }
        }
        if t.last() is Some {
            assert(t.last() == t[t.len() - 1]);
            assert forall|i: int| 0 <= i < present(t).len() implies 1 <= (#[trigger] present(t)[i]).0 <= t.len() by {
                if i < p0.len() {
                    assert(present(t)[i] == p0[i]);
                }
            }
            assert forall|i: int, j: int| 0 <= i < j < present(t).len() implies present(t)[i].0 < present(t)[j].0 by {
                assert(present(t)[i] == p0[i]);
                if j < p0.len() {
                    assert(present(t)[j] == p0[j]);
                }
            }
        } else {
            assert(present(t) =~= p0);
        }
    }
}

/// `compute_slots` yields at most eight bindings, in strictly increasing
/// fader order within 1..=8, and every fader claimed by a pinned app is
/// bound to that app (the last one listed for that fader) with its label.
pub proof fn law_compute_slots_pinned_keep_their_slots(pinned: Seq<PinnedApp>, order: Seq<Seq<char>>)
    ensures
        compute_slots_spec(pinned, order).len() <= 8,
        forall|i: int| 0 <= i < compute_slots_spec(pinned, order).len() ==> 1 <= (#[trigger] compute_slots_spec(pinned, order)[i]).0 <= 8,
        forall|i: int, j: int| 0 <= i < j < compute_slots_spec(pinned, order).len() ==> compute_slots_spec(pinned, order)[i].0 < compute_slots_spec(pinned, order)[j].0,
        forall|f: u8| 1 <= f <= 8 ==> (#[trigger] last_pin_for(pinned, f) matches Some(p) ==> compute_slots_spec(pinned, order).contains((f, lowercase(p.process_name@), pin_label(p)))),
{
    let t = pin_table(pinned);
    lemma_pin_table(pinned);
    let avail = without(order, valid_pin_names(pinned));
    lemma_fill_slots(t, avail, 0);
    let t2 = fill_slots(t, avail, 0);
    lemma_present(t2);
    assert forall|f: u8| 1 <= f <= 8 implies (#[trigger] last_pin_for(pinned, f) matches Some(p) ==> compute_slots_spec(pinned, order).contains((f, lowercase(p.process_name@), pin_label(p)))) by {
        if last_pin_for(pinned, f) is Some {
            assert(t[f - 1] is Some);
            assert(t2[f - 1] == t[f - 1]);
        }
    }
}


proof fn lemma_without(order: Seq<Seq<char>>, excluded: Seq<Seq<char>>)
    ensures
        forall|k: int| 0 <= k < without(order, excluded).len() ==>
            !excluded.contains(#[trigger] without(order, excluded)[k]) && order.contains(without(order, excluded)[k]),
        order.no_duplicates() ==> without(order, excluded).no_duplicates(),
    decreases order.len(),
{
    if order.len() > 0 {
        let rest = order.drop_last();
        lemma_without(rest, excluded);
        let w = without(rest, excluded);
        assert forall|k: int| 0 <= k < w.len() implies order.contains(#[trigger] w[k]) by {
            let j = choose|j: int| 0 <= j < rest.len() && rest[j] == w[k];
            assert(order[j] == rest[j]);
        }
        if !excluded.contains(order.last()) {
            let w2 = w.push(order.last());
            assert forall|k: int| 0 <= k < w2.len() implies
                !excluded.contains(#[trigger] w2[k]) && order.contains(w2[k]) by {
                if k < w.len() {
                    assert(w2[k] == w[k]);
                } else {
                    assert(order[order.len() - 1] == order.last());
                }
            }
            if order.no_duplicates() {
                assert(rest.no_duplicates()) by {
                    assert forall|a: int, b: int| 0 <= a < rest.len() && 0 <= b < rest.len() && a != b
                        implies rest[a] != rest[b] by {
                        assert(rest[a] == order[a] && rest[b] == order[b]);
                    }
                }
                assert forall|a: int, b: int| 0 <= a < w2.len() && 0 <= b < w2.len() && a != b
                    implies w2[a] != w2[b] by {
                    if a < w.len() && b < w.len() {
                        assert(w2[a] == w[a] && w2[b] == w[b]);
                    } else if a < w.len() {
                        let j = choose|j: int| 0 <= j < rest.len() && rest[j] == w[a];
                        assert(order[j] == rest[j]);
                        assert(w2[a] == w[a]);
                        assert(order[order.len() - 1] == order.last());
                    } else if b < w.len() {
                        let j = choose|j: int| 0 <= j < rest.len() && rest[j] == w[b];
                        assert(order[j] == rest[j]);
                        assert(w2[b] == w[b]);
                        assert(order[order.len() - 1] == order.last());
                    }
                }
            }
        } else if order.no_duplicates() {
            assert(rest.no_duplicates()) by {
                assert forall|a: int, b: int| 0 <= a < rest.len() && 0 <= b < rest.len() && a != b
                    implies rest[a] != rest[b] by {
                    assert(rest[a] == order[a] && rest[b] == order[b]);
                }
            }
        }
    }
}

proof fn lemma_index_from_found(s: Seq<Seq<char>>, name: Seq<char>, i: int)
    requires
        0 <= i,
    ensures
        index_from(s, name, i) matches Some(m) ==> i <= m < s.len() && s[m] == name,
        index_from(s, name, i) is None ==> forall|j: int| i <= j < s.len() ==> s[j] != name,
    decreases s.len() - i,
{
    if i < s.len() {
        lemma_index_from_found(s, name, i + 1);
    }
}

proof fn lemma_find_pinned_name_found(pinned: Seq<PinnedApp>, name: Seq<char>, i: int)
    requires
        0 <= i,
    ensures
        find_pinned_name(pinned, name, i) matches Some(m) ==> pinned_names(pinned).contains(name),
    decreases pinned.len() - i,
{
    if i < pinned.len() {
        lemma_find_pinned_name_found(pinned, name, i + 1);
        if lowercase(pinned[i].process_name@) == name {
            assert(pinned_names(pinned)[i] == name);
        }
    }
}

/// For a discovery order that lists no name twice, discovery slot `slot`
/// holds a process exactly when that process's binding target is
/// `discovered:<slot>`.
pub proof fn law_discovered_slot_matches_target(pinned: Seq<PinnedApp>, order: Seq<Seq<char>>, slot: u8, name: Seq<char>)
    requires
        order.no_duplicates(),
    ensures
        discovered_target_spec(pinned, order, slot) == Some(name)
            <==> target_for_process_spec(pinned, order, name) == Some("discovered:"@ + decimal(slot as nat)),
{
    let f = unpinned_order(pinned, order);
    lemma_without(order, pinned_names(pinned));
    lemma_index_from_found(f, name, 0);
    lemma_find_pinned_name_found(pinned, name, 0);
    let target = "discovered:"@ + decimal(slot as nat);
    if discovered_target_spec(pinned, order, slot) == Some(name) {
        assert(f[slot as int] == name);
        assert(!pinned_names(pinned).contains(name));
        if let Some(m) = index_from(f, name, 0) {
            assert(f[m] == f[slot as int]);
        }
    }
    if target_for_process_spec(pinned, order, name) == Some(target) {
        reveal_strlit("discovered:");
        reveal_strlit("pinned:");
        if let Some(i) = find_pinned_name(pinned, name, 0) {
            let p = "pinned:"@ + decimal(pinned[i].fader as nat);
            assert(p[0] == 'p');
            assert(target[0] == 'd');
        } else {
            let j = index_from(f, name, 0).unwrap();
            let t2 = "discovered:"@ + decimal(j as nat);
            assert(t2.skip(11) =~= decimal(j as nat));
            assert(target.skip(11) =~= decimal(slot as nat));
            lemma_decimal_injective(j as nat, slot as nat);
        }
    }
}

} // verus!
