//! How a page binds its controls to the Windows audio driver: which
//! control carries an action, which fader strip it is, and which process
//! and LCD label/color a strip resolves to.

use vstd::prelude::*;

use crate::config::{control_lookup, get_control, ControlMapping, PageConfig};
use crate::control_mapping::{midi_spec_of, ControlMappingDB, MidiSpec};
use crate::params::{first_str, ParamValue};
use crate::text::{char_range, chars_of, is_prefix, parse_u8, parse_u8_spec, starts_with, str_eq, trim_chars, trimmed};
use crate::winaudio::actions::{parse_session_target, session_target_spec, SessionTarget};
use crate::winaudio::mapping::{
    color_lookup, derive_label, derive_label_spec, discovered_target, discovered_target_spec,
    find_fader, find_pinned_name, pin_label, pinned_target, DiscoveryState, PinnedApp,
};
use crate::text::{decimal, lowercase, push_decimal};
use vstd::string::StringExecFns;

verus! {

/// Driver name used for `app: "winaudio"` in control bindings.
pub const DRIVER_NAME: &'static str = "winaudio";

/// Driver configuration: the apps pinned to fader slots.
#[derive(Debug, Clone)]
pub struct WinAudioConfig {
    pub pinned_apps: Vec<PinnedApp>,
}

/// The binding targets this driver.
pub open spec fn is_winaudio(m: ControlMapping) -> bool {
    m.app@ == DRIVER_NAME@
}

/// The binding's action is `action`.
pub open spec fn has_action(m: ControlMapping, action: Seq<char>) -> bool {
    m.action matches Some(a) && a@ == action
}

/// Some control of the page is bound to this driver.
pub open spec fn page_uses_winaudio_spec(page: PageConfig) -> bool {
    match page.controls {
        Some(c) => exists|i: int| 0 <= i < c@.len() && is_winaudio(#[trigger] c@[i].1),
        None => false,
    }
}

fn binding_is_winaudio(m: &ControlMapping) -> (r: bool)
    ensures
        r == is_winaudio(*m),
{
    str_eq(m.app.as_str(), DRIVER_NAME)
}

fn binding_has_action(m: &ControlMapping, action: &str) -> (r: bool)
    ensures
        r == has_action(*m, action@),
{
    match &m.action {
        Some(a) => str_eq(a.as_str(), action),
        None => false,
    }
}

/// True if at least one control on `page` binds `app: "winaudio"`; such a
/// page gets state refreshes and dynamic LCD rendering whatever its name.
pub fn page_uses_winaudio(page: &PageConfig) -> (r: bool)
    ensures
        r == page_uses_winaudio_spec(*page),
{
    let controls = match &page.controls {
        Some(c) => c,
        None => return false,
    };
    let mut i: usize = 0;
    while i < controls.len()
        invariant
            i <= controls.len(),
            page.controls == Some(*controls),
            forall|j: int| 0 <= j < i ==> !is_winaudio(#[trigger] controls@[j].1),
        decreases controls.len() - i,
    {
        if binding_is_winaudio(&controls[i].1) {
            assert(is_winaudio(page.controls.unwrap()@[i as int].1));
            return true;
        }
        i = i + 1;
    }
    false
}

// ---------------------------------------------------------------------------
// Strip numbers and `auto` bindings
// ---------------------------------------------------------------------------

/// The strip number of a control id `fader<N>` or `mute<N>` (N parsed as a
/// `u8`, in 1..=8).
pub open spec fn strip_index_spec(id: Seq<char>) -> Option<u8> {
    let suffix = if is_prefix("fader"@, id) {
        Some(id.skip("fader"@.len() as int))
    } else if is_prefix("mute"@, id) {
        Some(id.skip("mute"@.len() as int))
    } else {
        None
    };
    match suffix {
        Some(s) => match parse_u8_spec(s) {
            Some(n) => if 1 <= n <= 8 { Some(n) } else { None },
            None => None,
        },
        None => None,
    }
}

/// Parse the strip number from a control id like `"fader4"` or `"mute4"`:
/// 1..=8 for strip controls, `None` for anything else (`"fader_master"`,
/// `"flip"`, `"fader9"`).
pub fn strip_index_of(control_id: &str) -> (r: Option<u8>)
    ensures
        r == strip_index_spec(control_id@),
{
    let cs = chars_of(control_id);
    let fader = chars_of("fader");
    let mute = chars_of("mute");
    let suffix = if starts_with(&cs, &fader) {
        char_range(&cs, fader.len(), cs.len())
    } else if starts_with(&cs, &mute) {
        char_range(&cs, mute.len(), cs.len())
    } else {
        return None;
    };
    match parse_u8(&suffix) {
        Some(n) => if 1 <= n && n <= 8 { Some(n) } else { None },
        None => None,
    }
}

/// ASCII lower-casing of one character (other characters unchanged).
pub open spec fn ascii_lower(c: char) -> char {
    if 'A' <= c <= 'Z' {
        ((c as u32) + 32) as char
    } else {
        c
    }
}

/// Equality up to ASCII case (`str::eq_ignore_ascii_case`).
pub open spec fn eq_ignore_ascii_case(a: Seq<char>, b: Seq<char>) -> bool {
    a.len() == b.len() && forall|i: int| 0 <= i < a.len() ==> ascii_lower(#[trigger] a[i]) == ascii_lower(b[i])
}

fn lower_ascii(c: char) -> (r: char)
    ensures
        r == ascii_lower(c),
{
    if 'A' <= c && c <= 'Z' {
        let b = c as u8;
        ((b + 32) as char)
    } else {
        c
    }
}

fn chars_eq_ignore_ascii_case(a: &[char], b: &[char]) -> (r: bool)
    ensures
        r == eq_ignore_ascii_case(a@, b@),
{
    if a.len() != b.len() {
        return false;
    }
    let mut i: usize = 0;
    while i < a.len()
        invariant
            a.len() == b.len(),
            i <= a.len(),
            forall|j: int| 0 <= j < i ==> ascii_lower(#[trigger] a@[j]) == ascii_lower(b@[j]),
        decreases a.len() - i,
    {
        if lower_ascii(a[i]) != lower_ascii(b[i]) {
            return false;
        }
        i = i + 1;
    }
    true
}

/// The binding is `winaudio.<action>` with first parameter `"auto"`
/// (surrounding spaces and ASCII case ignored).
pub open spec fn is_auto_spec(m: ControlMapping, action: Seq<char>) -> bool {
    &&& is_winaudio(m)
    &&& has_action(m, action)
    &&& m.params matches Some(p) && first_str(p@) matches Some(s) && eq_ignore_ascii_case(trimmed(s), "auto"@)
}

fn first_param_str(params: &Vec<ParamValue>) -> (r: Option<&str>)
    ensures
        r.is_some() == first_str(params@).is_some(),
        r matches Some(s) ==> Some(s@) == first_str(params@),
{
    if params.len() == 0 {
        None
    } else {
        params[0].as_str()
    }
}

/// True if `m` binds `winaudio.<action>` with `params: ["auto"]`.
pub fn is_auto_winaudio_action(m: &ControlMapping, action: &str) -> (r: bool)
    ensures
        r == is_auto_spec(*m, action@),
{
    if !binding_is_winaudio(m) {
        return false;
    }
    if !binding_has_action(m, action) {
        return false;
    }
    let params = match &m.params {
        Some(p) => p,
        None => return false,
    };
    match first_param_str(params) {
        Some(s) => {
            let cs = chars_of(s);
            let t = trim_chars(&cs);
            let auto = chars_of("auto");
            chars_eq_ignore_ascii_case(&t, &auto)
        },
        None => false,
    }
}

/// The `auto`-bound strip controls of a page for `action`, in declaration
/// order, each with its strip number.
pub open spec fn auto_entries(controls: Seq<(String, ControlMapping)>, action: Seq<char>) -> Seq<(u8, Seq<char>)>
    decreases controls.len(),
{
    if controls.len() == 0 {
        Seq::empty()
    } else {
        let rest = auto_entries(controls.drop_last(), action);
        let last = controls.last();
        match strip_index_spec(last.0@) {
            Some(n) => if is_auto_spec(last.1, action) { rest.push((n, last.0@)) } else { rest },
            None => rest,
        }
    }
}

/// Where an entry with strip number `n` at position `k` of `l` lands when
/// `l` is sorted by strip number, equal numbers keeping their order: the
/// entries with a smaller number, plus those before `k` with the same one.
pub open spec fn sorted_rank(l: Seq<(u8, Seq<char>)>, n: u8, k: int) -> nat
    decreases l.len(),
{
    if l.len() == 0 {
        0
    } else {
        let j = l.len() - 1;
        let before = sorted_rank(l.drop_last(), n, k);
        if l[j].0 < n || (l[j].0 == n && j < k) {
            before + 1
        } else {
            before
        }
    }
}

/// The first entry of `l`, from position `i` on, for control `id`.
pub open spec fn entry_index(l: Seq<(u8, Seq<char>)>, id: Seq<char>, i: int) -> Option<int>
    decreases l.len() - i,
{
    if i < 0 || i >= l.len() {
        None
    } else if l[i].1 == id {
        Some(i)
    } else {
        entry_index(l, id, i + 1)
    }
}

/// Position of `id` among the page's `auto`-bound strip controls for
/// `action`, ordered by strip number (as a `u8`).
pub open spec fn auto_strip_index_spec(page: PageConfig, action: Seq<char>, id: Seq<char>) -> Option<u8> {
    match page.controls {
        Some(c) => {
            let l = auto_entries(c@, action);
            match entry_index(l, id, 0) {
                Some(k) => Some((sorted_rank(l, l[k].0, k) % 256) as u8),
                None => None,
            }
        },
        None => None,
    }
}

/// Every auto entry carries the strip number of its control id.
proof fn lemma_auto_entries_strip(controls: Seq<(String, ControlMapping)>, action: Seq<char>, k: int)
    requires
        0 <= k < auto_entries(controls, action).len(),
    ensures
        strip_index_spec(auto_entries(controls, action)[k].1) == Some(auto_entries(controls, action)[k].0),
    decreases controls.len(),
{
    let rest = auto_entries(controls.drop_last(), action);
    if k < rest.len() {
        lemma_auto_entries_strip(controls.drop_last(), action, k);
    }
}

/// The entry looked for is found at a position holding its id.
proof fn lemma_entry_index_found(l: Seq<(u8, Seq<char>)>, id: Seq<char>, i: int)
    requires
        entry_index(l, id, i) is Some,
    ensures
        0 <= entry_index(l, id, i).unwrap() < l.len(),
        l[entry_index(l, id, i).unwrap()].1 == id,
    decreases l.len() - i,
{
    if 0 <= i < l.len() && l[i].1 != id {
        lemma_entry_index_found(l, id, i + 1);
    }
}

/// A larger strip number never ranks lower.
proof fn lemma_rank_weak_mono(l: Seq<(u8, Seq<char>)>, n1: u8, k1: int, n2: u8, k2: int)
    requires
        n1 < n2,
    ensures
        sorted_rank(l, n1, k1) <= sorted_rank(l, n2, k2),
    decreases l.len(),
{
    if l.len() > 0 {
        lemma_rank_weak_mono(l.drop_last(), n1, k1, n2, k2);
    }
}

/// An entry ranks strictly below every larger strip number.
proof fn lemma_rank_strict_mono(l: Seq<(u8, Seq<char>)>, k1: int, n2: u8, k2: int)
    requires
        0 <= k1 < l.len(),
        l[k1].0 < n2,
    ensures
        sorted_rank(l, l[k1].0, k1) < sorted_rank(l, n2, k2),
    decreases l.len(),
{
    let n1 = l[k1].0;
    let p = l.drop_last();
    if k1 == l.len() - 1 {
        lemma_rank_weak_mono(p, n1, k1, n2, k2);
    } else {
        assert(p[k1] == l[k1]);
        lemma_rank_strict_mono(p, k1, n2, k2);
    }
}

/// An entry's rank is below the number of entries.
proof fn lemma_rank_bound(l: Seq<(u8, Seq<char>)>, n: u8, k: int)
    ensures
        sorted_rank(l, n, k) <= l.len(),
        0 <= k < l.len() && l[k].0 == n ==> sorted_rank(l, n, k) < l.len(),
    decreases l.len(),
{
    if l.len() > 0 {
        let p = l.drop_last();
        lemma_rank_bound(p, n, k);
        if 0 <= k < p.len() {
            assert(p[k] == l[k]);
        }
    }
}

/// Among the `auto`-bound strips of a page, a strip with a smaller strip
/// number gets a smaller auto position, and every auto position is below
/// the number of auto-bound strips.
pub proof fn law_auto_positions_follow_strip_numbers(page: PageConfig, action: Seq<char>, a: Seq<char>, b: Seq<char>)
    requires
        page.controls is Some,
        auto_entries(page.controls.unwrap()@, action).len() <= 256,
        auto_strip_index_spec(page, action, a) is Some,
        auto_strip_index_spec(page, action, b) is Some,
        strip_index_spec(a).unwrap() < strip_index_spec(b).unwrap(),
    ensures
        auto_strip_index_spec(page, action, a).unwrap() < auto_strip_index_spec(page, action, b).unwrap(),
        (auto_strip_index_spec(page, action, b).unwrap() as int) < auto_entries(page.controls.unwrap()@, action).len(),
{
    let c = page.controls.unwrap()@;
    let l = auto_entries(c, action);
    let ka = entry_index(l, a, 0).unwrap();
    let kb = entry_index(l, b, 0).unwrap();
    lemma_entry_index_found(l, a, 0);
    lemma_entry_index_found(l, b, 0);
    lemma_auto_entries_strip(c, action, ka);
    lemma_auto_entries_strip(c, action, kb);
    lemma_rank_strict_mono(l, ka, l[kb].0, kb);
    lemma_rank_bound(l, l[ka].0, ka);
    lemma_rank_bound(l, l[kb].0, kb);
}

fn collect_auto_entries(controls: &[(String, ControlMapping)], action: &str) -> (r: Vec<(u8, String)>)
    ensures
        r@.len() == auto_entries(controls@, action@).len(),
        forall|j: int| 0 <= j < r@.len() ==> (#[trigger] r@[j]).0 == auto_entries(controls@, action@)[j].0
            && r@[j].1@ == auto_entries(controls@, action@)[j].1,
{
    let mut v: Vec<(u8, String)> = Vec::new();
    let mut i: usize = 0;
    while i < controls.len()
        invariant
            i <= controls.len(),
            v@.len() == auto_entries(controls@.take(i as int), action@).len(),
            forall|j: int| 0 <= j < v@.len() ==> (#[trigger] v@[j]).0 == auto_entries(controls@.take(i as int), action@)[j].0
                && v@[j].1@ == auto_entries(controls@.take(i as int), action@)[j].1,
        decreases controls.len() - i,
    {
        let ghost pre = controls@.take(i as int);
        let ghost nxt = controls@.take(i + 1);
        proof {
            assert(nxt.drop_last() =~= pre);
            assert(nxt.last() == controls@[i as int]);
        }
        match strip_index_of(controls[i].0.as_str()) {
            Some(n) => {
                if is_auto_winaudio_action(&controls[i].1, action) {
                    v.push((n, controls[i].0.clone()));
                }
            },
            None => {},
        }
        i = i + 1;
    }
    assert(controls@.take(controls.len() as int) =~= controls@);
    v
}

fn find_entry(entries: &Vec<(u8, String)>, control_id: &str, Ghost(l): Ghost<Seq<(u8, Seq<char>)>>) -> (r: Option<usize>)
    requires
        entries@.len() == l.len(),
        forall|j: int| 0 <= j < entries@.len() ==> (#[trigger] entries@[j]).0 == l[j].0 && entries@[j].1@ == l[j].1,
    ensures
        r.is_some() == entry_index(l, control_id@, 0).is_some(),
        r matches Some(k) ==> entry_index(l, control_id@, 0) == Some(k as int) && k < l.len(),
{
    let mut k: usize = 0;
    while k < entries.len()
        invariant
            k <= entries.len(),
            entries@.len() == l.len(),
            forall|j: int| 0 <= j < entries@.len() ==> (#[trigger] entries@[j]).0 == l[j].0 && entries@[j].1@ == l[j].1,
            entry_index(l, control_id@, 0) == entry_index(l, control_id@, k as int),
        decreases entries.len() - k,
    {
        if str_eq(entries[k].1.as_str(), control_id) {
            return Some(k);
        }
        k = k + 1;
    }
    None
}

/// Position of `control_id` among the page controls bound to
/// `winaudio.<action>` with `params: ["auto"]`, ordered by ascending strip
/// number; `None` if `control_id` is not such a control.
pub fn auto_strip_index(page: &PageConfig, action: &str, control_id: &str) -> (r: Option<u8>)
    ensures
        r == auto_strip_index_spec(*page, action@, control_id@),
{
    let controls = match &page.controls {
        Some(c) => c,
        None => return None,
    };
    let entries = collect_auto_entries(controls.as_slice(), action);
    let ghost l = auto_entries(controls@, action@);
    let k = match find_entry(&entries, control_id, Ghost(l)) {
        Some(k) => k,
        None => return None,
    };
    let n = entries[k].0;
    // Count the entries sorted before it.
    let mut count: usize = 0;
    let mut j: usize = 0;
    while j < entries.len()
        invariant
            j <= entries.len(),
            k < entries.len(),
            n == l[k as int].0,
            entries@.len() == l.len(),
            forall|i: int| 0 <= i < entries@.len() ==> (#[trigger] entries@[i]).0 == l[i].0 && entries@[i].1@ == l[i].1,
            count == sorted_rank(l.take(j as int), n, k as int),
            count <= j,
        decreases entries.len() - j,
    {
        proof {
            let t = l.take(j + 1);
            assert(t.drop_last() =~= l.take(j as int));
            assert(t[j as int] == l[j as int]);
        }
        let m = entries[j].0;
        if m < n || (m == n && j < k) {
            count = count + 1;
        }
        j = j + 1;
    }
    assert(l.take(entries.len() as int) =~= l);
    Some((count % 256) as u8)
}

// ---------------------------------------------------------------------------
// Finding the control bound to an action
// ---------------------------------------------------------------------------

/// The binding is `winaudio.<action>` and, when a target is given, its
/// first parameter is that target string.
pub open spec fn binds_target(m: ControlMapping, action: Seq<char>, target: Option<Seq<char>>) -> bool {
    &&& is_winaudio(m)
    &&& has_action(m, action)
    &&& match target {
        None => true,
        Some(want) => m.params matches Some(p) && first_str(p@) == Some(want),
    }
}

/// The first control, from position `i` on, bound to `(action, target)`.
pub open spec fn bound_index(
    controls: Seq<(String, ControlMapping)>,
    action: Seq<char>,
    target: Option<Seq<char>>,
    i: int,
) -> Option<int>
    decreases controls.len() - i,
{
    if i < 0 || i >= controls.len() {
        None
    } else if binds_target(controls[i].1, action, target) {
        Some(i)
    } else {
        bound_index(controls, action, target, i + 1)
    }
}

/// The id of the control bound to `(action, target)` on a page.
pub open spec fn find_control_spec(page: PageConfig, action: Seq<char>, target: Option<Seq<char>>) -> Option<Seq<char>> {
    match page.controls {
        Some(c) => match bound_index(c@, action, target, 0) {
            Some(i) => Some(c@[i].0@),
            None => None,
        },
        None => None,
    }
}

/// The target as a character sequence.
pub open spec fn target_view(target: Option<&str>) -> Option<Seq<char>> {
    match target {
        Some(t) => Some(t@),
        None => None,
    }
}

fn binding_targets(m: &ControlMapping, action: &str, target: Option<&str>) -> (r: bool)
    ensures
        r == binds_target(*m, action@, target_view(target)),
{
    if !binding_is_winaudio(m) || !binding_has_action(m, action) {
        return false;
    }
    match target {
        None => true,
        Some(want) => match &m.params {
            Some(p) => match first_param_str(p) {
                Some(s) => str_eq(s, want),
                None => false,
            },
            None => false,
        },
    }
}

/// The id of the page control bound to `winaudio.<action>` (with first
/// parameter `target`, when one is given).
pub fn find_winaudio_control_id(page: &PageConfig, action: &str, target: Option<&str>) -> (r: Option<String>)
    ensures
        r.is_some() == find_control_spec(*page, action@, target_view(target)).is_some(),
        r matches Some(id) ==> Some(id@) == find_control_spec(*page, action@, target_view(target)),
{
    let controls = match &page.controls {
        Some(c) => c,
        None => return None,
    };
    let mut i: usize = 0;
    while i < controls.len()
        invariant
            i <= controls.len(),
            page.controls == Some(*controls),
            bound_index(controls@, action@, target_view(target), 0) == bound_index(controls@, action@, target_view(target), i as int),
        decreases controls.len() - i,
    {
        if binding_targets(&controls[i].1, action, target) {
            return Some(controls[i].0.clone());
        }
        i = i + 1;
    }
    None
}

/// How the control bound to `(action, target)` is addressed on the
/// surface.
pub open spec fn resolve_action_spec_spec(
    page: PageConfig,
    action: Seq<char>,
    target: Option<Seq<char>>,
    db: ControlMappingDB,
    mcu_mode: bool,
) -> Option<MidiSpec> {
    match find_control_spec(page, action, target) {
        Some(id) => midi_spec_of(db.rows@, id, mcu_mode),
        None => None,
    }
}

/// Find the page control bound to `(action, target)` and resolve it to
/// its hardware MIDI addressing.
pub fn resolve_action_spec(
    page: &PageConfig,
    action: &str,
    target: Option<&str>,
    db: &ControlMappingDB,
    mcu_mode: bool,
) -> (r: Option<MidiSpec>)
    ensures
        r == resolve_action_spec_spec(*page, action@, target_view(target), *db, mcu_mode),
{
    match find_winaudio_control_id(page, action, target) {
        Some(id) => db.get_midi_spec(id.as_str(), mcu_mode),
        None => None,
    }
}

/// What a volume/mute feedback event is about: the master endpoint, or the
/// session bound to a target such as `"pinned:1"` or `"discovered:0"`.
#[derive(Debug, Clone, PartialEq, Eq)]
pub enum FeedbackKey {
    Master,
    Session(String),
}

/// The volume and mute actions and the target a feedback key stands for.
pub open spec fn feedback_actions(key: FeedbackKey) -> (Seq<char>, Seq<char>, Option<Seq<char>>) {
    match key {
        FeedbackKey::Master => ("master_volume"@, "master_mute"@, None),
        FeedbackKey::Session(t) => ("session_volume"@, "session_mute"@, Some(t@)),
    }
}

/// Where the feedback of `key` goes on the surface: the addressing of the
/// control bound to its volume action (for the fader) and of the control
/// bound to its mute action (for the LED); either may be unbound.
pub fn feedback_specs(page: &PageConfig, key: &FeedbackKey, db: &ControlMappingDB, mcu_mode: bool) -> (r: (Option<MidiSpec>, Option<MidiSpec>))
    ensures
        r.0 == resolve_action_spec_spec(*page, feedback_actions(*key).0, feedback_actions(*key).2, *db, mcu_mode),
        r.1 == resolve_action_spec_spec(*page, feedback_actions(*key).1, feedback_actions(*key).2, *db, mcu_mode),
{
    match key {
        FeedbackKey::Master => (
            resolve_action_spec(page, "master_volume", None, db, mcu_mode),
            resolve_action_spec(page, "master_mute", None, db, mcu_mode),
        ),
        FeedbackKey::Session(t) => (
            resolve_action_spec(page, "session_volume", Some(t.as_str()), db, mcu_mode),
            resolve_action_spec(page, "session_mute", Some(t.as_str()), db, mcu_mode),
        ),
    }
}

// ---------------------------------------------------------------------------
// Strip resolution for the LCD
// ---------------------------------------------------------------------------

/// The process a strip control resolves to, following the same path as
/// action dispatch: `auto` bindings index the discovery order by their
/// auto position; otherwise the `pinned:N` / `discovered:N` target.
pub open spec fn resolve_strip_spec(
    control_id: Seq<char>,
    page: PageConfig,
    cfg: WinAudioConfig,
    disc: DiscoveryState,
    action: Seq<char>,
) -> Option<Seq<char>> {
    match page.controls {
        None => None,
        Some(c) => match control_lookup(c@, control_id) {
            None => None,
            Some(m) => if !is_winaudio(m) || !has_action(m, action) {
                None
            } else if is_auto_spec(m, action) {
                match auto_strip_index_spec(page, action, control_id) {
                    Some(k) => discovered_target_spec(cfg.pinned_apps@, disc.order(), k),
                    None => None,
                }
            } else {
                let params = match m.params {
                    Some(p) => p@,
                    None => Seq::empty(),
                };
                match session_target_spec(params) {
                    Err(_) => None,
                    Ok(SessionTarget::Pinned(f)) => match find_fader(cfg.pinned_apps@, f, 0) {
                        Some(i) => Some(lowercase(cfg.pinned_apps@[i].process_name@)),
                        None => None,
                    },
                    Ok(SessionTarget::Discovered(s)) => discovered_target_spec(cfg.pinned_apps@, disc.order(), s),
                }
            },
        },
    }
}

/// Resolve strip control `control_id` on `page` to a process name
/// (lowercase); `None` if the control is not bound to a winaudio session
/// action or no process is currently mapped to it.
pub fn resolve_strip_process(
    control_id: &str,
    page: &PageConfig,
    cfg: &WinAudioConfig,
    disc: &DiscoveryState,
    action: &str,
) -> (r: Option<String>)
    ensures
        r.is_some() == resolve_strip_spec(control_id@, *page, *cfg, *disc, action@).is_some(),
        r matches Some(n) ==> Some(n@) == resolve_strip_spec(control_id@, *page, *cfg, *disc, action@),
{
    let controls = match &page.controls {
        Some(c) => c,
        None => return None,
    };
    let m = match get_control(controls.as_slice(), control_id) {
        Some(m) => m,
        None => return None,
    };
    if !binding_is_winaudio(m) || !binding_has_action(m, action) {
        return None;
    }
    if is_auto_winaudio_action(m, action) {
        return match auto_strip_index(page, action, control_id) {
            Some(k) => discovered_target(cfg.pinned_apps.as_slice(), disc, k),
            None => None,
        };
    }
    let empty: Vec<ParamValue> = Vec::new();
    let params: &Vec<ParamValue> = match &m.params {
        Some(p) => p,
        None => &empty,
    };
    match parse_session_target(params.as_slice()) {
        Err(_) => None,
        Ok(SessionTarget::Pinned(f)) => pinned_target(cfg.pinned_apps.as_slice(), f),
        Ok(SessionTarget::Discovered(s)) => discovered_target(cfg.pinned_apps.as_slice(), disc, s),
    }
}

/// The LCD label of a process: the pinned app's display name (or the
/// label derived from its configured name), else the label derived from
/// the process name.
pub open spec fn label_spec(pinned: Seq<PinnedApp>, process_lc: Seq<char>) -> Seq<char> {
    match find_pinned_name(pinned, process_lc, 0) {
        Some(i) => pin_label(pinned[i]),
        None => derive_label_spec(process_lc),
    }
}

fn find_pin(pinned: &[PinnedApp], process_lc: &str) -> (r: Option<usize>)
    ensures
        r.is_some() == find_pinned_name(pinned@, process_lc@, 0).is_some(),
        r matches Some(i) ==> find_pinned_name(pinned@, process_lc@, 0) == Some(i as int) && i < pinned.len(),
{
    let mut i: usize = 0;
    while i < pinned.len()
        invariant
            i <= pinned.len(),
            find_pinned_name(pinned@, process_lc@, 0) == find_pinned_name(pinned@, process_lc@, i as int),
        decreases pinned.len() - i,
    {
        let n = crate::text::to_lowercase(pinned[i].process_name.as_str());
        if str_eq(n.as_str(), process_lc) {
            return Some(i);
        }
        i = i + 1;
    }
    None
}

/// LCD label for a process: pinned `display_name` if set, otherwise the
/// derived label.
pub fn label_for_process(pinned: &[PinnedApp], process_lc: &str) -> (r: String)
    ensures
        r@ == label_spec(pinned@, process_lc@),
{
    match find_pin(pinned, process_lc) {
        Some(i) => match &pinned[i].display_name {
            Some(d) => d.clone(),
            None => derive_label(pinned[i].process_name.as_str()),
        },
        None => derive_label(process_lc),
    }
}

/// The LCD color of a process: the pinned app's configured color, else its
/// cycle color, else white (7).
pub open spec fn color_spec(pinned: Seq<PinnedApp>, disc: DiscoveryState, process_lc: Seq<char>) -> u8 {
    let pinned_color = match find_pinned_name(pinned, process_lc, 0) {
        Some(i) => pinned[i].color,
        None => None,
    };
    match pinned_color {
        Some(c) => c,
        None => match color_lookup(disc.colors(), process_lc) {
            Some(c) => c,
            None => 7,
        },
    }
}

/// LCD color for a process: pinned `color` if set, else the cycle color
/// from discovery, else white (7).
pub fn color_for_process(pinned: &[PinnedApp], disc: &DiscoveryState, process_lc: &str) -> (r: u8)
    ensures
        r == color_spec(pinned@, *disc, process_lc@),
{
    match find_pin(pinned, process_lc) {
        Some(i) => {
            if let Some(c) = pinned[i].color {
                return c;
            }
        },
        None => {},
    }
    match disc.color_for(process_lc) {
        Some(c) => c,
        None => 7,
    }
}


/// What LCD strip `n` (1 to 8) shows: the label and color of the process
/// its fader's `session_volume` binding resolves to, when that process has
/// an active audio session; else a blank label in color 0.
pub open spec fn lcd_strip_spec(page: PageConfig, cfg: WinAudioConfig, disc: DiscoveryState, n: nat) -> (Seq<char>, u8) {
    match resolve_strip_spec("fader"@ + decimal(n), page, cfg, disc, "session_volume"@) {
        Some(p) => if disc.active_set().contains(p) {
            (label_spec(cfg.pinned_apps@, p), color_spec(cfg.pinned_apps@, disc, p))
        } else {
            (Seq::empty(), 0u8)
        },
        None => (Seq::empty(), 0u8),
    }
}

/// The label and color of each of the eight LCD strips (see
/// [`lcd_strip_spec`]), strip 1 first.
pub fn lcd_strips(page: &PageConfig, cfg: &WinAudioConfig, disc: &DiscoveryState) -> (r: Vec<(String, u8)>)
    ensures
        r@.len() == 8,
        forall|i: int| 0 <= i < 8 ==> (#[trigger] r@[i]).0@ == lcd_strip_spec(*page, *cfg, *disc, (i + 1) as nat).0
            && r@[i].1 == lcd_strip_spec(*page, *cfg, *disc, (i + 1) as nat).1,
{
    let mut out: Vec<(String, u8)> = Vec::new();
    let mut n: u64 = 1;
    while n <= 8
        invariant
            1 <= n <= 9,
            out@.len() == n - 1,
            forall|i: int| 0 <= i < n - 1 ==> (#[trigger] out@[i]).0@ == lcd_strip_spec(*page, *cfg, *disc, (i + 1) as nat).0
                && out@[i].1 == lcd_strip_spec(*page, *cfg, *disc, (i + 1) as nat).1,
        decreases 9 - n,
    {
        let mut id = String::from_str("fader");
        push_decimal(&mut id, n);
        let entry = match resolve_strip_process(id.as_str(), page, cfg, disc, "session_volume") {
            Some(p) => if disc.is_active(p.as_str()) {
                (label_for_process(cfg.pinned_apps.as_slice(), p.as_str()), color_for_process(cfg.pinned_apps.as_slice(), disc, p.as_str()))
            } else {
                (String::new(), 0u8)
            },
            None => (String::new(), 0u8),
        };
        out.push(entry);
        n = n + 1;
    }
    out
}

} // verus!
