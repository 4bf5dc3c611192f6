//! Gamepad slot assignment for multi-gamepad support.
//!
//! Each configured slot has an index (slot 0 is `gamepad1`), a product
//! name pattern, the controller currently connected to it (if any) and
//! its analog configuration, carried through unchanged.

use vstd::prelude::*;

use crate::gamepad::buttons::push_str_chars;
use crate::gamepad::hybrid_id::HybridControllerId;
use crate::text::{char_range, chars_of, contains, decimal, is_prefix, lowercase, occurs_in, push_decimal, starts_with, to_lowercase};
use vstd::string::StringExecFns;

verus! {

#[verifier::external_type_specification]
#[verifier::external_body]
pub struct ExInstant(std::time::Instant);

/// `Instant::now`: the current instant of the monotonic clock. Nothing is
/// stated of the value; it only records when a slot last changed.
#[verifier::external_body]
fn instant_now() -> std::time::Instant {
    std::time::Instant::now()
}

/// A configured gamepad slot.
#[derive(Debug)]
pub struct GamepadSlot<A> {
    /// 0-based; slot `i` is reported as `gamepad{i + 1}`.
    pub slot_index: usize,
    /// Product name pattern (substring, case-insensitive; see
    /// [`pattern_accepts`]).
    pub product_match: String,
    /// The controller connected to this slot, if any.
    pub connected_id: Option<HybridControllerId>,
    /// Product name of the connected controller.
    pub connected_name: Option<String>,
    /// When the slot last connected or disconnected.
    pub last_change: std::time::Instant,
    /// Analog configuration of this slot.
    pub analog_config: Option<A>,
}

/// The name an XInput controller also answers to: XInput serves
/// Xbox-compatible controllers, so a lower-cased name beginning with
/// `"xinput"` also reads as `"xbox"` followed by the rest of the name
/// (`"xinput controller 1"` reads as `"xbox controller 1"`).
pub open spec fn xbox_alias(n: Seq<char>) -> Seq<char> {
    if is_prefix("xinput"@, n) {
        "xbox"@ + n.skip(6)
    } else {
        n
    }
}

/// Pattern `pattern` accepts a gamepad named `name`: the pattern occurs in
/// the name, both lower-cased, or in the Xbox reading of an XInput
/// controller's name (so an `"Xbox"` slot accepts `"XInput Controller 1"`).
pub open spec fn pattern_accepts(pattern: Seq<char>, name: Seq<char>) -> bool {
    occurs_in(lowercase(pattern), lowercase(name)) || occurs_in(lowercase(pattern), xbox_alias(lowercase(name)))
}

/// `slot` accepts a gamepad named `name` (see [`pattern_accepts`]).
pub open spec fn slot_matches<A>(slot: GamepadSlot<A>, name: Seq<char>) -> bool {
    pattern_accepts(slot.product_match@, name)
}

/// Whether pattern `pattern` accepts a gamepad named `name`.
fn pattern_accepts_exec(pattern: &str, name: &str) -> (r: bool)
    ensures
        r == pattern_accepts(pattern@, name@),
{
    let n = chars_of(to_lowercase(name).as_str());
    let p = chars_of(to_lowercase(pattern).as_str());
    if contains(&n, &p) {
        return true;
    }
    let prefix = chars_of("xinput");
    proof {
        reveal_strlit("xinput");
        reveal_strlit("xbox");
    }
    if starts_with(&n, &prefix) {
        let mut alias = chars_of("xbox");
        let mut rest = char_range(&n, 6, n.len());
        alias.append(&mut rest);
        assert(alias@ =~= xbox_alias(n@));
        contains(&alias, &p)
    } else {
        assert(xbox_alias(n@) == n@);
        false
    }
}

/// `b` is `a` with the same configuration (index, pattern, analog
/// settings); the connection may differ.
pub open spec fn same_config<A>(a: GamepadSlot<A>, b: GamepadSlot<A>) -> bool {
    a.slot_index == b.slot_index && a.product_match == b.product_match && a.analog_config == b.analog_config
}

impl<A> GamepadSlot<A> {
    /// A disconnected slot.
    pub fn new(slot_index: usize, product_match: String, analog_config: Option<A>) -> (r: GamepadSlot<A>)
        ensures
            r.slot_index == slot_index,
            r.product_match == product_match,
            r.analog_config == analog_config,
            r.connected_id.is_none(),
            r.connected_name.is_none(),
    {
        GamepadSlot {
            slot_index,
            product_match,
            connected_id: None,
            connected_name: None,
            last_change: instant_now(),
            analog_config,
        }
    }

    /// Whether this slot accepts a gamepad named `gamepad_name`
    /// (case-insensitive substring match; an XInput controller also
    /// answers to its Xbox name, see [`pattern_accepts`]).
    pub fn matches(&self, gamepad_name: &str) -> (r: bool)
        ensures
            r == slot_matches(*self, gamepad_name@),
    {
        pattern_accepts_exec(self.product_match.as_str(), gamepad_name)
    }

    /// Control id prefix of this slot (`"gamepad1"` for slot 0).
    pub fn control_id_prefix(&self) -> (r: String)
        requires
            self.slot_index < usize::MAX,
        ensures
            r@ == "gamepad"@ + decimal(self.slot_index as nat + 1),
    {
        let mut s = String::from_str("gamepad");
        push_decimal(&mut s, self.slot_index as u64 + 1);
        s
    }

    /// Connect a gamepad to this slot.
    pub fn connect(&mut self, id: HybridControllerId, name: String)
        ensures
            same_config(*old(self), *final(self)),
            final(self).connected_id == Some(id),
            final(self).connected_name == Some(name),
    {
        self.connected_id = Some(id);
        self.connected_name = Some(name);
        self.last_change = instant_now();
    }

    /// Disconnect the gamepad of this slot.
    pub fn disconnect(&mut self)
        ensures
            same_config(*old(self), *final(self)),
            final(self).connected_id.is_none(),
            final(self).connected_name.is_none(),
    {
        self.connected_id = None;
        self.connected_name = None;
        self.last_change = instant_now();
    }

    /// Whether a gamepad is connected to this slot.
    pub fn is_connected(&self) -> (r: bool)
        ensures
            r == self.connected_id.is_some(),
    {
        self.connected_id.is_some()
    }
}

/// The slots' assignment: slot `i` has index `i`, and no controller is
/// connected to two slots.
pub open spec fn slots_wf<A>(s: Seq<GamepadSlot<A>>) -> bool {
    &&& forall|i: int| 0 <= i < s.len() ==> (#[trigger] s[i]).slot_index == i
    &&& forall|i: int, j: int|
        0 <= i < s.len() && 0 <= j < s.len() && i != j && (#[trigger] s[i]).connected_id.is_some()
            ==> s[i].connected_id != (#[trigger] s[j]).connected_id
}

/// The connection of a slot: controller and product name.
pub open spec fn conn_of<A>(slot: GamepadSlot<A>) -> (Option<HybridControllerId>, Option<Seq<char>>) {
    (slot.connected_id, match slot.connected_name {
        Some(n) => Some(n@),
        None => None,
    })
}

/// The connections of all slots.
pub open spec fn conns<A>(s: Seq<GamepadSlot<A>>) -> Seq<(Option<HybridControllerId>, Option<Seq<char>>)> {
    s.map_values(|slot: GamepadSlot<A>| conn_of(slot))
}

/// The product patterns of all slots.
pub open spec fn patterns<A>(s: Seq<GamepadSlot<A>>) -> Seq<Seq<char>> {
    s.map_values(|slot: GamepadSlot<A>| slot.product_match@)
}

/// The first connection, from `i` on, holding controller `id`.
pub open spec fn conn_slot_of_id(c: Seq<(Option<HybridControllerId>, Option<Seq<char>>)>, id: HybridControllerId, i: int) -> Option<int>
    decreases c.len() - i,
{
    if i < 0 || i >= c.len() {
        None
    } else if c[i].0 == Some(id) {
        Some(i)
    } else {
        conn_slot_of_id(c, id, i + 1)
    }
}

/// The first free slot, from `i` on, whose pattern accepts `name`.
pub open spec fn conn_free_slot(
    c: Seq<(Option<HybridControllerId>, Option<Seq<char>>)>,
    p: Seq<Seq<char>>,
    name: Seq<char>,
    i: int,
) -> Option<int>
    decreases c.len() - i,
{
    if i < 0 || i >= c.len() {
        None
    } else if c[i].0.is_none() && pattern_accepts(p[i], name) {
        Some(i)
    } else {
        conn_free_slot(c, p, name, i + 1)
    }
}

/// The connections after `try_connect(id, name)`: unchanged when the
/// controller already has a slot or no free slot accepts it; otherwise the
/// first accepting free slot holds it.
pub open spec fn connect_conns(
    c: Seq<(Option<HybridControllerId>, Option<Seq<char>>)>,
    p: Seq<Seq<char>>,
    id: HybridControllerId,
    name: Seq<char>,
) -> Seq<(Option<HybridControllerId>, Option<Seq<char>>)> {
    match conn_slot_of_id(c, id, 0) {
        Some(_) => c,
        None => match conn_free_slot(c, p, name, 0) {
            Some(i) => c.update(i, (Some(id), Some(name))),
            None => c,
        },
    }
}

/// The controller `id` counts as gone for a disconnection check of the
/// gilrs (`gilrs`) or XInput backend, given the ids still present.
pub open spec fn id_gone(gilrs: bool, list: Seq<usize>, id: Option<HybridControllerId>) -> bool {
    if gilrs {
        id matches Some(HybridControllerId::Gilrs(g)) && !list.contains(g)
    } else {
        id matches Some(HybridControllerId::XInput(x)) && !list.contains(x)
    }
}

/// The connections after a disconnection check.
pub open spec fn disconnect_conns(
    c: Seq<(Option<HybridControllerId>, Option<Seq<char>>)>,
    gilrs: bool,
    list: Seq<usize>,
) -> Seq<(Option<HybridControllerId>, Option<Seq<char>>)> {
    c.map_values(|x: (Option<HybridControllerId>, Option<Seq<char>>)| if id_gone(gilrs, list, x.0) {
        (None::<HybridControllerId>, None::<Seq<char>>)
    } else {
        x
    })
}

proof fn lemma_conn_find_agrees<A>(s: Seq<GamepadSlot<A>>, id: HybridControllerId, name: Seq<char>, i: int)
    requires
        0 <= i,
    ensures
        slot_of_id(s, id, i) == conn_slot_of_id(conns(s), id, i),
        free_slot_for(s, name, i) == conn_free_slot(conns(s), patterns(s), name, i),
    decreases s.len() - i,
{
    if i < s.len() {
        assert(conns(s)[i] == conn_of(s[i]));
        assert(patterns(s)[i] == s[i].product_match@);
        lemma_conn_find_agrees(s, id, name, i + 1);
    }
}

/// The first slot, from `i` on, connected to `id`.
pub open spec fn slot_of_id<A>(s: Seq<GamepadSlot<A>>, id: HybridControllerId, i: int) -> Option<int>
    decreases s.len() - i,
{
    if i < 0 || i >= s.len() {
        None
    } else if s[i].connected_id == Some(id) {
        Some(i)
    } else {
        slot_of_id(s, id, i + 1)
    }
}

/// The first free slot, from `i` on, that accepts a gamepad named `name`.
pub open spec fn free_slot_for<A>(s: Seq<GamepadSlot<A>>, name: Seq<char>, i: int) -> Option<int>
    decreases s.len() - i,
{
    if i < 0 || i >= s.len() {
        None
    } else if s[i].connected_id.is_none() && slot_matches(s[i], name) {
        Some(i)
    } else {
        free_slot_for(s, name, i + 1)
    }
}

/// The slot a gamepad goes to: the one it is already connected to
/// (`true`), else the first free slot whose pattern matches (`false`).
pub open spec fn find_slot_spec<A>(s: Seq<GamepadSlot<A>>, id: HybridControllerId, name: Seq<char>) -> Option<(int, bool)> {
    match slot_of_id(s, id, 0) {
        Some(i) => Some((i, true)),
        None => match free_slot_for(s, name, 0) {
            Some(i) => Some((i, false)),
            None => None,
        },
    }
}

/// The controller of `slot` is an XInput one whose user index is not in
/// `active`.
pub open spec fn xinput_gone<A>(slot: GamepadSlot<A>, active: Seq<usize>) -> bool {
    slot.connected_id matches Some(HybridControllerId::XInput(idx)) && !active.contains(idx)
}

/// The controller of `slot` is a gilrs one whose id is not in `connected`.
pub open spec fn gilrs_gone<A>(slot: GamepadSlot<A>, connected: Seq<usize>) -> bool {
    slot.connected_id matches Some(HybridControllerId::Gilrs(id)) && !connected.contains(id)
}

/// The name reported for a disconnected slot.
pub open spec fn reported_name(name: Option<String>) -> Seq<char> {
    match name {
        Some(n) => n@,
        None => "Unknown"@,
    }
}

/// For the first `n` slots whose controller is `gone`, in slot order:
/// (slot index, product name).
pub open spec fn disconnect_report<A>(s: Seq<GamepadSlot<A>>, gone: spec_fn(GamepadSlot<A>) -> bool, n: int) -> Seq<(usize, Seq<char>)>
    decreases n,
{
    if n <= 0 {
        Seq::empty()
    } else {
        let prev = disconnect_report(s, gone, n - 1);
        if gone(s[n - 1]) {
            prev.push((s[n - 1].slot_index, reported_name(s[n - 1].connected_name)))
        } else {
            prev
        }
    }
}

/// The slots after the `gone` controllers are disconnected.
pub open spec fn after_disconnect<A>(old: Seq<GamepadSlot<A>>, new: Seq<GamepadSlot<A>>, gone: spec_fn(GamepadSlot<A>) -> bool) -> bool {
    &&& new.len() == old.len()
    &&& forall|j: int| 0 <= j < old.len() ==> {
        if gone(#[trigger] old[j]) {
            same_config(old[j], new[j]) && new[j].connected_id.is_none() && new[j].connected_name.is_none()
        } else {
            new[j] == old[j]
        }
    }
}

/// The disconnection test of one backend: gilrs ids missing from `list`,
/// or XInput user indices missing from `list`.
pub open spec fn gone_pred<A>(gilrs: bool, list: Seq<usize>) -> spec_fn(GamepadSlot<A>) -> bool {
    |slot: GamepadSlot<A>| if gilrs { gilrs_gone(slot, list) } else { xinput_gone(slot, list) }
}

fn listed(list: &[usize], x: usize) -> (r: bool)
    ensures
        r == list@.contains(x),
{
    let mut i: usize = 0;
    while i < list.len()
        invariant
            i <= list.len(),
            forall|j: int| 0 <= j < i ==> list@[j] != x,
        decreases list.len() - i,
    {
        if list[i] == x {
            return true;
        }
        i = i + 1;
    }
    false
}

/// Disconnecting slots keeps the assignment consistent.
proof fn lemma_disconnect_keeps_wf<A>(old: Seq<GamepadSlot<A>>, new: Seq<GamepadSlot<A>>, gone: spec_fn(GamepadSlot<A>) -> bool)
    requires
        after_disconnect(old, new, gone),
    ensures
        slots_wf(old) ==> slots_wf(new),
{
    if slots_wf(old) {
        assert forall|i: int| 0 <= i < new.len() implies (#[trigger] new[i]).slot_index == i by {
            assert(gone(old[i]) || new[i] == old[i]);
            assert(old[i].slot_index == i);
        }
        assert forall|i: int, j: int|
            0 <= i < new.len() && 0 <= j < new.len() && i != j && (#[trigger] new[i]).connected_id.is_some()
                implies new[i].connected_id != (#[trigger] new[j]).connected_id by {
            assert(gone(old[i]) || new[i] == old[i]);
            assert(gone(old[j]) || new[j] == old[j]);
            assert(old[i].connected_id.is_some() ==> old[i].connected_id != old[j].connected_id);
        }
    }
}

proof fn lemma_slot_of_id_found<A>(s: Seq<GamepadSlot<A>>, id: HybridControllerId, i: int)
    requires
        0 <= i,
    ensures
        slot_of_id(s, id, i) matches Some(k) ==> (i <= k < s.len() && s[k].connected_id == Some(id)),
        slot_of_id(s, id, i) is None ==> forall|j: int| i <= j < s.len() ==> (#[trigger] s[j]).connected_id != Some(id),
        forall|j: int| i <= j < s.len() && (#[trigger] s[j]).connected_id == Some(id) ==> (slot_of_id(s, id, i) matches Some(k) && k <= j),
    decreases s.len() - i,
{
    if i < s.len() {
        lemma_slot_of_id_found(s, id, i + 1);
    }
}

proof fn lemma_free_slot_found<A>(s: Seq<GamepadSlot<A>>, name: Seq<char>, i: int)
    requires
        0 <= i,
    ensures
        free_slot_for(s, name, i) matches Some(k) ==> (i <= k < s.len() && s[k].connected_id.is_none() && slot_matches(s[k], name)),
    decreases s.len() - i,
{
    if i < s.len() {
        lemma_free_slot_found(s, name, i + 1);
    }
}

/// A gamepad already connected to a slot is sent back to that same slot,
/// whatever name it reports.
pub proof fn law_connected_gamepad_keeps_its_slot<A>(s: Seq<GamepadSlot<A>>, id: HybridControllerId, name: Seq<char>, i: int)
    requires
        slots_wf(s),
        0 <= i < s.len(),
        s[i].connected_id == Some(id),
    ensures
        find_slot_spec(s, id, name) == Some((i, true)),
{
    lemma_slot_of_id_found(s, id, 0);
    let k = slot_of_id(s, id, 0).unwrap();
    if k != i {
        assert(s[k].connected_id != s[i].connected_id);
    }
}

/// Manages gamepad slot assignments.
pub struct SlotManager<A> {
    slots: Vec<GamepadSlot<A>>,
}

impl<A> View for SlotManager<A> {
    type V = Seq<GamepadSlot<A>>;

    closed spec fn view(&self) -> Seq<GamepadSlot<A>> {
        self.slots@
    }
}

impl<A> SlotManager<A> {
    /// The assignment is consistent.
    pub open spec fn wf(&self) -> bool {
        slots_wf(self@)
    }

    /// One disconnected slot per (product pattern, analog configuration)
    /// pair, in order.
    pub fn new(slot_configs: Vec<(String, Option<A>)>) -> (r: SlotManager<A>)
        ensures
            r.wf(),
            r@.len() == slot_configs@.len(),
            forall|i: int| 0 <= i < r@.len() ==> {
                &&& (#[trigger] r@[i]).slot_index == i
                &&& r@[i].product_match == slot_configs@[i].0
                &&& r@[i].analog_config == slot_configs@[i].1
                &&& r@[i].connected_id.is_none()
                &&& r@[i].connected_name.is_none()
            },
    {
        let mut configs = slot_configs;
        let ghost cfg = configs@;
        let mut rev: Vec<GamepadSlot<A>> = Vec::new();
        // Take the configurations from the back, then restore their order.
        while configs.len() > 0
            invariant
                configs@.len() + rev@.len() == cfg.len(),
                configs@ == cfg.take(configs@.len() as int),
                forall|k: int| 0 <= k < rev@.len() ==> {
                    let i = cfg.len() - 1 - k;
                    &&& (#[trigger] rev@[k]).slot_index == i
                    &&& rev@[k].product_match == cfg[i].0
                    &&& rev@[k].analog_config == cfg[i].1
                    &&& rev@[k].connected_id.is_none()
                    &&& rev@[k].connected_name.is_none()
                },
            decreases configs.len(),
        {
            let ghost before = configs@;
            let (product_match, analog) = configs.pop().unwrap();
            proof {
                assert(configs@ =~= cfg.take(configs@.len() as int));
            }
            let idx = configs.len();
            rev.push(GamepadSlot::new(idx, product_match, analog));
        }
        let mut slots: Vec<GamepadSlot<A>> = Vec::new();
        let ghost n = rev@.len();
        while rev.len() > 0
            invariant
                n == cfg.len(),
                rev@.len() + slots@.len() == n,
                forall|k: int| 0 <= k < rev@.len() ==> {
                    let i = n - 1 - k;
                    &&& (#[trigger] rev@[k]).slot_index == i
                    &&& rev@[k].product_match == cfg[i].0
                    &&& rev@[k].analog_config == cfg[i].1
                    &&& rev@[k].connected_id.is_none()
                    &&& rev@[k].connected_name.is_none()
                },
                forall|i: int| 0 <= i < slots@.len() ==> {
                    &&& (#[trigger] slots@[i]).slot_index == i
                    &&& slots@[i].product_match == cfg[i].0
                    &&& slots@[i].analog_config == cfg[i].1
                    &&& slots@[i].connected_id.is_none()
                    &&& slots@[i].connected_name.is_none()
                },
            decreases rev.len(),
        {
            let slot = rev.pop().unwrap();
            slots.push(slot);
        }
        SlotManager { slots }
    }

    /// Which slot should handle this gamepad: `(index, true)` if it is
    /// already connected to a slot, `(index, false)` for the first free
    /// slot whose pattern matches its name, `None` if no slot fits.
    pub fn find_slot_for_gamepad(&self, id: HybridControllerId, name: &str) -> (r: Option<(usize, bool)>)
        ensures
            r.is_some() == find_slot_spec(self@, id, name@).is_some(),
            r matches Some((i, c)) ==> find_slot_spec(self@, id, name@) == Some((i as int, c)) && i < self@.len(),
    {
        let mut i: usize = 0;
        while i < self.slots.len()
            invariant
                i <= self.slots@.len(),
                slot_of_id(self.slots@, id, 0) == slot_of_id(self.slots@, id, i as int),
            decreases self.slots.len() - i,
        {
            if self.slots[i].connected_id == Some(id) {
                return Some((i, true));
            }
            i = i + 1;
        }
        let mut j: usize = 0;
        while j < self.slots.len()
            invariant
                j <= self.slots@.len(),
                slot_of_id(self.slots@, id, 0).is_none(),
                free_slot_for(self.slots@, name@, 0) == free_slot_for(self.slots@, name@, j as int),
            decreases self.slots.len() - j,
        {
            if !self.slots[j].is_connected() && self.slots[j].matches(name) {
                return Some((j, false));
            }
            j = j + 1;
        }
        None
    }

    /// The slot a gamepad is connected to.
    pub fn get_slot_by_id(&self, id: HybridControllerId) -> (r: Option<&GamepadSlot<A>>)
        ensures
            r.is_some() == slot_of_id(self@, id, 0).is_some(),
            r matches Some(s) ==> *s == self@[slot_of_id(self@, id, 0).unwrap()],
    {
        let mut i: usize = 0;
        while i < self.slots.len()
            invariant
                i <= self.slots@.len(),
                slot_of_id(self.slots@, id, 0) == slot_of_id(self.slots@, id, i as int),
            decreases self.slots.len() - i,
        {
            if self.slots[i].connected_id == Some(id) {
                return Some(&self.slots[i]);
            }
            i = i + 1;
        }
        None
    }

    /// The slot at `idx`, for update.
    pub fn get_slot_mut(&mut self, idx: usize) -> (r: Option<&mut GamepadSlot<A>>)
        ensures
            r.is_some() == (idx < old(self)@.len()),
            r matches Some(s) ==> *s == old(self)@[idx as int],
            r.is_none() ==> final(self)@ == old(self)@,
            r matches Some(s) ==> final(self)@ == old(self)@.update(idx as int, *final(s)),
    {
        if idx < self.slots.len() {
            Some(&mut self.slots[idx])
        } else {
            None
        }
    }

    fn disconnect_missing(&mut self, gilrs: bool, list: &[usize]) -> (r: Vec<(usize, String)>)
        ensures
            after_disconnect(old(self)@, final(self)@, gone_pred(gilrs, list@)),
            conns(final(self)@) == disconnect_conns(conns(old(self)@), gilrs, list@),
            patterns(final(self)@) == patterns(old(self)@),
            r@.len() == disconnect_report(old(self)@, gone_pred(gilrs, list@), old(self)@.len() as int).len(),
            forall|i: int| 0 <= i < r@.len() ==> (#[trigger] r@[i]).0 == disconnect_report(old(self)@, gone_pred(gilrs, list@), old(self)@.len() as int)[i].0
                && r@[i].1@ == disconnect_report(old(self)@, gone_pred(gilrs, list@), old(self)@.len() as int)[i].1,
    {
        let ghost start = self.slots@;
        let ghost gone = gone_pred::<A>(gilrs, list@);
        let mut out: Vec<(usize, String)> = Vec::new();
        let mut k: usize = 0;
        while k < self.slots.len()
            invariant
                start == old(self)@,
                gone == gone_pred::<A>(gilrs, list@),
                k <= self.slots@.len(),
                self.slots@.len() == start.len(),
                forall|j: int| 0 <= j < k ==> {
                    if gone(#[trigger] start[j]) {
                        same_config(start[j], self.slots@[j]) && self.slots@[j].connected_id.is_none()
                            && self.slots@[j].connected_name.is_none()
                    } else {
                        self.slots@[j] == start[j]
                    }
                },
                forall|j: int| k <= j < start.len() ==> self.slots@[j] == #[trigger] start[j],
                out@.len() == disconnect_report(start, gone, k as int).len(),
                forall|i: int| 0 <= i < out@.len() ==> (#[trigger] out@[i]).0 == disconnect_report(start, gone, k as int)[i].0
                    && out@[i].1@ == disconnect_report(start, gone, k as int)[i].1,
            decreases self.slots@.len() - k,
        {
            let is_gone = match self.slots[k].connected_id {
                Some(HybridControllerId::Gilrs(id)) => gilrs && !listed(list, id),
                Some(HybridControllerId::XInput(idx)) => !gilrs && !listed(list, idx),
                None => false,
            };
            assert(is_gone == gone(start[k as int]));
            if is_gone {
                let name = match &self.slots[k].connected_name {
                    Some(n) => n.clone(),
                    None => String::from_str("Unknown"),
                };
                let index = self.slots[k].slot_index;
                self.slots[k].disconnect();
                out.push((index, name));
            }
            k = k + 1;
        }
        proof {
            let new = self.slots@;
            assert forall|j: int| 0 <= j < start.len() implies gone(start[j]) == id_gone(gilrs, list@, start[j].connected_id) by {}
            assert(conns(new) =~= disconnect_conns(conns(start), gilrs, list@)) by {
                assert forall|j: int| 0 <= j < start.len() implies #[trigger] conns(new)[j] == disconnect_conns(conns(start), gilrs, list@)[j] by {
                    assert(gone(start[j]) == id_gone(gilrs, list@, start[j].connected_id));
                }
            }
            assert(patterns(new) =~= patterns(start)) by {
                assert forall|j: int| 0 <= j < start.len() implies #[trigger] patterns(new)[j] == patterns(start)[j] by {
                    assert(gone(start[j]) || new[j] == start[j]);
                }
            }
        }
        out
    }

    /// Disconnect the slots whose gilrs gamepad is no longer connected
    /// (`connected` lists the gilrs ids still present). Returns (slot
    /// index, product name) of each slot disconnected, in slot order.
    pub fn check_gilrs_disconnections(&mut self, connected: &[usize]) -> (r: Vec<(usize, String)>)
        ensures
            old(self).wf() ==> final(self).wf(),
            after_disconnect(old(self)@, final(self)@, gone_pred(true, connected@)),
            conns(final(self)@) == disconnect_conns(conns(old(self)@), true, connected@),
            patterns(final(self)@) == patterns(old(self)@),
            r@.len() == disconnect_report(old(self)@, gone_pred(true, connected@), old(self)@.len() as int).len(),
            forall|i: int| 0 <= i < r@.len() ==> (#[trigger] r@[i]).0 == disconnect_report(old(self)@, gone_pred(true, connected@), old(self)@.len() as int)[i].0
                && r@[i].1@ == disconnect_report(old(self)@, gone_pred(true, connected@), old(self)@.len() as int)[i].1,
    {
        let r = self.disconnect_missing(true, connected);
        proof { lemma_disconnect_keeps_wf(old(self)@, self@, gone_pred(true, connected@)); }
        r
    }

    /// Disconnect the slots whose XInput controller is no longer present
    /// (`active_indices` lists the connected user indices, 0-3). Returns
    /// (slot index, product name) of each slot disconnected, in slot order.
    pub fn check_xinput_disconnections(&mut self, active_indices: &[usize]) -> (r: Vec<(usize, String)>)
        ensures
            old(self).wf() ==> final(self).wf(),
            after_disconnect(old(self)@, final(self)@, gone_pred(false, active_indices@)),
            conns(final(self)@) == disconnect_conns(conns(old(self)@), false, active_indices@),
            patterns(final(self)@) == patterns(old(self)@),
            r@.len() == disconnect_report(old(self)@, gone_pred(false, active_indices@), old(self)@.len() as int).len(),
            forall|i: int| 0 <= i < r@.len() ==> (#[trigger] r@[i]).0 == disconnect_report(old(self)@, gone_pred(false, active_indices@), old(self)@.len() as int)[i].0
                && r@[i].1@ == disconnect_report(old(self)@, gone_pred(false, active_indices@), old(self)@.len() as int)[i].1,
    {
        let r = self.disconnect_missing(false, active_indices);
        proof { lemma_disconnect_keeps_wf(old(self)@, self@, gone_pred(false, active_indices@)); }
        r
    }

    /// Connect a gamepad to the slot that should handle it (see
    /// [`SlotManager::find_slot_for_gamepad`]). Returns that slot, or
    /// `None` when no slot fits; a gamepad already connected keeps its
    /// slot unchanged.
    pub fn try_connect(&mut self, id: HybridControllerId, name: &str) -> (r: Option<usize>)
        ensures
            r == match find_slot_spec(old(self)@, id, name@) {
                Some((i, _)) => Some(i as usize),
                None => None::<usize>,
            },
            r.is_none() ==> final(self)@ == old(self)@,
            r matches Some(i) ==> {
                &&& final(self)@.len() == old(self)@.len()
                &&& forall|j: int| 0 <= j < old(self)@.len() && j != i ==> final(self)@[j] == old(self)@[j]
                &&& same_config(old(self)@[i as int], final(self)@[i as int])
                &&& final(self)@[i as int].connected_id == Some(id)
                &&& old(self)@[i as int].connected_id == Some(id) ==> final(self)@[i as int] == old(self)@[i as int]
                &&& old(self)@[i as int].connected_id.is_none() ==> (final(self)@[i as int].connected_name matches Some(n) && n@ == name@)
            },
            old(self).wf() ==> final(self).wf(),
            conns(final(self)@) == connect_conns(conns(old(self)@), patterns(old(self)@), id, name@),
            patterns(final(self)@) == patterns(old(self)@),
    {
        proof {
            lemma_slot_of_id_found(self@, id, 0);
            lemma_free_slot_found(self@, name@, 0);
            lemma_conn_find_agrees(self@, id, name@, 0);
        }
        match self.find_slot_for_gamepad(id, name) {
            Some((idx, _is_reconnect)) => {
                if !self.slots[idx].is_connected() {
                    let ghost before = self.slots@;
                    self.slots[idx].connect(id, String::from_str(name));
                    proof {
                        let after = self.slots@;
                        assert(conns(after) =~= conns(before).update(idx as int, (Some(id), Some(name@))));
                        assert(patterns(after) =~= patterns(before));
                        if slots_wf(before) {
                            assert forall|i: int| 0 <= i < after.len() implies (#[trigger] after[i]).slot_index == i by {
                                assert(before[i].slot_index == i);
                            }
                            assert forall|i: int, j: int|
                                0 <= i < after.len() && 0 <= j < after.len() && i != j && (#[trigger] after[i]).connected_id.is_some()
                                    implies after[i].connected_id != (#[trigger] after[j]).connected_id by {
                                if i == idx {
                                    assert(before[j].connected_id != Some(id));
                                } else if j == idx {
                                    assert(before[i].connected_id != Some(id));
                                } else {
                                    assert(before[i].connected_id != before[j].connected_id);
                                }
                            }
                        }
                    }
                    Some(idx)
                } else if self.slots[idx].connected_id == Some(id) {
                    Some(idx)
                } else {
                    None
                }
            },
            None => None,
        }
    }

    /// All slots.
    pub fn slots(&self) -> (r: &[GamepadSlot<A>])
        ensures
            r@ == self@,
    {
        self.slots.as_slice()
    }

    /// The number of slots.
    pub fn len(&self) -> (r: usize)
        ensures
            r == self@.len(),
    {
        self.slots.len()
    }

    /// Whether there are no slots.
    pub fn is_empty(&self) -> (r: bool)
        ensures
            r == (self@.len() == 0),
    {
        self.slots.len() == 0
    }
}

} // verus!
