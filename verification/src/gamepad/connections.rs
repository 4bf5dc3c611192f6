//! Hot-plug handling of the hybrid gamepad provider: which controllers of
//! the two backends (gilrs and XInput) get which slot, at start-up and on
//! each periodic connection check.
//!
//! An Xbox controller shows up in both backends; while XInput sees any
//! controller, gilrs controllers with an Xbox-like name are left to XInput.

use vstd::prelude::*;

use crate::gamepad::buttons::push_str_chars;
use crate::gamepad::hybrid_id::HybridControllerId;
use crate::gamepad::slot::{
    conns, connect_conns, disconnect_conns, patterns, SlotManager,
};
use crate::gamepad::xinput::CachedXInputState;
use crate::text::{chars_of, contains, decimal, lowercase, occurs_in, push_decimal, to_lowercase};
use vstd::string::StringExecFns;

verus! {

broadcast use vstd::array::group_array_axioms;

/// A controller gilrs reports as connected.
#[derive(Debug, Clone)]
pub struct GilrsPad {
    /// The gilrs gamepad index.
    pub id: usize,
    /// The product name gilrs reports.
    pub name: String,
}

/// What the provider tracks of the four XInput user indices.
#[derive(Debug, Clone, Copy)]
pub struct XInputTracking {
    /// The user index has a controller assigned.
    pub connected: [bool; 4],
    /// The last state polled per user index.
    pub last_state: [Option<CachedXInputState>; 4],
}

/// The connection view of slots.
pub type ConnView = Seq<(Option<HybridControllerId>, Option<Seq<char>>)>;

/// The name suggests an Xbox controller.
pub open spec fn is_xbox_spec(name: Seq<char>) -> bool {
    let l = lowercase(name);
    occurs_in("xbox"@, l) || occurs_in("xinput"@, l) || occurs_in("x-box"@, l) || occurs_in("microsoft"@, l)
}

/// Whether a controller name suggests an Xbox controller (contains
/// "xbox", "xinput", "x-box" or "microsoft", in any case).
pub fn is_xbox_name(name: &str) -> (r: bool)
    ensures
        r == is_xbox_spec(name@),
{
    let l = chars_of(to_lowercase(name).as_str());
    contains(&l, &chars_of("xbox")) || contains(&l, &chars_of("xinput")) || contains(&l, &chars_of("x-box"))
        || contains(&l, &chars_of("microsoft"))
}

/// The name XInput controller `idx` (0-based) is known by.
pub open spec fn xinput_name(idx: int) -> Seq<char> {
    "XInput Controller "@ + decimal((idx + 1) as nat)
}

/// The name XInput controller `user_index` (0-based) is known by:
/// `"XInput Controller {user_index + 1}"`.
pub fn xinput_controller_name(user_index: usize) -> (r: String)
    requires
        user_index < 4,
    ensures
        r@ == xinput_name(user_index as int),
{
    let mut s = String::from_str("XInput Controller ");
    push_decimal(&mut s, user_index as u64 + 1);
    s
}

/// The connections after offering the first `n` gilrs pads to the slots,
/// leaving Xbox-named ones to XInput when `skip_xbox`.
pub open spec fn connect_gilrs_spec(c: ConnView, p: Seq<Seq<char>>, pads: Seq<GilrsPad>, skip_xbox: bool, n: int) -> ConnView
    decreases n,
{
    if n <= 0 {
        c
    } else {
        let prev = connect_gilrs_spec(c, p, pads, skip_xbox, n - 1);
        let pad = pads[n - 1];
        if skip_xbox && is_xbox_spec(pad.name@) {
            prev
        } else {
            connect_conns(prev, p, HybridControllerId::Gilrs(pad.id), pad.name@)
        }
    }
}

/// The connections after offering the present XInput controllers among
/// the first `n` user indices (only those not yet tracked, when
/// `only_new`).
pub open spec fn connect_xinput_spec(c: ConnView, p: Seq<Seq<char>>, present: Seq<bool>, watched: Seq<bool>, only_new: bool, n: int) -> ConnView
    decreases n,
{
    if n <= 0 {
        c
    } else {
        let prev = connect_xinput_spec(c, p, present, watched, only_new, n - 1);
        if present[n - 1] && (!only_new || !watched[n - 1]) {
            connect_conns(prev, p, HybridControllerId::XInput((n - 1) as usize), xinput_name(n - 1))
        } else {
            prev
        }
    }
}

/// Some XInput user index is tracked.
pub open spec fn any_tracked(t: Seq<bool>) -> bool {
    t[0] || t[1] || t[2] || t[3]
}

/// The gilrs ids of the connected pads.
pub open spec fn pad_ids(pads: Seq<GilrsPad>) -> Seq<usize> {
    pads.map_values(|pad: GilrsPad| pad.id)
}

/// The present XInput user indices among the first `n`, in order.
pub open spec fn present_indices(present: Seq<bool>, n: int) -> Seq<usize>
    decreases n,
{
    if n <= 0 {
        Seq::empty()
    } else if present[n - 1] {
        present_indices(present, n - 1).push((n - 1) as usize)
    } else {
        present_indices(present, n - 1)
    }
}

/// Offer the gilrs pads to the slots, in order.
fn connect_gilrs<A>(manager: &mut SlotManager<A>, pads: &[GilrsPad], skip_xbox: bool)
    ensures
        old(manager).wf() ==> final(manager).wf(),
        patterns(final(manager)@) == patterns(old(manager)@),
        conns(final(manager)@) == connect_gilrs_spec(conns(old(manager)@), patterns(old(manager)@), pads@, skip_xbox, pads@.len() as int),
{
    let ghost c0 = conns(manager@);
    let ghost p0 = patterns(manager@);
    let ghost wf0 = manager.wf();
    let mut i: usize = 0;
    while i < pads.len()
        invariant
            i <= pads@.len(),
            c0 == conns(old(manager)@),
            p0 == patterns(old(manager)@),
            wf0 == old(manager).wf(),
            wf0 ==> manager.wf(),
            patterns(manager@) == p0,
            conns(manager@) == connect_gilrs_spec(c0, p0, pads@, skip_xbox, i as int),
        decreases pads.len() - i,
    {
        let pad = &pads[i];
        if !(skip_xbox && is_xbox_name(pad.name.as_str())) {
            manager.try_connect(HybridControllerId::from_gilrs(pad.id), pad.name.as_str());
        }
        i = i + 1;
    }
}

/// Offer XInput controller `idx` to the slots when it is present (and, if
/// `only_new`, not tracked yet). Returns whether it is tracked afterwards.
fn offer_xinput<A>(manager: &mut SlotManager<A>, idx: usize, tracked_now: bool, present: bool, only_new: bool) -> (r: bool)
    requires
        idx < 4,
    ensures
        old(manager).wf() ==> final(manager).wf(),
        patterns(final(manager)@) == patterns(old(manager)@),
        conns(final(manager)@) == (if present && (!only_new || !tracked_now) {
            connect_conns(conns(old(manager)@), patterns(old(manager)@), HybridControllerId::XInput(idx), xinput_name(idx as int))
        } else {
            conns(old(manager)@)
        }),
        r == (tracked_now || present),
{
    if present && (!only_new || !tracked_now) {
        let name = xinput_controller_name(idx);
        manager.try_connect(HybridControllerId::from_xinput(idx), name.as_str());
        true
    } else {
        tracked_now
    }
}

/// Connect the controllers found at start-up: the gilrs pads first
/// (Xbox-named ones left to XInput while it tracks a controller), then
/// every present XInput controller, which becomes tracked.
pub fn assign_initial_slots<A>(
    manager: &mut SlotManager<A>,
    tracking: &mut XInputTracking,
    gilrs_pads: &[GilrsPad],
    xinput_present: [bool; 4],
)
    ensures
        old(manager).wf() ==> final(manager).wf(),
        patterns(final(manager)@) == patterns(old(manager)@),
        conns(final(manager)@) == connect_xinput_spec(
            connect_gilrs_spec(
                conns(old(manager)@),
                patterns(old(manager)@),
                gilrs_pads@,
                any_tracked(old(tracking).connected@),
                gilrs_pads@.len() as int,
            ),
            patterns(old(manager)@),
            xinput_present@,
            old(tracking).connected@,
            false,
            4,
        ),
        forall|i: int| 0 <= i < 4 ==> final(tracking).connected@[i] == (old(tracking).connected@[i] || xinput_present@[i]),
        final(tracking).last_state == old(tracking).last_state,
{
    let skip = tracking.connected[0] || tracking.connected[1] || tracking.connected[2] || tracking.connected[3];
    connect_gilrs(manager, gilrs_pads, skip);
    let c = tracking.connected;
    let n0 = offer_xinput(manager, 0, c[0], xinput_present[0], false);
    let n1 = offer_xinput(manager, 1, c[1], xinput_present[1], false);
    let n2 = offer_xinput(manager, 2, c[2], xinput_present[2], false);
    let n3 = offer_xinput(manager, 3, c[3], xinput_present[3], false);
    proof {
        reveal_with_fuel(connect_xinput_spec, 5);
    }
    tracking.connected = [n0, n1, n2, n3];
    assert(tracking.connected@[0] == n0 && tracking.connected@[1] == n1 && tracking.connected@[2] == n2
        && tracking.connected@[3] == n3);
}

/// The periodic connection check: drop the slots of gilrs pads no longer
/// connected; stop tracking absent XInput controllers (forgetting their
/// last state) and drop their slots; then offer the gilrs pads (Xbox-named
/// ones left to XInput while it tracks a controller) and the present
/// XInput controllers not tracked yet, which become tracked.
pub fn check_all_connections<A>(
    manager: &mut SlotManager<A>,
    tracking: &mut XInputTracking,
    gilrs_pads: &[GilrsPad],
    xinput_present: [bool; 4],
)
    ensures
        old(manager).wf() ==> final(manager).wf(),
        patterns(final(manager)@) == patterns(old(manager)@),
        ({
            let kept = Seq::new(4, |i: int| old(tracking).connected@[i] && xinput_present@[i]);
            let c1 = disconnect_conns(conns(old(manager)@), true, pad_ids(gilrs_pads@));
            let c2 = disconnect_conns(c1, false, present_indices(xinput_present@, 4));
            let c3 = connect_gilrs_spec(c2, patterns(old(manager)@), gilrs_pads@, any_tracked(kept), gilrs_pads@.len() as int);
            conns(final(manager)@) == connect_xinput_spec(c3, patterns(old(manager)@), xinput_present@, kept, true, 4)
        }),
        final(tracking).connected@ == xinput_present@,
        forall|i: int| 0 <= i < 4 ==> final(tracking).last_state@[i] == (if old(tracking).connected@[i] && !xinput_present@[i] {
            None
        } else {
            old(tracking).last_state@[i]
        }),
{
    let ghost t0 = tracking.connected@;
    // Collect the gilrs ids still connected.
    let mut ids: Vec<usize> = Vec::new();
    let mut k: usize = 0;
    while k < gilrs_pads.len()
        invariant
            k <= gilrs_pads@.len(),
            ids@ == pad_ids(gilrs_pads@).take(k as int),
        decreases gilrs_pads.len() - k,
    {
        ids.push(gilrs_pads[k].id);
        k = k + 1;
        assert(ids@ =~= pad_ids(gilrs_pads@).take(k as int));
    }
    assert(ids@ =~= pad_ids(gilrs_pads@));
    manager.check_gilrs_disconnections(ids.as_slice());
    // Absent XInput controllers stop being tracked.
    let c = tracking.connected;
    let st = tracking.last_state;
    let k0 = c[0] && xinput_present[0];
    let k1 = c[1] && xinput_present[1];
    let k2 = c[2] && xinput_present[2];
    let k3 = c[3] && xinput_present[3];
    let s_0 = if c[0] && !xinput_present[0] { None } else { st[0] };
    let s_1 = if c[1] && !xinput_present[1] { None } else { st[1] };
    let s_2 = if c[2] && !xinput_present[2] { None } else { st[2] };
    let s_3 = if c[3] && !xinput_present[3] { None } else { st[3] };
    tracking.last_state = [s_0, s_1, s_2, s_3];
    let mut active: Vec<usize> = Vec::new();
    if xinput_present[0] {
        active.push(0);
    }
    if xinput_present[1] {
        active.push(1);
    }
    if xinput_present[2] {
        active.push(2);
    }
    if xinput_present[3] {
        active.push(3);
    }
    proof {
        reveal_with_fuel(present_indices, 5);
        assert(active@ =~= present_indices(xinput_present@, 4));
    }
    manager.check_xinput_disconnections(active.as_slice());
    let ghost kept = Seq::new(4, |i: int| t0[i] && xinput_present@[i]);
    assert(kept[0] == k0 && kept[1] == k1 && kept[2] == k2 && kept[3] == k3);
    let skip = k0 || k1 || k2 || k3;
    connect_gilrs(manager, gilrs_pads, skip);
    let n0 = offer_xinput(manager, 0, k0, xinput_present[0], true);
    let n1 = offer_xinput(manager, 1, k1, xinput_present[1], true);
    let n2 = offer_xinput(manager, 2, k2, xinput_present[2], true);
    let n3 = offer_xinput(manager, 3, k3, xinput_present[3], true);
    proof {
        reveal_with_fuel(connect_xinput_spec, 5);
    }
    tracking.connected = [n0, n1, n2, n3];
    assert(tracking.connected@ =~= xinput_present@);
    assert(tracking.last_state@[0] == s_0 && tracking.last_state@[1] == s_1 && tracking.last_state@[2] == s_2
        && tracking.last_state@[3] == s_3);
}

} // verus!
