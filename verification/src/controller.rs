//! The dock-presence state machine.
//!
//! The controller tracks at most one dock at a time: it is either untracked,
//! or tracking the identity of the dock that is currently present, for which
//! exactly one sleep-inhibitor lock is held. Each startup snapshot entry and
//! each live hotplug event is turned into a lock action — acquire, release,
//! or nothing — for the surrounding process to perform.

use vstd::prelude::*;

use crate::device::DeviceDescriptor;
use crate::device::bytes_eq;
use crate::device::copy_bytes;
use crate::device::is_dock;
use crate::device::spec_is_dock;

verus! {

/// What a hotplug event reports about a device.
#[derive(Debug, Clone, Copy, PartialEq, Eq, Structural)]
pub enum EventKind {
    /// The device was attached.
    Attach,
    /// The device was detached.
    Detach,
    /// Any other notification; always ignored.
    Other,
}

/// One hotplug event: the stable identity of the device instance, the
/// attribute pair it carried (meaningful on attach; possibly partial or
/// absent on detach), and what happened.
pub struct HotplugEvent {
    pub identity: Vec<u8>,
    pub descriptor: DeviceDescriptor,
    pub kind: EventKind,
}

/// One entry of the startup snapshot of currently-attached devices.
pub struct DeviceRecord {
    pub identity: Vec<u8>,
    pub descriptor: DeviceDescriptor,
}

/// What the surrounding process must do to the inhibitor lock after a
/// startup scan or an event: acquire one, release the held one, or nothing.
#[derive(Debug, Clone, Copy, PartialEq, Eq, Structural)]
pub enum LockAction {
    Acquire,
    Release,
    Nothing,
}

/// The controller: a single optional slot holding the identity of the
/// tracked dock. `None` means no dock is tracked and no lock is held;
/// `Some` means the dock with that identity is present and one lock is
/// held for it.
pub struct DockPresenceController {
    pub dock: Option<Vec<u8>>,
}

impl DockPresenceController {
    /// The tracked identity as a mathematical value.
    pub open spec fn state(self) -> Option<Seq<u8>> {
        match self.dock {
            Some(id) => Some(id@),
            None => None,
        }
    }
}

/// The successor state for one event.
///
/// Untracked: an attach whose descriptor matches the dock adopts that
/// event's identity; everything else is ignored. Tracked: a detach of the
/// tracked identity clears the slot; everything else — including an attach
/// for the tracked identity, and any event for another identity — leaves
/// it unchanged.
pub open spec fn spec_step(st: Option<Seq<u8>>, ev: HotplugEvent) -> Option<Seq<u8>> {
    match st {
        None => {
            if ev.kind is Attach && spec_is_dock(ev.descriptor) {
                Some(ev.identity@)
            } else {
                None
            }
        },
        Some(id) => {
            if ev.kind is Detach && ev.identity@ == id {
                None
            } else {
                st
            }
        },
    }
}

/// The lock action for one event: acquire exactly when an untracked
/// controller adopts a matching attach, release exactly when the tracked
/// identity detaches, nothing otherwise.
pub open spec fn spec_action(st: Option<Seq<u8>>, ev: HotplugEvent) -> LockAction {
    match st {
        None => {
            if ev.kind is Attach && spec_is_dock(ev.descriptor) {
                LockAction::Acquire
            } else {
                LockAction::Nothing
            }
        },
        Some(id) => {
            if ev.kind is Detach && ev.identity@ == id {
                LockAction::Release
            } else {
                LockAction::Nothing
            }
        },
    }
}

/// The state adopted from a startup snapshot: the identity of the first
/// entry whose descriptor matches the dock, if any.
pub open spec fn spec_startup_state(snap: Seq<DeviceRecord>) -> Option<Seq<u8>>
    decreases snap.len(),
{
    if snap.len() == 0 {
        None
    } else if spec_is_dock(snap[0].descriptor) {
        Some(snap[0].identity@)
    } else {
        spec_startup_state(snap.drop_first())
    }
}

/// How many locks are held in a given state: exactly one when a dock is
/// tracked, none otherwise.
pub open spec fn lock_count(st: Option<Seq<u8>>) -> int {
    if st is Some {
        1
    } else {
        0
    }
}

/// The change an action makes to the number of held locks when the
/// surrounding process performs it.
pub open spec fn lock_delta(a: LockAction) -> int {
    match a {
        LockAction::Acquire => 1,
        LockAction::Release => -1,
        LockAction::Nothing => 0,
    }
}

/// The state reached after a whole sequence of events.
pub open spec fn run_state(st: Option<Seq<u8>>, evs: Seq<HotplugEvent>) -> Option<Seq<u8>>
    decreases evs.len(),
{
    if evs.len() == 0 {
        st
    } else {
        run_state(spec_step(st, evs[0]), evs.drop_first())
    }
}

/// The number of locks held after a whole sequence of events, starting
/// with `held` locks in state `st` and performing each event's action.
pub open spec fn held_after(held: int, st: Option<Seq<u8>>, evs: Seq<HotplugEvent>) -> int
    decreases evs.len(),
{
    if evs.len() == 0 {
        held
    } else {
        held_after(
            held + lock_delta(spec_action(st, evs[0])),
            spec_step(st, evs[0]),
            evs.drop_first(),
        )
    }
}

/// One transition keeps the books balanced: performing the action that a
/// step demands leaves exactly as many locks held as the successor state
/// says — one when tracking, none otherwise.
pub proof fn lemma_step_lock_count(st: Option<Seq<u8>>, ev: HotplugEvent)
    ensures
        lock_count(st) + lock_delta(spec_action(st, ev)) == lock_count(spec_step(st, ev)),
{
}

/// A whole run keeps the books balanced: starting consistent, the number
/// of locks held after any event sequence equals what the final state says.
pub proof fn lemma_run_lock_count(st: Option<Seq<u8>>, evs: Seq<HotplugEvent>, held: int)
    requires
        held == lock_count(st),
    ensures
        held_after(held, st, evs) == lock_count(run_state(st, evs)),
    decreases evs.len(),
{
    if evs.len() != 0 {
        lemma_step_lock_count(st, evs[0]);
        lemma_run_lock_count(
            spec_step(st, evs[0]),
            evs.drop_first(),
            held + lock_delta(spec_action(st, evs[0])),
        );
    }
}

/// At most one lock is ever live: for any sequence of events and any
/// consistent starting point — untracked with no lock, or tracked with
/// one, as a startup scan leaves it — the number of held locks after
/// every prefix of the sequence is 0 or 1.
pub proof fn lemma_at_most_one_lock(st: Option<Seq<u8>>, evs: Seq<HotplugEvent>, i: int)
    requires
        0 <= i <= evs.len(),
    ensures
        0 <= held_after(lock_count(st), st, evs.take(i)) <= 1,
{
    lemma_run_lock_count(st, evs.take(i), lock_count(st));
}

/// No leak on detach: a detach event for the tracked identity releases
/// the held lock and leaves the controller untracked.
pub proof fn lemma_detach_releases(st: Option<Seq<u8>>, ev: HotplugEvent, id: Seq<u8>)
    requires
        st == Some(id),
        ev.kind is Detach,
        ev.identity@ == id,
    ensures
        spec_action(st, ev) == LockAction::Release,
        spec_step(st, ev) is None,
{
}

/// A repeated attach is ignored: an attach event for the identity already
/// tracked acquires no second lock and changes nothing.
pub proof fn lemma_reattach_ignored(st: Option<Seq<u8>>, ev: HotplugEvent, id: Seq<u8>)
    requires
        st == Some(id),
        ev.kind is Attach,
        ev.identity@ == id,
    ensures
        spec_action(st, ev) == LockAction::Nothing,
        spec_step(st, ev) == st,
{
}

/// Irrelevant events are ignored: an event for an identity other than the
/// tracked one — or, when untracked, one whose descriptor does not match
/// the dock — demands no lock call and changes nothing.
pub proof fn lemma_irrelevant_ignored(st: Option<Seq<u8>>, ev: HotplugEvent)
    requires
        st matches Some(id) ==> ev.identity@ != id,
        st is None ==> !spec_is_dock(ev.descriptor),
    ensures
        spec_action(st, ev) == LockAction::Nothing,
        spec_step(st, ev) == st,
{
}

impl DockPresenceController {
    /// A controller that tracks nothing and holds no lock.
    pub fn new() -> (r: DockPresenceController)
        ensures
            r.state() is None,
    {
        DockPresenceController { dock: None }
    }

    /// The one-time startup scan: adopt the first snapshot entry whose
    /// descriptor matches the dock, and ask for one lock acquisition
    /// exactly when one was adopted.
    pub fn startup(snapshot: &Vec<DeviceRecord>) -> (r: (DockPresenceController, LockAction))
        ensures
            r.0.state() == spec_startup_state(snapshot@),
            r.1 == (if spec_startup_state(snapshot@) is Some {
                LockAction::Acquire
            } else {
                LockAction::Nothing
            }),
    {
        let mut i: usize = 0;
        proof {
            assert(snapshot@.skip(0) =~= snapshot@);
        }
        while i < snapshot.len()
            invariant
                i <= snapshot@.len(),
                spec_startup_state(snapshot@) == spec_startup_state(snapshot@.skip(i as int)),
            decreases snapshot@.len() - i,
        {
            proof {
                assert(snapshot@.skip(i as int).drop_first() =~= snapshot@.skip(i as int + 1));
            }
            if is_dock(&snapshot[i].descriptor) {
                let controller = DockPresenceController {
                    dock: Some(copy_bytes(&snapshot[i].identity)),
                };
                return (controller, LockAction::Acquire);
            }
            i += 1;
        }
        (DockPresenceController { dock: None }, LockAction::Nothing)
    }

    /// Apply one live event: move to the successor state and report the
    /// lock action that the transition demands.
    pub fn on_event(&mut self, ev: &HotplugEvent) -> (a: LockAction)
        ensures
            final(self).state() == spec_step(old(self).state(), *ev),
            a == spec_action(old(self).state(), *ev),
    {
        match ev.kind {
            EventKind::Attach => {
                if self.dock.is_none() && is_dock(&ev.descriptor) {
                    self.dock = Some(copy_bytes(&ev.identity));
                    LockAction::Acquire
                } else {
                    LockAction::Nothing
                }
            },
            EventKind::Detach => {
                let matches_tracked: bool = match &self.dock {
                    Some(id) => bytes_eq(id, &ev.identity),
                    None => false,
                };
                if matches_tracked {
                    self.dock = None;
                    LockAction::Release
                } else {
                    LockAction::Nothing
                }
            },
            EventKind::Other => LockAction::Nothing,
        }
    }
}

} // verus!
