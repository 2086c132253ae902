use crate::memory::MemoryAccessor;
use crate::sa2_units::{CameraUnit, CharacterUnit, GravityUnit, TimeUnit};
use crate::{capture_error, restore_error, SaveStateUnit, SnapshotError};
use vstd::prelude::*;

verus! {

/// Whether a snapshot is held, and for which level.
#[derive(Clone, Copy, Debug, PartialEq, Eq, Structural)]
pub enum SnapshotState {
    Invalid,
    Valid { level: u32 },
}

/// What the orchestrator carries from one poll to the next: the validity of the snapshot,
/// and the frame counter value seen at the last restore while a second restore is armed.
#[derive(Clone, Copy, Debug, PartialEq, Eq, Structural)]
pub struct Control {
    pub state: SnapshotState,
    pub pending_frame: Option<u32>,
}

/// Something that happened in the target process or at the controls.
#[derive(Clone, Copy, Debug, PartialEq, Eq, Structural)]
pub enum Event {
    /// A capture was asked for; `in_level` tells whether a level is active.
    SaveRequested { in_level: bool, level: u32 },
    /// A restore was asked for in `level`, with the frame counter at `frame`.
    LoadRequested { level: u32, frame: u32 },
    /// The target left the level it was in.
    LevelExited,
    /// A poll went by with the frame counter at `frame`.
    Tick { frame: u32 },
}

/// What the orchestrator does about an event.
#[derive(Clone, Copy, Debug, PartialEq, Eq, Structural)]
pub enum Action {
    Idle,
    CaptureAll,
    RestoreAll,
    Refuse(SnapshotError),
}

/// The control state at start-up: no snapshot, nothing armed.
pub open spec fn initial_control() -> Control {
    Control { state: SnapshotState::Invalid, pending_frame: None }
}

/// The transition of the orchestrator on one event.
pub open spec fn step_spec(c: Control, e: Event) -> (Control, Action) {
    match e {
        Event::SaveRequested { in_level, level } => {
            if in_level {
                (
                    Control { state: SnapshotState::Valid { level }, pending_frame: c.pending_frame },
                    Action::CaptureAll,
                )
            } else {
                (c, Action::Refuse(SnapshotError::NotInLevel))
            }
        },
        Event::LoadRequested { level, frame } => match c.state {
            SnapshotState::Invalid => (c, Action::Refuse(SnapshotError::InvalidSnapshot)),
            SnapshotState::Valid { level: saved } => {
                if saved != level {
                    (c, Action::Refuse(SnapshotError::StageMismatch))
                } else {
                    (Control { state: c.state, pending_frame: Some(frame) }, Action::RestoreAll)
                }
            },
        },
        Event::LevelExited => (initial_control(), Action::Idle),
        Event::Tick { frame } => match c.pending_frame {
            Some(f) => {
                if f != frame {
                    (Control { state: c.state, pending_frame: None }, Action::RestoreAll)
                } else {
                    (c, Action::Idle)
                }
            },
            None => (c, Action::Idle),
        },
    }
}

/// Decides the next control state and the action for an event.
pub fn step(c: Control, e: Event) -> (r: (Control, Action))
    ensures
        r == step_spec(c, e),
{
    match e {
        Event::SaveRequested { in_level, level } => {
            if in_level {
                (
                    Control { state: SnapshotState::Valid { level }, pending_frame: c.pending_frame },
                    Action::CaptureAll,
                )
            } else {
                (c, Action::Refuse(SnapshotError::NotInLevel))
            }
        },
        Event::LoadRequested { level, frame } => match c.state {
            SnapshotState::Invalid => (c, Action::Refuse(SnapshotError::InvalidSnapshot)),
            SnapshotState::Valid { level: saved } => {
                if saved != level {
                    (c, Action::Refuse(SnapshotError::StageMismatch))
                } else {
                    (Control { state: c.state, pending_frame: Some(frame) }, Action::RestoreAll)
                }
            },
        },
        Event::LevelExited => (Control { state: SnapshotState::Invalid, pending_frame: None }, Action::Idle),
        Event::Tick { frame } => match c.pending_frame {
            Some(f) => {
                if f != frame {
                    (Control { state: c.state, pending_frame: None }, Action::RestoreAll)
                } else {
                    (c, Action::Idle)
                }
            },
            None => (c, Action::Idle),
        },
    }
}

/// The buttons that went down since the previous poll.
pub fn pressed_buttons(previous: u32, current: u32) -> (r: u32)
    ensures
        r == !previous & current,
{
    !previous & current
}

/// The button bit that asks for a capture.
pub const SAVE_BUTTON: u32 = 0x1;

/// The button bit that asks for a restore.
pub const LOAD_BUTTON: u32 = 0x2;

/// What one poll read from the target process.
#[derive(Clone, Copy, Debug, PartialEq, Eq, Structural)]
pub struct PollInput {
    pub buttons: u32,
    pub level: u32,
    pub game_state: u32,
    pub frame: u32,
}

/// The events of one poll, in the order they are handled: leaving a level, a capture
/// request, a restore request, and the tick itself.
pub open spec fn poll_events_spec(prev_buttons: u32, prev_game_state: u32, now: PollInput) -> Seq<Event> {
    let pressed = !prev_buttons & now.buttons;
    let exited = if prev_game_state != 0 && now.game_state == 0 {
        seq![Event::LevelExited]
    } else {
        Seq::empty()
    };
    let save = if pressed & SAVE_BUTTON != 0 {
        seq![Event::SaveRequested { in_level: now.game_state != 0, level: now.level }]
    } else {
        Seq::empty()
    };
    let load = if pressed & LOAD_BUTTON != 0 {
        seq![Event::LoadRequested { level: now.level, frame: now.frame }]
    } else {
        Seq::empty()
    };
    exited + save + load + seq![Event::Tick { frame: now.frame }]
}

/// Turns what one poll read, and what the previous poll read, into events.
pub fn poll_events(prev_buttons: u32, prev_game_state: u32, now: PollInput) -> (r: Vec<Event>)
    ensures
        r@ == poll_events_spec(prev_buttons, prev_game_state, now),
{
    let pressed = pressed_buttons(prev_buttons, now.buttons);
    let mut events: Vec<Event> = Vec::new();
    if prev_game_state != 0 && now.game_state == 0 {
        events.push(Event::LevelExited);
    }
    if pressed & SAVE_BUTTON != 0 {
        events.push(Event::SaveRequested { in_level: now.game_state != 0, level: now.level });
    }
    if pressed & LOAD_BUTTON != 0 {
        events.push(Event::LoadRequested { level: now.level, frame: now.frame });
    }
    events.push(Event::Tick { frame: now.frame });
    proof {
        assert(events@ =~= poll_events_spec(prev_buttons, prev_game_state, now));
    }
    events
}

/// How each unit fared in one capture or restore pass.
#[derive(Clone, Copy, Debug)]
pub struct UnitOutcomes {
    pub character: Result<(), SnapshotError>,
    pub camera: Result<(), SnapshotError>,
    pub time: Result<(), SnapshotError>,
    pub gravity: Result<(), SnapshotError>,
}

/// The error of a failed step, as a list of zero or one errors.
pub open spec fn failure_of(r: Result<(), SnapshotError>) -> Seq<SnapshotError> {
    match r {
        Ok(()) => Seq::empty(),
        Err(e) => seq![e],
    }
}

impl UnitOutcomes {
    pub open spec fn all_ok(&self) -> bool {
        self.character is Ok && self.camera is Ok && self.time is Ok && self.gravity is Ok
    }

    pub open spec fn failures(&self) -> Seq<SnapshotError> {
        failure_of(self.character) + failure_of(self.camera) + failure_of(self.time) + failure_of(self.gravity)
    }

    /// The failures, in unit order.
    pub fn errors(&self) -> (r: Vec<SnapshotError>)
        ensures
            r@ == self.failures(),
            r@.len() == 0 <==> self.all_ok(),
    {
        let mut r: Vec<SnapshotError> = Vec::new();
        if let Err(e) = self.character {
            r.push(e);
        }
        proof {
            assert(r@ =~= failure_of(self.character));
        }
        if let Err(e) = self.camera {
            r.push(e);
        }
        proof {
            assert(r@ =~= failure_of(self.character) + failure_of(self.camera));
        }
        if let Err(e) = self.time {
            r.push(e);
        }
        proof {
            assert(r@ =~= failure_of(self.character) + failure_of(self.camera) + failure_of(self.time));
        }
        if let Err(e) = self.gravity {
            r.push(e);
        }
        proof {
            assert(r@ =~= self.failures());
        }
        r
    }
}

/// How one unit's capture from `m` that returned `r` relates what it held `before` and
/// `after`; on a reliable accessor the capture succeeds exactly when it can.
pub open spec fn capture_outcome<U: SaveStateUnit>(
    before: U,
    after: U,
    r: Result<(), SnapshotError>,
    m: Map<int, u8>,
    reliable: bool,
) -> bool {
    &&& after.wf()
    &&& r is Ok ==> after.mirrors(m)
    &&& r matches Err(e) ==> capture_error(e) && after.capture_left(&before, m, e, reliable)
    &&& reliable ==> (r is Ok <==> U::capturable(m))
}

/// How one unit's restore that returned `r` took memory from `before` to `after`; on a
/// reliable accessor the restore succeeds exactly when it can.
pub open spec fn restore_outcome<U: SaveStateUnit>(
    u: U,
    r: Result<(), SnapshotError>,
    before: Map<int, u8>,
    after: Map<int, u8>,
    reliable: bool,
) -> bool {
    &&& r is Ok ==> u.restorable(before) && after == u.restored(before)
    &&& r matches Err(e) ==> restore_error(e) && u.restore_left(before, after, e, reliable)
    &&& reliable ==> (r is Ok <==> u.restorable(before))
}

/// What the orchestrator did about one event.
#[derive(Clone, Copy, Debug)]
pub struct Report {
    pub action: Action,
    pub outcomes: Option<UnitOutcomes>,
}

/// Drives the default units — character, camera, time, gravity, in that order — and keeps
/// the snapshot's validity and the armed second restore.
pub struct Orchestrator {
    character: CharacterUnit,
    camera: CameraUnit,
    time: TimeUnit,
    gravity: GravityUnit,
    control: Control,
}

impl Orchestrator {
    pub closed spec fn wf(&self) -> bool {
        self.character.wf() && self.camera.wf() && self.time.wf() && self.gravity.wf()
    }

    pub closed spec fn control_spec(&self) -> Control {
        self.control
    }

    pub closed spec fn character_unit(&self) -> CharacterUnit {
        self.character
    }

    pub closed spec fn camera_unit(&self) -> CameraUnit {
        self.camera
    }

    pub closed spec fn time_unit(&self) -> TimeUnit {
        self.time
    }

    pub closed spec fn gravity_unit(&self) -> GravityUnit {
        self.gravity
    }

    /// Every unit holds its start-up snapshot.
    pub open spec fn zeroed(&self) -> bool {
        self.character_unit().zeroed() && self.camera_unit().zeroed() && self.time_unit().zeroed()
            && self.gravity_unit().zeroed()
    }

    /// A capture pass from `m` that returned `r` took every unit, in order, from what `before`
    /// held to what `self` holds, whatever the other units' outcomes.
    pub open spec fn captured_from(&self, before: &Orchestrator, r: UnitOutcomes, m: Map<int, u8>, reliable: bool) -> bool {
        &&& capture_outcome(before.character_unit(), self.character_unit(), r.character, m, reliable)
        &&& capture_outcome(before.camera_unit(), self.camera_unit(), r.camera, m, reliable)
        &&& capture_outcome(before.time_unit(), self.time_unit(), r.time, m, reliable)
        &&& capture_outcome(before.gravity_unit(), self.gravity_unit(), r.gravity, m, reliable)
    }

    /// A restore pass that returned `r` took memory from `m0` to `m4` through every unit in
    /// turn, each starting from what the one before it left, whatever its outcome.
    pub open spec fn restore_trace(&self, r: UnitOutcomes, m0: Map<int, u8>, m4: Map<int, u8>, reliable: bool) -> bool {
        exists|m1: Map<int, u8>, m2: Map<int, u8>, m3: Map<int, u8>|
            {
                &&& #[trigger] restore_outcome(self.character_unit(), r.character, m0, m1, reliable)
                &&& #[trigger] restore_outcome(self.camera_unit(), r.camera, m1, m2, reliable)
                &&& #[trigger] restore_outcome(self.time_unit(), r.time, m2, m3, reliable)
                &&& restore_outcome(self.gravity_unit(), r.gravity, m3, m4, reliable)
            }
    }

    /// Every unit holds exactly what memory `m` holds at its anchors.
    pub closed spec fn mirrors(&self, m: Map<int, u8>) -> bool {
        self.character.mirrors(m) && self.camera.mirrors(m) && self.time.mirrors(m) && self.gravity.mirrors(m)
    }

    /// Every unit can be restored in turn, starting from `m`.
    pub closed spec fn restorable(&self, m: Map<int, u8>) -> bool {
        let m1 = self.character.restored(m);
        let m2 = self.camera.restored(m1);
        let m3 = self.time.restored(m2);
        self.character.restorable(m) && self.camera.restorable(m1) && self.time.restorable(m2)
            && self.gravity.restorable(m3)
    }

    /// Memory after every unit was restored in turn, starting from `m`.
    pub closed spec fn restored(&self, m: Map<int, u8>) -> Map<int, u8> {
        self.gravity.restored(self.time.restored(self.camera.restored(self.character.restored(m))))
    }

    /// The snapshots held by `self` and `other` are the same.
    pub closed spec fn same_snapshot(&self, other: &Orchestrator) -> bool {
        self.character == other.character && self.camera == other.camera && self.time == other.time
            && self.gravity == other.gravity
    }

    /// Empty units, no snapshot, nothing armed.
    pub fn new() -> (r: Orchestrator)
        ensures
            r.wf(),
            r.zeroed(),
            r.control_spec() == initial_control(),
    {
        Orchestrator {
            character: CharacterUnit::new(),
            camera: CameraUnit::new(),
            time: TimeUnit::new(),
            gravity: GravityUnit::new(),
            control: Control { state: SnapshotState::Invalid, pending_frame: None },
        }
    }

    pub fn control(&self) -> (r: Control)
        ensures
            r == self.control_spec(),
    {
        self.control
    }

    /// Captures every unit; a failing unit does not keep the later ones from being captured.
    pub fn capture_all<M: MemoryAccessor>(&mut self, mem: &M) -> (r: UnitOutcomes)
        requires
            old(self).wf(),
        ensures
            final(self).wf(),
            final(self).control_spec() == old(self).control_spec(),
            r.all_ok() ==> final(self).mirrors(mem.memory()),
            r.character matches Err(e) ==> capture_error(e),
            r.camera matches Err(e) ==> capture_error(e),
            r.time matches Err(e) ==> capture_error(e),
            r.gravity matches Err(e) ==> capture_error(e),
            final(self).captured_from(old(self), r, mem.memory(), mem.reliable()),
    {
        let character = self.character.save(mem);
        let camera = self.camera.save(mem);
        let time = self.time.save(mem);
        let gravity = self.gravity.save(mem);
        UnitOutcomes { character, camera, time, gravity }
    }

    /// Restores every unit in turn; a failing unit does not keep the later ones from being
    /// restored, and nothing already written is undone.
    pub fn restore_all<M: MemoryAccessor>(&self, mem: &mut M) -> (r: UnitOutcomes)
        requires
            self.wf(),
        ensures
            r.all_ok() ==> self.restorable(old(mem).memory()) && final(mem).memory() == self.restored(
                old(mem).memory(),
            ),
            r.character matches Err(e) ==> restore_error(e),
            r.camera matches Err(e) ==> restore_error(e),
            r.time matches Err(e) ==> restore_error(e),
            r.gravity matches Err(e) ==> restore_error(e),
            self.restore_trace(r, old(mem).memory(), final(mem).memory(), old(mem).reliable()),
            final(mem).reliable() == old(mem).reliable(),
            old(mem).reliable() ==> final(mem).reliable(),
    {
        let ghost m0 = mem.memory();
        let ghost reliable = mem.reliable();
        let character = self.character.load(mem);
        let ghost m1 = mem.memory();
        let camera = self.camera.load(mem);
        let ghost m2 = mem.memory();
        let time = self.time.load(mem);
        let ghost m3 = mem.memory();
        let gravity = self.gravity.load(mem);
        let r = UnitOutcomes { character, camera, time, gravity };
        proof {
            assert(restore_outcome(self.character_unit(), r.character, m0, m1, reliable));
            assert(restore_outcome(self.camera_unit(), r.camera, m1, m2, reliable));
            assert(restore_outcome(self.time_unit(), r.time, m2, m3, reliable));
            assert(restore_outcome(self.gravity_unit(), r.gravity, m3, mem.memory(), reliable));
        }
        r
    }

    /// Handles one event: updates the control state as `step` says and carries out its action.
    pub fn handle<M: MemoryAccessor>(&mut self, mem: &mut M, event: Event) -> (r: Report)
        requires
            old(self).wf(),
        ensures
            final(self).wf(),
            final(self).control_spec() == step_spec(old(self).control_spec(), event).0,
            r.action == step_spec(old(self).control_spec(), event).1,
            r.action != Action::CaptureAll ==> final(self).same_snapshot(old(self)),
            r.action != Action::RestoreAll ==> final(mem).memory() == old(mem).memory(),
            r.action == Action::CaptureAll || r.action == Action::RestoreAll <==> r.outcomes is Some,
            r.action == Action::CaptureAll && (r.outcomes matches Some(o) && o.all_ok())
                ==> final(self).mirrors(old(mem).memory()),
            r.action == Action::RestoreAll && (r.outcomes matches Some(o) && o.all_ok())
                ==> final(mem).memory() == old(self).restored(old(mem).memory()),
            r.action == Action::CaptureAll ==> (r.outcomes matches Some(o) && final(self).captured_from(
                old(self),
                o,
                old(mem).memory(),
                old(mem).reliable(),
            )),
            r.action == Action::RestoreAll ==> (r.outcomes matches Some(o) && old(self).restore_trace(
                o,
                old(mem).memory(),
                final(mem).memory(),
                old(mem).reliable(),
            )),
    {
        let (control, action) = step(self.control, event);
        let outcomes = match action {
            Action::CaptureAll => Some(self.capture_all(&*mem)),
            Action::RestoreAll => Some(self.restore_all(mem)),
            _ => None,
        };
        self.control = control;
        Report { action, outcomes }
    }
}

/// A restore asked for while no snapshot is held is refused as invalid, and nothing is
/// restored.
pub proof fn lemma_load_without_snapshot(c: Control, level: u32, frame: u32)
    requires
        c.state == SnapshotState::Invalid,
    ensures
        step_spec(c, Event::LoadRequested { level, frame }) == (c, Action::Refuse(SnapshotError::InvalidSnapshot)),
{
}

/// A snapshot taken in one level cannot be restored in another: the restore is refused as
/// a stage mismatch and nothing is restored.
pub proof fn lemma_load_in_other_level(c: Control, level: u32, other: u32, frame: u32)
    requires
        level != other,
    ensures
        ({
            let c1 = step_spec(c, Event::SaveRequested { in_level: true, level }).0;
            step_spec(c1, Event::LoadRequested { level: other, frame }) == (
                c1,
                Action::Refuse(SnapshotError::StageMismatch),
            )
        }),
{
}

/// Leaving the level invalidates the snapshot, even for a restore asked for back in the
/// same level.
pub proof fn lemma_exit_invalidates(c: Control, level: u32, frame: u32)
    ensures
        ({
            let c1 = step_spec(c, Event::SaveRequested { in_level: true, level }).0;
            let c2 = step_spec(c1, Event::LevelExited).0;
            step_spec(c2, Event::LoadRequested { level, frame }).1 == Action::Refuse(
                SnapshotError::InvalidSnapshot,
            )
        }),
{
}

/// After a restore, the second restore comes at the first tick whose frame counter differs
/// from the one seen at the restore, and only once: ticks at the same frame before it, and
/// any tick after it, do nothing.
pub proof fn lemma_second_restore_once(c: Control, level: u32, frame: u32, same: u32, next: u32, later: u32)
    requires
        c.state == (SnapshotState::Valid { level }),
        same == frame,
        next != frame,
    ensures
        ({
            let (c1, a1) = step_spec(c, Event::LoadRequested { level, frame });
            let (c2, a2) = step_spec(c1, Event::Tick { frame: same });
            let (c3, a3) = step_spec(c2, Event::Tick { frame: next });
            let (c4, a4) = step_spec(c3, Event::Tick { frame: later });
            &&& a1 == Action::RestoreAll
            &&& a2 == Action::Idle
            &&& c2 == c1
            &&& a3 == Action::RestoreAll
            &&& a4 == Action::Idle
            &&& c4 == c3
        }),
{
}

/// Leaving the level cancels an armed second restore.
pub proof fn lemma_exit_disarms(c: Control, frame: u32)
    ensures
        ({
            let c1 = step_spec(c, Event::LevelExited).0;
            step_spec(c1, Event::Tick { frame }).1 == Action::Idle
        }),
{
}

/// Restoring right after a complete capture, with memory untouched in between, succeeds
/// for every unit in turn and leaves memory as it was.
pub proof fn lemma_snapshot_round_trip(o: Orchestrator, m: Map<int, u8>)
    requires
        o.wf(),
        o.mirrors(m),
    ensures
        o.restorable(m),
        o.restored(m) == m,
{
    o.character.lemma_round_trip(m);
    o.camera.lemma_round_trip(m);
    o.time.lemma_round_trip(m);
    o.gravity.lemma_round_trip(m);
}

} // verus!
