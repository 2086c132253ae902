use onvars_tool::memory::{MemoryAccessor, MemoryImage};
use onvars_tool::orchestrator::{
    poll_events, pressed_buttons, step, Action, Control, Event, Orchestrator, PollInput, SnapshotState,
    UnitOutcomes,
};
use onvars_tool::sa2_units::{
    CameraUnit, CharacterUnit, GravityUnit, LevelCollisionUnit, TimeUnit, CAMERA_ADDRESS, CHARACTER_POINTER,
    CONS_PAST_POSITIONS_ADDRESS, CONS_PAST_POSITIONS_INDEX, GRAVITY_ADDRESS, LEVEL_COLLISION_ADDRESS,
    LEVEL_COLLISION_COUNT_ADDRESS, PAST_POSITIONS_INDEX, PAST_POSITIONS_POINTER, PAST_ROTATIONS_POINTER,
    TIME_ADDRESS,
};
use onvars_tool::{SaveStateUnit, SnapshotError};

const LOW: u64 = 0x0174_0000;
const HIGH: u64 = 0x01df_0000;

const CHARACTER: u64 = 0x0180_0000;
const ACTION: u64 = 0x0181_0000;
const COLLISION_DATA: u64 = 0x0182_0000;
const COLLISION_ELEMENT: u64 = 0x0183_0000;
const METRICS: u64 = 0x0184_0000;
const PHYSICS: u64 = 0x0185_0000;
const LEVEL_COLLISION: u64 = 0x0186_0000;
const PAST_POSITIONS: u64 = 0x0187_0000;
const PAST_ROTATIONS: u64 = 0x0188_0000;

fn put_u32(mem: &mut MemoryImage, at: u64, v: u32) {
    assert_eq!(mem.write_bytes(at, &v.to_le_bytes()), Ok(()));
}

/// A memory image laid out like the target process, with every pointer set.
fn game_memory(discriminant: u8) -> MemoryImage {
    let len = (HIGH - LOW) as usize;
    let bytes: Vec<u8> = (0..len).map(|i| (i % 241) as u8 + 7).collect();
    let mut mem = MemoryImage::new(LOW, bytes);
    put_u32(&mut mem, CHARACTER_POINTER, CHARACTER as u32);
    put_u32(&mut mem, CHARACTER + 0x34, ACTION as u32);
    put_u32(&mut mem, CHARACTER + 0x38, METRICS as u32);
    put_u32(&mut mem, CHARACTER + 0x40, PHYSICS as u32);
    put_u32(&mut mem, ACTION + 0x2c, COLLISION_DATA as u32);
    put_u32(&mut mem, COLLISION_DATA + 0xc, COLLISION_ELEMENT as u32);
    put_u32(&mut mem, PHYSICS + 0x90, LEVEL_COLLISION as u32);
    assert_eq!(mem.write_bytes(PHYSICS + 1, &[discriminant]), Ok(()));
    put_u32(&mut mem, PAST_POSITIONS_POINTER, PAST_POSITIONS as u32);
    put_u32(&mut mem, PAST_ROTATIONS_POINTER, PAST_ROTATIONS as u32);
    mem
}

/// Scribbles over a part of every unit's records, leaving the pointers alone.
fn disturb(mem: &mut MemoryImage, value: u8) {
    for (at, len) in [
        (TIME_ADDRESS, 3usize),
        (GRAVITY_ADDRESS, 0xc),
        (CAMERA_ADDRESS, 0x2518),
        (PAST_POSITIONS, 0xc00),
        (PAST_ROTATIONS, 0xc00),
        (PAST_POSITIONS_INDEX, 1),
        (CONS_PAST_POSITIONS_ADDRESS, 0xc00),
        (CONS_PAST_POSITIONS_INDEX, 1),
        (ACTION, 0x2c),
        (COLLISION_DATA + 0x10, 0x98),
        (COLLISION_ELEMENT, 0x30),
        (METRICS, 0x40),
        (PHYSICS + 2, 0x80),
        (PHYSICS + 0x94, 0x300),
        (LEVEL_COLLISION, 0x84),
    ] {
        assert_eq!(mem.write_bytes(at, &vec![value; len]), Ok(()));
    }
}

fn all_ok(o: &Option<UnitOutcomes>) -> bool {
    match o {
        Some(o) => o.errors().is_empty(),
        None => false,
    }
}

#[test]
fn load_without_snapshot_is_refused() {
    let mut orch = Orchestrator::new();
    let mut mem = game_memory(0);
    let before = mem.bytes().clone();
    let r = orch.handle(&mut mem, Event::LoadRequested { level: 3, frame: 10 });
    assert_eq!(r.action, Action::Refuse(SnapshotError::InvalidSnapshot));
    assert!(r.outcomes.is_none());
    assert!(mem.bytes() == &before);
}

#[test]
fn load_in_another_level_is_refused() {
    let mut orch = Orchestrator::new();
    let mut mem = game_memory(0);
    let r = orch.handle(&mut mem, Event::SaveRequested { in_level: true, level: 3 });
    assert_eq!(r.action, Action::CaptureAll);
    disturb(&mut mem, 0x11);
    let before = mem.bytes().clone();
    let r = orch.handle(&mut mem, Event::LoadRequested { level: 4, frame: 10 });
    assert_eq!(r.action, Action::Refuse(SnapshotError::StageMismatch));
    assert!(r.outcomes.is_none());
    assert!(mem.bytes() == &before);
}

#[test]
fn leaving_the_level_invalidates_the_snapshot() {
    let mut orch = Orchestrator::new();
    let mut mem = game_memory(0);
    orch.handle(&mut mem, Event::SaveRequested { in_level: true, level: 3 });
    let r = orch.handle(&mut mem, Event::LevelExited);
    assert_eq!(r.action, Action::Idle);
    let r = orch.handle(&mut mem, Event::LoadRequested { level: 3, frame: 10 });
    assert_eq!(r.action, Action::Refuse(SnapshotError::InvalidSnapshot));
}

#[test]
fn save_outside_a_level_is_refused() {
    let mut orch = Orchestrator::new();
    let mut mem = game_memory(0);
    let r = orch.handle(&mut mem, Event::SaveRequested { in_level: false, level: 3 });
    assert_eq!(r.action, Action::Refuse(SnapshotError::NotInLevel));
    assert_eq!(orch.control().state, SnapshotState::Invalid);
}

#[test]
fn capture_restore_and_second_restore_end_to_end() {
    let mut orch = Orchestrator::new();
    let mut mem = game_memory(0);
    let captured = mem.bytes().clone();

    let r = orch.handle(&mut mem, Event::SaveRequested { in_level: true, level: 3 });
    assert_eq!(r.action, Action::CaptureAll);
    assert!(all_ok(&r.outcomes));
    assert_eq!(orch.control().state, SnapshotState::Valid { level: 3 });
    assert!(mem.bytes() == &captured);

    disturb(&mut mem, 0x22);
    assert!(mem.bytes() != &captured);
    let r = orch.handle(&mut mem, Event::LoadRequested { level: 3, frame: 100 });
    assert_eq!(r.action, Action::RestoreAll);
    assert!(all_ok(&r.outcomes));
    assert!(mem.bytes() == &captured);
    assert_eq!(orch.control().pending_frame, Some(100));

    disturb(&mut mem, 0x33);
    let r = orch.handle(&mut mem, Event::Tick { frame: 100 });
    assert_eq!(r.action, Action::Idle);
    assert!(mem.bytes() != &captured);

    let r = orch.handle(&mut mem, Event::Tick { frame: 101 });
    assert_eq!(r.action, Action::RestoreAll);
    assert!(all_ok(&r.outcomes));
    assert!(mem.bytes() == &captured);
    assert_eq!(orch.control().pending_frame, None);

    disturb(&mut mem, 0x44);
    let r = orch.handle(&mut mem, Event::Tick { frame: 102 });
    assert_eq!(r.action, Action::Idle);
    let r = orch.handle(&mut mem, Event::Tick { frame: 103 });
    assert_eq!(r.action, Action::Idle);
    assert!(mem.bytes() != &captured);
}

#[test]
fn failing_unit_does_not_stop_the_others() {
    let mut orch = Orchestrator::new();
    let mut mem = game_memory(3);
    let r = orch.handle(&mut mem, Event::SaveRequested { in_level: true, level: 1 });
    assert_eq!(r.action, Action::CaptureAll);
    let o = r.outcomes.unwrap();
    assert_eq!(o.character, Err(SnapshotError::UnsupportedVariant));
    assert_eq!(o.camera, Ok(()));
    assert_eq!(o.time, Ok(()));
    assert_eq!(o.gravity, Ok(()));
    assert_eq!(o.errors(), vec![SnapshotError::UnsupportedVariant]);
    assert_eq!(orch.control().state, SnapshotState::Valid { level: 1 });
}

#[test]
fn exit_cancels_armed_second_restore() {
    let c = Control { state: SnapshotState::Valid { level: 2 }, pending_frame: None };
    let (c, a) = step(c, Event::LoadRequested { level: 2, frame: 5 });
    assert_eq!(a, Action::RestoreAll);
    assert_eq!(c.pending_frame, Some(5));
    let (c, a) = step(c, Event::LevelExited);
    assert_eq!(a, Action::Idle);
    assert_eq!(c, Control { state: SnapshotState::Invalid, pending_frame: None });
    let (_, a) = step(c, Event::Tick { frame: 6 });
    assert_eq!(a, Action::Idle);
}

#[test]
fn button_edges() {
    assert_eq!(pressed_buttons(0b0101, 0b0110), 0b0010);
    assert_eq!(pressed_buttons(0, 0b11), 0b11);
    assert_eq!(pressed_buttons(0b11, 0b11), 0);
}

#[test]
fn poll_turns_readings_into_events() {
    let now = PollInput { buttons: 0b11, level: 7, game_state: 0, frame: 40 };
    assert_eq!(
        poll_events(0, 1, now),
        vec![
            Event::LevelExited,
            Event::SaveRequested { in_level: false, level: 7 },
            Event::LoadRequested { level: 7, frame: 40 },
            Event::Tick { frame: 40 },
        ]
    );
    let held = PollInput { buttons: 0b01, level: 7, game_state: 5, frame: 41 };
    assert_eq!(poll_events(0b01, 5, held), vec![Event::Tick { frame: 41 }]);
}

#[test]
fn units_round_trip_on_their_own() {
    let mut mem = game_memory(6);
    let captured = mem.bytes().clone();
    let mut character = CharacterUnit::new();
    let mut camera = CameraUnit::new();
    let mut time = TimeUnit::new();
    let mut gravity = GravityUnit::new();
    let mut collision = LevelCollisionUnit::new();
    assert_eq!(character.save(&mem), Ok(()));
    assert_eq!(camera.save(&mem), Ok(()));
    assert_eq!(time.save(&mem), Ok(()));
    assert_eq!(gravity.save(&mem), Ok(()));
    assert_eq!(collision.save(&mem), Ok(()));
    disturb(&mut mem, 0x55);
    assert_eq!(mem.write_bytes(LEVEL_COLLISION_ADDRESS, &vec![0x55; 0x3000]), Ok(()));
    assert_eq!(mem.write_bytes(LEVEL_COLLISION_COUNT_ADDRESS, &[0x55, 0x55]), Ok(()));
    assert_eq!(character.load(&mut mem), Ok(()));
    assert_eq!(camera.load(&mut mem), Ok(()));
    assert_eq!(time.load(&mut mem), Ok(()));
    assert_eq!(gravity.load(&mut mem), Ok(()));
    assert_eq!(collision.load(&mut mem), Ok(()));
    assert!(mem.bytes() == &captured);
}

#[test]
fn character_restore_refused_after_character_change() {
    let mut mem = game_memory(6);
    let mut character = CharacterUnit::new();
    assert_eq!(character.save(&mem), Ok(()));
    assert_eq!(mem.write_bytes(PHYSICS + 1, &[0]), Ok(()));
    assert_eq!(character.load(&mut mem), Err(SnapshotError::VariantMismatch));
}

#[test]
fn character_null_pointer_is_reported() {
    let mut mem = game_memory(0);
    put_u32(&mut mem, CHARACTER + 0x38, 0);
    let mut character = CharacterUnit::new();
    assert_eq!(character.save(&mem), Err(SnapshotError::NullPointer));
}

struct DeadProcess;

impl MemoryAccessor for DeadProcess {
    fn read_bytes(&self, _address: u64, _len: usize) -> Result<Vec<u8>, onvars_tool::memory::AccessError> {
        Err(onvars_tool::memory::AccessError)
    }

    fn write_bytes(&mut self, _address: u64, _bytes: &[u8]) -> Result<(), onvars_tool::memory::AccessError> {
        Err(onvars_tool::memory::AccessError)
    }
}

#[test]
fn every_unit_reports_a_dead_target() {
    let mut orch = Orchestrator::new();
    let mut dead = DeadProcess;
    let r = orch.handle(&mut dead, Event::SaveRequested { in_level: true, level: 9 });
    assert_eq!(r.action, Action::CaptureAll);
    assert_eq!(r.outcomes.unwrap().errors(), vec![SnapshotError::Access; 4]);
    let r = orch.handle(&mut dead, Event::LoadRequested { level: 9, frame: 1 });
    assert_eq!(r.action, Action::RestoreAll);
    assert_eq!(r.outcomes.unwrap().errors(), vec![SnapshotError::Access; 4]);
}

#[test]
fn restore_goes_on_after_a_failing_unit() {
    let mut orch = Orchestrator::new();
    let mut mem = game_memory(0);
    let captured = mem.bytes().clone();
    let r = orch.handle(&mut mem, Event::SaveRequested { in_level: true, level: 2 });
    assert!(all_ok(&r.outcomes));

    disturb(&mut mem, 0x66);
    put_u32(&mut mem, PAST_ROTATIONS_POINTER, 0);
    let r = orch.handle(&mut mem, Event::LoadRequested { level: 2, frame: 7 });
    assert_eq!(r.action, Action::RestoreAll);
    let o = r.outcomes.unwrap();
    assert_eq!(o.character, Ok(()));
    assert_eq!(o.camera, Err(SnapshotError::NullPointer));
    assert_eq!(o.time, Ok(()));
    assert_eq!(o.gravity, Ok(()));

    let at = |a: u64| (a - LOW) as usize;
    let same = |a: u64, len: usize| mem.bytes()[at(a)..at(a) + len] == captured[at(a)..at(a) + len];
    // restored: the steps before the failing one, and the later units
    assert!(same(CAMERA_ADDRESS, 0x2518));
    assert!(same(PAST_POSITIONS, 0xc00));
    assert!(same(TIME_ADDRESS, 3));
    assert!(same(GRAVITY_ADDRESS, 0xc));
    assert!(same(METRICS, 0x40));
    // not restored: the failing step and the camera steps after it
    assert!(mem.bytes()[at(PAST_ROTATIONS)] == 0x66);
    assert!(mem.bytes()[at(PAST_POSITIONS_INDEX)] == 0x66);
    assert!(mem.bytes()[at(CONS_PAST_POSITIONS_ADDRESS)] == 0x66);
}

#[test]
fn fresh_units_restore_zeroes() {
    let mut mem = game_memory(0);
    let time = TimeUnit::new();
    let gravity = GravityUnit::new();
    assert_eq!(time.load(&mut mem), Ok(()));
    assert_eq!(gravity.load(&mut mem), Ok(()));
    let at = |a: u64| (a - LOW) as usize;
    assert_eq!(&mem.bytes()[at(TIME_ADDRESS)..at(TIME_ADDRESS) + 3], &[0u8; 3]);
    assert_eq!(&mem.bytes()[at(GRAVITY_ADDRESS)..at(GRAVITY_ADDRESS) + 0xc], &[0u8; 0xc]);
}

#[test]
fn level_collision_restore_stops_at_first_failed_write() {
    let mut full = game_memory(0);
    let mut collision = LevelCollisionUnit::new();
    assert_eq!(collision.save(&full), Ok(()));
    assert_eq!(full.write_bytes(LEVEL_COLLISION_COUNT_ADDRESS, &[0x77, 0x77]), Ok(()));
    // memory that starts after the collision region: the first write cannot land
    let base = LEVEL_COLLISION_COUNT_ADDRESS - 0x10;
    let mut partial = MemoryImage::new(base, vec![0x77; 0x20]);
    assert_eq!(collision.load(&mut partial), Err(SnapshotError::Access));
    assert_eq!(partial.bytes(), &vec![0x77; 0x20]);
    assert_eq!(collision.load(&mut full), Ok(()));
    let at = (LEVEL_COLLISION_COUNT_ADDRESS - LOW) as usize;
    assert_ne!(&full.bytes()[at..at + 2], &[0x77, 0x77]);
}
