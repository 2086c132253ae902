use crate::memory::{mapped, overwrite, region, zero_bytes, zeros, MemoryAccessor};
use crate::sa2_structures::{
    capture_block, lemma_block_round_trip, restore_block, Camera, Character, PastPositionTable,
};
use crate::{Pointer, SaveStateUnit, SaveStateable, SnapshotError};
use vstd::prelude::*;

verus! {

/// Where the pointer to the player character's task record is kept.
pub const CHARACTER_POINTER: u64 = 0x01dea6e0;

/// Where the camera block starts.
pub const CAMERA_ADDRESS: u64 = 0x01dcff00;

/// Where the pointer to the camera's past position table is kept.
pub const PAST_POSITIONS_POINTER: u64 = 0x01a5a234;

/// Where the pointer to the camera's past rotation table is kept.
pub const PAST_ROTATIONS_POINTER: u64 = 0x01a5a238;

/// Where the index into the past position table is kept.
pub const PAST_POSITIONS_INDEX: u64 = 0x01945910;

/// Where the constant past position table starts.
pub const CONS_PAST_POSITIONS_ADDRESS: u64 = 0x019f1740;

/// Where the index into the constant past position table is kept.
pub const CONS_PAST_POSITIONS_INDEX: u64 = 0x019f173c;

/// Where the 3 bytes of the level timer start.
pub const TIME_ADDRESS: u64 = 0x0174afdb;

/// Where the 0xc bytes of the gravity state start.
pub const GRAVITY_ADDRESS: u64 = 0x01de94a0;

/// Where the 0x3000 bytes of level collision start.
pub const LEVEL_COLLISION_ADDRESS: u64 = 0x01a5a2dc;

/// Where the 2 bytes that go with the level collision are kept.
pub const LEVEL_COLLISION_COUNT_ADDRESS: u64 = 0x01de9484;

/// The player character, reached through its fixed pointer.
pub struct CharacterUnit {
    character: Pointer<Character>,
}

impl CharacterUnit {
    /// An empty snapshot: zeroed bytes, to be filled by a capture.
    pub fn new() -> (r: CharacterUnit)
        ensures
            r.wf(),
            r.zeroed(),
    {
        CharacterUnit { character: Pointer::new(Character::new()) }
    }
}

impl SaveStateUnit for CharacterUnit {
    closed spec fn wf(&self) -> bool {
        self.character.wf()
    }

    closed spec fn zeroed(&self) -> bool {
        self.character.zeroed()
    }

    closed spec fn capturable(m: Map<int, u8>) -> bool {
        Pointer::<Character>::capturable(m, CHARACTER_POINTER as int)
    }

    closed spec fn mirrors(&self, m: Map<int, u8>) -> bool {
        self.character.mirrors(m, CHARACTER_POINTER as int)
    }

    closed spec fn restorable(&self, m: Map<int, u8>) -> bool {
        self.character.restorable(m, CHARACTER_POINTER as int)
    }

    closed spec fn restored(&self, m: Map<int, u8>) -> Map<int, u8> {
        self.character.restored(m, CHARACTER_POINTER as int)
    }

    closed spec fn capture_left(&self, before: &Self, m: Map<int, u8>, e: SnapshotError, reliable: bool) -> bool {
        self.character.capture_left(&before.character, m, CHARACTER_POINTER as int, e, reliable)
    }

    closed spec fn restore_left(&self, before: Map<int, u8>, after: Map<int, u8>, e: SnapshotError, reliable: bool) -> bool {
        self.character.restore_left(before, after, CHARACTER_POINTER as int, e, reliable)
    }

    proof fn lemma_round_trip(&self, m: Map<int, u8>) {
        self.character.lemma_round_trip(m, CHARACTER_POINTER as int);
    }

    fn save<M: MemoryAccessor>(&mut self, mem: &M) -> (r: Result<(), SnapshotError>) {
        self.character.save(mem, CHARACTER_POINTER)
    }

    fn load<M: MemoryAccessor>(&self, mem: &mut M) -> (r: Result<(), SnapshotError>) {
        self.character.load(mem, CHARACTER_POINTER)
    }
}

/// The camera: its block, its past position and rotation tables (each reached through a
/// pointer) with the position index, and the constant past position table with its index.
pub struct CameraUnit {
    camera: Camera,
    past_positions: Pointer<PastPositionTable>,
    past_rotations: Pointer<PastPositionTable>,
    past_positions_idx: u8,
    camera_cons_past_positions: PastPositionTable,
    camera_cons_past_positions_idx: u8,
}

impl CameraUnit {
    /// An empty snapshot: zeroed bytes, to be filled by a capture.
    pub fn new() -> (r: CameraUnit)
        ensures
            r.wf(),
            r.zeroed(),
    {
        CameraUnit {
            camera: Camera::new(),
            past_positions: Pointer::new(PastPositionTable::new()),
            past_rotations: Pointer::new(PastPositionTable::new()),
            past_positions_idx: 0,
            camera_cons_past_positions: PastPositionTable::new(),
            camera_cons_past_positions_idx: 0,
        }
    }

    /// Memory after the first `n` of the six restore steps, starting from `m`.
    closed spec fn after_steps(&self, m: Map<int, u8>, n: nat) -> Map<int, u8>
        decreases n,
    {
        if n == 0 {
            m
        } else {
            let prev = self.after_steps(m, (n - 1) as nat);
            if n == 1 {
                self.camera.restored(prev, CAMERA_ADDRESS as int)
            } else if n == 2 {
                self.past_positions.restored(prev, PAST_POSITIONS_POINTER as int)
            } else if n == 3 {
                self.past_rotations.restored(prev, PAST_ROTATIONS_POINTER as int)
            } else if n == 4 {
                self.past_positions_idx.restored(prev, PAST_POSITIONS_INDEX as int)
            } else if n == 5 {
                self.camera_cons_past_positions.restored(prev, CONS_PAST_POSITIONS_ADDRESS as int)
            } else {
                self.camera_cons_past_positions_idx.restored(prev, CONS_PAST_POSITIONS_INDEX as int)
            }
        }
    }
}

impl SaveStateUnit for CameraUnit {
    closed spec fn wf(&self) -> bool {
        self.camera.wf() && self.past_positions.wf() && self.past_rotations.wf()
            && self.camera_cons_past_positions.wf()
    }

    closed spec fn zeroed(&self) -> bool {
        &&& self.camera.zeroed()
        &&& self.past_positions.zeroed()
        &&& self.past_rotations.zeroed()
        &&& self.past_positions_idx == 0
        &&& self.camera_cons_past_positions.zeroed()
        &&& self.camera_cons_past_positions_idx == 0
    }

    closed spec fn capturable(m: Map<int, u8>) -> bool {
        &&& Camera::capturable(m, CAMERA_ADDRESS as int)
        &&& Pointer::<PastPositionTable>::capturable(m, PAST_POSITIONS_POINTER as int)
        &&& Pointer::<PastPositionTable>::capturable(m, PAST_ROTATIONS_POINTER as int)
        &&& u8::capturable(m, PAST_POSITIONS_INDEX as int)
        &&& PastPositionTable::capturable(m, CONS_PAST_POSITIONS_ADDRESS as int)
        &&& u8::capturable(m, CONS_PAST_POSITIONS_INDEX as int)
    }

    closed spec fn mirrors(&self, m: Map<int, u8>) -> bool {
        &&& self.camera.mirrors(m, CAMERA_ADDRESS as int)
        &&& self.past_positions.mirrors(m, PAST_POSITIONS_POINTER as int)
        &&& self.past_rotations.mirrors(m, PAST_ROTATIONS_POINTER as int)
        &&& self.past_positions_idx.mirrors(m, PAST_POSITIONS_INDEX as int)
        &&& self.camera_cons_past_positions.mirrors(m, CONS_PAST_POSITIONS_ADDRESS as int)
        &&& self.camera_cons_past_positions_idx.mirrors(m, CONS_PAST_POSITIONS_INDEX as int)
    }

    closed spec fn restorable(&self, m: Map<int, u8>) -> bool {
        &&& self.camera.restorable(self.after_steps(m, 0), CAMERA_ADDRESS as int)
        &&& self.past_positions.restorable(self.after_steps(m, 1), PAST_POSITIONS_POINTER as int)
        &&& self.past_rotations.restorable(self.after_steps(m, 2), PAST_ROTATIONS_POINTER as int)
        &&& self.past_positions_idx.restorable(self.after_steps(m, 3), PAST_POSITIONS_INDEX as int)
        &&& self.camera_cons_past_positions.restorable(
            self.after_steps(m, 4),
            CONS_PAST_POSITIONS_ADDRESS as int,
        )
        &&& self.camera_cons_past_positions_idx.restorable(
            self.after_steps(m, 5),
            CONS_PAST_POSITIONS_INDEX as int,
        )
    }

    closed spec fn restored(&self, m: Map<int, u8>) -> Map<int, u8> {
        self.after_steps(m, 6)
    }

    closed spec fn capture_left(&self, before: &Self, m: Map<int, u8>, e: SnapshotError, reliable: bool) -> bool {
        ||| self.camera.capture_left(&before.camera, m, CAMERA_ADDRESS as int, e, reliable)
            && self.past_positions == before.past_positions
            && self.past_rotations == before.past_rotations
            && self.past_positions_idx == before.past_positions_idx
            && self.camera_cons_past_positions == before.camera_cons_past_positions
            && self.camera_cons_past_positions_idx == before.camera_cons_past_positions_idx
        ||| self.camera.mirrors(m, CAMERA_ADDRESS as int) && self.camera.wf()
            && self.past_positions.capture_left(&before.past_positions, m, PAST_POSITIONS_POINTER as int, e, reliable)
            && self.past_rotations == before.past_rotations
            && self.past_positions_idx == before.past_positions_idx
            && self.camera_cons_past_positions == before.camera_cons_past_positions
            && self.camera_cons_past_positions_idx == before.camera_cons_past_positions_idx
        ||| self.camera.mirrors(m, CAMERA_ADDRESS as int) && self.camera.wf()
            && self.past_positions.mirrors(m, PAST_POSITIONS_POINTER as int) && self.past_positions.wf()
            && self.past_rotations.capture_left(&before.past_rotations, m, PAST_ROTATIONS_POINTER as int, e, reliable)
            && self.past_positions_idx == before.past_positions_idx
            && self.camera_cons_past_positions == before.camera_cons_past_positions
            && self.camera_cons_past_positions_idx == before.camera_cons_past_positions_idx
        ||| self.camera.mirrors(m, CAMERA_ADDRESS as int) && self.camera.wf()
            && self.past_positions.mirrors(m, PAST_POSITIONS_POINTER as int) && self.past_positions.wf()
            && self.past_rotations.mirrors(m, PAST_ROTATIONS_POINTER as int) && self.past_rotations.wf()
            && self.past_positions_idx.capture_left(&before.past_positions_idx, m, PAST_POSITIONS_INDEX as int, e, reliable)
            && self.camera_cons_past_positions == before.camera_cons_past_positions
            && self.camera_cons_past_positions_idx == before.camera_cons_past_positions_idx
        ||| self.camera.mirrors(m, CAMERA_ADDRESS as int) && self.camera.wf()
            && self.past_positions.mirrors(m, PAST_POSITIONS_POINTER as int) && self.past_positions.wf()
            && self.past_rotations.mirrors(m, PAST_ROTATIONS_POINTER as int) && self.past_rotations.wf()
            && self.past_positions_idx.mirrors(m, PAST_POSITIONS_INDEX as int) && self.past_positions_idx.wf()
            && self.camera_cons_past_positions.capture_left(&before.camera_cons_past_positions, m, CONS_PAST_POSITIONS_ADDRESS as int, e, reliable)
            && self.camera_cons_past_positions_idx == before.camera_cons_past_positions_idx
        ||| self.camera.mirrors(m, CAMERA_ADDRESS as int) && self.camera.wf()
            && self.past_positions.mirrors(m, PAST_POSITIONS_POINTER as int) && self.past_positions.wf()
            && self.past_rotations.mirrors(m, PAST_ROTATIONS_POINTER as int) && self.past_rotations.wf()
            && self.past_positions_idx.mirrors(m, PAST_POSITIONS_INDEX as int) && self.past_positions_idx.wf()
            && self.camera_cons_past_positions.mirrors(m, CONS_PAST_POSITIONS_ADDRESS as int) && self.camera_cons_past_positions.wf()
            && self.camera_cons_past_positions_idx.capture_left(&before.camera_cons_past_positions_idx, m, CONS_PAST_POSITIONS_INDEX as int, e, reliable)
    }

    closed spec fn restore_left(&self, before: Map<int, u8>, after: Map<int, u8>, e: SnapshotError, reliable: bool) -> bool {
        ||| self.camera.restore_left(self.after_steps(before, 0), after, CAMERA_ADDRESS as int, e, reliable)
        ||| self.camera.restorable(self.after_steps(before, 0), CAMERA_ADDRESS as int)
            && self.past_positions.restore_left(self.after_steps(before, 1), after, PAST_POSITIONS_POINTER as int, e, reliable)
        ||| self.camera.restorable(self.after_steps(before, 0), CAMERA_ADDRESS as int)
            && self.past_positions.restorable(self.after_steps(before, 1), PAST_POSITIONS_POINTER as int)
            && self.past_rotations.restore_left(self.after_steps(before, 2), after, PAST_ROTATIONS_POINTER as int, e, reliable)
        ||| self.camera.restorable(self.after_steps(before, 0), CAMERA_ADDRESS as int)
            && self.past_positions.restorable(self.after_steps(before, 1), PAST_POSITIONS_POINTER as int)
            && self.past_rotations.restorable(self.after_steps(before, 2), PAST_ROTATIONS_POINTER as int)
            && self.past_positions_idx.restore_left(self.after_steps(before, 3), after, PAST_POSITIONS_INDEX as int, e, reliable)
        ||| self.camera.restorable(self.after_steps(before, 0), CAMERA_ADDRESS as int)
            && self.past_positions.restorable(self.after_steps(before, 1), PAST_POSITIONS_POINTER as int)
            && self.past_rotations.restorable(self.after_steps(before, 2), PAST_ROTATIONS_POINTER as int)
            && self.past_positions_idx.restorable(self.after_steps(before, 3), PAST_POSITIONS_INDEX as int)
            && self.camera_cons_past_positions.restore_left(self.after_steps(before, 4), after, CONS_PAST_POSITIONS_ADDRESS as int, e, reliable)
        ||| self.camera.restorable(self.after_steps(before, 0), CAMERA_ADDRESS as int)
            && self.past_positions.restorable(self.after_steps(before, 1), PAST_POSITIONS_POINTER as int)
            && self.past_rotations.restorable(self.after_steps(before, 2), PAST_ROTATIONS_POINTER as int)
            && self.past_positions_idx.restorable(self.after_steps(before, 3), PAST_POSITIONS_INDEX as int)
            && self.camera_cons_past_positions.restorable(self.after_steps(before, 4), CONS_PAST_POSITIONS_ADDRESS as int)
            && self.camera_cons_past_positions_idx.restore_left(self.after_steps(before, 5), after, CONS_PAST_POSITIONS_INDEX as int, e, reliable)
    }

    proof fn lemma_round_trip(&self, m: Map<int, u8>) {
        reveal_with_fuel(CameraUnit::after_steps, 7);
        self.camera.lemma_round_trip(m, CAMERA_ADDRESS as int);
        self.past_positions.lemma_round_trip(m, PAST_POSITIONS_POINTER as int);
        self.past_rotations.lemma_round_trip(m, PAST_ROTATIONS_POINTER as int);
        self.past_positions_idx.lemma_round_trip(m, PAST_POSITIONS_INDEX as int);
        self.camera_cons_past_positions.lemma_round_trip(m, CONS_PAST_POSITIONS_ADDRESS as int);
        self.camera_cons_past_positions_idx.lemma_round_trip(m, CONS_PAST_POSITIONS_INDEX as int);
    }

    fn save<M: MemoryAccessor>(&mut self, mem: &M) -> (r: Result<(), SnapshotError>) {
        match self.camera.save(mem, CAMERA_ADDRESS) {
            Ok(()) => {},
            Err(e) => return Err(e),
        }
        match self.past_positions.save(mem, PAST_POSITIONS_POINTER) {
            Ok(()) => {},
            Err(e) => return Err(e),
        }
        match self.past_rotations.save(mem, PAST_ROTATIONS_POINTER) {
            Ok(()) => {},
            Err(e) => return Err(e),
        }
        match self.past_positions_idx.save(mem, PAST_POSITIONS_INDEX) {
            Ok(()) => {},
            Err(e) => return Err(e),
        }
        match self.camera_cons_past_positions.save(mem, CONS_PAST_POSITIONS_ADDRESS) {
            Ok(()) => {},
            Err(e) => return Err(e),
        }
        self.camera_cons_past_positions_idx.save(mem, CONS_PAST_POSITIONS_INDEX)
    }

    fn load<M: MemoryAccessor>(&self, mem: &mut M) -> (r: Result<(), SnapshotError>) {
        let ghost m = mem.memory();
        proof {
            reveal_with_fuel(CameraUnit::after_steps, 7);
        }
        match self.camera.load(mem, CAMERA_ADDRESS) {
            Ok(()) => {},
            Err(e) => return Err(e),
        }
        assert(mem.memory() == self.after_steps(m, 1));
        assert(self.camera.restorable(self.after_steps(m, 0), CAMERA_ADDRESS as int));
        let ghost m1 = mem.memory();
        match self.past_positions.load(mem, PAST_POSITIONS_POINTER) {
            Ok(()) => {},
            Err(e) => {
                return Err(e);
            },
        }
        assert(mem.memory() == self.after_steps(m, 2));
        let ghost m2 = mem.memory();
        match self.past_rotations.load(mem, PAST_ROTATIONS_POINTER) {
            Ok(()) => {},
            Err(e) => {
                return Err(e);
            },
        }
        assert(mem.memory() == self.after_steps(m, 3));
        match self.past_positions_idx.load(mem, PAST_POSITIONS_INDEX) {
            Ok(()) => {},
            Err(e) => return Err(e),
        }
        assert(mem.memory() == self.after_steps(m, 4));
        match self.camera_cons_past_positions.load(mem, CONS_PAST_POSITIONS_ADDRESS) {
            Ok(()) => {},
            Err(e) => return Err(e),
        }
        assert(mem.memory() == self.after_steps(m, 5));
        self.camera_cons_past_positions_idx.load(mem, CONS_PAST_POSITIONS_INDEX)
    }
}

/// The level timer: 3 raw bytes.
pub struct TimeUnit(Vec<u8>);

impl TimeUnit {
    /// The bytes held by the snapshot.
    pub closed spec fn bytes(&self) -> Seq<u8> {
        self.0@
    }

    /// An empty snapshot: zeroed bytes, to be filled by a capture.
    pub fn new() -> (r: TimeUnit)
        ensures
            r.wf(),
            r.zeroed(),
    {
        TimeUnit(zeros(0x3))
    }
}

impl SaveStateUnit for TimeUnit {
    open spec fn wf(&self) -> bool {
        self.bytes().len() == 0x3
    }

    open spec fn zeroed(&self) -> bool {
        self.bytes() == zero_bytes(0x3)
    }

    open spec fn capturable(m: Map<int, u8>) -> bool {
        mapped(m, TIME_ADDRESS as int, 0x3)
    }

    open spec fn mirrors(&self, m: Map<int, u8>) -> bool {
        mapped(m, TIME_ADDRESS as int, 0x3) && self.bytes() == region(m, TIME_ADDRESS as int, 0x3)
    }

    open spec fn restorable(&self, m: Map<int, u8>) -> bool {
        mapped(m, TIME_ADDRESS as int, 0x3)
    }

    open spec fn restored(&self, m: Map<int, u8>) -> Map<int, u8> {
        overwrite(m, TIME_ADDRESS as int, self.bytes())
    }

    open spec fn capture_left(&self, before: &Self, m: Map<int, u8>, e: SnapshotError, reliable: bool) -> bool {
        *self == *before && e == SnapshotError::Access && (!reliable || !mapped(m, TIME_ADDRESS as int, 0x3))
    }

    open spec fn restore_left(&self, before: Map<int, u8>, after: Map<int, u8>, e: SnapshotError, reliable: bool) -> bool {
        e == SnapshotError::Access && (!reliable || (after == before && !mapped(before, TIME_ADDRESS as int, 0x3)))
    }

    proof fn lemma_round_trip(&self, m: Map<int, u8>) {
        lemma_block_round_trip(m, TIME_ADDRESS as int, self.0@);
    }

    fn save<M: MemoryAccessor>(&mut self, mem: &M) -> (r: Result<(), SnapshotError>) {
        match capture_block(mem, TIME_ADDRESS, 0x3) {
            Ok(v) => {
                self.0 = v;
                Ok(())
            },
            Err(e) => Err(e),
        }
    }

    fn load<M: MemoryAccessor>(&self, mem: &mut M) -> (r: Result<(), SnapshotError>) {
        restore_block(&self.0, mem, TIME_ADDRESS)
    }
}

/// Whatever memory went through after a capture, a restore puts the captured bytes back at
/// the unit's address and leaves every other address as it found it.
pub proof fn lemma_time_restore_after_change(u: TimeUnit, m: Map<int, u8>, changed: Map<int, u8>)
    requires
        u.wf(),
        u.mirrors(m),
        mapped(changed, TIME_ADDRESS as int, 0x3),
    ensures
        u.restorable(changed),
        region(u.restored(changed), TIME_ADDRESS as int, 0x3) == region(m, TIME_ADDRESS as int, 0x3),
        forall|k: int|
            changed.dom().contains(k) && !(TIME_ADDRESS <= k < TIME_ADDRESS + 0x3) ==> #[trigger] u.restored(changed)[k] == changed[k],
        u.restored(changed).dom() == changed.dom(),
{
    assert(region(u.restored(changed), TIME_ADDRESS as int, 0x3) =~= region(m, TIME_ADDRESS as int, 0x3));
    assert(u.restored(changed).dom() =~= changed.dom());
}

/// The gravity state: 0xc raw bytes.
pub struct GravityUnit(Vec<u8>);

impl GravityUnit {
    /// The bytes held by the snapshot.
    pub closed spec fn bytes(&self) -> Seq<u8> {
        self.0@
    }

    /// An empty snapshot: zeroed bytes, to be filled by a capture.
    pub fn new() -> (r: GravityUnit)
        ensures
            r.wf(),
            r.zeroed(),
    {
        GravityUnit(zeros(0xc))
    }
}

impl SaveStateUnit for GravityUnit {
    open spec fn wf(&self) -> bool {
        self.bytes().len() == 0xc
    }

    open spec fn zeroed(&self) -> bool {
        self.bytes() == zero_bytes(0xc)
    }

    open spec fn capturable(m: Map<int, u8>) -> bool {
        mapped(m, GRAVITY_ADDRESS as int, 0xc)
    }

    open spec fn mirrors(&self, m: Map<int, u8>) -> bool {
        mapped(m, GRAVITY_ADDRESS as int, 0xc) && self.bytes() == region(m, GRAVITY_ADDRESS as int, 0xc)
    }

    open spec fn restorable(&self, m: Map<int, u8>) -> bool {
        mapped(m, GRAVITY_ADDRESS as int, 0xc)
    }

    open spec fn restored(&self, m: Map<int, u8>) -> Map<int, u8> {
        overwrite(m, GRAVITY_ADDRESS as int, self.bytes())
    }

    open spec fn capture_left(&self, before: &Self, m: Map<int, u8>, e: SnapshotError, reliable: bool) -> bool {
        *self == *before && e == SnapshotError::Access && (!reliable || !mapped(m, GRAVITY_ADDRESS as int, 0xc))
    }

    open spec fn restore_left(&self, before: Map<int, u8>, after: Map<int, u8>, e: SnapshotError, reliable: bool) -> bool {
        e == SnapshotError::Access && (!reliable || (after == before && !mapped(before, GRAVITY_ADDRESS as int, 0xc)))
    }

    proof fn lemma_round_trip(&self, m: Map<int, u8>) {
        lemma_block_round_trip(m, GRAVITY_ADDRESS as int, self.0@);
    }

    fn save<M: MemoryAccessor>(&mut self, mem: &M) -> (r: Result<(), SnapshotError>) {
        match capture_block(mem, GRAVITY_ADDRESS, 0xc) {
            Ok(v) => {
                self.0 = v;
                Ok(())
            },
            Err(e) => Err(e),
        }
    }

    fn load<M: MemoryAccessor>(&self, mem: &mut M) -> (r: Result<(), SnapshotError>) {
        restore_block(&self.0, mem, GRAVITY_ADDRESS)
    }
}

/// Whatever memory went through after a capture, a restore puts the captured bytes back at
/// the unit's address and leaves every other address as it found it.
pub proof fn lemma_gravity_restore_after_change(u: GravityUnit, m: Map<int, u8>, changed: Map<int, u8>)
    requires
        u.wf(),
        u.mirrors(m),
        mapped(changed, GRAVITY_ADDRESS as int, 0xc),
    ensures
        u.restorable(changed),
        region(u.restored(changed), GRAVITY_ADDRESS as int, 0xc) == region(m, GRAVITY_ADDRESS as int, 0xc),
        forall|k: int|
            changed.dom().contains(k) && !(GRAVITY_ADDRESS <= k < GRAVITY_ADDRESS + 0xc) ==> #[trigger] u.restored(changed)[k] == changed[k],
        u.restored(changed).dom() == changed.dom(),
{
    assert(region(u.restored(changed), GRAVITY_ADDRESS as int, 0xc) =~= region(m, GRAVITY_ADDRESS as int, 0xc));
    assert(u.restored(changed).dom() =~= changed.dom());
}

/// The level collision region and the 2 bytes that go with it. Capturing it is harmless, but
/// writing it back destabilises the target, so it is left out of the default unit list.
pub struct LevelCollisionUnit(Vec<u8>, Vec<u8>);

impl LevelCollisionUnit {
    /// An empty snapshot: zeroed bytes, to be filled by a capture.
    pub fn new() -> (r: LevelCollisionUnit)
        ensures
            r.wf(),
            r.zeroed(),
    {
        LevelCollisionUnit(zeros(0x3000), zeros(0x2))
    }
}

impl SaveStateUnit for LevelCollisionUnit {
    closed spec fn wf(&self) -> bool {
        self.0@.len() == 0x3000 && self.1@.len() == 0x2
    }

    closed spec fn zeroed(&self) -> bool {
        self.0@ == zero_bytes(0x3000) && self.1@ == zero_bytes(0x2)
    }

    closed spec fn capturable(m: Map<int, u8>) -> bool {
        mapped(m, LEVEL_COLLISION_ADDRESS as int, 0x3000) && mapped(m, LEVEL_COLLISION_COUNT_ADDRESS as int, 0x2)
    }

    closed spec fn mirrors(&self, m: Map<int, u8>) -> bool {
        &&& mapped(m, LEVEL_COLLISION_ADDRESS as int, 0x3000)
        &&& self.0@ == region(m, LEVEL_COLLISION_ADDRESS as int, 0x3000)
        &&& mapped(m, LEVEL_COLLISION_COUNT_ADDRESS as int, 0x2)
        &&& self.1@ == region(m, LEVEL_COLLISION_COUNT_ADDRESS as int, 0x2)
    }

    closed spec fn restorable(&self, m: Map<int, u8>) -> bool {
        mapped(m, LEVEL_COLLISION_ADDRESS as int, 0x3000) && mapped(
            overwrite(m, LEVEL_COLLISION_ADDRESS as int, self.0@),
            LEVEL_COLLISION_COUNT_ADDRESS as int,
            0x2,
        )
    }

    closed spec fn restored(&self, m: Map<int, u8>) -> Map<int, u8> {
        overwrite(
            overwrite(m, LEVEL_COLLISION_ADDRESS as int, self.0@),
            LEVEL_COLLISION_COUNT_ADDRESS as int,
            self.1@,
        )
    }

    closed spec fn capture_left(&self, before: &Self, m: Map<int, u8>, e: SnapshotError, reliable: bool) -> bool {
        let first = mapped(m, LEVEL_COLLISION_ADDRESS as int, 0x3000);
        let second = mapped(m, LEVEL_COLLISION_COUNT_ADDRESS as int, 0x2);
        &&& e == SnapshotError::Access
        &&& self.1 == before.1
        &&& {
            ||| self.0 == before.0 && (!reliable || !first)
            ||| first && self.0@ == region(m, LEVEL_COLLISION_ADDRESS as int, 0x3000) && (!reliable || !second)
        }
    }

    closed spec fn restore_left(&self, before: Map<int, u8>, after: Map<int, u8>, e: SnapshotError, reliable: bool) -> bool {
        let mid = overwrite(before, LEVEL_COLLISION_ADDRESS as int, self.0@);
        &&& e == SnapshotError::Access
        &&& reliable ==> {
            ||| after == before && !mapped(before, LEVEL_COLLISION_ADDRESS as int, 0x3000)
            ||| mapped(before, LEVEL_COLLISION_ADDRESS as int, 0x3000) && after == mid && !mapped(
                mid,
                LEVEL_COLLISION_COUNT_ADDRESS as int,
                0x2,
            )
        }
    }

    proof fn lemma_round_trip(&self, m: Map<int, u8>) {
        lemma_block_round_trip(m, LEVEL_COLLISION_ADDRESS as int, self.0@);
        lemma_block_round_trip(m, LEVEL_COLLISION_COUNT_ADDRESS as int, self.1@);
    }

    fn save<M: MemoryAccessor>(&mut self, mem: &M) -> (r: Result<(), SnapshotError>) {
        match capture_block(mem, LEVEL_COLLISION_ADDRESS, 0x3000) {
            Ok(v) => self.0 = v,
            Err(e) => return Err(e),
        }
        match capture_block(mem, LEVEL_COLLISION_COUNT_ADDRESS, 0x2) {
            Ok(v) => self.1 = v,
            Err(e) => return Err(e),
        }
        Ok(())
    }

    fn load<M: MemoryAccessor>(&self, mem: &mut M) -> (r: Result<(), SnapshotError>) {
        match restore_block(&self.0, mem, LEVEL_COLLISION_ADDRESS) {
            Ok(()) => {},
            Err(e) => return Err(e),
        }
        restore_block(&self.1, mem, LEVEL_COLLISION_COUNT_ADDRESS)
    }
}

} // verus!
