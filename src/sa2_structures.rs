use crate::memory::{mapped, overwrite, read_u8, region, zero_bytes, zeros, MemoryAccessor, ADDRESS_LIMIT};
use crate::{capture_error, from_access, restore_error, Pointer, SaveStateable, SnapshotError};
use vstd::prelude::*;

verus! {

/// Copies `len` bytes at `address` out of foreign memory.
pub(crate) fn capture_block<M: MemoryAccessor>(mem: &M, address: u64, len: usize) -> (r: Result<Vec<u8>, SnapshotError>)
    ensures
        r matches Ok(v) ==> mapped(mem.memory(), address as int, len as int) && v@ == region(
            mem.memory(),
            address as int,
            len as int,
        ),
        r matches Err(e) ==> e == SnapshotError::Access,
        mem.reliable() && mapped(mem.memory(), address as int, len as int) ==> r is Ok,
{
    from_access(mem.read_bytes(address, len))
}

/// Writes `data` back to foreign memory at `address`.
pub(crate) fn restore_block<M: MemoryAccessor>(data: &Vec<u8>, mem: &mut M, address: u64) -> (r: Result<(), SnapshotError>)
    ensures
        r is Ok ==> mapped(old(mem).memory(), address as int, data@.len() as int) && final(mem).memory()
            == overwrite(old(mem).memory(), address as int, data@),
        r matches Err(e) ==> e == SnapshotError::Access,
        final(mem).reliable() == old(mem).reliable(),
        old(mem).reliable() ==> final(mem).reliable() && (mapped(
            old(mem).memory(),
            address as int,
            data@.len() as int,
        ) ==> r is Ok) && (r is Err ==> final(mem).memory() == old(mem).memory()),
{
    from_access(mem.write_bytes(address, data.as_slice()))
}

/// Writing back the bytes that memory already holds leaves it as it was.
pub proof fn lemma_block_round_trip(m: Map<int, u8>, a: int, d: Seq<u8>)
    requires
        d == region(m, a, d.len() as int),
    ensures
        overwrite(m, a, d) == m,
{
    assert(overwrite(m, a, d) =~= m);
}

/// One element of a collision array: 0x30 raw bytes.
struct CollisionElement(Vec<u8>);

impl CollisionElement {
    /// An empty snapshot: zeroed bytes, to be filled by a capture.
    fn new() -> (r: CollisionElement)
        ensures
            r.wf(),
            r.zeroed(),
    {
        CollisionElement(zeros(0x30))
    }

    /// The bytes held by the snapshot.
    pub closed spec fn bytes(&self) -> Seq<u8> {
        self.0@
    }
}

impl SaveStateable for CollisionElement {
    open spec fn wf(&self) -> bool {
        self.bytes().len() == 0x30
    }

    open spec fn zeroed(&self) -> bool {
        self.bytes() == zero_bytes(0x30)
    }

    open spec fn capturable(m: Map<int, u8>, a: int) -> bool {
        mapped(m, a, 0x30)
    }

    open spec fn mirrors(&self, m: Map<int, u8>, a: int) -> bool {
        mapped(m, a, 0x30) && self.bytes() == region(m, a, 0x30)
    }

    open spec fn restorable(&self, m: Map<int, u8>, a: int) -> bool {
        mapped(m, a, 0x30)
    }

    open spec fn restored(&self, m: Map<int, u8>, a: int) -> Map<int, u8> {
        overwrite(m, a, self.bytes())
    }

    open spec fn capture_left(&self, before: &Self, m: Map<int, u8>, a: int, e: SnapshotError, reliable: bool) -> bool {
        *self == *before && e == SnapshotError::Access && (!reliable || !mapped(m, a, 0x30))
    }

    open spec fn restore_left(&self, before: Map<int, u8>, after: Map<int, u8>, a: int, e: SnapshotError, reliable: bool) -> bool {
        e == SnapshotError::Access && (!reliable || (after == before && !mapped(before, a, 0x30)))
    }

    proof fn lemma_round_trip(&self, m: Map<int, u8>, a: int) {
        lemma_block_round_trip(m, a, self.bytes());
    }

    fn save<M: MemoryAccessor>(&mut self, mem: &M, address: u64) -> (r: Result<(), SnapshotError>) {
        match capture_block(mem, address, 0x30) {
            Ok(v) => {
                self.0 = v;
                Ok(())
            },
            Err(e) => Err(e),
        }
    }

    fn load<M: MemoryAccessor>(&self, mem: &mut M, address: u64) -> (r: Result<(), SnapshotError>) {
        restore_block(&self.0, mem, address)
    }
}

/// Metrics kept for a character: 0x40 raw bytes.
struct GlobalMetricStruct(Vec<u8>);

impl GlobalMetricStruct {
    /// An empty snapshot: zeroed bytes, to be filled by a capture.
    fn new() -> (r: GlobalMetricStruct)
        ensures
            r.wf(),
            r.zeroed(),
    {
        GlobalMetricStruct(zeros(0x40))
    }

    /// The bytes held by the snapshot.
    pub closed spec fn bytes(&self) -> Seq<u8> {
        self.0@
    }
}

impl SaveStateable for GlobalMetricStruct {
    open spec fn wf(&self) -> bool {
        self.bytes().len() == 0x40
    }

    open spec fn zeroed(&self) -> bool {
        self.bytes() == zero_bytes(0x40)
    }

    open spec fn capturable(m: Map<int, u8>, a: int) -> bool {
        mapped(m, a, 0x40)
    }

    open spec fn mirrors(&self, m: Map<int, u8>, a: int) -> bool {
        mapped(m, a, 0x40) && self.bytes() == region(m, a, 0x40)
    }

    open spec fn restorable(&self, m: Map<int, u8>, a: int) -> bool {
        mapped(m, a, 0x40)
    }

    open spec fn restored(&self, m: Map<int, u8>, a: int) -> Map<int, u8> {
        overwrite(m, a, self.bytes())
    }

    open spec fn capture_left(&self, before: &Self, m: Map<int, u8>, a: int, e: SnapshotError, reliable: bool) -> bool {
        *self == *before && e == SnapshotError::Access && (!reliable || !mapped(m, a, 0x40))
    }

    open spec fn restore_left(&self, before: Map<int, u8>, after: Map<int, u8>, a: int, e: SnapshotError, reliable: bool) -> bool {
        e == SnapshotError::Access && (!reliable || (after == before && !mapped(before, a, 0x40)))
    }

    proof fn lemma_round_trip(&self, m: Map<int, u8>, a: int) {
        lemma_block_round_trip(m, a, self.bytes());
    }

    fn save<M: MemoryAccessor>(&mut self, mem: &M, address: u64) -> (r: Result<(), SnapshotError>) {
        match capture_block(mem, address, 0x40) {
            Ok(v) => {
                self.0 = v;
                Ok(())
            },
            Err(e) => Err(e),
        }
    }

    fn load<M: MemoryAccessor>(&self, mem: &mut M, address: u64) -> (r: Result<(), SnapshotError>) {
        restore_block(&self.0, mem, address)
    }
}

/// How a character touches the level: 0x84 raw bytes.
struct LevelCollision(Vec<u8>);

impl LevelCollision {
    /// An empty snapshot: zeroed bytes, to be filled by a capture.
    fn new() -> (r: LevelCollision)
        ensures
            r.wf(),
            r.zeroed(),
    {
        LevelCollision(zeros(0x84))
    }

    /// The bytes held by the snapshot.
    pub closed spec fn bytes(&self) -> Seq<u8> {
        self.0@
    }
}

impl SaveStateable for LevelCollision {
    open spec fn wf(&self) -> bool {
        self.bytes().len() == 0x84
    }

    open spec fn zeroed(&self) -> bool {
        self.bytes() == zero_bytes(0x84)
    }

    open spec fn capturable(m: Map<int, u8>, a: int) -> bool {
        mapped(m, a, 0x84)
    }

    open spec fn mirrors(&self, m: Map<int, u8>, a: int) -> bool {
        mapped(m, a, 0x84) && self.bytes() == region(m, a, 0x84)
    }

    open spec fn restorable(&self, m: Map<int, u8>, a: int) -> bool {
        mapped(m, a, 0x84)
    }

    open spec fn restored(&self, m: Map<int, u8>, a: int) -> Map<int, u8> {
        overwrite(m, a, self.bytes())
    }

    open spec fn capture_left(&self, before: &Self, m: Map<int, u8>, a: int, e: SnapshotError, reliable: bool) -> bool {
        *self == *before && e == SnapshotError::Access && (!reliable || !mapped(m, a, 0x84))
    }

    open spec fn restore_left(&self, before: Map<int, u8>, after: Map<int, u8>, a: int, e: SnapshotError, reliable: bool) -> bool {
        e == SnapshotError::Access && (!reliable || (after == before && !mapped(before, a, 0x84)))
    }

    proof fn lemma_round_trip(&self, m: Map<int, u8>, a: int) {
        lemma_block_round_trip(m, a, self.bytes());
    }

    fn save<M: MemoryAccessor>(&mut self, mem: &M, address: u64) -> (r: Result<(), SnapshotError>) {
        match capture_block(mem, address, 0x84) {
            Ok(v) => {
                self.0 = v;
                Ok(())
            },
            Err(e) => Err(e),
        }
    }

    fn load<M: MemoryAccessor>(&self, mem: &mut M, address: u64) -> (r: Result<(), SnapshotError>) {
        restore_block(&self.0, mem, address)
    }
}

/// The first camera of the camera array together with the 0x40 bytes that precede it:
/// 0x2518 contiguous raw bytes.
pub struct Camera(Vec<u8>);

impl Camera {
    /// An empty snapshot: zeroed bytes, to be filled by a capture.
    pub fn new() -> (r: Camera)
        ensures
            r.wf(),
            r.zeroed(),
    {
        Camera(zeros(0x2518))
    }

    /// The bytes held by the snapshot.
    pub closed spec fn bytes(&self) -> Seq<u8> {
        self.0@
    }
}

impl SaveStateable for Camera {
    open spec fn wf(&self) -> bool {
        self.bytes().len() == 0x2518
    }

    open spec fn zeroed(&self) -> bool {
        self.bytes() == zero_bytes(0x2518)
    }

    open spec fn capturable(m: Map<int, u8>, a: int) -> bool {
        mapped(m, a, 0x2518)
    }

    open spec fn mirrors(&self, m: Map<int, u8>, a: int) -> bool {
        mapped(m, a, 0x2518) && self.bytes() == region(m, a, 0x2518)
    }

    open spec fn restorable(&self, m: Map<int, u8>, a: int) -> bool {
        mapped(m, a, 0x2518)
    }

    open spec fn restored(&self, m: Map<int, u8>, a: int) -> Map<int, u8> {
        overwrite(m, a, self.bytes())
    }

    open spec fn capture_left(&self, before: &Self, m: Map<int, u8>, a: int, e: SnapshotError, reliable: bool) -> bool {
        *self == *before && e == SnapshotError::Access && (!reliable || !mapped(m, a, 0x2518))
    }

    open spec fn restore_left(&self, before: Map<int, u8>, after: Map<int, u8>, a: int, e: SnapshotError, reliable: bool) -> bool {
        e == SnapshotError::Access && (!reliable || (after == before && !mapped(before, a, 0x2518)))
    }

    proof fn lemma_round_trip(&self, m: Map<int, u8>, a: int) {
        lemma_block_round_trip(m, a, self.bytes());
    }

    fn save<M: MemoryAccessor>(&mut self, mem: &M, address: u64) -> (r: Result<(), SnapshotError>) {
        match capture_block(mem, address, 0x2518) {
            Ok(v) => {
                self.0 = v;
                Ok(())
            },
            Err(e) => Err(e),
        }
    }

    fn load<M: MemoryAccessor>(&self, mem: &mut M, address: u64) -> (r: Result<(), SnapshotError>) {
        restore_block(&self.0, mem, address)
    }
}

/// A table of 0x100 three-component vectors: 0xc00 raw bytes.
pub struct PastPositionTable(Vec<u8>);

impl PastPositionTable {
    /// An empty snapshot: zeroed bytes, to be filled by a capture.
    pub fn new() -> (r: PastPositionTable)
        ensures
            r.wf(),
            r.zeroed(),
    {
        PastPositionTable(zeros(0xc00))
    }

    /// The bytes held by the snapshot.
    pub closed spec fn bytes(&self) -> Seq<u8> {
        self.0@
    }
}

impl SaveStateable for PastPositionTable {
    open spec fn wf(&self) -> bool {
        self.bytes().len() == 0xc00
    }

    open spec fn zeroed(&self) -> bool {
        self.bytes() == zero_bytes(0xc00)
    }

    open spec fn capturable(m: Map<int, u8>, a: int) -> bool {
        mapped(m, a, 0xc00)
    }

    open spec fn mirrors(&self, m: Map<int, u8>, a: int) -> bool {
        mapped(m, a, 0xc00) && self.bytes() == region(m, a, 0xc00)
    }

    open spec fn restorable(&self, m: Map<int, u8>, a: int) -> bool {
        mapped(m, a, 0xc00)
    }

    open spec fn restored(&self, m: Map<int, u8>, a: int) -> Map<int, u8> {
        overwrite(m, a, self.bytes())
    }

    open spec fn capture_left(&self, before: &Self, m: Map<int, u8>, a: int, e: SnapshotError, reliable: bool) -> bool {
        *self == *before && e == SnapshotError::Access && (!reliable || !mapped(m, a, 0xc00))
    }

    open spec fn restore_left(&self, before: Map<int, u8>, after: Map<int, u8>, a: int, e: SnapshotError, reliable: bool) -> bool {
        e == SnapshotError::Access && (!reliable || (after == before && !mapped(before, a, 0xc00)))
    }

    proof fn lemma_round_trip(&self, m: Map<int, u8>, a: int) {
        lemma_block_round_trip(m, a, self.bytes());
    }

    fn save<M: MemoryAccessor>(&mut self, mem: &M, address: u64) -> (r: Result<(), SnapshotError>) {
        match capture_block(mem, address, 0xc00) {
            Ok(v) => {
                self.0 = v;
                Ok(())
            },
            Err(e) => Err(e),
        }
    }

    fn load<M: MemoryAccessor>(&self, mem: &mut M, address: u64) -> (r: Result<(), SnapshotError>) {
        restore_block(&self.0, mem, address)
    }
}

/// Collision data of an action: 0xa8 raw bytes, and the collision element array that the
/// field at +0xc points to.
struct CollisionData {
    data: Vec<u8>,
    element_array: Pointer<CollisionElement>,
}

impl CollisionData {
    /// An empty snapshot: zeroed bytes, to be filled by a capture.
    fn new() -> (r: CollisionData)
        ensures
            r.wf(),
            r.zeroed(),
    {
        CollisionData { data: zeros(0xa8), element_array: Pointer::new(CollisionElement::new()) }
    }
}

impl SaveStateable for CollisionData {
    closed spec fn wf(&self) -> bool {
        self.data@.len() == 0xa8 && self.element_array.wf()
    }

    closed spec fn zeroed(&self) -> bool {
        self.data@ == zero_bytes(0xa8) && self.element_array.zeroed()
    }

    closed spec fn capturable(m: Map<int, u8>, a: int) -> bool {
        mapped(m, a, 0xa8) && Pointer::<CollisionElement>::capturable(m, a + 0xc)
    }

    closed spec fn mirrors(&self, m: Map<int, u8>, a: int) -> bool {
        mapped(m, a, 0xa8) && self.data@ == region(m, a, 0xa8) && self.element_array.mirrors(m, a + 0xc)
    }

    closed spec fn restorable(&self, m: Map<int, u8>, a: int) -> bool {
        mapped(m, a, 0xa8) && self.element_array.restorable(overwrite(m, a, self.data@), a + 0xc)
    }

    closed spec fn restored(&self, m: Map<int, u8>, a: int) -> Map<int, u8> {
        self.element_array.restored(overwrite(m, a, self.data@), a + 0xc)
    }

    closed spec fn capture_left(&self, before: &Self, m: Map<int, u8>, a: int, e: SnapshotError, reliable: bool) -> bool {
        ||| *self == *before && e == SnapshotError::Access && (!reliable || !mapped(m, a, 0xa8))
        ||| mapped(m, a, 0xa8) && self.data@ == region(m, a, 0xa8) && self.element_array.capture_left(
            &before.element_array,
            m,
            a + 0xc,
            e, reliable,
        )
    }

    closed spec fn restore_left(&self, before: Map<int, u8>, after: Map<int, u8>, a: int, e: SnapshotError, reliable: bool) -> bool {
        ||| e == SnapshotError::Access && (!reliable || (after == before && !mapped(before, a, 0xa8)))
        ||| mapped(before, a, 0xa8) && self.element_array.restore_left(
            overwrite(before, a, self.data@),
            after,
            a + 0xc,
            e, reliable,
        )
    }

    proof fn lemma_round_trip(&self, m: Map<int, u8>, a: int) {
        lemma_block_round_trip(m, a, self.data@);
        self.element_array.lemma_round_trip(m, a + 0xc);
    }

    fn save<M: MemoryAccessor>(&mut self, mem: &M, address: u64) -> (r: Result<(), SnapshotError>) {
        match capture_block(mem, address, 0xa8) {
            Ok(v) => self.data = v,
            Err(e) => return Err(e),
        }
        self.element_array.capture(mem, address + 0xc)
    }

    fn load<M: MemoryAccessor>(&self, mem: &mut M, address: u64) -> (r: Result<(), SnapshotError>) {
        match restore_block(&self.data, mem, address) {
            Ok(()) => {},
            Err(e) => return Err(e),
        }
        self.element_array.restore(mem, address + 0xc)
    }
}

/// An action: 0x30 raw bytes, and the collision data that the field at +0x2c points to.
struct ActionStruct {
    data: Vec<u8>,
    collision_data: Pointer<CollisionData>,
}

impl ActionStruct {
    /// An empty snapshot: zeroed bytes, to be filled by a capture.
    fn new() -> (r: ActionStruct)
        ensures
            r.wf(),
            r.zeroed(),
    {
        ActionStruct { data: zeros(0x30), collision_data: Pointer::new(CollisionData::new()) }
    }
}

impl SaveStateable for ActionStruct {
    closed spec fn wf(&self) -> bool {
        self.data@.len() == 0x30 && self.collision_data.wf()
    }

    closed spec fn zeroed(&self) -> bool {
        self.data@ == zero_bytes(0x30) && self.collision_data.zeroed()
    }

    closed spec fn capturable(m: Map<int, u8>, a: int) -> bool {
        mapped(m, a, 0x30) && Pointer::<CollisionData>::capturable(m, a + 0x2c)
    }

    closed spec fn mirrors(&self, m: Map<int, u8>, a: int) -> bool {
        mapped(m, a, 0x30) && self.data@ == region(m, a, 0x30) && self.collision_data.mirrors(m, a + 0x2c)
    }

    closed spec fn restorable(&self, m: Map<int, u8>, a: int) -> bool {
        mapped(m, a, 0x30) && self.collision_data.restorable(overwrite(m, a, self.data@), a + 0x2c)
    }

    closed spec fn restored(&self, m: Map<int, u8>, a: int) -> Map<int, u8> {
        self.collision_data.restored(overwrite(m, a, self.data@), a + 0x2c)
    }

    closed spec fn capture_left(&self, before: &Self, m: Map<int, u8>, a: int, e: SnapshotError, reliable: bool) -> bool {
        ||| *self == *before && e == SnapshotError::Access && (!reliable || !mapped(m, a, 0x30))
        ||| mapped(m, a, 0x30) && self.data@ == region(m, a, 0x30) && self.collision_data.capture_left(
            &before.collision_data,
            m,
            a + 0x2c,
            e, reliable,
        )
    }

    closed spec fn restore_left(&self, before: Map<int, u8>, after: Map<int, u8>, a: int, e: SnapshotError, reliable: bool) -> bool {
        ||| e == SnapshotError::Access && (!reliable || (after == before && !mapped(before, a, 0x30)))
        ||| mapped(before, a, 0x30) && self.collision_data.restore_left(
            overwrite(before, a, self.data@),
            after,
            a + 0x2c,
            e, reliable,
        )
    }

    proof fn lemma_round_trip(&self, m: Map<int, u8>, a: int) {
        lemma_block_round_trip(m, a, self.data@);
        self.collision_data.lemma_round_trip(m, a + 0x2c);
    }

    fn save<M: MemoryAccessor>(&mut self, mem: &M, address: u64) -> (r: Result<(), SnapshotError>) {
        match capture_block(mem, address, 0x30) {
            Ok(v) => self.data = v,
            Err(e) => return Err(e),
        }
        self.collision_data.capture(mem, address + 0x2c)
    }

    fn load<M: MemoryAccessor>(&self, mem: &mut M, address: u64) -> (r: Result<(), SnapshotError>) {
        match restore_block(&self.data, mem, address) {
            Ok(()) => {},
            Err(e) => return Err(e),
        }
        self.collision_data.restore(mem, address + 0x2c)
    }
}

/// The physics layout of a character family.
#[derive(Clone, Copy, Debug, PartialEq, Eq, Structural)]
pub enum PhysKind {
    Speed,
    Hunt,
    Mech,
}

/// The layout that a character discriminant selects, if it is one of the known characters.
pub open spec fn kind_of(discriminant: u8) -> Option<PhysKind> {
    if discriminant == 0 || discriminant == 1 {
        Some(PhysKind::Speed)
    } else if discriminant == 4 || discriminant == 5 {
        Some(PhysKind::Hunt)
    } else if discriminant == 6 || discriminant == 7 {
        Some(PhysKind::Mech)
    } else {
        None
    }
}

impl PhysKind {
    pub open spec fn size_spec(self) -> nat {
        match self {
            PhysKind::Speed => 0x3a0,
            PhysKind::Hunt => 0x420,
            PhysKind::Mech => 0x454,
        }
    }

    /// How many bytes of physics the layout holds.
    pub fn size(&self) -> (r: usize)
        ensures
            r == self.size_spec(),
    {
        match self {
            PhysKind::Speed => 0x3a0,
            PhysKind::Hunt => 0x420,
            PhysKind::Mech => 0x454,
        }
    }

    /// The layout for a character discriminant; characters outside the known families are
    /// refused.
    pub fn from_discriminant(discriminant: u8) -> (r: Result<PhysKind, SnapshotError>)
        ensures
            r == match kind_of(discriminant) {
                Some(k) => Ok::<PhysKind, SnapshotError>(k),
                None => Err(SnapshotError::UnsupportedVariant),
            },
    {
        match discriminant {
            0 | 1 => Ok(PhysKind::Speed),
            4 | 5 => Ok(PhysKind::Hunt),
            6 | 7 => Ok(PhysKind::Mech),
            _ => Err(SnapshotError::UnsupportedVariant),
        }
    }

    /// Whether a live character discriminant belongs to this layout.
    pub fn accepts(&self, discriminant: u8) -> (r: bool)
        ensures
            r == (kind_of(discriminant) == Some(*self)),
    {
        match self {
            PhysKind::Speed => discriminant == 0 || discriminant == 1,
            PhysKind::Hunt => discriminant == 4 || discriminant == 5,
            PhysKind::Mech => discriminant == 6 || discriminant == 7,
        }
    }
}

/// The physics block of a character, whose length depends on the character discriminant
/// stored at +0x1.
pub enum CharacterPhys {
    SpeedPhys(Vec<u8>),
    HuntPhys(Vec<u8>),
    MechPhys(Vec<u8>),
}

/// The discriminant byte of the physics block at `a` is readable in `m`.
pub open spec fn discriminant_mapped(m: Map<int, u8>, a: int) -> bool {
    mapped(m, a + 1, 1)
}

/// The whole physics block at `a`, in the layout its discriminant selects, is readable in `m`.
pub open spec fn body_mapped(m: Map<int, u8>, a: int) -> bool {
    match kind_of(discriminant_at(m, a)) {
        Some(k) => mapped(m, a, k.size_spec() as int),
        None => false,
    }
}

/// The character discriminant of the physics block at `a`.
pub open spec fn discriminant_at(m: Map<int, u8>, a: int) -> u8 {
    m[a + 1]
}

impl CharacterPhys {
    /// An empty snapshot in the speed layout.
    pub fn new() -> (r: CharacterPhys)
        ensures
            r.wf(),
            r.zeroed(),
            r.kind() == PhysKind::Speed,
    {
        CharacterPhys::SpeedPhys(zeros(0x3a0))
    }

    pub open spec fn kind(&self) -> PhysKind {
        match self {
            CharacterPhys::SpeedPhys(_) => PhysKind::Speed,
            CharacterPhys::HuntPhys(_) => PhysKind::Hunt,
            CharacterPhys::MechPhys(_) => PhysKind::Mech,
        }
    }

    pub open spec fn bytes(&self) -> Seq<u8> {
        match self {
            CharacterPhys::SpeedPhys(b) => b@,
            CharacterPhys::HuntPhys(b) => b@,
            CharacterPhys::MechPhys(b) => b@,
        }
    }

    /// The layout of the held snapshot.
    pub fn layout(&self) -> (r: PhysKind)
        ensures
            r == self.kind(),
    {
        match self {
            CharacterPhys::SpeedPhys(_) => PhysKind::Speed,
            CharacterPhys::HuntPhys(_) => PhysKind::Hunt,
            CharacterPhys::MechPhys(_) => PhysKind::Mech,
        }
    }

    /// The bytes of the held snapshot.
    pub fn data(&self) -> (r: &Vec<u8>)
        ensures
            r@ == self.bytes(),
    {
        match self {
            CharacterPhys::SpeedPhys(b) => b,
            CharacterPhys::HuntPhys(b) => b,
            CharacterPhys::MechPhys(b) => b,
        }
    }

    /// Reads the live discriminant at `address + 1`, then the block in the layout it selects.
    /// On failure the held snapshot is left as it was.
    pub fn capture<M: MemoryAccessor>(&mut self, mem: &M, address: u64) -> (r: Result<(), SnapshotError>)
        requires
            address <= ADDRESS_LIMIT,
        ensures
            r is Ok ==> Self::capturable(mem.memory(), address as int) && final(self).mirrors(
                mem.memory(),
                address as int,
            ) && final(self).wf(),
            r is Err ==> *final(self) == *old(self),
            r matches Err(e) ==> e == SnapshotError::Access || e == SnapshotError::UnsupportedVariant,
            r == Err::<(), SnapshotError>(SnapshotError::UnsupportedVariant) ==> discriminant_mapped(
                mem.memory(),
                address as int,
            ) && kind_of(discriminant_at(mem.memory(), address as int)) is None,
            discriminant_mapped(mem.memory(), address as int) && kind_of(
                discriminant_at(mem.memory(), address as int),
            ) is None ==> r is Err,
            mem.reliable() ==> (r is Ok <==> Self::capturable(mem.memory(), address as int)),
            r matches Err(e) ==> final(self).capture_left(old(self), mem.memory(), address as int, e, mem.reliable()),
            mem.reliable() && discriminant_mapped(mem.memory(), address as int) && kind_of(
                discriminant_at(mem.memory(), address as int),
            ) is None ==> r == Err::<(), SnapshotError>(SnapshotError::UnsupportedVariant),
    {
        let discriminant = match from_access(read_u8(mem, address + 1)) {
            Ok(d) => d,
            Err(e) => return Err(e),
        };
        let kind = match PhysKind::from_discriminant(discriminant) {
            Ok(k) => k,
            Err(e) => return Err(e),
        };
        let buf = match capture_block(mem, address, kind.size()) {
            Ok(b) => b,
            Err(e) => return Err(e),
        };
        *self = match kind {
            PhysKind::Speed => CharacterPhys::SpeedPhys(buf),
            PhysKind::Hunt => CharacterPhys::HuntPhys(buf),
            PhysKind::Mech => CharacterPhys::MechPhys(buf),
        };
        Ok(())
    }

    /// Checks the live discriminant at `address + 1` against the held layout, then writes the
    /// held block back. Nothing is written when the two disagree.
    pub fn restore<M: MemoryAccessor>(&self, mem: &mut M, address: u64) -> (r: Result<(), SnapshotError>)
        requires
            self.wf(),
            address <= ADDRESS_LIMIT,
        ensures
            r is Ok ==> self.restorable(old(mem).memory(), address as int) && final(mem).memory()
                == self.restored(old(mem).memory(), address as int),
            r matches Err(e) ==> e == SnapshotError::Access || e == SnapshotError::VariantMismatch,
            r == Err::<(), SnapshotError>(SnapshotError::VariantMismatch) ==> discriminant_mapped(
                old(mem).memory(),
                address as int,
            ) && kind_of(discriminant_at(old(mem).memory(), address as int)) != Some(self.kind()),
            discriminant_mapped(old(mem).memory(), address as int) && kind_of(
                discriminant_at(old(mem).memory(), address as int),
            ) != Some(self.kind()) ==> r is Err && final(mem).memory() == old(mem).memory(),
            final(mem).reliable() == old(mem).reliable(),
            old(mem).reliable() ==> final(mem).reliable() && (r is Ok <==> self.restorable(
                old(mem).memory(),
                address as int,
            )),
            r matches Err(e) ==> self.restore_left(old(mem).memory(), final(mem).memory(), address as int, e, old(mem).reliable()),
            old(mem).reliable() && discriminant_mapped(old(mem).memory(), address as int) && kind_of(
                discriminant_at(old(mem).memory(), address as int),
            ) != Some(self.kind()) ==> r == Err::<(), SnapshotError>(SnapshotError::VariantMismatch),
    {
        let discriminant = match from_access(read_u8(&*mem, address + 1)) {
            Ok(d) => d,
            Err(e) => return Err(e),
        };
        if !self.layout().accepts(discriminant) {
            return Err(SnapshotError::VariantMismatch);
        }
        restore_block(self.data(), mem, address)
    }
}

impl SaveStateable for CharacterPhys {
    open spec fn wf(&self) -> bool {
        self.bytes().len() == self.kind().size_spec()
    }

    open spec fn zeroed(&self) -> bool {
        self.kind() == PhysKind::Speed && self.bytes() == zero_bytes(0x3a0)
    }

    open spec fn capturable(m: Map<int, u8>, a: int) -> bool {
        discriminant_mapped(m, a) && match kind_of(discriminant_at(m, a)) {
            Some(k) => mapped(m, a, k.size_spec() as int),
            None => false,
        }
    }

    open spec fn mirrors(&self, m: Map<int, u8>, a: int) -> bool {
        discriminant_mapped(m, a) && kind_of(discriminant_at(m, a)) == Some(self.kind()) && mapped(
            m,
            a,
            self.kind().size_spec() as int,
        ) && self.bytes() == region(m, a, self.kind().size_spec() as int)
    }

    open spec fn restorable(&self, m: Map<int, u8>, a: int) -> bool {
        discriminant_mapped(m, a) && kind_of(discriminant_at(m, a)) == Some(self.kind()) && mapped(
            m,
            a,
            self.kind().size_spec() as int,
        )
    }

    open spec fn restored(&self, m: Map<int, u8>, a: int) -> Map<int, u8> {
        overwrite(m, a, self.bytes())
    }

    open spec fn capture_left(&self, before: &Self, m: Map<int, u8>, a: int, e: SnapshotError, reliable: bool) -> bool {
        ||| *self == *before && e == SnapshotError::Access && (!reliable || !discriminant_mapped(m, a)
            || (kind_of(discriminant_at(m, a)) is Some && !body_mapped(m, a)))
        ||| *self == *before && e == SnapshotError::UnsupportedVariant && discriminant_mapped(m, a)
            && kind_of(discriminant_at(m, a)) is None
    }

    open spec fn restore_left(&self, before: Map<int, u8>, after: Map<int, u8>, a: int, e: SnapshotError, reliable: bool) -> bool {
        ||| e == SnapshotError::Access && (!reliable || (after == before && (!discriminant_mapped(before, a)
            || (kind_of(discriminant_at(before, a)) == Some(self.kind()) && !mapped(
            before,
            a,
            self.kind().size_spec() as int,
        )))))
        ||| e == SnapshotError::VariantMismatch && after == before && discriminant_mapped(before, a)
            && kind_of(discriminant_at(before, a)) != Some(self.kind())
    }

    proof fn lemma_round_trip(&self, m: Map<int, u8>, a: int) {
        lemma_block_round_trip(m, a, self.bytes());
    }

    fn save<M: MemoryAccessor>(&mut self, mem: &M, address: u64) -> (r: Result<(), SnapshotError>) {
        self.capture(mem, address)
    }

    fn load<M: MemoryAccessor>(&self, mem: &mut M, address: u64) -> (r: Result<(), SnapshotError>) {
        self.restore(mem, address)
    }
}

/// The physics of a character: the physics block at its base, and the level collision
/// that the field at +0x90 points to.
struct PhysicsStruct {
    data: CharacterPhys,
    level_collision: Pointer<LevelCollision>,
}

impl PhysicsStruct {
    /// An empty snapshot: zeroed bytes, to be filled by a capture.
    fn new() -> (r: PhysicsStruct)
        ensures
            r.wf(),
            r.zeroed(),
    {
        PhysicsStruct { data: CharacterPhys::new(), level_collision: Pointer::new(LevelCollision::new()) }
    }
}

impl SaveStateable for PhysicsStruct {
    closed spec fn wf(&self) -> bool {
        self.data.wf() && self.level_collision.wf()
    }

    closed spec fn zeroed(&self) -> bool {
        self.data.zeroed() && self.level_collision.zeroed()
    }

    closed spec fn capturable(m: Map<int, u8>, a: int) -> bool {
        CharacterPhys::capturable(m, a) && Pointer::<LevelCollision>::capturable(m, a + 0x90)
    }

    closed spec fn mirrors(&self, m: Map<int, u8>, a: int) -> bool {
        self.data.mirrors(m, a) && self.level_collision.mirrors(m, a + 0x90)
    }

    closed spec fn restorable(&self, m: Map<int, u8>, a: int) -> bool {
        self.data.restorable(m, a) && self.level_collision.restorable(self.data.restored(m, a), a + 0x90)
    }

    closed spec fn restored(&self, m: Map<int, u8>, a: int) -> Map<int, u8> {
        self.level_collision.restored(self.data.restored(m, a), a + 0x90)
    }

    closed spec fn capture_left(&self, before: &Self, m: Map<int, u8>, a: int, e: SnapshotError, reliable: bool) -> bool {
        ||| self.data.capture_left(&before.data, m, a, e, reliable) && self.level_collision == before.level_collision
        ||| self.data.mirrors(m, a) && self.data.wf() && self.level_collision.capture_left(
            &before.level_collision,
            m,
            a + 0x90,
            e, reliable,
        )
    }

    closed spec fn restore_left(&self, before: Map<int, u8>, after: Map<int, u8>, a: int, e: SnapshotError, reliable: bool) -> bool {
        ||| self.data.restore_left(before, after, a, e, reliable)
        ||| self.data.restorable(before, a) && self.level_collision.restore_left(
            self.data.restored(before, a),
            after,
            a + 0x90,
            e, reliable,
        )
    }

    proof fn lemma_round_trip(&self, m: Map<int, u8>, a: int) {
        self.data.lemma_round_trip(m, a);
        self.level_collision.lemma_round_trip(m, a + 0x90);
    }

    fn save<M: MemoryAccessor>(&mut self, mem: &M, address: u64) -> (r: Result<(), SnapshotError>) {
        match self.data.capture(mem, address) {
            Ok(()) => {},
            Err(e) => return Err(e),
        }
        self.level_collision.capture(mem, address + 0x90)
    }

    fn load<M: MemoryAccessor>(&self, mem: &mut M, address: u64) -> (r: Result<(), SnapshotError>) {
        match self.data.restore(mem, address) {
            Ok(()) => {},
            Err(e) => return Err(e),
        }
        self.level_collision.restore(mem, address + 0x90)
    }
}

/// The task record of the player character. Only the three fields that point to its data are
/// followed: the action record at +0x34, the metrics at +0x38 and the physics at +0x40.
pub struct Character {
    acs: Pointer<ActionStruct>,
    gms: Pointer<GlobalMetricStruct>,
    phs: Pointer<PhysicsStruct>,
}

impl Character {
    /// An empty snapshot: zeroed bytes, to be filled by a capture.
    pub fn new() -> (r: Character)
        ensures
            r.wf(),
            r.zeroed(),
    {
        Character {
            acs: Pointer::new(ActionStruct::new()),
            gms: Pointer::new(GlobalMetricStruct::new()),
            phs: Pointer::new(PhysicsStruct::new()),
        }
    }
}

impl SaveStateable for Character {
    closed spec fn wf(&self) -> bool {
        self.acs.wf() && self.gms.wf() && self.phs.wf()
    }

    closed spec fn zeroed(&self) -> bool {
        self.acs.zeroed() && self.gms.zeroed() && self.phs.zeroed()
    }

    closed spec fn capturable(m: Map<int, u8>, a: int) -> bool {
        Pointer::<ActionStruct>::capturable(m, a + 0x34) && Pointer::<GlobalMetricStruct>::capturable(
            m,
            a + 0x38,
        ) && Pointer::<PhysicsStruct>::capturable(m, a + 0x40)
    }

    closed spec fn mirrors(&self, m: Map<int, u8>, a: int) -> bool {
        self.acs.mirrors(m, a + 0x34) && self.gms.mirrors(m, a + 0x38) && self.phs.mirrors(m, a + 0x40)
    }

    closed spec fn restorable(&self, m: Map<int, u8>, a: int) -> bool {
        let m1 = self.acs.restored(m, a + 0x34);
        let m2 = self.gms.restored(m1, a + 0x38);
        self.acs.restorable(m, a + 0x34) && self.gms.restorable(m1, a + 0x38) && self.phs.restorable(
            m2,
            a + 0x40,
        )
    }

    closed spec fn restored(&self, m: Map<int, u8>, a: int) -> Map<int, u8> {
        let m1 = self.acs.restored(m, a + 0x34);
        let m2 = self.gms.restored(m1, a + 0x38);
        self.phs.restored(m2, a + 0x40)
    }

    closed spec fn capture_left(&self, before: &Self, m: Map<int, u8>, a: int, e: SnapshotError, reliable: bool) -> bool {
        ||| self.acs.capture_left(&before.acs, m, a + 0x34, e, reliable) && self.gms == before.gms && self.phs
            == before.phs
        ||| self.acs.mirrors(m, a + 0x34) && self.acs.wf() && self.gms.capture_left(
            &before.gms,
            m,
            a + 0x38,
            e, reliable,
        ) && self.phs == before.phs
        ||| self.acs.mirrors(m, a + 0x34) && self.acs.wf() && self.gms.mirrors(m, a + 0x38) && self.gms.wf()
            && self.phs.capture_left(&before.phs, m, a + 0x40, e, reliable)
    }

    closed spec fn restore_left(&self, before: Map<int, u8>, after: Map<int, u8>, a: int, e: SnapshotError, reliable: bool) -> bool {
        let m1 = self.acs.restored(before, a + 0x34);
        let m2 = self.gms.restored(m1, a + 0x38);
        ||| self.acs.restore_left(before, after, a + 0x34, e, reliable)
        ||| self.acs.restorable(before, a + 0x34) && self.gms.restore_left(m1, after, a + 0x38, e, reliable)
        ||| self.acs.restorable(before, a + 0x34) && self.gms.restorable(m1, a + 0x38)
            && self.phs.restore_left(m2, after, a + 0x40, e, reliable)
    }

    proof fn lemma_round_trip(&self, m: Map<int, u8>, a: int) {
        self.acs.lemma_round_trip(m, a + 0x34);
        self.gms.lemma_round_trip(m, a + 0x38);
        self.phs.lemma_round_trip(m, a + 0x40);
    }

    fn save<M: MemoryAccessor>(&mut self, mem: &M, address: u64) -> (r: Result<(), SnapshotError>) {
        match self.acs.capture(mem, address + 0x34) {
            Ok(()) => {},
            Err(e) => return Err(e),
        }
        match self.gms.capture(mem, address + 0x38) {
            Ok(()) => {},
            Err(e) => return Err(e),
        }
        self.phs.capture(mem, address + 0x40)
    }

    fn load<M: MemoryAccessor>(&self, mem: &mut M, address: u64) -> (r: Result<(), SnapshotError>) {
        match self.acs.restore(mem, address + 0x34) {
            Ok(()) => {},
            Err(e) => return Err(e),
        }
        match self.gms.restore(mem, address + 0x38) {
            Ok(()) => {},
            Err(e) => return Err(e),
        }
        self.phs.restore(mem, address + 0x40)
    }
}

/// A physics block captured from memory and written straight back, with memory untouched
/// in between, is accepted by the live discriminant and leaves memory byte for byte as it was.
pub proof fn lemma_physics_round_trip(p: CharacterPhys, m: Map<int, u8>, a: int)
    requires
        p.wf(),
        p.mirrors(m, a),
    ensures
        kind_of(discriminant_at(m, a)) is Some,
        p.restorable(m, a),
        p.restored(m, a) == m,
{
    p.lemma_round_trip(m, a);
}

} // verus!
