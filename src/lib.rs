pub mod memory;
pub mod orchestrator;
pub mod process_reader;
pub mod sa2_structures;
pub mod sa2_units;

use memory::{mapped, overwrite, read_u32, read_u8, u32_at, MemoryAccessor, ADDRESS_LIMIT};
use vstd::prelude::*;

verus! {

/// Why a capture or a restore did not go through.
#[derive(Clone, Copy, Debug, PartialEq, Eq, Structural)]
pub enum SnapshotError {
    /// Reading or writing foreign memory failed, or moved fewer bytes than asked for.
    Access,
    /// A pointer field held the address zero.
    NullPointer,
    /// The live character discriminant belongs to no known physics layout.
    UnsupportedVariant,
    /// The live character discriminant disagrees with the layout held in the snapshot.
    VariantMismatch,
    /// A restore was asked for while no valid snapshot is held.
    InvalidSnapshot,
    /// A restore was asked for in another level than the one the snapshot was taken in.
    StageMismatch,
    /// A capture was asked for while no level is active.
    NotInLevel,
}

/// The errors a record capture can end with.
pub open spec fn capture_error(e: SnapshotError) -> bool {
    e == SnapshotError::Access || e == SnapshotError::NullPointer || e == SnapshotError::UnsupportedVariant
}

/// The errors a record restore can end with.
pub open spec fn restore_error(e: SnapshotError) -> bool {
    e == SnapshotError::Access || e == SnapshotError::NullPointer || e == SnapshotError::VariantMismatch
}

/// Turns a failed memory transfer into the snapshot error for it.
pub fn from_access<T>(r: Result<T, memory::AccessError>) -> (o: Result<T, SnapshotError>)
    ensures
        r matches Ok(v) ==> o == Ok::<T, SnapshotError>(v),
        r is Err ==> o == Err::<T, SnapshotError>(SnapshotError::Access),
{
    match r {
        Ok(v) => Ok(v),
        Err(_) => Err(SnapshotError::Access),
    }
}

/// A record of foreign memory that can be captured from an address and written back there.
///
/// Over a memory `m` and an anchor address `a`:
/// `capturable` says whether a capture can succeed at all, `mirrors` whether the held value
/// is exactly what a capture from `m` gives, `restorable` whether a restore can succeed, and
/// `restored` what memory looks like after one that did.
pub trait SaveStateable: Sized {
    spec fn wf(&self) -> bool;

    /// The held snapshot is the start-up one: every captured byte zero.
    spec fn zeroed(&self) -> bool;

    spec fn capturable(m: Map<int, u8>, a: int) -> bool;

    spec fn mirrors(&self, m: Map<int, u8>, a: int) -> bool;

    spec fn restorable(&self, m: Map<int, u8>, a: int) -> bool;

    spec fn restored(&self, m: Map<int, u8>, a: int) -> Map<int, u8>;

    /// What a capture from `m` at `a` that failed with `e` leaves held, from `before`: the
    /// steps before the failing one keep what they captured, the later ones are not taken.
    /// With `reliable`, the failing step is the first one that memory makes impossible and `e`
    /// is its error: `Access` for an unbacked address, `NullPointer` for a zero pointer word,
    /// `UnsupportedVariant` for an unknown character.
    spec fn capture_left(&self, before: &Self, m: Map<int, u8>, a: int, e: SnapshotError, reliable: bool) -> bool;

    /// What a restore at `a` that failed with `e` leaves in memory, from `before`: the writes
    /// of the steps before the failing one stay, the later ones are not made. With `reliable`,
    /// the failing step is the first one that memory makes impossible, `e` is its error
    /// (`Access`, `NullPointer` or `VariantMismatch`), and it wrote nothing, so `after` is
    /// exactly what the earlier steps left.
    spec fn restore_left(&self, before: Map<int, u8>, after: Map<int, u8>, a: int, e: SnapshotError, reliable: bool) -> bool;

    /// Restoring a value that mirrors memory succeeds and changes nothing.
    proof fn lemma_round_trip(&self, m: Map<int, u8>, a: int)
        requires
            self.wf(),
            self.mirrors(m, a),
        ensures
            Self::capturable(m, a),
            self.restorable(m, a),
            self.restored(m, a) == m,
    ;

    fn save<M: MemoryAccessor>(&mut self, mem: &M, address: u64) -> (r: Result<(), SnapshotError>)
        requires
            old(self).wf(),
            address <= ADDRESS_LIMIT,
        ensures
            final(self).wf(),
            r is Ok ==> Self::capturable(mem.memory(), address as int) && final(self).mirrors(
                mem.memory(),
                address as int,
            ),
            r matches Err(e) ==> capture_error(e) && (e != SnapshotError::Access
                ==> !Self::capturable(mem.memory(), address as int)),
            r matches Err(e) ==> final(self).capture_left(old(self), mem.memory(), address as int, e, mem.reliable()),
            mem.reliable() ==> (r is Ok <==> Self::capturable(mem.memory(), address as int)),
    ;

    fn load<M: MemoryAccessor>(&self, mem: &mut M, address: u64) -> (r: Result<(), SnapshotError>)
        requires
            self.wf(),
            address <= ADDRESS_LIMIT,
        ensures
            r is Ok ==> self.restorable(old(mem).memory(), address as int) && final(mem).memory()
                == self.restored(old(mem).memory(), address as int),
            r matches Err(e) ==> restore_error(e) && (e != SnapshotError::Access
                ==> !self.restorable(old(mem).memory(), address as int)),
            r matches Err(e) ==> self.restore_left(old(mem).memory(), final(mem).memory(), address as int, e, old(mem).reliable()),
            final(mem).reliable() == old(mem).reliable(),
            old(mem).reliable() ==> final(mem).reliable() && (r is Ok <==> self.restorable(
                old(mem).memory(),
                address as int,
            )),
    ;
}

/// The address a pointer field leads to, given the 32-bit value read from it.
pub fn pointer_target(raw: u32) -> (r: Result<u64, SnapshotError>)
    ensures
        raw == 0 <==> r == Err::<u64, SnapshotError>(SnapshotError::NullPointer),
        raw != 0 ==> r == Ok::<u64, SnapshotError>(raw as u64),
{
    if raw != 0 {
        Ok(raw as u64)
    } else {
        Err(SnapshotError::NullPointer)
    }
}

/// A field holding the address of a record; the record is captured and restored wherever
/// the field points at the moment of the call.
pub struct Pointer<T>(T);

impl<T> Pointer<T> {
    /// A field leading to `inner`.
    pub fn new(inner: T) -> (r: Pointer<T>)
        ensures
            r.inner() == inner,
    {
        Pointer(inner)
    }

    pub closed spec fn inner(&self) -> T {
        self.0
    }
}

/// The address the pointer field at `a` holds in `m`.
pub open spec fn target(m: Map<int, u8>, a: int) -> int {
    u32_at(m, a)
}

/// The pointer field at `a` is readable and non-null in `m`.
pub open spec fn live_pointer(m: Map<int, u8>, a: int) -> bool {
    mapped(m, a, 4) && target(m, a) != 0
}

impl<T: SaveStateable> Pointer<T> {
    /// Captures the record the field at `address` points to.
    pub fn capture<M: MemoryAccessor>(&mut self, mem: &M, address: u64) -> (r: Result<(), SnapshotError>)
        requires
            old(self).wf(),
        ensures
            final(self).wf(),
            r is Ok ==> Self::capturable(mem.memory(), address as int) && final(self).mirrors(
                mem.memory(),
                address as int,
            ),
            r matches Err(e) ==> capture_error(e) && (e != SnapshotError::Access
                ==> !Self::capturable(mem.memory(), address as int)),
            mapped(mem.memory(), address as int, 4) && target(mem.memory(), address as int) == 0 ==> (r
                == Err::<(), SnapshotError>(SnapshotError::NullPointer) || r == Err::<(), SnapshotError>(
                SnapshotError::Access,
            )) && *final(self) == *old(self),
            r matches Err(e) ==> final(self).capture_left(old(self), mem.memory(), address as int, e, mem.reliable()),
            mem.reliable() ==> (r is Ok <==> Self::capturable(mem.memory(), address as int)),
            mem.reliable() && mapped(mem.memory(), address as int, 4) && target(mem.memory(), address as int)
                == 0 ==> r == Err::<(), SnapshotError>(SnapshotError::NullPointer),
    {
        let raw = match from_access(read_u32(mem, address)) {
            Ok(v) => v,
            Err(e) => return Err(e),
        };
        let at = match pointer_target(raw) {
            Ok(at) => at,
            Err(e) => return Err(e),
        };
        proof {
            lemma_target_bounded(mem.memory(), address as int);
        }
        self.0.save(mem, at)
    }

    /// Restores the record the field at `address` points to now.
    pub fn restore<M: MemoryAccessor>(&self, mem: &mut M, address: u64) -> (r: Result<(), SnapshotError>)
        requires
            self.wf(),
        ensures
            r is Ok ==> self.restorable(old(mem).memory(), address as int) && final(mem).memory()
                == self.restored(old(mem).memory(), address as int),
            r matches Err(e) ==> restore_error(e) && (e != SnapshotError::Access
                ==> !self.restorable(old(mem).memory(), address as int)),
            mapped(old(mem).memory(), address as int, 4) && target(old(mem).memory(), address as int) == 0
                ==> (r == Err::<(), SnapshotError>(SnapshotError::NullPointer) || r == Err::<
                (),
                SnapshotError,
            >(SnapshotError::Access)) && final(mem).memory() == old(mem).memory(),
            r matches Err(e) ==> self.restore_left(old(mem).memory(), final(mem).memory(), address as int, e, old(mem).reliable()),
            final(mem).reliable() == old(mem).reliable(),
            old(mem).reliable() ==> final(mem).reliable() && (r is Ok <==> self.restorable(
                old(mem).memory(),
                address as int,
            )),
            old(mem).reliable() && mapped(old(mem).memory(), address as int, 4) && target(
                old(mem).memory(),
                address as int,
            ) == 0 ==> r == Err::<(), SnapshotError>(SnapshotError::NullPointer),
    {
        let raw = match from_access(read_u32(&*mem, address)) {
            Ok(v) => v,
            Err(e) => return Err(e),
        };
        let at = match pointer_target(raw) {
            Ok(at) => at,
            Err(e) => return Err(e),
        };
        proof {
            lemma_target_bounded(mem.memory(), address as int);
        }
        self.0.load(mem, at)
    }
}

impl<T: SaveStateable> SaveStateable for Pointer<T> {
    open spec fn wf(&self) -> bool {
        self.inner().wf()
    }

    open spec fn zeroed(&self) -> bool {
        self.inner().zeroed()
    }

    open spec fn capturable(m: Map<int, u8>, a: int) -> bool {
        live_pointer(m, a) && T::capturable(m, target(m, a))
    }

    open spec fn mirrors(&self, m: Map<int, u8>, a: int) -> bool {
        live_pointer(m, a) && self.inner().mirrors(m, target(m, a))
    }

    open spec fn restorable(&self, m: Map<int, u8>, a: int) -> bool {
        live_pointer(m, a) && self.inner().restorable(m, target(m, a))
    }

    open spec fn restored(&self, m: Map<int, u8>, a: int) -> Map<int, u8> {
        self.inner().restored(m, target(m, a))
    }

    open spec fn capture_left(&self, before: &Self, m: Map<int, u8>, a: int, e: SnapshotError, reliable: bool) -> bool {
        ||| *self == *before && e == SnapshotError::Access && (!reliable || !mapped(m, a, 4))
        ||| *self == *before && e == SnapshotError::NullPointer && mapped(m, a, 4) && target(m, a) == 0
        ||| live_pointer(m, a) && self.inner().capture_left(&before.inner(), m, target(m, a), e, reliable)
    }

    open spec fn restore_left(&self, before: Map<int, u8>, after: Map<int, u8>, a: int, e: SnapshotError, reliable: bool) -> bool {
        ||| after == before && e == SnapshotError::Access && (!reliable || !mapped(before, a, 4))
        ||| after == before && e == SnapshotError::NullPointer && mapped(before, a, 4) && target(before, a) == 0
        ||| live_pointer(before, a) && self.inner().restore_left(before, after, target(before, a), e, reliable)
    }

    proof fn lemma_round_trip(&self, m: Map<int, u8>, a: int) {
        lemma_target_bounded(m, a);
        self.inner().lemma_round_trip(m, target(m, a));
    }

    fn save<M: MemoryAccessor>(&mut self, mem: &M, address: u64) -> (r: Result<(), SnapshotError>) {
        self.capture(mem, address)
    }

    fn load<M: MemoryAccessor>(&self, mem: &mut M, address: u64) -> (r: Result<(), SnapshotError>) {
        self.restore(mem, address)
    }
}

/// A pointer value read from memory is a 32-bit address.
pub proof fn lemma_target_bounded(m: Map<int, u8>, a: int)
    ensures
        0 <= target(m, a) <= ADDRESS_LIMIT,
{
    let s = memory::region(m, a, 4);
    let (b0, b1, b2, b3) = (s[0] as int, s[1] as int, s[2] as int, s[3] as int);
    assert(0 <= b0 + 256 * b1 + 65536 * b2 + 16777216 * b3 <= 0xffff_ffff) by (nonlinear_arith)
        requires
            0 <= b0 <= 255,
            0 <= b1 <= 255,
            0 <= b2 <= 255,
            0 <= b3 <= 255,
    ;
}

/// A single byte of foreign memory.
impl SaveStateable for u8 {
    open spec fn wf(&self) -> bool {
        true
    }

    open spec fn zeroed(&self) -> bool {
        *self == 0
    }

    open spec fn capturable(m: Map<int, u8>, a: int) -> bool {
        mapped(m, a, 1)
    }

    open spec fn mirrors(&self, m: Map<int, u8>, a: int) -> bool {
        mapped(m, a, 1) && *self == m[a]
    }

    open spec fn restorable(&self, m: Map<int, u8>, a: int) -> bool {
        mapped(m, a, 1)
    }

    open spec fn restored(&self, m: Map<int, u8>, a: int) -> Map<int, u8> {
        overwrite(m, a, seq![*self])
    }

    open spec fn capture_left(&self, before: &Self, m: Map<int, u8>, a: int, e: SnapshotError, reliable: bool) -> bool {
        *self == *before && e == SnapshotError::Access && (!reliable || !mapped(m, a, 1))
    }

    open spec fn restore_left(&self, before: Map<int, u8>, after: Map<int, u8>, a: int, e: SnapshotError, reliable: bool) -> bool {
        e == SnapshotError::Access && (!reliable || (after == before && !mapped(before, a, 1)))
    }

    proof fn lemma_round_trip(&self, m: Map<int, u8>, a: int) {
        assert(overwrite(m, a, seq![*self]) =~= m);
    }

    fn save<M: MemoryAccessor>(&mut self, mem: &M, address: u64) -> (r: Result<(), SnapshotError>) {
        match from_access(read_u8(mem, address)) {
            Ok(v) => {
                *self = v;
                Ok(())
            },
            Err(e) => Err(e),
        }
    }

    fn load<M: MemoryAccessor>(&self, mem: &mut M, address: u64) -> (r: Result<(), SnapshotError>) {
        let buf: Vec<u8> = vec![*self];
        proof {
            assert(buf@ =~= seq![*self]);
        }
        from_access(mem.write_bytes(address, buf.as_slice()))
    }
}

/// A group of records anchored at fixed addresses, captured and restored together.
///
/// The spec functions mean what those of `SaveStateable` mean, over the unit's own anchors.
pub trait SaveStateUnit: Sized {
    spec fn wf(&self) -> bool;

    /// The held snapshot is the start-up one: every captured byte zero.
    spec fn zeroed(&self) -> bool;

    spec fn capturable(m: Map<int, u8>) -> bool;

    spec fn mirrors(&self, m: Map<int, u8>) -> bool;

    spec fn restorable(&self, m: Map<int, u8>) -> bool;

    spec fn restored(&self, m: Map<int, u8>) -> Map<int, u8>;

    /// What a capture from `m` that failed with `e` leaves held, from `before`: the steps
    /// before the failing one keep what they captured, the later ones are not taken. With
    /// `reliable`, the failing step and its error are the first that memory forces.
    spec fn capture_left(&self, before: &Self, m: Map<int, u8>, e: SnapshotError, reliable: bool) -> bool;

    /// What a restore that failed with `e` leaves in memory, from `before`: the writes of the
    /// steps before the failing one stay, the later ones are not made. With `reliable`, the
    /// failing step and its error are the first that memory forces, and `after` is exactly
    /// what the earlier steps left.
    spec fn restore_left(&self, before: Map<int, u8>, after: Map<int, u8>, e: SnapshotError, reliable: bool) -> bool;

    /// Restoring a unit that mirrors memory succeeds and changes nothing.
    proof fn lemma_round_trip(&self, m: Map<int, u8>)
        requires
            self.wf(),
            self.mirrors(m),
        ensures
            Self::capturable(m),
            self.restorable(m),
            self.restored(m) == m,
    ;

    fn save<M: MemoryAccessor>(&mut self, mem: &M) -> (r: Result<(), SnapshotError>)
        requires
            old(self).wf(),
        ensures
            final(self).wf(),
            r is Ok ==> Self::capturable(mem.memory()) && final(self).mirrors(mem.memory()),
            r matches Err(e) ==> capture_error(e) && (e != SnapshotError::Access ==> !Self::capturable(
                mem.memory(),
            )),
            r matches Err(e) ==> final(self).capture_left(old(self), mem.memory(), e, mem.reliable()),
            mem.reliable() ==> (r is Ok <==> Self::capturable(mem.memory())),
    ;

    fn load<M: MemoryAccessor>(&self, mem: &mut M) -> (r: Result<(), SnapshotError>)
        requires
            self.wf(),
        ensures
            r is Ok ==> self.restorable(old(mem).memory()) && final(mem).memory() == self.restored(
                old(mem).memory(),
            ),
            r matches Err(e) ==> restore_error(e) && (e != SnapshotError::Access ==> !self.restorable(
                old(mem).memory(),
            )),
            r matches Err(e) ==> self.restore_left(old(mem).memory(), final(mem).memory(), e, old(mem).reliable()),
            final(mem).reliable() == old(mem).reliable(),
            old(mem).reliable() ==> final(mem).reliable() && (r is Ok <==> self.restorable(old(mem).memory())),
    ;
}

} // verus!
