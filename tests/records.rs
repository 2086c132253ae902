use onvars_tool::memory::{AccessError, read_i32, read_u32, read_u8, write_u32, write_u8, MemoryAccessor, MemoryImage};
use onvars_tool::process_reader::{ProcessId, ProcessIterator};
use onvars_tool::sa2_structures::{Camera, CharacterPhys, PastPositionTable, PhysKind};
use onvars_tool::{pointer_target, Pointer, SaveStateable, SnapshotError};

const BASE: u64 = 0x1000;

fn patterned(len: usize) -> Vec<u8> {
    (0..len).map(|i| (i % 251) as u8 + 3).collect()
}

fn image_with_discriminant(d: u8) -> MemoryImage {
    let mut bytes = patterned(0x1000);
    bytes[1] = d;
    MemoryImage::new(BASE, bytes)
}

#[test]
fn physics_round_trip_for_every_known_character() {
    for (d, kind, size) in [
        (0u8, PhysKind::Speed, 0x3a0usize),
        (1, PhysKind::Speed, 0x3a0),
        (4, PhysKind::Hunt, 0x420),
        (5, PhysKind::Hunt, 0x420),
        (6, PhysKind::Mech, 0x454),
        (7, PhysKind::Mech, 0x454),
    ] {
        let mut mem = image_with_discriminant(d);
        let before = mem.bytes().clone();
        let mut phys = CharacterPhys::new();
        assert_eq!(phys.capture(&mem, BASE), Ok(()));
        assert_eq!(phys.layout(), kind);
        assert_eq!(phys.data().len(), size);
        assert_eq!(&phys.data()[..], &before[..size]);
        assert_eq!(phys.restore(&mut mem, BASE), Ok(()));
        assert_eq!(mem.bytes(), &before);
    }
}

#[test]
fn physics_restore_writes_captured_bytes_back() {
    let mut mem = image_with_discriminant(4);
    let before = mem.bytes().clone();
    let mut phys = CharacterPhys::new();
    assert_eq!(phys.save(&mem, BASE), Ok(()));
    assert_eq!(mem.write_bytes(BASE + 0x10, &[0xee; 0x20]), Ok(()));
    assert_eq!(mem.write_bytes(BASE + 0x41f, &[0xee]), Ok(()));
    assert_eq!(mem.write_bytes(BASE + 0x420, &[0xdd]), Ok(()));
    assert_eq!(phys.load(&mut mem, BASE), Ok(()));
    assert_eq!(&mem.bytes()[..0x420], &before[..0x420]);
    assert_eq!(mem.bytes()[0x420], 0xdd);
}

#[test]
fn physics_capture_refuses_unknown_characters() {
    for d in [2u8, 3, 8, 9, 0x80, 0xff] {
        let mem = image_with_discriminant(d);
        let mut phys = CharacterPhys::new();
        assert_eq!(phys.capture(&mem, BASE), Err(SnapshotError::UnsupportedVariant));
        assert_eq!(phys.layout(), PhysKind::Speed);
        assert_eq!(phys.data(), &vec![0u8; 0x3a0]);
    }
}

#[test]
fn physics_restore_refuses_another_character_family() {
    let mut mem = image_with_discriminant(0);
    let mut phys = CharacterPhys::new();
    assert_eq!(phys.capture(&mem, BASE), Ok(()));
    for other in [4u8, 5, 6, 7, 2, 0xff] {
        assert_eq!(mem.write_bytes(BASE + 1, &[other]), Ok(()));
        let before = mem.bytes().clone();
        assert_eq!(phys.restore(&mut mem, BASE), Err(SnapshotError::VariantMismatch));
        assert_eq!(mem.bytes(), &before);
    }
    assert_eq!(mem.write_bytes(BASE + 1, &[1]), Ok(()));
    assert_eq!(phys.restore(&mut mem, BASE), Ok(()));
}

#[test]
fn physics_capture_out_of_memory_is_an_access_error() {
    let mem = MemoryImage::new(BASE, vec![0u8; 0x100]);
    let mut phys = CharacterPhys::new();
    assert_eq!(phys.capture(&mem, BASE), Err(SnapshotError::Access));
    assert_eq!(phys.capture(&mem, 0x10), Err(SnapshotError::Access));
    assert_eq!(phys.data(), &vec![0u8; 0x3a0]);
}

#[test]
fn null_pointer_fails_capture_and_restore() {
    let mut mem = MemoryImage::new(BASE, patterned(0x100));
    assert_eq!(mem.write_bytes(BASE, &[0, 0, 0, 0]), Ok(()));
    let before = mem.bytes().clone();

    let mut table = Pointer::new(PastPositionTable::new());
    assert_eq!(table.capture(&mem, BASE), Err(SnapshotError::NullPointer));
    assert_eq!(table.restore(&mut mem, BASE), Err(SnapshotError::NullPointer));

    let mut byte = Pointer::new(0u8);
    assert_eq!(byte.save(&mem, BASE), Err(SnapshotError::NullPointer));
    assert_eq!(byte.load(&mut mem, BASE), Err(SnapshotError::NullPointer));

    let mut phys = Pointer::new(CharacterPhys::new());
    assert_eq!(phys.capture(&mem, BASE), Err(SnapshotError::NullPointer));
    assert_eq!(phys.restore(&mut mem, BASE), Err(SnapshotError::NullPointer));

    assert_eq!(mem.bytes(), &before);
}

#[test]
fn pointer_follows_the_live_address() {
    let mut mem = MemoryImage::new(BASE, vec![0u8; 0x100]);
    assert_eq!(mem.write_bytes(BASE, &[0x40, 0x10, 0, 0]), Ok(()));
    assert_eq!(mem.write_bytes(0x1040, &[0x5a]), Ok(()));
    let mut p = Pointer::new(0u8);
    assert_eq!(p.capture(&mem, BASE), Ok(()));
    assert_eq!(mem.write_bytes(0x1040, &[0x00]), Ok(()));
    assert_eq!(mem.write_bytes(BASE, &[0x50, 0x10, 0, 0]), Ok(()));
    assert_eq!(p.restore(&mut mem, BASE), Ok(()));
    assert_eq!(mem.bytes()[0x40], 0x00);
    assert_eq!(mem.bytes()[0x50], 0x5a);
}

#[test]
fn pointer_to_unmapped_record_is_an_access_error() {
    let mem = MemoryImage::new(BASE, vec![0xff; 0x10]);
    let mut p = Pointer::new(Camera::new());
    assert_eq!(p.capture(&mem, BASE), Err(SnapshotError::Access));
}

#[test]
fn pointer_target_values() {
    assert_eq!(pointer_target(0), Err(SnapshotError::NullPointer));
    assert_eq!(pointer_target(1), Ok(1));
    assert_eq!(pointer_target(0xffff_ffff), Ok(0xffff_ffff));
}

#[test]
fn discriminant_mapping() {
    assert_eq!(PhysKind::from_discriminant(0), Ok(PhysKind::Speed));
    assert_eq!(PhysKind::from_discriminant(1), Ok(PhysKind::Speed));
    assert_eq!(PhysKind::from_discriminant(4), Ok(PhysKind::Hunt));
    assert_eq!(PhysKind::from_discriminant(5), Ok(PhysKind::Hunt));
    assert_eq!(PhysKind::from_discriminant(6), Ok(PhysKind::Mech));
    assert_eq!(PhysKind::from_discriminant(7), Ok(PhysKind::Mech));
    assert_eq!(PhysKind::from_discriminant(2), Err(SnapshotError::UnsupportedVariant));
    assert_eq!(PhysKind::from_discriminant(3), Err(SnapshotError::UnsupportedVariant));
    assert_eq!(PhysKind::from_discriminant(8), Err(SnapshotError::UnsupportedVariant));
    assert_eq!(PhysKind::Speed.size(), 0x3a0);
    assert_eq!(PhysKind::Hunt.size(), 0x420);
    assert_eq!(PhysKind::Mech.size(), 0x454);
    assert!(PhysKind::Hunt.accepts(5));
    assert!(!PhysKind::Hunt.accepts(6));
    assert!(!PhysKind::Mech.accepts(3));
}

#[test]
fn little_endian_reads() {
    let mem = MemoryImage::new(BASE, vec![0x78, 0x56, 0x34, 0x12, 0xab]);
    assert_eq!(read_u32(&mem, BASE), Ok(0x1234_5678));
    assert_eq!(read_u8(&mem, BASE + 4), Ok(0xab));
    assert!(read_u32(&mem, BASE + 2).is_err());
    assert!(read_u8(&mem, BASE + 5).is_err());
    assert!(read_u8(&mem, BASE - 1).is_err());
}

#[test]
fn memory_image_transfers() {
    let mut mem = MemoryImage::new(BASE, vec![1, 2, 3, 4]);
    assert_eq!(mem.base(), BASE);
    assert_eq!(mem.read_bytes(BASE + 1, 2), Ok(vec![2, 3]));
    assert!(mem.read_bytes(BASE + 3, 2).is_err());
    assert!(mem.write_bytes(BASE + 3, &[9, 9]).is_err());
    assert_eq!(mem.bytes(), &vec![1, 2, 3, 4]);
    assert_eq!(mem.write_bytes(BASE + 2, &[9, 8]), Ok(()));
    assert_eq!(mem.bytes(), &vec![1, 2, 9, 8]);
}

#[test]
fn process_iterator_hands_out_reported_ids() {
    let mut it = ProcessIterator::new(vec![10, 20, 30, 40], 12);
    assert_eq!(it.next(), Some(ProcessId::new(10)));
    assert_eq!(it.next().map(|p| p.value()), Some(20));
    assert_eq!(it.next().map(|p| p.value()), Some(30));
    assert_eq!(it.next(), None);
    assert_eq!(it.next(), None);

    let mut all = ProcessIterator::new(vec![7, 8], 400);
    assert_eq!(all.next().map(|p| p.value()), Some(7));
    assert_eq!(all.next().map(|p| p.value()), Some(8));
    assert_eq!(all.next(), None);

    let mut none = ProcessIterator::new(vec![7, 8], 3);
    assert_eq!(none.next(), None);
}

#[test]
fn signed_and_write_accessors() {
    let mut mem = MemoryImage::new(BASE, vec![0u8; 8]);
    assert_eq!(write_u32(&mut mem, BASE, 0xfffffffe), Ok(()));
    assert_eq!(mem.bytes(), &vec![0xfe, 0xff, 0xff, 0xff, 0, 0, 0, 0]);
    assert_eq!(read_i32(&mem, BASE), Ok(-2));
    assert_eq!(read_u32(&mem, BASE), Ok(0xfffffffe));
    assert_eq!(write_u32(&mut mem, BASE + 4, 0x0102_0304), Ok(()));
    assert_eq!(&mem.bytes()[4..], &[4, 3, 2, 1]);
    assert_eq!(read_i32(&mem, BASE + 4), Ok(0x0102_0304));
    assert_eq!(write_u8(&mut mem, BASE + 7, 0x80), Ok(()));
    assert_eq!(read_i32(&mem, BASE + 4), Ok(-0x7ffd_fcfc));
    assert!(write_u32(&mut mem, BASE + 5, 1).is_err());
    assert!(write_u8(&mut mem, BASE + 8, 1).is_err());
}

/// An accessor whose every transfer fails, as with a target that has exited.
struct DeadProcess;

impl MemoryAccessor for DeadProcess {
    fn read_bytes(&self, _address: u64, _len: usize) -> Result<Vec<u8>, AccessError> {
        Err(AccessError)
    }

    fn write_bytes(&mut self, _address: u64, _bytes: &[u8]) -> Result<(), AccessError> {
        Err(AccessError)
    }
}

#[test]
fn failed_transfers_are_access_errors() {
    let mut dead = DeadProcess;
    let mut phys = CharacterPhys::new();
    assert_eq!(phys.capture(&dead, BASE), Err(SnapshotError::Access));
    assert_eq!(phys.restore(&mut dead, BASE), Err(SnapshotError::Access));
    let mut table = Pointer::new(PastPositionTable::new());
    assert_eq!(table.capture(&dead, BASE), Err(SnapshotError::Access));
    assert_eq!(table.restore(&mut dead, BASE), Err(SnapshotError::Access));
    let mut byte = 7u8;
    assert_eq!(byte.save(&dead, BASE), Err(SnapshotError::Access));
    assert_eq!(byte, 7);
    assert_eq!(byte.load(&mut dead, BASE), Err(SnapshotError::Access));
}
