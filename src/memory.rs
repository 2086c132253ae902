use vstd::prelude::*;

verus! {

/// Highest address a record may be anchored at: the target process is 32-bit, so every
/// address it hands out, and every field offset added to one, stays far below `u64::MAX`.
pub const ADDRESS_LIMIT: u64 = 0xffff_ffff;

/// A read or write of foreign memory that could not be carried out in full.
#[derive(Clone, Copy, Debug, PartialEq, Eq, Structural)]
pub struct AccessError;

/// Every address of `[a, a + n)` is backed by memory in `m`.
pub open spec fn mapped(m: Map<int, u8>, a: int, n: int) -> bool {
    forall|k: int| a <= k < a + n ==> #[trigger] m.dom().contains(k)
}

/// The `n` bytes of `m` starting at `a`.
pub open spec fn region(m: Map<int, u8>, a: int, n: int) -> Seq<u8> {
    Seq::new(n as nat, |i: int| m[a + i])
}

/// `m` with the bytes `s` stored from `a` on; the set of backed addresses does not change.
pub open spec fn overwrite(m: Map<int, u8>, a: int, s: Seq<u8>) -> Map<int, u8> {
    Map::new(|k: int| m.dom().contains(k), |k: int| if a <= k < a + s.len() { s[k - a] } else { m[k] })
}

/// The unsigned value of four bytes in little-endian order.
pub open spec fn le_u32(s: Seq<u8>) -> int {
    s[0] + 256 * s[1] + 65536 * s[2] + 16777216 * s[3]
}

/// The 32-bit value stored in `m` at `a`.
pub open spec fn u32_at(m: Map<int, u8>, a: int) -> int {
    le_u32(region(m, a, 4))
}

/// Synchronous access to the memory of the target process.
///
/// `memory` is the content of the target's address space: a read that succeeds hands back
/// exactly the bytes there, a write that succeeds stores exactly the bytes given. Either may
/// fail; a transfer that moves fewer bytes than asked for counts as a failure.
///
/// The library's functions are proved for every accessor that meets these contracts. An
/// implementation that gives no `memory` of its own (one written outside the verified code,
/// such as a handle on a live process) is described by the empty map, and nothing holds its
/// transfers to the contracts.
///
/// A `reliable` accessor fails exactly on the transfers that touch unbacked addresses, and a
/// write of it that fails changes nothing. Only the library's own accessors claim it.
pub trait MemoryAccessor {
    open spec fn memory(&self) -> Map<int, u8> {
        Map::empty()
    }

    open spec fn reliable(&self) -> bool {
        false
    }

    fn read_bytes(&self, address: u64, len: usize) -> (r: Result<Vec<u8>, AccessError>)
        ensures
            r matches Ok(v) ==> mapped(self.memory(), address as int, len as int) && v@ == region(
                self.memory(),
                address as int,
                len as int,
            ),
            self.reliable() && mapped(self.memory(), address as int, len as int) ==> r is Ok,
    ;

    fn write_bytes(&mut self, address: u64, bytes: &[u8]) -> (r: Result<(), AccessError>)
        ensures
            r is Ok ==> mapped(old(self).memory(), address as int, bytes@.len() as int)
                && final(self).memory() == overwrite(old(self).memory(), address as int, bytes@),
            final(self).reliable() == old(self).reliable(),
            old(self).reliable() ==> final(self).reliable() && (mapped(
                old(self).memory(),
                address as int,
                bytes@.len() as int,
            ) ==> r is Ok) && (r is Err ==> final(self).memory() == old(self).memory()),
    ;
}

/// Reads one byte at `address`.
pub fn read_u8<M: MemoryAccessor>(mem: &M, address: u64) -> (r: Result<u8, AccessError>)
    ensures
        r matches Ok(v) ==> mapped(mem.memory(), address as int, 1) && v == mem.memory()[address as int],
        mem.reliable() && mapped(mem.memory(), address as int, 1) ==> r is Ok,
{
    let bytes = mem.read_bytes(address, 1)?;
    proof {
        assert(bytes@[0] == region(mem.memory(), address as int, 1)[0]);
    }
    Ok(bytes[0])
}

/// Reads a little-endian 32-bit value at `address`.
pub fn read_u32<M: MemoryAccessor>(mem: &M, address: u64) -> (r: Result<u32, AccessError>)
    ensures
        r matches Ok(v) ==> mapped(mem.memory(), address as int, 4) && v as int == u32_at(mem.memory(), address as int),
        mem.reliable() && mapped(mem.memory(), address as int, 4) ==> r is Ok,
{
    let bytes = mem.read_bytes(address, 4)?;
    let b0 = bytes[0] as u32;
    let b1 = bytes[1] as u32;
    let b2 = bytes[2] as u32;
    let b3 = bytes[3] as u32;
    proof {
        assert(b0 + 256 * b1 + 65536 * b2 + 16777216 * b3 <= u32::MAX) by (nonlinear_arith)
            requires
                b0 <= 255,
                b1 <= 255,
                b2 <= 255,
                b3 <= 255,
        ;
        assert(bytes@ == region(mem.memory(), address as int, 4));
    }
    Ok(b0 + 256 * b1 + 65536 * b2 + 16777216 * b3)
}

/// The signed value of a 32-bit pattern read as two's complement.
pub open spec fn signed_of(u: int) -> int {
    if u < 0x8000_0000 {
        u
    } else {
        u - 0x1_0000_0000
    }
}

/// The four little-endian bytes of `v`.
pub open spec fn le_bytes(v: u32) -> Seq<u8> {
    seq![(v % 256) as u8, (v / 256 % 256) as u8, (v / 65536 % 256) as u8, (v / 16777216) as u8]
}

/// Reads a little-endian 32-bit two's complement value at `address`.
pub fn read_i32<M: MemoryAccessor>(mem: &M, address: u64) -> (r: Result<i32, AccessError>)
    ensures
        r matches Ok(v) ==> mapped(mem.memory(), address as int, 4) && v as int == signed_of(
            u32_at(mem.memory(), address as int),
        ),
        mem.reliable() && mapped(mem.memory(), address as int, 4) ==> r is Ok,
{
    let u = read_u32(mem, address)?;
    if u < 0x8000_0000 {
        Ok(u as i32)
    } else {
        Ok(((u - 0x8000_0000) as i32) + i32::MIN)
    }
}

/// Writes one byte at `address`.
pub fn write_u8<M: MemoryAccessor>(mem: &mut M, address: u64, value: u8) -> (r: Result<(), AccessError>)
    ensures
        r is Ok ==> mapped(old(mem).memory(), address as int, 1) && final(mem).memory() == overwrite(
            old(mem).memory(),
            address as int,
            seq![value],
        ),
        final(mem).reliable() == old(mem).reliable(),
        old(mem).reliable() ==> final(mem).reliable() && (mapped(old(mem).memory(), address as int, 1) ==> r is Ok)
            && (r is Err ==> final(mem).memory() == old(mem).memory()),
{
    let buf: Vec<u8> = vec![value];
    proof {
        assert(buf@ =~= seq![value]);
    }
    mem.write_bytes(address, buf.as_slice())
}

/// Writes `value` at `address` as four little-endian bytes.
pub fn write_u32<M: MemoryAccessor>(mem: &mut M, address: u64, value: u32) -> (r: Result<(), AccessError>)
    ensures
        r is Ok ==> mapped(old(mem).memory(), address as int, 4) && final(mem).memory() == overwrite(
            old(mem).memory(),
            address as int,
            le_bytes(value),
        ) && u32_at(final(mem).memory(), address as int) == value,
        final(mem).reliable() == old(mem).reliable(),
        old(mem).reliable() ==> final(mem).reliable() && (mapped(old(mem).memory(), address as int, 4) ==> r is Ok)
            && (r is Err ==> final(mem).memory() == old(mem).memory()),
{
    let buf: Vec<u8> = vec![
        (value % 256) as u8,
        (value / 256 % 256) as u8,
        (value / 65536 % 256) as u8,
        (value / 16777216) as u8,
    ];
    proof {
        assert(buf@ =~= le_bytes(value));
    }
    let r = mem.write_bytes(address, buf.as_slice());
    proof {
        if r is Ok {
            assert(region(mem.memory(), address as int, 4) =~= le_bytes(value));
            lemma_le_bytes_round_trip(value);
        }
    }
    r
}

/// The bytes `write_u32` stores read back as the value written.
pub proof fn lemma_le_bytes_round_trip(v: u32)
    ensures
        le_u32(le_bytes(v)) == v,
{
    let x = v as int;
    let s = le_bytes(v);
    assert(s[0] + 256 * s[1] + 65536 * s[2] + 16777216 * s[3] == x) by (nonlinear_arith)
        requires
            s[0] == x % 256,
            s[1] == x / 256 % 256,
            s[2] == x / 65536 % 256,
            s[3] == x / 16777216,
            0 <= x < 0x1_0000_0000,
    ;
}

/// `n` zero bytes.
pub open spec fn zero_bytes(n: nat) -> Seq<u8> {
    Seq::new(n, |i: int| 0u8)
}

/// A buffer of `n` zero bytes.
pub fn zeros(n: usize) -> (r: Vec<u8>)
    ensures
        r@ == zero_bytes(n as nat),
{
    let r: Vec<u8> = vec![0u8; n];
    proof {
        assert(r@ =~= zero_bytes(n as nat));
    }
    r
}

/// A flat stretch of memory starting at `base`, standing in for a process's address space.
pub struct MemoryImage {
    base: u64,
    bytes: Vec<u8>,
}

impl MemoryImage {
    pub closed spec fn base_spec(&self) -> int {
        self.base as int
    }

    pub closed spec fn bytes_spec(&self) -> Seq<u8> {
        self.bytes@
    }

    /// Memory whose addresses `base ..` hold `bytes`.
    pub fn new(base: u64, bytes: Vec<u8>) -> (r: MemoryImage)
        ensures
            r.base_spec() == base as int,
            r.bytes_spec() == bytes@,
    {
        MemoryImage { base, bytes }
    }

    /// The lowest address of the image.
    pub fn base(&self) -> (r: u64)
        ensures
            r as int == self.base_spec(),
    {
        self.base
    }

    /// The content of the image, from its lowest address on.
    pub fn bytes(&self) -> (r: &Vec<u8>)
        ensures
            r@ == self.bytes_spec(),
    {
        &self.bytes
    }

    /// Where `[address, address + len)` starts inside the image, if it lies wholly inside.
    fn offset_of(&self, address: u64, len: usize) -> (r: Option<usize>)
        ensures
            r matches Some(o) ==> o + len <= self.bytes@.len() && (len > 0 ==> o as int == address
                - self.base),
            mapped(self.memory(), address as int, len as int) ==> r is Some,
    {
        if len == 0 {
            return Some(0);
        }
        proof {
            assert(mapped(self.memory(), address as int, len as int) ==> self.memory().dom().contains(
                address as int,
            ) && self.memory().dom().contains(address + len - 1));
        }
        if address < self.base {
            return None;
        }
        let off = address - self.base;
        let n = self.bytes.len();
        if off > n as u64 || len as u64 > n as u64 - off {
            None
        } else {
            Some(off as usize)
        }
    }
}

impl MemoryAccessor for MemoryImage {
    open spec fn reliable(&self) -> bool {
        true
    }

    open spec fn memory(&self) -> Map<int, u8> {
        Map::new(
            |k: int| self.base_spec() <= k < self.base_spec() + self.bytes_spec().len(),
            |k: int| self.bytes_spec()[k - self.base_spec()],
        )
    }

    fn read_bytes(&self, address: u64, len: usize) -> (r: Result<Vec<u8>, AccessError>) {
        let off = match self.offset_of(address, len) {
            Some(o) => o,
            None => return Err(AccessError),
        };
        let mut out: Vec<u8> = Vec::with_capacity(len);
        let n = self.bytes.len();
        let mut i: usize = 0;
        while i < len
            invariant
                n == self.bytes@.len(),
                off + len <= self.bytes@.len(),
                i <= len,
                out@ == self.bytes@.subrange(off as int, off + i),
            decreases len - i,
        {
            out.push(self.bytes[off + i]);
            i += 1;
            proof {
                assert(out@ =~= self.bytes@.subrange(off as int, off + i));
            }
        }
        proof {
            assert(out@ =~= region(self.memory(), address as int, len as int));
        }
        Ok(out)
    }

    fn write_bytes(&mut self, address: u64, bytes: &[u8]) -> (r: Result<(), AccessError>) {
        let len = bytes.len();
        let off = match self.offset_of(address, len) {
            Some(o) => o,
            None => return Err(AccessError),
        };
        let ghost before = self.bytes@;
        let n = self.bytes.len();
        let mut i: usize = 0;
        while i < len
            invariant
                n == before.len(),
                len == bytes@.len(),
                off + len <= before.len(),
                i <= len,
                self.base == old(self).base,
                before == old(self).bytes@,
                self.bytes@.len() == before.len(),
                forall|j: int|
                    0 <= j < before.len() ==> #[trigger] self.bytes@[j] == if off <= j < off + i {
                        bytes@[j - off]
                    } else {
                        before[j]
                    },
            decreases len - i,
        {
            self.bytes.set(off + i, bytes[i]);
            i += 1;
        }
        proof {
            assert(self.memory() =~= overwrite(old(self).memory(), address as int, bytes@));
        }
        Ok(())
    }
}

} // verus!
