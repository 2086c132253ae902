use vstd::prelude::*;

verus! {

/// The identifier of a process of the host system.
#[derive(Clone, Copy, Debug, PartialEq, Eq, Structural)]
pub struct ProcessId(u32);

impl ProcessId {
    pub closed spec fn id(&self) -> u32 {
        self.0
    }

    pub fn new(id: u32) -> (r: ProcessId)
        ensures
            r.id() == id,
    {
        ProcessId(id)
    }

    pub fn value(&self) -> (r: u32)
        ensures
            r == self.id(),
    {
        self.0
    }
}

/// The processes that an enumeration of the host system reported, handed out one by one.
#[derive(Debug)]
pub struct ProcessIterator {
    ids: Vec<u32>,
    next: usize,
}

/// How many process ids fit in `returned_bytes` bytes, at most `capacity`.
pub open spec fn reported_count(capacity: nat, returned_bytes: u32) -> nat {
    let n = (returned_bytes / 4) as nat;
    if n < capacity {
        n
    } else {
        capacity
    }
}

impl ProcessIterator {
    pub closed spec fn wf(&self) -> bool {
        self.next <= self.ids@.len()
    }

    /// The ids not handed out yet.
    pub closed spec fn remaining(&self) -> Seq<u32> {
        self.ids@.skip(self.next as int)
    }

    /// The ids in `buffer` that an enumeration filled, when it reported `returned_bytes` bytes
    /// of 4-byte ids; ids past the end of `buffer` cannot have been written and are not
    /// counted.
    pub fn new(buffer: Vec<u32>, returned_bytes: u32) -> (r: ProcessIterator)
        ensures
            r.wf(),
            r.remaining() == buffer@.take(reported_count(buffer@.len(), returned_bytes) as int),
    {
        let mut ids = buffer;
        let n = (returned_bytes / 4) as usize;
        if n < ids.len() {
            ids.truncate(n);
        }
        let r = ProcessIterator { ids, next: 0 };
        proof {
            assert(r.remaining() =~= buffer@.take(reported_count(buffer@.len(), returned_bytes) as int));
        }
        r
    }

    /// Hands out the next id, if any is left.
    pub fn next(&mut self) -> (r: Option<ProcessId>)
        requires
            old(self).wf(),
        ensures
            final(self).wf(),
            old(self).remaining().len() == 0 ==> r is None && final(self).remaining() == old(self).remaining(),
            old(self).remaining().len() > 0 ==> (r matches Some(p) && p.id() == old(self).remaining()[0])
                && final(self).remaining() == old(self).remaining().skip(1),
    {
        if self.next < self.ids.len() {
            let id = self.ids[self.next];
            self.next = self.next + 1;
            proof {
                assert(self.remaining() =~= old(self).remaining().skip(1));
            }
            Some(ProcessId(id))
        } else {
            None
        }
    }
}

} // verus!
