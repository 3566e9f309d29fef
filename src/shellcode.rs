use crate::error::ShellcodeRunnerError;
use crate::virtual_memory::{RegionModel, VirtualMemory};
use vstd::prelude::*;

verus! {

/// A copy of `src` in a vector of its own.
pub(crate) fn copy_bytes(src: &[u8]) -> (r: Vec<u8>)
    ensures
        r@ == src@,
{
    let mut r: Vec<u8> = Vec::with_capacity(src.len());
    let mut i: usize = 0;
    while i < src.len()
        invariant
            i <= src@.len(),
            r@ == src@.subrange(0, i as int),
        decreases src@.len() - i,
    {
        r.push(src[i]);
        i = i + 1;
        proof {
            assert(r@ =~= src@.subrange(0, i as int));
        }
    }
    proof {
        assert(r@ =~= src@);
    }
    r
}

/// The bytes a loaded region holds: the payload, then zeros up to `size`.
pub open spec fn padded(payload: Seq<u8>, size: nat) -> Seq<u8> {
    payload + Seq::new((size - payload.len()) as nat, |i: int| 0u8)
}

/// State of a payload that has no region yet.
pub struct Unloaded;

/// State of a payload whose capacity was accepted and which waits for a
/// region of that many bytes.
pub struct Requested {
    capacity: usize,
}

/// State of a payload that sits in its region.
pub struct Loaded {
    vm: VirtualMemory,
    capacity: usize,
}

/// A payload and the offset at which execution starts, tagged with how far
/// loading has come.
pub struct Shellcode<S> {
    bytes: Vec<u8>,
    start_offset: usize,
    state: S,
}

impl<S> Shellcode<S> {
    /// The payload bytes.
    pub closed spec fn payload(&self) -> Seq<u8> {
        self.bytes@
    }

    /// The offset of the first instruction in the payload.
    pub closed spec fn offset(&self) -> nat {
        self.start_offset as nat
    }

    /// Execution starts inside the payload.
    pub open spec fn wf(&self) -> bool {
        self.offset() < self.payload().len()
    }

    pub fn bytes(&self) -> (r: &[u8])
        ensures
            r@ == self.payload(),
    {
        self.bytes.as_slice()
    }

    pub fn start_offset(&self) -> (r: usize)
        ensures
            r == self.offset(),
    {
        self.start_offset
    }
}

impl Shellcode<Unloaded> {
    /// Takes a copy of `code`, to run from `start_offset` on. Fails with
    /// `InvalidOffset` when the offset is not inside the payload.
    pub fn new(code: &[u8], start_offset: usize) -> (r: Result<Self, ShellcodeRunnerError>)
        ensures
            r is Ok <==> start_offset < code@.len(),
            r matches Ok(s) ==> s.wf() && s.payload() == code@ && s.offset() == start_offset,
            r matches Err(e) ==> e matches ShellcodeRunnerError::InvalidOffset { offset, len }
                && offset == start_offset && len == code@.len(),
    {
        let shellcode_len = code.len();
        if shellcode_len <= start_offset {
            return Err(ShellcodeRunnerError::InvalidOffset { offset: start_offset, len: shellcode_len });
        }
        Ok(Shellcode { bytes: copy_bytes(code), start_offset, state: Unloaded })
    }

    /// Loads into a region of exactly the payload's length.
    pub fn load(self) -> (r: Result<Shellcode<Requested>, ShellcodeRunnerError>)
        requires
            self.wf(),
        ensures
            r matches Ok(s) && s.wf() && s.fits() && s.payload() == self.payload() && s.offset()
                == self.offset() && s.requested() == self.payload().len(),
    {
        let shellcode_size = self.bytes.len();
        self.load_with_capacity(shellcode_size)
    }

    /// Accepts a load into a region of at least `capacity` bytes. Fails with
    /// `InsufficientCapacity` exactly when the payload does not fit; then no
    /// region is asked for, as only a `Shellcode<Requested>` names the size
    /// to allocate.
    pub fn load_with_capacity(self, capacity: usize) -> (r: Result<
        Shellcode<Requested>,
        ShellcodeRunnerError,
    >)
        requires
            self.wf(),
        ensures
            r is Ok <==> self.payload().len() <= capacity,
            r matches Ok(s) ==> s.wf() && s.fits() && s.payload() == self.payload() && s.offset()
                == self.offset() && s.requested() == capacity,
            r matches Err(e) ==> e matches ShellcodeRunnerError::InsufficientCapacity {
                got,
                required,
            } && got == capacity && required == self.payload().len(),
    {
        let n = self.bytes.len();
        if capacity < n {
            return Err(ShellcodeRunnerError::InsufficientCapacity { got: capacity, required: n });
        }
        Ok(Shellcode {
            bytes: self.bytes,
            start_offset: self.start_offset,
            state: Requested { capacity },
        })
    }
}

impl Shellcode<Requested> {
    /// The number of bytes the region must hold.
    pub closed spec fn requested(&self) -> nat {
        self.state.capacity as nat
    }

    /// The payload fits in the capacity asked for.
    pub open spec fn fits(&self) -> bool {
        self.payload().len() <= self.requested()
    }

    pub fn capacity(&self) -> (r: usize)
        ensures
            r == self.requested(),
    {
        self.state.capacity
    }

    /// Puts the payload into the region `vm` handed out for this load: the
    /// payload at the start, zeros after it. Fails with `BufferTooSmall`
    /// when the region is smaller than the capacity asked for.
    pub fn place(self, vm: VirtualMemory) -> (r: Result<Shellcode<Loaded>, ShellcodeRunnerError>)
        requires
            self.wf(),
            self.fits(),
            vm@.wf(),
        ensures
            r is Ok <==> self.requested() <= vm@.size,
            r matches Ok(s) ==> s.wf() && s.placed() && s.payload() == self.payload() && s.offset()
                == self.offset() && s.requested() == self.requested() && s.region().base
                == vm@.base && s.region().size == vm@.size && s.region().page_size
                == vm@.page_size,
            r matches Err(e) ==> e matches ShellcodeRunnerError::BufferTooSmall { needed, got }
                && needed == self.requested() && got == vm@.size,
    {
        let mut vm = vm;
        let n = self.bytes.len();
        let capacity = self.state.capacity;
        let vm_size = vm.size();
        if vm_size < capacity {
            return Err(ShellcodeRunnerError::BufferTooSmall { needed: capacity, got: vm_size });
        }
        vm.write_prefix(self.bytes.as_slice());
        vm.fill_from(n, 0);
        proof {
            assert(vm@.bytes =~= padded(self.bytes@, vm@.size));
        }
        Ok(Shellcode {
            bytes: self.bytes,
            start_offset: self.start_offset,
            state: Loaded { vm, capacity },
        })
    }
}

impl Shellcode<Loaded> {
    /// The region the payload sits in.
    pub closed spec fn region(&self) -> RegionModel {
        self.state.vm@
    }

    /// The capacity the load asked for.
    pub closed spec fn requested(&self) -> nat {
        self.state.capacity as nat
    }

    /// The region is sound, at least as large as the capacity asked for,
    /// which holds the payload, and holds the payload padded with zeros.
    pub open spec fn placed(&self) -> bool {
        &&& self.region().wf()
        &&& self.payload().len() <= self.requested() <= self.region().size
        &&& self.region().bytes == padded(self.payload(), self.region().size)
    }

    /// The address execution starts at: the region's base plus the offset.
    pub fn start_ptr(&self) -> (r: usize)
        requires
            self.wf(),
            self.placed(),
        ensures
            r == self.region().base + self.offset(),
    {
        self.state.vm.as_ptr() + self.start_offset
    }

    pub fn vm(&self) -> (r: &VirtualMemory)
        ensures
            r@ == self.region(),
    {
        &self.state.vm
    }
}

/// A loaded region is at least as large as the capacity asked for, spans
/// whole pages, starts with the payload byte for byte, and is zero after it.
pub proof fn lemma_loaded_region(s: &Shellcode<Loaded>)
    requires
        s.placed(),
    ensures
        s.region().size >= s.requested(),
        s.region().size % s.region().page_size == 0,
        forall|i: int| 0 <= i < s.payload().len() ==> s.region().bytes[i] == s.payload()[i],
        forall|i: int|
            s.payload().len() <= i < s.region().size ==> s.region().bytes[i] == 0u8,
{
    assert forall|i: int| s.payload().len() <= i < s.region().size implies s.region().bytes[i]
        == 0u8 by {
        assert(s.region().bytes[i] == padded(s.payload(), s.region().size)[i]);
    }
}

/// The entry address lies inside the region: at or after its base and
/// before its end.
pub proof fn lemma_entry_in_region(s: &Shellcode<Loaded>)
    requires
        s.wf(),
        s.placed(),
    ensures
        s.region().base <= s.region().base + s.offset() < s.region().base + s.region().size,
{
}

} // verus!
