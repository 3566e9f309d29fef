use crate::error::ShellcodeRunnerError;
use crate::shellcode::{copy_bytes, Requested, Shellcode};
use vstd::prelude::*;

verus! {

/// A payload to run, the offset execution starts at, and the size of the
/// region to load it into (its own length when `None`), all checked.
#[derive(Clone, Debug)]
pub struct Runner {
    bytes: Vec<u8>,
    start_offset: usize,
    memory_size: Option<usize>,
}

/// Why `bytes`, `start_offset` and `memory_size` cannot be run, if they
/// cannot: the offset is checked first, then the capacity.
pub open spec fn runner_error(bytes: Seq<u8>, start_offset: usize, memory_size: Option<usize>) -> Option<
    ShellcodeRunnerError,
> {
    if start_offset >= bytes.len() {
        Some(ShellcodeRunnerError::InvalidOffset { offset: start_offset, len: bytes.len() as usize })
    } else if memory_size matches Some(size) && size < bytes.len() {
        Some(
            ShellcodeRunnerError::InsufficientCapacity {
                got: memory_size->0,
                required: bytes.len() as usize,
            },
        )
    } else {
        None
    }
}

impl Runner {
    pub closed spec fn payload(&self) -> Seq<u8> {
        self.bytes@
    }

    pub closed spec fn offset(&self) -> usize {
        self.start_offset
    }

    pub closed spec fn region_size(&self) -> Option<usize> {
        self.memory_size
    }

    /// The capacity a load asks for.
    pub open spec fn capacity(&self) -> nat {
        match self.region_size() {
            Some(n) => n as nat,
            None => self.payload().len(),
        }
    }

    /// The offset lies inside the payload and the capacity holds it.
    pub open spec fn wf(&self) -> bool {
        runner_error(self.payload(), self.offset(), self.region_size()) is None
    }

    /// Checks and keeps `bytes`, `start_offset` and `memory_size`. Fails
    /// with `InvalidOffset` when the offset is not inside the payload, and
    /// otherwise with `InsufficientCapacity` when a size is given that
    /// cannot hold it.
    pub fn new(bytes: Vec<u8>, start_offset: usize, memory_size: Option<usize>) -> (r: Result<
        Self,
        ShellcodeRunnerError,
    >)
        ensures
            r is Ok <==> runner_error(bytes@, start_offset, memory_size) is None,
            r matches Err(e) ==> runner_error(bytes@, start_offset, memory_size) == Some(e),
            r matches Ok(run) ==> run.wf() && run.payload() == bytes@ && run.offset()
                == start_offset && run.region_size() == memory_size,
    {
        let len = bytes.len();
        if start_offset >= len {
            return Err(ShellcodeRunnerError::InvalidOffset { offset: start_offset, len });
        }
        if let Some(size) = memory_size {
            if size < len {
                return Err(ShellcodeRunnerError::InsufficientCapacity { got: size, required: len });
            }
        }
        Ok(Runner { bytes, start_offset, memory_size })
    }

    /// As `new`, on a copy of `bytes`.
    pub fn from_bytes(bytes: &[u8], start_offset: usize, memory_size: Option<usize>) -> (r: Result<
        Self,
        ShellcodeRunnerError,
    >)
        ensures
            r is Ok <==> runner_error(bytes@, start_offset, memory_size) is None,
            r matches Err(e) ==> runner_error(bytes@, start_offset, memory_size) == Some(e),
            r matches Ok(run) ==> run.wf() && run.payload() == bytes@ && run.offset()
                == start_offset && run.region_size() == memory_size,
    {
        Self::new(copy_bytes(bytes), start_offset, memory_size)
    }

    pub fn bytes(&self) -> (r: &[u8])
        ensures
            r@ == self.payload(),
    {
        self.bytes.as_slice()
    }

    pub fn start_offset(&self) -> (r: usize)
        ensures
            r == self.offset(),
    {
        self.start_offset
    }

    pub fn memory_size(&self) -> (r: Option<usize>)
        ensures
            r == self.region_size(),
    {
        self.memory_size
    }

    /// Takes the payload through its checks up to the point where a region
    /// of the right capacity is needed. A checked runner always gets there.
    pub fn load_shellcode(&self) -> (r: Result<Shellcode<Requested>, ShellcodeRunnerError>)
        requires
            self.wf(),
        ensures
            r matches Ok(s) && s.wf() && s.fits() && s.payload() == self.payload() && s.offset()
                == self.offset() && s.requested() == self.capacity(),
    {
        let sc = Shellcode::new(self.bytes.as_slice(), self.start_offset)?;
        match self.memory_size {
            Some(n) => sc.load_with_capacity(n),
            None => sc.load(),
        }
    }
}

/// The upper-case hexadecimal digit for `n`, below sixteen (`'0'` is
/// code 48, `'A'` code 65).
pub open spec fn hex_digit(n: u8) -> char {
    if n < 10 {
        (48 + n) as u8 as char
    } else {
        (55 + n) as u8 as char
    }
}

/// The two upper-case hexadecimal digits of `b`.
pub open spec fn hex_byte(b: u8) -> Seq<char> {
    seq![hex_digit(b / 16), hex_digit(b % 16)]
}

/// The bytes of `bs` as two-digit hexadecimal numbers, one space apart.
pub open spec fn hex_preview(bs: Seq<u8>) -> Seq<char>
    decreases bs.len(),
{
    if bs.len() == 0 {
        Seq::empty()
    } else if bs.len() == 1 {
        hex_byte(bs[0])
    } else {
        hex_preview(bs.drop_last()) + seq![' '] + hex_byte(bs.last())
    }
}

fn hex_digit_char(n: u8) -> (c: char)
    requires
        n < 16,
    ensures
        c == hex_digit(n),
{
    if n < 10 {
        (48 + n) as char
    } else {
        (55 + n) as char
    }
}

/// Relies on `String::push`: appends `c`.
#[verifier::external_body]
fn push_char(s: &mut String, c: char)
    ensures
        final(s)@ == old(s)@.push(c),
{
    s.push(c)
}

/// The first `max` bytes of `bytes` (all of them if fewer) as upper-case
/// two-digit hexadecimal numbers, one space apart.
pub fn preview_hex_bytes(bytes: &[u8], max: usize) -> (r: String)
    ensures
        r@ == hex_preview(bytes@.take(if max < bytes@.len() { max as int } else { bytes@.len() as int })),
{
    let n = if max < bytes.len() {
        max
    } else {
        bytes.len()
    };
    let mut s = String::new();
    let mut i: usize = 0;
    while i < n
        invariant
            n <= bytes@.len(),
            i <= n,
            s@ == hex_preview(bytes@.take(i as int)),
        decreases n - i,
    {
        let b = bytes[i];
        if i > 0 {
            push_char(&mut s, ' ');
        }
        push_char(&mut s, hex_digit_char(b / 16));
        push_char(&mut s, hex_digit_char(b % 16));
        proof {
            let t = bytes@.take(i + 1);
            assert(t.drop_last() =~= bytes@.take(i as int));
            assert(t.last() == b);
            if i == 0 {
                assert(s@ =~= hex_byte(b));
            } else {
                assert(s@ =~= hex_preview(bytes@.take(i as int)) + seq![' '] + hex_byte(b));
            }
        }
        i = i + 1;
    }
    s
}

} // verus!
