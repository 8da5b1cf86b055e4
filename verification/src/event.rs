//! The event record, the lifecycle function it names, and its fixed layout
//! on the wire.
//!
//! A record is 48 bytes, every integer little-endian:
//!
//! | bytes    | field                                   |
//! |----------|-----------------------------------------|
//! | 0..8     | timestamp, nanoseconds                  |
//! | 8..12    | process id                              |
//! | 12..16   | thread id                               |
//! | 16..32   | command name, zero-padded               |
//! | 32..40   | target                                  |
//! | 40       | function tag                            |
//! | 41..48   | padding, written as zero, never read    |

use vstd::prelude::*;
use crate::wire::{from_le32, from_le64, le32, le32_roundtrip, le64, le64_roundtrip, splice};
use crate::wire::{u32_from_le, u32_to_le, u64_from_le, u64_to_le};

verus! {

/// The number of bytes of a record on the wire.
pub const RECORD_SIZE: usize = 48;

/// The number of bytes of the command-name field.
pub const COMM_LEN: usize = 16;

/// Where the timestamp starts in a record.
pub const TS_OFFSET: usize = 0;

/// Where the process id starts in a record.
pub const PID_OFFSET: usize = 8;

/// Where the thread id starts in a record.
pub const TID_OFFSET: usize = 12;

/// Where the command name starts in a record.
pub const COMM_OFFSET: usize = 16;

/// Where the target starts in a record.
pub const TARGET_OFFSET: usize = 32;

/// Where the function tag stands in a record.
pub const FUNC_OFFSET: usize = 40;

/// One of the four lifecycle entry points of the threading library.
#[derive(Clone, Copy, Debug, PartialEq, Eq, Structural)]
pub enum ThreadFunc {
    Create,
    Detach,
    Exit,
    Join,
}

impl ThreadFunc {
    /// The display name of the function, as a sequence of characters.
    pub open spec fn name_text(self) -> Seq<char> {
        match self {
            ThreadFunc::Create => seq!['c', 'r', 'e', 'a', 't', 'e'],
            ThreadFunc::Detach => seq!['d', 'e', 't', 'a', 'c', 'h'],
            ThreadFunc::Exit => seq!['e', 'x', 'i', 't'],
            ThreadFunc::Join => seq!['j', 'o', 'i', 'n'],
        }
    }

    /// The display name of the function.
    pub fn name(self) -> (text: &'static str)
        ensures
            text@ == self.name_text(),
    {
        proof {
            reveal_strlit("create");
            reveal_strlit("detach");
            reveal_strlit("exit");
            reveal_strlit("join");
        }
        match self {
            ThreadFunc::Create => "create",
            ThreadFunc::Detach => "detach",
            ThreadFunc::Exit => "exit",
            ThreadFunc::Join => "join",
        }
    }

    /// The one-byte tag that stands for the function on the wire.
    pub open spec fn tag_value(self) -> u8 {
        match self {
            ThreadFunc::Create => 0,
            ThreadFunc::Detach => 1,
            ThreadFunc::Exit => 2,
            ThreadFunc::Join => 3,
        }
    }

    /// The function that `tag` stands for, if it stands for one.
    pub open spec fn of_tag(tag: u8) -> Option<ThreadFunc> {
        if tag == 0 {
            Some(ThreadFunc::Create)
        } else if tag == 1 {
            Some(ThreadFunc::Detach)
        } else if tag == 2 {
            Some(ThreadFunc::Exit)
        } else if tag == 3 {
            Some(ThreadFunc::Join)
        } else {
            None
        }
    }

    /// The one-byte tag that stands for the function on the wire.
    pub fn tag(self) -> (tag: u8)
        ensures
            tag == self.tag_value(),
            Self::of_tag(tag) == Some(self),
    {
        match self {
            ThreadFunc::Create => 0,
            ThreadFunc::Detach => 1,
            ThreadFunc::Exit => 2,
            ThreadFunc::Join => 3,
        }
    }

    /// The function that `tag` stands for; `None` for any byte above 3.
    pub fn from_tag(tag: u8) -> (func: Option<ThreadFunc>)
        ensures
            func == Self::of_tag(tag),
            func matches Some(f) ==> f.tag_value() == tag,
            func is None <==> tag > 3,
    {
        if tag == 0 {
            Some(ThreadFunc::Create)
        } else if tag == 1 {
            Some(ThreadFunc::Detach)
        } else if tag == 2 {
            Some(ThreadFunc::Exit)
        } else if tag == 3 {
            Some(ThreadFunc::Join)
        } else {
            None
        }
    }
}

/// One lifecycle call, as a probe saw it.
#[derive(Clone, Copy, Debug, PartialEq, Eq)]
pub struct ThreadInfo {
    /// Monotonic nanoseconds at the moment of the call.
    pub ts: u64,
    /// The calling process.
    pub pid: u32,
    /// The calling thread.
    pub tid: u32,
    /// The short name of the calling process, zero-padded.
    pub comm: [u8; COMM_LEN],
    /// The thread the call is about; zero for `Exit`.
    pub target: u64,
    /// The function that was entered.
    pub func: ThreadFunc,
}

/// The mathematical content of a [`ThreadInfo`].
pub struct ThreadInfoView {
    pub ts: u64,
    pub pid: u32,
    pub tid: u32,
    pub comm: Seq<u8>,
    pub target: u64,
    pub func: ThreadFunc,
}

impl View for ThreadInfo {
    type V = ThreadInfoView;

    open spec fn view(&self) -> ThreadInfoView {
        ThreadInfoView {
            ts: self.ts,
            pid: self.pid,
            tid: self.tid,
            comm: self.comm@,
            target: self.target,
            func: self.func,
        }
    }
}

/// Once a zero byte occurs in `comm`, only zero bytes follow.
pub open spec fn zero_padded(comm: Seq<u8>) -> bool {
    forall|i: int, j: int| 0 <= i <= j < comm.len() && comm[i] == 0 ==> comm[j] == 0
}

impl ThreadInfoView {
    /// The command name has its fixed length and is zero-padded, and an
    /// `Exit` carries no target.
    pub open spec fn wf(self) -> bool {
        &&& self.comm.len() == COMM_LEN
        &&& zero_padded(self.comm)
        &&& (self.func == ThreadFunc::Exit ==> self.target == 0)
    }
}

/// Why a sequence of bytes is not a record.
#[derive(Clone, Copy, Debug, PartialEq, Eq, Structural)]
pub enum DecodeError {
    /// The bytes are not [`RECORD_SIZE`] long; holds the length found.
    WrongLength(usize),
    /// The function tag names none of the four functions; holds the tag.
    UnknownFunction(u8),
}

/// The bytes of a record: each field at its offset, the padding zero.
pub open spec fn encoded(v: ThreadInfoView) -> Seq<u8> {
    le64(v.ts) + le32(v.pid) + le32(v.tid) + v.comm + le64(v.target) + seq![v.func.tag_value()]
        + Seq::new(7, |i: int| 0u8)
}

/// The record that `bytes` hold, or why they hold none.
///
/// The length is tested first, then the tag. The padding is not looked at,
/// and neither are the target bytes of an `Exit`, whose target is zero.
pub open spec fn decoded(bytes: Seq<u8>) -> Result<ThreadInfoView, DecodeError> {
    if bytes.len() != RECORD_SIZE {
        Err(DecodeError::WrongLength(bytes.len() as usize))
    } else {
        match ThreadFunc::of_tag(bytes[FUNC_OFFSET as int]) {
            None => Err(DecodeError::UnknownFunction(bytes[FUNC_OFFSET as int])),
            Some(func) => Ok(
                ThreadInfoView {
                    ts: from_le64(bytes.subrange(TS_OFFSET as int, TS_OFFSET + 8)),
                    pid: from_le32(bytes.subrange(PID_OFFSET as int, PID_OFFSET + 4)),
                    tid: from_le32(bytes.subrange(TID_OFFSET as int, TID_OFFSET + 4)),
                    comm: bytes.subrange(COMM_OFFSET as int, COMM_OFFSET + COMM_LEN),
                    target: if func == ThreadFunc::Exit {
                        0
                    } else {
                        from_le64(bytes.subrange(TARGET_OFFSET as int, TARGET_OFFSET + 8))
                    },
                    func,
                },
            ),
        }
    }
}

/// The record that stands at `at` in `buf`, or why none stands there: with
/// fewer than [`RECORD_SIZE`] bytes from `at` on, the number that are left.
pub open spec fn decoded_at(buf: Seq<u8>, at: int) -> Result<ThreadInfoView, DecodeError> {
    if at > buf.len() {
        Err(DecodeError::WrongLength(0))
    } else if buf.len() - at < RECORD_SIZE {
        Err(DecodeError::WrongLength((buf.len() - at) as usize))
    } else {
        decoded(buf.subrange(at, at + RECORD_SIZE))
    }
}

/// The view of what a decoder returned.
pub open spec fn view_of(res: Result<ThreadInfo, DecodeError>) -> Result<
    ThreadInfoView,
    DecodeError,
> {
    match res {
        Ok(info) => Ok(info@),
        Err(e) => Err(e),
    }
}

/// Copies `part` over the bytes of `out` from `at` on.
fn write_at(out: &mut [u8; RECORD_SIZE], at: usize, part: &[u8])
    requires
        at + part@.len() <= RECORD_SIZE,
    ensures
        final(out)@ == splice(old(out)@, at as int, part@),
{
    let ghost before = out@;
    let mut i: usize = 0;
    while i < part.len()
        invariant
            i <= part@.len(),
            at + part@.len() <= RECORD_SIZE,
            out@.len() == RECORD_SIZE,
            before.len() == RECORD_SIZE,
            forall|k: int|
                0 <= k < RECORD_SIZE ==> out@[k] == (if at <= k < at + i {
                    part@[k - at]
                } else {
                    before[k]
                }),
        decreases part@.len() - i,
    {
        out[at + i] = part[i];
        i += 1;
    }
    assert(out@ =~= splice(before, at as int, part@));
}

impl ThreadInfo {
    /// The command name is zero-padded, and an `Exit` carries no target.
    pub open spec fn wf(self) -> bool {
        self@.wf()
    }

    /// The record on the wire.
    pub fn encode(&self) -> (bytes: [u8; RECORD_SIZE])
        ensures
            bytes@ == encoded(self@),
    {
        let mut out: [u8; RECORD_SIZE] = [0u8; RECORD_SIZE];
        let ts: [u8; 8] = u64_to_le(self.ts);
        let pid: [u8; 4] = u32_to_le(self.pid);
        let tid: [u8; 4] = u32_to_le(self.tid);
        let target: [u8; 8] = u64_to_le(self.target);
        write_at(&mut out, TS_OFFSET, ts.as_slice());
        write_at(&mut out, PID_OFFSET, pid.as_slice());
        write_at(&mut out, TID_OFFSET, tid.as_slice());
        write_at(&mut out, COMM_OFFSET, self.comm.as_slice());
        write_at(&mut out, TARGET_OFFSET, target.as_slice());
        out[FUNC_OFFSET] = self.func.tag();
        assert(out@ =~= encoded(self@));
        out
    }

    /// Reads a record from exactly [`RECORD_SIZE`] bytes, wherever they lie
    /// in memory.
    ///
    /// Fails with `WrongLength` on any other length, and with
    /// `UnknownFunction` on a tag above 3. An `Exit` is returned with target
    /// zero; the command bytes are returned as they stand.
    pub fn decode(bytes: &[u8]) -> (res: Result<ThreadInfo, DecodeError>)
        ensures
            view_of(res) == decoded(bytes@),
            res matches Ok(info) ==> (info.func == ThreadFunc::Exit ==> info.target == 0),
            res is Ok <==> bytes@.len() == RECORD_SIZE && bytes@[FUNC_OFFSET as int] <= 3,
    {
        if bytes.len() != RECORD_SIZE {
            return Err(DecodeError::WrongLength(bytes.len()));
        }
        let tag: u8 = bytes[FUNC_OFFSET];
        let func = match ThreadFunc::from_tag(tag) {
            Some(func) => func,
            None => {
                return Err(DecodeError::UnknownFunction(tag));
            },
        };
        let mut comm: [u8; COMM_LEN] = [0u8; COMM_LEN];
        let mut i: usize = 0;
        while i < COMM_LEN
            invariant
                i <= COMM_LEN,
                bytes@.len() == RECORD_SIZE,
                forall|k: int| 0 <= k < i ==> comm@[k] == bytes@[COMM_OFFSET + k],
            decreases COMM_LEN - i,
        {
            comm[i] = bytes[COMM_OFFSET + i];
            i += 1;
        }
        assert(comm@ =~= bytes@.subrange(COMM_OFFSET as int, COMM_OFFSET + COMM_LEN));
        let target: u64 = match func {
            ThreadFunc::Exit => 0,
            _ => u64_from_le(bytes, TARGET_OFFSET),
        };
        Ok(
            ThreadInfo {
                ts: u64_from_le(bytes, TS_OFFSET),
                pid: u32_from_le(bytes, PID_OFFSET),
                tid: u32_from_le(bytes, TID_OFFSET),
                comm,
                target,
                func,
            },
        )
    }

    /// Reads the record that starts at byte `at` of `buf`, whatever the
    /// alignment of that position.
    ///
    /// Fails with `WrongLength` where fewer than [`RECORD_SIZE`] bytes are
    /// left from `at` on; what follows the record is not looked at.
    pub fn decode_at(buf: &[u8], at: usize) -> (res: Result<ThreadInfo, DecodeError>)
        ensures
            view_of(res) == decoded_at(buf@, at as int),
            res matches Ok(info) ==> (info.func == ThreadFunc::Exit ==> info.target == 0),
    {
        if at > buf.len() {
            return Err(DecodeError::WrongLength(0));
        }
        let left: usize = buf.len() - at;
        if left < RECORD_SIZE {
            return Err(DecodeError::WrongLength(left));
        }
        let window = vstd::slice::slice_subrange(buf, at, at + RECORD_SIZE);
        Self::decode(window)
    }
}

/// Two records with the same content are the same record.
pub proof fn view_is_injective(a: ThreadInfo, b: ThreadInfo)
    requires
        a@ == b@,
    ensures
        a == b,
{
    assert(a.comm =~= b.comm);
}

/// Decoding the encoding of well-formed content gives the content back,
/// field for field.
pub proof fn decoded_inverts_encoded(v: ThreadInfoView)
    requires
        v.wf(),
    ensures
        encoded(v).len() == RECORD_SIZE,
        decoded(encoded(v)) == Ok::<ThreadInfoView, DecodeError>(v),
{
    let bytes = encoded(v);
    le64_roundtrip(v.ts);
    le32_roundtrip(v.pid);
    le32_roundtrip(v.tid);
    le64_roundtrip(v.target);
    assert(bytes.subrange(TS_OFFSET as int, TS_OFFSET + 8) =~= le64(v.ts));
    assert(bytes.subrange(PID_OFFSET as int, PID_OFFSET + 4) =~= le32(v.pid));
    assert(bytes.subrange(TID_OFFSET as int, TID_OFFSET + 4) =~= le32(v.tid));
    assert(bytes.subrange(COMM_OFFSET as int, COMM_OFFSET + COMM_LEN) =~= v.comm);
    assert(bytes.subrange(TARGET_OFFSET as int, TARGET_OFFSET + 8) =~= le64(v.target));
    assert(bytes[FUNC_OFFSET as int] == v.func.tag_value());
}

/// Decoding the encoding of a well-formed record gives the record back,
/// field for field.
pub proof fn decode_inverts_encode(info: ThreadInfo)
    requires
        info.wf(),
    ensures
        encoded(info@).len() == RECORD_SIZE,
        decoded(encoded(info@)) == Ok::<ThreadInfoView, DecodeError>(info@),
{
    decoded_inverts_encoded(info@);
}

/// The same holds wherever the encoding lies in a larger buffer: decoding at
/// the position where it starts gives the record back, whatever precedes and
/// follows it and however that position is aligned.
pub proof fn decode_inverts_encode_at(info: ThreadInfo, before: Seq<u8>, after: Seq<u8>)
    requires
        info.wf(),
    ensures
        decoded_at(before + encoded(info@) + after, before.len() as int) == Ok::<
            ThreadInfoView,
            DecodeError,
        >(info@),
{
    decode_inverts_encode(info);
    let buf = before + encoded(info@) + after;
    assert(buf.subrange(before.len() as int, before.len() + RECORD_SIZE) =~= encoded(info@));
}

} // verus!
