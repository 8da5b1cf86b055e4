//! What a probe makes of one intercepted call.
//!
//! A handler reads what is at hand when the call is entered: the clock, the
//! ids and the command name of the caller, and at most one argument of the
//! call. From these values the functions here build the record, without
//! allocating and in a bounded number of steps.

use vstd::prelude::*;
use crate::event::{decoded, decoded_inverts_encoded, encoded, zero_padded};
use crate::event::{DecodeError, ThreadFunc, ThreadInfo, ThreadInfoView, COMM_LEN};

verus! {

/// The number of values of a 32-bit id: the process id is the quotient of
/// the combined id by it, the thread id the remainder.
pub const ID_SPAN: u64 = 0x1_0000_0000;

/// None of the first `n` bytes of `s` is zero.
pub open spec fn nonzero_prefix(s: Seq<u8>, n: int) -> bool {
    forall|j: int| 0 <= j < n && j < s.len() ==> s[j] != 0
}

/// `s` with every byte from its first zero byte on set to zero.
pub open spec fn pad_after_zero(s: Seq<u8>) -> Seq<u8> {
    Seq::new(
        s.len(),
        |k: int|
            if nonzero_prefix(s, k + 1) {
                s[k]
            } else {
                0u8
            },
    )
}

/// The command-name field of a record: `comm` zero-padded from its first
/// zero byte on, and all zero where no name could be read.
pub open spec fn captured_comm(comm: Option<[u8; COMM_LEN]>) -> Seq<u8> {
    match comm {
        Some(name) => pad_after_zero(name@),
        None => Seq::new(COMM_LEN as nat, |k: int| 0u8),
    }
}

/// The target of a record: none for `Exit`, else the argument, and zero
/// where the argument could not be read.
pub open spec fn captured_target(func: ThreadFunc, arg: Option<u64>) -> u64 {
    match (func, arg) {
        (ThreadFunc::Exit, _) => 0,
        (_, Some(value)) => value,
        (_, None) => 0,
    }
}

/// The record of a call of `func`, entered at `ts` by the thread with the
/// combined id `pid_tgid`.
pub open spec fn captured(
    func: ThreadFunc,
    arg: Option<u64>,
    ts: u64,
    pid_tgid: u64,
    comm: Option<[u8; COMM_LEN]>,
) -> ThreadInfoView {
    ThreadInfoView {
        ts,
        pid: (pid_tgid / ID_SPAN) as u32,
        tid: (pid_tgid % ID_SPAN) as u32,
        comm: captured_comm(comm),
        target: captured_target(func, arg),
        func,
    }
}

/// The characters of `pthread_`, with which the symbol of each of the four
/// functions begins.
pub open spec fn symbol_prefix() -> Seq<char> {
    seq!['p', 't', 'h', 'r', 'e', 'a', 'd', '_']
}

/// The characters of `probe_`, with which the name of each handler begins.
pub open spec fn handler_prefix() -> Seq<char> {
    seq!['p', 'r', 'o', 'b', 'e', '_']
}

impl ThreadFunc {
    /// The symbol of the function in the threading library: `pthread_` and
    /// the display name.
    pub fn symbol(self) -> (text: &'static str)
        ensures
            text@ == symbol_prefix() + self.name_text(),
    {
        proof {
            reveal_strlit("pthread_create");
            reveal_strlit("pthread_detach");
            reveal_strlit("pthread_exit");
            reveal_strlit("pthread_join");
        }
        let text = match self {
            ThreadFunc::Create => "pthread_create",
            ThreadFunc::Detach => "pthread_detach",
            ThreadFunc::Exit => "pthread_exit",
            ThreadFunc::Join => "pthread_join",
        };
        assert(text@ =~= symbol_prefix() + self.name_text());
        text
    }

    /// The name of the handler that is attached to the function: `probe_`
    /// and the symbol.
    pub fn handler(self) -> (text: &'static str)
        ensures
            text@ == handler_prefix() + symbol_prefix() + self.name_text(),
    {
        proof {
            reveal_strlit("probe_pthread_create");
            reveal_strlit("probe_pthread_detach");
            reveal_strlit("probe_pthread_exit");
            reveal_strlit("probe_pthread_join");
        }
        let text = match self {
            ThreadFunc::Create => "probe_pthread_create",
            ThreadFunc::Detach => "probe_pthread_detach",
            ThreadFunc::Exit => "probe_pthread_exit",
            ThreadFunc::Join => "probe_pthread_join",
        };
        assert(text@ =~= handler_prefix() + symbol_prefix() + self.name_text());
        text
    }

    /// The position, among the arguments of the call, of the one that names
    /// the thread the call is about.
    pub open spec fn target_position(self) -> Option<usize> {
        match self {
            ThreadFunc::Create => Some(0usize),
            ThreadFunc::Detach => Some(0usize),
            ThreadFunc::Exit => None,
            ThreadFunc::Join => Some(0usize),
        }
    }

    /// Which argument of the call a probe reads as the target: for `Create`
    /// the first, through which the library hands out the new thread's
    /// handle; for `Detach` and `Join` the first, the handle of the thread
    /// operated on; for `Exit` none.
    pub fn target_arg(self) -> (position: Option<usize>)
        ensures
            position == self.target_position(),
            position is None <==> self == ThreadFunc::Exit,
    {
        match self {
            ThreadFunc::Create => Some(0),
            ThreadFunc::Detach => Some(0),
            ThreadFunc::Exit => None,
            ThreadFunc::Join => Some(0),
        }
    }
}

/// Zero-pads a command name from its first zero byte on. A name that is
/// zero-padded already is returned as it is.
pub fn pad_comm(comm: [u8; COMM_LEN]) -> (out: [u8; COMM_LEN])
    ensures
        out@ == pad_after_zero(comm@),
        zero_padded(out@),
        zero_padded(comm@) ==> out == comm,
{
    let mut out: [u8; COMM_LEN] = [0u8; COMM_LEN];
    let mut clean: bool = true;
    let mut i: usize = 0;
    while i < COMM_LEN
        invariant
            i <= COMM_LEN,
            clean == nonzero_prefix(comm@, i as int),
            forall|k: int| 0 <= k < i ==> out@[k] == pad_after_zero(comm@)[k],
            forall|k: int| i <= k < COMM_LEN ==> out@[k] == 0,
        decreases COMM_LEN - i,
    {
        if comm[i] == 0 {
            clean = false;
        }
        if clean {
            out[i] = comm[i];
        }
        i += 1;
    }
    assert(out@ =~= pad_after_zero(comm@));
    proof {
        pad_after_zero_is_padded(comm@);
        if zero_padded(comm@) {
            assert forall|k: int| 0 <= k < COMM_LEN implies out@[k] == comm@[k] by {
                if !nonzero_prefix(comm@, k + 1) {
                    let j = choose|j: int| 0 <= j < k + 1 && j < comm@.len() && comm@[j] == 0;
                    assert(comm@[j] == 0);
                    assert(comm@[k] == 0);
                }
            }
            assert(out =~= comm);
        }
    }
    out
}

/// Builds the record of one call from what the handler read.
///
/// `arg` is the argument that [`ThreadFunc::target_arg`] names, `None`
/// where it could not be read or there is none; `comm` is the caller's
/// command name, `None` where it could not be read. Nothing here fails: a
/// value that is missing leaves its field zero.
pub fn capture(
    func: ThreadFunc,
    arg: Option<u64>,
    ts: u64,
    pid_tgid: u64,
    comm: Option<[u8; COMM_LEN]>,
) -> (info: ThreadInfo)
    ensures
        info@ == captured(func, arg, ts, pid_tgid, comm),
        info.wf(),
{
    let target: u64 = match func {
        ThreadFunc::Exit => 0,
        _ => match arg {
            Some(value) => value,
            None => 0,
        },
    };
    let name: [u8; COMM_LEN] = match comm {
        Some(name) => pad_comm(name),
        None => [0u8; COMM_LEN],
    };
    assert(name@ =~= captured_comm(comm));
    let info = ThreadInfo {
        ts,
        pid: (pid_tgid / ID_SPAN) as u32,
        tid: (pid_tgid % ID_SPAN) as u32,
        comm: name,
        target,
        func,
    };
    info
}

/// The record of a thread creation.
pub fn probe_pthread_create(
    arg: Option<u64>,
    ts: u64,
    pid_tgid: u64,
    comm: Option<[u8; COMM_LEN]>,
) -> (info: ThreadInfo)
    ensures
        info@ == captured(ThreadFunc::Create, arg, ts, pid_tgid, comm),
        info.wf(),
{
    capture(ThreadFunc::Create, arg, ts, pid_tgid, comm)
}

/// The record of a thread detachment.
pub fn probe_pthread_detach(
    arg: Option<u64>,
    ts: u64,
    pid_tgid: u64,
    comm: Option<[u8; COMM_LEN]>,
) -> (info: ThreadInfo)
    ensures
        info@ == captured(ThreadFunc::Detach, arg, ts, pid_tgid, comm),
        info.wf(),
{
    capture(ThreadFunc::Detach, arg, ts, pid_tgid, comm)
}

/// The record of a thread exit. No argument is read, and the target is zero.
pub fn probe_pthread_exit(ts: u64, pid_tgid: u64, comm: Option<[u8; COMM_LEN]>) -> (info:
    ThreadInfo)
    ensures
        info@ == captured(ThreadFunc::Exit, None, ts, pid_tgid, comm),
        info.target == 0,
        info.wf(),
{
    capture(ThreadFunc::Exit, None, ts, pid_tgid, comm)
}

/// The record of a thread join.
pub fn probe_pthread_join(
    arg: Option<u64>,
    ts: u64,
    pid_tgid: u64,
    comm: Option<[u8; COMM_LEN]>,
) -> (info: ThreadInfo)
    ensures
        info@ == captured(ThreadFunc::Join, arg, ts, pid_tgid, comm),
        info.wf(),
{
    capture(ThreadFunc::Join, arg, ts, pid_tgid, comm)
}

/// Zero-padding from the first zero byte on gives a zero-padded name.
pub proof fn pad_after_zero_is_padded(s: Seq<u8>)
    ensures
        pad_after_zero(s).len() == s.len(),
        zero_padded(pad_after_zero(s)),
{
    let p = pad_after_zero(s);
    assert forall|a: int, b: int| 0 <= a <= b < p.len() && p[a] == 0 implies p[b] == 0 by {
        if nonzero_prefix(s, b + 1) {
            assert(nonzero_prefix(s, a + 1));
            assert(s[a] != 0);
        }
    }
}

/// Whatever a handler read, the record built from it is well-formed: its
/// command name is zero-padded, and an `Exit` has no target.
pub proof fn captured_is_wf(
    func: ThreadFunc,
    arg: Option<u64>,
    ts: u64,
    pid_tgid: u64,
    comm: Option<[u8; COMM_LEN]>,
)
    ensures
        captured(func, arg, ts, pid_tgid, comm).wf(),
{
    match comm {
        Some(name) => {
            pad_after_zero_is_padded(name@);
        },
        None => {},
    }
}

/// A record reaches the consumer as the probe built it: decoding the bytes
/// that the probe sends gives the captured record, field for field.
pub proof fn captured_survives_the_wire(
    func: ThreadFunc,
    arg: Option<u64>,
    ts: u64,
    pid_tgid: u64,
    comm: Option<[u8; COMM_LEN]>,
)
    ensures
        decoded(encoded(captured(func, arg, ts, pid_tgid, comm))) == Ok::<
            ThreadInfoView,
            DecodeError,
        >(captured(func, arg, ts, pid_tgid, comm)),
{
    captured_is_wf(func, arg, ts, pid_tgid, comm);
    decoded_inverts_encoded(captured(func, arg, ts, pid_tgid, comm));
}

} // verus!
