//! The report: one line of text for every event, timed against one fixed
//! reference point.

use vstd::prelude::*;
use crate::event::{zero_padded, ThreadFunc, ThreadInfo, ThreadInfoView, COMM_LEN};
use crate::text::{decimal, hex, pad_left, pad_right};
use crate::text::{push_column, push_decimal, push_hex};

verus! {

/// Nanoseconds in a second.
pub const NANOS_PER_SEC: u64 = 1_000_000_000;

/// `s` without the zero bytes at its end.
pub open spec fn strip_trailing_zeros(s: Seq<u8>) -> Seq<u8>
    decreases s.len(),
{
    if s.len() > 0 && s.last() == 0 {
        strip_trailing_zeros(s.drop_last())
    } else {
        s
    }
}

/// The command name as text: the field without its trailing zero bytes,
/// every byte that is left taken as the character with that code.
pub open spec fn command_text(comm: Seq<u8>) -> Seq<char> {
    strip_trailing_zeros(comm).map_values(|b: u8| b as char)
}

/// A line of the report, for an event that came `elapsed` nanoseconds
/// after the reference point.
///
/// The columns are: whole seconds, right-aligned in three characters; a dot
/// and the nanoseconds left over, in nine digits; process id and thread id,
/// each right-aligned in seven characters; the command name, left-aligned
/// in sixteen; the function name, left-aligned in six; and the target in
/// hexadecimal behind `0x`. One space stands between two columns.
pub open spec fn report_line(elapsed: nat, v: ThreadInfoView) -> Seq<char> {
    pad_left(decimal(elapsed / (NANOS_PER_SEC as nat)), 3, ' ') + seq!['.'] + pad_left(
        decimal(elapsed % (NANOS_PER_SEC as nat)),
        9,
        '0',
    ) + seq![' '] + pad_left(decimal(v.pid as nat), 7, ' ') + seq![' '] + pad_left(
        decimal(v.tid as nat),
        7,
        ' ',
    ) + seq![' '] + pad_right(command_text(v.comm), 16, ' ') + seq![' '] + pad_right(
        v.func.name_text(),
        6,
        ' ',
    ) + seq![' ', '0', 'x'] + hex(v.target as nat)
}

/// The nanoseconds that a clock reading of `sec` seconds and `nsec`
/// nanoseconds stands for, where the reading is a time and fits 64 bits.
pub open spec fn timespec_value(sec: int, nsec: int) -> Option<u64> {
    if 0 <= sec && 0 <= nsec < NANOS_PER_SEC && sec * NANOS_PER_SEC + nsec <= u64::MAX {
        Some((sec * NANOS_PER_SEC + nsec) as u64)
    } else {
        None
    }
}

/// Turns a clock reading of seconds and nanoseconds into nanoseconds.
///
/// `None` for a negative part, for `nsec` of a second or more, and for a
/// reading beyond 64 bits of nanoseconds.
pub fn timespec_nanos(sec: i64, nsec: i64) -> (nanos: Option<u64>)
    ensures
        nanos == timespec_value(sec as int, nsec as int),
{
    if sec < 0 || nsec < 0 || nsec >= 1_000_000_000 {
        return None;
    }
    let s: u64 = sec as u64;
    let n: u64 = nsec as u64;
    if s > (u64::MAX - n) / NANOS_PER_SEC {
        return None;
    }
    Some(s * NANOS_PER_SEC + n)
}

impl ThreadInfo {
    /// The command name as text, without the zero bytes that pad it.
    pub fn command_name(&self) -> (name: String)
        ensures
            name@ == command_text(self.comm@),
    {
        let mut len: usize = COMM_LEN;
        assert(self.comm@.take(len as int) =~= self.comm@);
        while len > 0 && self.comm[len - 1] == 0
            invariant
                len <= COMM_LEN,
                strip_trailing_zeros(self.comm@) == strip_trailing_zeros(
                    self.comm@.take(len as int),
                ),
            decreases len,
        {
            assert(self.comm@.take(len as int).drop_last() =~= self.comm@.take(len - 1));
            len -= 1;
        }
        let ghost kept = self.comm@.take(len as int);
        assert(strip_trailing_zeros(kept) == kept);
        let mut name = String::new();
        let mut i: usize = 0;
        while i < len
            invariant
                i <= len <= COMM_LEN,
                kept == self.comm@.take(len as int),
                name@ == kept.take(i as int).map_values(|b: u8| b as char),
            decreases len - i,
        {
            name.push(self.comm[i] as char);
            i += 1;
            assert(name@ =~= kept.take(i as int).map_values(|b: u8| b as char));
        }
        assert(kept.take(len as int) =~= kept);
        name
    }
}

/// The reporter: it holds the reference point, fixed when it is made.
#[derive(Clone, Copy, Debug)]
pub struct Reporter {
    reference: u64,
}

impl View for Reporter {
    type V = u64;

    /// The reference point, in monotonic nanoseconds.
    closed spec fn view(&self) -> u64 {
        self.reference
    }
}

impl Reporter {
    /// A reporter that times events against `reference`.
    pub fn new(reference: u64) -> (reporter: Reporter)
        ensures
            reporter@ == reference,
    {
        Reporter { reference }
    }

    /// The reference point.
    pub fn reference(&self) -> (reference: u64)
        ensures
            reference == self@,
    {
        self.reference
    }

    /// The time from the reference point to `ts`, as whole seconds and the
    /// nanoseconds left over; `None` where `ts` lies before the reference
    /// point.
    pub fn elapsed(&self, ts: u64) -> (parts: Option<(u64, u32)>)
        ensures
            match parts {
                Some((secs, nanos)) => {
                    &&& ts >= self@
                    &&& secs == (ts - self@) / (NANOS_PER_SEC as int)
                    &&& nanos == (ts - self@) % (NANOS_PER_SEC as int)
                },
                None => ts < self@,
            },
    {
        if ts < self.reference {
            return None;
        }
        let dt: u64 = ts - self.reference;
        Some((dt / NANOS_PER_SEC, (dt % NANOS_PER_SEC) as u32))
    }

    /// The line of the report for `info`; `None` where the event lies
    /// before the reference point.
    pub fn line(&self, info: &ThreadInfo) -> (text: Option<String>)
        ensures
            match text {
                Some(t) => info.ts >= self@ && t@ == report_line((info.ts - self@) as nat, info@),
                None => info.ts < self@,
            },
    {
        let (secs, nanos) = match self.elapsed(info.ts) {
            Some(parts) => parts,
            None => {
                return None;
            },
        };
        let name = info.command_name();
        let mut out = String::new();
        push_decimal(&mut out, secs, 3, ' ');
        out.push('.');
        push_decimal(&mut out, nanos as u64, 9, '0');
        out.push(' ');
        push_decimal(&mut out, info.pid as u64, 7, ' ');
        out.push(' ');
        push_decimal(&mut out, info.tid as u64, 7, ' ');
        out.push(' ');
        push_column(&mut out, name.as_str(), 16);
        out.push(' ');
        push_column(&mut out, info.func.name(), 6);
        out.push(' ');
        out.push('0');
        out.push('x');
        push_hex(&mut out, info.target);
        assert(out@ =~= report_line((info.ts - self@) as nat, info@));
        Some(out)
    }
}

/// No zero byte is left in `s` without its trailing zeros, where `s` is
/// zero-padded.
pub proof fn stripped_has_no_zero(s: Seq<u8>)
    requires
        zero_padded(s),
    ensures
        forall|i: int| 0 <= i < strip_trailing_zeros(s).len() ==> strip_trailing_zeros(s)[i] != 0,
    decreases s.len(),
{
    if s.len() > 0 && s.last() == 0 {
        let t = s.drop_last();
        assert(zero_padded(t)) by {
            assert forall|i: int, j: int| 0 <= i <= j < t.len() && t[i] == 0 implies t[j] == 0 by {
                assert(s[i] == 0);
                assert(s[j] == 0);
            }
        }
        stripped_has_no_zero(t);
        assert(strip_trailing_zeros(s) == strip_trailing_zeros(t));
    } else {
        assert(strip_trailing_zeros(s) == s);
        assert forall|i: int| 0 <= i < s.len() implies s[i] != 0 by {
            let last = s.len() - 1;
            if s[i] == 0 {
                assert(s[last] == 0);
            }
        }
    }
}

/// The name of a record whose command field is zero-padded holds no NUL
/// character.
pub proof fn command_name_has_no_nul(info: ThreadInfo)
    requires
        zero_padded(info.comm@),
    ensures
        forall|i: int|
            0 <= i < command_text(info.comm@).len() ==> command_text(info.comm@)[i] != '\0',
{
    stripped_has_no_zero(info.comm@);
    let kept = strip_trailing_zeros(info.comm@);
    assert forall|i: int| 0 <= i < command_text(info.comm@).len() implies command_text(
        info.comm@,
    )[i] != '\0' by {
        assert(kept[i] != 0);
        assert(command_text(info.comm@)[i] == kept[i] as char);
    }
}

/// The name of a record whose command field is all zero is empty.
pub proof fn zero_command_name_is_empty(info: ThreadInfo)
    requires
        forall|i: int| 0 <= i < COMM_LEN ==> info.comm@[i] == 0,
    ensures
        command_text(info.comm@) == Seq::<char>::empty(),
{
    all_zero_strips_to_nothing(info.comm@);
    assert(command_text(info.comm@) =~= Seq::<char>::empty());
}

/// A sequence of zero bytes has nothing left without its trailing zeros.
proof fn all_zero_strips_to_nothing(s: Seq<u8>)
    requires
        forall|i: int| 0 <= i < s.len() ==> s[i] == 0,
    ensures
        strip_trailing_zeros(s).len() == 0,
    decreases s.len(),
{
    if s.len() > 0 {
        all_zero_strips_to_nothing(s.drop_last());
    }
}

} // verus!
