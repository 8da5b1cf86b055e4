//! The consumer of one channel: it turns each raw record of a batch into a
//! line of the report, or says why it gave none.

use vstd::prelude::*;
use bytes::BytesMut;
use crate::event::{decoded, DecodeError, ThreadInfo, ThreadInfoView};
use crate::report::{report_line, Reporter};

verus! {

/// The number of buffers that a consumer hands to one read of its channel.
pub const BATCH_SIZE: usize = 10;

/// The capacity, in bytes, that each buffer is made with.
pub const BUFFER_CAPACITY: usize = 1024;

/// `bytes::BytesMut`, the buffer that a read of a channel fills with one raw
/// record.
#[verifier::external_type_specification]
#[verifier::external_body]
pub struct ExBytesMut(bytes::BytesMut);

/// The bytes that a buffer holds, in their order.
pub uninterp spec fn buffer_bytes(buffer: BytesMut) -> Seq<u8>;

/// `BytesMut::with_capacity`: the buffer it returns holds no bytes, whatever
/// the capacity. It allocates as `Vec::with_capacity` does, which panics
/// above `isize::MAX` bytes, so larger capacities are left out.
#[verifier::external_body]
fn buffer_with_capacity(capacity: usize) -> (buffer: BytesMut)
    requires
        capacity <= isize::MAX,
    ensures
        buffer_bytes(buffer) == Seq::<u8>::empty(),
{
    BytesMut::with_capacity(capacity)
}

/// `BytesMut`'s `as_ref`: the slice it returns is the bytes that the buffer
/// holds.
#[verifier::external_body]
fn buffer_as_slice(buffer: &BytesMut) -> (bytes: &[u8])
    ensures
        bytes@ == buffer_bytes(*buffer),
{
    buffer.as_ref()
}

/// What became of one raw record.
#[derive(Debug, PartialEq, Eq)]
pub enum Outcome {
    /// The record was decoded; holds its line of the report.
    Line(String),
    /// The bytes are no record; they are skipped, and the error is to be
    /// reported.
    Skipped(DecodeError),
    /// The record was decoded, but its timestamp lies before the reference
    /// point, so that it has no place on the report's time axis.
    BeforeReference(ThreadInfo),
}

/// The mathematical content of an [`Outcome`].
pub enum OutcomeView {
    Line(Seq<char>),
    Skipped(DecodeError),
    BeforeReference(ThreadInfoView),
}

impl View for Outcome {
    type V = OutcomeView;

    open spec fn view(&self) -> OutcomeView {
        match *self {
            Outcome::Line(text) => OutcomeView::Line(text@),
            Outcome::Skipped(error) => OutcomeView::Skipped(error),
            Outcome::BeforeReference(info) => OutcomeView::BeforeReference(info@),
        }
    }
}

/// What becomes of the raw record `bytes` under a reporter whose reference
/// point is `reference`.
pub open spec fn outcome_of(reference: u64, bytes: Seq<u8>) -> OutcomeView {
    match decoded(bytes) {
        Err(error) => OutcomeView::Skipped(error),
        Ok(v) => if v.ts < reference {
            OutcomeView::BeforeReference(v)
        } else {
            OutcomeView::Line(report_line((v.ts - reference) as nat, v))
        },
    }
}

/// The number of records of a batch: what the read says it filled, and no
/// more than there are buffers.
pub open spec fn batch_len(buffers: int, read: int) -> int {
    if read < buffers {
        read
    } else {
        buffers
    }
}

impl Reporter {
    /// Decodes one raw record and renders its line.
    pub fn report(&self, record: &[u8]) -> (outcome: Outcome)
        ensures
            outcome@ == outcome_of(self@, record@),
    {
        match ThreadInfo::decode(record) {
            Err(error) => Outcome::Skipped(error),
            Ok(info) => match self.line(&info) {
                Some(text) => Outcome::Line(text),
                None => Outcome::BeforeReference(info),
            },
        }
    }
}

/// The buffers for the reads of one channel: [`BATCH_SIZE`] of them, each
/// empty and made with [`BUFFER_CAPACITY`] bytes of capacity.
pub fn new_buffers() -> (buffers: Vec<BytesMut>)
    ensures
        buffers@.len() == BATCH_SIZE,
        forall|i: int| 0 <= i < BATCH_SIZE ==> buffer_bytes(#[trigger] buffers@[i]).len() == 0,
{
    let mut buffers: Vec<BytesMut> = Vec::new();
    let mut i: usize = 0;
    while i < BATCH_SIZE
        invariant
            i <= BATCH_SIZE,
            buffers@.len() == i,
            forall|k: int| 0 <= k < i ==> buffer_bytes(#[trigger] buffers@[k]).len() == 0,
        decreases BATCH_SIZE - i,
    {
        buffers.push(buffer_with_capacity(BUFFER_CAPACITY));
        i += 1;
    }
    buffers
}

/// Handles the batch that one read of a channel left in `buffers`: the
/// first `read` of them hold one raw record each.
///
/// The outcomes come in the order of the records. A record that cannot be
/// decoded is skipped and does not stop the batch.
pub fn drain(reporter: &Reporter, buffers: &[BytesMut], read: usize) -> (outcomes: Vec<Outcome>)
    ensures
        outcomes@.len() == batch_len(buffers@.len() as int, read as int),
        forall|i: int|
            0 <= i < outcomes@.len() ==> (#[trigger] outcomes@[i])@ == outcome_of(
                reporter@,
                buffer_bytes(buffers@[i]),
            ),
{
    let count: usize = if read < buffers.len() {
        read
    } else {
        buffers.len()
    };
    let mut outcomes: Vec<Outcome> = Vec::new();
    let mut i: usize = 0;
    while i < count
        invariant
            i <= count <= buffers@.len(),
            outcomes@.len() == i,
            forall|k: int|
                0 <= k < i ==> (#[trigger] outcomes@[k])@ == outcome_of(
                    reporter@,
                    buffer_bytes(buffers@[k]),
                ),
        decreases count - i,
    {
        let record = buffer_as_slice(&buffers[i]);
        outcomes.push(reporter.report(record));
        i += 1;
    }
    outcomes
}

} // verus!
