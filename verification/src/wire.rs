//! The request and reply frames of the time protocol, and the order in which
//! candidate servers are tried.

use vstd::prelude::*;
use crate::time::{sample_at, spec_sample_at, Timestamp};

verus! {

/// Length in bytes of a request and of a reply.
pub const FRAME_LEN: usize = 48;

/// First byte of a request: protocol version 3, client mode.
pub const REQUEST_HEADER: u8 = 0x1b;

/// Position in a reply of the first byte of the transmit timestamp's seconds.
pub const TRANSMIT_AT: usize = 40;

/// Seconds from the protocol's epoch, 1900-01-01, to 1970-01-01.
pub const EPOCH_OFFSET: i64 = 2_208_988_800;

/// The unsigned number that four bytes spell, most significant byte first.
pub open spec fn spec_be32(b0: u8, b1: u8, b2: u8, b3: u8) -> int {
    b0 * 16_777_216 + b1 * 65_536 + b2 * 256 + b3
}

/// The transmit timestamp of a reply, in seconds since 1900-01-01.
pub open spec fn spec_transmit_field(frame: Seq<u8>) -> int
    recommends
        frame.len() == FRAME_LEN,
{
    spec_be32(frame[40], frame[41], frame[42], frame[43])
}

/// The transmit timestamp of a reply, in seconds since 1970-01-01.
pub open spec fn spec_transmit_seconds(frame: Seq<u8>) -> int
    recommends
        frame.len() == FRAME_LEN,
{
    spec_transmit_field(frame) - EPOCH_OFFSET
}

/// The time sample that a reply carries.
pub open spec fn spec_decode_reply(frame: Seq<u8>) -> Option<Timestamp>
    recommends
        frame.len() == FRAME_LEN,
{
    spec_sample_at(spec_transmit_seconds(frame))
}

/// What to do next in one synchronization attempt.
#[derive(Clone, Copy, Debug, PartialEq, Eq, Structural)]
pub enum FetchStep {
    /// Exchange one request and reply with the candidate at this position.
    Query(usize),
    /// The attempt is over, with the sample it gave or with none.
    Done(Option<Timestamp>),
}

/// The first step of an attempt over `candidates` servers.
pub open spec fn spec_fetch_begin(candidates: usize) -> FetchStep {
    if candidates > 0 {
        FetchStep::Query(0)
    } else {
        FetchStep::Done(None)
    }
}

/// The step that follows the exchange with the candidate at `index`, which
/// gave `reply` or failed.
pub open spec fn spec_fetch_advance(
    candidates: usize,
    index: usize,
    reply: Option<Seq<u8>>,
) -> FetchStep {
    if reply is Some && spec_decode_reply(reply.unwrap()) is Some {
        FetchStep::Done(spec_decode_reply(reply.unwrap()))
    } else if index + 1 < candidates {
        FetchStep::Query((index + 1) as usize)
    } else {
        FetchStep::Done(None)
    }
}

/// The sample of the first candidate, at position `from` or later, whose
/// exchange gave a reply that carries one. `outcomes` holds, for each
/// candidate, the reply of its exchange or `None` where it failed.
pub open spec fn spec_first_sample(outcomes: Seq<Option<Seq<u8>>>, from: int) -> Option<Timestamp>
    decreases outcomes.len() - from,
{
    if from < 0 || from >= outcomes.len() {
        None
    } else if outcomes[from] is Some && spec_decode_reply(outcomes[from].unwrap()) is Some {
        spec_decode_reply(outcomes[from].unwrap())
    } else {
        spec_first_sample(outcomes, from + 1)
    }
}

/// The end of an attempt that is about to query the candidate at `index` and
/// follows the steps from there on.
pub open spec fn spec_fetch_from(outcomes: Seq<Option<Seq<u8>>>, index: int) -> Option<Timestamp>
    decreases outcomes.len() - index,
{
    if index < 0 || index >= outcomes.len() || outcomes.len() > usize::MAX {
        None
    } else {
        match spec_fetch_advance(outcomes.len() as usize, index as usize, outcomes[index]) {
            FetchStep::Done(sample) => sample,
            FetchStep::Query(next) => if next == index + 1 {
                spec_fetch_from(outcomes, index + 1)
            } else {
                None
            },
        }
    }
}

/// The end of a whole attempt that follows the steps from the beginning.
pub open spec fn spec_fetch(outcomes: Seq<Option<Seq<u8>>>) -> Option<Timestamp> {
    match spec_fetch_begin(outcomes.len() as usize) {
        FetchStep::Done(sample) => sample,
        FetchStep::Query(first) => spec_fetch_from(outcomes, first as int),
    }
}

/// The view of an optional frame.
pub open spec fn frame_view(reply: Option<[u8; 48]>) -> Option<Seq<u8>> {
    match reply {
        Some(frame) => Some(frame@),
        None => None,
    }
}

/// The request frame: the header byte, then zeros.
pub fn request_frame() -> (r: [u8; 48])
    ensures
        r@.len() == FRAME_LEN,
        r@[0] == REQUEST_HEADER,
        forall|i: int| 1 <= i < FRAME_LEN ==> r@[i] == 0,
{
    let mut frame: [u8; 48] = [0u8; 48];
    frame[0] = REQUEST_HEADER;
    frame
}

/// Reads the transmit timestamp of a reply and moves it from the protocol's
/// epoch to 1970-01-01. Only the whole seconds are read.
pub fn transmit_seconds(reply: &[u8; 48]) -> (r: i64)
    ensures
        r == spec_transmit_seconds(reply@),
        -EPOCH_OFFSET <= r <= u32::MAX - EPOCH_OFFSET,
{
    let b0: i64 = reply[TRANSMIT_AT] as i64;
    let b1: i64 = reply[TRANSMIT_AT + 1] as i64;
    let b2: i64 = reply[TRANSMIT_AT + 2] as i64;
    let b3: i64 = reply[TRANSMIT_AT + 3] as i64;
    b0 * 16_777_216 + b1 * 65_536 + b2 * 256 + b3 - EPOCH_OFFSET
}

/// Extracts the time sample of a reply. Every reply carries one: the whole
/// range of the transmit timestamp lies inside the calendar range.
pub fn decode_reply(reply: &[u8; 48]) -> (r: Option<Timestamp>)
    ensures
        r == spec_decode_reply(reply@),
        r == Some(Timestamp { secs: spec_transmit_seconds(reply@) as i64, nanos: 0 }),
        r.unwrap().wf(),
{
    sample_at(transmit_seconds(reply))
}

/// Begins a synchronization attempt over `candidates` servers: the first
/// candidate is queried, and an empty list gives no sample.
pub fn fetch_begin(candidates: usize) -> (r: FetchStep)
    ensures
        r == spec_fetch_begin(candidates),
{
    if candidates > 0 {
        FetchStep::Query(0)
    } else {
        FetchStep::Done(None)
    }
}

/// Decides what follows the exchange with the candidate at `index`. `reply` is
/// the frame that came back, or `None` where the candidate did not resolve or
/// the exchange failed. The first sample ends the attempt; a failure moves on
/// to the next candidate, and after the last one the attempt ends without a
/// sample.
pub fn fetch_advance(candidates: usize, index: usize, reply: Option<[u8; 48]>) -> (r: FetchStep)
    requires
        index < candidates,
    ensures
        r == spec_fetch_advance(candidates, index, frame_view(reply)),
        r matches FetchStep::Query(next) ==> next == index + 1 && next < candidates,
        r matches FetchStep::Done(Some(t)) ==> t.wf(),
        reply is Some ==> r == FetchStep::Done(spec_decode_reply(reply.unwrap()@)),
{
    let sample: Option<Timestamp> = match reply {
        Some(frame) => decode_reply(&frame),
        None => None,
    };
    match sample {
        Some(t) => FetchStep::Done(Some(t)),
        None => {
            if index + 1 < candidates {
                FetchStep::Query(index + 1)
            } else {
                FetchStep::Done(None)
            }
        },
    }
}

/// A reply whose transmit timestamp is `2_208_988_800 + n` decodes to the
/// instant `n` whole seconds after 1970-01-01T00:00:00Z.
pub proof fn lemma_reply_round_trip(frame: Seq<u8>, n: int)
    requires
        frame.len() == FRAME_LEN,
        spec_transmit_field(frame) == EPOCH_OFFSET + n,
    ensures
        spec_decode_reply(frame) == Some(Timestamp { secs: n as i64, nanos: 0 }),
        i64::MIN <= n <= i64::MAX,
        spec_decode_reply(frame).unwrap().as_nanos() == n * 1_000_000_000,
{
}

/// A synchronization attempt ends with the sample of the first candidate that
/// replied: no later candidate is queried once a reply has come.
pub proof fn lemma_first_reply_wins(candidates: usize, index: usize, frame: Seq<u8>)
    requires
        index < candidates,
        frame.len() == FRAME_LEN,
    ensures
        spec_fetch_advance(candidates, index, Some(frame)) == FetchStep::Done(
            spec_decode_reply(frame),
        ),
        spec_decode_reply(frame) is Some,
{
}

/// Following the steps from the candidate at `index` on ends with the sample
/// of the first candidate from there on that carries one.
pub proof fn lemma_fetch_from(outcomes: Seq<Option<Seq<u8>>>, index: int)
    requires
        outcomes.len() <= usize::MAX,
        0 <= index,
    ensures
        spec_fetch_from(outcomes, index) == spec_first_sample(outcomes, index),
    decreases outcomes.len() - index,
{
    if index < outcomes.len() {
        lemma_fetch_from(outcomes, index + 1);
    }
}

/// A synchronization attempt that follows the steps from the beginning gives
/// the sample of the first candidate, in the order of the list, whose exchange
/// carried one, and none where no exchange did.
pub proof fn lemma_fetch_is_first_sample(outcomes: Seq<Option<Seq<u8>>>)
    requires
        outcomes.len() <= usize::MAX,
    ensures
        spec_fetch(outcomes) == spec_first_sample(outcomes, 0),
{
    lemma_fetch_from(outcomes, 0);
}

/// An attempt in which every candidate fails queries each candidate once, in
/// order, and ends without a sample after the last.
pub proof fn lemma_all_fail(candidates: usize, index: usize)
    requires
        index < candidates,
    ensures
        index + 1 < candidates ==> spec_fetch_advance(candidates, index, None)
            == FetchStep::Query((index + 1) as usize),
        index + 1 == candidates ==> spec_fetch_advance(candidates, index, None)
            == FetchStep::Done(None),
{
}

} // verus!
