//! The bounded queue of transmit jobs that feeds the radio transmitter.

use bytes::Bytes;
use crossbeam_channel::Sender;
use vstd::prelude::*;

verus! {

/// `bytes::Bytes`, opaque to the verifier; see [`bytes_contents`].
#[verifier::external_type_specification]
#[verifier::external_body]
pub struct ExBytes(Bytes);

/// `crossbeam_channel::Sender`, opaque to the verifier.
#[verifier::external_type_specification]
#[verifier::external_body]
#[verifier::reject_recursive_types(T)]
pub struct ExSender<T>(Sender<T>);

/// The octets that a `Bytes` buffer holds, first to last.
pub uninterp spec fn bytes_contents(b: Bytes) -> Seq<u8>;

/// `bytes::Bytes::copy_from_slice` yields a buffer holding a copy of `data`.
pub assume_specification[ Bytes::copy_from_slice ](data: &[u8]) -> (b: Bytes)
    ensures
        bytes_contents(b) == data@,
;

/// One packet for the transmitter: where on the mesh it goes, and its bytes.
#[derive(Debug, PartialEq, Eq)]
pub struct TransmitJob {
    /// Mesh address of the receiver, or the broadcast address.
    pub dest: u64,
    /// The packet as it was read, IP header included.
    pub payload: Bytes,
}

/// What became of an attempt to queue a job without waiting.
#[derive(Debug, PartialEq, Eq)]
pub enum SendOutcome {
    /// The job is in the queue.
    Sent,
    /// The queue had no room; the job comes back.
    Full(TransmitJob),
    /// Nobody drains the queue any more; the job comes back.
    Disconnected(TransmitJob),
}

/// Calls `crossbeam_channel::Sender::try_send`, which never waits.
///
/// Trusted: where the channel refuses the job, the job it hands back is the
/// one it was given.  Which of the three outcomes occurs depends on the other
/// end of the channel and is not stated.
#[verifier::external_body]
pub(crate) fn try_send(sender: &Sender<TransmitJob>, job: TransmitJob) -> (r: SendOutcome)
    ensures
        r matches SendOutcome::Full(j) ==> j == job,
        r matches SendOutcome::Disconnected(j) ==> j == job,
{
    match sender.try_send(job) {
        Ok(()) => SendOutcome::Sent,
        Err(crossbeam_channel::TrySendError::Full(j)) => SendOutcome::Full(j),
        Err(crossbeam_channel::TrySendError::Disconnected(j)) => SendOutcome::Disconnected(j),
    }
}

/// Copies `data` into a job addressed to `dest`.
pub fn make_job(dest: u64, data: &[u8]) -> (job: TransmitJob)
    ensures
        job.dest == dest,
        bytes_contents(job.payload) == data@,
{
    TransmitJob { dest, payload: Bytes::copy_from_slice(data) }
}

} // verus!
