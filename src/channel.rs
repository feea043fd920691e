//! Decisions of the shared USB virtual-serial channel.
//!
//! The transport and its device state sit behind a mutex that callers try to
//! take for a bounded time. Each operation here receives what the attempt
//! gave (`None` when the lock was not taken in time) and decides the outcome,
//! so that a timed-out no-op and a truncated transfer can be told apart.
use vstd::prelude::*;

verus! {

/// How long an operation waits for the channel's mutex, in milliseconds.
pub const LOCK_TIMEOUT_MS: u32 = 100;

/// Size of the inbound buffer, in bytes.
pub const INBOUND_CAPACITY: usize = 64;

/// Connection phase of the USB device, as its protocol engine reports it.
#[derive(Clone, Copy, Debug, PartialEq, Eq, Structural)]
pub enum DeviceState {
    /// Just created or reset.
    Default,
    /// An address was received from the host.
    Addressed,
    /// Configured and fully functional.
    Configured,
    /// Suspended by the host, or unplugged.
    Suspend,
}

/// What became of a transfer on the channel.
#[derive(Clone, Copy, Debug, PartialEq, Eq, Structural)]
pub enum TransferReport {
    /// All `count` bytes went through.
    Complete { count: usize },
    /// Only the first `kept` bytes went through; `dropped` bytes were lost.
    Truncated { kept: usize, dropped: usize },
    /// The mutex was not taken in time: nothing happened.
    TimedOut,
}

/// The report for a transfer of `requested` bytes of which the transport
/// took `accepted`, or none at all when the lock timed out.
pub open spec fn report_of(requested: nat, accepted: Option<nat>) -> TransferReport {
    match accepted {
        None => TransferReport::TimedOut,
        Some(n) => if n == requested {
            TransferReport::Complete { count: n as usize }
        } else {
            TransferReport::Truncated { kept: n as usize, dropped: (requested - n) as usize }
        },
    }
}

/// Whether a device in `state` is connected: only a configured device is.
pub fn is_connected(state: DeviceState) -> (r: bool)
    ensures
        r == (state == DeviceState::Configured),
{
    match state {
        DeviceState::Default => false,
        DeviceState::Addressed => false,
        DeviceState::Configured => true,
        DeviceState::Suspend => false,
    }
}

/// The result of a connection poll: `polled` is the device state read after
/// driving the protocol engine one step, or `None` when the lock timed out,
/// which reads as not connected.
pub fn poll_status(polled: Option<DeviceState>) -> (r: bool)
    ensures
        r == (polled == Some(DeviceState::Configured)),
{
    match polled {
        Some(state) => is_connected(state),
        None => false,
    }
}

/// Reports a transfer of `requested` bytes: `accepted` is how many the
/// transport took (none on a transport error), or `None` when the lock
/// timed out. A payload larger than what the transport takes is truncated to
/// that prefix, and no error is raised.
pub fn transfer_report(requested: usize, accepted: Option<usize>) -> (r: TransferReport)
    requires
        accepted matches Some(n) ==> n <= requested,
    ensures
        r == report_of(
            requested as nat,
            match accepted { Some(n) => Some(n as nat), None => None },
        ),
{
    match accepted {
        None => TransferReport::TimedOut,
        Some(n) => if n == requested {
            TransferReport::Complete { count: n }
        } else {
            TransferReport::Truncated { kept: n, dropped: requested - n }
        },
    }
}

/// Sending more than the transport takes keeps exactly the prefix it took:
/// the report is a truncation to that many bytes, never an error or a
/// time-out.
pub proof fn lemma_oversize_send_truncates(requested: usize, accepted: usize)
    requires
        accepted < requested,
    ensures
        report_of(requested as nat, Some(accepted as nat)) == (TransferReport::Truncated {
            kept: accepted,
            dropped: (requested - accepted) as usize,
        }),
{
}

/// The inbound buffer: holds the bytes of the last successful receive, at
/// most [`INBOUND_CAPACITY`] of them.
pub struct InboundBuffer {
    bytes: Vec<u8>,
}

impl View for InboundBuffer {
    type V = Seq<u8>;

    closed spec fn view(&self) -> Seq<u8> {
        self.bytes@
    }
}

impl InboundBuffer {
    /// The buffer holds no more than its capacity.
    pub closed spec fn wf(&self) -> bool {
        self.bytes@.len() <= INBOUND_CAPACITY
    }

    /// An empty buffer.
    pub fn new() -> (r: Self)
        ensures
            r.wf(),
            r@ == Seq::<u8>::empty(),
    {
        InboundBuffer { bytes: Vec::new() }
    }

    /// The bytes held.
    pub fn contents(&self) -> (r: &[u8])
        ensures
            r@ == self@,
    {
        self.bytes.as_slice()
    }

    /// Number of bytes held.
    pub fn len(&self) -> (r: usize)
        requires
            self.wf(),
        ensures
            r == self@.len(),
            r <= INBOUND_CAPACITY,
    {
        self.bytes.len()
    }

    /// Takes in the bytes a receive brought, or `None` when the lock timed
    /// out. On success the previous contents are discarded and the first
    /// [`INBOUND_CAPACITY`] bytes are kept, the rest dropped; on a time-out
    /// the buffer is left as it was.
    pub fn receive(&mut self, incoming: Option<&[u8]>) -> (r: TransferReport)
        requires
            old(self).wf(),
        ensures
            final(self).wf(),
            match incoming {
                None => final(self)@ == old(self)@ && r == TransferReport::TimedOut,
                Some(b) => {
                    let kept = if b@.len() <= INBOUND_CAPACITY { b@.len() } else { INBOUND_CAPACITY as nat };
                    &&& final(self)@ == b@.take(kept as int)
                    &&& r == report_of(b@.len(), Some(kept))
                },
            },
    {
        match incoming {
            None => TransferReport::TimedOut,
            Some(b) => {
                let kept: usize = if b.len() <= INBOUND_CAPACITY { b.len() } else { INBOUND_CAPACITY };
                let mut bytes: Vec<u8> = Vec::with_capacity(kept);
                let mut i: usize = 0;
                while i < kept
                    invariant
                        kept <= b@.len(),
                        kept <= INBOUND_CAPACITY,
                        i <= kept,
                        bytes@ == b@.take(i as int),
                    decreases kept - i,
                {
                    bytes.push(b[i]);
                    assert(b@.take(i as int).push(b@[i as int]) =~= b@.take(i + 1));
                    i = i + 1;
                }
                self.bytes = bytes;
                transfer_report(b.len(), Some(kept))
            },
        }
    }
}

} // verus!
