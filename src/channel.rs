use vstd::prelude::*;
use num_complex::Complex;
use crate::error::TransferError;
use crate::sample::copy_prefix;

verus! {

/// Transfer status with which the transport reports that a call timed out.
pub const STATUS_TIMEOUT: i32 = -6;

/// Metadata status bit: samples were lost because they were not drained in time.
pub const META_STATUS_OVERRUN: u32 = 1;

/// Metadata status bit: samples were not supplied in time.
pub const META_STATUS_UNDERRUN: u32 = 2;

/// How a transfer went.
#[derive(Clone, Copy, Debug, PartialEq, Eq, Structural)]
pub enum BlockStatus {
    /// A full block arrived.
    Complete,
    /// Nothing arrived within the timeout.
    Timeout,
    /// Samples were lost; the block holds only those that are valid.
    Overrun,
    /// Samples were missing; the block holds only those that are valid.
    Underrun,
}

/// The result of one transfer, owned by the caller.
#[derive(Clone, Debug)]
pub struct SampleBlock {
    pub status: BlockStatus,
    pub samples: Vec<Complex<i16>>,
    /// Number of valid samples.
    pub actual_count: usize,
}

/// The classification that the metadata flags of a successful call give.
pub open spec fn flagged_status(meta_status: u32) -> BlockStatus {
    if meta_status & META_STATUS_OVERRUN != 0 {
        BlockStatus::Overrun
    } else if meta_status & META_STATUS_UNDERRUN != 0 {
        BlockStatus::Underrun
    } else {
        BlockStatus::Complete
    }
}

/// Number of valid samples in a short block: what the transport counted,
/// but never more than the block holds.
pub open spec fn short_count(actual_count: u32, block_len: nat) -> nat {
    if actual_count as nat <= block_len {
        actual_count as nat
    } else {
        block_len
    }
}

/// What a caller can know of a channel.
pub ghost struct ChannelView {
    pub index: u32,
    pub timeout_ms: u32,
    pub buffer: Seq<Complex<i16>>,
}

/// An enabled receive or transmit path of a session. It exists only between
/// a successful enable and the disable that consumes it, and owns the buffer
/// that the transport fills, one configured block long.
pub struct StreamingChannel {
    index: u32,
    timeout_ms: u32,
    buffer: Vec<Complex<i16>>,
}

impl View for StreamingChannel {
    type V = ChannelView;

    closed spec fn view(&self) -> ChannelView {
        ChannelView { index: self.index, timeout_ms: self.timeout_ms, buffer: self.buffer@ }
    }
}

impl StreamingChannel {
    pub(crate) fn new(index: u32, timeout_ms: u32, buffer: Vec<Complex<i16>>) -> (r: StreamingChannel)
        ensures
            r@ == (ChannelView { index, timeout_ms, buffer: buffer@ }),
    {
        StreamingChannel { index, timeout_ms, buffer }
    }

    /// The channel's index on its session.
    pub fn index(&self) -> (r: u32)
        ensures
            r == self@.index,
    {
        self.index
    }

    /// The timeout of one transfer in milliseconds; zero waits without bound.
    pub fn timeout_ms(&self) -> (r: u32)
        ensures
            r == self@.timeout_ms,
    {
        self.timeout_ms
    }

    /// Length of one block in samples.
    pub fn block_len(&self) -> (r: usize)
        ensures
            r == self@.buffer.len(),
    {
        self.buffer.len()
    }

    /// The channel's own buffer, for the transport to fill during one call.
    /// Its length cannot change.
    pub fn buffer_mut(&mut self) -> (r: &mut [Complex<i16>])
        ensures
            r@ == old(self)@.buffer,
            final(self)@ == (ChannelView { buffer: final(r)@, ..old(self)@ }),
    {
        self.buffer.as_mut_slice()
    }

    /// Classifies the transport's answer to one blocking call on this channel
    /// and copies the valid samples out of the buffer.
    ///
    /// A timeout is no failure: it gives an empty block. Another negative
    /// status is an error. Otherwise the metadata flags tell a full block
    /// from an overrun or underrun, which carries only the valid samples.
    pub fn complete_transfer(&mut self, status: i32, meta_status: u32, actual_count: u32) -> (r:
        Result<SampleBlock, TransferError>)
        ensures
            final(self)@ == old(self)@,
            status < 0 && status != STATUS_TIMEOUT ==> r == Err::<SampleBlock, TransferError>(
                TransferError::TransportError(status),
            ),
            status == STATUS_TIMEOUT ==> r is Ok && r->Ok_0.status == BlockStatus::Timeout
                && r->Ok_0.samples@.len() == 0 && r->Ok_0.actual_count == 0,
            status >= 0 ==> r is Ok && r->Ok_0.status == flagged_status(meta_status),
            status >= 0 && flagged_status(meta_status) == BlockStatus::Complete ==> r is Ok
                && r->Ok_0.samples@ == old(self)@.buffer && r->Ok_0.actual_count
                == old(self)@.buffer.len(),
            status >= 0 && flagged_status(meta_status) != BlockStatus::Complete ==> r is Ok
                && r->Ok_0.actual_count == short_count(actual_count, old(self)@.buffer.len())
                && r->Ok_0.samples@ == old(self)@.buffer.subrange(0, r->Ok_0.actual_count as int),
    {
        if status == STATUS_TIMEOUT {
            return Ok(SampleBlock { status: BlockStatus::Timeout, samples: Vec::new(), actual_count: 0 });
        }
        if status < 0 {
            return Err(TransferError::TransportError(status));
        }
        let len = self.buffer.len();
        let block_status = if meta_status & META_STATUS_OVERRUN != 0 {
            BlockStatus::Overrun
        } else if meta_status & META_STATUS_UNDERRUN != 0 {
            BlockStatus::Underrun
        } else {
            BlockStatus::Complete
        };
        let count: usize = match block_status {
            BlockStatus::Complete => len,
            _ => if (actual_count as usize) <= len {
                actual_count as usize
            } else {
                len
            },
        };
        let samples = copy_prefix(self.buffer.as_slice(), count);
        proof {
            assert(self.buffer@.subrange(0, len as int) =~= self.buffer@);
        }
        Ok(SampleBlock { status: block_status, samples, actual_count: count })
    }
}

} // verus!
