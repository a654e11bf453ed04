use vstd::prelude::*;
use crate::error::ConfigError;

verus! {

/// How samples are laid out on the wire.
#[derive(Clone, Copy, Debug, PartialEq, Eq, Structural)]
pub enum SampleFormat {
    /// Complex 16-bit I/Q samples.
    Sc16Q11,
    /// Complex 16-bit I/Q samples with per-block metadata.
    Sc16Q11Meta,
}

/// Which channels the synchronous interface streams.
#[derive(Clone, Copy, Debug, PartialEq, Eq, Structural)]
pub enum ChannelLayout {
    RxX1,
    TxX1,
    RxX2,
    TxX2,
}

/// Parameters of one synchronous transfer path.
#[derive(Clone, Copy, Debug, PartialEq, Eq, Structural)]
pub struct ChannelConfig {
    pub format: SampleFormat,
    pub layout: ChannelLayout,
    /// Samples per buffer; also the length of one transferred block.
    pub buffer_size: u32,
    /// Buffers the transport allocates.
    pub buffer_count: u32,
    /// Transfers kept in flight.
    pub transfer_count: u32,
    /// Timeout of one transfer in milliseconds; zero waits without bound.
    pub timeout_ms: u32,
}

/// `buffer_count >= transfer_count >= 1` and `buffer_size > 0`.
pub open spec fn params_valid(c: ChannelConfig) -> bool {
    &&& c.buffer_count >= c.transfer_count
    &&& c.transfer_count >= 1
    &&& c.buffer_size > 0
}

impl ChannelConfig {
    /// The receive configuration that opening a device by serial applies:
    /// one receive channel, metadata format, 64 buffers of 16384 samples,
    /// 16 transfers in flight and no timeout.
    pub fn receive_default() -> (r: ChannelConfig)
        ensures
            r.format == SampleFormat::Sc16Q11Meta,
            r.layout == ChannelLayout::RxX1,
            r.buffer_size == 16384,
            r.transfer_count == 16,
            r.buffer_count == 64,
            r.timeout_ms == 0,
            params_valid(r),
    {
        let transfer_count: u32 = 16;
        ChannelConfig {
            format: SampleFormat::Sc16Q11Meta,
            layout: ChannelLayout::RxX1,
            buffer_size: 16384,
            buffer_count: 4 * transfer_count,
            transfer_count,
            timeout_ms: 0,
        }
    }

    /// The pre-flight check made before any configuration reaches the transport.
    pub fn validate(&self) -> (r: Result<(), ConfigError>)
        ensures
            r == (if params_valid(*self) {
                Ok::<(), ConfigError>(())
            } else {
                Err(ConfigError::InvalidParams)
            }),
    {
        if self.transfer_count >= 1 && self.buffer_count >= self.transfer_count
            && self.buffer_size > 0 {
            Ok(())
        } else {
            Err(ConfigError::InvalidParams)
        }
    }
}

} // verus!
