use vstd::prelude::*;

verus! {

/// Why a device could not be opened.
#[derive(Clone, Copy, Debug, PartialEq, Eq, Structural)]
pub enum OpenError {
    /// The transport reported a negative status; no device matched the selector.
    NotFound(i32),
}

/// Why a live descriptor could not be read back from an open session.
#[derive(Clone, Copy, Debug, PartialEq, Eq, Structural)]
pub enum QueryError {
    /// The transport reported this negative status.
    TransportRejected(i32),
}

/// Why a synchronous-transfer configuration was not applied.
#[derive(Clone, Copy, Debug, PartialEq, Eq, Structural)]
pub enum ConfigError {
    /// The parameters break `buffer_count >= transfer_count >= 1` or
    /// `buffer_size > 0`; the transport was not asked.
    InvalidParams,
    /// The transport refused the configuration with this status.
    TransportRejected(i32),
    /// A channel of the session is still enabled.
    ChannelActive,
}

/// Why a channel could not be enabled.
#[derive(Clone, Copy, Debug, PartialEq, Eq, Structural)]
pub enum EnableError {
    /// No configuration has been applied to the session.
    NotConfigured,
    /// The channel is already enabled on this session.
    ChannelActive,
    /// The transport refused to enable the channel with this status.
    TransportRejected(i32),
}

/// Why a transfer produced no block. A transfer is only possible on an
/// enabled channel: a channel value exists only between a successful enable
/// and the disable that consumes it.
#[derive(Clone, Copy, Debug, PartialEq, Eq, Structural)]
pub enum TransferError {
    /// The transport failed with this status, which is not a timeout.
    TransportError(i32),
}

/// A failure reported while a channel was disabled; the channel is gone regardless.
#[derive(Clone, Copy, Debug, PartialEq, Eq, Structural)]
pub enum DisableError {
    /// The transport reported this negative status for the disable call.
    TransportRejected(i32),
}

/// A failed scalar query or setting (sample rate, bandwidth, frequency, bias tee).
#[derive(Clone, Copy, Debug, PartialEq, Eq, Structural)]
pub enum AccessorError {
    /// The transport reported this non-zero status.
    TransportRejected(i32),
}

} // verus!
