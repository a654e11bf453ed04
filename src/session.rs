use vstd::prelude::*;
use crate::catalog::{BladeRfDevInfo, RawDevInfo, describes};
use crate::channel::StreamingChannel;
use crate::config::{ChannelConfig, params_valid};
use crate::error::{AccessorError, ConfigError, DisableError, EnableError, OpenError, QueryError};
use crate::sample::zero_block;

verus! {

/// What a caller can know of a session.
pub ghost struct SessionView {
    /// Serial of the device, for diagnostics.
    pub serial: Seq<char>,
    /// The configuration in force, if the last one applied was accepted.
    pub config: Option<ChannelConfig>,
    /// Channels enabled and not yet disabled, in the order they were enabled.
    pub active: Seq<u32>,
    /// Channel buffers handed out so far.
    pub allocated: nat,
    /// Channel buffers given back so far.
    pub released: nat,
}

/// Every buffer handed out is either given back or held by an active
/// channel, and no channel is active twice.
pub open spec fn ledger_balanced(s: SessionView) -> bool {
    &&& s.allocated == s.released + s.active.len()
    &&& s.active.no_duplicates()
}

/// The pre-flight answer to a configuration request.
pub open spec fn apply_check(s: SessionView, params: ChannelConfig) -> Result<(), ConfigError> {
    if s.active.len() > 0 {
        Err(ConfigError::ChannelActive)
    } else if !params_valid(params) {
        Err(ConfigError::InvalidParams)
    } else {
        Ok(())
    }
}

/// The pre-flight answer to a request to enable `channel`.
pub open spec fn enable_check(s: SessionView, channel: u32) -> Result<(), EnableError> {
    if s.config is None {
        Err(EnableError::NotConfigured)
    } else if s.active.contains(channel) {
        Err(EnableError::ChannelActive)
    } else {
        Ok(())
    }
}

/// The session after `channel` was enabled: one more buffer handed out.
pub open spec fn after_enable(s: SessionView, channel: u32) -> SessionView {
    SessionView { active: s.active.push(channel), allocated: s.allocated + 1, ..s }
}

/// The session after the active `channel` was disabled: its buffer given back.
pub open spec fn after_disable(s: SessionView, channel: u32) -> SessionView {
    SessionView {
        active: s.active.remove(s.active.index_of(channel)),
        released: s.released + 1,
        ..s
    }
}

/// Enabling a channel and then disabling it hands out exactly one buffer and
/// takes exactly one back, and leaves the session otherwise as it was; the
/// ledger balances after each step. Transfers in between act on the channel
/// alone and leave the session untouched.
pub proof fn lemma_enable_disable_balanced(s: SessionView, channel: u32)
    requires
        ledger_balanced(s),
        enable_check(s, channel) is Ok,
    ensures
        ledger_balanced(after_enable(s, channel)),
        after_enable(s, channel).active.contains(channel),
        ledger_balanced(after_disable(after_enable(s, channel), channel)),
        after_disable(after_enable(s, channel), channel) == (SessionView {
            allocated: s.allocated + 1,
            released: s.released + 1,
            ..s
        }),
{
    let e = after_enable(s, channel);
    let n = s.active.len() as int;
    assert(e.active[n] == channel);
    assert(e.active.contains(channel));
    let j = e.active.index_of(channel);
    assert(e.active[j] == channel);
    assert(j == n);
    assert(e.active.remove(n) =~= s.active);
}

/// While any channel is enabled, a second configuration is refused as
/// `ChannelActive`, whatever its parameters.
pub proof fn lemma_reapply_while_active(s: SessionView, params: ChannelConfig, channel: u32, again: ChannelConfig)
    requires
        ledger_balanced(s),
        apply_check(s, params) is Ok,
        enable_check(SessionView { config: Some(params), ..s }, channel) is Ok,
    ensures
        apply_check(after_enable(SessionView { config: Some(params), ..s }, channel), again)
            == Err::<(), ConfigError>(ConfigError::ChannelActive),
{
}

/// Exclusive ownership of one device's control channel. A value exists only
/// after the transport opened the device, and closing consumes it, so the
/// device is released exactly once and never used after.
pub struct Session {
    serial: String,
    config: Option<ChannelConfig>,
    active: Vec<u32>,
    allocated: Ghost<nat>,
    released: Ghost<nat>,
}

impl View for Session {
    type V = SessionView;

    closed spec fn view(&self) -> SessionView {
        SessionView {
            serial: self.serial@,
            config: self.config,
            active: self.active@,
            allocated: self.allocated@,
            released: self.released@,
        }
    }
}

/// Turns the status of a scalar accessor call (sample rate, bandwidth,
/// frequency, bias tee) into a result: zero is success.
pub fn check_accessor(status: i32) -> (r: Result<(), AccessorError>)
    ensures
        status == 0 ==> r is Ok,
        status != 0 ==> r == Err::<(), AccessorError>(AccessorError::TransportRejected(status)),
{
    if status == 0 {
        Ok(())
    } else {
        Err(AccessorError::TransportRejected(status))
    }
}

impl Session {
    pub open spec fn wf(&self) -> bool {
        ledger_balanced(self@)
    }

    /// Takes the transport's answer to opening the device with this serial:
    /// a negative status means no device matched.
    pub fn open(serial: &str, status: i32) -> (r: Result<Session, OpenError>)
        ensures
            status < 0 ==> r == Err::<Session, OpenError>(OpenError::NotFound(status)),
            status >= 0 ==> r is Ok && r->Ok_0.wf() && r->Ok_0@ == (SessionView {
                serial: serial@,
                config: None,
                active: Seq::empty(),
                allocated: 0,
                released: 0,
            }),
    {
        if status < 0 {
            return Err(OpenError::NotFound(status));
        }
        let s = Session {
            serial: serial.to_string(),
            config: None,
            active: Vec::new(),
            allocated: Ghost(0),
            released: Ghost(0),
        };
        proof {
            assert(s.active@ =~= Seq::<u32>::empty());
        }
        Ok(s)
    }

    /// Serial of the device.
    pub fn serial(&self) -> (r: &str)
        ensures
            r@ == self@.serial,
    {
        self.serial.as_str()
    }

    /// The configuration in force.
    pub fn config(&self) -> (r: Option<ChannelConfig>)
        ensures
            r == self@.config,
    {
        self.config
    }

    /// Whether `channel` is enabled on this session.
    pub fn is_active(&self, channel: u32) -> (r: bool)
        ensures
            r == self@.active.contains(channel),
    {
        let mut k: usize = 0;
        while k < self.active.len()
            invariant
                k <= self.active@.len(),
                forall|i: int| 0 <= i < k ==> self.active@[i] != channel,
            decreases self.active@.len() - k,
        {
            if self.active[k] == channel {
                return true;
            }
            k = k + 1;
        }
        false
    }

    /// Takes the transport's answer to a query of the live descriptor; a
    /// negative status is an error and leaves the session as it is.
    pub fn devinfo(&self, status: i32, raw: &RawDevInfo) -> (r: Result<BladeRfDevInfo, QueryError>)
        ensures
            status < 0 ==> r is Err && r->Err_0 == QueryError::TransportRejected(status),
            status >= 0 ==> r is Ok && describes(r->Ok_0, *raw),
    {
        if status < 0 {
            Err(QueryError::TransportRejected(status))
        } else {
            Ok(BladeRfDevInfo::from(raw))
        }
    }

    /// Pre-flight check of a configuration, made before the transport is asked.
    /// No channel may be enabled; then the parameters must be valid.
    pub fn apply(&self, params: &ChannelConfig) -> (r: Result<(), ConfigError>)
        ensures
            r == apply_check(self@, *params),
    {
        if self.active.len() > 0 {
            Err(ConfigError::ChannelActive)
        } else {
            params.validate()
        }
    }

    /// Takes the transport's answer to a configuration that passed `apply`.
    /// On a negative status the session is left unconfigured.
    pub fn confirm_apply(&mut self, params: ChannelConfig, status: i32) -> (r: Result<(), ConfigError>)
        requires
            old(self).wf(),
            apply_check(old(self)@, params) is Ok,
        ensures
            final(self).wf(),
            status < 0 ==> r == Err::<(), ConfigError>(ConfigError::TransportRejected(status))
                && final(self)@ == (SessionView { config: None, ..old(self)@ }),
            status >= 0 ==> r is Ok && final(self)@ == (SessionView {
                config: Some(params),
                ..old(self)@
            }),
    {
        if status < 0 {
            self.config = None;
            Err(ConfigError::TransportRejected(status))
        } else {
            self.config = Some(params);
            Ok(())
        }
    }

    /// Pre-flight check of a request to enable `channel`.
    pub fn enable(&self, channel: u32) -> (r: Result<(), EnableError>)
        ensures
            r == enable_check(self@, channel),
    {
        if self.config.is_none() {
            Err(EnableError::NotConfigured)
        } else if self.is_active(channel) {
            Err(EnableError::ChannelActive)
        } else {
            Ok(())
        }
    }

    /// Takes the transport's answer to enabling a channel that passed
    /// `enable`. On success the channel gets its buffer, one configured
    /// block long, and the configured timeout.
    pub fn confirm_enable(&mut self, channel: u32, status: i32) -> (r: Result<StreamingChannel, EnableError>)
        requires
            old(self).wf(),
            enable_check(old(self)@, channel) is Ok,
        ensures
            final(self).wf(),
            status < 0 ==> r is Err && r->Err_0 == EnableError::TransportRejected(status)
                && final(self)@ == old(self)@,
            status >= 0 ==> r is Ok && final(self)@ == after_enable(old(self)@, channel)
                && final(self)@.active.contains(channel)
                && r->Ok_0@.index == channel
                && r->Ok_0@.buffer.len() == old(self)@.config->Some_0.buffer_size
                && r->Ok_0@.timeout_ms == old(self)@.config->Some_0.timeout_ms,
    {
        if status < 0 {
            return Err(EnableError::TransportRejected(status));
        }
        let config = match self.config {
            Some(c) => c,
            None => return Err(EnableError::NotConfigured),
        };
        let buffer = zero_block(config.buffer_size as usize);
        let ghost before = self@;
        self.active.push(channel);
        self.allocated = Ghost(self.allocated@ + 1);
        proof {
            assert(self@.active =~= before.active.push(channel));
            assert(self@ == after_enable(before, channel));
            assert(self@.active[before.active.len() as int] == channel);
        }
        Ok(StreamingChannel::new(channel, config.timeout_ms, buffer))
    }

    /// Takes back a channel after the transport was asked to disable it. The
    /// channel and its buffer are gone whatever the transport answered.
    pub fn disable(&mut self, channel: StreamingChannel, status: i32) -> (r: Result<(), DisableError>)
        requires
            old(self).wf(),
        ensures
            final(self).wf(),
            old(self)@.active.contains(channel@.index) ==> final(self)@ == after_disable(
                old(self)@,
                channel@.index,
            ),
            old(self)@.active.contains(channel@.index) ==> !final(self)@.active.contains(channel@.index)
                && final(self)@.active.len() == old(self)@.active.len() - 1,
            !old(self)@.active.contains(channel@.index) ==> final(self)@ == old(self)@,
            status < 0 ==> r == Err::<(), DisableError>(DisableError::TransportRejected(status)),
            status >= 0 ==> r is Ok,
    {
        let index = channel.index();
        let mut k: usize = 0;
        while k < self.active.len() && self.active[k] != index
            invariant
                k <= self.active@.len(),
                forall|i: int| 0 <= i < k ==> self.active@[i] != index,
            decreases self.active@.len() - k,
        {
            k = k + 1;
        }
        if k < self.active.len() {
            let ghost before = self@;
            proof {
                assert(before.active[k as int] == index);
                let j = before.active.index_of(index);
                assert(before.active.contains(index));
                assert(before.active[j] == index);
                assert(j == k as int);
            }
            self.active.remove(k);
            self.released = Ghost(self.released@ + 1);
            proof {
                assert(self@ == after_disable(before, index));
                assert(!self@.active.contains(index)) by {
                    if self@.active.contains(index) {
                        let a = choose|a: int| 0 <= a < self@.active.len() && self@.active[a] == index;
                        let a0 = if a < k { a } else { a + 1 };
                        assert(before.active[a0] == index);
                    }
                }
                assert(self@.active.no_duplicates()) by {
                    assert forall|a: int, b: int|
                        0 <= a < self@.active.len() && 0 <= b < self@.active.len() && a != b
                        implies self@.active[a] != self@.active[b] by {
                        let a0 = if a < k { a } else { a + 1 };
                        let b0 = if b < k { b } else { b + 1 };
                        assert(self@.active[a] == before.active[a0]);
                        assert(self@.active[b] == before.active[b0]);
                    }
                }
            }
        }
        if status < 0 {
            Err(DisableError::TransportRejected(status))
        } else {
            Ok(())
        }
    }

    /// Ends the session. Returns the channels that must be disabled before the
    /// device is released; the device is released whatever they answer.
    pub fn close(self) -> (r: Vec<u32>)
        ensures
            r@ == self@.active,
    {
        self.active
    }
}

} // verus!
