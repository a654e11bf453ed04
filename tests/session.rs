use bladerf::config::{ChannelConfig, ChannelLayout, SampleFormat};
use bladerf::catalog::RawDevInfo;
use bladerf::error::{AccessorError, ConfigError, DisableError, EnableError, OpenError, QueryError};
use bladerf::session::{check_accessor, Session};

fn small_config() -> ChannelConfig {
    ChannelConfig {
        format: SampleFormat::Sc16Q11Meta,
        layout: ChannelLayout::RxX1,
        buffer_size: 8,
        buffer_count: 4,
        transfer_count: 2,
        timeout_ms: 250,
    }
}

fn configured() -> Session {
    let mut s = Session::open("ABC123", 0).unwrap();
    let c = small_config();
    assert_eq!(s.apply(&c), Ok(()));
    assert_eq!(s.confirm_apply(c, 0), Ok(()));
    s
}

#[test]
fn open_then_close_disables_nothing() {
    let s = Session::open("ABC123", 0).unwrap();
    assert_eq!(s.serial(), "ABC123");
    assert!(s.config().is_none());
    let to_disable = s.close();
    assert!(to_disable.is_empty());
}

#[test]
fn open_negative_status_is_not_found() {
    assert!(matches!(Session::open("ABC123", -7), Err(OpenError::NotFound(-7))));
}

#[test]
fn apply_more_transfers_than_buffers_is_invalid() {
    let s = Session::open("ABC123", 0).unwrap();
    let mut c = small_config();
    c.buffer_count = 4;
    c.transfer_count = 16;
    assert_eq!(s.apply(&c), Err(ConfigError::InvalidParams));
    assert_eq!(c.validate(), Err(ConfigError::InvalidParams));
}

#[test]
fn apply_zero_transfers_or_zero_size_is_invalid() {
    let s = Session::open("ABC123", 0).unwrap();
    let mut c = small_config();
    c.transfer_count = 0;
    assert_eq!(s.apply(&c), Err(ConfigError::InvalidParams));
    let mut d = small_config();
    d.buffer_size = 0;
    assert_eq!(s.apply(&d), Err(ConfigError::InvalidParams));
    let mut e = small_config();
    e.buffer_count = 2;
    assert_eq!(s.apply(&e), Ok(()));
}

#[test]
fn default_receive_configuration() {
    let c = ChannelConfig::receive_default();
    assert_eq!(c.buffer_size, 16384);
    assert_eq!(c.buffer_count, 64);
    assert_eq!(c.transfer_count, 16);
    assert_eq!(c.timeout_ms, 0);
    assert_eq!(c.layout, ChannelLayout::RxX1);
    assert_eq!(c.format, SampleFormat::Sc16Q11Meta);
    assert_eq!(c.validate(), Ok(()));
}

#[test]
fn rejected_configuration_leaves_session_unconfigured() {
    let mut s = Session::open("ABC123", 0).unwrap();
    let c = small_config();
    assert_eq!(s.apply(&c), Ok(()));
    assert_eq!(s.confirm_apply(c, -3), Err(ConfigError::TransportRejected(-3)));
    assert!(s.config().is_none());
    assert_eq!(s.enable(0), Err(EnableError::NotConfigured));
}

#[test]
fn enable_before_configuration_is_refused() {
    let s = Session::open("ABC123", 0).unwrap();
    assert_eq!(s.enable(0), Err(EnableError::NotConfigured));
}

#[test]
fn second_apply_while_channel_enabled_is_channel_active() {
    let mut s = configured();
    assert_eq!(s.enable(0), Ok(()));
    let ch = s.confirm_enable(0, 0).unwrap();
    assert_eq!(s.apply(&small_config()), Err(ConfigError::ChannelActive));
    assert_eq!(s.disable(ch, 0), Ok(()));
    assert_eq!(s.apply(&small_config()), Ok(()));
}

#[test]
fn enabling_an_active_channel_is_refused() {
    let mut s = configured();
    let ch = s.confirm_enable(1, 0).unwrap();
    assert_eq!(ch.index(), 1);
    assert!(s.is_active(1));
    assert_eq!(s.enable(1), Err(EnableError::ChannelActive));
    assert_eq!(s.enable(0), Ok(()));
}

#[test]
fn enable_rejected_by_transport() {
    let mut s = configured();
    assert!(matches!(s.confirm_enable(0, -5), Err(EnableError::TransportRejected(-5))));
    assert!(!s.is_active(0));
}

#[test]
fn enabled_channel_has_one_configured_block() {
    let mut s = configured();
    let ch = s.confirm_enable(0, 0).unwrap();
    assert_eq!(ch.block_len(), 8);
    assert_eq!(ch.timeout_ms(), 250);
}

#[test]
fn disable_releases_channel_even_when_transport_fails() {
    let mut s = configured();
    let ch = s.confirm_enable(0, 0).unwrap();
    assert_eq!(s.disable(ch, -1), Err(DisableError::TransportRejected(-1)));
    assert!(!s.is_active(0));
    assert!(s.close().is_empty());
}

#[test]
fn close_lists_channels_still_enabled() {
    let mut s = configured();
    let _a = s.confirm_enable(0, 0).unwrap();
    let b = s.confirm_enable(1, 0).unwrap();
    let _c = s.confirm_enable(2, 0).unwrap();
    assert_eq!(s.disable(b, 0), Ok(()));
    assert_eq!(s.close(), vec![0, 2]);
}

#[test]
fn devinfo_query() {
    let s = Session::open("ABC123", 0).unwrap();
    let mut serial = b"ABC123".to_vec();
    serial.resize(33, 0);
    let raw = RawDevInfo {
        backend: 1,
        serial,
        usb_bus: 3,
        usb_addr: 4,
        instance: 0,
        manufacturer: vec![0; 33],
        product: vec![0; 33],
    };
    let d = s.devinfo(0, &raw).unwrap();
    assert_eq!(d.serial, "ABC123");
    assert_eq!(d.manufacturer, "");
    assert!(matches!(s.devinfo(-1, &raw), Err(QueryError::TransportRejected(-1))));
}

#[test]
fn accessor_status() {
    assert_eq!(check_accessor(0), Ok(()));
    assert_eq!(check_accessor(-8), Err(AccessorError::TransportRejected(-8)));
    assert_eq!(check_accessor(1), Err(AccessorError::TransportRejected(1)));
}
