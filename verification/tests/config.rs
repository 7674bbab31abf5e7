use atat::{command_len, Config, Mode};

#[test]
fn new_blocking_equals_default() {
    assert_eq!(Config::new(Mode::Blocking), Config::default());
}

#[test]
fn new_keeps_mode_and_defaults() {
    let c = Config::new(Mode::Timeout);
    assert_ne!(c, Config::default());
    assert_eq!(
        c,
        Config::new(Mode::Timeout)
            .cmd_cooldown(20)
            .tx_timeout(0)
            .flush_timeout(0)
    );
}

#[test]
fn default_cooldown_is_twenty_ms() {
    assert_eq!(Config::default().cmd_cooldown(20), Config::default());
    assert_ne!(Config::default().cmd_cooldown(21), Config::default());
    assert_eq!(Config::default().tx_timeout(0), Config::default());
    assert_eq!(Config::default().flush_timeout(0), Config::default());
}

#[test]
fn setters_change_only_their_field() {
    let c = Config::new(Mode::NonBlocking).tx_timeout(1000);
    assert_ne!(c, Config::new(Mode::NonBlocking));
    assert_eq!(c.tx_timeout(0), Config::new(Mode::NonBlocking));
    let d = Config::new(Mode::NonBlocking).flush_timeout(7);
    assert_ne!(c, d);
    assert_eq!(d.flush_timeout(0), Config::new(Mode::NonBlocking));
}

#[test]
fn settings_commute() {
    let a = Config::new(Mode::Timeout).tx_timeout(5).flush_timeout(6).cmd_cooldown(7);
    let b = Config::new(Mode::Timeout).cmd_cooldown(7).flush_timeout(6).tx_timeout(5);
    assert_eq!(a, b);
}

#[test]
fn last_setting_wins() {
    let a = Config::default().tx_timeout(5).tx_timeout(9);
    assert_eq!(a, Config::default().tx_timeout(9));
    let b = Config::default().cmd_cooldown(1).cmd_cooldown(2);
    assert_eq!(b, Config::default().cmd_cooldown(2));
    let c = Config::default().flush_timeout(3).flush_timeout(4);
    assert_eq!(c, Config::default().flush_timeout(4));
}

#[test]
fn setting_extreme_values() {
    let a = Config::default().tx_timeout(u32::MAX).flush_timeout(u32::MAX).cmd_cooldown(0);
    assert_eq!(a, Config::default().cmd_cooldown(0).flush_timeout(u32::MAX).tx_timeout(u32::MAX));
}

#[test]
fn command_len_plain() {
    assert_eq!(command_len(b"AT", b"+CSGT", b"\r\n", false, false), 9);
}

#[test]
fn command_len_with_separator_and_quotes() {
    assert_eq!(command_len(b"AT", b"+CSGT", b"\r\n", true, false), 10);
    assert_eq!(command_len(b"AT", b"+CSGT", b"\r\n", false, true), 11);
    assert_eq!(command_len(b"AT", b"+CSGT", b"\r\n", true, true), 12);
}

#[test]
fn command_len_empty() {
    assert_eq!(command_len(b"", b"", b"", false, false), 0);
}
