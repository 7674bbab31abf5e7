//! State management configuration of an AT command client, and the length
//! computations behind the `AtatCmd` buffers.
//!
//! [`Config`] configures both the ingress manager and the AT client; some of
//! its parameters can be changed on the fly.

mod client;
mod cmd;

pub use client::Mode;
pub use cmd::{command_len, spec_command_len};

use vstd::prelude::*;

verus! {

/// The abstract value of a [`Config`]: its mode and its three durations, in
/// milliseconds.
pub struct ConfigView {
    pub mode: Mode,
    pub cmd_cooldown: u32,
    pub tx_timeout: u32,
    pub flush_timeout: u32,
}

impl ConfigView {
    /// The configuration that `Config::default` gives: blocking mode, a
    /// command cooldown of 20 ms, and no transmit or flush timeout.
    pub open spec fn initial() -> ConfigView {
        ConfigView { mode: Mode::Blocking, cmd_cooldown: 20, tx_timeout: 0, flush_timeout: 0 }
    }

    pub open spec fn with_mode(self, mode: Mode) -> ConfigView {
        ConfigView { mode, ..self }
    }

    pub open spec fn with_cmd_cooldown(self, ms: u32) -> ConfigView {
        ConfigView { cmd_cooldown: ms, ..self }
    }

    pub open spec fn with_tx_timeout(self, ms: u32) -> ConfigView {
        ConfigView { tx_timeout: ms, ..self }
    }

    pub open spec fn with_flush_timeout(self, ms: u32) -> ConfigView {
        ConfigView { flush_timeout: ms, ..self }
    }
}

/// Configuration of both the ingress manager, and the AT client. Some of these
/// parameters can be changed on the fly, through issuing a command from the
/// client.
#[derive(Debug, Copy, Clone, Hash, PartialEq, Eq, Structural)]
pub struct Config {
    mode: Mode,
    cmd_cooldown: u32,
    tx_timeout: u32,
    flush_timeout: u32,
}

impl View for Config {
    type V = ConfigView;

    closed spec fn view(&self) -> ConfigView {
        ConfigView {
            mode: self.mode,
            cmd_cooldown: self.cmd_cooldown,
            tx_timeout: self.tx_timeout,
            flush_timeout: self.flush_timeout,
        }
    }
}

impl Default for Config {
    fn default() -> (c: Self)
        ensures
            c@ == ConfigView::initial(),
            c@.mode == Mode::Blocking,
            c@.cmd_cooldown == 20,
            c@.tx_timeout == 0,
            c@.flush_timeout == 0,
    {
        Self { mode: Mode::Blocking, cmd_cooldown: 20, tx_timeout: 0, flush_timeout: 0 }
    }
}

impl Config {
    /// The default configuration, in the given mode.
    #[must_use]
    pub fn new(mode: Mode) -> (c: Self)
        ensures
            c@ == ConfigView::initial().with_mode(mode),
            c@.mode == mode,
            c@.cmd_cooldown == 20,
            c@.tx_timeout == 0,
            c@.flush_timeout == 0,
    {
        Self { mode, ..Self::default() }
    }

    /// Sets the transmit timeout, in milliseconds, and keeps the rest.
    #[must_use]
    pub fn tx_timeout(self, ms: u32) -> (c: Self)
        ensures
            c@ == self@.with_tx_timeout(ms),
            c@.tx_timeout == ms,
            c@.mode == self@.mode,
            c@.flush_timeout == self@.flush_timeout,
            c@.cmd_cooldown == self@.cmd_cooldown,
    {
        Self { tx_timeout: ms, ..self }
    }

    /// Sets the flush timeout, in milliseconds, and keeps the rest.
    #[must_use]
    pub fn flush_timeout(self, ms: u32) -> (c: Self)
        ensures
            c@ == self@.with_flush_timeout(ms),
            c@.flush_timeout == ms,
            c@.mode == self@.mode,
            c@.tx_timeout == self@.tx_timeout,
            c@.cmd_cooldown == self@.cmd_cooldown,
    {
        Self { flush_timeout: ms, ..self }
    }

    /// Sets the cooldown between two commands, in milliseconds, and keeps the
    /// rest.
    #[must_use]
    pub fn cmd_cooldown(self, ms: u32) -> (c: Self)
        ensures
            c@ == self@.with_cmd_cooldown(ms),
            c@.cmd_cooldown == ms,
            c@.mode == self@.mode,
            c@.tx_timeout == self@.tx_timeout,
            c@.flush_timeout == self@.flush_timeout,
    {
        Self { cmd_cooldown: ms, ..self }
    }
}

/// Two configurations with the same mode and the same durations are equal:
/// the view loses nothing of a `Config`.
pub proof fn lemma_view_determines_config(a: Config, b: Config)
    requires
        a@ == b@,
    ensures
        a == b,
{
}

/// Each setter stores exactly the value it is given in its own parameter and
/// keeps every other parameter, whatever the configuration it starts from.
pub proof fn lemma_setting_stores_value(c: ConfigView, ms: u32, mode: Mode)
    ensures
        c.with_mode(mode).mode == mode,
        c.with_mode(mode).cmd_cooldown == c.cmd_cooldown,
        c.with_mode(mode).tx_timeout == c.tx_timeout,
        c.with_mode(mode).flush_timeout == c.flush_timeout,
        c.with_tx_timeout(ms).tx_timeout == ms,
        c.with_tx_timeout(ms).mode == c.mode,
        c.with_tx_timeout(ms).cmd_cooldown == c.cmd_cooldown,
        c.with_tx_timeout(ms).flush_timeout == c.flush_timeout,
        c.with_flush_timeout(ms).flush_timeout == ms,
        c.with_flush_timeout(ms).mode == c.mode,
        c.with_flush_timeout(ms).cmd_cooldown == c.cmd_cooldown,
        c.with_flush_timeout(ms).tx_timeout == c.tx_timeout,
        c.with_cmd_cooldown(ms).cmd_cooldown == ms,
        c.with_cmd_cooldown(ms).mode == c.mode,
        c.with_cmd_cooldown(ms).tx_timeout == c.tx_timeout,
        c.with_cmd_cooldown(ms).flush_timeout == c.flush_timeout,
{
}

/// Configurations built in different modes differ, and two settings of one
/// parameter to different values give different configurations.
pub proof fn lemma_different_inputs_give_different_configs(
    c: ConfigView,
    m1: Mode,
    m2: Mode,
    a: u32,
    b: u32,
)
    requires
        m1 != m2,
        a != b,
    ensures
        ConfigView::initial().with_mode(m1) != ConfigView::initial().with_mode(m2),
        c.with_mode(m1) != c.with_mode(m2),
        c.with_tx_timeout(a) != c.with_tx_timeout(b),
        c.with_flush_timeout(a) != c.with_flush_timeout(b),
        c.with_cmd_cooldown(a) != c.with_cmd_cooldown(b),
{
    lemma_setting_stores_value(c, a, m1);
    lemma_setting_stores_value(c, b, m2);
    lemma_setting_stores_value(ConfigView::initial(), a, m1);
    lemma_setting_stores_value(ConfigView::initial(), b, m2);
}

/// `Config::new(Mode::Blocking)` is the default configuration.
pub proof fn lemma_new_blocking_is_default()
    ensures
        ConfigView::initial().with_mode(Mode::Blocking) == ConfigView::initial(),
{
}

/// Setting two different parameters gives the same configuration in either
/// order.
pub proof fn lemma_settings_commute(c: ConfigView, a: u32, b: u32, mode: Mode)
    ensures
        c.with_tx_timeout(a).with_flush_timeout(b) == c.with_flush_timeout(b).with_tx_timeout(a),
        c.with_tx_timeout(a).with_cmd_cooldown(b) == c.with_cmd_cooldown(b).with_tx_timeout(a),
        c.with_flush_timeout(a).with_cmd_cooldown(b) == c.with_cmd_cooldown(b).with_flush_timeout(
            a,
        ),
        c.with_mode(mode).with_tx_timeout(a) == c.with_tx_timeout(a).with_mode(mode),
        c.with_mode(mode).with_flush_timeout(a) == c.with_flush_timeout(a).with_mode(mode),
        c.with_mode(mode).with_cmd_cooldown(a) == c.with_cmd_cooldown(a).with_mode(mode),
{
}

/// Of two settings of the same parameter, the later one holds.
pub proof fn lemma_last_setting_wins(c: ConfigView, a: u32, b: u32)
    ensures
        c.with_tx_timeout(a).with_tx_timeout(b) == c.with_tx_timeout(b),
        c.with_flush_timeout(a).with_flush_timeout(b) == c.with_flush_timeout(b),
        c.with_cmd_cooldown(a).with_cmd_cooldown(b) == c.with_cmd_cooldown(b),
{
}

/// Setting a parameter to the value it already has changes nothing.
pub proof fn lemma_setting_current_value_is_identity(c: ConfigView)
    ensures
        c.with_tx_timeout(c.tx_timeout) == c,
        c.with_flush_timeout(c.flush_timeout) == c,
        c.with_cmd_cooldown(c.cmd_cooldown) == c,
        c.with_mode(c.mode) == c,
{
}

} // verus!
