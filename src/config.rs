use vstd::prelude::*;

verus! {

/// The three inputs the controller is started with.
#[derive(Debug)]
pub struct Options {
    /// Host name of the button service.
    pub server: String,
    /// Address of the button to subscribe to.
    pub button: String,
    /// User name on the light backend.
    pub user: String,
}

/// Port of the button service on its host.
pub const SERVICE_PORT: u16 = 5551;

/// Channel id used for the one managed button.
pub const DEFAULT_CHANNEL_ID: u32 = 0;

/// Light toggled by a click.
pub const DEFAULT_LIGHT_ID: u64 = 12;

/// Auto-disconnect timeout asked of the service, large enough that it does not
/// drop the subscription in normal operation.
pub const DEFAULT_AUTO_DISCONNECT_TIME: i16 = 11111;

/// Wait between the info request and the channel creation, in milliseconds.
pub const DEFAULT_SETTLE_DELAY_MS: u64 = 1000;

/// Tunable constants of the controller.
#[derive(Clone, Copy, Debug, PartialEq, Eq, Structural)]
pub struct Config {
    pub channel_id: u32,
    pub light_id: u64,
    pub auto_disconnect_time: i16,
    pub settle_delay_ms: u64,
}

impl Config {
    /// A usable configuration waits a non-zero time between the handshake's
    /// two commands.
    pub open spec fn wf(self) -> bool {
        self.settle_delay_ms > 0
    }

    pub open spec fn spec_default() -> Config {
        Config {
            channel_id: DEFAULT_CHANNEL_ID,
            light_id: DEFAULT_LIGHT_ID,
            auto_disconnect_time: DEFAULT_AUTO_DISCONNECT_TIME,
            settle_delay_ms: DEFAULT_SETTLE_DELAY_MS,
        }
    }

    /// A configuration with the given settle delay, refused when it is zero.
    pub fn with_settle_delay(self, ms: u64) -> (r: Option<Config>)
        ensures
            ms == 0 <==> r is None,
            r matches Some(c) ==> c == (Config { settle_delay_ms: ms, ..self }) && c.wf(),
    {
        if ms == 0 {
            None
        } else {
            Some(Config { settle_delay_ms: ms, ..self })
        }
    }
}

impl Default for Config {
    fn default() -> (r: Config)
        ensures
            r == Config::spec_default(),
            r.wf(),
    {
        Config {
            channel_id: DEFAULT_CHANNEL_ID,
            light_id: DEFAULT_LIGHT_ID,
            auto_disconnect_time: DEFAULT_AUTO_DISCONNECT_TIME,
            settle_delay_ms: DEFAULT_SETTLE_DELAY_MS,
        }
    }
}

} // verus!
