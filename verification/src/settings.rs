//! What the user has chosen: the simulator and the port to listen on.
//!
//! Reading the choice from disk and writing it back is left to the
//! program; this module holds the value and the rules for changing it.

use crate::telemetry::GameType;
use vstd::prelude::*;

verus! {

/// The user's choice of simulator and port.
#[derive(Clone, Copy, Debug, PartialEq, Eq, Structural)]
pub struct AppSettings {
    pub game_type: GameType,
    pub port: u16,
}

impl AppSettings {
    /// The settings of a first start: DiRT Rally 2.0 on its default port.
    pub open spec fn initial() -> AppSettings {
        AppSettings {
            game_type: GameType::DirtRally2,
            port: GameType::DirtRally2.standard_port(),
        }
    }

    /// Selects another simulator. The port stays as it is, also where it
    /// was the default port of the simulator selected before.
    pub fn set_game_type(&mut self, game_type: GameType)
        ensures
            final(self).game_type == game_type,
            final(self).port == old(self).port,
    {
        self.game_type = game_type;
    }

    /// Sets the port. The simulator stays as it is.
    pub fn set_port(&mut self, port: u16)
        ensures
            final(self).port == port,
            final(self).game_type == old(self).game_type,
    {
        self.port = port;
    }

    /// The port to listen on: the one given on the command line if there is
    /// one, the stored one if not.
    pub fn get_effective_port(&self, cli_port: Option<u16>) -> (port: u16)
        ensures
            port == (match cli_port {
                Some(given) => given,
                None => self.port,
            }),
    {
        match cli_port {
            Some(given) => given,
            None => self.port,
        }
    }
}

impl Default for AppSettings {
    fn default() -> (r: AppSettings)
        ensures
            r == AppSettings::initial(),
    {
        AppSettings { game_type: GameType::DirtRally2, port: GameType::DirtRally2.default_port() }
    }
}

} // verus!
