use vstd::prelude::*;

use crate::config::{
    BootstrapOverrides,
    ConfigOverrides,
    MatrixOverrides,
    PotatomeshOverrides,
    StateOverrides,
};

verus! {

/// Command-line flags of the bridge, as parsed.
#[derive(Clone, Debug, Default)]
pub struct Cli {
    pub config_path: Option<String>,
    pub state_file: Option<String>,
    pub potatomesh_base_url: Option<String>,
    pub potatomesh_poll_interval_secs: Option<u64>,
    pub matrix_homeserver: Option<String>,
    pub matrix_as_token: Option<String>,
    pub matrix_server_name: Option<String>,
    pub matrix_room_id: Option<String>,
    /// Force container defaults on.
    pub container_defaults: bool,
    /// Force container defaults off.
    pub no_container_defaults: bool,
}

/// The container-defaults choice of the flags: forced on, forced off, or
/// left to detection.
pub open spec fn container_choice(on: bool, off: bool) -> Option<bool> {
    if on {
        Some(true)
    } else if off {
        Some(false)
    } else {
        None
    }
}

impl Cli {
    /// Converts the flags to the overrides applied while loading the
    /// configuration.
    pub fn into_overrides(self) -> (r: BootstrapOverrides)
        ensures
            r.config_path == self.config_path,
            r.container_defaults == container_choice(
                self.container_defaults,
                self.no_container_defaults,
            ),
            r.values.potatomesh.base_url == self.potatomesh_base_url,
            r.values.potatomesh.poll_interval_secs == self.potatomesh_poll_interval_secs,
            r.values.matrix.homeserver == self.matrix_homeserver,
            r.values.matrix.as_token == self.matrix_as_token,
            r.values.matrix.server_name == self.matrix_server_name,
            r.values.matrix.room_id == self.matrix_room_id,
            r.values.state.state_file == self.state_file,
    {
        let container_defaults = if self.container_defaults {
            Some(true)
        } else if self.no_container_defaults {
            Some(false)
        } else {
            None
        };
        BootstrapOverrides {
            config_path: self.config_path,
            container_defaults,
            values: ConfigOverrides {
                potatomesh: PotatomeshOverrides {
                    base_url: self.potatomesh_base_url,
                    poll_interval_secs: self.potatomesh_poll_interval_secs,
                },
                matrix: MatrixOverrides {
                    homeserver: self.matrix_homeserver,
                    as_token: self.matrix_as_token,
                    server_name: self.matrix_server_name,
                    room_id: self.matrix_room_id,
                },
                state: StateOverrides { state_file: self.state_file },
            },
        }
    }
}

} // verus!
