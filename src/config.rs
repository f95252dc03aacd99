use vstd::prelude::*;

verus! {

#[derive(Clone, Debug)]
pub struct PotatomeshConfig {
    pub base_url: String,
    pub poll_interval_secs: u64,
}

#[derive(Clone, Debug)]
pub struct MatrixConfig {
    pub homeserver: String,
    pub as_token: String,
    pub server_name: String,
    pub room_id: String,
}

#[derive(Clone, Debug)]
pub struct StateConfig {
    pub state_file: String,
}

/// Bridge configuration.
#[derive(Clone, Debug)]
pub struct Config {
    pub potatomesh: PotatomeshConfig,
    pub matrix: MatrixConfig,
    pub state: StateConfig,
}

#[derive(Clone, Debug, Default)]
pub struct PotatomeshOverrides {
    pub base_url: Option<String>,
    pub poll_interval_secs: Option<u64>,
}

#[derive(Clone, Debug, Default)]
pub struct MatrixOverrides {
    pub homeserver: Option<String>,
    pub as_token: Option<String>,
    pub server_name: Option<String>,
    pub room_id: Option<String>,
}

#[derive(Clone, Debug, Default)]
pub struct StateOverrides {
    pub state_file: Option<String>,
}

/// Values that replace those read from the configuration file.
#[derive(Clone, Debug, Default)]
pub struct ConfigOverrides {
    pub potatomesh: PotatomeshOverrides,
    pub matrix: MatrixOverrides,
    pub state: StateOverrides,
}

/// What is known before the configuration file is read.
#[derive(Clone, Debug, Default)]
pub struct BootstrapOverrides {
    pub config_path: Option<String>,
    pub container_defaults: Option<bool>,
    pub values: ConfigOverrides,
}

/// `o` when it is present, else `v`.
pub open spec fn overridden<T>(v: T, o: Option<T>) -> T {
    match o {
        Some(x) => x,
        None => v,
    }
}

fn pick_string(v: String, o: Option<String>) -> (r: String)
    ensures
        r == overridden(v, o),
{
    match o {
        Some(x) => x,
        None => v,
    }
}

/// Path of the configuration file when none is given.
pub const DEFAULT_CONFIG_PATH: &'static str = "Config.toml";

/// Path of the configuration file inside a container when none is given.
pub const CONTAINER_CONFIG_PATH: &'static str = "/app/Config.toml";

/// The configuration file to read: the one given, else the container or the
/// plain default.
pub fn resolve_config_path(config_path: Option<String>, container_defaults: bool) -> (r: String)
    ensures
        config_path is Some ==> r == config_path->0,
        config_path is None && container_defaults ==> r@ == CONTAINER_CONFIG_PATH@,
        config_path is None && !container_defaults ==> r@ == DEFAULT_CONFIG_PATH@,
{
    match config_path {
        Some(p) => p,
        None => if container_defaults {
            String::from_str(CONTAINER_CONFIG_PATH)
        } else {
            String::from_str(DEFAULT_CONFIG_PATH)
        },
    }
}

impl Config {
    /// The configuration with every present override applied.
    pub fn apply_overrides(self, o: ConfigOverrides) -> (r: Config)
        ensures
            r.potatomesh.base_url == overridden(self.potatomesh.base_url, o.potatomesh.base_url),
            r.potatomesh.poll_interval_secs == overridden(
                self.potatomesh.poll_interval_secs,
                o.potatomesh.poll_interval_secs,
            ),
            r.matrix.homeserver == overridden(self.matrix.homeserver, o.matrix.homeserver),
            r.matrix.as_token == overridden(self.matrix.as_token, o.matrix.as_token),
            r.matrix.server_name == overridden(self.matrix.server_name, o.matrix.server_name),
            r.matrix.room_id == overridden(self.matrix.room_id, o.matrix.room_id),
            r.state.state_file == overridden(self.state.state_file, o.state.state_file),
    {
        let poll = match o.potatomesh.poll_interval_secs {
            Some(x) => x,
            None => self.potatomesh.poll_interval_secs,
        };
        Config {
            potatomesh: PotatomeshConfig {
                base_url: pick_string(self.potatomesh.base_url, o.potatomesh.base_url),
                poll_interval_secs: poll,
            },
            matrix: MatrixConfig {
                homeserver: pick_string(self.matrix.homeserver, o.matrix.homeserver),
                as_token: pick_string(self.matrix.as_token, o.matrix.as_token),
                server_name: pick_string(self.matrix.server_name, o.matrix.server_name),
                room_id: pick_string(self.matrix.room_id, o.matrix.room_id),
            },
            state: StateConfig { state_file: pick_string(self.state.state_file, o.state.state_file) },
        }
    }
}

} // verus!
