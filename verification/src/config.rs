//! Credentials of the Cloudflare account and where they come from.
//!
//! Reading the configuration file, the `.env` file and the process
//! environment is the program's edge; what is decided from what was read
//! stands here. The priority is: the configuration file, then `.env`, then
//! the process environment.
use vstd::prelude::*;

verus! {

/// The API token and the zone that every request is made with.
#[derive(Debug, Clone)]
pub struct Config {
    pub cloudflare_api_token: String,
    pub cloudflare_zone_id: String,
}

/// Why no configuration could be put together from the environment.
#[derive(Debug, Clone, Copy, PartialEq, Eq, Structural)]
pub enum ConfigError {
    MissingApiToken,
    MissingZoneId,
}

/// The text of a configuration error, as the user sees it.
pub open spec fn config_error_text(e: ConfigError) -> Seq<char> {
    match e {
        ConfigError::MissingApiToken =>
            "CLOUDFLARE_API_TOKEN not set in config file, .env, or environment variables"@,
        ConfigError::MissingZoneId =>
            "CLOUDFLARE_ZONE_ID not set in config file, .env, or environment variables"@,
    }
}

impl ConfigError {
    /// The message shown when the configuration cannot be loaded.
    pub fn to_string(&self) -> (s: String)
        ensures
            s@ == config_error_text(*self),
    {
        match self {
            ConfigError::MissingApiToken => String::from_str(
                "CLOUDFLARE_API_TOKEN not set in config file, .env, or environment variables",
            ),
            ConfigError::MissingZoneId => String::from_str(
                "CLOUDFLARE_ZONE_ID not set in config file, .env, or environment variables",
            ),
        }
    }
}

/// The path of the configuration file below the home directory, one
/// component per item.
pub open spec fn spec_config_path_parts() -> Seq<Seq<char>> {
    seq![".config"@, "cloudflaredns"@, "config.yaml"@]
}

impl Config {
    /// A configuration from the two values that a configuration file holds.
    pub fn new(api_token: String, zone_id: String) -> (c: Config)
        ensures
            c.cloudflare_api_token@ == api_token@,
            c.cloudflare_zone_id@ == zone_id@,
    {
        Config { cloudflare_api_token: api_token, cloudflare_zone_id: zone_id }
    }

    /// The configuration taken from the environment variables
    /// `CLOUDFLARE_API_TOKEN` and `CLOUDFLARE_ZONE_ID`, given as the values
    /// they hold (`None` where a variable is not set). The token is looked
    /// at first: where both are missing, the error names the token.
    pub fn from_env_values(api_token: Option<String>, zone_id: Option<String>) -> (r: Result<
        Config,
        ConfigError,
    >)
        ensures
            api_token is None ==> r == Err::<Config, ConfigError>(ConfigError::MissingApiToken),
            api_token is Some && zone_id is None ==> r == Err::<Config, ConfigError>(
                ConfigError::MissingZoneId,
            ),
            api_token is Some && zone_id is Some ==> r is Ok,
            r matches Ok(c) ==> c.cloudflare_api_token@ == api_token->0@
                && c.cloudflare_zone_id@ == zone_id->0@,
    {
        match api_token {
            None => Err(ConfigError::MissingApiToken),
            Some(token) => match zone_id {
                None => Err(ConfigError::MissingZoneId),
                Some(zone) => Ok(Config::new(token, zone)),
            },
        }
    }

    /// The value of a setting: the one from `.env` where it has one, else the
    /// one from the process environment.
    pub fn first_set(from_dotenv: Option<String>, from_env: Option<String>) -> (r: Option<String>)
        ensures
            r == match from_dotenv {
                Some(v) => Some(v),
                None => from_env,
            },
    {
        match from_dotenv {
            Some(v) => Some(v),
            None => from_env,
        }
    }

    /// The configuration in force, by priority: the one read from the
    /// configuration file where that succeeded; else each of the two settings
    /// from `.env`, or where `.env` lacks it from the process environment.
    pub fn resolve(
        from_file: Option<Config>,
        dotenv_token: Option<String>,
        dotenv_zone: Option<String>,
        env_token: Option<String>,
        env_zone: Option<String>,
    ) -> (r: Result<Config, ConfigError>)
        ensures
            from_file matches Some(f) ==> r matches Ok(c) && c.cloudflare_api_token@
                == f.cloudflare_api_token@ && c.cloudflare_zone_id@ == f.cloudflare_zone_id@,
            from_file is None ==> ({
                let token = match dotenv_token {
                    Some(v) => Some(v),
                    None => env_token,
                };
                let zone = match dotenv_zone {
                    Some(v) => Some(v),
                    None => env_zone,
                };
                &&& token is None ==> r == Err::<Config, ConfigError>(ConfigError::MissingApiToken)
                &&& token is Some && zone is None ==> r == Err::<Config, ConfigError>(
                    ConfigError::MissingZoneId,
                )
                &&& token is Some && zone is Some ==> (r matches Ok(c)
                    && c.cloudflare_api_token@ == token->0@ && c.cloudflare_zone_id@ == zone->0@)
            }),
    {
        match from_file {
            Some(f) => Ok(f),
            None => Config::from_env_values(
                Config::first_set(dotenv_token, env_token),
                Config::first_set(dotenv_zone, env_zone),
            ),
        }
    }

    /// The components of the configuration file's path below the home
    /// directory: `.config/cloudflaredns/config.yaml`.
    pub fn config_path_parts() -> (parts: Vec<String>)
        ensures
            parts@.len() == 3,
            forall|i: int| 0 <= i < 3 ==> #[trigger] parts@[i]@ == spec_config_path_parts()[i],
    {
        let mut parts: Vec<String> = Vec::new();
        parts.push(String::from_str(".config"));
        parts.push(String::from_str("cloudflaredns"));
        parts.push(String::from_str("config.yaml"));
        parts
    }
}

} // verus!
