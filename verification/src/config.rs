//! The project's configuration and what makes it usable.

use vstd::prelude::*;
use vstd::string::*;

verus! {

/// The name of the configuration file.
pub const TOML_FILE: &'static str = "jaxon.toml";

/// The name of the environment variable that holds the credential.
pub const API_KEY_VARIABLE: &'static str = "JAXON_API_KEY";

/// The configuration of a project.
#[derive(Debug)]
pub struct Config {
    pub project: Project,
    pub generation: Generation,
    pub files: Files,
}

/// Which universe of the remote platform the catalog belongs to.
#[derive(Clone, Copy, Debug, PartialEq, Eq, Structural)]
pub struct Project {
    pub universe_id: i64,
}

/// Options of code generation.
#[derive(Clone, Copy, Debug, PartialEq, Eq, Structural)]
pub struct Generation {
    pub typescript: bool,
}

/// Where generated code goes.
#[derive(Debug)]
pub struct Files {
    pub output: String,
}

/// Mathematical value of a [`Config`].
pub struct ConfigView {
    pub universe_id: int,
    pub typescript: bool,
    pub output: Seq<char>,
}

impl View for Config {
    type V = ConfigView;

    open spec fn view(&self) -> ConfigView {
        ConfigView {
            universe_id: self.project.universe_id as int,
            typescript: self.generation.typescript,
            output: self.files.output@,
        }
    }
}

impl Default for Project {
    fn default() -> (project: Project)
        ensures
            project.universe_id == 0,
    {
        Project { universe_id: 0 }
    }
}

impl Default for Generation {
    fn default() -> (generation: Generation)
        ensures
            !generation.typescript,
    {
        Generation { typescript: false }
    }
}

impl Default for Files {
    fn default() -> (files: Files)
        ensures
            files.output@ == Seq::<char>::empty(),
    {
        Files { output: String::new() }
    }
}

impl Default for Config {
    fn default() -> (config: Config)
        ensures
            config@ == (ConfigView { universe_id: 0, typescript: false, output: Seq::empty() }),
    {
        Config {
            project: Project { universe_id: 0 },
            generation: Generation { typescript: false },
            files: Files { output: String::new() },
        }
    }
}

/// Why a configuration cannot be used.
#[derive(Clone, Copy, Debug, PartialEq, Eq, Structural)]
pub enum ConfigError {
    /// The universe is missing: its identifier is zero.
    InvalidUniverseId,
    /// The credential is not set.
    MissingApiKey,
}

/// The text that reports a configuration error to the user.
pub open spec fn config_error_message(error: ConfigError) -> Seq<char> {
    match error {
        ConfigError::InvalidUniverseId =>
            "Config missing required field or invalid: universe_id"@,
        ConfigError::MissingApiKey => "JAXON_API_KEY not set in .env or environment"@,
    }
}

impl ConfigError {
    /// Renders the error for the user.
    pub fn message(&self) -> (text: String)
        ensures
            text@ == config_error_message(*self),
    {
        match self {
            ConfigError::InvalidUniverseId => String::from_str(
                "Config missing required field or invalid: universe_id",
            ),
            ConfigError::MissingApiKey => String::from_str(
                "JAXON_API_KEY not set in .env or environment",
            ),
        }
    }
}

/// Accepts a configuration as it was read: it is usable exactly when it names
/// a universe, that is, when the identifier is not zero.
pub fn load_config(config: Config) -> (loaded: Result<Config, ConfigError>)
    ensures
        config.project.universe_id != 0 ==> loaded == Ok::<Config, ConfigError>(config),
        config.project.universe_id == 0 ==> loaded == Err::<Config, ConfigError>(
            ConfigError::InvalidUniverseId,
        ),
{
    if config.project.universe_id == 0 {
        Err(ConfigError::InvalidUniverseId)
    } else {
        Ok(config)
    }
}

/// Accepts the credential as the environment gave it: it has to be set.
pub fn load_env(api_key: Option<String>) -> (loaded: Result<String, ConfigError>)
    ensures
        match api_key {
            Some(key) => loaded == Ok::<String, ConfigError>(key),
            None => loaded == Err::<String, ConfigError>(ConfigError::MissingApiKey),
        },
{
    match api_key {
        Some(key) => Ok(key),
        None => Err(ConfigError::MissingApiKey),
    }
}

/// The configuration file of a new project: no universe yet, code in Luau,
/// written to the shared products module.
pub open spec fn initial_toml() -> Seq<char> {
    "[project]\nuniverse_id = 0\n\n[generation]\ntypescript = false\n\n[files]\noutput = \"src/Shared/Products.luau\"\n"@
}

/// The content that a new configuration file is written with.
pub fn init_toml() -> (content: String)
    ensures
        content@ == initial_toml(),
{
    String::from_str(
        "[project]\nuniverse_id = 0\n\n[generation]\ntypescript = false\n\n[files]\noutput = \"src/Shared/Products.luau\"\n",
    )
}

} // verus!
