//! Configuration: the API key and the default views, resolved from the
//! environment and the configuration file.

use crate::text::{owned, parse_i32, push_str, spec_parse_i32, str_eq};
use crate::types::clone_opt_string;
use vstd::prelude::*;

verus! {

/// Name of the environment variable that holds the API key.
pub const ENV_VAR_NAME: &'static str = "LINEAR_API_KEY";

/// Name of the configuration file inside the configuration directory.
pub const CONFIG_FILE_NAME: &'static str = "config.toml";

/// Name of this program's directory inside the configuration directory.
pub const CONFIG_DIR_NAME: &'static str = "ortholinear";

/// Why the configuration could not be loaded.
#[derive(Debug)]
pub enum ConfigError {
    /// Neither the environment nor the configuration file gives an API key.
    MissingApiKey { config_path: String },
    /// No configuration directory is known.
    ConfigDirNotFound,
    /// The configuration file could not be read.
    FileRead { path: String, message: String },
    /// The configuration file is not valid TOML of the expected shape.
    Parse { path: String, message: String },
}

/// The text that explains a configuration error.
pub open spec fn config_error_text(e: ConfigError) -> Seq<char> {
    match e {
        ConfigError::MissingApiKey { config_path } => "No API key found.\n\nTo authenticate, either:\n1. Set the LINEAR_API_KEY environment variable, or\n2. Add to "@
            + config_path@ + ": api_key = \"lin_api_...\""@,
        ConfigError::ConfigDirNotFound => "Could not determine config directory. Ensure HOME or XDG_CONFIG_HOME is set."@,
        ConfigError::FileRead { path, message } => "Failed to read config file at "@ + path@
            + ": "@ + message@,
        ConfigError::Parse { path, message } => "Failed to parse config file at "@ + path@
            + ": "@ + message@,
    }
}

impl ConfigError {
    /// The text that explains the error.
    pub fn message(&self) -> (r: String)
        ensures
            r@ == config_error_text(*self),
    {
        match self {
            ConfigError::MissingApiKey { config_path } => {
                let mut r = owned(
                    "No API key found.\n\nTo authenticate, either:\n1. Set the LINEAR_API_KEY environment variable, or\n2. Add to ",
                );
                push_str(&mut r, config_path.as_str());
                push_str(&mut r, ": api_key = \"lin_api_...\"");
                r
            },
            ConfigError::ConfigDirNotFound => owned(
                "Could not determine config directory. Ensure HOME or XDG_CONFIG_HOME is set.",
            ),
            ConfigError::FileRead { path, message } => {
                let mut r = owned("Failed to read config file at ");
                push_str(&mut r, path.as_str());
                push_str(&mut r, ": ");
                push_str(&mut r, message.as_str());
                r
            },
            ConfigError::Parse { path, message } => {
                let mut r = owned("Failed to parse config file at ");
                push_str(&mut r, path.as_str());
                push_str(&mut r, ": ");
                push_str(&mut r, message.as_str());
                r
            },
        }
    }
}

/// Which cycle to show first.
#[derive(Debug, Clone, Copy, PartialEq, Eq, Structural)]
pub enum CycleDefault {
    /// No default: the first cycle of the team.
    Unset,
    /// The cycle whose dates include today.
    Current,
    /// The cycle with this number.
    Number(i32),
}

impl Default for CycleDefault {
    fn default() -> (r: Self)
        ensures
            r == CycleDefault::Unset,
    {
        CycleDefault::Unset
    }
}

/// Which issues to show first.
#[derive(Debug, Clone, Copy, PartialEq, Eq, Structural)]
pub enum ViewMode {
    /// The issues of a cycle.
    Cycle,
    /// The backlog of the team.
    Backlog,
}

impl Default for ViewMode {
    fn default() -> (r: Self)
        ensures
            r == ViewMode::Cycle,
    {
        ViewMode::Cycle
    }
}

/// Whose issues to show first.
#[derive(Debug, PartialEq, Eq)]
pub enum AssigneeDefault {
    /// No default: everybody's.
    Unset,
    /// The signed-in user's.
    Me,
    /// The named user's.
    Name(String),
}

impl Clone for AssigneeDefault {
    fn clone(&self) -> (r: Self)
        ensures
            r == *self,
    {
        match self {
            AssigneeDefault::Unset => AssigneeDefault::Unset,
            AssigneeDefault::Me => AssigneeDefault::Me,
            AssigneeDefault::Name(n) => AssigneeDefault::Name(n.clone()),
        }
    }
}

impl Default for AssigneeDefault {
    fn default() -> (r: Self)
        ensures
            r == AssigneeDefault::Unset,
    {
        AssigneeDefault::Unset
    }
}

/// The default view settings.
#[derive(Debug)]
pub struct DefaultsConfig {
    pub team: Option<String>,
    pub cycle: CycleDefault,
    pub assignee: AssigneeDefault,
    pub view_mode: ViewMode,
}

/// Default settings: the first team, its first cycle, all assignees, the
/// cycle view.
pub open spec fn no_defaults() -> DefaultsConfig {
    DefaultsConfig {
        team: None,
        cycle: CycleDefault::Unset,
        assignee: AssigneeDefault::Unset,
        view_mode: ViewMode::Cycle,
    }
}

impl Default for DefaultsConfig {
    fn default() -> (r: Self)
        ensures
            r == no_defaults(),
    {
        DefaultsConfig {
            team: None,
            cycle: CycleDefault::Unset,
            assignee: AssigneeDefault::Unset,
            view_mode: ViewMode::Cycle,
        }
    }
}

impl Clone for DefaultsConfig {
    fn clone(&self) -> (r: Self)
        ensures
            r == *self,
    {
        DefaultsConfig {
            team: clone_opt_string(&self.team),
            cycle: self.cycle,
            assignee: self.assignee.clone(),
            view_mode: self.view_mode,
        }
    }
}

/// The `[defaults]` table of the configuration file, as written.
#[derive(Debug)]
pub struct DefaultsConfigFile {
    pub team: Option<String>,
    pub cycle: Option<String>,
    pub assignee: Option<String>,
    pub view_mode: Option<String>,
}

/// The configuration file, as written.
#[derive(Debug)]
pub struct ConfigFile {
    pub api_key: Option<String>,
    pub defaults: Option<DefaultsConfigFile>,
}

/// The resolved configuration.
#[derive(Debug)]
pub struct Config {
    pub api_key: String,
    pub defaults: DefaultsConfig,
}

impl Clone for Config {
    fn clone(&self) -> (r: Self)
        ensures
            r == *self,
    {
        Config { api_key: self.api_key.clone(), defaults: self.defaults.clone() }
    }
}

/// The cycle setting a configuration value stands for: absent or `none` is the
/// first cycle, `current` the current one, a number that cycle; anything else
/// falls back to the first cycle.
pub open spec fn spec_cycle_default(value: Option<Seq<char>>) -> CycleDefault {
    match value {
        None => CycleDefault::Unset,
        Some(s) => if s == "none"@ {
            CycleDefault::Unset
        } else if s == "current"@ {
            CycleDefault::Current
        } else {
            match spec_parse_i32(s) {
                Some(n) => CycleDefault::Number(n),
                None => CycleDefault::Unset,
            }
        },
    }
}

/// The view of an optional text.
pub open spec fn opt_str_view(value: Option<&str>) -> Option<Seq<char>> {
    match value {
        Some(s) => Some(s@),
        None => None,
    }
}

/// Reads the `cycle` setting.
pub fn parse_cycle_default(value: Option<&str>) -> (r: CycleDefault)
    ensures
        r == spec_cycle_default(opt_str_view(value)),
{
    match value {
        None => CycleDefault::Unset,
        Some(s) => {
            if str_eq(s, "none") {
                CycleDefault::Unset
            } else if str_eq(s, "current") {
                CycleDefault::Current
            } else {
                match parse_i32(s) {
                    Some(n) => CycleDefault::Number(n),
                    None => CycleDefault::Unset,
                }
            }
        },
    }
}

/// Whether an assignee setting is what a configuration value stands for:
/// absent or `none` is everybody, `me` the signed-in user, anything else a
/// name.
pub open spec fn assignee_default_of(value: Option<Seq<char>>, a: AssigneeDefault) -> bool {
    match value {
        None => a == AssigneeDefault::Unset,
        Some(s) => if s == "none"@ {
            a == AssigneeDefault::Unset
        } else if s == "me"@ {
            a == AssigneeDefault::Me
        } else {
            a matches AssigneeDefault::Name(n) && n@ == s
        },
    }
}

/// Reads the `assignee` setting.
pub fn parse_assignee_default(value: Option<&str>) -> (r: AssigneeDefault)
    ensures
        assignee_default_of(opt_str_view(value), r),
{
    match value {
        None => AssigneeDefault::Unset,
        Some(s) => {
            if str_eq(s, "none") {
                AssigneeDefault::Unset
            } else if str_eq(s, "me") {
                AssigneeDefault::Me
            } else {
                AssigneeDefault::Name(owned(s))
            }
        },
    }
}

/// The view mode a configuration value stands for: `backlog` is the backlog,
/// anything else (or nothing) the cycle view.
pub open spec fn spec_view_mode(value: Option<Seq<char>>) -> ViewMode {
    match value {
        Some(s) => if s == "backlog"@ {
            ViewMode::Backlog
        } else {
            ViewMode::Cycle
        },
        None => ViewMode::Cycle,
    }
}

/// Reads the `view_mode` setting.
pub fn parse_view_mode(value: Option<&str>) -> (r: ViewMode)
    ensures
        r == spec_view_mode(opt_str_view(value)),
{
    match value {
        None => ViewMode::Cycle,
        Some(s) => {
            if str_eq(s, "cycle") {
                proof {
                    reveal_strlit("cycle");
                    reveal_strlit("backlog");
                    assert(s@[0] != "backlog"@[0]);
                }
                ViewMode::Cycle
            } else if str_eq(s, "backlog") {
                ViewMode::Backlog
            } else {
                ViewMode::Cycle
            }
        },
    }
}

fn opt_as_str(o: &Option<String>) -> (r: Option<&str>)
    ensures
        opt_str_view(r) == crate::types::opt_view(*o),
{
    match o {
        Some(s) => Some(s.as_str()),
        None => None,
    }
}

/// Whether `d` is what the `[defaults]` table `f` configures.
pub open spec fn defaults_from_file(f: DefaultsConfigFile, d: DefaultsConfig) -> bool {
    &&& d.team == f.team
    &&& d.cycle == spec_cycle_default(crate::types::opt_view(f.cycle))
    &&& assignee_default_of(crate::types::opt_view(f.assignee), d.assignee)
    &&& d.view_mode == spec_view_mode(crate::types::opt_view(f.view_mode))
}

/// The default view settings that a `[defaults]` table configures.
pub fn defaults_config_of(f: &DefaultsConfigFile) -> (r: DefaultsConfig)
    ensures
        defaults_from_file(*f, r),
{
    DefaultsConfig {
        team: clone_opt_string(&f.team),
        cycle: parse_cycle_default(opt_as_str(&f.cycle)),
        assignee: parse_assignee_default(opt_as_str(&f.assignee)),
        view_mode: parse_view_mode(opt_as_str(&f.view_mode)),
    }
}

/// The API key in use: a non-empty environment value first, then the
/// configuration file's.
pub open spec fn chosen_api_key(env_key: Option<String>, file: Option<ConfigFile>) -> Option<
    String,
> {
    match env_key {
        Some(k) if k@.len() > 0 => Some(k),
        _ => match file {
            Some(f) => f.api_key,
            None => None,
        },
    }
}

/// Resolves the configuration from the environment's API key, the parsed
/// configuration file (if it could be read and parsed) and the file's path:
/// a non-empty environment key wins over the file's; without a key the result
/// is `MissingApiKey`; the defaults come from the file's `[defaults]` table,
/// or are the plain defaults when there is none.
pub fn resolve_config(env_key: Option<String>, file: Option<ConfigFile>, config_path: String) -> (r:
    Result<Config, ConfigError>)
    ensures
        match chosen_api_key(env_key, file) {
            None => r == Err::<Config, ConfigError>(
                ConfigError::MissingApiKey { config_path: config_path },
            ),
            Some(k) => r matches Ok(c) && c.api_key == k && match file {
                Some(f) if f.defaults is Some => defaults_from_file(f.defaults.unwrap(), c.defaults),
                _ => c.defaults == no_defaults(),
            },
        },
{
    let env_key = match env_key {
        Some(k) => {
            if k.as_str().is_empty() {
                None
            } else {
                Some(k)
            }
        },
        None => None,
    };
    let (file_key, file_defaults) = match file {
        Some(f) => (f.api_key, f.defaults),
        None => (None, None),
    };
    let api_key = match env_key {
        Some(k) => k,
        None => match file_key {
            Some(k) => k,
            None => {
                return Err(ConfigError::MissingApiKey { config_path });
            },
        },
    };
    let defaults = match &file_defaults {
        Some(d) => defaults_config_of(d),
        None => DefaultsConfig::default(),
    };
    Ok(Config { api_key, defaults })
}

/// Resolves the configuration when no configuration directory is known: a
/// non-empty environment key is enough, with no default views; without one
/// the directory's error stands.
pub fn resolve_without_config_dir(env_key: Option<String>, dir_error: ConfigError) -> (r: Result<
    Config,
    ConfigError,
>)
    ensures
        match env_key {
            Some(k) if k@.len() > 0 => r matches Ok(c) && c.api_key == k && c.defaults
                == no_defaults(),
            _ => r == Err::<Config, ConfigError>(dir_error),
        },
{
    match env_key {
        Some(k) => {
            if k.as_str().is_empty() {
                Err(dir_error)
            } else {
                Ok(Config { api_key: k, defaults: DefaultsConfig::default() })
            }
        },
        None => Err(dir_error),
    }
}

/// The base configuration directory: a non-empty `XDG_CONFIG_HOME` value,
/// else the platform's configuration directory, else none.
pub open spec fn chosen_config_base(xdg: Option<String>, platform_dir: Option<String>) -> Option<
    String,
> {
    match xdg {
        Some(x) if x@.len() > 0 => Some(x),
        _ => platform_dir,
    }
}

/// Chooses the base configuration directory from the value of
/// `XDG_CONFIG_HOME` and the platform's configuration directory; fails with
/// `ConfigDirNotFound` when neither is known.
pub fn config_base_dir(xdg: Option<String>, platform_dir: Option<String>) -> (r: Result<
    String,
    ConfigError,
>)
    ensures
        match chosen_config_base(xdg, platform_dir) {
            Some(d) => r == Ok::<String, ConfigError>(d),
            None => r == Err::<String, ConfigError>(ConfigError::ConfigDirNotFound),
        },
{
    match xdg {
        Some(x) => {
            if !x.as_str().is_empty() {
                return Ok(x);
            }
        },
        None => {},
    }
    match platform_dir {
        Some(d) => Ok(d),
        None => Err(ConfigError::ConfigDirNotFound),
    }
}

/// A non-empty API key in the environment is used whatever the file says;
/// an empty one counts as none, so the file's key is used.
pub proof fn environment_key_wins(env_key: String, file: Option<ConfigFile>)
    ensures
        env_key@.len() > 0 ==> chosen_api_key(Some(env_key), file) == Some(env_key),
        env_key@.len() == 0 ==> chosen_api_key(Some(env_key), file) == chosen_api_key(None, file),
{
}

} // verus!
