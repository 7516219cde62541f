//! The start of an orchestrator that does nothing, and its policies.

use vstd::prelude::*;
use vstd::string::*;

use crate::paths::{file_name, parent};
use crate::text::concat3;

verus! {

/// What the orchestrator does when it is started.
#[derive(Debug)]
pub enum Startup {
    /// Tell what it was built from.
    ShowVersion,
    /// Tell its version.
    ShowShortVersion,
    /// Run, with the configuration at the path given.
    Run(String),
    /// Nothing: there is no configuration.
    NoConfig,
}

impl Startup {
    /// What is said if there is no configuration.
    pub fn no_config_message() -> (r: &'static str)
        ensures
            r@ == "Required option '--config' not provided; see '--help'"@,
    {
        "Required option '--config' not provided; see '--help'"
    }
}

/// What the orchestrator does when it is started.
pub open spec fn started(version: bool, short_version: bool, config: Option<String>) -> Startup {
    if version {
        Startup::ShowVersion
    } else if short_version {
        Startup::ShowShortVersion
    } else {
        match config {
            Some(path) => Startup::Run(path),
            None => Startup::NoConfig,
        }
    }
}

/// What the orchestrator does when it is started, given its command line.
pub fn startup(version: bool, short_version: bool, config: Option<String>) -> (r: Startup)
    ensures
        r == (if version {
            Startup::ShowVersion
        } else if short_version {
            Startup::ShowShortVersion
        } else {
            match config {
                Some(path) => Startup::Run(path),
                None => Startup::NoConfig,
            }
        }),
        r == started(version, short_version, config),
{
    if version {
        Startup::ShowVersion
    } else if short_version {
        Startup::ShowShortVersion
    } else {
        match config {
            Some(path) => Startup::Run(path),
            None => Startup::NoConfig,
        }
    }
}

/// Which part of a path is missing.
#[derive(Clone, Copy, Debug, PartialEq, Eq, Structural)]
pub enum PathPart {
    Dirname,
    Basename,
}

/// A path that cannot be logged to.
#[derive(Debug)]
pub struct LogPathError {
    pub part: PathPart,
    pub path: String,
}

impl LogPathError {
    /// The error in words.
    pub fn message(&self) -> (r: String)
        ensures
            r@ == (match self.part {
                PathPart::Dirname => "failed to extract dirname from '"@,
                PathPart::Basename => "failed to extract basename from '"@,
            }) + self.path@ + "'"@,
    {
        match self.part {
            PathPart::Dirname => concat3(
                "failed to extract dirname from '",
                self.path.as_str(),
                "'",
            ),
            PathPart::Basename => concat3(
                "failed to extract basename from '",
                self.path.as_str(),
                "'",
            ),
        }
    }
}

/// A file that is logged to.
#[derive(Debug)]
pub struct LogFile {
    pub dir: String,
    pub name: String,
}

/// A path, taken apart.
pub open spec fn splits_into(path: String, r: Result<LogFile, LogPathError>) -> bool {
    match (
        crate::paths::parent_of(path@),
        crate::paths::file_name_of(path@),
    ) {
        (None, _) => r is Err && r->Err_0 == (LogPathError { part: PathPart::Dirname, path }),
        (Some(_), None) => r is Err && r->Err_0 == (LogPathError {
            part: PathPart::Basename,
            path,
        }),
        (Some(dir), Some(name)) => r is Ok && r->Ok_0.dir@ == dir && r->Ok_0.name@ == name,
    }
}

fn split_log_path(path: &String) -> (r: Result<LogFile, LogPathError>)
    ensures
        splits_into(*path, r),
{
    let dir = match parent(path.as_str()) {
        Some(dir) => dir,
        None => {
            return Err(LogPathError { part: PathPart::Dirname, path: path.clone() });
        },
    };
    match file_name(path.as_str()) {
        Some(name) => Ok(LogFile { dir, name }),
        None => Err(LogPathError { part: PathPart::Basename, path: path.clone() }),
    }
}

/// Which events of spans are logged.
#[derive(Clone, Copy, Debug, PartialEq, Eq, Structural)]
pub struct SpanEvents {
    /// That a span is made, and that it is closed.
    pub new_and_close: bool,
    /// That a span is entered, and that it is left.
    pub active: bool,
}

/// Where and what is logged.
#[derive(Debug)]
pub struct LogPlan {
    pub span_events: SpanEvents,
    pub stderr: bool,
    pub file: Option<LogFile>,
    pub flame: Option<LogFile>,
}

/// An optional path, taken apart.
pub open spec fn optional_splits_into(path: Option<String>, file: Option<LogFile>) -> bool {
    match path {
        Some(path) => file is Some && splits_into(path, Ok(file->0)),
        None => file is None,
    }
}

/// Where and what is logged, given the command line: spans are followed closely if their flame
/// graph is wanted. The log's own path is looked at first.
pub fn init_tracing(
    log_stderr: bool,
    log_file: &Option<String>,
    flame_file: &Option<String>,
    span_events: bool,
) -> (r: Result<LogPlan, LogPathError>)
    ensures
        match r {
            Ok(plan) => {
                &&& plan.span_events == (SpanEvents {
                    new_and_close: span_events,
                    active: flame_file is Some,
                })
                &&& plan.stderr == log_stderr
                &&& optional_splits_into(*log_file, plan.file)
                &&& optional_splits_into(*flame_file, plan.flame)
            },
            Err(err) => {
                ||| log_file is Some && splits_into(log_file->0, Err(err))
                ||| flame_file is Some && splits_into(flame_file->0, Err(err)) && exists|file|
                    #[trigger] optional_splits_into(*log_file, file)
            },
        },
{
    let file = match log_file {
        Some(path) => match split_log_path(path) {
            Ok(file) => Some(file),
            Err(err) => {
                return Err(err);
            },
        },
        None => None,
    };
    assert(optional_splits_into(*log_file, file));
    let flame = match flame_file {
        Some(path) => match split_log_path(path) {
            Ok(file) => Some(file),
            Err(err) => {
                return Err(err);
            },
        },
        None => None,
    };
    Ok(
        LogPlan {
            span_events: SpanEvents { new_and_close: span_events, active: flame_file.is_some() },
            stderr: log_stderr,
            file,
            flame,
        },
    )
}

/// How sandboxes are kept alive.
#[derive(Debug)]
pub enum KeepAliveConfig {
    /// For a fixed time in nanoseconds, or for ever.
    Fixed { duration: Option<u64> },
    /// In any other way.
    Other,
}

/// Where snapshots are placed.
#[derive(Debug)]
pub enum PlacementConfig {
    /// In a fixed directory, if there is one.
    Fixed { path: Option<String> },
    /// In any other way.
    Other,
}

/// Why an orchestrator cannot be configured.
#[derive(Debug)]
pub enum ConfigError {
    NotFixedKeepAlive,
    NotFixedPlacement,
    /// Whether the directory exists could not be found out.
    CheckPath(String),
    /// The directory could not be made.
    MakePath(String),
}

impl ConfigError {
    /// The error in words, without its cause.
    pub open spec fn text(self) -> Seq<char> {
        match self {
            ConfigError::NotFixedKeepAlive =>
                "Configuration error: not a KeepAliveConfig::Fixed"@,
            ConfigError::NotFixedPlacement => "Configuration error: not a PlacementConfig::Fixed"@,
            ConfigError::CheckPath(_) =>
                "Fixed Placement Algorithm: failed to check if path {p:?} exists"@,
            ConfigError::MakePath(_) =>
                "Fixed Placement Algorithm: failed to recursively mkdir {p:?}"@,
        }
    }

    /// The error in words, without its cause.
    pub fn message(&self) -> (r: &'static str)
        ensures
            r@ == self.text(),
    {
        match self {
            ConfigError::NotFixedKeepAlive => "Configuration error: not a KeepAliveConfig::Fixed",
            ConfigError::NotFixedPlacement => "Configuration error: not a PlacementConfig::Fixed",
            ConfigError::CheckPath(_) =>
                "Fixed Placement Algorithm: failed to check if path {p:?} exists",
            ConfigError::MakePath(_) =>
                "Fixed Placement Algorithm: failed to recursively mkdir {p:?}",
        }
    }
}

/// How long sandboxes are kept alive.
pub fn init_keepalive(config: &KeepAliveConfig) -> (r: Result<Option<u64>, ConfigError>)
    ensures
        r == (match *config {
            KeepAliveConfig::Fixed { duration } => Ok(duration),
            KeepAliveConfig::Other => Err(ConfigError::NotFixedKeepAlive),
        }),
{
    match config {
        KeepAliveConfig::Fixed { duration } => Ok(*duration),
        KeepAliveConfig::Other => Err(ConfigError::NotFixedKeepAlive),
    }
}

/// The directory that snapshots are placed in, if there is one.
pub open spec fn placed_in(config: PlacementConfig) -> Result<Option<String>, ConfigError> {
    match config {
        PlacementConfig::Fixed { path: Some(path) } => if path@.len() > 0 {
            Ok(Some(path))
        } else {
            Ok(None)
        },
        PlacementConfig::Fixed { path: None } => Ok(None),
        PlacementConfig::Other => Err(ConfigError::NotFixedPlacement),
    }
}

/// The directory that snapshots are placed in, which has to be there: `None` if there is none,
/// or if its path is empty.
pub fn placement_path(config: &PlacementConfig) -> (r: Result<Option<String>, ConfigError>)
    ensures
        r == (match *config {
            PlacementConfig::Fixed { path: Some(path) } => if path@.len() > 0 {
                Ok(Some(path))
            } else {
                Ok(None)
            },
            PlacementConfig::Fixed { path: None } => Ok(None),
            PlacementConfig::Other => Err(ConfigError::NotFixedPlacement),
        }),
        r == placed_in(*config),
{
    match config {
        PlacementConfig::Fixed { path: Some(path) } => if path.as_str().unicode_len() > 0 {
            Ok(Some(path.clone()))
        } else {
            Ok(None)
        },
        PlacementConfig::Fixed { path: None } => Ok(None),
        PlacementConfig::Other => Err(ConfigError::NotFixedPlacement),
    }
}

/// Whether the directory has to be made, given whether it exists.
pub fn needs_making(exists: Result<bool, String>) -> (r: Result<bool, ConfigError>)
    ensures
        r == (match exists {
            Ok(exists) => Ok(!exists),
            Err(err) => Err(ConfigError::CheckPath(err)),
        }),
{
    match exists {
        Ok(exists) => Ok(!exists),
        Err(err) => Err(ConfigError::CheckPath(err)),
    }
}

/// The directory that snapshots are placed in, given what came of making it.
pub fn init_placement(path: String, made: Result<(), String>) -> (r: Result<String, ConfigError>)
    ensures
        r == (match made {
            Ok(_) => Ok(path),
            Err(err) => Err(ConfigError::MakePath(err)),
        }),
{
    match made {
        Ok(_) => Ok(path),
        Err(err) => Err(ConfigError::MakePath(err)),
    }
}

/// A path can be logged to if and only if it has a directory and a name. If both are missing the
/// directory is complained of.
pub proof fn law_what_can_be_logged_to(path: String, r: Result<LogFile, LogPathError>)
    requires
        splits_into(path, r),
    ensures
        r is Ok <==> crate::paths::parent_of(path@) is Some && crate::paths::file_name_of(
            path@,
        ) is Some,
        r is Ok ==> Some(r->Ok_0.dir@) == crate::paths::parent_of(path@) && Some(r->Ok_0.name@)
            == crate::paths::file_name_of(path@),
        r is Err ==> r->Err_0.path == path,
        r is Err ==> (r->Err_0.part == PathPart::Dirname <==> crate::paths::parent_of(path@) is None),
{
}

/// Snapshots are placed in the directory that is configured, unless its path is empty; a placement
/// that is not fixed is an error.
pub proof fn law_where_snapshots_are_placed(config: PlacementConfig)
    ensures
        placed_in(config) is Err <==> config is Other,
        placed_in(config) is Err ==> placed_in(config)->Err_0 == ConfigError::NotFixedPlacement,
        config matches PlacementConfig::Fixed { path } ==> {
            &&& path is Some && path->0@.len() > 0 ==> placed_in(config)->Ok_0 == path
            &&& path is None || path->0@.len() == 0 ==> placed_in(config)->Ok_0 is None
        },
{
}

/// An orchestrator that is asked for its version does nothing else, and one that runs does so with
/// the configuration that it was given.
pub proof fn law_what_is_started(version: bool, short_version: bool, config: Option<String>)
    ensures
        version <==> started(version, short_version, config) is ShowVersion,
        !version && short_version <==> started(version, short_version, config) is ShowShortVersion,
        !version && !short_version && config is Some <==> started(version, short_version, config)
            is Run,
        started(version, short_version, config) matches Startup::Run(path) ==> config == Some(path),
{
}

} // verus!
