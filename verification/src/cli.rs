//! The program as a whole: what it is asked for, and how a run ends.

use vstd::prelude::*;
use crate::cache::{Cache, CacheError};
use crate::config::{Config, ConfigError};
use crate::describe::Describe;
use crate::music::{MusicArgs, MusicError};
use crate::text::labelled;

verus! {

/// The arguments of the program.
#[derive(Debug)]
pub struct AerialUtilsArgs {
    pub module: Modules,
}

/// What the program can be asked for.
#[derive(Debug)]
pub enum Modules {
    /// The music module.
    Music(MusicArgs),
    /// Print the descriptions of the commands.
    CommandSpecs,
}

/// Why a run failed, by the layer that failed.
#[derive(Debug)]
pub enum AppError {
    CacheError(CacheError),
    ConfigError(ConfigError),
    MusicError(MusicError),
}

impl Describe for AppError {
    open spec fn text(&self) -> Seq<char> {
        match *self {
            AppError::CacheError(cause) => "Cache error: "@ + cause.text(),
            AppError::ConfigError(cause) => "Config error: "@ + cause.text(),
            AppError::MusicError(cause) => "Music module error: "@ + cause.text(),
        }
    }

    fn to_string(&self) -> (r: String) {
        match self {
            AppError::CacheError(cause) => labelled("Cache error: ", cause.to_string().as_str()),
            AppError::ConfigError(cause) => labelled("Config error: ", cause.to_string().as_str()),
            AppError::MusicError(cause) => labelled(
                "Music module error: ",
                cause.to_string().as_str(),
            ),
        }
    }
}

/// What is reported of a run that failed: the whole chain of causes, behind
/// one heading.
pub open spec fn failure_text(e: AppError) -> Seq<char> {
    "MODULE FAILED: "@ + e.text()
}

/// What is reported of a run that failed.
pub fn failure_report(e: &AppError) -> (r: String)
    ensures
        r@ == failure_text(*e),
{
    labelled("MODULE FAILED: ", e.to_string().as_str())
}

/// How a run ends. `done` is how the module ended, `saved` how the cache
/// was written afterwards. The cache is written after every run; a failure
/// to write it is the run's failure, else the module's outcome stands.
pub fn run_module(done: Result<(), MusicError>, saved: Result<(), CacheError>) -> (r: Result<
    (),
    AppError,
>)
    ensures
        match saved {
            Err(e) => r == Err::<(), AppError>(AppError::CacheError(e)),
            Ok(_) => match done {
                Ok(_) => r is Ok,
                Err(e) => r == Err::<(), AppError>(AppError::MusicError(e)),
            },
        },
{
    match saved {
        Err(e) => Err(AppError::CacheError(e)),
        Ok(_) => match done {
            Ok(_) => Ok(()),
            Err(e) => Err(AppError::MusicError(e)),
        },
    }
}

/// What a run starts with: the cache and the configuration as they were
/// loaded. A cache that is no cache fails the run first, then a
/// configuration that is none; nothing else has been done by then.
pub fn load(cache: Result<Cache, CacheError>, config: Result<Config, ConfigError>) -> (r: Result<
    (Cache, Config),
    AppError,
>)
    ensures
        match cache {
            Err(e) => r == Err::<(Cache, Config), AppError>(AppError::CacheError(e)),
            Ok(kept) => match config {
                Err(e) => r == Err::<(Cache, Config), AppError>(AppError::ConfigError(e)),
                Ok(set) => r == Ok::<(Cache, Config), AppError>((kept, set)),
            },
        },
{
    match cache {
        Err(e) => Err(AppError::CacheError(e)),
        Ok(kept) => match config {
            Err(e) => Err(AppError::ConfigError(e)),
            Ok(set) => Ok((kept, set)),
        },
    }
}

} // verus!
