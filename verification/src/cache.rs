//! What is kept between runs: at most one token for each integration.
//!
//! The record's presence is the signal that the user is authenticated.
//! Reading and writing the file is the caller's work.

use vstd::prelude::*;
use crate::describe::Describe;
use crate::text::labelled;
use crate::token::Token;

verus! {

/// What is kept between runs.
#[derive(Debug)]
pub struct Cache {
    pub modules: ModulesCache,
}

/// What each module keeps.
#[derive(Debug)]
pub struct ModulesCache {
    pub spotify: Option<SpotifyCache>,
}

/// What the music integration keeps: its token.
#[derive(Debug)]
pub struct SpotifyCache {
    pub token: Token,
}

/// Why the cache could not be loaded or saved.
#[derive(Debug)]
pub enum CacheError {
    /// The file is no cache; the text is the reader's message.
    FailedToParseToml(String),
    /// The file could not be written; the text is the system's message.
    FailedToWriteFile(String),
    /// The cache could not be put into text; the text is the writer's
    /// message.
    FailedToPrintCache(String),
}

impl Default for ModulesCache {
    fn default() -> (r: Self)
        ensures
            r.spotify is None,
    {
        ModulesCache { spotify: None }
    }
}

impl Default for Cache {
    fn default() -> (r: Self)
        ensures
            r.modules.spotify is None,
    {
        Cache { modules: ModulesCache { spotify: None } }
    }
}

impl Clone for SpotifyCache {
    fn clone(&self) -> (r: Self)
        ensures
            r == *self,
    {
        SpotifyCache { token: self.token.clone() }
    }
}

impl Clone for ModulesCache {
    fn clone(&self) -> (r: Self)
        ensures
            r == *self,
    {
        ModulesCache {
            spotify: match &self.spotify {
                Some(kept) => Some(kept.clone()),
                None => None,
            },
        }
    }
}

impl Clone for Cache {
    fn clone(&self) -> (r: Self)
        ensures
            r == *self,
    {
        Cache { modules: self.modules.clone() }
    }
}

impl Cache {
    /// The token that is kept, where one is.
    pub open spec fn token(self) -> Option<Token> {
        match self.modules.spotify {
            Some(kept) => Some(kept.token),
            None => None,
        }
    }

    /// The cache that a run starts with. `read` is what became of the file:
    /// `None` where it could not be read, which is no failure and gives the
    /// empty cache; else what the reader made of its text.
    pub fn from_file(read: Option<Result<Cache, String>>) -> (r: Result<Cache, CacheError>)
        ensures
            match read {
                Some(Ok(cache)) => r == Ok::<Cache, CacheError>(cache),
                Some(Err(message)) => r == Err::<Cache, CacheError>(
                    CacheError::FailedToParseToml(message),
                ),
                None => r matches Ok(cache) && cache.modules.spotify is None,
            },
    {
        match read {
            Some(Ok(cache)) => Ok(cache),
            Some(Err(message)) => Err(CacheError::FailedToParseToml(message)),
            None => Ok(Cache::default()),
        }
    }
}

impl Describe for CacheError {
    open spec fn text(&self) -> Seq<char> {
        match *self {
            CacheError::FailedToParseToml(message) => "Invalid cache file: "@ + message@,
            CacheError::FailedToWriteFile(message) =>
                "Failed to open file to write to, path: "@ + message@,
            CacheError::FailedToPrintCache(message) =>
                "Failed to convert cache to string for writing: "@ + message@,
        }
    }

    fn to_string(&self) -> (r: String) {
        match self {
            CacheError::FailedToParseToml(message) => labelled(
                "Invalid cache file: ",
                message.as_str(),
            ),
            CacheError::FailedToWriteFile(message) => labelled(
                "Failed to open file to write to, path: ",
                message.as_str(),
            ),
            CacheError::FailedToPrintCache(message) => labelled(
                "Failed to convert cache to string for writing: ",
                message.as_str(),
            ),
        }
    }
}

} // verus!
