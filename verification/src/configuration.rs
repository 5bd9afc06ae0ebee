//! The loaded configuration, and where it lives on disk.
//!
//! Reading and parsing the configuration file is the caller's business; a
//! `Config` holds the already-validated watchlist.  The path helpers take
//! the platform's configuration directory as text and stay pure.

use vstd::prelude::*;

use crate::entities::WatchedGame;
use vstd::string::StringExecFns;

verus! {

/// The watchlist as loaded from the configuration file.
#[derive(Debug)]
pub struct Config {
    pub watched_games: Vec<WatchedGame>,
}

impl Config {
    pub fn new(watched_games: Vec<WatchedGame>) -> (r: Self)
        ensures
            r.watched_games@ == watched_games@,
    {
        Self { watched_games }
    }

    pub fn watched_games(&self) -> (r: Vec<WatchedGame>)
        ensures
            r@ == self.watched_games@,
    {
        let mut r: Vec<WatchedGame> = Vec::new();
        let mut i: usize = 0;
        while i < self.watched_games.len()
            invariant
                i <= self.watched_games@.len(),
                r@ == self.watched_games@.subrange(0, i as int),
            decreases self.watched_games@.len() - i,
        {
            r.push(self.watched_games[i].clone());
            proof {
                assert(self.watched_games@.subrange(0, (i + 1) as int) =~= self
                    .watched_games@
                    .subrange(0, i as int)
                    .push(self.watched_games@[i as int]));
            }
            i += 1;
        }
        proof {
            assert(self.watched_games@.subrange(0, self.watched_games@.len() as int) =~= self
                .watched_games@);
        }
        r
    }
}

/// The optional debug switch of the configuration file; a missing value
/// means debugging is off.
#[derive(Debug)]
pub struct DebugConfig {
    pub debug: Option<bool>,
}

impl DebugConfig {
    pub fn new(debug: Option<bool>) -> (r: Self)
        ensures
            r.debug == debug,
    {
        Self { debug }
    }

    pub fn debug_enabled(&self) -> (r: bool)
        ensures
            r == (self.debug == Some(true)),
    {
        match self.debug {
            Some(b) => b,
            None => false,
        }
    }
}

/// The application's own directory under the platform's configuration
/// directory.
pub fn sweetch_dir(config_dir: &str) -> (r: String)
    ensures
        r@ == config_dir@ + ("/sweetch-bot")@,
{
    let mut p = String::new();
    p.append(config_dir);
    p.append("/sweetch-bot");
    proof {
        assert(p@ =~= config_dir@ + ("/sweetch-bot")@);
    }
    p
}

/// The configuration file's path under the platform's configuration
/// directory.
pub fn config_path(config_dir: &str) -> (r: String)
    ensures
        r@ == config_dir@ + ("/sweetch-bot")@ + ("/sweetch-bot.toml")@,
{
    let mut p = sweetch_dir(config_dir);
    p.append("/sweetch-bot.toml");
    p
}

} // verus!
