//! Process configuration and the defaults of its optional settings.

use vstd::prelude::*;
use vstd::string::*;

verus! {

/// Settings of one bot process.
#[derive(Clone)]
pub struct Config {
    /// Token of the chat account that the bot signs in with.
    pub discord_token: String,
    /// The one user whose voice presence the bot follows.
    pub discord_user_id: u64,
    /// Whether playback continues with suggestions when a queue runs out.
    pub spotify_bot_autoplay: bool,
    /// Name under which the device shows up as a playback target.
    pub spotify_device_name: String,
    /// Directory of the credential and content cache; empty for none.
    pub cache_dir: String,
}

/// Autoplay is off unless configured.
pub fn default_false() -> (flag: bool)
    ensures
        !flag,
{
    false
}

/// The device name used when none is configured.
pub fn default_spotify_device_name() -> (name: String)
    ensures
        name@ == "PUPU MUSIC BOT"@,
{
    String::from_str("PUPU MUSIC BOT")
}

/// The cache directory used when none is configured.
pub fn default_cache_dir() -> (dir: String)
    ensures
        dir@ == "cache"@,
{
    String::from_str("cache")
}

impl Config {
    /// The cache directory that `from_env` and this configuration select: a
    /// value from the environment wins, an empty configured directory means
    /// that nothing is cached.
    pub open spec fn spec_cache_dir(&self, from_env: Option<String>) -> Option<Seq<char>> {
        match from_env {
            Some(dir) => Some(dir@),
            None => if self.cache_dir@.len() == 0 {
                None
            } else {
                Some(self.cache_dir@)
            },
        }
    }

    /// Chooses the cache directory, see [`Config::spec_cache_dir`].
    pub fn effective_cache_dir(&self, from_env: Option<String>) -> (dir: Option<String>)
        ensures
            dir.is_some() == self.spec_cache_dir(from_env).is_some(),
            dir matches Some(d) ==> self.spec_cache_dir(from_env) == Some(d@),
    {
        match from_env {
            Some(dir) => Some(dir),
            None => {
                if self.cache_dir.as_str().is_empty() {
                    None
                } else {
                    Some(self.cache_dir.clone())
                }
            },
        }
    }
}

} // verus!
