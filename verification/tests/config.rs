use aoede::config::{default_cache_dir, default_false, default_spotify_device_name, Config};

fn sample(cache_dir: &str) -> Config {
    Config {
        discord_token: "token".to_string(),
        discord_user_id: 42,
        spotify_bot_autoplay: default_false(),
        spotify_device_name: default_spotify_device_name(),
        cache_dir: cache_dir.to_string(),
    }
}

#[test]
fn defaults_have_their_documented_values() {
    assert!(!default_false());
    assert_eq!(default_spotify_device_name(), "PUPU MUSIC BOT");
    assert_eq!(default_cache_dir(), "cache");
}

#[test]
fn environment_overrides_configured_cache_dir() {
    let config = sample("cache");
    assert_eq!(
        config.effective_cache_dir(Some("elsewhere".to_string())),
        Some("elsewhere".to_string())
    );
}

#[test]
fn configured_cache_dir_is_used_without_environment() {
    let config = sample(&default_cache_dir());
    assert_eq!(config.effective_cache_dir(None), Some("cache".to_string()));
}

#[test]
fn empty_cache_dir_disables_the_cache() {
    let config = sample("");
    assert_eq!(config.effective_cache_dir(None), None);
    assert_eq!(
        config.effective_cache_dir(Some(String::new())),
        Some(String::new())
    );
}
