use static_feeds::config::{parse_genre_list, Config, ConfigSource, EnvVars};
use static_feeds::startup::{allowed_origin, listen_address, log_level, LogLevel};

fn some(text: &str) -> Option<String> {
    Some(text.to_string())
}

fn no_env() -> EnvVars {
    EnvVars {
        host: None,
        port: None,
        rust_log: None,
        api_key: None,
        spotify_client_id: None,
        spotify_client_secret: None,
        spotify_refresh_token: None,
        spotify_excluded_genres: None,
        allowed_origin: None,
    }
}

fn with_host(host: &str) -> Config {
    let mut config = Config::default();
    config.server.host = host.to_string();
    config
}

#[test]
fn the_defaults_are_used_without_files() {
    let config = Config::load(vec![ConfigSource::Missing, ConfigSource::Missing], no_env());
    assert_eq!(config.server.host, "0.0.0.0");
    assert_eq!(config.server.port, "4653");
    assert_eq!(config.server.log_level, "info");
    assert_eq!(config.api.key, None);
    assert_eq!(config.spotify.client_id, None);
    assert_eq!(config.spotify.client_secret, None);
    assert_eq!(config.spotify.refresh_token, None);
    assert_eq!(config.spotify.excluded_genres, vec!["comedy"]);
    assert_eq!(config.spotify.tracks_limit, 6);
    assert_eq!(config.letterboxd.default_feed_url, "https://letterboxd.com/atropos_Dad/rss");
    assert_eq!(config.letterboxd.movies_limit, 5);
    assert_eq!(config.cache.spotify_duration_secs, 900);
    assert_eq!(config.cache.letterboxd_duration_secs, 3600);
    assert_eq!(config.cors.allowed_origin, "https://jeaic.com");
}

#[test]
fn the_first_file_that_is_there_is_used() {
    let sources = vec![
        ConfigSource::Missing,
        ConfigSource::Loaded(with_host("first")),
        ConfigSource::Loaded(with_host("second")),
    ];
    assert_eq!(Config::load_from_toml(sources).unwrap().server.host, "first");
    let sources = vec![
        ConfigSource::Unreadable("bad TOML".to_string()),
        ConfigSource::Loaded(with_host("second")),
    ];
    assert_eq!(Config::load_from_toml(sources).unwrap_err(), "bad TOML");
}

#[test]
fn a_broken_file_leaves_the_defaults() {
    let sources = vec![
        ConfigSource::Unreadable("bad TOML".to_string()),
        ConfigSource::Loaded(with_host("second")),
    ];
    assert_eq!(Config::load(sources, no_env()).server.host, "0.0.0.0");
}

#[test]
fn the_environment_overrides_the_file() {
    let env = EnvVars {
        host: some("127.0.0.1"),
        port: some("80"),
        rust_log: some("debug"),
        api_key: some("key"),
        spotify_client_id: some("id"),
        spotify_client_secret: some("secret"),
        spotify_refresh_token: some("token"),
        spotify_excluded_genres: some("Podcast, News ,,"),
        allowed_origin: some("https://example.org"),
    };
    let config = Config::load(vec![ConfigSource::Loaded(with_host("file"))], env);
    assert_eq!(config.server.host, "127.0.0.1");
    assert_eq!(config.server.port, "80");
    assert_eq!(config.server.log_level, "debug");
    assert_eq!(config.api.key, some("key"));
    assert_eq!(config.spotify.client_id, some("id"));
    assert_eq!(config.spotify.client_secret, some("secret"));
    assert_eq!(config.spotify.refresh_token, some("token"));
    assert_eq!(config.spotify.excluded_genres, vec!["Podcast", "News"]);
    assert_eq!(config.cors.allowed_origin, "https://example.org");
    assert_eq!(config.letterboxd.movies_limit, 5);
    assert_eq!(config.validate(), Ok(()));
}

#[test]
fn a_blank_entry_of_a_genre_list_is_kept_empty() {
    assert_eq!(parse_genre_list("comedy, "), vec!["comedy", ""]);
    assert!(parse_genre_list("").is_empty());
}

#[test]
fn what_is_missing_is_named_one_by_one() {
    let mut config = Config::default();
    assert_eq!(
        config.validate(),
        Err("API_KEY must be set either in config.toml or environment".to_string())
    );
    config.api.key = some("key");
    assert_eq!(
        config.validate(),
        Err("SPOTIFY_CLIENT_ID must be set either in config.toml or environment".to_string())
    );
    config.spotify.client_id = some("id");
    assert_eq!(
        config.validate(),
        Err("SPOTIFY_CLIENT_SECRET must be set either in config.toml or environment".to_string())
    );
    config.spotify.client_secret = some("");
    assert_eq!(
        config.validate(),
        Err("SPOTIFY_REFRESH_TOKEN must be set either in config.toml or environment".to_string())
    );
    config.spotify.refresh_token = some("token");
    assert_eq!(config.validate(), Ok(()));
}

#[test]
fn log_levels_have_names() {
    assert_eq!(log_level(&None), LogLevel::Info);
    assert_eq!(log_level(&some("debug")), LogLevel::Debug);
    assert_eq!(log_level(&some("trace")), LogLevel::Trace);
    assert_eq!(log_level(&some("warn")), LogLevel::Warn);
    assert_eq!(log_level(&some("error")), LogLevel::Error);
    assert_eq!(log_level(&some("info")), LogLevel::Info);
    assert_eq!(log_level(&some("DEBUG")), LogLevel::Info);
}

#[test]
fn the_service_listens_where_it_is_told() {
    assert_eq!(listen_address(&None, &None), "0.0.0.0:4653");
    assert_eq!(listen_address(&some("127.0.0.1"), &None), "127.0.0.1:4653");
    assert_eq!(listen_address(&None, &some("80")), "0.0.0.0:80");
    assert_eq!(allowed_origin(&None), "https://jeaic.com");
    assert_eq!(allowed_origin(&some("https://example.org")), "https://example.org");
}
