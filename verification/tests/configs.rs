use shishabot::{Context, GuildConfig, UserConfig};

#[test]
fn defaults_are_cached_on_first_read() {
    let mut ctx = Context::new();
    assert!(!ctx.has_guild_config(1));

    let prefixes = ctx.guild_prefixes(1);
    assert_eq!(prefixes, vec!["<".to_string()]);
    assert!(ctx.has_guild_config(1));

    assert!(ctx.guild_with_lyrics(1));
    assert!(ctx.guild_show_retries(1));
    assert_eq!(ctx.guild_track_limit(1), 50);
}

#[test]
fn write_through_update_is_read_back() {
    let mut ctx = Context::new();

    let mut config = ctx.guild_config_to_update(5);
    config.prefixes.push("$".to_string());
    ctx.update_guild_config(5, config);

    let prefixes = ctx.guild_prefixes(5);
    assert_eq!(prefixes, vec!["<".to_string(), "$".to_string()]);
}

#[test]
fn failed_persist_keeps_cache_unchanged() {
    let mut ctx = Context::new();
    let _ = ctx.guild_prefixes(5);

    let mut draft = ctx.guild_config_to_update(5);
    draft.prefixes.push("$".to_string());
    drop(draft);

    assert_eq!(ctx.guild_prefixes(5), vec!["<".to_string()]);
}

#[test]
fn concurrent_updates_leave_one_post_state() {
    let mut ctx = Context::new();

    let mut a = ctx.guild_config_to_update(5);
    a.prefixes = vec!["a".to_string()];
    let mut b = ctx.guild_config_to_update(5);
    b.prefixes = vec!["b".to_string()];

    ctx.update_guild_config(5, a);
    ctx.update_guild_config(5, b);

    let cached = ctx.guild_prefixes(5);
    assert_eq!(cached, vec!["b".to_string()]);
}

#[test]
fn update_settings_survive_reads() {
    let mut ctx = Context::new();

    let mut config = ctx.guild_config_to_update(9);
    config.with_lyrics = false;
    config.show_retries = false;
    config.track_limit = 3;
    ctx.update_guild_config(9, config);

    assert!(!ctx.guild_with_lyrics(9));
    assert!(!ctx.guild_show_retries(9));
    assert_eq!(ctx.guild_track_limit(9), 3);
}

#[test]
fn first_prefix_and_prefix_find() {
    let mut ctx = Context::new();

    let mut config = ctx.guild_config_to_update(2);
    config.prefixes = vec!["<".to_string(), "!".to_string()];
    ctx.update_guild_config(2, config);

    assert_eq!(ctx.guild_first_prefix(Some(2)), "<");
    assert_eq!(ctx.guild_first_prefix(None), "<");

    assert_eq!(ctx.guild_prefixes_find(2, "!ping", 0), Some("!".to_string()));
    assert_eq!(ctx.guild_prefixes_find(2, "?ping", 0), None);
    assert_eq!(ctx.guild_prefixes_find(2, "  <ping", 2), Some("<".to_string()));
}

#[test]
fn user_config_defaults_and_passthrough() {
    let ctx = Context::new();

    let stored = UserConfig { show_retries: Some(false), with_lyrics: None };
    let (config, needs_insert) = ctx.user_config(Some(stored));
    assert_eq!(config, stored);
    assert!(!needs_insert);

    let (config, needs_insert) = ctx.user_config(None);
    assert_eq!(config, UserConfig { show_retries: None, with_lyrics: None });
    assert!(needs_insert);
}

#[test]
fn default_config_shape() {
    let config = GuildConfig::default();
    assert_eq!(config.prefixes, vec!["<".to_string()]);
    assert!(config.authorities.is_empty());
    assert_eq!(config.track_limit, 50);
    assert!(config.with_lyrics);
    assert!(config.show_retries);

    let copy = config.clone();
    assert_eq!(copy.prefixes, config.prefixes);
}
