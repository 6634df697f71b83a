use shishabot::{
    commands, create_field, invite, last_multiple, parse_id_list, parse_u16, parse_u64, str_eq,
    to_lowercase, u64_to_string, BotConfig, Commands, ConfigError, GuildConfig, GuildData, Invite,
    PageContent, PaginationKind, ReplayData, ReplaySlim, ReplayStatus, ServerConfigEmbed, Skin,
    TimePoints, COMMANDS_PER_PAGE,
};

#[test]
fn last_multiple_boundaries() {
    assert_eq!(last_multiple(10, 0), 0);
    assert_eq!(last_multiple(10, 10), 0);
    assert_eq!(last_multiple(10, 11), 10);
    assert_eq!(last_multiple(10, 35), 30);
    assert_eq!(last_multiple(1, 3), 2);
}

#[test]
fn decimal_round_trip() {
    assert_eq!(u64_to_string(0), "0");
    assert_eq!(u64_to_string(42), "42");
    assert_eq!(u64_to_string(u64::MAX), u64::MAX.to_string());

    assert_eq!(parse_u64("0"), Some(0));
    assert_eq!(parse_u64("18446744073709551615"), Some(u64::MAX));
    assert_eq!(parse_u64("18446744073709551616"), None);
    assert_eq!(parse_u64(""), None);
    assert_eq!(parse_u64("12a"), None);

    assert_eq!(parse_u16("65535"), Some(65535));
    assert_eq!(parse_u16("65536"), None);
}

#[test]
fn string_helpers() {
    assert!(str_eq("abc", "abc"));
    assert!(!str_eq("abc", "abd"));
    assert!(!str_eq("abc", "ab"));
    assert_eq!(to_lowercase("PiNg42"), "ping42");
}

#[test]
fn owner_list_parses_with_whitespace() {
    assert_eq!(parse_id_list("[1,2,3]"), Some(vec![1, 2, 3]));
    assert_eq!(parse_id_list("[ 1 , 2 , 3 ]"), Some(vec![1, 2, 3]));
    assert_eq!(parse_id_list("[7]"), Some(vec![7]));
    assert_eq!(parse_id_list("1,2,3"), None);
    assert_eq!(parse_id_list("[1,,3]"), None);
    assert_eq!(parse_id_list("[]"), None);
    assert_eq!(parse_id_list("[a]"), None);
}

#[test]
fn config_init_reports_the_failing_entry() {
    let config = BotConfig::init(
        "token".to_string(),
        "123",
        "secret".to_string(),
        "/srv/folders".to_string(),
        "/srv/maps".to_string(),
        "/srv/settings".to_string(),
        "[1, 2]",
        "99",
    )
    .expect("all entries parse");

    assert_eq!(config.tokens.osu_client_id, 123);
    assert_eq!(config.owners, vec![1, 2]);
    assert_eq!(config.dev_guild, 99);
    assert_eq!(config.paths.maps, "/srv/maps");

    let bad_id = BotConfig::init(
        "token".to_string(),
        "x",
        "secret".to_string(),
        "a".to_string(),
        "b".to_string(),
        "c".to_string(),
        "[1]",
        "99",
    );
    assert_eq!(bad_id.unwrap_err(), ConfigError::OsuClientId);

    let bad_owners = BotConfig::init(
        "token".to_string(),
        "123",
        "secret".to_string(),
        "a".to_string(),
        "b".to_string(),
        "c".to_string(),
        "1,2",
        "99",
    );
    assert_eq!(bad_owners.unwrap_err(), ConfigError::Owners);

    let bad_guild = BotConfig::init(
        "token".to_string(),
        "123",
        "secret".to_string(),
        "a".to_string(),
        "b".to_string(),
        "c".to_string(),
        "[1]",
        "guild",
    );
    assert_eq!(bad_guild.unwrap_err(), ConfigError::DevGuild);
}

#[test]
fn replay_names_drop_extension_and_suffix() {
    let data = ReplayData {
        input_channel: 1,
        output_channel: 2,
        path: "/replays/cookiezi_-_freedom_dive_Osu.osr".to_string(),
        replay: sample_replay(),
        time_points: TimePoints { start: None, end: Some(30) },
        user: 3,
    };

    assert_eq!(
        data.replay_name("cookiezi_-_freedom_dive_Osu.osr"),
        "cookiezi - freedom dive"
    );
    assert_eq!(data.replay_name("plain"), "plain");
    assert_eq!(data.replay_name("with_underscores.osr"), "with underscores");
}

#[test]
fn replay_status_lines() {
    assert_eq!(ReplayStatus::Waiting.status_text(), "Waiting");
    assert_eq!(ReplayStatus::Downloading.status_text(), "Downloading");
    assert_eq!(ReplayStatus::Rendering(42).status_text(), "Rendering (42%)");
    assert_eq!(ReplayStatus::Encoding(100).status_text(), "Encoding (100%)");
    assert_eq!(ReplayStatus::Uploading.status_text(), "Uploading");
}

#[test]
fn total_hits_sums_the_counts() {
    let replay = sample_replay();
    assert_eq!(replay.total_hits(), 100 + 20 + 3 + 2);
}

#[test]
fn server_config_embed_renders_the_settings() {
    let guild = GuildData {
        icon: Some("a_deadbeef".to_string()),
        id: 55,
        name: "A Guild".to_string(),
    };

    let mut config = GuildConfig::default();
    config.prefixes.push("!".to_string());
    config.with_lyrics = false;

    let authorities = vec!["Mods".to_string(), "Admins".to_string()];
    let embed = ServerConfigEmbed::new(guild, config, &authorities);

    assert_eq!(embed.title, "Current server configuration:");
    assert_eq!(embed.author_name, "A Guild");
    assert_eq!(
        embed.author_icon_url.as_deref(),
        Some("https://cdn.discordapp.com/icons/55/a_deadbeef.gif")
    );
    assert_eq!(
        embed.description,
        "```\nAuthorities: @Mods, @Admins\nPrefixes: `<`, `!`\nDefault track limit: 50\n```\n"
    );
    assert_eq!(embed.fields.len(), 2);
    assert_eq!(embed.fields[0].name, "Song commands");
    assert_eq!(embed.fields[0].value, "disabled");
    assert_eq!(embed.fields[1].name, "Retries*");
    assert_eq!(embed.fields[1].value, "show");
}

#[test]
fn server_config_embed_without_icon_or_authorities() {
    let guild = GuildData { icon: None, id: 55, name: "G".to_string() };
    let config = GuildConfig::default();
    let embed = ServerConfigEmbed::new(guild, config, &Vec::new());

    assert!(embed.author_icon_url.is_none());
    assert!(embed.description.starts_with("```\nAuthorities: None\n"));

    let webp_guild = GuildData {
        icon: Some("beef".to_string()),
        id: 9,
        name: "G".to_string(),
    };
    let embed = ServerConfigEmbed::new(webp_guild, GuildConfig::default(), &Vec::new());
    assert_eq!(
        embed.author_icon_url.as_deref(),
        Some("https://cdn.discordapp.com/icons/9/beef.webp")
    );
}

#[test]
fn toggle_field_picks_the_active_label() {
    let field = create_field("Retries*", true, "show", "hide");
    assert_eq!(field.value, "show");
    let field = create_field("Retries*", false, "show", "hide");
    assert_eq!(field.value, "hide");
}

#[test]
fn command_count_response_is_empty_single_page() {
    let _marker: Commands = Commands;
    let builder = commands("yesterday".to_string());

    assert_eq!(builder.pages.per_page, COMMANDS_PER_PAGE);
    assert_eq!(builder.pages.last_index, 0);

    let (message, session) = builder.start(7);
    assert!(session.is_none());
    match message.page {
        PageContent::CommandCount { booted_up, entries } => {
            assert_eq!(booted_up, "yesterday");
            assert!(entries.is_empty());
        }
    }
}

#[test]
fn invite_embed_names_the_default_prefix() {
    let _marker: Invite = Invite;
    let embed = invite("https://example.org/invite");
    assert_eq!(embed.title, "Invite me to your server!");
    assert_eq!(embed.description, "https://example.org/invite");
    assert_eq!(embed.footer, "The initial prefix will be <");
}

#[test]
fn skin_command_is_owner_only_without_deferral() {
    let flags = Skin::flags();
    assert!(flags.only_owner);
    assert!(flags.skip_defer);
    assert!(!flags.defer);
}

fn sample_replay() -> ReplaySlim {
    ReplaySlim {
        beatmap_hash: Some("hash".to_string()),
        count_300: 100,
        count_100: 20,
        count_50: 3,
        count_geki: 1,
        count_katsu: 1,
        count_miss: 2,
        max_combo: 250,
        mods: 64,
        player_name: Some("player".to_string()),
    }
}
