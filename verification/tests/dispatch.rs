use shishabot::{
    handle_message, location_text, log_command, parse_invoke, Bucket, BucketName, Buckets,
    CommandFlags, Context, GuildConfig, MessageInvoke, PolicyDecision, PrefixCommand,
    PrefixCommands, ProcessResult,
};

fn plain_flags() -> CommandFlags {
    CommandFlags {
        authority: false,
        defer: false,
        ephemeral: false,
        only_guilds: false,
        only_owner: false,
        skip_defer: false,
    }
}

fn guild_with_prefixes(ctx: &mut Context, guild: u64, prefixes: &[&str]) {
    let mut config = ctx.guild_config_to_update(guild);
    config.prefixes = prefixes.iter().map(|p| p.to_string()).collect();
    ctx.update_guild_config(guild, config);
}

#[test]
fn prefix_dispatch_parses_ping() {
    let mut ctx = Context::new();
    guild_with_prefixes(&mut ctx, 1, &["<", "!"]);

    let invoke = handle_message(&mut ctx, "!ping  ", false, false, Some(1));

    match invoke {
        MessageInvoke::Command { name, num, args_pos } => {
            assert_eq!(name, "ping");
            assert_eq!(num, None);
            assert_eq!(args_pos, 5);
        }
        MessageInvoke::Ignore => panic!("a prefixed command must parse"),
    }

    let registry = PrefixCommands::new(vec![PrefixCommand {
        name: "ping".to_string(),
        aliases: vec![],
        flags: plain_flags(),
        bucket: None,
    }]);

    let cmd = registry.command("ping").expect("ping is registered");
    let mut buckets = Buckets::new(Bucket::new(0), Bucket::new(0));
    let decision = shishabot::process_prefix_command(
        &cmd.flags,
        cmd.bucket,
        &mut buckets,
        true,
        Some(true),
        7,
        1000,
        None,
    );
    assert!(matches!(decision, PolicyDecision::Proceed { .. }));
}

#[test]
fn guild_message_without_known_prefix_is_dropped() {
    let mut ctx = Context::new();
    guild_with_prefixes(&mut ctx, 1, &["<", "!"]);

    assert!(matches!(
        handle_message(&mut ctx, "?ping", false, false, Some(1)),
        MessageInvoke::Ignore
    ));
}

#[test]
fn bots_and_webhooks_are_ignored() {
    let mut ctx = Context::new();
    assert!(matches!(
        handle_message(&mut ctx, "!ping", true, false, Some(1)),
        MessageInvoke::Ignore
    ));
    assert!(matches!(
        handle_message(&mut ctx, "!ping", false, true, Some(1)),
        MessageInvoke::Ignore
    ));
}

#[test]
fn direct_messages_take_default_or_no_prefix() {
    let mut ctx = Context::new();

    match handle_message(&mut ctx, "<ping", false, false, None) {
        MessageInvoke::Command { name, .. } => assert_eq!(name, "ping"),
        _ => panic!("the default prefix works in direct messages"),
    }

    match handle_message(&mut ctx, "ping", false, false, None) {
        MessageInvoke::Command { name, .. } => assert_eq!(name, "ping"),
        _ => panic!("direct messages need no prefix"),
    }
}

#[test]
fn leading_whitespace_is_skipped() {
    let mut ctx = Context::new();
    guild_with_prefixes(&mut ctx, 1, &["!"]);

    match handle_message(&mut ctx, "   !Ping", false, false, Some(1)) {
        MessageInvoke::Command { name, .. } => assert_eq!(name, "ping"),
        _ => panic!("whitespace before the prefix is tolerated"),
    }
}

#[test]
fn numeric_suffix_splits_off() {
    match parse_invoke("recent3", 0) {
        Some((name, num, args)) => {
            assert_eq!(name, "recent");
            assert_eq!(num, Some(3));
            assert_eq!(args, 7);
        }
        None => panic!("a word parses"),
    }

    match parse_invoke("42", 0) {
        Some((name, num, _)) => {
            assert_eq!(name, "42");
            assert_eq!(num, None);
        }
        None => panic!("an all-digit word is a name"),
    }

    assert!(parse_invoke("   ", 0).is_none());
}

#[test]
fn alias_lookup_finds_command() {
    let registry = PrefixCommands::new(vec![PrefixCommand {
        name: "invite".to_string(),
        aliases: vec!["inv".to_string()],
        flags: plain_flags(),
        bucket: Some(BucketName::Render),
    }]);

    assert!(registry.command("invite").is_some());
    assert!(registry.command("inv").is_some());
    assert!(registry.command("invit").is_none());
}

#[test]
fn log_line_and_location() {
    let username = "someone".to_string();
    let line = log_command("guild:general", Some(&username), "ping");
    assert_eq!(line, "[guild:general] someone invoked `ping`");

    let line = log_command("Private", None, "ping");
    assert_eq!(line, "[Private] <unknown user> invoked `ping`");

    assert_eq!(location_text(false, None, None), "Private");
    assert_eq!(location_text(true, None, None), "<uncached guild>");

    let guild = "guild".to_string();
    let channel = "general".to_string();
    assert_eq!(location_text(true, Some(&guild), Some(&channel)), "guild:general");
    assert_eq!(location_text(true, Some(&guild), None), "guild:<uncached channel>");
}

#[test]
fn process_result_variants_compare() {
    assert_eq!(ProcessResult::Success, ProcessResult::Success);
    assert_ne!(
        ProcessResult::Ratelimited(BucketName::All),
        ProcessResult::Ratelimited(BucketName::Render)
    );
}
