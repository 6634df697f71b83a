use shishabot::{
    handle_command, Bucket, BucketName, Buckets, CommandFlags, PolicyDecision, ProcessResult,
    Skin, SlashCommand, SlashCommands,
};

fn plain_flags() -> CommandFlags {
    CommandFlags {
        authority: false,
        defer: false,
        ephemeral: false,
        only_guilds: false,
        only_owner: false,
        skip_defer: false,
    }
}

fn sample_registry() -> SlashCommands {
    let names = ["help", "invite", "owner", "ping", "queue", "render", "skinlist"];
    let commands = names
        .iter()
        .map(|name| SlashCommand {
            name: name.to_string(),
            flags: plain_flags(),
            bucket: if *name == "render" { Some(BucketName::Render) } else { None },
        })
        .collect();

    SlashCommands::new(commands)
}

#[test]
fn every_registered_name_is_found() {
    let registry = sample_registry();

    for name in ["help", "invite", "owner", "ping", "queue", "render", "skinlist"] {
        let cmd = registry.command(name).expect("registered commands are found");
        assert_eq!(cmd.name, name);
    }

    assert!(registry.command("pong").is_none());
    assert!(registry.command("pin").is_none());
}

#[test]
fn descendants_of_a_name_contain_the_name() {
    let registry = sample_registry();

    for name in ["help", "invite", "owner", "ping", "queue", "render", "skinlist"] {
        let descendants = registry.descendants(name).expect("the name itself descends");
        assert!(descendants.iter().any(|d| d == name));
    }
}

#[test]
fn descendants_list_every_completion() {
    let registry = sample_registry();

    let mut completions = registry.descendants("").expect("everything descends from nothing");
    completions.sort();
    assert_eq!(
        completions,
        vec!["help", "invite", "owner", "ping", "queue", "render", "skinlist"]
    );

    let completions = registry.descendants("p").expect("ping matches");
    assert_eq!(completions, vec!["ping".to_string()]);

    assert!(registry.descendants("z").is_none());
}

#[test]
fn names_lists_each_name_once() {
    let registry = sample_registry();
    let mut names = registry.names();
    names.sort();
    assert_eq!(
        names,
        vec!["help", "invite", "owner", "ping", "queue", "render", "skinlist"]
    );
}

#[test]
fn lookup_carries_the_descriptor() {
    let registry = sample_registry();
    let render = registry.command("render").unwrap();
    assert_eq!(render.bucket, Some(BucketName::Render));
    let ping = registry.command("ping").unwrap();
    assert_eq!(ping.bucket, None);
}

#[test]
fn slash_dispatch_runs_lookup_then_gate() {
    let mut commands = vec![SlashCommand {
        name: "skin".to_string(),
        flags: Skin::flags(),
        bucket: None,
    }];
    commands.extend(["ping", "help"].iter().map(|name| SlashCommand {
        name: name.to_string(),
        flags: plain_flags(),
        bucket: None,
    }));

    let registry = SlashCommands::new(commands);
    let mut buckets = Buckets::new(Bucket::new(0), Bucket::new(0));
    let owners = vec![42u64];

    let unknown = handle_command(&registry, &mut buckets, "nope", true, 7, &owners, 1000, None);
    assert!(unknown.is_none());

    let (cmd, decision) =
        handle_command(&registry, &mut buckets, "skin", true, 7, &owners, 1000, None)
            .expect("skin is registered");
    assert_eq!(cmd.name, "skin");
    match decision {
        PolicyDecision::Terminate(ProcessResult::NoOwner, Some(msg)) => {
            assert_eq!(msg, "That command can only be used by the bot owner");
        }
        _ => panic!("a non-owner is turned away from the skin command"),
    }

    let (_, decision) =
        handle_command(&registry, &mut buckets, "skin", true, 42, &owners, 1000, None)
            .expect("skin is registered");
    assert!(matches!(decision, PolicyDecision::Proceed { defer: false, .. }));
}
