use shishabot::{
    check_authority, pre_process_command, process_prefix_command, AuthorityRef, Bucket, BucketName,
    Buckets, CommandFlags, PolicyDecision, ProcessResult, Skin,
};

fn no_flags() -> CommandFlags {
    CommandFlags {
        authority: false,
        defer: false,
        ephemeral: false,
        only_guilds: false,
        only_owner: false,
        skip_defer: false,
    }
}

fn fresh_buckets() -> Buckets {
    Buckets::new(Bucket::new(0), Bucket::with_limit(0, 10, 2))
}

#[test]
fn bucket_admits_then_applies_delay() {
    let mut bucket = Bucket::new(5);
    assert_eq!(bucket.take(1, 100), 0);
    assert_eq!(bucket.take(1, 102), 3);
    assert_eq!(bucket.take(1, 105), 0);
    assert_eq!(bucket.take(2, 105), 0);
}

#[test]
fn bucket_window_limit_denies_after_quota() {
    let mut bucket = Bucket::with_limit(0, 10, 2);
    assert_eq!(bucket.take(1, 100), 0);
    assert_eq!(bucket.take(1, 101), 0);
    assert_eq!(bucket.take(1, 102), 8);
    assert_eq!(bucket.take(1, 111), 0);
}

#[test]
fn owner_only_slash_denied_for_non_owner() {
    let mut buckets = fresh_buckets();
    let owners = vec![42u64];

    let decision = pre_process_command(
        &Skin::flags(),
        None,
        &mut buckets,
        true,
        7,
        &owners,
        1000,
        None,
    );

    match decision {
        PolicyDecision::Terminate(ProcessResult::NoOwner, Some(msg)) => {
            assert_eq!(msg, "That command can only be used by the bot owner");
        }
        _ => panic!("a non-owner must be turned away"),
    }
}

#[test]
fn owner_passes_owner_only_slash() {
    let mut buckets = fresh_buckets();
    let owners = vec![42u64];

    let decision = pre_process_command(
        &Skin::flags(),
        None,
        &mut buckets,
        true,
        42,
        &owners,
        1000,
        None,
    );

    match decision {
        PolicyDecision::Proceed { defer, ephemeral } => {
            assert!(!defer);
            assert!(!ephemeral);
        }
        _ => panic!("the owner proceeds"),
    }
}

#[test]
fn guild_only_denied_in_direct_messages() {
    let mut buckets = fresh_buckets();
    let flags = CommandFlags { only_guilds: true, ..no_flags() };

    let decision =
        pre_process_command(&flags, None, &mut buckets, false, 7, &Vec::new(), 1000, None);

    match decision {
        PolicyDecision::Terminate(ProcessResult::NoDM, Some(msg)) => {
            assert_eq!(msg, "That command is only available in servers");
        }
        _ => panic!("guild-only commands are refused in direct messages"),
    }
}

#[test]
fn global_ratelimit_terminates_silently() {
    let mut buckets = Buckets::new(Bucket::new(30), Bucket::new(0));
    let flags = no_flags();

    let first = process_prefix_command(&flags, None, &mut buckets, false, None, 7, 1000, None);
    assert!(matches!(first, PolicyDecision::Proceed { .. }));

    let second = process_prefix_command(&flags, None, &mut buckets, false, None, 7, 1001, None);
    match second {
        PolicyDecision::Terminate(ProcessResult::Ratelimited(BucketName::All), msg) => {
            assert!(msg.is_none());
        }
        _ => panic!("the global bucket throttles the second call"),
    }
}

#[test]
fn command_bucket_cooldown_names_the_wait() {
    let mut buckets = Buckets::new(Bucket::new(0), Bucket::with_limit(0, 60, 1));
    let flags = no_flags();

    let first = process_prefix_command(
        &flags,
        Some(BucketName::Render),
        &mut buckets,
        false,
        None,
        7,
        1000,
        None,
    );
    assert!(matches!(first, PolicyDecision::Proceed { .. }));

    let second = process_prefix_command(
        &flags,
        Some(BucketName::Render),
        &mut buckets,
        false,
        None,
        7,
        1010,
        None,
    );

    match second {
        PolicyDecision::Terminate(ProcessResult::Ratelimited(BucketName::Render), Some(msg)) => {
            assert_eq!(msg, "Command on cooldown, try again in 50 seconds");
        }
        _ => panic!("the command bucket throttles with a notice"),
    }
}

#[test]
fn missing_send_permission_terminates() {
    let mut buckets = fresh_buckets();
    let decision = process_prefix_command(
        &no_flags(),
        None,
        &mut buckets,
        true,
        Some(false),
        7,
        1000,
        None,
    );
    assert!(matches!(
        decision,
        PolicyDecision::Terminate(ProcessResult::NoSendPermission, None)
    ));
}

#[test]
fn uncached_current_user_surfaces() {
    let mut buckets = fresh_buckets();
    let decision =
        process_prefix_command(&no_flags(), None, &mut buckets, true, None, 7, 1000, None);
    assert!(matches!(decision, PolicyDecision::UncachedCurrentUser));
}

#[test]
fn authority_reason_terminates_authority_commands() {
    let mut buckets = fresh_buckets();
    let flags = CommandFlags { authority: true, ..no_flags() };

    let decision = process_prefix_command(
        &flags,
        None,
        &mut buckets,
        true,
        Some(true),
        7,
        1000,
        Some("no authority".to_string()),
    );

    match decision {
        PolicyDecision::Terminate(ProcessResult::NoAuthority, Some(msg)) => {
            assert_eq!(msg, "no authority");
        }
        _ => panic!("the authority verdict terminates the dispatch"),
    }
}

#[test]
fn check_authority_passes_owner_admin_role_and_user() {
    let authorities = vec![AuthorityRef::Role(5), AuthorityRef::User(9)];

    assert!(check_authority(&authorities, 1, &vec![], true, false).is_none());
    assert!(check_authority(&authorities, 1, &vec![], false, true).is_none());
    assert!(check_authority(&authorities, 1, &vec![5], false, false).is_none());
    assert!(check_authority(&authorities, 9, &vec![], false, false).is_none());

    let denied = check_authority(&authorities, 1, &vec![4], false, false);
    assert_eq!(
        denied.as_deref(),
        Some("You need admin permissions or an authority status to use this command")
    );
}
