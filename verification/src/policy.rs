use vstd::prelude::*;

use crate::buckets::{spec_bucket_take, BucketName, Buckets, MAX_BUCKET_TIME};
use crate::configs::AuthorityRef;
use crate::util::{contains_u64, spec_dec_chars, u64_to_string};

verus! {

/// How one dispatch ended.
#[derive(Clone, Copy, PartialEq, Eq, Structural, Debug)]
pub enum ProcessResult {
    Success,
    NoDM,
    NoSendPermission,
    Ratelimited(BucketName),
    NoOwner,
    NoAuthority,
}

/// The per-command policy switches a descriptor carries. A descriptor
/// never both defers and skips the deferral.
#[derive(Clone, Copy, PartialEq, Eq, Structural, Debug)]
pub struct CommandFlags {
    pub authority: bool,
    pub defer: bool,
    pub ephemeral: bool,
    pub only_guilds: bool,
    pub only_owner: bool,
    pub skip_defer: bool,
}

impl CommandFlags {
    pub open spec fn wf(&self) -> bool {
        self.skip_defer ==> !self.defer
    }
}

/// Whether the invoker may run authority-gated commands: the guild
/// owner and administrators always may; anyone else needs to be, or to
/// carry a role, named in the guild's authorities.
pub open spec fn spec_has_authority(
    authorities: Seq<AuthorityRef>,
    user: u64,
    roles: Seq<u64>,
    is_guild_owner: bool,
    has_admin_permission: bool,
) -> bool {
    ||| is_guild_owner
    ||| has_admin_permission
    ||| exists|i: int|
        0 <= i < authorities.len() && match #[trigger] authorities[i] {
            AuthorityRef::User(u) => u == user,
            AuthorityRef::Role(r) => roles.contains(r),
        }
}

/// The reason string an authority check hands the user, or nothing
/// when the invoker passes.
pub fn check_authority(
    authorities: &Vec<AuthorityRef>,
    user: u64,
    roles: &Vec<u64>,
    is_guild_owner: bool,
    has_admin_permission: bool,
) -> (r: Option<String>)
    ensures
        r is None <==> spec_has_authority(
            authorities@,
            user,
            roles@,
            is_guild_owner,
            has_admin_permission,
        ),
        r matches Some(msg) ==> msg@
            == "You need admin permissions or an authority status to use this command"@,
{
    if is_guild_owner || has_admin_permission {
        return None;
    }

    let mut i: usize = 0;

    while i < authorities.len()
        invariant
            i <= authorities@.len(),
            forall|j: int| 0 <= j < i ==> !(match #[trigger] authorities@[j] {
                AuthorityRef::User(u) => u == user,
                AuthorityRef::Role(r) => roles@.contains(r),
            }),
        decreases authorities@.len() - i,
    {
        let passes = match authorities[i] {
            AuthorityRef::User(u) => u == user,
            AuthorityRef::Role(r) => contains_u64(roles, r),
        };

        if passes {
            return None;
        }

        i = i + 1;
    }

    Some(
        String::from_str("You need admin permissions or an authority status to use this command"),
    )
}

/// What a policy gate decided: run the command, or stop with a result
/// and, where one is owed, a user-visible message.
pub enum PolicyDecision {
    /// Run the executor. For a prefix command a typing indicator goes
    /// out first when `defer` is set; for a slash command a deferred
    /// acknowledgement does, ephemeral when `ephemeral` is set.
    Proceed { defer: bool, ephemeral: bool },
    /// The current user was not in the chat cache, so the send
    /// permission could not be checked: surface an error.
    UncachedCurrentUser,
    /// Stop with this outcome, showing the user the message where
    /// one is given.
    Terminate(ProcessResult, Option<String>),
}

/// The text of the cooldown notice.
pub open spec fn spec_cooldown_message(cooldown: nat) -> Seq<char> {
    "Command on cooldown, try again in "@ + spec_dec_chars(cooldown) + " seconds"@
}

fn cooldown_message(cooldown: i64) -> (r: String)
    requires
        cooldown > 0,
    ensures
        r@ == spec_cooldown_message(cooldown as nat),
{
    let mut msg = String::from_str("Command on cooldown, try again in ");
    let num = u64_to_string(cooldown as u64);
    msg.append(num.as_str());
    msg.append(" seconds");
    msg
}

/// How the buckets stand once a prefix invocation passed both rate
/// gates: the global slot is consumed, and the command's bucket, when
/// the descriptor names one, admitted the user and consumed a slot.
pub open spec fn spec_prefix_gates_passed(
    b0: Buckets,
    b1: Buckets,
    bucket: Option<BucketName>,
    author: u64,
    now: int,
) -> bool {
    let all_take = spec_bucket_take(b0.all.delay, b0.all.limit, b0.all.users@, author, now);
    let cmd_take = spec_bucket_take(
        b0.render.delay,
        b0.render.limit,
        b0.render.users@,
        author,
        now,
    );
    &&& b1.all.users@ == b0.all.users@.insert(author, all_take.1)
    &&& b1.all.delay == b0.all.delay && b1.all.limit == b0.all.limit
    &&& match bucket {
        None => b1.render == b0.render,
        Some(_) => cmd_take.0 == 0 && b1.render.users@ == b0.render.users@.insert(
            author,
            cmd_take.1,
        ) && b1.render.delay == b0.render.delay && b1.render.limit == b0.render.limit,
    }
}

/// The policy gate of a prefix command, in the fixed order: guild-only,
/// send permission, the global bucket (silent), the command's bucket,
/// authority. `can_send` is the cached permission check, `None` when
/// the current user is not cached; `authority_reason` is the authority
/// check's verdict, consulted only when the descriptor asks for it.
pub fn process_prefix_command(
    flags: &CommandFlags,
    bucket: Option<BucketName>,
    buckets: &mut Buckets,
    in_guild: bool,
    can_send: Option<bool>,
    author: u64,
    now: i64,
    authority_reason: Option<String>,
) -> (r: PolicyDecision)
    requires
        old(buckets).wf(),
        0 <= now <= MAX_BUCKET_TIME,
        bucket != Some(BucketName::All),
    ensures
        final(buckets).wf(),
        ({
            let guild_gate = flags.authority || flags.only_guilds;
            let all_take = spec_bucket_take(
                old(buckets).all.delay,
                old(buckets).all.limit,
                old(buckets).all.users@,
                author,
                now as int,
            );
            match r {
                PolicyDecision::Terminate(ProcessResult::NoDM, msg) => {
                    &&& guild_gate && !in_guild
                    &&& msg matches Some(m) && m@ == "That command is only available in servers"@
                    &&& *final(buckets) == *old(buckets)
                },
                PolicyDecision::UncachedCurrentUser => {
                    &&& !(guild_gate && !in_guild)
                    &&& in_guild && can_send is None
                    &&& *final(buckets) == *old(buckets)
                },
                PolicyDecision::Terminate(ProcessResult::NoSendPermission, msg) => {
                    &&& !(guild_gate && !in_guild)
                    &&& in_guild && can_send == Some(false)
                    &&& msg is None
                    &&& *final(buckets) == *old(buckets)
                },
                PolicyDecision::Terminate(ProcessResult::Ratelimited(name), msg) => {
                    &&& !(guild_gate && !in_guild)
                    &&& in_guild ==> can_send == Some(true)
                    &&& final(buckets).all.users@ == old(buckets).all.users@.insert(
                        author,
                        all_take.1,
                    )
                    &&& if name == BucketName::All {
                        &&& all_take.0 > 0
                        &&& msg is None
                        &&& final(buckets).render == old(buckets).render
                    } else {
                        let cmd_take = spec_bucket_take(
                            old(buckets).render.delay,
                            old(buckets).render.limit,
                            old(buckets).render.users@,
                            author,
                            now as int,
                        );
                        &&& all_take.0 == 0
                        &&& bucket == Some(name)
                        &&& name == BucketName::Render
                        &&& cmd_take.0 > 0
                        &&& msg matches Some(m) && m@ == spec_cooldown_message(cmd_take.0 as nat)
                        &&& final(buckets).render.users@ == old(buckets).render.users@.insert(
                            author,
                            cmd_take.1,
                        )
                    }
                },
                PolicyDecision::Terminate(ProcessResult::NoAuthority, msg) => {
                    &&& !(guild_gate && !in_guild)
                    &&& in_guild ==> can_send == Some(true)
                    &&& all_take.0 == 0
                    &&& flags.authority
                    &&& msg == authority_reason
                    &&& authority_reason is Some
                    &&& spec_prefix_gates_passed(*old(buckets), *final(buckets), bucket, author, now as int)
                },
                PolicyDecision::Proceed { defer, ephemeral } => {
                    &&& !(guild_gate && !in_guild)
                    &&& in_guild ==> can_send == Some(true)
                    &&& all_take.0 == 0
                    &&& flags.authority ==> authority_reason is None
                    &&& defer == flags.defer
                    &&& ephemeral == flags.ephemeral
                    &&& spec_prefix_gates_passed(*old(buckets), *final(buckets), bucket, author, now as int)
                },
                _ => false,
            }
        }),
{
    if (flags.authority || flags.only_guilds) && !in_guild {
        return PolicyDecision::Terminate(
            ProcessResult::NoDM,
            Some(String::from_str("That command is only available in servers")),
        );
    }

    if in_guild {
        match can_send {
            None => {
                return PolicyDecision::UncachedCurrentUser;
            },
            Some(false) => {
                return PolicyDecision::Terminate(ProcessResult::NoSendPermission, None);
            },
            Some(true) => {},
        }
    }

    let ratelimit = buckets.take(BucketName::All, author, now);

    if ratelimit > 0 {
        return PolicyDecision::Terminate(ProcessResult::Ratelimited(BucketName::All), None);
    }

    if let Some(name) = bucket {
        let cooldown = buckets.take(name, author, now);

        if cooldown > 0 {
            let msg = cooldown_message(cooldown);
            return PolicyDecision::Terminate(
                ProcessResult::Ratelimited(name),
                Some(msg),
            );
        }
    }

    if flags.authority {
        if let Some(reason) = authority_reason {
            return PolicyDecision::Terminate(ProcessResult::NoAuthority, Some(reason));
        }
    }

    PolicyDecision::Proceed { defer: flags.defer, ephemeral: flags.ephemeral }
}

/// How the buckets stand once a slash invocation passed its rate
/// gate: the command's bucket, when the descriptor names one, admitted
/// the user and consumed a slot.
pub open spec fn spec_slash_gates_passed(
    b0: Buckets,
    b1: Buckets,
    bucket: Option<BucketName>,
    user: u64,
    now: int,
) -> bool {
    let cmd_take = spec_bucket_take(b0.render.delay, b0.render.limit, b0.render.users@, user, now);
    &&& b1.all == b0.all
    &&& match bucket {
        None => b1.render == b0.render,
        Some(_) => cmd_take.0 == 0 && b1.render.users@ == b0.render.users@.insert(
            user,
            cmd_take.1,
        ) && b1.render.delay == b0.render.delay && b1.render.limit == b0.render.limit,
    }
}

/// What the slash gate decides: the checks run in the fixed order
/// guild-only, owner-only, the command's bucket, authority, and the
/// first to fail names the outcome. `b0` and `b1` are the buckets
/// before and after.
pub open spec fn spec_slash_gate(
    flags: CommandFlags,
    bucket: Option<BucketName>,
    b0: Buckets,
    b1: Buckets,
    in_guild: bool,
    user: u64,
    owners: Seq<u64>,
    now: int,
    authority_reason: Option<String>,
    r: PolicyDecision,
) -> bool {
    match r {
        PolicyDecision::Terminate(ProcessResult::NoDM, msg) => {
            &&& flags.only_guilds && !in_guild
            &&& msg matches Some(m) && m@ == "That command is only available in servers"@
            &&& b1 == b0
        },
        PolicyDecision::Terminate(ProcessResult::NoOwner, msg) => {
            &&& !(flags.only_guilds && !in_guild)
            &&& flags.only_owner && !owners.contains(user)
            &&& msg matches Some(m) && m@ == "That command can only be used by the bot owner"@
            &&& b1 == b0
        },
        PolicyDecision::Terminate(ProcessResult::Ratelimited(name), msg) => {
            let cmd_take = spec_bucket_take(
                b0.render.delay,
                b0.render.limit,
                b0.render.users@,
                user,
                now,
            );
            &&& !(flags.only_guilds && !in_guild)
            &&& flags.only_owner ==> owners.contains(user)
            &&& bucket == Some(name)
            &&& name == BucketName::Render
            &&& cmd_take.0 > 0
            &&& msg matches Some(m) && m@ == spec_cooldown_message(cmd_take.0 as nat)
            &&& b1.render.users@ == b0.render.users@.insert(user, cmd_take.1)
            &&& b1.all == b0.all
        },
        PolicyDecision::Terminate(ProcessResult::NoAuthority, msg) => {
            &&& !(flags.only_guilds && !in_guild)
            &&& flags.only_owner ==> owners.contains(user)
            &&& flags.authority
            &&& msg == authority_reason
            &&& authority_reason is Some
            &&& spec_slash_gates_passed(b0, b1, bucket, user, now)
        },
        PolicyDecision::Proceed { defer, ephemeral } => {
            &&& !(flags.only_guilds && !in_guild)
            &&& flags.only_owner ==> owners.contains(user)
            &&& flags.authority ==> authority_reason is None
            &&& defer == flags.defer
            &&& ephemeral == flags.ephemeral
            &&& spec_slash_gates_passed(b0, b1, bucket, user, now)
        },
        _ => false,
    }
}

/// The policy gate of a slash command, in the fixed order: guild-only,
/// owner-only, the command's bucket, authority.
pub fn pre_process_command(
    flags: &CommandFlags,
    bucket: Option<BucketName>,
    buckets: &mut Buckets,
    in_guild: bool,
    user: u64,
    owners: &Vec<u64>,
    now: i64,
    authority_reason: Option<String>,
) -> (r: PolicyDecision)
    requires
        old(buckets).wf(),
        0 <= now <= MAX_BUCKET_TIME,
        bucket != Some(BucketName::All),
    ensures
        final(buckets).wf(),
        spec_slash_gate(
            *flags,
            bucket,
            *old(buckets),
            *final(buckets),
            in_guild,
            user,
            owners@,
            now as int,
            authority_reason,
            r,
        ),
{
    if flags.only_guilds && !in_guild {
        return PolicyDecision::Terminate(
            ProcessResult::NoDM,
            Some(String::from_str("That command is only available in servers")),
        );
    }

    if flags.only_owner && !contains_u64(owners, user) {
        return PolicyDecision::Terminate(
            ProcessResult::NoOwner,
            Some(String::from_str("That command can only be used by the bot owner")),
        );
    }

    if let Some(name) = bucket {
        let cooldown = buckets.take(name, user, now);

        if cooldown > 0 {
            let msg = cooldown_message(cooldown);
            return PolicyDecision::Terminate(
                ProcessResult::Ratelimited(name),
                Some(msg),
            );
        }
    }

    if flags.authority {
        if let Some(reason) = authority_reason {
            return PolicyDecision::Terminate(ProcessResult::NoAuthority, Some(reason));
        }
    }

    PolicyDecision::Proceed { defer: flags.defer, ephemeral: flags.ephemeral }
}

} // verus!
