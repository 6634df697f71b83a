use vstd::prelude::*;

use std::collections::HashMap;

verus! {

/// The named cooldown groups: `All` applies to every prefix command,
/// the others each to one command family.
#[derive(Clone, Copy, PartialEq, Eq, Structural, Debug, Hash)]
pub enum BucketName {
    All,
    Render,
}

/// The per-user state a bucket keeps: when the user was last admitted,
/// when the current window opened, and how many hits it has seen.
#[derive(Clone, Copy, PartialEq, Eq, Structural, Debug)]
pub struct MemberRatelimit {
    pub last_time: i64,
    pub set_time: i64,
    pub tickets: u32,
}

impl MemberRatelimit {
    pub open spec fn spec_zero() -> MemberRatelimit {
        MemberRatelimit { last_time: 0, set_time: 0, tickets: 0 }
    }
}

/// Largest timestamp (in seconds) the buckets accept: comfortably past
/// any real clock, and small enough that sums never overflow an `i64`.
pub const MAX_BUCKET_TIME: i64 = 0x000f_ffff_ffff_ffff;

/// One named cooldown group: a fixed `delay` between admitted hits per
/// user and, when `limit` is set, at most so many hits per sliding
/// window of the given seconds.
pub struct Bucket {
    pub delay: i64,
    pub limit: Option<(i64, u32)>,
    pub users: HashMap<u64, MemberRatelimit>,
}

/// What one `take` returns and how it leaves the user's entry: an
/// elapsed window is reset; a full window denies with the seconds the
/// window still runs; then the per-hit delay denies with its rest; an
/// admitted hit records the time and consumes a ticket.
pub open spec fn spec_bucket_take(
    delay: i64,
    limit: Option<(i64, u32)>,
    users: Map<u64, MemberRatelimit>,
    user: u64,
    now: int,
) -> (i64, MemberRatelimit) {
    let lim0 = if users.contains_key(user) {
        users[user]
    } else {
        MemberRatelimit::spec_zero()
    };
    match limit {
        Some((span, max)) => if lim0.set_time + span < now {
            spec_take_delay(delay, MemberRatelimit { set_time: now as i64, tickets: 0, ..lim0 }, now)
        } else if lim0.tickets >= max {
            ((lim0.set_time + span - now) as i64, lim0)
        } else {
            spec_take_delay(delay, lim0, now)
        },
        None => spec_take_delay(delay, lim0, now),
    }
}

/// The delay check and admission `take` ends with.
pub open spec fn spec_take_delay(delay: i64, lim: MemberRatelimit, now: int) -> (
    i64,
    MemberRatelimit,
) {
    if lim.last_time + delay - now > 0 {
        ((lim.last_time + delay - now) as i64, lim)
    } else {
        (
            0,
            MemberRatelimit {
                last_time: now as i64,
                tickets: if lim.tickets < u32::MAX {
                    (lim.tickets + 1) as u32
                } else {
                    u32::MAX
                },
                ..lim
            },
        )
    }
}

impl Bucket {
    /// Configuration and stored times stay within bounds that keep all
    /// sums inside `i64`.
    pub open spec fn wf(&self) -> bool {
        &&& 0 <= self.delay <= MAX_BUCKET_TIME
        &&& (self.limit matches Some((span, _)) ==> 0 <= span <= MAX_BUCKET_TIME)
        &&& forall|u: u64|
            self.users@.contains_key(u) ==> {
                let lim = #[trigger] self.users@[u];
                0 <= lim.last_time <= MAX_BUCKET_TIME && 0 <= lim.set_time <= MAX_BUCKET_TIME
            }
    }

    /// A bucket that admits each user at most once per `delay` seconds.
    pub fn new(delay: i64) -> (r: Self)
        requires
            0 <= delay <= MAX_BUCKET_TIME,
        ensures
            r.wf(),
            r.delay == delay,
            r.limit is None,
            r.users@ == Map::<u64, MemberRatelimit>::empty(),
    {
        Self { delay, limit: None, users: HashMap::new() }
    }

    /// A bucket that admits each user at most once per `delay` seconds
    /// and at most `max` times per sliding window of `span` seconds.
    pub fn with_limit(delay: i64, span: i64, max: u32) -> (r: Self)
        requires
            0 <= delay <= MAX_BUCKET_TIME,
            0 <= span <= MAX_BUCKET_TIME,
        ensures
            r.wf(),
            r.delay == delay,
            r.limit == Some((span, max)),
            r.users@ == Map::<u64, MemberRatelimit>::empty(),
    {
        Self { delay, limit: Some((span, max)), users: HashMap::new() }
    }

    /// Admit `user` or report the cooldown. A return of `0` means the
    /// call is admitted and a slot consumed; a positive return is how
    /// many seconds remain until the next admission.
    pub fn take(&mut self, user: u64, now: i64) -> (r: i64)
        requires
            old(self).wf(),
            0 <= now <= MAX_BUCKET_TIME,
        ensures
            final(self).wf(),
            final(self).delay == old(self).delay,
            final(self).limit == old(self).limit,
            ({
                let (cooldown, entry) = spec_bucket_take(
                    old(self).delay,
                    old(self).limit,
                    old(self).users@,
                    user,
                    now as int,
                );
                r == cooldown && final(self).users@ == old(self).users@.insert(user, entry)
            }),
    {
        let mut lim = match self.users.get(&user) {
            Some(l) => *l,
            None => MemberRatelimit { last_time: 0, set_time: 0, tickets: 0 },
        };

        if let Some((span, max)) = self.limit {
            if lim.set_time + span < now {
                lim.set_time = now;
                lim.tickets = 0;
            } else if lim.tickets >= max {
                let remaining = lim.set_time + span - now;
                self.users.insert(user, lim);
                return remaining;
            }
        }

        let rate_limit = lim.last_time + self.delay - now;

        if rate_limit > 0 {
            self.users.insert(user, lim);
            return rate_limit;
        }

        if lim.tickets < u32::MAX {
            lim.tickets = lim.tickets + 1;
        }
        lim.last_time = now;
        self.users.insert(user, lim);

        0
    }
}

/// The fixed set of named buckets.
pub struct Buckets {
    pub all: Bucket,
    pub render: Bucket,
}

impl Buckets {
    pub open spec fn wf(&self) -> bool {
        self.all.wf() && self.render.wf()
    }

    pub fn new(all: Bucket, render: Bucket) -> (r: Self)
        requires
            all.wf(),
            render.wf(),
        ensures
            r.wf(),
            r.all == all,
            r.render == render,
    {
        Self { all, render }
    }

    /// Admit `user` on the named bucket, or report its cooldown.
    pub fn take(&mut self, name: BucketName, user: u64, now: i64) -> (r: i64)
        requires
            old(self).wf(),
            0 <= now <= MAX_BUCKET_TIME,
        ensures
            final(self).wf(),
            name == BucketName::All ==> {
                let (cooldown, entry) = spec_bucket_take(
                    old(self).all.delay,
                    old(self).all.limit,
                    old(self).all.users@,
                    user,
                    now as int,
                );
                r == cooldown && final(self).all.users@ == old(self).all.users@.insert(
                    user,
                    entry,
                ) && final(self).all.delay == old(self).all.delay && final(self).all.limit == old(self).all.limit && final(self).render == old(self).render
            },
            name == BucketName::Render ==> {
                let (cooldown, entry) = spec_bucket_take(
                    old(self).render.delay,
                    old(self).render.limit,
                    old(self).render.users@,
                    user,
                    now as int,
                );
                r == cooldown && final(self).render.users@ == old(self).render.users@.insert(
                    user,
                    entry,
                ) && final(self).render.delay == old(self).render.delay && final(self).render.limit == old(self).render.limit && final(self).all == old(self).all
            },
    {
        match name {
            BucketName::All => self.all.take(user, now),
            BucketName::Render => self.render.take(user, now),
        }
    }
}

} // verus!
