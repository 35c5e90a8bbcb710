//! The activity pipeline: each message may earn its author experience. The
//! steps that touch storage and the platform run outside; the decisions
//! between them are made here.
use crate::cooldown::{
    attempt_outcomes, begin_window, end_window, lemma_no_winner_while_cooling, lemma_single_winner,
    winners, CooldownKey, MessagingCache,
};
use crate::levels::{level_for_xp, level_of};
use rand::Rng;
use vstd::prelude::*;

verus! {

/// Least experience one message can earn.
pub const XP_GRANT_MIN: u64 = 15;

/// Most experience one message can earn.
pub const XP_GRANT_MAX: u64 = 25;

/// What to do about one message.
#[derive(Clone, Copy, Debug, PartialEq, Eq, Structural)]
pub enum ActivityPlan {
    /// Nothing: no community, a bot author, or an author cooling down.
    Ignore,
    /// The author's window is reserved: add `amount` to their experience in
    /// the community, atomically in storage. On success, schedule the end of
    /// the window and call `record_grant`; on failure, call `release_grant`.
    Grant { guild: u64, user: u64, amount: u64 },
}

/// What follows a successful experience write.
#[derive(Clone, Copy, Debug, PartialEq, Eq, Structural)]
pub struct GrantOutcome {
    /// The author's level after the grant.
    pub level: u64,
}

/// Relies on `rand::Rng::gen_range` over `rand::thread_rng`, with an
/// inclusive range: the number drawn lies within the bounds (the range must
/// not be empty).
#[verifier::external_body]
fn random_between(low: u64, high: u64) -> (r: u64)
    requires
        low <= high,
    ensures
        low <= r <= high,
{
    rand::thread_rng().gen_range(low..=high)
}

/// Whether a message earns nothing whatever the cache holds.
pub open spec fn is_gated(guild: Option<u64>, bot: bool) -> bool {
    guild is None || bot
}

/// Decides what a message by `author` in `guild` earns, and reserves the
/// author's window for the grant. Messages outside a community or by bots earn
/// nothing and leave the cache alone. Any other message tries to start the
/// author's window: it earns a random amount within the grant bounds exactly
/// when it starts the window, so of messages racing within one window at most
/// one is granted.
pub fn plan_grant(cache: &mut MessagingCache, guild: Option<u64>, author: u64, author_is_bot: bool) -> (r: ActivityPlan)
    ensures
        is_gated(guild, author_is_bot) ==> r == ActivityPlan::Ignore && final(cache)@ == old(cache)@,
        !is_gated(guild, author_is_bot) ==> ({
            let (cooling, started) = begin_window(old(cache)@, (guild->0, author));
            &&& final(cache)@ == cooling
            &&& !started ==> r == ActivityPlan::Ignore
            &&& started ==> (r matches ActivityPlan::Grant { guild: g, user, amount } && g
                == guild->0 && user == author && XP_GRANT_MIN <= amount <= XP_GRANT_MAX)
        }),
{
    match guild {
        None => ActivityPlan::Ignore,
        Some(g) => {
            if author_is_bot {
                ActivityPlan::Ignore
            } else if cache.add(g, author) {
                let amount = random_between(XP_GRANT_MIN, XP_GRANT_MAX);
                ActivityPlan::Grant { guild: g, user: author, amount }
            } else {
                ActivityPlan::Ignore
            }
        },
    }
}

/// Gives back the window reserved for a grant whose storage write failed, so
/// that a failed write leaves no window behind.
pub fn release_grant(cache: &mut MessagingCache, guild: u64, user: u64)
    ensures
        final(cache)@ == end_window(old(cache)@, (guild, user)),
{
    cache.expire(guild, user);
}

/// The author's level once storage has applied a grant, `new_total` being
/// their experience after it.
pub fn record_grant(new_total: u64) -> (r: GrantOutcome)
    ensures
        r.level == level_of(new_total as nat),
{
    GrantOutcome { level: level_for_xp(new_total) }
}

/// Of any number of messages by one author in one community handled in turn,
/// at most one is granted experience until the window ends: the first, when
/// the author is not cooling down, and none otherwise.
pub proof fn lemma_at_most_one_grant(cooling: Set<CooldownKey>, key: CooldownKey, n: nat)
    ensures
        winners(attempt_outcomes(cooling, key, n)) <= 1,
{
    if cooling.contains(key) {
        lemma_no_winner_while_cooling(cooling, key, n);
    } else if n >= 1 {
        lemma_single_winner(cooling, key, n);
    } else {
        assert(attempt_outcomes(cooling, key, n).len() == 0);
    }
}

/// Whether `x` is among `v`.
fn holds_role(v: &Vec<u64>, x: u64) -> (r: bool)
    ensures
        r == v@.contains(x),
{
    let mut i: usize = 0;
    while i < v.len()
        invariant
            i <= v@.len(),
            forall|j: int| 0 <= j < i ==> v@[j] != x,
        decreases v@.len() - i,
    {
        if v[i] == x {
            assert(v@[i as int] == x);
            return true;
        }
        i = i + 1;
    }
    false
}

/// The role to assign, if any, given the reward for the member's new level
/// and the roles the member is known to hold.
pub open spec fn role_to_assign(reward: Option<u64>, member_roles: Option<Seq<u64>>) -> Option<u64> {
    match reward {
        None => None,
        Some(role) => match member_roles {
            Some(roles) if roles.contains(role) => None,
            _ => Some(role),
        },
    }
}

/// Reconciles the reward for the member's new level with the roles they hold:
/// no reward, or a reward already held, asks for no assignment.
pub fn reconcile_reward(reward: Option<u64>, member_roles: Option<&Vec<u64>>) -> (r: Option<u64>)
    ensures
        r == role_to_assign(
            reward,
            match member_roles {
                Some(v) => Some(v@),
                None => None,
            },
        ),
{
    match reward {
        None => None,
        Some(role) => match member_roles {
            Some(roles) => {
                if holds_role(roles, role) {
                    None
                } else {
                    Some(role)
                }
            },
            None => Some(role),
        },
    }
}

/// A member who already holds the reward for their level is not assigned it
/// again, and a member below every reward threshold, for whom storage finds no
/// reward, is assigned nothing.
pub proof fn lemma_no_needless_assignment(role: u64, roles: Seq<u64>, member_roles: Option<Seq<u64>>)
    ensures
        roles.contains(role) ==> role_to_assign(Some(role), Some(roles)) is None,
        role_to_assign(None, member_roles) is None,
{
}

} // verus!
