//! What a progress card shows. Drawing it is left to the renderer.
use crate::levels::{lemma_level_exists, level_of, xp_for_level, xp_required};
use crate::rank::{discriminator_tag, push_discriminator, Standing, UserProfile};
use vstd::prelude::*;

verus! {

/// The values a progress card is drawn from.
pub struct Context {
    pub level: u64,
    pub rank: i64,
    pub name: String,
    pub discriminator: String,
    /// Whole percent of the way to the next level.
    pub percentage: u64,
    /// Experience so far.
    pub current: u64,
    /// Total experience needed for the next level.
    pub needed: u64,
    /// The stored value of the user's toy, if they picked one.
    pub toy: Option<String>,
    /// The avatar, as a data URI.
    pub avatar: String,
}

/// Total experience needed for the level after `level`, capped at the
/// largest 64-bit value.
pub open spec fn next_threshold(level: u64) -> u64 {
    if xp_for_level((level + 1) as nat) <= u64::MAX {
        xp_for_level((level + 1) as nat) as u64
    } else {
        u64::MAX
    }
}

/// Gathers what the card of `target` shows.
pub fn card_context(target: &UserProfile, s: Standing, toy: Option<String>, avatar: String) -> (c: Context)
    requires
        s.level < u64::MAX,
        s.rank <= i64::MAX,
    ensures
        c.level == s.level,
        c.rank == s.rank as i64,
        c.name@ == target.name@,
        c.discriminator@ == discriminator_tag(target.discriminator),
        c.percentage == s.percent,
        c.current == s.xp,
        c.needed == next_threshold(s.level),
        c.toy == toy,
        c.avatar == avatar,
        s.level == level_of(s.xp as nat) && xp_for_level((s.level + 1) as nat) <= u64::MAX ==> (
        xp_for_level(c.level as nat) <= c.current < c.needed),
{
    proof {
        lemma_level_exists(s.xp as nat);
    }
    let needed = match xp_required(s.level + 1) {
        Some(n) => n,
        None => u64::MAX,
    };
    let mut discriminator = String::new();
    push_discriminator(&mut discriminator, target.discriminator);
    Context {
        level: s.level,
        rank: s.rank as i64,
        name: target.name.clone(),
        discriminator,
        percentage: s.percent,
        current: s.xp,
        needed,
        toy,
        avatar,
    }
}

} // verus!
