//! The cooldown cache: a set of (community, user) pairs that have been granted
//! experience within the current window. Whoever inserts a pair first starts
//! the window and is the one to schedule its single removal.
use ahash::AHashSet;
use vstd::prelude::*;

verus! {

/// A (community, user) pair.
pub type CooldownKey = (u64, u64);

/// Seconds after a grant during which the same user earns nothing more in the
/// same community.
pub const COOLDOWN_SECS: u64 = 60;

#[verifier::external_type_specification]
#[verifier::external_body]
#[verifier::reject_recursive_types(T)]
#[verifier::reject_recursive_types(S)]
pub struct ExAHashSet<T, S>(AHashSet<T, S>);

#[verifier::external_type_specification]
#[verifier::external_body]
pub struct ExRandomState(ahash::RandomState);

/// The pairs that an `AHashSet` of pairs holds.
pub uninterp spec fn held_pairs(s: AHashSet<(u64, u64)>) -> Set<(u64, u64)>;

/// Relies on `ahash::AHashSet::new`: a fresh set is empty.
#[verifier::external_body]
fn empty_pair_set() -> (s: AHashSet<(u64, u64)>)
    ensures
        held_pairs(s) == Set::<(u64, u64)>::empty(),
{
    AHashSet::new()
}

/// Relies on `HashSet::insert`, reached through `AHashSet`'s `DerefMut`: the
/// pair is held afterwards, and the result tells whether it was absent.
#[verifier::external_body]
fn insert_pair(s: &mut AHashSet<(u64, u64)>, k: (u64, u64)) -> (fresh: bool)
    ensures
        held_pairs(*final(s)) == held_pairs(*old(s)).insert(k),
        fresh == !held_pairs(*old(s)).contains(k),
{
    s.insert(k)
}

/// Relies on `HashSet::contains`, reached through `AHashSet`'s `Deref`.
#[verifier::external_body]
fn holds_pair(s: &AHashSet<(u64, u64)>, k: &(u64, u64)) -> (r: bool)
    ensures
        r == held_pairs(*s).contains(*k),
{
    s.contains(k)
}

/// Relies on `HashSet::remove`, reached through `AHashSet`'s `DerefMut`: the
/// pair is gone afterwards, whether or not it was there.
#[verifier::external_body]
fn remove_pair(s: &mut AHashSet<(u64, u64)>, k: &(u64, u64)) -> (was_held: bool)
    ensures
        held_pairs(*final(s)) == held_pairs(*old(s)).remove(*k),
        was_held == held_pairs(*old(s)).contains(*k),
{
    s.remove(k)
}

/// What an attempt to start a window does to the set of cooling pairs: the
/// new set, and whether this attempt started the window.
pub open spec fn begin_window(cooling: Set<CooldownKey>, key: CooldownKey) -> (Set<CooldownKey>, bool) {
    (cooling.insert(key), !cooling.contains(key))
}

/// What the end of a window does to the set of cooling pairs.
pub open spec fn end_window(cooling: Set<CooldownKey>, key: CooldownKey) -> Set<CooldownKey> {
    cooling.remove(key)
}

/// The outcomes of `n` attempts in a row on one pair.
pub open spec fn attempt_outcomes(cooling: Set<CooldownKey>, key: CooldownKey, n: nat) -> Seq<bool>
    decreases n,
{
    if n == 0 {
        Seq::empty()
    } else {
        let (next, won) = begin_window(cooling, key);
        seq![won] + attempt_outcomes(next, key, (n - 1) as nat)
    }
}

/// Number of attempts that started the window.
pub open spec fn winners(outcomes: Seq<bool>) -> nat
    decreases outcomes.len(),
{
    if outcomes.len() == 0 {
        0
    } else {
        (if outcomes[0] { 1nat } else { 0nat }) + winners(outcomes.drop_first())
    }
}

/// The cooldown cache of one bot instance.
pub struct MessagingCache {
    users: AHashSet<(u64, u64)>,
}

impl View for MessagingCache {
    type V = Set<CooldownKey>;

    closed spec fn view(&self) -> Set<CooldownKey> {
        held_pairs(self.users)
    }
}

impl MessagingCache {
    /// A cache with no pair cooling down.
    pub fn new() -> (c: Self)
        ensures
            c@ == Set::<CooldownKey>::empty(),
    {
        MessagingCache { users: empty_pair_set() }
    }

    /// Starts the window of `(guild, user)` unless it is already running.
    /// Returns whether this call started it: only then must the caller
    /// schedule the pair's removal after `COOLDOWN_SECS`.
    pub fn add(&mut self, guild: u64, user: u64) -> (started: bool)
        ensures
            (final(self)@, started) == begin_window(old(self)@, (guild, user)),
    {
        insert_pair(&mut self.users, (guild, user))
    }

    /// Whether `(guild, user)` is cooling down.
    pub fn contains(&self, guild: u64, user: u64) -> (r: bool)
        ensures
            r == self@.contains((guild, user)),
    {
        holds_pair(&self.users, &(guild, user))
    }

    /// Ends the window of `(guild, user)`; a pair that is not cooling down is
    /// left alone.
    pub fn expire(&mut self, guild: u64, user: u64)
        ensures
            final(self)@ == end_window(old(self)@, (guild, user)),
    {
        remove_pair(&mut self.users, &(guild, user));
    }
}

/// Within a window a second attempt on the same pair is refused; once the
/// window has ended, the next attempt starts a new one.
pub proof fn lemma_cooldown_window(cooling: Set<CooldownKey>, key: CooldownKey)
    ensures
        !begin_window(begin_window(cooling, key).0, key).1,
        begin_window(end_window(begin_window(begin_window(cooling, key).0, key).0, key), key).1,
{
}

/// Of any number of attempts in a row on a pair that is not cooling down
/// (concurrent callers take turns on the shared cache), exactly one starts the
/// window.
pub proof fn lemma_single_winner(cooling: Set<CooldownKey>, key: CooldownKey, n: nat)
    requires
        !cooling.contains(key),
        n >= 1,
    ensures
        winners(attempt_outcomes(cooling, key, n)) == 1,
{
    let next = cooling.insert(key);
    lemma_no_winner_while_cooling(next, key, (n - 1) as nat);
    let outcomes = attempt_outcomes(cooling, key, n);
    assert(outcomes.drop_first() == attempt_outcomes(next, key, (n - 1) as nat));
}

/// While a pair is cooling down, no attempt on it starts a window.
pub proof fn lemma_no_winner_while_cooling(cooling: Set<CooldownKey>, key: CooldownKey, n: nat)
    requires
        cooling.contains(key),
    ensures
        winners(attempt_outcomes(cooling, key, n)) == 0,
    decreases n,
{
    if n > 0 {
        assert(cooling.insert(key) == cooling);
        lemma_no_winner_while_cooling(cooling, key, (n - 1) as nat);
        let outcomes = attempt_outcomes(cooling, key, n);
        assert(outcomes.drop_first() == attempt_outcomes(cooling, key, (n - 1) as nat));
    }
}

} // verus!
