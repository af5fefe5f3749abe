//! The per-address cooldown between successful claims.

use vstd::hash_map::*;
use vstd::prelude::*;

verus! {

/// The verdict on one claim attempt.
#[derive(Debug, Clone, Copy, PartialEq, Eq, Structural)]
pub enum Decision {
    /// The claim may go ahead.
    Allow,
    /// The address claimed too recently; `remaining` whole seconds of its
    /// cooldown are left.
    Deny { remaining: u64 },
}

/// Seconds between a claim at `last` and `now`; zero where the clock reads
/// earlier than the claim.
pub open spec fn elapsed_since(last: u64, now: u64) -> nat {
    if now >= last {
        (now - last) as nat
    } else {
        0
    }
}

/// The verdict for an address whose last successful claim, if any, was at
/// `last`: allowed without one, allowed once `cooldown` seconds have
/// elapsed, denied before that with the seconds still to wait.
pub open spec fn decide(last: Option<u64>, cooldown: u64, now: u64) -> Decision {
    match last {
        None => Decision::Allow,
        Some(at) => if elapsed_since(at, now) >= cooldown {
            Decision::Allow
        } else {
            Decision::Deny { remaining: (cooldown - elapsed_since(at, now)) as u64 }
        },
    }
}

/// The time of the last recorded claim of `address`, if it has one.
pub open spec fn last_claim(table: Map<Seq<char>, u64>, address: Seq<char>) -> Option<u64> {
    if table.contains_key(address) {
        Some(table[address])
    } else {
        None
    }
}

/// Remembers, for each address, when it last claimed successfully. Viewed
/// as a map from address to that time, in seconds: an address has at most
/// one entry.
pub struct RateLimiter {
    cooldown: u64,
    claims: StringHashMap<u64>,
}

impl View for RateLimiter {
    type V = Map<Seq<char>, u64>;

    closed spec fn view(&self) -> Map<Seq<char>, u64> {
        self.claims@
    }
}

impl RateLimiter {
    /// The cooldown this limiter enforces, in seconds.
    pub closed spec fn cooldown(&self) -> u64 {
        self.cooldown
    }

    /// A limiter with no recorded claim.
    pub fn new(cooldown: u64) -> (limiter: RateLimiter)
        ensures
            limiter@ == Map::<Seq<char>, u64>::empty(),
            limiter.cooldown() == cooldown,
    {
        RateLimiter { cooldown, claims: StringHashMap::new() }
    }

    /// The cooldown this limiter enforces, in seconds.
    pub fn cooldown_secs(&self) -> (secs: u64)
        ensures
            secs == self.cooldown(),
    {
        self.cooldown
    }

    /// When `address` last claimed successfully.
    pub fn last_claim_of(&self, address: &str) -> (last: Option<u64>)
        ensures
            last == last_claim(self@, address@),
    {
        match self.claims.get(address) {
            Some(at) => Some(*at),
            None => None,
        }
    }

    /// Decides whether `address` may claim at time `now`.
    pub fn check(&self, address: &str, now: u64) -> (decision: Decision)
        ensures
            decision == decide(last_claim(self@, address@), self.cooldown(), now),
    {
        match self.last_claim_of(address) {
            None => Decision::Allow,
            Some(at) => {
                let elapsed: u64 = if now >= at {
                    now - at
                } else {
                    0
                };
                if elapsed >= self.cooldown {
                    Decision::Allow
                } else {
                    Decision::Deny { remaining: self.cooldown - elapsed }
                }
            },
        }
    }

    /// Records a successful claim of `address` at time `now`, replacing any
    /// earlier entry of that address and touching no other.
    pub fn record(&mut self, address: &str, now: u64)
        ensures
            final(self)@ == old(self)@.insert(address@, now),
            final(self).cooldown() == old(self).cooldown(),
    {
        self.claims.insert(String::from_str(address), now);
    }
}

/// Within the cooldown after a recorded claim the address is denied, and
/// the wait it is told is the rest of the cooldown: at least one second and
/// never more than the cooldown itself.
pub proof fn lemma_denied_within_cooldown(
    table: Map<Seq<char>, u64>,
    address: Seq<char>,
    cooldown: u64,
    claimed_at: u64,
    now: u64,
)
    requires
        claimed_at <= now,
        now - claimed_at < cooldown,
    ensures
        decide(last_claim(table.insert(address, claimed_at), address), cooldown, now)
            == (Decision::Deny { remaining: (cooldown - (now - claimed_at)) as u64 }),
        1 <= cooldown - (now - claimed_at) <= cooldown,
{
}

/// Of two checks within the cooldown after a recorded claim, the later one
/// is told a strictly shorter wait.
pub proof fn lemma_remaining_decreases(
    table: Map<Seq<char>, u64>,
    address: Seq<char>,
    cooldown: u64,
    claimed_at: u64,
    earlier: u64,
    later: u64,
)
    requires
        claimed_at <= earlier < later,
        later - claimed_at < cooldown,
    ensures
        decide(last_claim(table.insert(address, claimed_at), address), cooldown, earlier) is Deny,
        decide(last_claim(table.insert(address, claimed_at), address), cooldown, later) is Deny,
        decide(last_claim(table.insert(address, claimed_at), address), cooldown, later)->remaining
            < decide(
            last_claim(table.insert(address, claimed_at), address),
            cooldown,
            earlier,
        )->remaining,
{
}

/// Once the cooldown has elapsed since the recorded claim, the address is
/// allowed again.
pub proof fn lemma_allowed_after_cooldown(
    table: Map<Seq<char>, u64>,
    address: Seq<char>,
    cooldown: u64,
    claimed_at: u64,
    now: u64,
)
    requires
        now >= claimed_at,
        now - claimed_at >= cooldown,
    ensures
        decide(last_claim(table.insert(address, claimed_at), address), cooldown, now)
            == Decision::Allow,
{
}

/// A claim is never allowed while an entry of the address is younger than
/// the cooldown.
pub proof fn lemma_allow_means_cooled_down(
    table: Map<Seq<char>, u64>,
    address: Seq<char>,
    cooldown: u64,
    now: u64,
)
    requires
        decide(last_claim(table, address), cooldown, now) == Decision::Allow,
    ensures
        table.contains_key(address) ==> elapsed_since(table[address], now) >= cooldown,
{
}

} // verus!
