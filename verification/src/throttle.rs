//! Brute-force protection of the login endpoint, per client address: ten
//! attempts a minute bring a five-minute cooldown, fifty an hour a one-hour
//! block, and within a minute each further attempt must wait 1, 2, 4, then 8
//! seconds after the one before. Times are seconds since the Unix epoch.
use vstd::prelude::*;

verus! {

/// How far back attempts are remembered, in seconds.
pub const ATTEMPT_WINDOW_SECS: u64 = 3600;

/// The attempts a minute that bring a cooldown.
pub const ATTEMPTS_PER_MINUTE: u64 = 10;

/// The attempts an hour that bring a block.
pub const ATTEMPTS_PER_HOUR: u64 = 50;

/// How long the cooldown lasts, in seconds.
pub const COOLDOWN_SECS: u64 = 300;

/// How long the block lasts, in seconds.
pub const BLOCK_SECS: u64 = 3600;

/// Whether a login attempt may go ahead.
#[derive(Debug, Clone, Copy, PartialEq, Eq, Structural)]
pub enum ThrottleDecision {
    Allow,
    /// Refused (429); the client may retry after this many seconds.
    Deny { retry_after_secs: u64 },
}

/// The login attempts of one client address.
#[derive(Debug)]
pub struct LoginThrottle {
    /// The times of the attempts of the last hour, in the order they came.
    pub attempts: Vec<u64>,
    /// Until when the address is refused outright.
    pub blocked_until: u64,
}

/// The attempts of `s` made after time `from`, in order.
pub open spec fn kept_after(s: Seq<u64>, from: int) -> Seq<u64>
    decreases s.len(),
{
    if s.len() == 0 {
        Seq::empty()
    } else if s.last() > from {
        kept_after(s.drop_last(), from).push(s.last())
    } else {
        kept_after(s.drop_last(), from)
    }
}

/// The wait after the last attempt that the `n`-th attempt of a minute
/// requires before the next: 1, 2, 4, then 8 seconds.
pub open spec fn backoff_secs(n: nat) -> u64 {
    if n == 0 {
        0
    } else if n == 1 {
        1
    } else if n == 2 {
        2
    } else if n == 3 {
        4
    } else {
        8
    }
}

/// The decision on an attempt at `now`, and the state after it: attempts
/// older than an hour are forgotten; a blocked address is refused until the
/// block ends; ten attempts in the last minute bring the cooldown and fifty
/// in the last hour the block; an attempt too soon after the last one is
/// refused for the rest of its wait; any other attempt is allowed and
/// remembered. Refused attempts are not remembered.
pub open spec fn throttle_step(attempts: Seq<u64>, blocked_until: u64, now: u64) -> (ThrottleDecision, Seq<u64>, u64) {
    let hour = kept_after(attempts, now - ATTEMPT_WINDOW_SECS);
    let minute = kept_after(attempts, now - 60);
    if now < blocked_until {
        (ThrottleDecision::Deny { retry_after_secs: (blocked_until - now) as u64 }, attempts, blocked_until)
    } else if minute.len() >= ATTEMPTS_PER_MINUTE {
        (ThrottleDecision::Deny { retry_after_secs: COOLDOWN_SECS }, hour, (now + COOLDOWN_SECS) as u64)
    } else if hour.len() >= ATTEMPTS_PER_HOUR {
        (ThrottleDecision::Deny { retry_after_secs: BLOCK_SECS }, hour, (now + BLOCK_SECS) as u64)
    } else if minute.len() > 0 && now < minute.last() + backoff_secs(minute.len()) {
        (
            ThrottleDecision::Deny { retry_after_secs: (minute.last() + backoff_secs(minute.len()) - now) as u64 },
            hour,
            blocked_until,
        )
    } else {
        (ThrottleDecision::Allow, hour.push(now), blocked_until)
    }
}

/// The attempts of `s` after `from`, counted and kept.
fn keep_after(s: &Vec<u64>, from: u64, all: bool) -> (res: Vec<u64>)
    requires
        all ==> from == 0,
    ensures
        !all ==> res@ == kept_after(s@, from as int),
        all ==> res@ == kept_after(s@, -1),
{
    let mut res: Vec<u64> = Vec::new();
    let mut i: usize = 0;
    while i < s.len()
        invariant
            i <= s@.len(),
            all ==> from == 0,
            !all ==> res@ == kept_after(s@.take(i as int), from as int),
            all ==> res@ == kept_after(s@.take(i as int), -1),
        decreases s@.len() - i,
    {
        proof {
            assert(s@.take(i + 1).drop_last() =~= s@.take(i as int));
            assert(s@.take(i + 1).last() == s@[i as int]);
        }
        if all || s[i] > from {
            res.push(s[i]);
        }
        i = i + 1;
    }
    proof {
        assert(s@.take(s@.len() as int) =~= s@);
    }
    res
}

/// `kept_after` over a bound below every attempt keeps them all.
proof fn lemma_kept_all(s: Seq<u64>, from: int)
    requires
        from < 0,
    ensures
        kept_after(s, from) == s,
    decreases s.len(),
{
    if s.len() > 0 {
        lemma_kept_all(s.drop_last(), from);
        assert(s.drop_last().push(s.last()) =~= s);
    }
}

/// The wait required after the `n`-th attempt of a minute.
fn backoff(n: usize) -> (w: u64)
    ensures
        w == backoff_secs(n as nat),
{
    if n == 0 {
        0
    } else if n == 1 {
        1
    } else if n == 2 {
        2
    } else if n == 3 {
        4
    } else {
        8
    }
}

impl LoginThrottle {
    /// An address that has made no attempt.
    pub fn new() -> (t: LoginThrottle)
        ensures
            t.attempts@ == Seq::<u64>::empty(),
            t.blocked_until == 0,
    {
        LoginThrottle { attempts: Vec::new(), blocked_until: 0 }
    }

    /// Decides on a login attempt at `now` and records it.
    pub fn attempt(&mut self, now: u64) -> (d: ThrottleDecision)
        requires
            now + BLOCK_SECS <= u64::MAX,
        ensures
            (d, final(self).attempts@, final(self).blocked_until) == throttle_step(
                old(self).attempts@,
                old(self).blocked_until,
                now,
            ),
    {
        if now < self.blocked_until {
            return ThrottleDecision::Deny { retry_after_secs: self.blocked_until - now };
        }
        let hour = if now >= ATTEMPT_WINDOW_SECS {
            keep_after(&self.attempts, now - ATTEMPT_WINDOW_SECS, false)
        } else {
            let h = keep_after(&self.attempts, 0, true);
            proof {
                lemma_kept_all(self.attempts@, now - ATTEMPT_WINDOW_SECS);
                lemma_kept_all(self.attempts@, -1);
            }
            h
        };
        let minute = if now >= 60 {
            keep_after(&self.attempts, now - 60, false)
        } else {
            let m = keep_after(&self.attempts, 0, true);
            proof {
                lemma_kept_all(self.attempts@, now - 60);
                lemma_kept_all(self.attempts@, -1);
            }
            m
        };
        if minute.len() as u64 >= ATTEMPTS_PER_MINUTE {
            self.attempts = hour;
            self.blocked_until = now + COOLDOWN_SECS;
            return ThrottleDecision::Deny { retry_after_secs: COOLDOWN_SECS };
        }
        if hour.len() as u64 >= ATTEMPTS_PER_HOUR {
            self.attempts = hour;
            self.blocked_until = now + BLOCK_SECS;
            return ThrottleDecision::Deny { retry_after_secs: BLOCK_SECS };
        }
        if minute.len() > 0 {
            let last = minute[minute.len() - 1];
            let wait = backoff(minute.len());
            if (now as u128) < (last as u128) + (wait as u128) {
                self.attempts = hour;
                return ThrottleDecision::Deny { retry_after_secs: ((last as u128) + (wait as u128) - (now as u128)) as u64 };
            }
        }
        let mut hour = hour;
        hour.push(now);
        self.attempts = hour;
        ThrottleDecision::Allow
    }
}

/// Keeping the attempts after `a`, then those after a later `b`, keeps the
/// attempts after `b`.
proof fn lemma_kept_twice(s: Seq<u64>, a: int, b: int)
    requires
        a <= b,
    ensures
        kept_after(kept_after(s, a), b) == kept_after(s, b),
    decreases s.len(),
{
    if s.len() > 0 {
        lemma_kept_twice(s.drop_last(), a, b);
        let k = kept_after(s.drop_last(), a);
        if s.last() > a {
            assert(kept_after(s, a).drop_last() =~= k);
            assert(kept_after(s, a).last() == s.last());
        }
    }
}

/// An allowed attempt keeps the address within its limits: counting it, at
/// most ten attempts fall within the last minute and at most fifty within
/// the last hour.
pub proof fn allowed_attempts_stay_within_limits(attempts: Seq<u64>, blocked_until: u64, now: u64)
    requires
        throttle_step(attempts, blocked_until, now).0 == ThrottleDecision::Allow,
    ensures
        kept_after(throttle_step(attempts, blocked_until, now).1, now - 60).len() <= ATTEMPTS_PER_MINUTE,
        kept_after(throttle_step(attempts, blocked_until, now).1, now - ATTEMPT_WINDOW_SECS).len()
            <= ATTEMPTS_PER_HOUR,
{
    let hour = kept_after(attempts, now - ATTEMPT_WINDOW_SECS);
    let after = hour.push(now);
    assert(after.drop_last() =~= hour);
    lemma_kept_twice(attempts, now - ATTEMPT_WINDOW_SECS, now - 60);
    lemma_kept_twice(attempts, now - ATTEMPT_WINDOW_SECS, now - ATTEMPT_WINDOW_SECS);
    assert(kept_after(after, now - 60) == kept_after(hour, now - 60).push(now));
    assert(kept_after(after, now - ATTEMPT_WINDOW_SECS) == kept_after(hour, now - ATTEMPT_WINDOW_SECS).push(now));
}

/// A cooldown or a block lasts its whole length: an address that is not
/// blocked and has ten attempts in the last minute (or, failing that, fifty
/// in the last hour) is refused with a wait of five minutes (one hour), and
/// every attempt it makes before that wait is over is refused as well, with
/// the time that is left of it.
pub proof fn cooldown_and_block_last(attempts: Seq<u64>, blocked_until: u64, now: u64, later: u64)
    requires
        blocked_until <= now,
        now + BLOCK_SECS <= u64::MAX,
        kept_after(attempts, now - 60).len() >= ATTEMPTS_PER_MINUTE || kept_after(
            attempts,
            now - ATTEMPT_WINDOW_SECS,
        ).len() >= ATTEMPTS_PER_HOUR,
    ensures
        ({
            let wait: u64 = if kept_after(attempts, now - 60).len() >= ATTEMPTS_PER_MINUTE {
                COOLDOWN_SECS
            } else {
                BLOCK_SECS
            };
            let first = throttle_step(attempts, blocked_until, now);
            &&& first.0 == ThrottleDecision::Deny { retry_after_secs: wait }
            &&& now <= later < now + wait ==> throttle_step(first.1, first.2, later).0
                == ThrottleDecision::Deny { retry_after_secs: (now + wait - later) as u64 }
        }),
{
}

} // verus!
