//! Password hashing with Argon2id at the configured cost under a random
//! salt, and the checking of passwords against stored hashes. Passwords are
//! never stored.
use vstd::prelude::*;
use crate::config::AppConfig;
use crate::error::AppError;

verus! {

/// What verifying a password against a stored hash string gives with
/// `argon2`: `None` when the hash string does not parse as a password hash,
/// otherwise whether the password matches.
pub uninterp spec fn spec_argon2_verify(password: Seq<char>, hash: Seq<char>) -> Option<bool>;

/// Verifies a password with `argon2`: `PasswordHash::new` parses the stored
/// hash string, and `Argon2::default().verify_password` checks the password
/// against it; any verification error counts as a mismatch. `Params::new`
/// computes `8 * p` in `u32` before it checks the lane count `p` that the
/// hash records, so a hash that names a lane count of nine or more digits is
/// left out. Not stated: the time and memory the check takes, which grow with
/// the cost the hash records.
#[verifier::external_body]
fn argon2_verify(password: &str, hash: &str) -> (res: Option<bool>)
    requires
        !names_many_lanes(hash@),
    ensures
        res == spec_argon2_verify(password@, hash@),
{
    match argon2::PasswordHash::new(hash) {
        Ok(parsed) => Some(
            argon2::PasswordVerifier::verify_password(&argon2::Argon2::default(), password.as_bytes(), &parsed)
                .is_ok(),
        ),
        Err(_) => None,
    }
}

/// Whether a character is an ASCII decimal digit.
pub open spec fn is_ascii_digit(c: char) -> bool {
    '0' <= c && c <= '9'
}

/// Whether a hash string holds, at index `i`, a lane count `p=` followed by
/// at least nine digits: a count of 10^8 lanes or more, above the 2^24 - 1
/// that Argon2 accepts.
pub open spec fn lanes_field_at(h: Seq<char>, i: int) -> bool {
    &&& 0 <= i && i + 11 <= h.len()
    &&& h[i] == 'p'
    &&& h[i + 1] == '='
    &&& forall|j: int| i + 2 <= j < i + 11 ==> #[trigger] is_ascii_digit(h[j])
}

/// Whether a hash string names a lane count of nine or more digits anywhere.
pub open spec fn names_many_lanes(h: Seq<char>) -> bool {
    exists|i: int| #[trigger] lanes_field_at(h, i)
}

fn lanes_field_at_index(s: &str, i: usize) -> (res: bool)
    requires
        i + 11 <= s@.len() <= usize::MAX,
    ensures
        res == lanes_field_at(s@, i as int),
{
    if s.get_char(i) != 'p' || s.get_char(i + 1) != '=' {
        return false;
    }
    let mut j: usize = i + 2;
    while j < i + 11
        invariant
            i + 2 <= j <= i + 11,
            i + 11 <= s@.len() <= usize::MAX,
            s@[i as int] == 'p',
            s@[i + 1] == '=',
            forall|k: int| i + 2 <= k < j ==> #[trigger] is_ascii_digit(s@[k]),
        decreases i + 11 - j,
    {
        let c = s.get_char(j);
        if !('0' <= c && c <= '9') {
            assert(!is_ascii_digit(s@[j as int]));
            return false;
        }
        j = j + 1;
    }
    true
}

/// Whether a stored hash string names a lane count of nine or more digits.
pub fn hash_names_many_lanes(hash: &str) -> (res: bool)
    ensures
        res == names_many_lanes(hash@),
{
    let n = hash.unicode_len();
    if n < 11 {
        assert forall|i: int| !lanes_field_at(hash@, i) by {}
        return false;
    }
    let mut i: usize = 0;
    while i < n - 10
        invariant
            n == hash@.len(),
            11 <= n,
            i + 11 <= n + 1,
            forall|k: int| 0 <= k < i ==> !#[trigger] lanes_field_at(hash@, k),
        decreases n + 1 - i,
    {
        if lanes_field_at_index(hash, i) {
            return true;
        }
        i = i + 1;
    }
    assert forall|k: int| !lanes_field_at(hash@, k) by {
        if 0 <= k < i {
        }
    }
    false
}

/// The Argon2id cost of new password hashes: memory in KiB, passes, lanes.
#[derive(Debug, Clone, Copy)]
pub struct HashCost {
    pub memory_kb: u32,
    pub iterations: u32,
    pub parallelism: u32,
}

impl HashCost {
    /// The cost that the server's configuration sets.
    pub fn from_config(config: &AppConfig) -> (c: HashCost)
        ensures
            c.memory_kb == config.argon2_memory_kb,
            c.iterations == config.argon2_iterations,
            c.parallelism == config.argon2_parallelism,
    {
        HashCost {
            memory_kb: config.argon2_memory_kb,
            iterations: config.argon2_iterations,
            parallelism: config.argon2_parallelism,
        }
    }
}

/// The costs that `argon2::Params::new` accepts: at least 8 KiB and 8 KiB
/// per lane, at least one pass, and between 1 and 2^24 - 1 lanes.
pub open spec fn cost_accepted(c: HashCost) -> bool {
    &&& 1 <= c.parallelism <= 0xFF_FFFF
    &&& c.memory_kb >= 8
    &&& c.memory_kb >= 8 * c.parallelism
    &&& c.iterations >= 1
}

/// The decimal digits of a number, without leading zeros.
pub open spec fn decimal_text(n: nat) -> Seq<char>
    decreases n,
{
    let d = seq!['0', '1', '2', '3', '4', '5', '6', '7', '8', '9'][(n % 10) as int];
    if n < 10 {
        seq![d]
    } else {
        decimal_text(n / 10).push(d)
    }
}

/// How a hash made at a cost begins, in the PHC string format:
/// `$argon2id$v=19$m={memory},t={passes},p={lanes}$`.
pub open spec fn phc_prefix(c: HashCost) -> Seq<char> {
    "$argon2id$v=19$m="@ + decimal_text(c.memory_kb as nat) + ",t="@ + decimal_text(c.iterations as nat)
        + ",p="@ + decimal_text(c.parallelism as nat) + "$"@
}

/// Whether a character is one of the B64 alphabet of the PHC string format
/// (standard Base64 without padding): `A`-`Z`, `a`-`z`, `0`-`9`, `+`, `/`.
pub open spec fn is_b64_char(c: char) -> bool {
    ('A' <= c && c <= 'Z') || ('a' <= c && c <= 'z') || ('0' <= c && c <= '9') || c == '+' || c == '/'
}

/// The shape of a hash made at a cost: the PHC prefix of the cost, then a
/// 22-character B64 salt (16 bytes), a `$`, and a 43-character B64 hash
/// (32 bytes).
pub open spec fn phc_hash_shape(c: HashCost, h: Seq<char>) -> bool {
    let p = phc_prefix(c);
    &&& p.is_prefix_of(h)
    &&& h.len() == p.len() + 66
    &&& h[p.len() + 22int] == '$'
    &&& forall|i: int| p.len() <= i < h.len() && i != p.len() + 22 ==> #[trigger] is_b64_char(h[i])
}

impl HashCost {
    /// Whether `argon2::Params::new` accepts this cost.
    pub fn accepted(&self) -> (res: bool)
        ensures
            res == cost_accepted(*self),
    {
        let lanes: u64 = self.parallelism as u64;
        let memory: u64 = self.memory_kb as u64;
        1 <= self.parallelism && self.parallelism <= 0xFF_FFFF && self.memory_kb >= 8 && memory >= 8 * lanes
            && self.iterations >= 1
    }
}

/// Hashes a password with Argon2id (version 19) at a cost that
/// `Params::new` accepts, under a fresh random 16-byte salt
/// (`SaltString::generate` with the OS generator, then
/// `Argon2::new(..).hash_password`), as a PHC string. The salt is random, so
/// the hash is not named; stated are that the password verifies against it,
/// the algorithm, version and cost it records, the length of its salt and of
/// its 32-byte output, and that hashing succeeds for every password of at
/// most 2^32 - 1 bytes (four bytes a character at most). Not stated: the
/// time and memory hashing takes, which grow with the cost, and a failure of
/// the operating system's random source, on which `OsRng` panics.
#[verifier::external_body]
fn argon2_hash(password: &str, cost: &HashCost) -> (res: Option<String>)
    requires
        cost_accepted(*cost),
    ensures
        res matches Some(h) ==> spec_argon2_verify(password@, h@) == Some(true),
        res matches Some(h) ==> phc_hash_shape(*cost, h@),
        password@.len() <= 0x3FFF_FFFF ==> res is Some,
{
    let params = argon2::Params::new(cost.memory_kb, cost.iterations, cost.parallelism, None).ok()?;
    let hasher = argon2::Argon2::new(argon2::Algorithm::Argon2id, argon2::Version::V0x13, params);
    let salt = argon2::password_hash::SaltString::generate(&mut argon2::password_hash::rand_core::OsRng);
    argon2::PasswordHasher::hash_password(&hasher, password.as_bytes(), &salt).ok().map(|h| h.to_string())
}

/// The outcome of checking a password against a stored hash: a hash that
/// names more lanes than Argon2 accepts is refused as invalid credentials
/// before Argon2 sees it; otherwise a stored hash that does not parse is an
/// internal error, and a wrong password is refused as invalid credentials.
pub open spec fn password_check_outcome(password: Seq<char>, hash: Seq<char>) -> Result<(), AppError> {
    if names_many_lanes(hash) {
        Err(AppError::InvalidCredentials)
    } else {
        match spec_argon2_verify(password, hash) {
            None => Err(AppError::InternalError),
            Some(false) => Err(AppError::InvalidCredentials),
            Some(true) => Ok(()),
        }
    }
}

/// Hashes a new account's password at a cost; a cost that Argon2 refuses is
/// an internal error, and any other cost succeeds. The same password is then
/// accepted against the hash, so an account can log in with the password it
/// registered with.
pub fn hash_password(password: &str, cost: &HashCost) -> (res: Result<String, AppError>)
    ensures
        res matches Ok(h) ==> password_check_outcome(password@, h@) is Ok,
        res matches Ok(h) ==> phc_hash_shape(*cost, h@),
        res matches Err(e) ==> e is InternalError,
        cost_accepted(*cost) && password@.len() <= 0x3FFF_FFFF ==> res is Ok,
        !cost_accepted(*cost) ==> res is Err,
{
    if !cost.accepted() {
        return Err(AppError::InternalError);
    }
    match argon2_hash(password, cost) {
        Some(h) => {
            proof {
                lemma_generated_hash_names_few_lanes(*cost, h@);
            }
            Ok(h)
        },
        None => Err(AppError::InternalError),
    }
}

/// The decimal digits of a number are digits, at least one, and at most
/// eight for a number below 10^8.
proof fn lemma_decimal_text_digits(n: nat)
    ensures
        decimal_text(n).len() >= 1,
        n < 10 ==> decimal_text(n).len() <= 1,
        n < 100 ==> decimal_text(n).len() <= 2,
        n < 1000 ==> decimal_text(n).len() <= 3,
        n < 10_000 ==> decimal_text(n).len() <= 4,
        n < 100_000 ==> decimal_text(n).len() <= 5,
        n < 1_000_000 ==> decimal_text(n).len() <= 6,
        n < 10_000_000 ==> decimal_text(n).len() <= 7,
        n < 100_000_000 ==> decimal_text(n).len() <= 8,
        forall|j: int| 0 <= j < decimal_text(n).len() ==> #[trigger] is_ascii_digit(decimal_text(n)[j]),
    decreases n,
{
    if n >= 10 {
        lemma_decimal_text_digits(n / 10);
    }
}

/// A hash of the shape that hashing at an accepted cost gives names no lane
/// count of nine or more digits: it holds `p=` only in its prefix, where the
/// lane count has at most eight digits and is followed by `$`.
proof fn lemma_generated_hash_names_few_lanes(c: HashCost, h: Seq<char>)
    requires
        cost_accepted(c),
        phc_hash_shape(c, h),
    ensures
        !names_many_lanes(h),
{
    reveal_strlit("$argon2id$v=19$m=");
    reveal_strlit(",t=");
    reveal_strlit(",p=");
    reveal_strlit("$");
    let dm = decimal_text(c.memory_kb as nat);
    let dt = decimal_text(c.iterations as nat);
    let dp = decimal_text(c.parallelism as nat);
    lemma_decimal_text_digits(c.memory_kb as nat);
    lemma_decimal_text_digits(c.iterations as nat);
    lemma_decimal_text_digits(c.parallelism as nat);
    let s1 = "$argon2id$v=19$m="@ + dm;
    let s2 = s1 + ",t="@;
    let s3 = s2 + dt;
    let s4 = s3 + ",p="@;
    let s5 = s4 + dp;
    let p = s5 + "$"@;
    assert(p == phc_prefix(c));
    let lm = dm.len() as int;
    let lt = dt.len() as int;
    let lp = dp.len() as int;
    assert(p.len() == 24 + lm + lt + lp);
    assert forall|i: int| !#[trigger] lanes_field_at(h, i) by {
        if lanes_field_at(h, i) {
            if i + 1 >= p.len() {
                if i + 1 == p.len() + 22 {
                    assert(h[i + 1] == '$');
                } else {
                    assert(is_b64_char(h[i + 1]));
                }
            } else {
                assert(h[i] == p[i]);
                assert(h[i + 1] == p[i + 1]);
                if i + 1 < 17 {
                    assert(p[i + 1] == "$argon2id$v=19$m="@[i + 1]);
                    assert(p[i] == "$argon2id$v=19$m="@[i]);
                } else if i + 1 < 17 + lm {
                    assert(p[i + 1] == dm[i + 1 - 17]);
                    assert(is_ascii_digit(dm[i + 1 - 17]));
                } else if i + 1 < 20 + lm {
                    assert(p[i + 1] == ",t="@[i + 1 - 17 - lm]);
                    if i >= 17 + lm {
                        assert(p[i] == ",t="@[i - 17 - lm]);
                    } else {
                        assert(p[i] == dm[i - 17]);
                        assert(is_ascii_digit(dm[i - 17]));
                    }
                } else if i + 1 < 20 + lm + lt {
                    assert(p[i + 1] == dt[i + 1 - 20 - lm]);
                    assert(is_ascii_digit(dt[i + 1 - 20 - lm]));
                } else if i + 1 < 23 + lm + lt {
                    assert(p[i + 1] == ",p="@[i + 1 - 20 - lm - lt]);
                    if i + 1 == 22 + lm + lt {
                        let j = 23 + lm + lt + lp;
                        assert(p[j] == '$');
                        assert(h[j] == p[j]);
                        assert(i + 2 <= j < i + 11);
                        assert(is_ascii_digit(h[j]));
                    } else if i >= 20 + lm + lt {
                        assert(p[i] == ",p="@[i - 20 - lm - lt]);
                    } else {
                        assert(p[i] == dt[i - 20 - lm]);
                        assert(is_ascii_digit(dt[i - 20 - lm]));
                    }
                } else if i + 1 < 23 + lm + lt + lp {
                    assert(p[i + 1] == dp[i + 1 - 23 - lm - lt]);
                    assert(is_ascii_digit(dp[i + 1 - 23 - lm - lt]));
                } else {
                    assert(p[i + 1] == '$');
                }
            }
        }
    }
}

/// Checks a password against an account's stored hash.
pub fn check_password(password: &str, password_hash: &str) -> (res: Result<(), AppError>)
    ensures
        res == password_check_outcome(password@, password_hash@),
{
    if hash_names_many_lanes(password_hash) {
        return Err(AppError::InvalidCredentials);
    }
    match argon2_verify(password, password_hash) {
        None => Err(AppError::InternalError),
        Some(false) => Err(AppError::InvalidCredentials),
        Some(true) => Ok(()),
    }
}

} // verus!
