//! Random identifiers: post ids and password-reset codes.

use vstd::prelude::*;
use rand::Rng;
use crate::text::{all_digits, decimal, decimal_round_trip, decimal_value, digit_char, digit_char_value, u64_to_decimal};

verus! {

/// A number drawn uniformly from `low..high` by the thread-local generator
/// (`rand::Rng::gen_range`); it panics on an empty range, which `requires`
/// rules out.  Nothing is named: the draw is random.
#[verifier::external_body]
fn random_in_range(low: u32, high: u32) -> (r: u32)
    requires
        low < high,
    ensures
        low <= r < high,
{
    rand::thread_rng().gen_range(low..high)
}

/// `10` to the power `k`.
pub open spec fn pow10(k: nat) -> nat
    decreases k,
{
    if k == 0 { 1 } else { 10 * pow10((k - 1) as nat) }
}

/// A number with `k` digits renders as `k` digits, the first not `0`.
pub proof fn decimal_length(n: nat, k: nat)
    requires
        k >= 1,
        pow10((k - 1) as nat) <= n < pow10(k),
    ensures
        decimal(n).len() == k,
        decimal(n)[0] != '0',
    decreases k,
{
    if k == 1 {
        assert(pow10(1) == 10) by {
            assert(pow10(0) == 1);
        }
        digit_char_value(n as int);
    } else {
        let k1 = (k - 1) as nat;
        assert(pow10(k) == 10 * pow10(k1));
        assert(pow10(k1) == 10 * pow10((k1 - 1) as nat));
        assert(pow10((k1 - 1) as nat) <= n / 10 < pow10(k1));
        decimal_length(n / 10, k1);
        assert(decimal(n) == decimal(n / 10).push(digit_char((n % 10) as int)));
        assert(decimal(n)[0] == decimal(n / 10)[0]);
    }
}

/// The shape of a post id: six digits, the first not `0`, standing for a
/// number from 100000 to 999999.
pub open spec fn is_post_id(s: Seq<char>) -> bool {
    &&& s.len() == 6
    &&& all_digits(s)
    &&& s[0] != '0'
    &&& 100000 <= decimal_value(s) < 1000000
}

/// The shape of a reset code: four digits, the first not `0`, standing for
/// a number from 1000 to 9998.
pub open spec fn is_reset_code(s: Seq<char>) -> bool {
    &&& s.len() == 4
    &&& all_digits(s)
    &&& s[0] != '0'
    &&& 1000 <= decimal_value(s) < 9999
}

/// A new post id: a random number from 100000 to 999999 in decimal.
pub fn generate_id() -> (id: String)
    ensures
        exists|n: nat| 100000 <= n < 1000000 && id@ == #[trigger] decimal(n),
        is_post_id(id@),
{
    let n = random_in_range(100000, 1000000);
    let id = u64_to_decimal(n as u64);
    proof {
        reveal_with_fuel(pow10, 7);
        decimal_length(n as nat, 6);
        decimal_round_trip(n as nat);
    }
    id
}

/// A new password-reset code: a random number from 1000 to 9998 in decimal.
pub fn new_reset_code() -> (code: String)
    ensures
        exists|n: nat| 1000 <= n < 9999 && code@ == #[trigger] decimal(n),
        is_reset_code(code@),
{
    let n = random_in_range(1000, 9999);
    let code = u64_to_decimal(n as u64);
    proof {
        reveal_with_fuel(pow10, 5);
        decimal_length(n as nat, 4);
        decimal_round_trip(n as nat);
    }
    code
}

} // verus!
