//! The status field of a random payload.
use vstd::prelude::*;

use crate::text::owned;

verus! {

/// The status of the six equally likely draws: four "online", one "offline", one "error".
pub open spec fn status_of_draw(i: int) -> Seq<char> {
    if i < 4 {
        "online"@
    } else if i == 4 {
        "offline"@
    } else {
        "error"@
    }
}

/// Whether `r` is a value `rand::Rng::gen_range` may draw from `0..n` on the
/// thread's generator. Which one it draws is chance.
pub uninterp spec fn drawn_below(n: nat, r: nat) -> bool;

/// A random number in `0..n` (`rand::Rng::gen_range` on the thread's generator).
/// The contract says that the number lies in the range and was drawn from it; which
/// number is drawn is left unsaid, as it rests on chance.
#[verifier::external_body]
fn random_below(n: usize) -> (res: usize)
    requires
        n > 0,
    ensures
        res < n,
        drawn_below(n as nat, res as nat),
{
    rand::Rng::gen_range(&mut rand::thread_rng(), 0..n)
}

/// A device status drawn at random: "online" four times in six, "offline" and
/// "error" once in six each.
pub fn random_status() -> (res: String)
    ensures
        exists|i: nat| i < 6 && #[trigger] drawn_below(6, i) && res@ == status_of_draw(i as int),
{
    let i = random_below(6);
    status_for_draw(i)
}

/// The status of draw `i` of six.
pub fn status_for_draw(i: usize) -> (res: String)
    requires
        i < 6,
    ensures
        res@ == status_of_draw(i as int),
{
    if i < 4 {
        owned("online")
    } else if i == 4 {
        owned("offline")
    } else {
        owned("error")
    }
}

} // verus!
