//! The two places where chance decides.
use vstd::prelude::*;
use rand::seq::SliceRandom;
use rand::Rng;

verus! {

/// `Rng::gen_range` of rand on the thread's generator, for the half-open
/// range from `low` to `high`: some number of that range. An empty range
/// makes the generator panic and is ruled out.
#[verifier::external_body]
pub(crate) fn random_below(low: u64, high: u64) -> (n: u64)
    requires
        low < high,
    ensures
        low <= n < high,
{
    rand::thread_rng().gen_range(low..high)
}

/// Whether `text` is what one of `choices` reads as.
pub open spec fn among(choices: Seq<String>, text: Seq<char>) -> bool {
    exists|i: int| 0 <= i < choices.len() && (#[trigger] choices[i])@ == text
}

/// `SliceRandom::choose` of rand on the thread's generator: one of
/// `choices`, or nothing where there is no choice.
#[verifier::external_body]
pub(crate) fn pick_one(choices: &Vec<String>) -> (picked: Option<String>)
    ensures
        picked is None <==> choices@.len() == 0,
        picked matches Some(text) ==> among(choices@, text@),
{
    choices.choose(&mut rand::thread_rng()).cloned()
}

} // verus!
