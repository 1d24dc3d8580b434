//! The two quotations that answer one particular account.

use rand::Rng;
use vstd::prelude::*;

verus! {

/// How many quotations there are to choose from.
pub const FOOL_QUOTE_COUNT: usize = 2;

/// The text of the quotation with the given index.
pub open spec fn fool_quote_text(index: int) -> Seq<char> {
    if index == 0 {
        "A fool thinks himself to be wise, but a wise man knows himself to be a fool."@
    } else {
        "The first principle is that you must not fool yourself and you are the easiest person to fool."@
    }
}

/// The quotation with the given index.
pub fn fool_quote_at(index: usize) -> (quote: &'static str)
    requires
        index < FOOL_QUOTE_COUNT,
    ensures
        quote@ == fool_quote_text(index as int),
{
    if index == 0 {
        "A fool thinks himself to be wise, but a wise man knows himself to be a fool."
    } else {
        "The first principle is that you must not fool yourself and you are the easiest person to fool."
    }
}

/// Draws an index below `bound` from the thread's random generator.
///
/// Calls `rand::thread_rng().gen_range(0..bound)`. `gen_range` panics on an
/// empty range, which `bound > 0` excludes, and samples from `low..high`
/// exclusively, so the only claim made is that the index is below `bound`.
/// Which index comes out is left open: two calls may differ. The generator
/// is seeded from the operating system when a thread first uses it; that
/// this succeeds is taken for granted.
#[verifier::external_body]
fn random_index(bound: usize) -> (index: usize)
    requires
        bound > 0,
    ensures
        index < bound,
{
    rand::thread_rng().gen_range(0..bound)
}

/// Draws the index of one of the quotations at random.
pub fn random_quote_index() -> (index: usize)
    ensures
        index < FOOL_QUOTE_COUNT,
{
    random_index(FOOL_QUOTE_COUNT)
}

/// One of the quotations, chosen at random.
pub fn get_fool_quote() -> (quote: &'static str)
    ensures
        exists|index: int| 0 <= index < FOOL_QUOTE_COUNT && quote@ == fool_quote_text(index),
{
    let index: usize = random_quote_index();
    fool_quote_at(index)
}

} // verus!
