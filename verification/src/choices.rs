//! Picking one commit message out of the candidates a completion call
//! returned. A single candidate is taken as it stands; several candidates
//! need an explicit index from the user, and an index at or beyond the
//! candidate count is rejected so the caller asks again instead of
//! panicking.

use vstd::prelude::*;

verus! {

/// With exactly one candidate there is nothing to ask: it is chosen as it
/// stands, without prompting. With any other count the caller must obtain
/// an index from the user.
pub fn choose_message(choices: &Vec<String>) -> (r: Option<String>)
    ensures
        choices@.len() == 1 ==> r == Some(choices@[0]),
        choices@.len() != 1 ==> r is None,
{
    if choices.len() == 1 {
        Some(choices[0].clone())
    } else {
        None
    }
}

/// Whether a user-supplied index names an existing candidate. The prompt
/// keeps asking while this is false.
pub fn validate_choice_index(index: usize, count: usize) -> (ok: bool)
    ensures
        ok == (index < count),
{
    index < count
}

/// The candidate at a validated index; an index at or beyond the count
/// yields nothing rather than a panic.
pub fn pick_message(choices: &Vec<String>, index: usize) -> (r: Option<String>)
    ensures
        index < choices@.len() ==> r == Some(choices@[index as int]),
        index >= choices@.len() ==> r is None,
{
    if index < choices.len() {
        Some(choices[index].clone())
    } else {
        None
    }
}

} // verus!
