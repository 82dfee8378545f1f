//! The diff-size negotiation: before a request is sent, the diff's token
//! count plus the fixed overhead (system prompt and extra instruction) must
//! fit the model's context window. While it does not, the caller asks the
//! user to narrow the diff to a subset of the staged files, regenerates it,
//! and checks again; every round runs through the same decision here.

use vstd::prelude::*;

use crate::errors::CoreError;
use crate::tokens::{count_token, token_count_of};

verus! {

/// What one round of the negotiation concluded about the current diff.
#[derive(Debug, Copy, Clone, PartialEq, Eq, Structural)]
pub enum RoundDecision {
    /// The diff fits: send it as it stands. Carries its token count so the
    /// caller can account for the tokens already used.
    Fit { diff_tokens: usize },
    /// Too long: the user must narrow the diff before anything is sent;
    /// nothing is ever truncated silently. Carries the over-budget total.
    TooLong { total_tokens: usize },
    /// The diff holds no tokens at all: there is nothing to commit, and the
    /// negotiation fails loudly rather than spinning.
    Empty,
}

/// The decision for a diff of `tokens` tokens against a window of
/// `context` tokens, of which `overhead` are already spoken for.
pub open spec fn spec_round_decision(tokens: nat, overhead: nat, context: nat) -> RoundDecision {
    if tokens == 0 {
        RoundDecision::Empty
    } else if overhead + tokens <= context {
        RoundDecision::Fit { diff_tokens: tokens as usize }
    } else {
        RoundDecision::TooLong {
            total_tokens: if overhead + tokens <= usize::MAX {
                (overhead + tokens) as usize
            } else {
                usize::MAX
            },
        }
    }
}

/// One check of the negotiation loop, on an already-measured diff.
pub fn check_budget(diff_tokens: usize, overhead: usize, context: usize) -> (d: RoundDecision)
    ensures
        d == spec_round_decision(diff_tokens as nat, overhead as nat, context as nat),
{
    if diff_tokens == 0 {
        RoundDecision::Empty
    } else if diff_tokens <= context && overhead <= context - diff_tokens {
        RoundDecision::Fit { diff_tokens }
    } else {
        match overhead.checked_add(diff_tokens) {
            Some(total) => RoundDecision::TooLong { total_tokens: total },
            None => RoundDecision::TooLong { total_tokens: usize::MAX },
        }
    }
}

/// One round of the negotiation: sizes the diff the caller currently holds
/// and decides. The diff itself is never altered here; when it fits, what
/// is sent is exactly the text that was measured.
pub fn negotiate_round(diff: &str, overhead: usize, context: usize) -> (r: Result<
    RoundDecision,
    CoreError,
>)
    ensures
        r matches Ok(d) ==> d == spec_round_decision(
            token_count_of(diff@),
            overhead as nat,
            context as nat,
        ),
        r is Err ==> r == Err::<RoundDecision, CoreError>(CoreError::Tokenization),
{
    let diff_tokens = match count_token(diff) {
        Ok(n) => n,
        Err(e) => {
            return Err(e);
        },
    };
    Ok(check_budget(diff_tokens, overhead, context))
}

/// The whole shrink-and-recheck cycle, over the successive diffs that
/// narrowing produces: the first entry is the full staged diff, each
/// further entry the diff regenerated after one selection round. The cycle
/// settles on the first diff whose round does not ask for another
/// selection: accepted when it fits, failed loudly when it is empty. When
/// every given diff is still too long, more narrowing is needed.
pub fn run_negotiation(diffs: &Vec<String>, overhead: usize, context: usize) -> (r: Result<
    Option<(usize, usize)>,
    CoreError,
>)
    ensures
        match r {
            Ok(Some((round, tokens))) => {
                &&& round < diffs@.len()
                &&& tokens == token_count_of(diffs@[round as int]@)
                &&& tokens != 0
                &&& overhead + tokens <= context
                &&& forall|j: int|
                    0 <= j < round ==> spec_round_decision(
                        token_count_of(#[trigger] diffs@[j]@),
                        overhead as nat,
                        context as nat,
                    ) is TooLong
            },
            Ok(None) => forall|j: int|
                0 <= j < diffs@.len() ==> spec_round_decision(
                    token_count_of(#[trigger] diffs@[j]@),
                    overhead as nat,
                    context as nat,
                ) is TooLong,
            Err(e) => {
                &&& (e == CoreError::EmptyDiff || e == CoreError::Tokenization)
                &&& e == CoreError::EmptyDiff ==> exists|j: int|
                    0 <= j < diffs@.len() && token_count_of(#[trigger] diffs@[j]@) == 0
            },
        },
{
    let mut round: usize = 0;
    while round < diffs.len()
        invariant
            round <= diffs@.len(),
            forall|j: int|
                0 <= j < round ==> spec_round_decision(
                    token_count_of(#[trigger] diffs@[j]@),
                    overhead as nat,
                    context as nat,
                ) is TooLong,
        decreases diffs@.len() - round,
    {
        match negotiate_round(diffs[round].as_str(), overhead, context) {
            Err(e) => {
                return Err(e);
            },
            Ok(RoundDecision::Empty) => {
                assert(token_count_of(diffs@[round as int]@) == 0);
                return Err(CoreError::EmptyDiff);
            },
            Ok(RoundDecision::Fit { diff_tokens }) => {
                return Ok(Some((round, diff_tokens)));
            },
            Ok(RoundDecision::TooLong { .. }) => {},
        }
        round += 1;
    }
    Ok(None)
}

/// A diff that already fits is accepted on the very first check, exactly as
/// it stands: no selection round is ever asked for.
pub proof fn lemma_fitting_diff_accepted(tokens: nat, overhead: nat, context: nat)
    requires
        tokens != 0,
        overhead + tokens <= context,
        context <= usize::MAX,
    ensures
        spec_round_decision(tokens, overhead, context) == (RoundDecision::Fit {
            diff_tokens: tokens as usize,
        }),
{
}

/// However many rounds of narrowing went before, a diff is only ever
/// accepted when its token count plus the fixed overhead fits the context
/// window; the negotiation never hands back an over-budget diff.
pub proof fn lemma_accepted_within_budget(tokens: nat, overhead: nat, context: nat)
    requires
        spec_round_decision(tokens, overhead, context) is Fit,
    ensures
        overhead + tokens <= context,
        tokens != 0,
        spec_round_decision(tokens, overhead, context) == (RoundDecision::Fit {
            diff_tokens: tokens as usize,
        }),
{
}

} // verus!
