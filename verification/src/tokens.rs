//! Token counting. Every text that is measured anywhere in the core goes
//! through the same byte-pair tokenizer, so budget comparisons across
//! texts mean the same thing everywhere.

use vstd::prelude::*;

use crate::errors::CoreError;

verus! {

/// The number of tokens the byte-pair tokenizer splits a text into. The
/// vocabulary is fixed and embedded in the tokenizer, so the count depends
/// on the characters of the text alone.
pub uninterp spec fn token_count_of(s: Seq<char>) -> nat;

/// Relies on `tiktoken_rs::cl100k_base`, which builds the tokenizer from a
/// fixed embedded vocabulary and fails only when that construction fails,
/// and on `CoreBPE::encode_with_special_tokens`, whose token list for a
/// text depends on the text alone; its length is the count returned here.
#[verifier::external_body]
pub fn count_token(s: &str) -> (r: Result<usize, CoreError>)
    ensures
        match r {
            Ok(n) => n == token_count_of(s@),
            Err(e) => e == CoreError::Tokenization,
        },
{
    match tiktoken_rs::cl100k_base() {
        Ok(bpe) => Ok(bpe.encode_with_special_tokens(s).len()),
        Err(_) => Err(CoreError::Tokenization),
    }
}

} // verus!
