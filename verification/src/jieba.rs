//! Covering-token lookup of the tokenizer facade.
//!
//! The facade answers one question: which token of a segmented sentence
//! covers a given character position? Segmentation itself is the work of the
//! jieba_rs crate; the library takes the token boundaries it produces and
//! searches them, converting each boundary to the signed width of the C
//! interface and giving up on the first one that does not fit.

use jieba_rs::Jieba;
use vstd::prelude::*;

verus! {

/// Tokenizer of the jieba_rs crate, carried opaquely through the library.
#[verifier::external_type_specification]
#[verifier::external_body]
pub struct ExJieba(Jieba);

/// The token boundaries that the jieba_rs tokenizer yields for a sentence in
/// default mode without HMM: each token's starting and ending character
/// positions, in sentence order.
pub uninterp spec fn tokens_of(tokenizer: Jieba, sentence: Seq<char>) -> Seq<(usize, usize)>;

/// Relies on jieba_rs::Jieba::new: builds a tokenizer over the crate's
/// embedded default dictionary.
#[verifier::external_body]
pub fn jieba_new() -> Jieba {
    Jieba::new()
}

/// Relies on jieba_rs::Jieba::tokenize in default mode without HMM: the
/// boundaries of each token in order, which depend on the tokenizer's
/// dictionary and the sentence alone.
#[verifier::external_body]
fn tokenize_bounds(tokenizer: &Jieba, sentence: &str) -> (bounds: Vec<(usize, usize)>)
    ensures
        bounds@ == tokens_of(*tokenizer, sentence@),
{
    tokenizer
        .tokenize(sentence, jieba_rs::TokenizeMode::Default, false)
        .into_iter()
        .map(|token| (token.start, token.end))
        .collect()
}

/// The covering token for a character position: walking the tokens in
/// order, a boundary that does not fit the C interface's signed word stops
/// the walk with no result, and otherwise the first token whose span
/// contains the position is the result.
pub open spec fn spec_token_at(bounds: Seq<(usize, usize)>, pos: int) -> Option<(i32, i32)>
    decreases bounds.len(),
{
    if bounds.len() == 0 {
        None
    } else if bounds[0].0 as int > i32::MAX as int || bounds[0].1 as int > i32::MAX as int {
        None
    } else if bounds[0].0 as int <= pos && pos < bounds[0].1 as int {
        Some((bounds[0].0 as i32, bounds[0].1 as i32))
    } else {
        spec_token_at(bounds.drop_first(), pos)
    }
}

/// Search the token boundaries for the first span that covers `pos`, with
/// the boundaries converted to the C interface's signed width; a boundary
/// that does not fit that width aborts the search, as does the end of the
/// list.
pub fn find_token_at(bounds: &Vec<(usize, usize)>, pos: i32) -> (found: Option<(i32, i32)>)
    ensures
        found == spec_token_at(bounds@, pos as int),
{
    proof {
        assert(bounds@.skip(0) =~= bounds@);
    }
    let n = bounds.len();
    let mut i: usize = 0;
    while i < n
        invariant
            n == bounds@.len(),
            0 <= i <= n,
            spec_token_at(bounds@, pos as int) == spec_token_at(
                bounds@.skip(i as int),
                pos as int,
            ),
        decreases n - i,
    {
        let start = bounds[i].0;
        let end = bounds[i].1;
        proof {
            assert(bounds@.skip(i as int)[0] == bounds@[i as int]);
            assert(bounds@.skip(i as int).drop_first() =~= bounds@.skip(i as int + 1));
        }
        if start > i32::MAX as usize || end > i32::MAX as usize {
            return None;
        }
        let covers_start = start as i32;
        let covers_end = end as i32;
        if covers_start <= pos && pos < covers_end {
            return Some((covers_start, covers_end));
        }
        i += 1;
    }
    None
}

/// Boundaries of the token covering a character position of the sentence,
/// as the jieba_rs tokenizer segments it in default mode without HMM;
/// nothing when no token covers the position or a boundary does not fit the
/// C interface's signed width.
pub fn jieba_token_at(tokenizer: &Jieba, sentence: &str, pos: i32) -> (found: Option<(i32, i32)>)
    ensures
        found == spec_token_at(tokens_of(*tokenizer, sentence@), pos as int),
{
    let bounds = tokenize_bounds(tokenizer, sentence);
    find_token_at(&bounds, pos)
}

} // verus!
