use vstd::prelude::*;

mod iterator;
mod laws;
mod option;
mod result;

pub use iterator::Iter;
pub use laws::{
    lemma_none_unwrap_or, lemma_option_combinator_tags, lemma_result_combinator_tags,
    lemma_some_round_trip, lemma_transpose_round_trip,
};
pub use option::{borrowed, option_and, option_or, option_transpose, StaticOption};
pub use result::{borrowed_result, result_and, result_or, result_transpose, StaticResult};
