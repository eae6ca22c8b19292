use crate::option::{option_and, option_or, option_transpose, StaticOption};
use crate::result::{result_and, result_or, result_transpose};
use vstd::prelude::*;

verus! {

/// A value put in with `some` is reported present and comes back unchanged.
///
/// `opt` is what `some(v)` returns, `present` what `is_some` reports of it and `out` what
/// `into_inner` (or `unwrap`) takes out of it, each as its contract states.
pub proof fn lemma_some_round_trip<T>(v: T, opt: StaticOption<T, true>, present: bool, out: T)
    requires
        opt@ == Some(v),
        present == opt@ is Some,
        opt@ == Some(out),
    ensures
        present,
        out == v,
{
}

/// An absent option cannot be unwrapped, and `unwrap_or` on it gives the default back.
///
/// For any option `opt`, `present` is what `is_some` reports of it (both its tag and whether
/// its view holds a value) and `out` is what `unwrap_or(default)` returns for it. The view is
/// empty exactly when the tag is `false`, as for every option that `none` makes; there
/// `unwrap` and `expect`, which require the tag to be `true`, cannot be called, and `out`
/// is `default`.
pub proof fn lemma_none_unwrap_or<T, const IS_SOME: bool>(
    opt: StaticOption<T, IS_SOME>,
    present: bool,
    default: T,
    out: T,
)
    requires
        present == IS_SOME,
        present == opt@ is Some,
        out == (match opt@ {
            Some(v) => v,
            None => default,
        }),
    ensures
        opt@ is None <==> !IS_SOME,
        !IS_SOME ==> out == default,
{
}

/// The tags of the option combinators follow boolean algebra: `and` holds a value exactly
/// when both operands do, `or` exactly when at least one does.
pub proof fn lemma_option_combinator_tags<T, U>(a: Option<T>, b: Option<U>, c: Option<T>)
    ensures
        option_and(a, b) is Some <==> (a is Some && b is Some),
        option_or(a, c) is Some <==> (a is Some || c is Some),
        a is Some ==> option_and(a, b) == b && option_or(a, c) == a,
        a is None ==> option_and(a, b) == None::<U> && option_or(a, c) == c,
{
}

/// The tags of the result combinators follow boolean algebra: `and` is a success exactly
/// when both operands are, `or` exactly when at least one is.
pub proof fn lemma_result_combinator_tags<T, U, E, F>(
    a: Result<T, E>,
    b: Result<U, E>,
    c: Result<T, F>,
)
    ensures
        result_and(a, b) is Ok <==> (a is Ok && b is Ok),
        result_or(a, c) is Ok <==> (a is Ok || c is Ok),
        a is Ok ==> result_and(a, b) == b && result_or(a, c) == Ok::<T, F>(a->Ok_0),
        a is Err ==> result_and(a, b) == Err::<U, E>(a->Err_0) && result_or(a, c) == c,
{
}

/// Transposing twice gives back what was transposed, starting from either nesting.
pub proof fn lemma_transpose_round_trip<T, E>(x: Option<Result<T, E>>, y: Result<Option<T>, E>)
    ensures
        result_transpose(option_transpose(x)) == x,
        option_transpose(result_transpose(y)) == y,
{
}

} // verus!
