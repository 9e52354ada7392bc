//! The items of a result stream.
//!
//! One item is either the summary of a statement that has completed
//! (`Either::Left`) or one row of a result set (`Either::Right`), or the
//! failure that took its place.
use crate::error::Error;
use either::Either;
use vstd::prelude::*;

verus! {

/// Makes `either::Either` known to the verifier, which reads the two
/// variants, `Left(L)` and `Right(R)`, from the crate itself. Nothing more is
/// assumed of the type.
#[verifier::external_type_specification]
#[verifier::reject_recursive_types(L)]
#[verifier::reject_recursive_types(R)]
pub struct ExEither<L, R>(Either<L, R>);

/// `either::Either::is_right`. Assumed and not proved: it returns `true` for
/// a `Right` and `false` for a `Left`.
pub assume_specification<L, R>[ Either::<L, R>::is_right ](value: &Either<L, R>) -> (b: bool)
    ensures
        b == (value is Right),
;

/// One position of a result stream.
pub type Item<Q, R> = Result<Either<Q, R>, Error>;

/// Whether the item is a row. Summaries and failures are not.
pub open spec fn is_row<Q, R>(item: Item<Q, R>) -> bool {
    item matches Ok(Either::Right(_))
}

/// What a stream of summaries keeps of an item: the summary or the failure;
/// a row leaves nothing.
pub open spec fn summary_of<Q, R>(item: Item<Q, R>) -> Option<Result<Q, Error>> {
    match item {
        Ok(Either::Left(summary)) => Some(Ok(summary)),
        Ok(Either::Right(_)) => None,
        Err(error) => Some(Err(error)),
    }
}

/// What a stream of rows keeps of an item: the row or the failure; a summary
/// leaves nothing.
pub open spec fn row_of<Q, R>(item: Item<Q, R>) -> Option<Result<R, Error>> {
    match item {
        Ok(Either::Left(_)) => None,
        Ok(Either::Right(row)) => Some(Ok(row)),
        Err(error) => Some(Err(error)),
    }
}

/// Tells a row from the other items.
pub fn item_is_row<Q, R>(item: &Item<Q, R>) -> (b: bool)
    ensures
        b == is_row(*item),
{
    match item {
        Ok(step) => step.is_right(),
        Err(_) => false,
    }
}

/// Reduces an item to what a stream of summaries yields for it.
pub fn into_summary<Q, R>(item: Item<Q, R>) -> (kept: Option<Result<Q, Error>>)
    ensures
        kept == summary_of(item),
{
    match item {
        Ok(step) => match step {
            Either::Left(summary) => Some(Ok(summary)),
            Either::Right(_) => None,
        },
        Err(error) => Some(Err(error)),
    }
}

/// Reduces an item to what a stream of rows yields for it.
pub fn into_row<Q, R>(item: Item<Q, R>) -> (kept: Option<Result<R, Error>>)
    ensures
        kept == row_of(item),
{
    match item {
        Ok(step) => match step {
            Either::Left(_) => None,
            Either::Right(row) => Some(Ok(row)),
        },
        Err(error) => Some(Err(error)),
    }
}

} // verus!
