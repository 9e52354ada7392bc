//! What holds of the operations for every stream that a backend may produce.
//!
//! `items` stands for what a backend produces for a query: the value of
//! `SyncExecutor::answer`, which the contract of each operation refers to.
use crate::connection::{bridged, effective_persistence};
use crate::database::{Database, Summary};
use crate::engine::NativeEngine;
use crate::error::Error;
use crate::executor::SyncExecutor;
use crate::item::{is_row, Item};
use crate::model::{
    bounded, combined, count_rows, exactly_one, first_row, gathered, lemma_merge_all_push,
    merge_all, merged, rows_of, summaries_of,
};
use either::Either;
use vstd::prelude::*;

verus! {

/// Whether every item is the summary of a statement: the query produces no
/// row and nothing fails.
pub open spec fn only_summaries<Q, R>(items: Seq<Item<Q, R>>) -> bool {
    forall|i: int| 0 <= i < items.len() ==> #[trigger] items[i] matches Ok(Either::Left(_))
}

/// Whether no item is a failure.
pub open spec fn without_failure<Q, R>(items: Seq<Item<Q, R>>) -> bool {
    forall|i: int| 0 <= i < items.len() ==> #[trigger] items[i] is Ok
}

/// A query without rows: `fetch_optional` returns `None` and `fetch_one`
/// fails with `RowNotFound`.
pub proof fn law_no_row_is_none<Q, R>(items: Seq<Item<Q, R>>)
    requires
        only_summaries(items),
    ensures
        rows_of(items) == Seq::<Result<R, Error>>::empty(),
        first_row(items) == Ok::<Option<R>, Error>(None),
        exactly_one(first_row(items)) == Err::<R, Error>(Error::RowNotFound),
    decreases items.len(),
{
    if items.len() > 0 {
        law_no_row_is_none(items.skip(1));
    }
}

/// A query with a row: `fetch_optional` and `fetch_one` return the first row
/// in the order of the engine, whatever follows it. `at` is the place of the
/// first row; before it the engine reports completed statements only.
pub proof fn law_first_row_is_found<Q, R>(items: Seq<Item<Q, R>>, at: int, row: R)
    requires
        0 <= at < items.len(),
        items[at] == Ok::<Either<Q, R>, Error>(Either::Right(row)),
        only_summaries(items.take(at)),
    ensures
        first_row(items) == Ok::<Option<R>, Error>(Some(row)),
        exactly_one(first_row(items)) == Ok::<R, Error>(row),
    decreases at,
{
    if at > 0 {
        assert(items.take(at)[0] == items[0]);
        assert forall|i: int| 0 <= i < items.skip(1).take(at - 1).len() implies #[trigger] items.skip(
            1,
        ).take(at - 1)[i] matches Ok(Either::Left(_)) by {
            assert(items.skip(1).take(at - 1)[i] == items.take(at)[i + 1]);
        }
        law_first_row_is_found(items.skip(1), at - 1, row);
    }
}

/// The stream of rows keeps the order of the items: it is the stream of rows
/// of a first part followed by that of the rest.
pub proof fn law_rows_keep_order<Q, R>(first: Seq<Item<Q, R>>, rest: Seq<Item<Q, R>>)
    ensures
        rows_of(first + rest) == rows_of(first) + rows_of(rest),
    decreases first.len(),
{
    if first.len() > 0 {
        law_rows_keep_order(first.skip(1), rest);
        assert((first + rest).skip(1) =~= first.skip(1) + rest);
    }
}

/// The stream of summaries keeps the order of the items: it is the stream of
/// summaries of a first part followed by that of the rest.
pub proof fn law_summaries_keep_order<Q, R>(first: Seq<Item<Q, R>>, rest: Seq<Item<Q, R>>)
    ensures
        summaries_of(first + rest) == summaries_of(first) + summaries_of(rest),
    decreases first.len(),
{
    if first.len() > 0 {
        law_summaries_keep_order(first.skip(1), rest);
        assert((first + rest).skip(1) =~= first.skip(1) + rest);
    }
}

/// A stream of N rows: `fetch_all` returns exactly these N rows, in the
/// order of the engine, and `execute_many` yields nothing.
pub proof fn law_fetch_all_returns_every_row<Q, R>(items: Seq<Item<Q, R>>, rows: Seq<R>)
    requires
        items.len() == rows.len(),
        forall|i: int|
            0 <= i < items.len() ==> #[trigger] items[i] == Ok::<Either<Q, R>, Error>(
                Either::Right(rows[i]),
            ),
    ensures
        gathered(rows_of(items)) == Ok::<Seq<R>, Error>(rows),
        summaries_of(items) == Seq::<Result<Q, Error>>::empty(),
    decreases items.len(),
{
    if items.len() == 0 {
        assert(rows =~= Seq::empty());
    } else {
        law_fetch_all_returns_every_row(items.skip(1), rows.skip(1));
        assert(rows_of(items).skip(1) =~= rows_of(items.skip(1)));
        assert(seq![rows[0]] + rows.skip(1) =~= rows);
    }
}

/// A script of N statements that produce no rows: `execute_many` yields one
/// summary for each statement, in order, and `fetch` yields nothing.
pub proof fn law_execute_many_returns_every_summary<Q, R>(
    items: Seq<Item<Q, R>>,
    summaries: Seq<Q>,
)
    requires
        items.len() == summaries.len(),
        forall|i: int|
            0 <= i < items.len() ==> #[trigger] items[i] == Ok::<Either<Q, R>, Error>(
                Either::Left(summaries[i]),
            ),
    ensures
        gathered(summaries_of(items)) == Ok::<Seq<Q>, Error>(summaries),
        summaries_of(items).len() == summaries.len(),
        rows_of(items) == Seq::<Result<R, Error>>::empty(),
    decreases items.len(),
{
    if items.len() == 0 {
        assert(summaries =~= Seq::empty());
    } else {
        law_execute_many_returns_every_summary(items.skip(1), summaries.skip(1));
        assert(summaries_of(items).skip(1) =~= summaries_of(items.skip(1)));
        assert(seq![summaries[0]] + summaries.skip(1) =~= summaries);
    }
}

/// Where nothing fails, `fetch_all` returns as many rows as the stream
/// holds.
pub proof fn law_fetch_all_counts_the_rows<Q, R>(items: Seq<Item<Q, R>>)
    requires
        without_failure(items),
    ensures
        gathered(rows_of(items)) matches Ok(rows) && rows.len() == count_rows(items),
    decreases items.len(),
{
    if items.len() > 0 {
        law_fetch_all_counts_the_rows(items.skip(1));
        if is_row(items[0]) {
            assert(rows_of(items).skip(1) =~= rows_of(items.skip(1)));
        }
    }
}

/// Where nothing fails, the eager operations gather every value, in order.
pub proof fn law_no_failure_gathers_all<T>(results: Seq<Result<T, Error>>, values: Seq<T>)
    requires
        results.len() == values.len(),
        forall|i: int| 0 <= i < results.len() ==> #[trigger] results[i] == Ok::<T, Error>(values[i]),
    ensures
        gathered(results) == Ok::<Seq<T>, Error>(values),
    decreases results.len(),
{
    if results.len() == 0 {
        assert(values =~= Seq::empty());
    } else {
        law_no_failure_gathers_all(results.skip(1), values.skip(1));
        assert(seq![values[0]] + values.skip(1) =~= values);
    }
}

/// `execute` is the merge of what `execute_many` yields: where the stream
/// of summaries holds `summaries` and no failure, the outcome is their merge
/// from first to last. Merging no summary gives the empty summary, and each
/// further summary is merged onto what came before.
pub proof fn law_execute_merges_every_summary<Q: Summary>(
    results: Seq<Result<Q, Error>>,
    summaries: Seq<Q>,
)
    requires
        results.len() == summaries.len(),
        forall|i: int|
            0 <= i < results.len() ==> #[trigger] results[i] == Ok::<Q, Error>(summaries[i]),
    ensures
        merged(results) == Ok::<Q, Error>(merge_all(summaries)),
        merged(Seq::<Result<Q, Error>>::empty()) == Ok::<Q, Error>(Q::empty_spec()),
        summaries.len() > 0 ==> merge_all(summaries) == merge_all(
            summaries.drop_last(),
        ).merge_spec(summaries.last()),
{
    law_no_failure_gathers_all(results, summaries);
}

/// The summary of a script is the summary of its first part merged with the
/// combined summary of the statements that follow: since merging is
/// associative, where a script is cut does not matter.
pub proof fn law_merge_splits<Q: Summary>(first: Seq<Q>, rest: Seq<Q>)
    requires
        rest.len() > 0,
    ensures
        merge_all(first + rest) == merge_all(first).merge_spec(combined(rest)),
    decreases rest.len(),
{
    if rest.len() == 1 {
        assert(first + rest =~= first.push(rest[0]));
        lemma_merge_all_push(first, rest[0]);
    } else {
        let before = rest.drop_last();
        assert(first + rest =~= (first + before).push(rest.last()));
        lemma_merge_all_push(first + before, rest.last());
        law_merge_splits(first, before);
        Q::merge_is_associative(merge_all(first), combined(before), rest.last());
    }
}

/// A failure anywhere fails the eager operations with the first failure:
/// what was gathered before it is dropped.
pub proof fn law_first_failure_fails_all<T>(results: Seq<Result<T, Error>>, at: int)
    requires
        0 <= at < results.len(),
        results[at] is Err,
        forall|i: int| 0 <= i < at ==> #[trigger] results[i] is Ok,
    ensures
        gathered(results) == Err::<Seq<T>, Error>(results[at]->Err_0),
    decreases at,
{
    if at > 0 {
        law_first_failure_fails_all(results.skip(1), at - 1);
    }
}

/// Running a query again on a backend that yields the same rows for it
/// again: `fetch_all` returns the same rows, or fails alike.
pub proof fn law_fetch_all_is_repeatable<X: SyncExecutor>(
    first: X,
    second: X,
    sql: Seq<char>,
    arguments: Result<Option<<X::Database as Database>::Arguments>, String>,
    hint: bool,
)
    requires
        rows_of(second.answer(sql, arguments, hint)) == rows_of(
            first.answer(sql, arguments, hint),
        ),
    ensures
        gathered(rows_of(second.answer(sql, arguments, hint))) == gathered(
            rows_of(first.answer(sql, arguments, hint)),
        ),
        first_row(second.answer(sql, arguments, hint)) == first_row(
            first.answer(sql, arguments, hint),
        ),
{
}

/// A query whose arguments could not be bound never reaches the engine: its
/// stream is the failure alone, whatever the state of the engine.
pub proof fn law_failed_binding_skips_the_engine<E: NativeEngine>(
    engine: E,
    sql: Seq<char>,
    reason: String,
    hint: bool,
)
    ensures
        bridged(engine, sql, Err(reason), hint) == seq![
            Err::<Either<
                <E::Database as Database>::QueryResult,
                <E::Database as Database>::Row,
            >, Error>(Error::Encode(reason)),
        ],
{
}

/// A query without arguments is never persistent, whatever its hint.
pub proof fn law_unbound_query_is_not_persistent<E: NativeEngine>(
    engine: E,
    sql: Seq<char>,
    hint: bool,
)
    ensures
        !effective_persistence(hint, None::<<E::Database as Database>::Arguments>),
        bridged(engine, sql, Ok(None), hint) == bridged(engine, sql, Ok(None), false),
{
}

/// A bounded stream is the start of the stream it bounds: the order of the
/// items is kept and nothing is left out before the cut.
pub proof fn law_bounded_is_a_prefix<Q, R>(items: Seq<Item<Q, R>>, limit: nat)
    ensures
        bounded(items, limit).len() <= items.len(),
        bounded(items, limit) == items.take(bounded(items, limit).len() as int),
    decreases items.len(),
{
    if limit > 0 && items.len() > 0 {
        let left = if is_row(items[0]) {
            (limit - 1) as nat
        } else {
            limit
        };
        law_bounded_is_a_prefix(items.skip(1), left);
    }
}

/// A bounded stream holds as many rows as the bound allows and the stream
/// has: the bound is never exceeded, and no row is cut that it allows.
pub proof fn law_bounded_counts_rows<Q, R>(items: Seq<Item<Q, R>>, limit: nat)
    ensures
        count_rows(bounded(items, limit)) == if count_rows(items) < limit {
            count_rows(items)
        } else {
            limit
        },
    decreases items.len(),
{
    if limit > 0 && items.len() > 0 {
        let rest = items.skip(1);
        let left = if is_row(items[0]) {
            (limit - 1) as nat
        } else {
            limit
        };
        law_bounded_counts_rows(rest, left);
        assert(bounded(items, limit).skip(1) =~= bounded(rest, left));
    }
}

/// The cut falls right after a row: a stream with fewer rows than the bound
/// passes whole, and a stream that is cut short ends with the row that
/// reached the bound.
pub proof fn law_bounded_ends_with_a_row<Q, R>(items: Seq<Item<Q, R>>, limit: nat)
    requires
        limit > 0,
    ensures
        count_rows(items) < limit ==> bounded(items, limit) == items,
        bounded(items, limit).len() < items.len() ==> {
            &&& is_row(bounded(items, limit).last())
            &&& count_rows(bounded(items, limit)) == limit
        },
    decreases items.len(),
{
    if items.len() > 0 {
        let rest = items.skip(1);
        let left = if is_row(items[0]) {
            (limit - 1) as nat
        } else {
            limit
        };
        assert(bounded(items, limit).skip(1) =~= bounded(rest, left));
        if left > 0 {
            law_bounded_ends_with_a_row(rest, left);
        }
    }
}

} // verus!
