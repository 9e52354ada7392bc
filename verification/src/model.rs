//! What each operation makes of a result stream, stated over sequences of
//! items.
use crate::database::Summary;
use crate::error::Error;
use crate::item::{is_row, row_of, summary_of, Item};
use vstd::prelude::*;

verus! {

/// The stream of summaries: every summary and every failure of `items`, in
/// order, without the rows.
pub open spec fn summaries_of<Q, R>(items: Seq<Item<Q, R>>) -> Seq<Result<Q, Error>>
    decreases items.len(),
{
    if items.len() == 0 {
        Seq::empty()
    } else {
        match summary_of(items[0]) {
            Some(kept) => seq![kept] + summaries_of(items.skip(1)),
            None => summaries_of(items.skip(1)),
        }
    }
}

/// The stream of rows: every row and every failure of `items`, in order,
/// without the summaries.
pub open spec fn rows_of<Q, R>(items: Seq<Item<Q, R>>) -> Seq<Result<R, Error>>
    decreases items.len(),
{
    if items.len() == 0 {
        Seq::empty()
    } else {
        match row_of(items[0]) {
            Some(kept) => seq![kept] + rows_of(items.skip(1)),
            None => rows_of(items.skip(1)),
        }
    }
}

/// How many of `items` are rows.
pub open spec fn count_rows<Q, R>(items: Seq<Item<Q, R>>) -> nat
    decreases items.len(),
{
    if items.len() == 0 {
        0
    } else if is_row(items[0]) {
        1 + count_rows(items.skip(1))
    } else {
        count_rows(items.skip(1))
    }
}

/// The stream cut short by a row bound: `items` up to and including its
/// `limit`-th row, and all of `items` where it holds fewer rows. Only rows
/// are counted; summaries and failures pass for as long as the bound has not
/// been reached.
pub open spec fn bounded<Q, R>(items: Seq<Item<Q, R>>, limit: nat) -> Seq<Item<Q, R>>
    decreases items.len(),
{
    if limit == 0 || items.len() == 0 {
        Seq::empty()
    } else if is_row(items[0]) {
        seq![items[0]] + bounded(items.skip(1), (limit - 1) as nat)
    } else {
        seq![items[0]] + bounded(items.skip(1), limit)
    }
}

/// The outcome of looking for one row: the first row of the stream, nothing
/// where the stream ends without one, and the failure that comes before any
/// row.
pub open spec fn first_row<Q, R>(items: Seq<Item<Q, R>>) -> Result<Option<R>, Error> {
    let rows = rows_of(items);
    if rows.len() == 0 {
        Ok(None)
    } else {
        match rows[0] {
            Ok(row) => Ok(Some(row)),
            Err(error) => Err(error),
        }
    }
}

/// The outcome of asking for exactly one row: as `first_row`, but a stream
/// without a row is the failure `RowNotFound`.
pub open spec fn exactly_one<R>(found: Result<Option<R>, Error>) -> Result<R, Error> {
    match found {
        Ok(Some(row)) => Ok(row),
        Ok(None) => Err(Error::RowNotFound),
        Err(error) => Err(error),
    }
}

/// All or nothing: the values of `results` in order where none is a failure,
/// else the first failure.
pub open spec fn gathered<T>(results: Seq<Result<T, Error>>) -> Result<Seq<T>, Error>
    decreases results.len(),
{
    if results.len() == 0 {
        Ok(Seq::empty())
    } else {
        match results[0] {
            Err(error) => Err(error),
            Ok(value) => match gathered(results.skip(1)) {
                Ok(rest) => Ok(seq![value] + rest),
                Err(error) => Err(error),
            },
        }
    }
}

/// The summaries merged from first to last into the empty summary.
pub open spec fn merge_all<Q: Summary>(summaries: Seq<Q>) -> Q
    decreases summaries.len(),
{
    if summaries.len() == 0 {
        Q::empty_spec()
    } else {
        merge_all(summaries.drop_last()).merge_spec(summaries.last())
    }
}

/// The summaries of a run of statements merged from first to last, the run
/// holding one statement at least.
pub open spec fn combined<Q: Summary>(summaries: Seq<Q>) -> Q
    recommends
        summaries.len() > 0,
    decreases summaries.len(),
{
    if summaries.len() <= 1 {
        summaries[0]
    } else {
        combined(summaries.drop_last()).merge_spec(summaries.last())
    }
}

/// The outcome of executing: the merge of every summary where none of
/// `results` is a failure, else the first failure.
pub open spec fn merged<Q: Summary>(results: Seq<Result<Q, Error>>) -> Result<Q, Error> {
    match gathered(results) {
        Ok(summaries) => Ok(merge_all(summaries)),
        Err(error) => Err(error),
    }
}

/// `values` put in front of what `gathered` made of the rest of a stream.
pub open spec fn after<T>(values: Seq<T>, rest: Result<Seq<T>, Error>) -> Result<Seq<T>, Error> {
    match rest {
        Ok(more) => Ok(values + more),
        Err(error) => Err(error),
    }
}

/// Gathering a stream whose first result is a value: the value goes in front
/// of what the rest gathers to.
pub proof fn lemma_gathered_step<T>(values: Seq<T>, results: Seq<Result<T, Error>>)
    requires
        results.len() > 0,
        results[0] is Ok,
    ensures
        after(values, gathered(results)) == after(
            values.push(results[0]->Ok_0),
            gathered(results.skip(1)),
        ),
{
    let value = results[0]->Ok_0;
    match gathered(results.skip(1)) {
        Ok(rest) => {
            assert(values + (seq![value] + rest) =~= values.push(value) + rest);
        },
        Err(_) => {},
    }
}

/// Merging one more summary onto a merged sequence.
pub proof fn lemma_merge_all_push<Q: Summary>(summaries: Seq<Q>, next: Q)
    ensures
        merge_all(summaries.push(next)) == merge_all(summaries).merge_spec(next),
{
    assert(summaries.push(next).drop_last() =~= summaries);
}

/// A row bound of one or more does not change which row is found first.
pub proof fn lemma_first_row_bounded<Q, R>(items: Seq<Item<Q, R>>, limit: nat)
    requires
        limit > 0,
    ensures
        first_row(bounded(items, limit)) == first_row(items),
    decreases items.len(),
{
    if items.len() > 0 {
        let rest = items.skip(1);
        let cut = bounded(items, limit);
        if is_row(items[0]) {
        } else {
            lemma_first_row_bounded(rest, limit);
            assert(cut.skip(1) =~= bounded(rest, limit));
        }
    }
}

} // verus!
