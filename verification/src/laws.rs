//! What holds of every session: how many commits a run of calls issues,
//! what a flush does, and in which order the rows reach the store.

use vstd::prelude::*;
use crate::row::RowModel;
use crate::session::{
    commands_of,
    flushes,
    is_subsequence,
    pending_after,
    recorded,
    recorded_by,
    records,
    Call,
    Command,
    Session,
};

verus! {

proof fn lemma_count_step(count: nat, threshold: nat)
    requires
        threshold > 0,
    ensures
        count % threshold + 1 >= threshold ==> (count + 1) % threshold == 0 && (count + 1)
            / threshold == count / threshold + 1,
        count % threshold + 1 < threshold ==> (count + 1) % threshold == count % threshold + 1
            && (count + 1) / threshold == count / threshold,
{
    let t = threshold as int;
    let c = count as int;
    vstd::arithmetic::div_mod::lemma_fundamental_div_mod(c, t);
    vstd::arithmetic::div_mod::lemma_mod_bound(c, t);
    if c % t + 1 >= t {
        assert(c + 1 == (c / t + 1) * t + 0) by (nonlinear_arith)
            requires
                c == t * (c / t) + c % t,
                c % t + 1 == t,
        ;
        vstd::arithmetic::div_mod::lemma_fundamental_div_mod_converse(c + 1, t, c / t + 1, 0);
    } else {
        assert(c + 1 == (c / t) * t + (c % t + 1)) by (nonlinear_arith)
            requires
                c == t * (c / t) + c % t,
        ;
        vstd::arithmetic::div_mod::lemma_fundamental_div_mod_converse(
            c + 1,
            t,
            c / t,
            c % t + 1,
        );
    }
}

/// With a threshold of at least 1, after any calls on a session the counter
/// is the number of rows counted, modulo the threshold, and one commit has
/// been issued for each full batch and one for each flush.
pub proof fn lemma_commits_issued(start: Session, commands: Seq<Command>)
    requires
        start.wf(),
        start.threshold > 0,
    ensures
        start.run(commands).wf(),
        start.run(commands).threshold == start.threshold,
        start.run(commands).pending == (start.pending + recorded(commands).len())
            % start.threshold,
        start.run(commands).commits == start.commits + (start.pending + recorded(
            commands,
        ).len()) / start.threshold + flushes(commands),
    decreases commands.len(),
{
    if commands.len() == 0 {
        vstd::arithmetic::div_mod::lemma_small_mod(start.pending, start.threshold);
        vstd::arithmetic::div_mod::lemma_basic_div(start.pending as int, start.threshold as int);
    } else {
        lemma_commits_issued(start, commands.drop_last());
        lemma_count_step(start.pending + recorded(commands.drop_last()).len(), start.threshold);
    }
}

/// On a new session with a threshold of at least 1, the commits issued for
/// full batches are as many as the threshold goes into the number of rows
/// recorded, and the counter ends at the remainder, whatever flushes stand
/// between the records.
pub proof fn lemma_batches_of_new_session(threshold: nat, commands: Seq<Command>)
    requires
        threshold > 0,
    ensures
        Session::fresh(threshold).run(commands).commits - flushes(commands) == recorded(
            commands,
        ).len() / threshold,
        Session::fresh(threshold).run(commands).pending == recorded(commands).len() % threshold,
{
    lemma_commits_issued(Session::fresh(threshold), commands);
}

/// The calls that record `rows` hold those rows and no flush.
pub proof fn lemma_records(rows: Seq<RowModel>)
    ensures
        recorded(records(rows)) == rows,
        flushes(records(rows)) == 0,
    decreases rows.len(),
{
    if rows.len() > 0 {
        lemma_records(rows.drop_last());
        assert(records(rows).drop_last() =~= records(rows.drop_last()));
    }
}

/// A flush always issues a commit, whatever the counter says: it covers
/// every row of the open transaction and leaves the counter as it was. The
/// row recorded next is alone in the new transaction, or is committed at
/// once where the counter, stale as it is, calls for that.
pub proof fn lemma_flush_commits(before: Session, next: RowModel)
    ensures
        before.flush().commits == before.commits + 1,
        before.flush().committed == before.rows(),
        before.flush().open == Seq::<RowModel>::empty(),
        before.flush().pending == before.pending,
        before.flush().threshold == before.threshold,
        before.commit_due() ==> before.flush().record(next).open == Seq::<RowModel>::empty(),
        !before.commit_due() ==> before.flush().record(next).open == seq![next],
        before.flush().record(next).pending == pending_after(before.pending, before.threshold),
{
}

/// With a threshold of 1, or of 0, every record is committed at once: no row
/// is ever left in the open transaction, and the counter stays at 0.
pub proof fn lemma_unbatched(before: Session, row: RowModel)
    requires
        before.threshold <= 1,
    ensures
        before.record(row).commits == before.commits + 1,
        before.record(row).committed == before.rows().push(row),
        before.record(row).open == Seq::<RowModel>::empty(),
        before.record(row).pending == 0,
{
}

/// With a threshold of 1, or of 0, the calls on a session issue one commit
/// for each row and one for each flush, and leave the counter at 0.
pub proof fn lemma_unbatched_run(start: Session, commands: Seq<Command>)
    requires
        start.wf(),
        start.threshold <= 1,
    ensures
        start.run(commands).threshold == start.threshold,
        start.run(commands).pending == 0,
        start.run(commands).commits == start.commits + recorded(commands).len() + flushes(
            commands,
        ),
    decreases commands.len(),
{
    if commands.len() > 0 {
        lemma_unbatched_run(start, commands.drop_last());
    }
}

/// The store is handed the rows in the order of the calls that record them:
/// neither a commit nor a flush moves or drops a row.
pub proof fn lemma_rows_in_call_order(start: Session, commands: Seq<Command>)
    ensures
        start.run(commands).rows() == start.rows() + recorded(commands),
    decreases commands.len(),
{
    if commands.len() > 0 {
        lemma_rows_in_call_order(start, commands.drop_last());
        let before = start.run(commands.drop_last());
        assert(before.step(commands.last()).rows() =~= before.rows() + (recorded(commands).skip(
            recorded(commands.drop_last()).len() as int,
        )));
    }
}

/// Between two calls the open transaction holds no more rows than the
/// counter says, so fewer than the threshold: that many rows, at most, are
/// lost where the process ends without a flush.
pub proof fn lemma_open_rows_bounded(start: Session, commands: Seq<Command>)
    requires
        start.wf(),
        start.open.len() <= start.pending,
    ensures
        start.run(commands).wf(),
        start.run(commands).threshold == start.threshold,
        start.run(commands).open.len() <= start.run(commands).pending,
        start.threshold > 0 ==> start.run(commands).open.len() < start.threshold,
    decreases commands.len(),
{
    if commands.len() > 0 {
        lemma_open_rows_bounded(start, commands.drop_last());
    }
}

proof fn lemma_subsequence_after(part: Seq<RowModel>, before: Seq<RowModel>, whole: Seq<RowModel>)
    requires
        is_subsequence(part, whole),
    ensures
        is_subsequence(part, before + whole),
    decreases whole.len(),
{
    if part.len() > 0 {
        assert((before + whole).drop_last() =~= before + whole.drop_last());
        if part.last() == whole.last() && is_subsequence(part.drop_last(), whole.drop_last()) {
            lemma_subsequence_after(part.drop_last(), before, whole.drop_last());
        } else {
            lemma_subsequence_after(part, before, whole.drop_last());
        }
    }
}

proof fn lemma_recorded_by_is_subsequence(calls: Seq<Call>, producer: nat)
    ensures
        is_subsequence(recorded_by(calls, producer), recorded(commands_of(calls))),
    decreases calls.len(),
{
    if calls.len() > 0 {
        lemma_recorded_by_is_subsequence(calls.drop_last(), producer);
        assert(commands_of(calls).drop_last() =~= commands_of(calls.drop_last()));
        let part = recorded_by(calls, producer);
        let whole = recorded(commands_of(calls));
        match calls.last().command {
            Command::Record(row) => {
                assert(whole.drop_last() =~= recorded(commands_of(calls.drop_last())));
                if calls.last().producer == producer {
                    assert(part.drop_last() =~= recorded_by(calls.drop_last(), producer));
                }
            },
            Command::Flush => {},
        }
    }
}

/// In whatever way the calls of several producers are interleaved, the rows
/// of each producer reach the store in the order in which that producer
/// recorded them: they are a subsequence of the rows of the session.
pub proof fn lemma_producer_order_kept(start: Session, calls: Seq<Call>, producer: nat)
    ensures
        is_subsequence(recorded_by(calls, producer), start.run(commands_of(calls)).rows()),
{
    lemma_recorded_by_is_subsequence(calls, producer);
    lemma_rows_in_call_order(start, commands_of(calls));
    lemma_subsequence_after(
        recorded_by(calls, producer),
        start.rows(),
        recorded(commands_of(calls)),
    );
}

} // verus!
