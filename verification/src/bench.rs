//! The benchmark: the same stream of events is sent through controllers of
//! growing batch size on one store, and each pass is timed.

use vstd::prelude::*;
use crate::bootstrap::setup_logger;
use crate::error::{LogError, Stage};
use crate::logdb::LogDB;
use crate::row::{LogRow, RowModel, Severity};
use crate::laws::{
    lemma_commits_issued,
    lemma_records,
    lemma_rows_in_call_order,
    lemma_unbatched_run,
};
use crate::session::{records, Session};
use crate::text::{hello_message, hello_text};

verus! {

/// The number of events of one pass.
pub const BENCH_EVENTS: usize = 1_000_000;

/// The batch sizes of the passes, in their order: the tens up to 100, then
/// the hundreds up to 1000.
pub open spec fn batch_sizes() -> Seq<usize> {
    seq![10, 20, 30, 40, 50, 60, 70, 80, 90, 100, 200, 300, 400, 500, 600, 700, 800, 900, 1000]
}

/// The row of the benchmark event with the given number: informational, with
/// the greeting and the number as its message.
pub open spec fn hello_row(number: nat) -> RowModel {
    RowModel { severity: Severity::Info.code(), message: hello_text(number) }
}

/// The rows of the first `events` benchmark events.
pub open spec fn hello_rows(events: nat) -> Seq<RowModel> {
    Seq::new(events, |number: int| hello_row(number as nat))
}

/// The commits that one pass issues: one for each full batch, or for each
/// event where the batch size is 0, and one for the flush that ends it.
pub open spec fn pass_commits(batch_size: nat, events: nat) -> nat {
    if batch_size == 0 {
        events + 1
    } else {
        events / batch_size + 1
    }
}

/// Whether recording and flushing can fail at this step.
pub open spec fn record_stage(stage: Stage) -> bool {
    stage == Stage::Prepare || stage == Stage::Insert || stage == Stage::Commit
}

/// What one pass did and how long it took.
#[derive(Debug)]
pub struct BenchRun {
    /// The threshold of the controller.
    pub batch_size: usize,
    /// The number of events recorded.
    pub events: usize,
    /// The number of commits issued, the closing flush among them.
    pub commits: usize,
    /// The wall-clock time of the pass, unless the clock was set back
    /// meanwhile.
    pub elapsed: Option<std::time::Duration>,
}

/// The session in which the store refused the benchmark event with the
/// number `done`, at the step `stage`: the events before it are recorded, and
/// the event itself is written too where the refusal is that of a commit.
pub open spec fn stopped_at(start: Session, done: nat, stage: Stage) -> Session {
    let before = start.run(records(hello_rows(done)));
    if stage == Stage::Commit {
        before.write(hello_row(done))
    } else {
        before
    }
}

/// Records the first `events` benchmark events, in order, and answers with
/// the number of commits that this issued. It stops at the first event that
/// the store refuses.
pub fn emit_events(db: &mut LogDB, events: usize) -> (outcome: Result<usize, LogError>)
    ensures
        final(db).store() == old(db).store(),
        match outcome {
            Ok(commits) => {
                &&& final(db)@ == old(db)@.run(records(hello_rows(events as nat)))
                &&& commits == final(db)@.commits - old(db)@.commits
            },
            Err(refusal) => {
                &&& record_stage(refusal.stage)
                &&& exists|done: nat|
                    done < events && #[trigger] stopped_at(
                        old(db)@,
                        done,
                        refusal.stage,
                    ) == final(db)@
            },
        },
{
    let ghost start = db@;
    let mut commits: usize = 0;
    let mut number: usize = 0;
    while number < events
        invariant
            start == old(db)@,
            db.store() == old(db).store(),
            number <= events,
            commits <= number,
            db@ == start.run(records(hello_rows(number as nat))),
            commits == db@.commits - start.commits,
        decreases events - number,
    {
        let row = LogRow::encode(Severity::Info, hello_message(number).as_str());
        assert(records(hello_rows((number + 1) as nat)).drop_last() =~= records(
            hello_rows(number as nat),
        ));
        match db.add(&row) {
            Ok(committed) => {
                if committed {
                    commits = commits + 1;
                }
            },
            Err(refusal) => {
                assert(stopped_at(start, number as nat, refusal.stage) == db@);
                return Err(refusal);
            },
        }
        number = number + 1;
    }
    Ok(commits)
}

/// The session after one pass: a controller with threshold `batch_size` has
/// taken the session over, recorded the [`BENCH_EVENTS`] benchmark events and
/// flushed.
pub open spec fn after_pass(start: Session, batch_size: nat) -> Session {
    start.with_threshold(batch_size).run(records(hello_rows(BENCH_EVENTS as nat))).flush()
}

/// The session after the first `passes` passes of the benchmark, one for
/// each of the [`batch_sizes`] in their order.
pub open spec fn after_passes(start: Session, passes: nat) -> Session
    decreases passes,
{
    if passes == 0 {
        start
    } else {
        after_pass(after_passes(start, (passes - 1) as nat), batch_sizes()[passes - 1] as nat)
    }
}

/// The rows of `rows`, `times` times over.
pub open spec fn repeated(rows: Seq<RowModel>, times: nat) -> Seq<RowModel>
    decreases times,
{
    if times == 0 {
        Seq::empty()
    } else {
        repeated(rows, (times - 1) as nat) + rows
    }
}

/// Rows repeated are as many as the rows times the repetitions, and each
/// stands where its turn in its repetition puts it.
pub proof fn lemma_repeated(rows: Seq<RowModel>, times: nat)
    ensures
        repeated(rows, times).len() == times * rows.len(),
        forall|place: int|
            0 <= place < times * rows.len() ==> #[trigger] repeated(rows, times)[place] == rows[place
                % (rows.len() as int)],
    decreases times,
{
    let length = rows.len() as int;
    if times == 0 {
        assert(times * rows.len() == 0) by (nonlinear_arith)
            requires
                times == 0,
        ;
    } else {
        let fewer = (times - 1) as nat;
        lemma_repeated(rows, fewer);
        assert(times * rows.len() == fewer * rows.len() + rows.len()) by (nonlinear_arith)
            requires
                times == fewer + 1,
        ;
        assert forall|place: int| 0 <= place < times * rows.len() implies #[trigger] repeated(
            rows,
            times,
        )[place] == rows[place % length] by {
            if place >= fewer * rows.len() {
                vstd::arithmetic::div_mod::lemma_fundamental_div_mod_converse(
                    place,
                    length,
                    fewer as int,
                    place - fewer * rows.len(),
                );
            }
        }
    }
}

/// One pass leaves every row committed, those of the session before it and
/// then its own in their order, and has issued a commit for each full batch
/// and one for its flush.
pub proof fn lemma_after_pass(start: Session, batch_size: nat)
    ensures
        after_pass(start, batch_size).threshold == batch_size,
        after_pass(start, batch_size).committed == start.rows() + hello_rows(BENCH_EVENTS as nat),
        after_pass(start, batch_size).open == Seq::<RowModel>::empty(),
        batch_size > 0 ==> after_pass(start, batch_size).pending == BENCH_EVENTS as nat
            % batch_size,
        batch_size == 0 ==> after_pass(start, batch_size).pending == 0,
        after_pass(start, batch_size).commits == start.commits + pass_commits(
            batch_size,
            BENCH_EVENTS as nat,
        ),
{
    let taken = start.with_threshold(batch_size);
    let commands = records(hello_rows(BENCH_EVENTS as nat));
    lemma_records(hello_rows(BENCH_EVENTS as nat));
    lemma_rows_in_call_order(taken, commands);
    if batch_size > 0 {
        lemma_commits_issued(taken, commands);
    } else {
        lemma_unbatched_run(taken, commands);
    }
}

/// The passes of the benchmark leave every row committed: those of the
/// session before them, and then the benchmark events once for each pass.
pub proof fn lemma_after_passes(start: Session, passes: nat)
    requires
        passes <= batch_sizes().len(),
    ensures
        after_passes(start, passes).rows() == start.rows() + repeated(
            hello_rows(BENCH_EVENTS as nat),
            passes,
        ),
        passes > 0 ==> {
            &&& after_passes(start, passes).open == Seq::<RowModel>::empty()
            &&& after_passes(start, passes).threshold == batch_sizes()[passes - 1]
            &&& after_passes(start, passes).pending == BENCH_EVENTS as nat % (batch_sizes()[passes
                - 1] as nat)
        },
    decreases passes,
{
    if passes == 0 {
        assert(start.rows() + repeated(hello_rows(BENCH_EVENTS as nat), 0) =~= start.rows());
    } else {
        let before = after_passes(start, (passes - 1) as nat);
        lemma_after_passes(start, (passes - 1) as nat);
        lemma_after_pass(before, batch_sizes()[passes - 1] as nat);
        assert(after_passes(start, passes).rows() =~= start.rows() + repeated(
            hello_rows(BENCH_EVENTS as nat),
            passes,
        ));
    }
}

/// One pass: a controller with threshold `batch_size` takes over the
/// connection and the session of `db`, records the [`BENCH_EVENTS`]
/// benchmark events and flushes. Answers with that controller and with what
/// the pass did.
pub fn test_in_dir(db: LogDB, batch_size: usize) -> (outcome: Result<(LogDB, BenchRun), LogError>)
    ensures
        match outcome {
            Ok((after, run)) => {
                &&& after.store() == db.store()
                &&& after@ == after_pass(db@, batch_size as nat)
                &&& after@.committed == db@.rows() + hello_rows(BENCH_EVENTS as nat)
                &&& after@.open == Seq::<RowModel>::empty()
                &&& batch_size > 0 ==> after@.pending == BENCH_EVENTS % batch_size
                &&& batch_size == 0 ==> after@.pending == 0
                &&& run.batch_size == batch_size
                &&& run.events == BENCH_EVENTS
                &&& run.commits == pass_commits(batch_size as nat, BENCH_EVENTS as nat)
            },
            Err(refusal) => record_stage(refusal.stage),
        },
{
    let ghost start = db@;
    let started = std::time::SystemTime::now();
    let mut db = db.with_threshold(batch_size);
    let emitted = match emit_events(&mut db, BENCH_EVENTS) {
        Ok(commits) => commits,
        Err(refusal) => {
            return Err(refusal);
        },
    };
    match db.flush() {
        Ok(()) => {},
        Err(refusal) => {
            return Err(refusal);
        },
    }
    let elapsed = match started.elapsed() {
        Ok(duration) => Some(duration),
        Err(_) => None,
    };
    proof {
        lemma_after_pass(start, batch_size as nat);
    }
    Ok((db, BenchRun { batch_size, events: BENCH_EVENTS, commits: emitted + 1, elapsed }))
}

/// The batch sizes of the passes, in their order.
pub fn bench_batch_sizes() -> (sizes: Vec<usize>)
    ensures
        sizes@ == batch_sizes(),
{
    vec![10, 20, 30, 40, 50, 60, 70, 80, 90, 100, 200, 300, 400, 500, 600, 700, 800, 900, 1000]
}

/// Whether `runs` are the passes of the benchmark: one for each of the
/// [`batch_sizes`], in their order, each with its events and its commits.
pub open spec fn runs_of_the_passes(runs: Seq<BenchRun>) -> bool {
    &&& runs.len() == batch_sizes().len()
    &&& forall|pass: int|
        0 <= pass < runs.len() ==> {
            &&& (#[trigger] runs[pass]).batch_size == batch_sizes()[pass]
            &&& runs[pass].events == BENCH_EVENTS
            &&& runs[pass].commits == BENCH_EVENTS / batch_sizes()[pass] + 1
        }
}

/// The whole benchmark: sets up the store in the directory `path` and runs
/// one pass for each of the [`batch_sizes`], in their order, each by a
/// controller that takes the connection and the session over from the one
/// before. Answers with the last controller and with the passes, or with the
/// first refusal of the store. With the last pass every row of every pass is
/// committed, and the transaction that is open holds none.
pub fn test_path(path: std::path::PathBuf) -> (outcome: Result<(LogDB, Vec<BenchRun>), LogError>)
    ensures
        outcome matches Ok((db, runs)) ==> {
            &&& db@ == after_passes(Session::fresh(0), batch_sizes().len())
            &&& db@.committed == repeated(hello_rows(BENCH_EVENTS as nat), batch_sizes().len())
            &&& db@.committed.len() == batch_sizes().len() * BENCH_EVENTS
            &&& db@.open == Seq::<RowModel>::empty()
            &&& db@.threshold == 1000
            &&& db@.pending == 0
            &&& runs_of_the_passes(runs@)
        },
{
    let mut db = match setup_logger(path, 0) {
        Ok(db) => db,
        Err(refusal) => {
            return Err(refusal);
        },
    };
    let sizes = bench_batch_sizes();
    let mut runs: Vec<BenchRun> = Vec::new();
    let mut pass: usize = 0;
    while pass < sizes.len()
        invariant
            pass <= sizes@.len(),
            sizes@ == batch_sizes(),
            db@ == after_passes(Session::fresh(0), pass as nat),
            runs@.len() == pass,
            forall|done: int|
                0 <= done < pass ==> {
                    &&& (#[trigger] runs@[done]).batch_size == batch_sizes()[done]
                    &&& runs@[done].events == BENCH_EVENTS
                    &&& runs@[done].commits == BENCH_EVENTS / batch_sizes()[done] + 1
                },
        decreases sizes@.len() - pass,
    {
        match test_in_dir(db, sizes[pass]) {
            Ok((after, run)) => {
                db = after;
                runs.push(run);
            },
            Err(refusal) => {
                return Err(refusal);
            },
        }
        pass = pass + 1;
    }
    proof {
        lemma_after_passes(Session::fresh(0), batch_sizes().len());
        lemma_repeated(hello_rows(BENCH_EVENTS as nat), batch_sizes().len());
        assert(batch_sizes()[18] == 1000);
        assert(BENCH_EVENTS as nat % 1000 == 0);
        assert(db@.committed =~= db@.rows());
    }
    Ok((db, runs))
}

} // verus!
