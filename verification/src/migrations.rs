//! Migration bookkeeping: which migration files there are, in which order
//! they run, which of them are applied, and the run itself.

use vstd::prelude::*;
use vstd::string::*;
use crate::digest::{calculate_checksum, checksum};
use crate::failure::{ErrorKind, Failure, Step};
use crate::lexical::{before, before_is_transitive, compare, Rank};
use crate::remote::{StoreOp, StoreReply};
use crate::wire::texts_view;

verus! {

/// A migration: its id is the part of the file name before the first
/// underscore, its name the file name without `.sql`.
#[derive(Debug, Clone, PartialEq, Eq)]
pub struct Migration {
    pub id: String,
    pub name: String,
    pub sql: String,
    pub applied_at: Option<String>,
    pub checksum: String,
}

/// Where the migrations stand.
#[derive(Debug, Clone, PartialEq, Eq)]
pub struct MigrationStatus {
    pub total_migrations: usize,
    pub applied_migrations: usize,
    pub pending_migrations: Vec<String>,
    pub last_applied: Option<String>,
    pub database_version: String,
}

/// What a run of the pending migrations came to.
#[derive(Debug, Clone, PartialEq, Eq)]
pub struct MigrationResult {
    pub success: bool,
    pub applied_migrations: Vec<String>,
    pub failed_migrations: Vec<String>,
    pub errors: Vec<String>,
}

/// The text ends in `.sql` and has something before it.
pub open spec fn names_migration(filename: Seq<char>) -> bool {
    filename.len() > 4 && filename.subrange(filename.len() - 4, filename.len() as int) == ".sql"@
}

/// Position `at` is where the text is cut at `mark`: the first place that
/// holds `mark`, or the end of the text.
pub open spec fn cut_at(text: Seq<char>, mark: char, at: int) -> bool {
    &&& 0 <= at <= text.len()
    &&& forall|j: int| 0 <= j < at ==> text[j] != mark
    &&& at < text.len() ==> text[at] == mark
}

/// The file name without its `.sql`, or as it is where it has none.
pub open spec fn stem(filename: Seq<char>) -> Seq<char> {
    if filename.len() >= 4 && filename.subrange(filename.len() - 4, filename.len() as int)
        == ".sql"@ {
        filename.take(filename.len() - 4)
    } else {
        filename
    }
}

/// The migration that a file holds.
pub open spec fn holds(filename: Seq<char>, sql: String, migration: Migration) -> bool {
    &&& exists|at: int| #[trigger] cut_at(filename, '_', at) && migration.id@ == filename.take(at)
    &&& migration.name@ == stem(filename)
    &&& migration.sql == sql
    &&& migration.applied_at is None
    &&& migration.checksum@ == checksum(sql@)
}

/// Whether a file of the migrations directory is a migration.
pub fn is_migration_file(filename: &str) -> (r: bool)
    ensures
        r == names_migration(filename@),
{
    let n = filename.unicode_len();
    if n <= 4 {
        return false;
    }
    let ending = String::from_str(filename.substring_char(n - 4, n));
    ending == String::from_str(".sql")
}

fn cut_position(text: &str, mark: char) -> (at: usize)
    ensures
        cut_at(text@, mark, at as int),
{
    let n = text.unicode_len();
    let mut i: usize = 0;
    while i < n
        invariant
            i <= n,
            n == text@.len(),
            forall|j: int| 0 <= j < i ==> text@[j] != mark,
        decreases n - i,
    {
        if text.get_char(i) == mark {
            return i;
        }
        i += 1;
    }
    i
}

/// Reads a migration out of a file's name and content.
pub fn migration_from_file(filename: &str, sql: String) -> (migration: Migration)
    ensures
        holds(filename@, sql, migration),
{
    let at = cut_position(filename, '_');
    let id = String::from_str(filename.substring_char(0, at));
    let n = filename.unicode_len();
    let name = if n >= 4 && String::from_str(filename.substring_char(n - 4, n)) == String::from_str(
        ".sql",
    ) {
        String::from_str(filename.substring_char(0, n - 4))
    } else {
        String::from_str(filename)
    };
    let sum = calculate_checksum(sql.as_str());
    assert(filename@.subrange(0, at as int) =~= filename@.take(at as int));
    assert(n >= 4 ==> filename@.subrange(0, n - 4) =~= filename@.take(n - 4));
    Migration { id, name, sql, applied_at: None, checksum: sum }
}

/// The bytes by which a migration is ordered and told apart: those of its id.
pub open spec fn key(migration: Migration) -> Seq<u8> {
    vstd::utf8::encode_utf8(migration.id@)
}

/// The migrations stand in the order of their ids, and no id stands twice.
pub open spec fn ascending(migrations: Seq<Migration>) -> bool {
    forall|i: int, j: int|
        0 <= i < j < migrations.len() ==> before(
            key(#[trigger] migrations[i]),
            key(#[trigger] migrations[j]),
        )
}

/// Position `i` holds the first migration with its id.
pub open spec fn first_of_its_id(all: Seq<Migration>, i: int) -> bool {
    0 <= i < all.len() && forall|j: int| 0 <= j < i ==> key(#[trigger] all[j]) != key(all[i])
}

/// A migration with this id is among the migrations.
pub open spec fn has_id(migrations: Seq<Migration>, id: Seq<u8>) -> bool {
    exists|j: int| 0 <= j < migrations.len() && key(#[trigger] migrations[j]) == id
}

/// The migration is the first of its id among the first `upto` of `all`.
pub open spec fn comes_first(all: Seq<Migration>, upto: int, migration: Migration) -> bool {
    exists|i: int| #[trigger] first_of_its_id(all, i) && i < upto && all[i] == migration
}

/// `chosen` holds, in the order of their ids, the first migration of each id
/// among `all`.
pub open spec fn selects(all: Seq<Migration>, chosen: Seq<Migration>) -> bool {
    &&& ascending(chosen)
    &&& forall|k: int|
        0 <= k < chosen.len() ==> comes_first(all, all.len() as int, #[trigger] chosen[k])
    &&& forall|i: int| 0 <= i < all.len() ==> has_id(chosen, key(#[trigger] all[i]))
}

proof fn still_first(all: Seq<Migration>, upto: int, migration: Migration)
    requires
        comes_first(all, upto, migration),
    ensures
        comes_first(all, upto + 1, migration),
{
    let i = choose|i: int| #[trigger] first_of_its_id(all, i) && i < upto && all[i] == migration;
    assert(first_of_its_id(all, i) && i < upto + 1 && all[i] == migration);
}

fn same_key(a: &Migration, b: &Migration) -> (r: Rank)
    ensures
        r == Rank::Before <==> before(key(*a), key(*b)),
        r == Rank::After <==> before(key(*b), key(*a)),
        r == Rank::Same <==> key(*a) == key(*b),
{
    compare(a.id.as_str().as_bytes(), b.id.as_str().as_bytes())
}

/// Where a migration goes among ascending ones: the place of the first one
/// that does not come before it, and whether that one has the same id.
fn place_of(chosen: &Vec<Migration>, migration: &Migration) -> (r: (usize, bool))
    requires
        ascending(chosen@),
    ensures
        r.0 <= chosen@.len(),
        forall|i: int| 0 <= i < r.0 ==> before(key(#[trigger] chosen@[i]), key(*migration)),
        r.1 ==> r.0 < chosen@.len() && key(chosen@[r.0 as int]) == key(*migration),
        !r.1 ==> forall|i: int|
            r.0 <= i < chosen@.len() ==> before(key(*migration), key(#[trigger] chosen@[i])),
{
    let mut p: usize = 0;
    while p < chosen.len()
        invariant
            p <= chosen@.len(),
            ascending(chosen@),
            forall|i: int| 0 <= i < p ==> before(key(#[trigger] chosen@[i]), key(*migration)),
        decreases chosen@.len() - p,
    {
        match same_key(&chosen[p], migration) {
            Rank::Before => {
                p += 1;
            },
            Rank::Same => {
                return (p, true);
            },
            Rank::After => {
                assert forall|i: int| p <= i < chosen@.len() implies before(
                    key(*migration),
                    key(#[trigger] chosen@[i]),
                ) by {
                    if i > p {
                        before_is_transitive(
                            key(*migration),
                            key(chosen@[p as int]),
                            key(chosen@[i]),
                        );
                    }
                }
                return (p, false);
            },
        }
    }
    (p, false)
}

/// Puts migrations in the order of their ids; of several with one id the
/// first is kept.
pub fn unique_migrations(all: Vec<Migration>) -> (chosen: Vec<Migration>)
    ensures
        selects(all@, chosen@),
{
    let ghost whole = all@;
    let mut rest = all;
    let mut chosen: Vec<Migration> = Vec::new();
    let ghost mut done: int = 0;
    while rest.len() > 0
        invariant
            0 <= done,
            done + rest@.len() == whole.len(),
            rest@ == whole.skip(done),
            ascending(chosen@),
            forall|k: int| 0 <= k < chosen@.len() ==> comes_first(
                whole,
                done,
                #[trigger] chosen@[k],
            ),
            forall|i: int| 0 <= i < done ==> has_id(chosen@, key(#[trigger] whole[i])),
        decreases rest@.len(),
    {
        let migration = rest.remove(0);
        proof {
            assert(migration == whole[done]);
            assert(rest@ =~= whole.skip(done + 1));
        }
        let (p, present) = place_of(&chosen, &migration);
        let ghost old_chosen = chosen@;
        if !present {
            chosen.insert(p, migration);
            proof {
                assert(chosen@ == old_chosen.insert(p as int, migration));
                assert forall|i: int, j: int| 0 <= i < j < chosen@.len() implies before(
                    key(#[trigger] chosen@[i]),
                    key(#[trigger] chosen@[j]),
                ) by {
                    if i < p && j > p {
                        assert(chosen@[i] == old_chosen[i]);
                        assert(chosen@[j] == old_chosen[j - 1]);
                    } else if i < p && j < p {
                        assert(chosen@[i] == old_chosen[i]);
                        assert(chosen@[j] == old_chosen[j]);
                    } else if i == p {
                        assert(chosen@[j] == old_chosen[j - 1]);
                    } else if j == p {
                        assert(chosen@[i] == old_chosen[i]);
                    } else {
                        assert(chosen@[i] == old_chosen[i - 1]);
                        assert(chosen@[j] == old_chosen[j - 1]);
                    }
                }
                assert(first_of_its_id(whole, done)) by {
                    assert forall|j: int| 0 <= j < done implies key(#[trigger] whole[j]) != key(
                        whole[done],
                    ) by {
                        if key(whole[j]) == key(whole[done]) {
                            let t = choose|t: int|
                                0 <= t < old_chosen.len() && key(#[trigger] old_chosen[t]) == key(
                                    whole[j],
                                );
                            if t < p {
                                crate::lexical::before_is_strict(key(migration));
                            } else {
                                crate::lexical::before_is_strict(key(migration));
                            }
                        }
                    }
                }
                assert forall|k: int| 0 <= k < chosen@.len() implies comes_first(
                    whole,
                    done + 1,
                    #[trigger] chosen@[k],
                ) by {
                    if k < p {
                        assert(chosen@[k] == old_chosen[k]);
                        still_first(whole, done, old_chosen[k]);
                    } else if k == p {
                        assert(first_of_its_id(whole, done) && whole[done] == chosen@[k]);
                    } else {
                        assert(chosen@[k] == old_chosen[k - 1]);
                        still_first(whole, done, old_chosen[k - 1]);
                    }
                }
                assert forall|i: int| 0 <= i < done + 1 implies has_id(
                    chosen@,
                    key(#[trigger] whole[i]),
                ) by {
                    if i < done {
                        let t = choose|t: int|
                            0 <= t < old_chosen.len() && key(#[trigger] old_chosen[t]) == key(
                                whole[i],
                            );
                        if t < p {
                            assert(chosen@[t] == old_chosen[t]);
                        } else {
                            assert(chosen@[t + 1] == old_chosen[t]);
                        }
                    } else {
                        assert(chosen@[p as int] == migration);
                    }
                }
            }
        } else {
            proof {
                assert forall|i: int| 0 <= i < done + 1 implies has_id(
                    chosen@,
                    key(#[trigger] whole[i]),
                ) by {
                    if i == done {
                        assert(key(chosen@[p as int]) == key(whole[done]));
                    }
                }
                assert forall|k: int| 0 <= k < chosen@.len() implies comes_first(
                    whole,
                    done + 1,
                    #[trigger] chosen@[k],
                ) by {
                    still_first(whole, done, chosen@[k]);
                }
            }
        }
        proof {
            done = done + 1;
        }
    }
    chosen
}

/// The migrations that are not applied yet, in their order.
pub open spec fn pending_of(chosen: Seq<Migration>, applied: Seq<Migration>) -> Seq<Migration>
    decreases chosen.len(),
{
    if chosen.len() == 0 {
        Seq::empty()
    } else {
        let earlier = pending_of(chosen.drop_last(), applied);
        if has_id(applied, key(chosen.last())) {
            earlier
        } else {
            earlier.push(chosen.last())
        }
    }
}

/// The names of migrations.
pub open spec fn names_of(migrations: Seq<Migration>) -> Seq<Seq<char>> {
    Seq::new(migrations.len(), |i: int| migrations[i].name@)
}

/// Position `k` holds an applied migration than which none has a later id.
pub open spec fn latest(applied: Seq<Migration>, k: int) -> bool {
    0 <= k < applied.len() && forall|j: int|
        0 <= j < applied.len() ==> !before(key(applied[k]), key(#[trigger] applied[j]))
}

fn is_applied(applied: &Vec<Migration>, migration: &Migration) -> (r: bool)
    ensures
        r == has_id(applied@, key(*migration)),
{
    let mut j: usize = 0;
    while j < applied.len()
        invariant
            j <= applied@.len(),
            forall|t: int| 0 <= t < j ==> key(#[trigger] applied@[t]) != key(*migration),
        decreases applied@.len() - j,
    {
        match same_key(&applied[j], migration) {
            Rank::Same => {
                return true;
            },
            _ => {},
        }
        j += 1;
    }
    false
}

/// Takes from ordered migrations those that are not applied yet.
pub fn pending_migrations(chosen: Vec<Migration>, applied: &Vec<Migration>) -> (pending: Vec<
    Migration,
>)
    ensures
        pending@ == pending_of(chosen@, applied@),
{
    let ghost whole = chosen@;
    let mut rest = chosen;
    let mut pending: Vec<Migration> = Vec::new();
    let ghost mut done: int = 0;
    while rest.len() > 0
        invariant
            0 <= done,
            done + rest@.len() == whole.len(),
            rest@ == whole.skip(done),
            pending@ == pending_of(whole.take(done), applied@),
        decreases rest@.len(),
    {
        let migration = rest.remove(0);
        proof {
            assert(migration == whole[done]);
            assert(rest@ =~= whole.skip(done + 1));
            assert(whole.take(done + 1).drop_last() =~= whole.take(done));
            assert(whole.take(done + 1).last() == whole[done]);
        }
        if !is_applied(applied, &migration) {
            pending.push(migration);
        }
        proof {
            done = done + 1;
        }
    }
    assert(whole.take(done) =~= whole);
    pending
}

fn latest_applied(applied: &Vec<Migration>) -> (r: Option<usize>)
    ensures
        applied@.len() == 0 ==> r is None,
        applied@.len() > 0 ==> (r matches Some(k) && latest(applied@, k as int)),
{
    if applied.len() == 0 {
        return None;
    }
    let mut best: usize = 0;
    let mut i: usize = 1;
    while i < applied.len()
        invariant
            1 <= i <= applied@.len(),
            best < i,
            forall|j: int|
                0 <= j < i ==> !before(key(applied@[best as int]), key(#[trigger] applied@[j])),
        decreases applied@.len() - i,
    {
        match same_key(&applied[best], &applied[i]) {
            Rank::Before => {
                proof {
                    assert forall|j: int| 0 <= j < i + 1 implies !before(
                        key(applied@[i as int]),
                        key(#[trigger] applied@[j]),
                    ) by {
                        if before(key(applied@[i as int]), key(applied@[j])) {
                            before_is_transitive(
                                key(applied@[best as int]),
                                key(applied@[i as int]),
                                key(applied@[j]),
                            );
                            if j == i {
                                crate::lexical::before_is_strict(key(applied@[i as int]));
                            }
                        }
                    }
                }
                best = i;
            },
            _ => {},
        }
        i += 1;
    }
    Some(best)
}

fn names(migrations: &Vec<Migration>) -> (r: Vec<String>)
    ensures
        texts_view(r@) == names_of(migrations@),
{
    let mut out: Vec<String> = Vec::new();
    let mut i: usize = 0;
    while i < migrations.len()
        invariant
            i <= migrations@.len(),
            out@.len() == i,
            forall|j: int| 0 <= j < i ==> (#[trigger] out@[j])@ == migrations@[j].name@,
        decreases migrations@.len() - i,
    {
        out.push(migrations[i].name.clone());
        i += 1;
    }
    assert(texts_view(out@) =~= names_of(migrations@));
    out
}

/// The status says where the ordered migrations stand against the applied
/// ones: the version is the latest applied id, `000` where none is applied.
pub open spec fn describes(
    chosen: Seq<Migration>,
    applied: Seq<Migration>,
    status: MigrationStatus,
) -> bool {
    &&& status.total_migrations == chosen.len()
    &&& status.applied_migrations == applied.len()
    &&& texts_view(status.pending_migrations@) == names_of(pending_of(chosen, applied))
    &&& if applied.len() == 0 {
        status.last_applied is None && status.database_version@ == "000"@
    } else {
        exists|k: int| #[trigger]
            latest(applied, k) && status.last_applied == Some(applied[k].name)
                && status.database_version == applied[k].id
    }
}

/// Where ordered migrations stand against the applied ones.
pub fn migration_status(chosen: Vec<Migration>, applied: &Vec<Migration>) -> (status:
    MigrationStatus)
    ensures
        describes(chosen@, applied@, status),
{
    let total_migrations = chosen.len();
    let pending = pending_migrations(chosen, applied);
    let pending_names = names(&pending);
    let (last_applied, database_version) = match latest_applied(applied) {
        Some(k) => (Some(applied[k].name.clone()), applied[k].id.clone()),
        None => (None, String::from_str("000")),
    };
    MigrationStatus {
        total_migrations,
        applied_migrations: applied.len(),
        pending_migrations: pending_names,
        last_applied,
        database_version,
    }
}

/// Where the migration files stand against the applied migrations. Without
/// any file there is nothing to report.
pub fn get_migration_status(all: Vec<Migration>, applied: &Vec<Migration>) -> (r: Result<
    MigrationStatus,
    Failure,
>)
    ensures
        all@.len() == 0 ==> (r matches Err(f) && f.is(
            ErrorKind::NotFound,
            Step::Migration,
            None,
            Seq::empty(),
        )),
        all@.len() > 0 ==> (r matches Ok(status) && exists|chosen: Seq<Migration>| #[trigger]
            selects(all@, chosen) && describes(chosen, applied@, status)),
{
    if all.len() == 0 {
        return Err(Failure::rule(ErrorKind::NotFound, Step::Migration));
    }
    let chosen = unique_migrations(all);
    let ghost picked = chosen@;
    let status = migration_status(chosen, applied);
    assert(selects(all@, picked) && describes(picked, applied@, status));
    Ok(status)
}

/// What a run asks its surroundings to do next.
#[derive(Debug, Clone, PartialEq, Eq)]
pub enum MigrationStep {
    /// See whether the backend can be reached for this migration.
    Check { op: StoreOp, migration: Migration },
    /// Record the migration as applied, with the time of the record.
    Record { migration: Migration },
    /// The run is over.
    Finish(MigrationResult),
}

/// What the surroundings report back to a run.
#[derive(Debug, PartialEq, Eq)]
pub enum MigrationEvent {
    Checked(StoreReply),
    Recorded(Result<(), String>),
}

/// Where a run stands.
#[derive(Debug, Clone, PartialEq, Eq)]
pub enum RunStage {
    AwaitCheck { current: Migration },
    AwaitRecord { current: Migration },
    Finished,
}

/// A run of the pending migrations in progress.
#[derive(Debug, Clone, PartialEq, Eq)]
pub struct MigrationRun {
    pub pending: Vec<Migration>,
    pub result: MigrationResult,
    pub stage: RunStage,
}

/// The result as plain values: success, applied names, failed names, errors.
pub open spec fn result_view(result: MigrationResult) -> (
    bool,
    Seq<Seq<char>>,
    Seq<Seq<char>>,
    Seq<Seq<char>>,
) {
    (
        result.success,
        texts_view(result.applied_migrations@),
        texts_view(result.failed_migrations@),
        texts_view(result.errors@),
    )
}

/// The run turns to the next pending migration, or ends with the result when
/// none is left.
pub open spec fn checks_next(
    pending: Seq<Migration>,
    result: (bool, Seq<Seq<char>>, Seq<Seq<char>>, Seq<Seq<char>>),
    next: MigrationRun,
    step: MigrationStep,
) -> bool {
    &&& result_view(next.result) == result
    &&& if pending.len() == 0 {
        &&& next.pending@ == pending
        &&& next.stage == RunStage::Finished
        &&& step matches MigrationStep::Finish(done)
        &&& result_view(done) == result
    } else {
        &&& next.pending@ == pending.remove(0)
        &&& next.stage == (RunStage::AwaitCheck { current: pending[0] })
        &&& step == (MigrationStep::Check { op: StoreOp::ProbeSchema, migration: pending[0] })
    }
}

/// The run has ended with this result.
pub open spec fn run_ends(
    next: MigrationRun,
    step: MigrationStep,
    result: (bool, Seq<Seq<char>>, Seq<Seq<char>>, Seq<Seq<char>>),
) -> bool {
    &&& next.stage == RunStage::Finished
    &&& result_view(next.result) == result
    &&& step matches MigrationStep::Finish(done)
    &&& result_view(done) == result
}

/// One step of a run.
///
/// A migration whose check could not be sent has failed, and the run stops
/// there. Any other outcome of the check lets the migration be recorded as
/// applied; where the record cannot be written the error is noted and the run
/// goes on with the next migration.
pub open spec fn run_step(
    run: MigrationRun,
    event: MigrationEvent,
    next: MigrationRun,
    step: MigrationStep,
) -> bool {
    let held = result_view(run.result);
    match (run.stage, event) {
        (
            RunStage::AwaitCheck { current },
            MigrationEvent::Checked(StoreReply::Unreachable { detail }),
        ) => next.pending == run.pending && run_ends(
            next,
            step,
            (false, held.1, held.2.push(current.name@), held.3.push(detail@)),
        ),
        (RunStage::AwaitCheck { current }, MigrationEvent::Checked(_)) => {
            &&& next.pending == run.pending
            &&& result_view(next.result) == held
            &&& next.stage == (RunStage::AwaitRecord { current })
            &&& step == (MigrationStep::Record { migration: current })
        },
        (RunStage::AwaitRecord { current }, MigrationEvent::Recorded(Ok(_))) => checks_next(
            run.pending@,
            (held.0, held.1.push(current.name@), held.2, held.3),
            next,
            step,
        ),
        (RunStage::AwaitRecord { current }, MigrationEvent::Recorded(Err(detail))) => checks_next(
            run.pending@,
            (false, held.1, held.2, held.3.push(detail@)),
            next,
            step,
        ),
        _ => next.pending == run.pending && run_ends(next, step, (false, held.1, held.2, held.3)),
    }
}

fn copy_result(result: &MigrationResult) -> (r: MigrationResult)
    ensures
        result_view(r) == result_view(*result),
{
    MigrationResult {
        success: result.success,
        applied_migrations: copy_names(&result.applied_migrations),
        failed_migrations: copy_names(&result.failed_migrations),
        errors: copy_names(&result.errors),
    }
}

fn copy_names(items: &Vec<String>) -> (r: Vec<String>)
    ensures
        texts_view(r@) == texts_view(items@),
{
    let mut copied: Vec<String> = Vec::new();
    let mut i: usize = 0;
    while i < items.len()
        invariant
            i <= items@.len(),
            copied@.len() == i,
            forall|j: int| 0 <= j < i ==> (#[trigger] copied@[j])@ == items@[j]@,
        decreases items@.len() - i,
    {
        copied.push(items[i].clone());
        i += 1;
    }
    assert(texts_view(copied@) =~= texts_view(items@));
    copied
}

fn note(items: &mut Vec<String>, text: String)
    ensures
        texts_view(final(items)@) == texts_view(old(items)@).push(text@),
{
    items.push(text);
    assert(texts_view(items@) =~= texts_view(old(items)@).push(text@));
}

fn copy_migration(migration: &Migration) -> (r: Migration)
    ensures
        r == *migration,
{
    Migration {
        id: migration.id.clone(),
        name: migration.name.clone(),
        sql: migration.sql.clone(),
        applied_at: match &migration.applied_at {
            Some(t) => Some(t.clone()),
            None => None,
        },
        checksum: migration.checksum.clone(),
    }
}

fn check_next(pending: Vec<Migration>, result: MigrationResult) -> (r: (
    MigrationRun,
    MigrationStep,
))
    ensures
        checks_next(pending@, result_view(result), r.0, r.1),
{
    let mut pending = pending;
    if pending.len() == 0 {
        let done = copy_result(&result);
        (MigrationRun { pending, result, stage: RunStage::Finished }, MigrationStep::Finish(done))
    } else {
        let current = pending.remove(0);
        let migration = copy_migration(&current);
        (
            MigrationRun { pending, result, stage: RunStage::AwaitCheck { current } },
            MigrationStep::Check { op: StoreOp::ProbeSchema, migration },
        )
    }
}

fn end_run(pending: Vec<Migration>, result: MigrationResult) -> (r: (MigrationRun, MigrationStep))
    ensures
        r.0.pending == pending,
        run_ends(r.0, r.1, result_view(result)),
{
    let done = copy_result(&result);
    (MigrationRun { pending, result, stage: RunStage::Finished }, MigrationStep::Finish(done))
}

/// Error noted when there is no migration file at all.
pub open spec fn no_files() -> Seq<char> {
    "No migration files found"@
}

/// Starts a run: the migration files are put in order, those that are applied
/// are left out, and the first of the rest is checked. Without any file the
/// run has failed; without any pending migration it has succeeded at once.
pub fn run_migrations(all: Vec<Migration>, applied: &Vec<Migration>) -> (r: (
    MigrationRun,
    MigrationStep,
))
    ensures
        all@.len() == 0 ==> run_ends(
            r.0,
            r.1,
            (false, Seq::empty(), Seq::empty(), Seq::<Seq<char>>::empty().push(no_files())),
        ),
        all@.len() > 0 ==> exists|chosen: Seq<Migration>| #[trigger]
            selects(all@, chosen) && checks_next(
                pending_of(chosen, applied@),
                (true, Seq::empty(), Seq::empty(), Seq::empty()),
                r.0,
                r.1,
            ),
{
    let mut result = MigrationResult {
        success: true,
        applied_migrations: Vec::new(),
        failed_migrations: Vec::new(),
        errors: Vec::new(),
    };
    assert(texts_view(result.applied_migrations@) =~= Seq::empty());
    assert(texts_view(result.failed_migrations@) =~= Seq::empty());
    assert(texts_view(result.errors@) =~= Seq::empty());
    if all.len() == 0 {
        result.success = false;
        note(&mut result.errors, String::from_str("No migration files found"));
        return end_run(Vec::new(), result);
    }
    let chosen = unique_migrations(all);
    let ghost picked = chosen@;
    let pending = pending_migrations(chosen, applied);
    let r = check_next(pending, result);
    assert(selects(all@, picked) && checks_next(
        pending_of(picked, applied@),
        (true, Seq::empty(), Seq::empty(), Seq::empty()),
        r.0,
        r.1,
    ));
    r
}

impl MigrationRun {
    /// Takes the outcome of the step last asked for and says what comes next.
    pub fn advance(self, event: MigrationEvent) -> (r: (MigrationRun, MigrationStep))
        ensures
            run_step(self, event, r.0, r.1),
    {
        let MigrationRun { pending, result, stage } = self;
        let mut result = result;
        match (stage, event) {
            (
                RunStage::AwaitCheck { current },
                MigrationEvent::Checked(StoreReply::Unreachable { detail }),
            ) => {
                result.success = false;
                note(&mut result.failed_migrations, current.name);
                note(&mut result.errors, detail);
                end_run(pending, result)
            },
            (RunStage::AwaitCheck { current }, MigrationEvent::Checked(_)) => {
                let migration = copy_migration(&current);
                (
                    MigrationRun { pending, result, stage: RunStage::AwaitRecord { current } },
                    MigrationStep::Record { migration },
                )
            },
            (RunStage::AwaitRecord { current }, MigrationEvent::Recorded(Ok(_))) => {
                note(&mut result.applied_migrations, current.name);
                check_next(pending, result)
            },
            (RunStage::AwaitRecord { current }, MigrationEvent::Recorded(Err(detail))) => {
                result.success = false;
                note(&mut result.errors, detail);
                check_next(pending, result)
            },
            _ => {
                result.success = false;
                end_run(pending, result)
            },
        }
    }
}

} // verus!
