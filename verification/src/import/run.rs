//! The transaction that stores an import: one database operation after
//! another, decided from the answers of the previous ones. The caller owns
//! the database; it performs each action and reports what came of it.

use vstd::prelude::*;
use crate::import::{
    MeterCsvRow, MeterInstanceCsvRow, MeterInstanceRowView, MeterRowView, ReadingCsvRow, ReadingRowView,
};
use crate::models::{NewMeterInstance, NewMeterInstanceView, NewReading, NewReadingView};

verus! {

/// A row to be stored.
#[derive(Debug)]
pub enum ImportRow {
    Meter(MeterCsvRow),
    Instance(MeterInstanceCsvRow),
    Reading(ReadingCsvRow),
}

pub enum ImportRowView {
    Meter(MeterRowView),
    Instance(MeterInstanceRowView),
    Reading(ReadingRowView),
}

impl View for ImportRow {
    type V = ImportRowView;

    open spec fn view(&self) -> ImportRowView {
        match self {
            ImportRow::Meter(m) => ImportRowView::Meter(m@),
            ImportRow::Instance(i) => ImportRowView::Instance(i@),
            ImportRow::Reading(r) => ImportRowView::Reading(r@),
        }
    }
}

/// What came of the last action.
#[derive(Clone, Copy, Debug, PartialEq, Eq, Structural)]
pub enum DbEvent {
    /// The transaction was opened.
    Begun,
    /// The record looked up has this id.
    Found(i64),
    /// The row was inserted under this id.
    Inserted(i64),
    /// The transaction was committed.
    Committed,
    /// The operation failed (for a lookup: also where no record matches).
    Failed,
}

/// What the caller is to do next.
#[derive(Debug)]
pub enum ImportAction {
    /// Open a transaction.
    Begin,
    /// Look up the id of the meter with this name.
    LookupMeter { name: String },
    /// Look up the id of the meter instance with this meter number.
    LookupInstance { meter_number: String },
    /// Insert a meter with this name and unit, returning its id.
    InsertMeter { name: String, unit: String },
    /// Insert this meter instance, returning its id.
    InsertInstance(NewMeterInstance),
    /// Insert this reading, returning its id.
    InsertReading(NewReading),
    /// Commit the transaction.
    Commit,
    /// The import is stored: these are the ids of the rows, in row order.
    Finish(Vec<i64>),
    /// The import failed: roll the transaction back and report the failure.
    Abort,
}

pub enum ImportActionView {
    Begin,
    LookupMeter(Seq<char>),
    LookupInstance(Seq<char>),
    InsertMeter(Seq<char>, Seq<char>),
    InsertInstance(NewMeterInstanceView),
    InsertReading(NewReadingView),
    Commit,
    Finish(Seq<i64>),
    Abort,
}

impl View for ImportAction {
    type V = ImportActionView;

    open spec fn view(&self) -> ImportActionView {
        match self {
            ImportAction::Begin => ImportActionView::Begin,
            ImportAction::LookupMeter { name } => ImportActionView::LookupMeter(name@),
            ImportAction::InsertMeter { name, unit } => ImportActionView::InsertMeter(name@, unit@),
            ImportAction::LookupInstance { meter_number } => ImportActionView::LookupInstance(
                meter_number@,
            ),
            ImportAction::InsertInstance(n) => ImportActionView::InsertInstance(n@),
            ImportAction::InsertReading(n) => ImportActionView::InsertReading(n@),
            ImportAction::Commit => ImportActionView::Commit,
            ImportAction::Finish(ids) => ImportActionView::Finish(ids@),
            ImportAction::Abort => ImportActionView::Abort,
        }
    }
}

/// Where an import stands.
#[derive(Clone, Copy, Debug, PartialEq, Eq, Structural)]
pub enum Phase {
    /// Waiting for the transaction to open.
    Starting,
    /// Storing the rows.
    Running,
    /// Every row is stored; waiting for the commit.
    Committing,
    /// Committed.
    Done,
    /// Failed; the transaction is to be rolled back.
    Failed,
}

/// An import in progress.
#[derive(Debug)]
pub struct ImportRun {
    rows: Vec<ImportRow>,
    ids: Vec<i64>,
    found: Option<i64>,
    phase: Phase,
}

pub struct ImportRunView {
    /// The rows to store, in order.
    pub rows: Seq<ImportRowView>,
    /// The ids of the rows stored so far, in row order.
    pub ids: Seq<i64>,
    /// The id looked up for the row being stored (the meter of an instance
    /// row, the meter instance of a reading row).
    pub found: Option<i64>,
    pub phase: Phase,
}

impl View for ImportRun {
    type V = ImportRunView;

    closed spec fn view(&self) -> ImportRunView {
        ImportRunView {
            rows: self.rows@.map_values(|r: ImportRow| r@),
            ids: self.ids@,
            found: self.found,
            phase: self.phase,
        }
    }
}

/// The row needs an id looked up before it can be inserted.
pub open spec fn needs_lookup(r: ImportRowView) -> bool {
    !(r is Meter)
}

/// The reading that a reading row becomes for meter instance `instance_id`.
pub open spec fn reading_for(r: ReadingRowView, instance_id: i64) -> NewReadingView {
    NewReadingView { meter_instance_id: instance_id, reading_date: r.reading_date, value: r.value }
}

/// The instance that an instance row becomes under meter `meter_id`.
pub open spec fn instance_for(r: MeterInstanceRowView, meter_id: i64) -> NewMeterInstanceView {
    NewMeterInstanceView {
        meter_id,
        meter_number: r.meter_number,
        initial_reading: r.initial_reading,
        initial_reading_date: r.initial_reading_date,
        installed_at: r.installed_at,
        removed_at: r.removed_at,
    }
}

impl ImportRunView {
    /// The state of a run that is to store `rows`.
    pub open spec fn start(rows: Seq<ImportRowView>) -> ImportRunView {
        ImportRunView { rows, ids: Seq::empty(), found: None, phase: Phase::Starting }
    }

    /// The states that a run can reach.
    pub open spec fn wf(self) -> bool {
        &&& self.ids.len() <= self.rows.len()
        &&& self.phase is Starting ==> self.ids.len() == 0
        &&& self.phase is Running ==> self.ids.len() < self.rows.len()
        &&& (self.phase is Committing || self.phase is Done) ==> self.ids.len() == self.rows.len()
        &&& self.found is Some ==> self.phase is Running && needs_lookup(self.rows[self.ids.len() as int])
    }

    /// The row being stored.
    pub open spec fn current(self) -> ImportRowView {
        self.rows[self.ids.len() as int]
    }

    /// The operation that stores the current row, or its next part.
    pub open spec fn operation(self) -> ImportActionView {
        match self.current() {
            ImportRowView::Meter(m) => ImportActionView::InsertMeter(m.name, m.unit),
            ImportRowView::Instance(r) => match self.found {
                None => ImportActionView::LookupMeter(r.meter_name),
                Some(id) => ImportActionView::InsertInstance(instance_for(r, id)),
            },
            ImportRowView::Reading(r) => match self.found {
                None => ImportActionView::LookupInstance(r.meter_number),
                Some(id) => ImportActionView::InsertReading(reading_for(r, id)),
            },
        }
    }

    /// The state and action once the rows before `ids.len()` are stored:
    /// the commit when every row is, else the next row's operation.
    pub open spec fn proceed(self) -> (ImportRunView, ImportActionView) {
        if self.ids.len() == self.rows.len() {
            (ImportRunView { phase: Phase::Committing, ..self }, ImportActionView::Commit)
        } else {
            let s = ImportRunView { phase: Phase::Running, ..self };
            (s, s.operation())
        }
    }

    /// The failed state: the transaction is to be rolled back.
    pub open spec fn failed(self) -> (ImportRunView, ImportActionView) {
        (ImportRunView { phase: Phase::Failed, found: None, ..self }, ImportActionView::Abort)
    }

    /// The next state and action once `event` came of the last action. A
    /// finished run stays as it is; a failure, or an event that does not
    /// answer the last action, fails the run.
    pub open spec fn step(self, event: DbEvent) -> (ImportRunView, ImportActionView) {
        match self.phase {
            Phase::Done => (self, ImportActionView::Finish(self.ids)),
            Phase::Failed => (self, ImportActionView::Abort),
            Phase::Starting => match event {
                DbEvent::Begun => self.proceed(),
                _ => self.failed(),
            },
            Phase::Committing => match event {
                DbEvent::Committed => (
                    ImportRunView { phase: Phase::Done, ..self },
                    ImportActionView::Finish(self.ids),
                ),
                _ => self.failed(),
            },
            Phase::Running => match event {
                DbEvent::Found(id) => if needs_lookup(self.current()) && self.found is None {
                    let s = ImportRunView { found: Some(id), ..self };
                    (s, s.operation())
                } else {
                    self.failed()
                },
                DbEvent::Inserted(id) => if !needs_lookup(self.current()) || self.found is Some {
                    ImportRunView { ids: self.ids.push(id), found: None, ..self }.proceed()
                } else {
                    self.failed()
                },
                _ => self.failed(),
            },
        }
    }
}

/// The state a run reaches from `s` through `events`, one after another.
pub open spec fn run_through(s: ImportRunView, events: Seq<DbEvent>) -> ImportRunView
    decreases events.len(),
{
    if events.len() == 0 {
        s
    } else {
        run_through(s.step(events[0]).0, events.drop_first())
    }
}

impl ImportRun {
    /// A run that is to store `rows`, and its first action: opening the
    /// transaction.
    pub fn new(rows: Vec<ImportRow>) -> (res: (ImportRun, ImportAction))
        ensures
            res.0@ == ImportRunView::start(rows@.map_values(|r: ImportRow| r@)),
            res.1 is Begin,
            res.0@.wf(),
    {
        (ImportRun { rows, ids: Vec::new(), found: None, phase: Phase::Starting }, ImportAction::Begin)
    }

    fn operation(&self) -> (res: ImportAction)
        requires
            self@.wf(),
            self@.ids.len() < self@.rows.len(),
        ensures
            res@ == self@.operation(),
            self@.current() matches ImportRowView::Instance(r) ==> (self@.found matches Some(id) ==> (
                res matches ImportAction::InsertInstance(n)
                && n.meter_id == id
                && n.meter_number@ == r.meter_number
                && n.initial_reading == r.initial_reading
                && n.initial_reading_date == r.initial_reading_date
                && n.installed_at == r.installed_at
                && n.removed_at == r.removed_at)),
            self@.current() matches ImportRowView::Reading(r) ==> (self@.found matches Some(id) ==> (
                res matches ImportAction::InsertReading(n)
                && n.meter_instance_id == id
                && n.reading_date == r.reading_date
                && n.value == r.value)),
    {
        let k = self.ids.len();
        match &self.rows[k] {
            ImportRow::Meter(m) => ImportAction::InsertMeter {
                name: m.name.clone(),
                unit: m.unit.clone(),
            },
            ImportRow::Reading(r) => match self.found {
                None => ImportAction::LookupInstance { meter_number: r.meter_number.clone() },
                Some(id) => ImportAction::InsertReading(
                    NewReading { meter_instance_id: id, reading_date: r.reading_date, value: r.value },
                ),
            },
            ImportRow::Instance(r) => match self.found {
                None => ImportAction::LookupMeter { name: r.meter_name.clone() },
                Some(id) => ImportAction::InsertInstance(
                    NewMeterInstance {
                        meter_id: id,
                        meter_number: r.meter_number.clone(),
                        initial_reading: r.initial_reading,
                        initial_reading_date: r.initial_reading_date,
                        installed_at: r.installed_at,
                        removed_at: r.removed_at,
                    },
                ),
            },
        }
    }

    fn proceed(&mut self) -> (res: ImportAction)
        requires
            old(self)@.ids.len() <= old(self)@.rows.len(),
            old(self)@.found is None,
        ensures
            (final(self)@, res@) == old(self)@.proceed(),
    {
        if self.ids.len() == self.rows.len() {
            self.phase = Phase::Committing;
            ImportAction::Commit
        } else {
            self.phase = Phase::Running;
            self.operation()
        }
    }

    fn fail(&mut self) -> (res: ImportAction)
        ensures
            (final(self)@, res@) == old(self)@.failed(),
    {
        self.phase = Phase::Failed;
        self.found = None;
        ImportAction::Abort
    }

    /// Takes in what came of the last action and gives the next one.
    pub fn step(&mut self, event: DbEvent) -> (res: ImportAction)
        requires
            old(self)@.wf(),
        ensures
            (final(self)@, res@) == old(self)@.step(event),
            final(self)@.wf(),
    {
        proof { lemma_step_keeps_wf(self@, event); }
        match self.phase {
            Phase::Done => ImportAction::Finish(self.ids.clone()),
            Phase::Failed => ImportAction::Abort,
            Phase::Starting => match event {
                DbEvent::Begun => self.proceed(),
                _ => self.fail(),
            },
            Phase::Committing => match event {
                DbEvent::Committed => {
                    self.phase = Phase::Done;
                    ImportAction::Finish(self.ids.clone())
                },
                _ => self.fail(),
            },
            Phase::Running => {
                let k = self.ids.len();
                let lookup = match &self.rows[k] {
                    ImportRow::Meter(_) => false,
                    _ => true,
                };
                match event {
                    DbEvent::Found(id) => {
                        if lookup && self.found.is_none() {
                            self.found = Some(id);
                            self.operation()
                        } else {
                            self.fail()
                        }
                    },
                    DbEvent::Inserted(id) => {
                        if !lookup || self.found.is_some() {
                            self.ids.push(id);
                            self.found = None;
                            self.proceed()
                        } else {
                            self.fail()
                        }
                    },
                    _ => self.fail(),
                }
            },
        }
    }
}

/// Every step keeps a run in the states it can reach.
pub proof fn lemma_step_keeps_wf(s: ImportRunView, event: DbEvent)
    requires
        s.wf(),
    ensures
        s.step(event).0.wf(),
{
}

/// Every run through any events stays in the states a run can reach.
pub proof fn lemma_run_keeps_wf(s: ImportRunView, events: Seq<DbEvent>)
    requires
        s.wf(),
    ensures
        run_through(s, events).wf(),
        run_through(s, events).rows == s.rows,
    decreases events.len(),
{
    if events.len() > 0 {
        lemma_step_keeps_wf(s, events[0]);
        lemma_run_keeps_wf(s.step(events[0]).0, events.drop_first());
    }
}

/// The commit is asked for only once every row is stored.
pub proof fn lemma_commit_only_after_every_row(s: ImportRunView, event: DbEvent)
    requires
        s.wf(),
        s.step(event).1 is Commit,
    ensures
        s.step(event).0.ids.len() == s.rows.len(),
        s.step(event).0.phase is Committing,
{
}

/// A run reports success only after the commit was confirmed, and then
/// with one id for each row.
pub proof fn lemma_finish_reports_every_row(s: ImportRunView, event: DbEvent)
    requires
        s.wf(),
        s.step(event).1 is Finish,
    ensures
        s.step(event).1 == ImportActionView::Finish(s.step(event).0.ids),
        s.step(event).0.ids.len() == s.rows.len(),
        s.phase is Done || (s.phase is Committing && event is Committed),
        s.step(event).0.phase is Done,
{
}

/// Rows are stored in order: each insert writes the row at the position
/// of the next id, an instance row under the meter found for it and a
/// reading row for the meter instance found for it.
pub proof fn lemma_inserts_follow_row_order(s: ImportRunView, event: DbEvent)
    requires
        s.wf(),
    ensures
        s.step(event).1 matches ImportActionView::InsertMeter(name, unit) ==> {
            let t = s.step(event).0;
            &&& t.ids.len() < t.rows.len()
            &&& t.rows[t.ids.len() as int] matches ImportRowView::Meter(m)
            &&& m.name == name && m.unit == unit
        },
        s.step(event).1 matches ImportActionView::InsertInstance(n) ==> {
            let t = s.step(event).0;
            &&& t.ids.len() < t.rows.len()
            &&& t.rows[t.ids.len() as int] matches ImportRowView::Instance(r)
            &&& t.found == Some(n.meter_id)
            &&& n == instance_for(r, n.meter_id)
        },
        s.step(event).1 matches ImportActionView::InsertReading(n) ==> {
            let t = s.step(event).0;
            &&& t.ids.len() < t.rows.len()
            &&& t.rows[t.ids.len() as int] matches ImportRowView::Reading(r)
            &&& t.found == Some(n.meter_instance_id)
            &&& n == reading_for(r, n.meter_instance_id)
        },
{
}

/// A confirmed insert records its id after the ids of the rows before it,
/// and moves on to the next row.
pub proof fn lemma_insert_appends_its_id(s: ImportRunView, id: i64)
    requires
        s.wf(),
        s.phase is Running,
        !needs_lookup(s.current()) || s.found is Some,
    ensures
        s.step(DbEvent::Inserted(id)).0.ids == s.ids.push(id),
        s.step(DbEvent::Inserted(id)).0.found is None,
{
}

/// A failure of any database operation, before the commit is confirmed,
/// fails the run: nothing is committed and the transaction is rolled back.
pub proof fn lemma_failure_aborts(s: ImportRunView)
    requires
        s.wf(),
        !(s.phase is Done),
    ensures
        s.step(DbEvent::Failed).0.phase is Failed,
        s.step(DbEvent::Failed).1 is Abort,
{
}

/// A failed run stays failed whatever comes after, asks for nothing but the
/// rollback, and so never commits.
pub proof fn lemma_failure_is_final(s: ImportRunView, events: Seq<DbEvent>)
    requires
        s.phase is Failed,
    ensures
        run_through(s, events) == s,
        forall|i: int| 0 <= i < events.len() ==> #[trigger] s.step(events[i]).1 is Abort,
    decreases events.len(),
{
    if events.len() > 0 {
        lemma_failure_is_final(s, events.drop_first());
    }
}

/// A run that reaches its end stored every row: the ids it reports are one
/// per row.
pub proof fn lemma_completed_run_stored_every_row(rows: Seq<ImportRowView>, events: Seq<DbEvent>)
    requires
        run_through(ImportRunView::start(rows), events).phase is Done,
    ensures
        run_through(ImportRunView::start(rows), events).ids.len() == rows.len(),
{
    lemma_run_keeps_wf(ImportRunView::start(rows), events);
}

/// Running through `a` and then `b` is running through `a + b`.
pub proof fn lemma_run_through_concat(s: ImportRunView, a: Seq<DbEvent>, b: Seq<DbEvent>)
    ensures
        run_through(s, a + b) == run_through(run_through(s, a), b),
    decreases a.len(),
{
    if a.len() == 0 {
        assert(a + b =~= b);
    } else {
        assert((a + b)[0] == a[0]);
        assert((a + b).drop_first() =~= a.drop_first() + b);
        lemma_run_through_concat(s.step(a[0]).0, a.drop_first(), b);
    }
}

/// An import is all or nothing over a whole run: where any database
/// operation fails before the run is done, the run ends failed, whatever
/// comes after, so the transaction is never committed and no ids are
/// reported.
pub proof fn lemma_failed_run_never_completes(rows: Seq<ImportRowView>, events: Seq<DbEvent>, k: int)
    requires
        0 <= k < events.len(),
        events[k] is Failed,
        !(run_through(ImportRunView::start(rows), events.take(k)).phase is Done),
    ensures
        run_through(ImportRunView::start(rows), events).phase is Failed,
{
    let s0 = ImportRunView::start(rows);
    let before = events.take(k);
    let s1 = run_through(s0, before);
    lemma_run_keeps_wf(s0, before);
    lemma_failure_aborts(s1);
    let s2 = s1.step(DbEvent::Failed).0;
    let one = seq![events[k]];
    let after = events.skip(k + 1);
    assert(events =~= before + (one + after));
    lemma_run_through_concat(s0, before, one + after);
    lemma_run_through_concat(s1, one, after);
    assert(one.drop_first() =~= Seq::<DbEvent>::empty());
    assert(one[0] == DbEvent::Failed);
    assert(run_through(s2, Seq::<DbEvent>::empty()) == s2);
    assert(run_through(s1, one) == run_through(s2, one.drop_first()));
    assert(run_through(s1, one) == s2);
    lemma_failure_is_final(s2, after);
}

/// Once the meter of a meter-instance row is found, the import inserts that
/// row's instance unchanged under the meter found: its number, initial
/// reading, initial reading date, installation date and removal date are
/// the row's.
pub proof fn lemma_instance_row_inserted_unchanged(s: ImportRunView, r: MeterInstanceRowView, meter_id: i64)
    requires
        s.wf(),
        s.phase is Running,
        s.found is None,
        s.current() == ImportRowView::Instance(r),
    ensures
        s.step(DbEvent::Found(meter_id)).1 matches ImportActionView::InsertInstance(n)
            && n.meter_id == meter_id
            && n.meter_number == r.meter_number
            && n.initial_reading == r.initial_reading
            && n.initial_reading_date == r.initial_reading_date
            && n.installed_at == r.installed_at
            && n.removed_at == r.removed_at,
{
}

/// Once the meter instance of a reading row is found, the import inserts
/// that row's reading unchanged for the instance found: its date and value
/// are the row's.
pub proof fn lemma_reading_row_inserted_unchanged(s: ImportRunView, r: ReadingRowView, instance_id: i64)
    requires
        s.wf(),
        s.phase is Running,
        s.found is None,
        s.current() == ImportRowView::Reading(r),
    ensures
        s.step(DbEvent::Found(instance_id)).1 matches ImportActionView::InsertReading(n)
            && n.meter_instance_id == instance_id
            && n.reading_date == r.reading_date
            && n.value == r.value,
{
}

} // verus!
