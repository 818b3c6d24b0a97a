//! The exchange of a physical meter: the old instance is removed and its
//! replacement installed in one transaction, so that a failed exchange
//! leaves the old instance active. The caller owns the database; it
//! performs each action and reports what came of it.

use vstd::prelude::*;
use crate::error::{spec_from_failure, AppError, DbFailure};
use crate::models::{MeterInstance, NewMeterInstance, NewMeterInstanceView};
use crate::values::{Date, Decimal};

verus! {

/// The body of a request that exchanges a physical meter: the removal date
/// of the old one, and the replacement.
#[derive(Clone, Debug, PartialEq, Eq)]
pub struct ExchangeMeterInstance {
    pub removed_at: Date,
    pub meter_number: String,
    pub initial_reading: Decimal,
    pub initial_reading_date: Date,
    pub installed_at: Date,
}

impl ExchangeMeterInstance {
    /// The replacement, installed under meter `meter_id`.
    pub open spec fn spec_replacement(&self, meter_id: i64) -> NewMeterInstanceView {
        NewMeterInstanceView {
            meter_id,
            meter_number: self.meter_number@,
            initial_reading: self.initial_reading,
            initial_reading_date: self.initial_reading_date,
            installed_at: self.installed_at,
            removed_at: None,
        }
    }

    fn replacement(&self, meter_id: i64) -> (res: NewMeterInstance)
        ensures
            res@ == self.spec_replacement(meter_id),
            res.meter_id == meter_id,
            res.meter_number@ == self.meter_number@,
            res.initial_reading == self.initial_reading,
            res.initial_reading_date == self.initial_reading_date,
            res.installed_at == self.installed_at,
            res.removed_at is None,
    {
        NewMeterInstance {
            meter_id,
            meter_number: self.meter_number.clone(),
            initial_reading: self.initial_reading,
            initial_reading_date: self.initial_reading_date,
            installed_at: self.installed_at,
            removed_at: None,
        }
    }
}

/// What came of the last action.
#[derive(Debug)]
pub enum ExchangeEvent {
    /// The transaction was opened.
    Begun,
    /// The old instance was given its removal date; this is the meter it
    /// belongs to (`None`: no instance has the id).
    Removed(Option<i64>),
    /// The replacement was inserted.
    Inserted(MeterInstance),
    /// The transaction was committed.
    Committed,
    /// The operation failed.
    Failed(DbFailure),
}

/// What the caller is to do next.
#[derive(Debug)]
pub enum ExchangeAction {
    /// Open a transaction.
    Begin,
    /// Set the removal date of the old instance, returning its meter.
    RemoveOld { instance_id: i64, removed_at: Date },
    /// Insert the replacement, returning it.
    Insert(NewMeterInstance),
    /// Commit the transaction.
    Commit,
    /// Answer with this status and the replacement.
    Respond(u16, MeterInstance),
    /// Roll the transaction back and answer with this error.
    Rollback(AppError),
}

pub enum ExchangeActionView {
    Begin,
    RemoveOld { instance_id: i64, removed_at: Date },
    Insert(NewMeterInstanceView),
    Commit,
    Respond(u16, MeterInstance),
    Rollback(AppError),
}

impl View for ExchangeAction {
    type V = ExchangeActionView;

    open spec fn view(&self) -> ExchangeActionView {
        match self {
            ExchangeAction::Begin => ExchangeActionView::Begin,
            ExchangeAction::RemoveOld { instance_id, removed_at } => ExchangeActionView::RemoveOld {
                instance_id: *instance_id,
                removed_at: *removed_at,
            },
            ExchangeAction::Insert(n) => ExchangeActionView::Insert(n@),
            ExchangeAction::Commit => ExchangeActionView::Commit,
            ExchangeAction::Respond(s, i) => ExchangeActionView::Respond(*s, *i),
            ExchangeAction::Rollback(e) => ExchangeActionView::Rollback(*e),
        }
    }
}

/// Where an exchange stands.
#[derive(Clone, Copy, Debug, PartialEq, Eq, Structural)]
pub enum ExchangeStage {
    Starting,
    Removing,
    Inserting,
    Committing,
    Finished,
}

/// An exchange in progress.
#[derive(Debug)]
pub struct MeterExchange {
    old_instance_id: i64,
    request: ExchangeMeterInstance,
    stage: ExchangeStage,
    replacement: Option<MeterInstance>,
}

pub struct MeterExchangeView {
    pub old_instance_id: i64,
    pub request: ExchangeMeterInstance,
    pub stage: ExchangeStage,
    /// The inserted replacement, once there is one.
    pub replacement: Option<MeterInstance>,
}

impl View for MeterExchange {
    type V = MeterExchangeView;

    closed spec fn view(&self) -> MeterExchangeView {
        MeterExchangeView {
            old_instance_id: self.old_instance_id,
            request: self.request,
            stage: self.stage,
            replacement: self.replacement,
        }
    }
}

impl MeterExchangeView {
    /// The events that answer the last action: its own outcome, or a failure.
    pub open spec fn accepts(self, event: ExchangeEvent) -> bool {
        match self.stage {
            ExchangeStage::Starting => event is Begun || event is Failed,
            ExchangeStage::Removing => event is Removed || event is Failed,
            ExchangeStage::Inserting => event is Inserted || event is Failed,
            ExchangeStage::Committing => (event is Committed && self.replacement is Some)
                || event is Failed,
            ExchangeStage::Finished => false,
        }
    }

    /// The next state and action once `event` came of the last action.
    pub open spec fn step(self, event: ExchangeEvent) -> (MeterExchangeView, ExchangeActionView) {
        let finished = MeterExchangeView { stage: ExchangeStage::Finished, ..self };
        match event {
            ExchangeEvent::Failed(f) => (finished, ExchangeActionView::Rollback(spec_from_failure(f))),
            ExchangeEvent::Begun => (
                MeterExchangeView { stage: ExchangeStage::Removing, ..self },
                ExchangeActionView::RemoveOld {
                    instance_id: self.old_instance_id,
                    removed_at: self.request.removed_at,
                },
            ),
            ExchangeEvent::Removed(Some(meter_id)) => (
                MeterExchangeView { stage: ExchangeStage::Inserting, ..self },
                ExchangeActionView::Insert(self.request.spec_replacement(meter_id)),
            ),
            ExchangeEvent::Removed(None) => (finished, ExchangeActionView::Rollback(AppError::NotFound)),
            ExchangeEvent::Inserted(i) => (
                MeterExchangeView {
                    stage: ExchangeStage::Committing,
                    replacement: Some(i),
                    ..self
                },
                ExchangeActionView::Commit,
            ),
            ExchangeEvent::Committed => (
                MeterExchangeView { stage: ExchangeStage::Finished, replacement: None, ..self },
                ExchangeActionView::Respond(201, self.replacement->Some_0),
            ),
        }
    }
}

impl MeterExchange {
    /// `POST /api/meter-instances/{id}/exchange`: an exchange of instance
    /// `old_instance_id`, and its first action: opening the transaction.
    pub fn exchange_meter_instance(old_instance_id: i64, request: ExchangeMeterInstance) -> (res: (MeterExchange, ExchangeAction))
        ensures
            res.0@ == (MeterExchangeView {
                old_instance_id,
                request,
                stage: ExchangeStage::Starting,
                replacement: None,
            }),
            res.1 is Begin,
    {
        (
            MeterExchange {
                old_instance_id,
                request,
                stage: ExchangeStage::Starting,
                replacement: None,
            },
            ExchangeAction::Begin,
        )
    }

    /// Whether `event` answers the last action.
    pub fn accepts(&self, event: &ExchangeEvent) -> (res: bool)
        ensures
            res == self@.accepts(*event),
    {
        match self.stage {
            ExchangeStage::Starting => matches!(event, ExchangeEvent::Begun | ExchangeEvent::Failed(_)),
            ExchangeStage::Removing => matches!(event, ExchangeEvent::Removed(_) | ExchangeEvent::Failed(_)),
            ExchangeStage::Inserting => matches!(event, ExchangeEvent::Inserted(_) | ExchangeEvent::Failed(_)),
            ExchangeStage::Committing => match event {
                ExchangeEvent::Committed => self.replacement.is_some(),
                ExchangeEvent::Failed(_) => true,
                _ => false,
            },
            ExchangeStage::Finished => false,
        }
    }

    /// Takes in what came of the last action and gives the next one.
    pub fn step(&mut self, event: ExchangeEvent) -> (res: ExchangeAction)
        requires
            old(self)@.accepts(event),
        ensures
            (final(self)@, res@) == old(self)@.step(event),
            event is Begun ==> (res matches ExchangeAction::RemoveOld { instance_id, removed_at }
                && instance_id == old(self)@.old_instance_id
                && removed_at == old(self)@.request.removed_at),
            event matches ExchangeEvent::Removed(Some(m)) ==> (res matches ExchangeAction::Insert(n)
                && n.meter_id == m
                && n.meter_number@ == old(self)@.request.meter_number@
                && n.initial_reading == old(self)@.request.initial_reading
                && n.initial_reading_date == old(self)@.request.initial_reading_date
                && n.installed_at == old(self)@.request.installed_at
                && n.removed_at is None),
    {
        match event {
            ExchangeEvent::Failed(f) => {
                self.stage = ExchangeStage::Finished;
                ExchangeAction::Rollback(AppError::from(f))
            },
            ExchangeEvent::Begun => {
                self.stage = ExchangeStage::Removing;
                ExchangeAction::RemoveOld {
                    instance_id: self.old_instance_id,
                    removed_at: self.request.removed_at,
                }
            },
            ExchangeEvent::Removed(Some(meter_id)) => {
                self.stage = ExchangeStage::Inserting;
                ExchangeAction::Insert(self.request.replacement(meter_id))
            },
            ExchangeEvent::Removed(None) => {
                self.stage = ExchangeStage::Finished;
                ExchangeAction::Rollback(AppError::NotFound)
            },
            ExchangeEvent::Inserted(i) => {
                self.stage = ExchangeStage::Committing;
                self.replacement = Some(i);
                ExchangeAction::Commit
            },
            ExchangeEvent::Committed => {
                self.stage = ExchangeStage::Finished;
                let replacement = self.replacement.take();
                match replacement {
                    Some(i) => ExchangeAction::Respond(201, i),
                    None => ExchangeAction::Rollback(AppError::NotFound),
                }
            },
        }
    }
}

/// The exchange is committed only once the old instance was removed and
/// its replacement inserted; it answers `201` with the replacement only
/// after the commit.
pub proof fn lemma_exchange_commits_only_complete(s: MeterExchangeView, event: ExchangeEvent)
    requires
        s.accepts(event),
    ensures
        s.step(event).1 is Commit ==> s.stage is Inserting && event is Inserted,
        s.step(event).1 is Respond ==> s.stage is Committing && event is Committed
            && s.step(event).1 == ExchangeActionView::Respond(201, s.replacement->Some_0),
{
}

/// A failed exchange is rolled back, so the old instance keeps no removal
/// date; a replacement whose meter number is taken, or that would be a
/// second active instance, is answered as a conflict.
pub proof fn lemma_failed_exchange_rolls_back(s: MeterExchangeView, f: DbFailure)
    requires
        s.accepts(ExchangeEvent::Failed(f)),
    ensures
        s.step(ExchangeEvent::Failed(f)).1 == ExchangeActionView::Rollback(spec_from_failure(f)),
        s.step(ExchangeEvent::Failed(f)).0.stage is Finished,
{
}

/// The replacement goes under the meter of the old instance, with the
/// request's number, initial reading, initial reading date and installation
/// date unchanged, and is active.
pub proof fn lemma_replacement_under_old_meter(s: MeterExchangeView, meter_id: i64)
    requires
        s.accepts(ExchangeEvent::Removed(Some(meter_id))),
    ensures
        s.step(ExchangeEvent::Removed(Some(meter_id))).1 matches ExchangeActionView::Insert(n)
            && n.meter_id == meter_id && n.removed_at is None
            && n.meter_number == s.request.meter_number@
            && n.initial_reading == s.request.initial_reading
            && n.initial_reading_date == s.request.initial_reading_date
            && n.installed_at == s.request.installed_at,
{
}

/// Once the exchange's transaction is open, the old instance, and no other,
/// is given the removal date of the request.
pub proof fn lemma_old_instance_removed_on_request_date(s: MeterExchangeView)
    requires
        s.accepts(ExchangeEvent::Begun),
    ensures
        s.step(ExchangeEvent::Begun).1 matches ExchangeActionView::RemoveOld { instance_id, removed_at }
            && instance_id == s.old_instance_id
            && removed_at == s.request.removed_at,
        s.step(ExchangeEvent::Begun).0.request == s.request,
        s.step(ExchangeEvent::Begun).0.old_instance_id == s.old_instance_id,
{
}

/// An exchange of instance `old_instance_id` asked for with `request` first
/// opens the transaction, then removes that instance on the request's
/// removal date, then installs the request's replacement, unchanged, under
/// the meter the old instance belonged to.
pub proof fn lemma_exchange_removes_then_installs(
    old_instance_id: i64,
    request: ExchangeMeterInstance,
    meter_id: i64,
)
    ensures
        ({
            let s0 = MeterExchangeView {
                old_instance_id,
                request,
                stage: ExchangeStage::Starting,
                replacement: None,
            };
            let (s1, a1) = s0.step(ExchangeEvent::Begun);
            let (s2, a2) = s1.step(ExchangeEvent::Removed(Some(meter_id)));
            &&& a1 == (ExchangeActionView::RemoveOld { instance_id: old_instance_id, removed_at: request.removed_at })
            &&& s1.accepts(ExchangeEvent::Removed(Some(meter_id)))
            &&& a2 matches ExchangeActionView::Insert(n)
            &&& n.meter_id == meter_id
            &&& n.meter_number == request.meter_number@
            &&& n.initial_reading == request.initial_reading
            &&& n.initial_reading_date == request.initial_reading_date
            &&& n.installed_at == request.installed_at
            &&& n.removed_at is None
        }),
{
}

/// An exchange of an instance that does not exist is rolled back and
/// answered `NotFound`; nothing is inserted.
pub proof fn lemma_exchange_of_missing_instance_is_not_found(s: MeterExchangeView)
    requires
        s.accepts(ExchangeEvent::Removed(None)),
    ensures
        s.step(ExchangeEvent::Removed(None)).1 == ExchangeActionView::Rollback(AppError::NotFound),
        s.step(ExchangeEvent::Removed(None)).0.stage is Finished,
{
}

} // verus!
