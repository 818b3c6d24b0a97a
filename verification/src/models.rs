//! The records of the service: logical meters, the physical meter instances
//! installed for them, and the requests that create or change instances.

use vstd::prelude::*;
use crate::values::{Date, Decimal};

verus! {

/// A logical meter, such as the electricity or water meter of a home.
#[derive(Clone, Debug, PartialEq, Eq)]
pub struct Meter {
    pub id: i64,
    pub name: String,
    pub unit: String,
}

/// A physical meter installed by the provider for a logical meter; it is
/// active while it has no removal date.
#[derive(Clone, Debug, PartialEq, Eq)]
pub struct MeterInstance {
    pub id: i64,
    pub meter_id: i64,
    pub meter_number: String,
    pub initial_reading: Decimal,
    pub initial_reading_date: Date,
    pub installed_at: Date,
    pub removed_at: Option<Date>,
}

/// The body of a request that installs a new physical meter.
#[derive(Clone, Debug, PartialEq, Eq)]
pub struct CreateMeterInstance {
    pub meter_number: String,
    pub initial_reading: Decimal,
    pub initial_reading_date: Date,
    pub installed_at: Date,
}

/// The body of a request that removes a physical meter.
#[derive(Clone, Copy, Debug, PartialEq, Eq, Structural)]
pub struct RemoveMeterInstance {
    pub removed_at: Date,
}

/// A meter instance to be stored: the row that an insert writes.
#[derive(Clone, Debug, PartialEq, Eq)]
pub struct NewMeterInstance {
    pub meter_id: i64,
    pub meter_number: String,
    pub initial_reading: Decimal,
    pub initial_reading_date: Date,
    pub installed_at: Date,
    pub removed_at: Option<Date>,
}

pub struct NewMeterInstanceView {
    pub meter_id: i64,
    pub meter_number: Seq<char>,
    pub initial_reading: Decimal,
    pub initial_reading_date: Date,
    pub installed_at: Date,
    pub removed_at: Option<Date>,
}

impl View for NewMeterInstance {
    type V = NewMeterInstanceView;

    open spec fn view(&self) -> NewMeterInstanceView {
        NewMeterInstanceView {
            meter_id: self.meter_id,
            meter_number: self.meter_number@,
            initial_reading: self.initial_reading,
            initial_reading_date: self.initial_reading_date,
            installed_at: self.installed_at,
            removed_at: self.removed_at,
        }
    }
}

/// A reading to be stored.
#[derive(Clone, Copy, Debug, PartialEq, Eq, Structural)]
pub struct NewReading {
    pub meter_instance_id: i64,
    pub reading_date: Date,
    pub value: Decimal,
}

pub struct NewReadingView {
    pub meter_instance_id: i64,
    pub reading_date: Date,
    pub value: Decimal,
}

impl View for NewReading {
    type V = NewReadingView;

    open spec fn view(&self) -> NewReadingView {
        NewReadingView {
            meter_instance_id: self.meter_instance_id,
            reading_date: self.reading_date,
            value: self.value,
        }
    }
}

impl CreateMeterInstance {
    /// The instance this request installs under meter `meter_id`.
    pub open spec fn spec_for_meter(&self, meter_id: i64) -> NewMeterInstanceView {
        NewMeterInstanceView {
            meter_id,
            meter_number: self.meter_number@,
            initial_reading: self.initial_reading,
            initial_reading_date: self.initial_reading_date,
            installed_at: self.installed_at,
            removed_at: None,
        }
    }

    /// The instance this request installs under meter `meter_id`: active,
    /// with the request's number, initial reading and dates.
    pub fn for_meter(self, meter_id: i64) -> (res: NewMeterInstance)
        ensures
            res@ == self.spec_for_meter(meter_id),
            res.meter_id == meter_id,
            res.meter_number@ == self.meter_number@,
            res.initial_reading == self.initial_reading,
            res.initial_reading_date == self.initial_reading_date,
            res.installed_at == self.installed_at,
            res.removed_at is None,
    {
        NewMeterInstance {
            meter_id,
            meter_number: self.meter_number,
            initial_reading: self.initial_reading,
            initial_reading_date: self.initial_reading_date,
            installed_at: self.installed_at,
            removed_at: None,
        }
    }
}

/// A physical meter installed by a request is the request's meter, unchanged:
/// its number, initial reading, initial reading date and installation date
/// are those of the request, it belongs to the meter it is installed under,
/// and it is active.
pub proof fn lemma_installed_instance_is_the_request(req: CreateMeterInstance, meter_id: i64)
    ensures
        req.spec_for_meter(meter_id).meter_id == meter_id,
        req.spec_for_meter(meter_id).meter_number == req.meter_number@,
        req.spec_for_meter(meter_id).initial_reading == req.initial_reading,
        req.spec_for_meter(meter_id).initial_reading_date == req.initial_reading_date,
        req.spec_for_meter(meter_id).installed_at == req.installed_at,
        req.spec_for_meter(meter_id).removed_at is None,
{
}

} // verus!
