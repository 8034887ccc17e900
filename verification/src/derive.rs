//! Deriving `until` and `wait` from the due date of a task and its offsets.

use crate::offset::Offsets;
use crate::record::{AttributeName, RecordModel, Status, TaskRecord};
use crate::timestamp::{minus_seconds, plus_seconds};
use vstd::prelude::*;

verus! {

/// The two derived dates.
#[derive(Clone, Copy, Debug, PartialEq, Eq, Structural)]
pub enum DateField {
    Until,
    Wait,
}

/// Something the user should hear about; the derivation goes on regardless.
#[derive(Debug, PartialEq, Eq)]
pub enum Warning {
    /// The task `uuid` has the attribute set, but no due date to apply it to.
    MissingDue { uuid: String, attribute: AttributeName },
    /// The date `field` of the task `uuid` held `previous` and now holds
    /// `replacement`.
    Clobber { uuid: String, field: DateField, previous: i64, replacement: i64 },
}

/// The mathematical value of a [`Warning`].
pub enum WarningModel {
    MissingDue { uuid: Seq<char>, attribute: AttributeName },
    Clobber { uuid: Seq<char>, field: DateField, previous: int, replacement: int },
}

impl View for Warning {
    type V = WarningModel;

    open spec fn view(&self) -> WarningModel {
        match self {
            Warning::MissingDue { uuid, attribute } => WarningModel::MissingDue {
                uuid: uuid@,
                attribute: *attribute,
            },
            Warning::Clobber { uuid, field, previous, replacement } => WarningModel::Clobber {
                uuid: uuid@,
                field: *field,
                previous: *previous as int,
                replacement: *replacement as int,
            },
        }
    }
}

/// A record after the derivation, with the warnings that it gave rise to, in
/// the order in which they arose.
#[derive(Debug, PartialEq, Eq)]
pub struct Derivation {
    pub record: TaskRecord,
    pub warnings: Vec<Warning>,
}

/// The mathematical value of a [`Derivation`].
pub struct DerivationModel {
    pub record: RecordModel,
    pub warnings: Seq<WarningModel>,
}

impl View for Derivation {
    type V = DerivationModel;

    open spec fn view(&self) -> DerivationModel {
        DerivationModel {
            record: self.record@,
            warnings: self.warnings@.map_values(|w: Warning| w@),
        }
    }
}

/// A recurring template: the parent from which the instances of a recurring
/// task are made. Derived dates belong on the instances.
pub open spec fn is_template(m: RecordModel) -> bool {
    m.status == Status::Recurring && m.recur is Some
}

/// The record untouched, and nothing to warn of.
pub open spec fn untouched(m: RecordModel) -> DerivationModel {
    DerivationModel { record: m, warnings: Seq::empty() }
}

/// One warning for `attribute` if it resolved to an offset.
pub open spec fn missing_due(m: RecordModel, attribute: AttributeName, offset: Option<u32>) -> Seq<
    WarningModel,
> {
    if offset is Some {
        seq![WarningModel::MissingDue { uuid: m.uuid, attribute }]
    } else {
        Seq::empty()
    }
}

/// One warning for `field` if a date is derived for it while it holds one.
pub open spec fn clobber(
    m: RecordModel,
    field: DateField,
    held: Option<int>,
    candidate: Option<int>,
) -> Seq<WarningModel> {
    match (held, candidate) {
        (Some(previous), Some(replacement)) => seq![
            WarningModel::Clobber { uuid: m.uuid, field, previous, replacement },
        ],
        _ => Seq::empty(),
    }
}

/// The date that `untilrel` asks for: the due date plus the offset.
pub open spec fn until_candidate(due: int, offsets: Offsets) -> Option<int> {
    match offsets.untilrel {
        Some(seconds) => Some(due + seconds),
        None => None,
    }
}

/// The date that `waitrel` asks for: the due date less the offset.
pub open spec fn wait_candidate(due: int, offsets: Offsets) -> Option<int> {
    match offsets.waitrel {
        Some(seconds) => Some(due - seconds),
        None => None,
    }
}

/// A date after the derivation: the candidate where there is one, else what
/// the record held.
pub open spec fn settled(held: Option<int>, candidate: Option<int>) -> Option<int> {
    if candidate is Some {
        candidate
    } else {
        held
    }
}

/// What the derivation makes of a record and its offsets.
///
/// A template stays as it is, silently. A record without a due date stays as
/// it is, with a warning for each offset that cannot be applied. Otherwise
/// `until` becomes the due date plus the offset of `untilrel`, and `wait` the
/// due date less the offset of `waitrel`, with a warning for each date that
/// was held before.
pub open spec fn derived(m: RecordModel, offsets: Offsets) -> DerivationModel {
    if is_template(m) {
        untouched(m)
    } else {
        match m.due {
            None => DerivationModel {
                record: m,
                warnings: missing_due(m, AttributeName::Untilrel, offsets.untilrel) + missing_due(
                    m,
                    AttributeName::Waitrel,
                    offsets.waitrel,
                ),
            },
            Some(due) => DerivationModel {
                record: RecordModel {
                    until: settled(m.until, until_candidate(due, offsets)),
                    wait: settled(m.wait, wait_candidate(due, offsets)),
                    ..m
                },
                warnings: clobber(m, DateField::Until, m.until, until_candidate(due, offsets))
                    + clobber(m, DateField::Wait, m.wait, wait_candidate(due, offsets)),
            },
        }
    }
}

/// Tells whether a record is a recurring template.
pub fn is_recurring_template(record: &TaskRecord) -> (template: bool)
    ensures
        template == is_template(record@),
{
    record.status() == Status::Recurring && record.has_recur()
}

/// Derives `until` and `wait` of `record` from its due date and `offsets`.
pub fn derive_dates(record: TaskRecord, offsets: Offsets) -> (out: Derivation)
    ensures
        out@ == derived(record@, offsets),
{
    let mut record = record;
    let mut warnings: Vec<Warning> = Vec::new();
    let ghost before = record@;
    if is_recurring_template(&record) {
        assert(warnings@.map_values(|w: Warning| w@) =~= Seq::empty());
        return Derivation { record, warnings };
    }
    let due = match record.due() {
        Some(due) => due,
        None => {
            if offsets.untilrel.is_some() {
                warnings.push(
                    Warning::MissingDue {
                        uuid: record.uuid().to_owned(),
                        attribute: AttributeName::Untilrel,
                    },
                );
            }
            if offsets.waitrel.is_some() {
                warnings.push(
                    Warning::MissingDue {
                        uuid: record.uuid().to_owned(),
                        attribute: AttributeName::Waitrel,
                    },
                );
            }
            assert(warnings@.map_values(|w: Warning| w@) =~= derived(before, offsets).warnings);
            return Derivation { record, warnings };
        },
    };
    if let Some(seconds) = offsets.untilrel {
        let candidate = plus_seconds(due, seconds);
        if let Some(previous) = record.until() {
            warnings.push(
                Warning::Clobber {
                    uuid: record.uuid().to_owned(),
                    field: DateField::Until,
                    previous,
                    replacement: candidate,
                },
            );
        }
        record.set_until(candidate);
    }
    if let Some(seconds) = offsets.waitrel {
        let candidate = minus_seconds(due, seconds);
        if let Some(previous) = record.wait() {
            warnings.push(
                Warning::Clobber {
                    uuid: record.uuid().to_owned(),
                    field: DateField::Wait,
                    previous,
                    replacement: candidate,
                },
            );
        }
        record.set_wait(candidate);
    }
    assert(warnings@.map_values(|w: Warning| w@) =~= derived(before, offsets).warnings);
    Derivation { record, warnings }
}

} // verus!
