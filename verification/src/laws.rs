//! What holds of every record and every line, proved from the definitions of
//! the other modules.

use crate::derive::{derived, is_template, missing_due, untouched};
use crate::derive::{DateField, DerivationModel, WarningModel};
use crate::filter::{processed, written, DecodedModel, RejectionModel, WrittenModel};
use crate::offset::{resolved, resolved_offsets, Offsets, ParseErrorModel};
use crate::record::{attribute_of, valid, AttributeName, RecordModel};
use vstd::prelude::*;

verus! {

/// Whether one of `warnings` tells of a date held in `field` being replaced.
pub open spec fn warns_of_clobber(warnings: Seq<WarningModel>, field: DateField) -> bool {
    exists|i: int|
        0 <= i < warnings.len() && (#[trigger] warnings[i] matches WarningModel::Clobber {
            field: replaced,
            ..
        } && replaced == field)
}

/// Whether one of `warnings` tells of `attribute` being ignored for want of
/// a due date.
pub open spec fn warns_of_missing_due(
    warnings: Seq<WarningModel>,
    uuid: Seq<char>,
    attribute: AttributeName,
) -> bool {
    exists|i: int|
        0 <= i < warnings.len() && #[trigger] warnings[i] == (WarningModel::MissingDue {
            uuid,
            attribute,
        })
}

/// A recurring template goes out as it came in and without a warning,
/// whatever its relative attributes hold, even what is no duration, and
/// whether or not it has a due date.
pub proof fn law_template_untouched(line: Seq<char>, m: RecordModel, offsets: Offsets)
    requires
        is_template(m),
    ensures
        derived(m, offsets) == untouched(m),
        processed(m) == Ok::<DerivationModel, ParseErrorModel>(untouched(m)),
        written(line, DecodedModel::Record(m)) == WrittenModel::Rewritten(untouched(m)),
        untouched(m).record == m,
        untouched(m).warnings.len() == 0,
{
}

/// With a due date and an offset of `seconds` for `untilrel`, `until` goes
/// out as the due date plus the offset, and nothing but `until` and `wait`
/// differs from what came in. A clobber of `until` is warned of if and only
/// if `until` was held before, and the warning names the date that was held
/// and the date that replaces it. Where `offsets` are what the attributes of
/// the record resolve to, this derivation is what the filter writes.
pub proof fn law_until_is_due_plus_offset(
    line: Seq<char>,
    m: RecordModel,
    offsets: Offsets,
    due: int,
    seconds: u32,
)
    requires
        !is_template(m),
        m.due == Some(due),
        offsets.untilrel == Some(seconds),
    ensures
        resolved_offsets(m) == Ok::<Offsets, ParseErrorModel>(offsets) ==> written(
            line,
            DecodedModel::Record(m),
        ) == WrittenModel::Rewritten(derived(m, offsets)),
        derived(m, offsets).record.until == Some(due + seconds),
        derived(m, offsets).record == (RecordModel {
            until: derived(m, offsets).record.until,
            wait: derived(m, offsets).record.wait,
            ..m
        }),
        warns_of_clobber(derived(m, offsets).warnings, DateField::Until) <==> m.until is Some,
        m.until matches Some(previous) ==> derived(m, offsets).warnings[0] == (
        WarningModel::Clobber {
            uuid: m.uuid,
            field: DateField::Until,
            previous,
            replacement: due + seconds,
        }),
{
}

/// With a due date and an offset of `seconds` for `waitrel`, `wait` goes out
/// as the due date less the offset, and nothing but `until` and `wait`
/// differs from what came in. A clobber of `wait` is warned of if and only
/// if `wait` was held before, and the warning names the date that was held
/// and the date that replaces it; it is the last of the warnings. Where
/// `offsets` are what the attributes of the record resolve to, this
/// derivation is what the filter writes.
pub proof fn law_wait_is_due_less_offset(
    line: Seq<char>,
    m: RecordModel,
    offsets: Offsets,
    due: int,
    seconds: u32,
)
    requires
        !is_template(m),
        m.due == Some(due),
        offsets.waitrel == Some(seconds),
    ensures
        resolved_offsets(m) == Ok::<Offsets, ParseErrorModel>(offsets) ==> written(
            line,
            DecodedModel::Record(m),
        ) == WrittenModel::Rewritten(derived(m, offsets)),
        derived(m, offsets).record.wait == Some(due - seconds),
        derived(m, offsets).record == (RecordModel {
            until: derived(m, offsets).record.until,
            wait: derived(m, offsets).record.wait,
            ..m
        }),
        warns_of_clobber(derived(m, offsets).warnings, DateField::Wait) <==> m.wait is Some,
        m.wait matches Some(previous) ==> derived(m, offsets).warnings.last() == (
        WarningModel::Clobber {
            uuid: m.uuid,
            field: DateField::Wait,
            previous,
            replacement: due - seconds,
        }),
{
}

/// Without a due date nothing is derived: the record goes out as it came
/// in, with one warning for each attribute that resolved to an offset,
/// `untilrel` before `waitrel`, and no other warning. Where `offsets` are
/// what the attributes of the record resolve to, this is what the filter
/// writes.
pub proof fn law_no_due_no_dates(line: Seq<char>, m: RecordModel, offsets: Offsets)
    requires
        !is_template(m),
        m.due is None,
    ensures
        resolved_offsets(m) == Ok::<Offsets, ParseErrorModel>(offsets) ==> written(
            line,
            DecodedModel::Record(m),
        ) == WrittenModel::Rewritten(derived(m, offsets)),
        derived(m, offsets).record == m,
        derived(m, offsets).warnings == missing_due(m, AttributeName::Untilrel, offsets.untilrel)
            + missing_due(m, AttributeName::Waitrel, offsets.waitrel),
        offsets.untilrel is Some <==> warns_of_missing_due(
            derived(m, offsets).warnings,
            m.uuid,
            AttributeName::Untilrel,
        ),
        offsets.waitrel is Some <==> warns_of_missing_due(
            derived(m, offsets).warnings,
            m.uuid,
            AttributeName::Waitrel,
        ),
        derived(m, offsets).warnings.len() == (if offsets.untilrel is Some {
            1int
        } else {
            0int
        }) + (if offsets.waitrel is Some {
            1int
        } else {
            0int
        }),
{
    let first = missing_due(m, AttributeName::Untilrel, offsets.untilrel);
    let second = missing_due(m, AttributeName::Waitrel, offsets.waitrel);
    let all = derived(m, offsets).warnings;
    if offsets.untilrel is Some {
        assert(all[0] == first[0]);
    }
    if offsets.waitrel is Some {
        assert(all[first.len() as int] == second[0]);
    }
}

/// Where what the attribute `name` holds is no duration, the line goes out
/// as it came in, no date is derived, not even from the other attribute, and
/// the rejection tells of an attribute that did not resolve.
pub proof fn law_unresolved_passes_through(line: Seq<char>, m: RecordModel, name: AttributeName)
    requires
        !is_template(m),
        resolved(name, attribute_of(m, name)) is Err,
    ensures
        resolved_offsets(m) is Err,
        processed(m) is Err,
        written(line, DecodedModel::Record(m)) == (WrittenModel::Unchanged {
            line,
            rejection: RejectionModel::Resolve { uuid: m.uuid, error: resolved_offsets(m)->Err_0 },
        }),
        resolved_offsets(m)->Err_0.attribute == name || resolved_offsets(m)->Err_0.attribute
            == AttributeName::Untilrel,
{
}

/// The derivation touches nothing but `until` and `wait`: the relative
/// attributes, the due date and all else go out as they came in. A date is
/// set only from a due date: without one, `until` and `wait` stay too.
pub proof fn law_only_dates_change(m: RecordModel, offsets: Offsets)
    ensures
        derived(m, offsets).record == (RecordModel {
            until: derived(m, offsets).record.until,
            wait: derived(m, offsets).record.wait,
            ..m
        }),
        m.due is None ==> derived(m, offsets).record == m,
        offsets.untilrel is None ==> derived(m, offsets).record.until == m.until,
        offsets.waitrel is None ==> derived(m, offsets).record.wait == m.wait,
{
}

/// The dates of a record that can be held can still be held after the
/// derivation: every derived date is an instant that can be represented.
pub proof fn law_derived_record_is_valid(m: RecordModel, offsets: Offsets)
    requires
        valid(m),
    ensures
        valid(derived(m, offsets).record),
{
}

/// A line that does not decode goes out as it came in.
pub proof fn law_malformed_passes_through(line: Seq<char>, detail: Seq<char>)
    ensures
        written(line, DecodedModel::Malformed { detail }) == (WrittenModel::Unchanged {
            line,
            rejection: RejectionModel::Decode { detail },
        }),
{
}

/// The derivation is not idempotent. Applied to its own output it leaves the
/// record as it is, but it warns of a clobber for every offset that is set,
/// also where the first pass had nothing to warn of.
pub proof fn law_second_pass_warns(m: RecordModel, offsets: Offsets, due: int)
    requires
        !is_template(m),
        m.due == Some(due),
    ensures
        derived(derived(m, offsets).record, offsets).record == derived(m, offsets).record,
        offsets.untilrel is Some ==> warns_of_clobber(
            derived(derived(m, offsets).record, offsets).warnings,
            DateField::Until,
        ),
        offsets.waitrel is Some ==> warns_of_clobber(
            derived(derived(m, offsets).record, offsets).warnings,
            DateField::Wait,
        ),
        (offsets.untilrel is Some && m.until is None && m.wait is None) ==> derived(
            derived(m, offsets).record,
            offsets,
        ) != derived(m, offsets),
{
    let once = derived(m, offsets);
    if let Some(seconds) = offsets.untilrel {
        law_until_is_due_plus_offset(Seq::empty(), once.record, offsets, due, seconds);
    }
    if let Some(seconds) = offsets.waitrel {
        law_wait_is_due_less_offset(Seq::empty(), once.record, offsets, due, seconds);
    }
}

/// The filter as a whole is not idempotent either: the relative attributes
/// go out as they came in, so a second pass resolves them to the same
/// offsets and warns of a clobber for each.
pub proof fn law_filter_not_idempotent(m: RecordModel, offsets: Offsets, due: int)
    requires
        !is_template(m),
        m.due == Some(due),
        resolved_offsets(m) == Ok::<Offsets, ParseErrorModel>(offsets),
    ensures
        processed(m) == Ok::<DerivationModel, ParseErrorModel>(derived(m, offsets)),
        processed(derived(m, offsets).record) == Ok::<DerivationModel, ParseErrorModel>(
            derived(derived(m, offsets).record, offsets),
        ),
        offsets.untilrel is Some ==> warns_of_clobber(
            derived(derived(m, offsets).record, offsets).warnings,
            DateField::Until,
        ),
        offsets.waitrel is Some ==> warns_of_clobber(
            derived(derived(m, offsets).record, offsets).warnings,
            DateField::Wait,
        ),
{
    law_second_pass_warns(m, offsets, due);
}

} // verus!
