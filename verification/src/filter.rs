//! The filter proper: what is written for one line of input, and when the
//! stream of lines ends.
//!
//! Reading lines, decoding a line into a record, encoding a record, and
//! writing are the caller's. The caller hands over each line together with
//! what decoding made of it, and does what it is told.

use crate::derive::{derive_dates, derived, is_recurring_template, is_template, untouched};
use crate::derive::{Derivation, DerivationModel};
use crate::offset::{resolve_offsets, resolved_offsets, ParseError, ParseErrorModel};
use crate::record::{RecordModel, TaskRecord};
use vstd::prelude::*;

verus! {

/// What decoding made of a line.
#[derive(Debug, PartialEq, Eq)]
pub enum Decoded {
    /// The line is no task; `detail` says why.
    Malformed { detail: String },
    /// The task that the line holds.
    Record(TaskRecord),
}

/// The mathematical value of a [`Decoded`].
pub enum DecodedModel {
    Malformed { detail: Seq<char> },
    Record(RecordModel),
}

impl View for Decoded {
    type V = DecodedModel;

    open spec fn view(&self) -> DecodedModel {
        match self {
            Decoded::Malformed { detail } => DecodedModel::Malformed { detail: detail@ },
            Decoded::Record(record) => DecodedModel::Record(record@),
        }
    }
}

/// The stage at which a line was given up, with the detail of the error.
#[derive(Debug, PartialEq, Eq)]
pub enum Rejection {
    /// The line could not be decoded.
    Decode { detail: String },
    /// One of the relative attributes of the task `uuid` did not resolve.
    Resolve { uuid: String, error: ParseError },
}

/// The mathematical value of a [`Rejection`].
pub enum RejectionModel {
    Decode { detail: Seq<char> },
    Resolve { uuid: Seq<char>, error: ParseErrorModel },
}

impl View for Rejection {
    type V = RejectionModel;

    open spec fn view(&self) -> RejectionModel {
        match self {
            Rejection::Decode { detail } => RejectionModel::Decode { detail: detail@ },
            Rejection::Resolve { uuid, error } => RejectionModel::Resolve {
                uuid: uuid@,
                error: error@,
            },
        }
    }
}

/// What goes out for a line of input.
#[derive(Debug, PartialEq, Eq)]
pub enum Written {
    /// The record of the derivation, encoded anew; its warnings are reported.
    Rewritten(Derivation),
    /// The line as it came in; the rejection is reported.
    Unchanged { line: String, rejection: Rejection },
}

/// The mathematical value of a [`Written`].
pub enum WrittenModel {
    Rewritten(DerivationModel),
    Unchanged { line: Seq<char>, rejection: RejectionModel },
}

impl View for Written {
    type V = WrittenModel;

    open spec fn view(&self) -> WrittenModel {
        match self {
            Written::Rewritten(derivation) => WrittenModel::Rewritten(derivation@),
            Written::Unchanged { line, rejection } => WrittenModel::Unchanged {
                line: line@,
                rejection: rejection@,
            },
        }
    }
}

/// What becomes of a record: a template is left alone before its attributes
/// are even looked at; any other record has both attributes resolved, and
/// only if both resolve are its dates derived.
pub open spec fn processed(m: RecordModel) -> Result<DerivationModel, ParseErrorModel> {
    if is_template(m) {
        Ok(untouched(m))
    } else {
        match resolved_offsets(m) {
            Err(error) => Err(error),
            Ok(offsets) => Ok(derived(m, offsets)),
        }
    }
}

/// What goes out for `line`, given what decoding made of it.
pub open spec fn written(line: Seq<char>, decoded: DecodedModel) -> WrittenModel {
    match decoded {
        DecodedModel::Malformed { detail } => WrittenModel::Unchanged {
            line,
            rejection: RejectionModel::Decode { detail },
        },
        DecodedModel::Record(m) => match processed(m) {
            Ok(derivation) => WrittenModel::Rewritten(derivation),
            Err(error) => WrittenModel::Unchanged {
                line,
                rejection: RejectionModel::Resolve { uuid: m.uuid, error },
            },
        },
    }
}

/// Resolves the relative attributes of a record and derives its dates.
pub fn process_record(record: TaskRecord) -> (out: Result<Derivation, ParseError>)
    ensures
        match out {
            Ok(derivation) => processed(record@) == Ok::<DerivationModel, ParseErrorModel>(
                derivation@,
            ),
            Err(error) => processed(record@) == Err::<DerivationModel, ParseErrorModel>(error@),
        },
{
    if is_recurring_template(&record) {
        let warnings = Vec::new();
        let out = Derivation { record, warnings };
        assert(out@.warnings =~= Seq::empty());
        return Ok(out);
    }
    match resolve_offsets(&record) {
        Ok(offsets) => Ok(derive_dates(record, offsets)),
        Err(error) => Err(error),
    }
}

/// Decides what goes out for `line`: the derived record where the line
/// decoded and its attributes resolved, the line itself in every other case.
pub fn process_task_line(line: String, decoded: Decoded) -> (out: Written)
    ensures
        out@ == written(line@, decoded@),
{
    match decoded {
        Decoded::Malformed { detail } => Written::Unchanged {
            line,
            rejection: Rejection::Decode { detail },
        },
        Decoded::Record(record) => {
            let uuid = record.uuid().to_owned();
            match process_record(record) {
                Ok(derivation) => Written::Rewritten(derivation),
                Err(error) => Written::Unchanged {
                    line,
                    rejection: Rejection::Resolve { uuid, error },
                },
            }
        },
    }
}

/// What reading the input gave.
#[derive(Debug, PartialEq, Eq)]
pub enum Event {
    /// A line, with what decoding made of it.
    Line { line: String, decoded: Decoded },
    /// The input could not be read any further.
    ReadFailed { detail: String },
    /// The input is at its end.
    Exhausted,
}

/// What the caller does next.
#[derive(Debug, PartialEq, Eq)]
pub enum Action {
    /// Write this, then read on.
    Write(Written),
    /// Report `failure`, if there is one, and leave with `status`.
    Stop { status: i32, failure: Option<String> },
}

/// The exit status after the input was read to its end.
pub const EXIT_DONE: i32 = 0;

/// The exit status after reading the input failed.
pub const EXIT_READ_FAILED: i32 = 1;

/// Decides what follows an event: every line is answered by one write, in
/// the order of arrival; the filter stops only where the input ends or fails.
pub fn next_action(event: Event) -> (action: Action)
    ensures
        match event {
            Event::Line { line, decoded } => action matches Action::Write(out) && out@ == written(
                line@,
                decoded@,
            ),
            Event::ReadFailed { detail } => action matches Action::Stop { status, failure } && (
            status == EXIT_READ_FAILED && (failure matches Some(told) && told@ == detail@)),
            Event::Exhausted => action matches Action::Stop { status, failure } && (status
                == EXIT_DONE && failure is None),
        },
{
    match event {
        Event::Line { line, decoded } => Action::Write(process_task_line(line, decoded)),
        Event::ReadFailed { detail } => Action::Stop {
            status: EXIT_READ_FAILED,
            failure: Some(detail),
        },
        Event::Exhausted => Action::Stop { status: EXIT_DONE, failure: None },
    }
}

} // verus!
